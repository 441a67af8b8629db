//! The suspend/resume protocol of the nonblocking read and write paths.
//!
//! An edge-triggered readiness facility wakes a suspended operation; the
//! woken operation attempts the underlying syscall. A would-block outcome is
//! a spurious wakeup (for instance a concurrent reader raced ahead): the
//! readiness signal is cleared and the operation suspends again, and this is
//! never surfaced as an error. Each direction of a split interface drives
//! its own operation, so the read protocol never consults write readiness
//! nor the other way round.

use vstd::prelude::*;

verus! {

/// The two states of one nonblocking read or write operation.
#[derive(Debug, Clone, Copy, PartialEq, Eq, Structural)]
pub enum Phase {
    /// Waiting for the readiness facility; the operation's only suspension
    /// point.
    Suspended,
    /// Woken by a readiness signal; the syscall is being attempted.
    Attempting,
}

/// What the underlying read or write syscall reported.
#[derive(Debug, Clone, Copy, PartialEq, Eq, Structural)]
pub enum SyscallOutcome {
    /// The syscall transferred this many bytes.
    Transferred(usize),
    /// The descriptor was not actually ready despite the wakeup.
    WouldBlock,
    /// Any other failure, by OS error code.
    Failed(i32),
}

/// What the protocol does after observing a syscall outcome.
#[derive(Debug, Clone, Copy, PartialEq, Eq, Structural)]
pub enum Step {
    /// Clear the readiness signal, suspend, and retry after the next wakeup.
    Park,
    /// The operation is complete with this byte count.
    Complete(usize),
    /// The operation failed; surface this OS error code.
    Fault(i32),
}

/// The protocol's decision for one syscall outcome.
pub open spec fn decide(o: SyscallOutcome) -> Step {
    match o {
        SyscallOutcome::Transferred(n) => Step::Complete(n),
        SyscallOutcome::WouldBlock => Step::Park,
        SyscallOutcome::Failed(code) => Step::Fault(code),
    }
}

/// One read or write operation driven by readiness notifications.
pub struct Operation {
    /// Where the operation stands in the protocol.
    pub phase: Phase,
}

impl Operation {
    /// A fresh operation, suspended until the facility reports readiness.
    pub fn new() -> (r: Self)
        ensures
            r.phase == Phase::Suspended,
    {
        Operation { phase: Phase::Suspended }
    }

    /// A readiness signal wakes the operation: the syscall may now be
    /// attempted.
    pub fn wake(&mut self)
        requires
            old(self).phase == Phase::Suspended,
        ensures
            final(self).phase == Phase::Attempting,
    {
        self.phase = Phase::Attempting;
    }

    /// Applies the protocol to the outcome of an attempted syscall. A
    /// transfer completes the operation, a would-block parks it for another
    /// round, any other failure surfaces its error code; in every case the
    /// operation suspends until the next wakeup.
    pub fn observe(&mut self, outcome: SyscallOutcome) -> (s: Step)
        requires
            old(self).phase == Phase::Attempting,
        ensures
            s == decide(outcome),
            final(self).phase == Phase::Suspended,
    {
        self.phase = Phase::Suspended;
        match outcome {
            SyscallOutcome::Transferred(n) => Step::Complete(n),
            SyscallOutcome::WouldBlock => Step::Park,
            SyscallOutcome::Failed(code) => Step::Fault(code),
        }
    }
}

/// A would-block outcome is retried, never surfaced: its decision is to park
/// and retry; a fault is decided only for a genuinely failed syscall, and a
/// completion only for a genuine transfer.
pub proof fn lemma_would_block_never_surfaces()
    ensures
        decide(SyscallOutcome::WouldBlock) == Step::Park,
        forall|o: SyscallOutcome|
            (#[trigger] decide(o)) matches Step::Fault(c) ==> o == SyscallOutcome::Failed(c),
        forall|o: SyscallOutcome|
            (#[trigger] decide(o)) matches Step::Complete(n) ==> o == SyscallOutcome::Transferred(
                n,
            ),
{
}

} // verus!
