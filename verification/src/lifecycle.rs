//! Shared ownership of the device descriptor: reference counting with a
//! close at the last release, and never another.
//!
//! An interface owns its descriptor alone until it is split; a split shares
//! the descriptor between a read half and a write half. Whoever releases
//! last closes. This module is the accounting model of that lifecycle; the
//! unverified shell realises it with a reference-counted container.

use vstd::prelude::*;

verus! {

/// Accounting for one device descriptor under shared ownership: how many
/// owners remain, and how often the descriptor has been closed.
#[derive(Debug, Clone, Copy, PartialEq, Eq, Structural)]
pub struct HandleLife {
    /// Owners still alive: the sole interface, or its read and write halves
    /// after a split.
    pub owners: u32,
    /// How many times the descriptor has been closed.
    pub closes: u32,
}

/// The single-close invariant: the descriptor is closed exactly once, when
/// and only when no owner remains.
pub open spec fn single_close(h: HandleLife) -> bool {
    &&& h.closes <= 1
    &&& (h.closes == 1 <==> h.owners == 0)
}

/// The state after one more owner appears.
pub open spec fn spec_retain(h: HandleLife) -> HandleLife {
    HandleLife { owners: (h.owners + 1) as u32, closes: h.closes }
}

/// The state after one owner is released: the count drops, and the last
/// release closes the descriptor.
pub open spec fn spec_release(h: HandleLife) -> HandleLife {
    HandleLife {
        owners: (h.owners - 1) as u32,
        closes: if h.owners == 1 {
            (h.closes + 1) as u32
        } else {
            h.closes
        },
    }
}

impl HandleLife {
    /// A freshly created handle: one owner, never closed.
    pub fn new() -> (r: Self)
        ensures
            r.owners == 1,
            r.closes == 0,
            single_close(r),
    {
        HandleLife { owners: 1, closes: 0 }
    }

    /// Sharing the handle — a split hands it to a second half — adds an
    /// owner and closes nothing.
    pub fn retain(&mut self)
        requires
            old(self).owners >= 1,
            old(self).owners < u32::MAX,
            old(self).closes == 0,
        ensures
            *final(self) == spec_retain(*old(self)),
            single_close(*final(self)),
    {
        self.owners = self.owners + 1;
    }

    /// Releases one owner; returns whether this release closed the
    /// descriptor, which it does exactly for the last owner.
    pub fn release(&mut self) -> (closed: bool)
        requires
            old(self).owners >= 1,
            old(self).closes == 0,
        ensures
            *final(self) == spec_release(*old(self)),
            closed == (old(self).owners == 1),
            single_close(*final(self)),
    {
        self.owners = self.owners - 1;
        if self.owners == 0 {
            self.closes = self.closes + 1;
            true
        } else {
            false
        }
    }
}

/// Splitting an interface and then dropping both halves closes the
/// descriptor exactly once: the first drop closes nothing, the second
/// closes once and leaves no owner. The two halves are interchangeable in
/// this accounting, so the same two releases model either drop order.
pub proof fn lemma_split_then_drop_closes_once(h: HandleLife)
    requires
        h.owners == 1,
        h.closes == 0,
    ensures
        ({
            let shared = spec_retain(h);
            let after_first_drop = spec_release(shared);
            let after_second_drop = spec_release(after_first_drop);
            &&& after_first_drop.closes == 0
            &&& after_second_drop.closes == 1
            &&& after_second_drop.owners == 0
        }),
{
}

/// Retaining and releasing keep the single-close invariant, so every
/// reachable state of a handle closes the descriptor at most once, and only
/// at the end of its last owner's life.
pub proof fn lemma_single_close_preserved(h: HandleLife)
    requires
        single_close(h),
        h.owners >= 1,
        h.closes == 0,
    ensures
        h.owners < u32::MAX ==> single_close(spec_retain(h)),
        single_close(spec_release(h)),
{
}

} // verus!
