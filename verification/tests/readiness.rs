use titan::readiness::{Operation, Phase, Step, SyscallOutcome};

#[test]
fn transfer_completes_the_operation() {
    let mut op = Operation::new();
    assert_eq!(op.phase, Phase::Suspended);
    op.wake();
    assert_eq!(op.phase, Phase::Attempting);
    let step = op.observe(SyscallOutcome::Transferred(84));
    assert_eq!(step, Step::Complete(84));
    assert_eq!(op.phase, Phase::Suspended);
}

#[test]
fn would_block_parks_and_never_errors() {
    let mut op = Operation::new();
    for _ in 0..5 {
        op.wake();
        let step = op.observe(SyscallOutcome::WouldBlock);
        assert_eq!(step, Step::Park);
        assert_eq!(op.phase, Phase::Suspended);
        assert!(!matches!(step, Step::Fault(_)));
    }
    op.wake();
    assert_eq!(op.observe(SyscallOutcome::Transferred(7)), Step::Complete(7));
}

#[test]
fn genuine_failures_surface_their_code() {
    let mut op = Operation::new();
    op.wake();
    let step = op.observe(SyscallOutcome::Failed(13));
    assert_eq!(step, Step::Fault(13));
}

#[test]
fn read_and_write_halves_progress_independently() {
    let mut read_op = Operation::new();
    let mut write_op = Operation::new();

    read_op.wake();
    assert_eq!(write_op.phase, Phase::Suspended);

    write_op.wake();
    assert_eq!(write_op.phase, Phase::Attempting);
    assert_eq!(read_op.phase, Phase::Attempting);

    let wrote = write_op.observe(SyscallOutcome::Transferred(100));
    assert_eq!(wrote, Step::Complete(100));
    assert_eq!(read_op.phase, Phase::Attempting);

    let parked = read_op.observe(SyscallOutcome::WouldBlock);
    assert_eq!(parked, Step::Park);
    assert_eq!(write_op.phase, Phase::Suspended);

    read_op.wake();
    let read = read_op.observe(SyscallOutcome::Transferred(42));
    assert_eq!(read, Step::Complete(42));
}
