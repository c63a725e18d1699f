use invoicehandler::lock::{LockWait, ProbeStep};

#[test]
fn always_locked_file_is_skipped_after_all_probes() {
    let mut g = LockWait::new(3);
    assert!(matches!(g.record(false), ProbeStep::Retry));
    assert!(matches!(g.record(false), ProbeStep::Retry));
    assert!(matches!(g.record(false), ProbeStep::GiveUp));
    assert_eq!(g.attempts(), 3);
    assert!(g.is_done());
}

#[test]
fn unlocked_file_proceeds_at_once() {
    let mut g = LockWait::new(30);
    assert!(matches!(g.record(true), ProbeStep::Proceed));
    assert_eq!(g.attempts(), 1);
    assert!(g.is_done());
}

#[test]
fn file_unlocked_on_second_probe() {
    let mut g = LockWait::new(5);
    assert!(matches!(g.record(false), ProbeStep::Retry));
    assert!(!g.is_done());
    assert!(matches!(g.record(true), ProbeStep::Proceed));
    assert_eq!(g.attempts(), 2);
    assert_eq!(g.max_retries(), 5);
}

#[test]
fn single_attempt_gives_up_without_retry() {
    let mut g = LockWait::new(1);
    assert!(matches!(g.record(false), ProbeStep::GiveUp));
    assert_eq!(g.attempts(), 1);
}
