use regite::runner::{
    duration_parts, remaining_wait_nanos, Runner, RunnerPhase, UsageError,
};

#[test]
fn test_lifecycle_phases() {
    let mut runner = Runner::new("name".to_string(), 1, 42u32);
    assert_eq!(RunnerPhase::Pending, runner.phase());
    assert_eq!("name", runner.name());
    assert_eq!(1, runner.interval_secs());

    let work = runner.try_start().unwrap();
    assert_eq!(42, work);
    assert_eq!(RunnerPhase::Running, runner.phase());
    assert!(!runner.stop_requested());

    runner.try_stop().unwrap();
    assert_eq!(RunnerPhase::Running, runner.phase());
    assert!(runner.stop_requested());

    runner.try_join().unwrap();
    assert_eq!(RunnerPhase::Stopped, runner.phase());
}

#[test]
fn test_start_twice_refused() {
    let mut runner = Runner::new("name".to_string(), 1, ());
    runner.try_start().unwrap();
    assert_eq!(Err(UsageError::StartNotPending), runner.try_start());
    assert_eq!(
        "A runner can only be started once",
        UsageError::StartNotPending.message()
    );
}

#[test]
fn test_stop_before_start_refused() {
    let mut runner = Runner::new("name".to_string(), 1, ());
    assert_eq!(Err(UsageError::StopNotRunning), runner.try_stop());
    assert_eq!(
        "A runner can only be stopped while running",
        UsageError::StopNotRunning.message()
    );
}

#[test]
fn test_stop_twice_refused() {
    let mut runner = Runner::new("name".to_string(), 1, ());
    runner.try_start().unwrap();
    runner.try_stop().unwrap();
    assert_eq!(Err(UsageError::StopAlreadyRequested), runner.try_stop());
    assert_eq!(
        "A runner can only be stopped once",
        UsageError::StopAlreadyRequested.message()
    );
}

#[test]
fn test_join_before_start_refused() {
    let mut runner = Runner::new("name".to_string(), 1, ());
    assert_eq!(Err(UsageError::JoinNotRunning), runner.try_join());
    assert_eq!(
        "A runner can only be joined while running",
        UsageError::JoinNotRunning.message()
    );
}

#[test]
fn test_join_twice_refused() {
    let mut runner = Runner::new("name".to_string(), 1, ());
    runner.try_start().unwrap();
    runner.try_stop().unwrap();
    runner.try_join().unwrap();
    assert_eq!(Err(UsageError::JoinNotRunning), runner.try_join());
}

#[test]
fn test_wait_short_work_keeps_cadence() {
    // work shorter than the interval: the wait fills the interval exactly
    assert_eq!(7, remaining_wait_nanos(3, 10));
    assert_eq!(10, remaining_wait_nanos(0, 10));
}

#[test]
fn test_wait_overrun_skips_ticks() {
    // overrunning work: the next tick lands on the next interval multiple,
    // never in a catch-up burst
    assert_eq!(5, remaining_wait_nanos(25, 10));
    assert_eq!(9, remaining_wait_nanos(11, 10));
    // an exact multiple waits one full interval
    assert_eq!(10, remaining_wait_nanos(20, 10));
    assert_eq!(10, remaining_wait_nanos(10, 10));
}

#[test]
fn test_duration_parts() {
    assert_eq!((2, 500_000_000), duration_parts(2_500_000_000));
    assert_eq!((0, 0), duration_parts(0));
    assert_eq!((1, 0), duration_parts(1_000_000_000));
}
