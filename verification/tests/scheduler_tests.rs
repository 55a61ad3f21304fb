use snowfall::scheduler::{FrameScheduler, LoopState};

#[test]
fn starts_running_and_runs_without_cancel() {
    let mut s = FrameScheduler::new(24_000, 1000);
    assert_eq!(s.state, LoopState::Running);
    assert!(s.poll_cancel(false));
    assert_eq!(s.state, LoopState::Running);
}

#[test]
fn cancel_signal_stops_the_simulation_sequence() {
    let mut s = FrameScheduler::new(24_000, 1000);
    assert!(!s.poll_cancel(true));
    assert_eq!(s.state, LoopState::Terminating);
    // Once terminating, later polls never report a runnable tick.
    assert!(!s.poll_cancel(false));
    assert_eq!(s.state, LoopState::Terminating);
}

#[test]
fn sleep_fills_the_remaining_frame_budget() {
    let mut s = FrameScheduler::new(24_000, 1000);
    assert_eq!(s.end_tick(30, 0), 970);
    assert_eq!(s.end_tick(1000, 0), 0);
    assert_eq!(s.end_tick(1500, 0), 0);
    assert_eq!(s.end_tick(0, 0), 1000);
    assert_eq!(s.state, LoopState::Running);
}

#[test]
fn duration_expiry_terminates_and_releases_once() {
    let mut s = FrameScheduler::new(24_000, 1000);
    s.end_tick(10, 23_999);
    assert_eq!(s.state, LoopState::Running);
    s.end_tick(10, 24_000);
    assert_eq!(s.state, LoopState::Terminating);
    // No simulation sequence runs after the transition.
    assert!(!s.poll_cancel(false));
    // The release is reported exactly once; the loop then stays stopped.
    assert!(s.release_pass());
    assert_eq!(s.state, LoopState::Stopped);
    assert!(s.is_stopped());
    assert!(!s.release_pass());
    assert!(!s.poll_cancel(true));
    assert_eq!(s.state, LoopState::Stopped);
}

#[test]
fn release_not_requested_while_running() {
    let mut s = FrameScheduler::new(24_000, 1000);
    assert!(!s.release_pass());
    assert_eq!(s.state, LoopState::Running);
    assert!(!s.is_stopped());
}
