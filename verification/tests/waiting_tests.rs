use docker_process_isolation_patcher::policy::{STOP_COMMAND_TIMEOUT_MILLIS, STOP_POLL_MILLIS};
use docker_process_isolation_patcher::waiting::{wait_step, PollOutcome, WaitState, WaitDecision};

fn stop_command_wait() -> WaitState {
    WaitState::begin(STOP_POLL_MILLIS, Some(STOP_COMMAND_TIMEOUT_MILLIS))
}

#[test]
fn satisfied_poll_finishes_at_once() {
    let w = stop_command_wait();
    let (after, decision) = wait_step(w, PollOutcome::Satisfied);
    assert_eq!(decision, WaitDecision::Done);
    assert_eq!(after, w);
}

#[test]
fn first_unsatisfied_poll_is_silent() {
    let w = stop_command_wait();
    let (after, decision) = wait_step(w, PollOutcome::Unsatisfied);
    assert_eq!(decision, WaitDecision::Again { emit_progress: false });
    assert_eq!(after.elapsed_millis, 250);
}

#[test]
fn later_unsatisfied_polls_emit_progress() {
    let w = stop_command_wait();
    let (w, _) = wait_step(w, PollOutcome::Unsatisfied);
    let (w, decision) = wait_step(w, PollOutcome::Unsatisfied);
    assert_eq!(decision, WaitDecision::Again { emit_progress: true });
    assert_eq!(w.elapsed_millis, 500);
}

#[test]
fn query_failure_propagates_without_retry() {
    let w = stop_command_wait();
    let (after, decision) = wait_step(w, PollOutcome::QueryFailed);
    assert_eq!(decision, WaitDecision::Failed);
    assert_eq!(after, w);
}

#[test]
fn timeout_elapses_after_forty_polls() {
    let mut w = stop_command_wait();
    let mut polls = 0;
    loop {
        let (next, decision) = wait_step(w, PollOutcome::Unsatisfied);
        w = next;
        match decision {
            WaitDecision::Again { .. } => {
                polls += 1;
                assert!(polls < 100, "wait must reach its timeout");
            }
            WaitDecision::TimedOut => break,
            other => panic!("unexpected decision {:?}", other),
        }
    }
    assert_eq!(polls, 40);
    assert_eq!(w.elapsed_millis, 10000);
}

#[test]
fn poll_just_before_timeout_still_continues() {
    let w = WaitState {
        interval_millis: 250,
        timeout_millis: Some(10000),
        elapsed_millis: 9750,
    };
    let (after, decision) = wait_step(w, PollOutcome::Unsatisfied);
    assert_eq!(decision, WaitDecision::Again { emit_progress: true });
    let (_, decision) = wait_step(after, PollOutcome::Unsatisfied);
    assert_eq!(decision, WaitDecision::TimedOut);
}

#[test]
fn unbounded_wait_never_times_out() {
    let w = WaitState { interval_millis: 250, timeout_millis: None, elapsed_millis: u64::MAX };
    let (after, decision) = wait_step(w, PollOutcome::Unsatisfied);
    assert_eq!(decision, WaitDecision::Again { emit_progress: true });
    assert_eq!(after.elapsed_millis, u64::MAX);
    let (_, decision) = wait_step(after, PollOutcome::Satisfied);
    assert_eq!(decision, WaitDecision::Done);
}
