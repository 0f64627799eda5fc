use tls_probe::request_loop::{IterationOutcome, RequestLoop, MAX_REQUESTS, WAIT_SECONDS};

#[test]
fn constants_match_the_configured_run() {
    assert_eq!(MAX_REQUESTS, 10000);
    assert_eq!(WAIT_SECONDS, 10);
}

#[test]
fn new_loop_starts_at_zero() {
    let state = RequestLoop::new(10000);
    assert_eq!(state.requests_attempted(), 0);
    assert!(state.should_request());
    assert!(!state.is_complete());
}

#[test]
fn zero_maximum_attempts_nothing() {
    let state = RequestLoop::new(0);
    assert!(!state.should_request());
    assert!(state.is_complete());
}

#[test]
fn exactly_max_requests_are_attempted() {
    let mut state = RequestLoop::new(3);
    let mut attempts: u64 = 0;
    while state.should_request() {
        attempts += 1;
        let wait = state.record_iteration(&IterationOutcome::Success("ok".to_string()));
        assert_eq!(wait, WAIT_SECONDS);
    }
    assert_eq!(attempts, 3);
    assert_eq!(state.requests_attempted(), 3);
    assert!(state.is_complete());
}

#[test]
fn failure_does_not_terminate_the_loop() {
    let mut state = RequestLoop::new(2);
    let wait = state.record_iteration(&IterationOutcome::RequestError(
        "connection refused".to_string(),
    ));
    assert_eq!(wait, WAIT_SECONDS);
    assert!(state.should_request());
    state.record_iteration(&IterationOutcome::Success("body".to_string()));
    assert!(state.is_complete());
    assert!(!state.should_request());
}

#[test]
fn decode_error_is_recoverable_too() {
    let mut state = RequestLoop::new(2);
    state.record_iteration(&IterationOutcome::DecodeError("bad utf-8".to_string()));
    assert!(state.should_request());
    assert_eq!(state.requests_attempted(), 1);
}

#[test]
fn wait_follows_the_last_iteration_too() {
    let mut state = RequestLoop::new(1);
    let wait = state.record_iteration(&IterationOutcome::Success(String::new()));
    assert_eq!(wait, WAIT_SECONDS);
    assert!(state.is_complete());
}
