use geoclue_prometheus_exporter::accuracy::AccuracyLevel;
use geoclue_prometheus_exporter::backoff::{delay_for_attempt, RetryState};
use geoclue_prometheus_exporter::session::{establish_steps, ClientStep, SessionConfig};
use geoclue_prometheus_exporter::supervisor::{
    Supervisor, SupervisorAction, SupervisorEvent, SupervisorState,
};

#[test]
fn test_backoff_sequence() {
    // From attempt 0 with base 2s and cap 60s: 2, 4, 8, 16, 32, 60, 60, ...
    let expected = [2u64, 4, 8, 16, 32, 60, 60, 60, 60, 60];
    for (attempt, want) in expected.iter().enumerate() {
        assert_eq!(delay_for_attempt(attempt as u32), *want, "attempt {}", attempt);
    }
    // Monotonically non-decreasing, never above the cap.
    let mut prev = 0u64;
    for attempt in 0..100u32 {
        let d = delay_for_attempt(attempt);
        assert!(d >= prev);
        assert!(d <= 60);
        prev = d;
    }
}

#[test]
fn test_retry_state_walk() {
    let mut retry = RetryState::new();
    assert_eq!(retry.attempt, 0);
    assert_eq!(retry.delay_secs, 2);
    let expected = [4u64, 8, 16, 32, 60, 60];
    for (i, want) in expected.iter().enumerate() {
        retry.advance();
        assert_eq!(retry.attempt, (i + 1) as u32);
        assert_eq!(retry.delay_secs, *want);
    }
    retry.reset();
    assert_eq!(retry.attempt, 0);
    assert_eq!(retry.delay_secs, 2);
}

#[test]
fn test_retry_resets_after_success() {
    // N consecutive transient failures, then one success: the attempt
    // count is back at zero.
    let mut sup = Supervisor::new();
    let a = sup.step(SupervisorEvent::Tick, false);
    assert!(matches!(a, SupervisorAction::Connect));
    assert_eq!(sup.state, SupervisorState::Connecting);

    for (i, want_delay) in [2u64, 4, 8].iter().enumerate() {
        let a = sup.step(
            SupervisorEvent::ConnectFailed("Remote peer disconnected".to_string()),
            false,
        );
        assert!(
            matches!(a, SupervisorAction::Sleep(d) if d == *want_delay),
            "failure {} slept wrong",
            i
        );
        assert_eq!(sup.state, SupervisorState::Retrying);
        let a = sup.step(SupervisorEvent::SleepElapsed, false);
        assert!(matches!(a, SupervisorAction::Connect));
        assert_eq!(sup.retry.attempt, (i + 1) as u32);
    }

    let a = sup.step(SupervisorEvent::Connected, false);
    assert!(matches!(a, SupervisorAction::RunMonitor));
    assert_eq!(sup.state, SupervisorState::Monitoring);
    assert_eq!(sup.retry.attempt, 0);
}

#[test]
fn test_monitor_transient_failure_retries() {
    let mut sup = Supervisor::new();
    sup.step(SupervisorEvent::Tick, false);
    sup.step(SupervisorEvent::Connected, false);
    assert_eq!(sup.state, SupervisorState::Monitoring);

    let a = sup.step(SupervisorEvent::MonitorFailed("Broken pipe (os error 32)".to_string()), false);
    assert!(matches!(a, SupervisorAction::Sleep(2)));
    assert_eq!(sup.state, SupervisorState::Retrying);
    assert!(sup.up);
}

#[test]
fn test_fatal_errors_propagate() {
    // A fatal establishment failure terminates with the error.
    let mut sup = Supervisor::new();
    sup.step(SupervisorEvent::Tick, false);
    let a = sup.step(SupervisorEvent::ConnectFailed("Permission denied".to_string()), false);
    assert!(matches!(&a, SupervisorAction::Fail(e) if e == "Permission denied"));
    assert_eq!(sup.state, SupervisorState::Terminated);
    assert!(!sup.up);

    // A fatal monitor failure terminates with the error.
    let mut sup = Supervisor::new();
    sup.step(SupervisorEvent::Tick, false);
    sup.step(SupervisorEvent::Connected, false);
    let a = sup.step(SupervisorEvent::MonitorFailed("Invalid argument".to_string()), false);
    assert!(matches!(&a, SupervisorAction::Fail(e) if e == "Invalid argument"));
    assert_eq!(sup.state, SupervisorState::Terminated);
    assert!(!sup.up);
}

#[test]
fn test_shutdown_terminates_promptly() {
    // Shutdown before the loop starts: terminated at once.
    let mut sup = Supervisor::new();
    let a = sup.step(SupervisorEvent::Tick, true);
    assert!(matches!(a, SupervisorAction::AnnounceDown));
    assert_eq!(sup.state, SupervisorState::Terminated);
    assert!(!sup.up);

    // Shutdown during the backoff sleep: no new connection is started.
    let mut sup = Supervisor::new();
    sup.step(SupervisorEvent::Tick, false);
    sup.step(SupervisorEvent::ConnectFailed("connection closed".to_string()), false);
    assert_eq!(sup.state, SupervisorState::Retrying);
    let a = sup.step(SupervisorEvent::SleepElapsed, true);
    assert!(matches!(a, SupervisorAction::AnnounceDown));
    assert_eq!(sup.state, SupervisorState::Terminated);

    // Shutdown while monitoring: the session is cleaned up first, then
    // the supervisor terminates.
    let mut sup = Supervisor::new();
    sup.step(SupervisorEvent::Tick, false);
    sup.step(SupervisorEvent::Connected, false);
    let a = sup.step(SupervisorEvent::Tick, true);
    assert!(matches!(a, SupervisorAction::CleanupSession));
    assert_eq!(sup.state, SupervisorState::ShuttingDown);
    assert!(sup.up);
    let a = sup.step(SupervisorEvent::Tick, true);
    assert!(matches!(a, SupervisorAction::AnnounceDown));
    assert_eq!(sup.state, SupervisorState::Terminated);
    assert!(!sup.up);

    // A terminated supervisor does nothing more.
    let a = sup.step(SupervisorEvent::Tick, false);
    assert!(matches!(a, SupervisorAction::NoOp));
    assert_eq!(sup.state, SupervisorState::Terminated);
}

#[test]
fn test_establish_steps_order_and_ordinals() {
    let config = SessionConfig {
        desktop_id: "geoclue_prometheus_exporter".to_string(),
        distance_threshold_m: 10,
        time_threshold_s: 30,
        accuracy: AccuracyLevel::Street,
    };
    let steps = establish_steps(&config);
    assert_eq!(
        steps,
        vec![
            ClientStep::SetDesktopId("geoclue_prometheus_exporter".to_string()),
            ClientStep::SetDistanceThreshold(10),
            ClientStep::SetTimeThreshold(30),
            ClientStep::SetRequestedAccuracyLevel(6),
            ClientStep::Start,
        ]
    );
    let names: Vec<&str> = steps.iter().map(|s| s.remote_name()).collect();
    assert_eq!(
        names,
        vec!["DesktopId", "DistanceThreshold", "TimeThreshold", "RequestedAccuracyLevel", "Start"]
    );
}
