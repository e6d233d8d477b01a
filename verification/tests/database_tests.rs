use axum_todo::database::{connect_settings, ConnectRetry, ConnectStep};

#[test]
fn pool_settings() {
    let s = connect_settings();
    assert_eq!((s.max_connections, s.min_connections), (100, 5));
    assert_eq!((s.connect_timeout_secs, s.idle_timeout_secs), (8, 8));
    assert!(s.sqlx_logging);
}

#[test]
fn gives_up_after_the_fifth_failed_attempt() {
    let mut state = ConnectRetry::new();
    for attempt in 1..=4u32 {
        assert_eq!(state.on_attempt(false), ConnectStep::RetryAfter(3));
        assert_eq!(state.retries, attempt);
    }
    assert_eq!(state.on_attempt(false), ConnectStep::GiveUp);
    assert_eq!(state.retries, 5);
}

#[test]
fn success_is_used_at_once() {
    let mut state = ConnectRetry::new();
    assert_eq!(state.on_attempt(false), ConnectStep::RetryAfter(3));
    assert_eq!(state.on_attempt(true), ConnectStep::Connected);
    assert_eq!(state.retries, 1);
    let mut fresh = ConnectRetry::new();
    assert_eq!(fresh.on_attempt(true), ConnectStep::Connected);
    assert_eq!(fresh.retries, 0);
}
