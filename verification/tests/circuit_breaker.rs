use aeroxe_backend::circuit_breaker::{CircuitBreaker, CircuitState};
use std::time::Duration;

#[test]
fn circuit_breaker_starts_closed() {
    let mut cb = CircuitBreaker::new("test", 3, Duration::from_secs(30));
    assert!(cb.can_proceed());
    assert_eq!(cb.current_state(), CircuitState::Closed);
}

#[test]
fn circuit_breaker_trips_after_threshold() {
    let mut cb = CircuitBreaker::new("test", 3, Duration::from_secs(30));
    cb.record_failure();
    cb.record_failure();
    assert!(cb.can_proceed()); // 2 failures, still closed
    cb.record_failure();
    assert!(!cb.can_proceed()); // 3 failures, open
    assert_eq!(cb.current_state(), CircuitState::Open);
}

#[test]
fn circuit_breaker_resets_on_success() {
    let mut cb = CircuitBreaker::new("test", 3, Duration::from_secs(30));
    cb.record_failure();
    cb.record_success();
    assert_eq!(cb.failure_count(), 0);
    assert_eq!(cb.current_state(), CircuitState::Closed);
}

#[test]
fn circuit_breaker_half_open_when_timeout_elapsed() {
    let mut cb = CircuitBreaker::new("test", 1, Duration::from_millis(10));
    cb.record_failure();
    assert_eq!(cb.current_state(), CircuitState::Open);
    assert!(!cb.can_proceed_given(false));
    assert_eq!(cb.current_state(), CircuitState::Open);
    assert!(cb.can_proceed_given(true));
    assert_eq!(cb.current_state(), CircuitState::HalfOpen);
}

#[test]
fn circuit_breaker_zero_timeout_moves_to_half_open() {
    let mut cb = CircuitBreaker::new("probe", 1, Duration::from_secs(0));
    cb.record_failure();
    assert!(cb.can_proceed());
    assert_eq!(cb.current_state(), CircuitState::HalfOpen);
}

#[test]
fn circuit_breaker_half_open_failure_reopens() {
    let mut cb = CircuitBreaker::new("probe", 2, Duration::from_secs(60));
    cb.record_failure();
    cb.record_failure();
    assert!(cb.can_proceed_given(true));
    assert_eq!(cb.current_state(), CircuitState::HalfOpen);
    cb.record_failure();
    assert_eq!(cb.current_state(), CircuitState::Open);
    assert_eq!(cb.failure_count(), 3);
}

#[test]
fn circuit_breaker_half_open_success_closes() {
    let mut cb = CircuitBreaker::new("probe", 1, Duration::from_secs(60));
    cb.record_failure();
    assert!(cb.can_proceed_given(true));
    cb.record_success();
    assert_eq!(cb.current_state(), CircuitState::Closed);
    assert!(cb.can_proceed_given(false));
}

#[test]
fn circuit_breaker_keeps_its_name() {
    let cb = CircuitBreaker::new("payments-gateway", 5, Duration::from_secs(1));
    assert_eq!(cb.name(), "payments-gateway");
}

#[test]
fn circuit_breaker_half_open_after_timeout() {
    let mut cb = CircuitBreaker::new("test", 1, Duration::from_millis(10));
    cb.record_failure();
    assert!(!cb.can_proceed());
    let start = std::time::Instant::now();
    while start.elapsed() < Duration::from_millis(20) {}
    assert!(cb.can_proceed()); // half-open
}

#[test]
fn circuit_breaker_half_open_admits_one_probe() {
    let mut cb = CircuitBreaker::new("probe", 1, Duration::from_secs(0));
    cb.record_failure();
    assert!(cb.can_proceed()); // the probe
    assert_eq!(cb.current_state(), CircuitState::HalfOpen);
    assert!(!cb.can_proceed()); // refused while the probe is pending
    assert!(!cb.can_proceed_given(true));
    assert_eq!(cb.current_state(), CircuitState::HalfOpen);
    cb.record_success();
    assert!(cb.can_proceed());
}

#[test]
fn circuit_breaker_timeout_compared_in_nanoseconds() {
    let mut cb = CircuitBreaker::new("test", 3, Duration::from_secs(30));
    assert!(!cb.reset_timeout_elapsed(u128::MAX)); // no failure yet
    cb.record_failure();
    assert!(!cb.reset_timeout_elapsed(29_999_999_999));
    assert!(cb.reset_timeout_elapsed(30_000_000_000));
    cb.record_failure();
    cb.record_failure();
    assert!(!cb.can_proceed()); // open, well within 30 s
    assert_eq!(cb.current_state(), CircuitState::Open);
}

#[test]
fn circuit_breaker_name_survives_every_operation() {
    let mut cb = CircuitBreaker::new("billing-gateway", 1, Duration::from_secs(0));
    cb.record_failure();
    let _ = cb.can_proceed();
    cb.record_failure();
    cb.record_success();
    let _ = cb.can_proceed();
    assert_eq!(cb.name(), "billing-gateway");
}
