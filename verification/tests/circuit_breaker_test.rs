use zos_query::backoff::ExponentialBackoff;
use zos_query::breaker::CircuitBreaker;

#[test]
fn test_circuit_breaker_initial_state() {
    let mut cb = CircuitBreaker::new(60, 3);
    assert!(!cb.is_open());
    assert_eq!(cb.failure_count(), 0);
}

#[test]
fn test_circuit_breaker_opens_after_threshold() {
    let mut cb = CircuitBreaker::new(60, 3);

    cb.record_failure();
    assert!(!cb.is_open());

    cb.record_failure();
    assert!(!cb.is_open());

    cb.record_failure();
    assert!(cb.is_open());
}

#[test]
fn test_circuit_breaker_resets_on_success() {
    let mut cb = CircuitBreaker::new(60, 3);

    cb.record_failure();
    cb.record_failure();
    cb.record_success();

    assert!(!cb.is_open());
    assert_eq!(cb.failure_count(), 0);
}

#[test]
fn test_exponential_backoff() {
    let backoff = ExponentialBackoff::new(100, 5000);

    assert_eq!(backoff.delay_for_attempt(0), 100);
    assert_eq!(backoff.delay_for_attempt(1), 200);
    assert_eq!(backoff.delay_for_attempt(2), 400);
    assert_eq!(backoff.delay_for_attempt(3), 800);

    // Should cap at max
    assert!(backoff.delay_for_attempt(10) <= 5000);
}

#[test]
fn test_backoff_caps_exactly_at_max() {
    let backoff = ExponentialBackoff::new(100, 5000);
    assert_eq!(backoff.delay_for_attempt(6), 5000);
    assert_eq!(backoff.delay_for_attempt(63), 5000);
    let wide = ExponentialBackoff::new(3, 1000);
    assert_eq!(wide.delay_for_attempt(5), 96);
    assert_eq!(wide.delay_for_attempt(9), 1000);
}

#[test]
fn test_backoff_default_policy() {
    let backoff = ExponentialBackoff::default();
    assert_eq!(backoff.delay_for_attempt(0), 100);
    assert_eq!(backoff.delay_for_attempt(20), 5000);
}

#[test]
fn test_circuit_breaker_closes_after_timeout() {
    let mut cb = CircuitBreaker::new(60, 1);
    cb.record_failure_at(100);
    assert!(cb.is_open_at(100));
    assert!(cb.is_open_at(159));
    // the timeout elapsed: the circuit closes and the count resets,
    // even without an explicit success
    assert!(!cb.is_open_at(160));
    assert_eq!(cb.failure_count(), 0);
    assert!(!cb.is_open_at(161));
}

#[test]
fn test_circuit_breaker_success_closes_midway() {
    let mut cb = CircuitBreaker::new(60, 2);
    cb.record_failure_at(10);
    cb.record_failure_at(11);
    assert!(cb.is_open_at(12));
    cb.record_success();
    assert!(!cb.is_open_at(12));
    assert_eq!(cb.failure_count(), 0);
}
