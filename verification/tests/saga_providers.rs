use caliber::constants::{
    DEFAULT_SAGA_BATCH_SIZE, DEFAULT_SAGA_CHECK_INTERVAL_SECS, DEFAULT_SAGA_DELEGATION_TIMEOUT_SECS,
    DEFAULT_SAGA_HANDOFF_TIMEOUT_SECS,
};
use caliber::duration::Duration;
use caliber::providers::{CircuitBreaker, CircuitBreakerConfig, CircuitState, CostTracker};
use caliber::saga::{SagaCleanupConfig, SagaCleanupMetrics, TimeoutOutcome};
use caliber::settings::Settings;

#[test]
fn test_config_default() {
    let config = SagaCleanupConfig::default();
    assert_eq!(config.check_interval, Duration::from_secs(DEFAULT_SAGA_CHECK_INTERVAL_SECS));
    assert_eq!(config.delegation_timeout, Duration::from_secs(DEFAULT_SAGA_DELEGATION_TIMEOUT_SECS));
    assert_eq!(config.handoff_timeout, Duration::from_secs(DEFAULT_SAGA_HANDOFF_TIMEOUT_SECS));
    assert_eq!(config.batch_size, DEFAULT_SAGA_BATCH_SIZE);
    assert!(config.log_timeouts);
}

#[test]
fn test_config_development() {
    let config = SagaCleanupConfig::development();
    assert_eq!(config.check_interval, Duration::from_secs(10));
    assert_eq!(config.delegation_timeout, Duration::from_secs(60));
    assert_eq!(config.batch_size, 10);
}

#[test]
fn test_config_production() {
    let config = SagaCleanupConfig::production();
    assert_eq!(config.check_interval, Duration::from_secs(DEFAULT_SAGA_CHECK_INTERVAL_SECS));
    assert_eq!(config.delegation_timeout, Duration::from_secs(7200));
}

#[test]
fn test_config_from_env_defaults() {
    let config = SagaCleanupConfig::from_settings(&Settings::empty());
    assert_eq!(config.check_interval, Duration::from_secs(DEFAULT_SAGA_CHECK_INTERVAL_SECS));
    assert_eq!(config.delegation_timeout, Duration::from_secs(DEFAULT_SAGA_DELEGATION_TIMEOUT_SECS));
    assert_eq!(config.handoff_timeout, Duration::from_secs(DEFAULT_SAGA_HANDOFF_TIMEOUT_SECS));
    assert_eq!(config.batch_size, DEFAULT_SAGA_BATCH_SIZE);
    assert!(config.log_timeouts);
}

#[test]
fn test_metrics_new() {
    let metrics = SagaCleanupMetrics::new();
    assert_eq!(metrics.delegations_timed_out, 0);
    assert_eq!(metrics.handoffs_timed_out, 0);
    assert_eq!(metrics.cleanup_cycles, 0);
}

#[test]
fn test_metrics_snapshot() {
    let mut metrics = SagaCleanupMetrics::new();
    metrics.delegations_timed_out = 5;
    metrics.handoffs_timed_out = 3;
    metrics.cleanup_cycles = 10;
    let snapshot = metrics.snapshot();
    assert_eq!(snapshot.delegations_timed_out, 5);
    assert_eq!(snapshot.handoffs_timed_out, 3);
    assert_eq!(snapshot.cleanup_cycles, 10);
}

#[test]
fn metrics_count_cycles_and_outcomes() {
    let mut metrics = SagaCleanupMetrics::new();
    metrics.record_cycle();
    metrics.record_error();
    metrics.record_idempotency_cleanup(4);
    metrics.record_idempotency_cleanup(-1);
    let s = metrics.snapshot();
    assert_eq!(s.cleanup_cycles, 1);
    assert_eq!(s.cleanup_errors, 1);
    assert_eq!(s.idempotency_keys_cleaned, 4);
    let _ = TimeoutOutcome::Failed;
}

#[test]
fn test_circuit_breaker_closed() {
    let mut cb = CircuitBreaker::new(CircuitBreakerConfig::default());
    assert_eq!(cb.state(), CircuitState::Closed);
    assert!(cb.is_allowed());
}

#[test]
fn test_circuit_breaker_opens_on_failures() {
    let config = CircuitBreakerConfig { failure_threshold: 3, success_threshold: 2, timeout: Duration::from_secs(1) };
    let mut cb = CircuitBreaker::new(config);
    cb.record_failure();
    cb.record_failure();
    assert_eq!(cb.state(), CircuitState::Closed);
    cb.record_failure();
    assert_eq!(cb.state(), CircuitState::Open);
    assert!(!cb.is_allowed());
}

#[test]
fn open_circuit_half_opens_after_timeout_and_closes_on_successes() {
    let config = CircuitBreakerConfig { failure_threshold: 1, success_threshold: 2, timeout: Duration::from_secs(1) };
    let mut cb = CircuitBreaker::new(config);
    cb.record_failure();
    assert_eq!(cb.state(), CircuitState::Open);
    assert!(!cb.is_allowed_after(false));
    assert!(cb.is_allowed_after(true));
    assert_eq!(cb.state(), CircuitState::HalfOpen);
    cb.record_success();
    assert_eq!(cb.state(), CircuitState::HalfOpen);
    cb.record_success();
    assert_eq!(cb.state(), CircuitState::Closed);
    cb.reset();
    assert_eq!(cb.state(), CircuitState::Closed);
}

#[test]
fn test_cost_tracker() {
    let mut tracker = CostTracker::new();
    tracker.record_embedding(100);
    tracker.record_embedding(50);
    assert_eq!(tracker.embedding_tokens(), 150);
    tracker.record_completion(200, 100);
    assert_eq!(tracker.completion_input(), 200);
    assert_eq!(tracker.completion_output(), 100);
    tracker.reset();
    assert_eq!(tracker.embedding_tokens(), 0);
}

#[test]
fn cost_tracker_wraps_around() {
    let mut tracker = CostTracker::new();
    tracker.record_embedding(u64::MAX);
    tracker.record_embedding(2);
    assert_eq!(tracker.embedding_tokens(), 1);
}

#[test]
fn saga_timeouts_as_sql_intervals() {
    let config = SagaCleanupConfig::default();
    assert_eq!(config.delegation_timeout_interval(), "3600 seconds");
    assert_eq!(config.handoff_timeout_interval(), "1800 seconds");
}
