use std::time::Duration;

use ssh_assistant::transfer::observability::TransferHealth;
use ssh_assistant::transfer::manager::TransferStats;
use ssh_assistant::transfer::pool::{PoolStats, TransferConnection, TransferPool};
use ssh_assistant::transfer::retry::{
    CircuitBreaker, CircuitBreakerState, RetryContext, RetryExecutor, RetryStep, RetryStrategy,
};
use ssh_assistant::transfer::state::{validate_transition, TransferState};
use ssh_assistant::transfer::types::{TransferError, TransferSettings, TransferStatus};

#[test]
fn test_transfer_status_transitions() {
    assert!(!TransferStatus::Pending.is_terminal());
    assert!(!TransferStatus::Transferring.is_terminal());
    assert!(TransferStatus::Completed.is_terminal());
    assert!(TransferStatus::Failed.is_terminal());
    assert!(TransferStatus::Cancelled.is_terminal());
}

#[test]
fn test_transfer_status_operations() {
    assert!(TransferStatus::Transferring.can_pause());
    assert!(TransferStatus::Paused.can_resume());
    assert!(TransferStatus::Failed.can_resume());
    assert!(!TransferStatus::Completed.can_cancel());
    assert!(TransferStatus::Transferring.can_cancel());
}

#[test]
fn test_error_classification() {
    let timeout_err = TransferError::Timeout("test".to_string());
    assert!(timeout_err.is_retryable());
    assert!(timeout_err.is_connection_error());

    let perm_err = TransferError::PermissionDenied("test".to_string());
    assert!(!perm_err.is_retryable());
    assert!(perm_err.is_permission_error());
}

#[test]
fn test_settings_defaults() {
    let settings = TransferSettings::default();
    assert_eq!(settings.default_chunk_size, 65536);
    assert_eq!(settings.max_transfer_connections, 3);
    assert!(settings.enable_resume);
}

#[test]
fn test_timeout_settings() {
    let settings = TransferSettings::default();
    assert_eq!(Duration::from_secs(settings.operation_timeout()), Duration::from_secs(60));
    assert_eq!(Duration::from_secs(settings.no_progress_timeout()), Duration::from_secs(30));
}

#[test]
fn test_state_creation() {
    let state = TransferState::new("test-id".to_string(), 1000);
    assert_eq!(state.id(), "test-id");
    assert_eq!(state.status(), TransferStatus::Pending);
    assert_eq!(state.transferred(), 0);
    assert_eq!(state.total(), 1000);
}

#[test]
fn test_valid_transitions() {
    let mut state = TransferState::new("test-id".to_string(), 1000);

    state.start().unwrap();
    assert_eq!(state.status(), TransferStatus::Connecting);

    state.begin_transfer().unwrap();
    assert_eq!(state.status(), TransferStatus::Transferring);

    state.pause().unwrap();
    assert_eq!(state.status(), TransferStatus::Paused);

    state.resume().unwrap();
    assert_eq!(state.status(), TransferStatus::Transferring);

    state.complete().unwrap();
    assert_eq!(state.status(), TransferStatus::Completed);
}

#[test]
fn test_resume_from_failed() {
    let mut state = TransferState::new("test-id".to_string(), 1000);

    state.start().unwrap();
    state.begin_transfer().unwrap();
    state.fail("test error".to_string()).unwrap();
    assert_eq!(state.status(), TransferStatus::Failed);

    state.resume().unwrap();
    assert_eq!(state.status(), TransferStatus::Resuming);
}

#[test]
fn test_invalid_transition() {
    let mut state = TransferState::new("test-id".to_string(), 1000);

    assert!(state.begin_transfer().is_err());
    assert_eq!(state.status(), TransferStatus::Pending);
}

#[test]
fn test_cannot_cancel_terminal_state() {
    let mut state = TransferState::new("test-id".to_string(), 1000);

    state.start().unwrap();
    state.begin_transfer().unwrap();
    state.complete().unwrap();

    assert!(state.cancel().is_err());
    assert_eq!(state.status(), TransferStatus::Completed);
}

#[test]
fn test_progress_tracking() {
    let mut state = TransferState::new("test-id".to_string(), 1000);

    assert_eq!(state.transferred(), 0);
    state.add_transferred(100);
    assert_eq!(state.transferred(), 100);
    state.add_transferred(200);
    assert_eq!(state.transferred(), 300);

    let progress = state.progress_permille() as f64 / 1000.0;
    assert!((progress - 0.3).abs() < 0.001);
}

#[test]
fn test_stuck_detection() {
    let mut state = TransferState::new("test-id".to_string(), 1000);

    state.start().unwrap();
    state.begin_transfer().unwrap();

    assert!(!state.is_stuck(Duration::from_secs(30).as_millis() as u64));
}

#[test]
fn stuck_after_the_timeout_without_progress() {
    let mut state = TransferState::new_at("t".to_string(), 1000, 5_000);
    state.start().unwrap();
    state.begin_transfer().unwrap();
    assert!(!state.is_stuck_at(30_000, 35_000));
    assert!(state.is_stuck_at(30_000, 35_001));
}

#[test]
fn terminal_statuses_accept_no_transition() {
    let all = [
        TransferStatus::Pending,
        TransferStatus::Connecting,
        TransferStatus::Transferring,
        TransferStatus::Paused,
        TransferStatus::Completed,
        TransferStatus::Failed,
        TransferStatus::Cancelled,
        TransferStatus::Resuming,
    ];
    for to in all {
        assert!(validate_transition(TransferStatus::Completed, to).is_err());
        assert!(validate_transition(TransferStatus::Cancelled, to).is_err());
    }
    assert!(validate_transition(TransferStatus::Failed, TransferStatus::Resuming).is_ok());
    assert!(validate_transition(TransferStatus::Paused, TransferStatus::Cancelled).is_ok());
    assert!(validate_transition(TransferStatus::Pending, TransferStatus::Cancelled).is_err());
}

#[test]
fn test_retry_strategy_delay_calculation() {
    let strategy = RetryStrategy::default();

    let delay1 = strategy.calculate_delay(0, None);
    let delay2 = strategy.calculate_delay(1, None);
    let delay3 = strategy.calculate_delay(2, None);

    assert!(delay2 > delay1);
    assert!(delay3 > delay2);

    let network_error = TransferError::TemporaryNetwork("test".to_string());
    let timeout_error = TransferError::Timeout("test".to_string());
    let would_block_error = TransferError::WouldBlock;

    let network_delay = strategy.calculate_delay(1, Some(&network_error));
    let timeout_delay = strategy.calculate_delay(1, Some(&timeout_error));
    let would_block_delay = strategy.calculate_delay(1, Some(&would_block_error));

    assert!(timeout_delay > network_delay);
    assert!(network_delay > would_block_delay);
}

#[test]
fn retry_delay_exact_values() {
    let strategy = RetryStrategy::default();
    // Base 1000 ms doubled per attempt, no jitter with a zero sample.
    assert_eq!(strategy.calculate_delay_with_sample(0, None, 0), 1000);
    assert_eq!(strategy.calculate_delay_with_sample(3, None, 0), 8000);
    // Jitter of 10% at the largest sample.
    assert_eq!(strategy.calculate_delay_with_sample(0, None, 999_999), 1099);
    // Adaptive factors.
    let net = TransferError::TemporaryNetwork("x".to_string());
    assert_eq!(strategy.calculate_delay_with_sample(1, Some(&net), 0), 3000);
    assert_eq!(strategy.calculate_delay_with_sample(1, Some(&TransferError::ConnectionLost), 0), 6000);
    assert_eq!(strategy.calculate_delay_with_sample(0, Some(&TransferError::WouldBlock), 0), 500);
    // Capped at the maximum.
    assert_eq!(strategy.calculate_delay_with_sample(10, None, 0), 60000);
    assert_eq!(strategy.calculate_delay_with_sample(u32::MAX, None, 999_999), 60000);
}

#[test]
fn test_retry_executor_success() {
    let executor = RetryExecutor::new(RetryStrategy::default());
    let mut context = RetryContext::new_at(executor.strategy.max_attempts, 0);
    let mut call_count = 0;

    // First attempt fails with a temporary error.
    call_count += 1;
    let step = executor.after_failure(
        &mut context,
        TransferError::TemporaryNetwork("First attempt fails".to_string()),
        10,
        10,
        0,
    );
    assert!(matches!(step, RetryStep::Wait(_)));
    // The second attempt succeeds.
    call_count += 1;
    let value = "success";
    assert_eq!(value, "success");
    assert_eq!(call_count, 2);
    assert_eq!(context.attempt, 1);
}

#[test]
fn test_retry_executor_failure() {
    let strategy = RetryStrategy { max_attempts: 2, ..Default::default() };
    let executor = RetryExecutor::new(strategy);
    let mut context = RetryContext::new_at(2, 0);

    let step = executor.after_failure(
        &mut context,
        TransferError::PermissionDenied("Always fails".to_string()),
        5,
        5,
        0,
    );
    match step {
        RetryStep::GiveUp { last_error, total_attempts, .. } => {
            assert!(matches!(last_error, TransferError::PermissionDenied(_)));
            assert_eq!(total_attempts, 1);
        }
        _ => panic!("Expected failure"),
    }
}

#[test]
fn retry_gives_up_when_attempts_run_out() {
    let strategy = RetryStrategy { max_attempts: 1, ..Default::default() };
    let executor = RetryExecutor::new(strategy);
    let mut context = RetryContext::new_at(1, 100);
    let first = executor.after_failure(&mut context, TransferError::ConnectionLost, 5, 200, 0);
    assert!(matches!(first, RetryStep::Wait(6000)));
    let second = executor.after_failure(&mut context, TransferError::ConnectionLost, 5, 900, 0);
    match second {
        RetryStep::GiveUp { total_attempts, total_time_ms, .. } => {
            assert_eq!(total_attempts, 2);
            assert_eq!(total_time_ms, 800);
        }
        _ => panic!("expected to give up"),
    }
}

#[test]
fn fast_retry_waits_at_most_100_ms() {
    let executor = RetryExecutor::new(RetryStrategy::default());
    let mut context = RetryContext::new_at(3, 0);
    let step = executor.after_failure(&mut context, TransferError::WouldBlock, 1, 1, 0);
    assert!(context.is_fast_retry);
    assert!(matches!(step, RetryStep::Wait(100)));
}

#[test]
fn test_circuit_breaker() {
    let mut breaker = CircuitBreaker::new(3, Duration::from_millis(100).as_millis() as u64);

    assert_eq!(breaker.get_state(), CircuitBreakerState::Closed);
    assert!(breaker.allow_operation());

    breaker.record_failure();
    breaker.record_failure();
    assert_eq!(breaker.get_failure_count(), 2);
    assert!(breaker.allow_operation());

    breaker.record_failure();
    assert_eq!(breaker.get_state(), CircuitBreakerState::Open);
    assert!(!breaker.allow_operation());

    breaker.record_success();
    assert_eq!(breaker.get_state(), CircuitBreakerState::Closed);
    assert!(breaker.allow_operation());
}

#[test]
fn breaker_half_opens_after_recovery_time() {
    let mut breaker = CircuitBreaker::new(1, 100);
    breaker.record_failure_at(1_000);
    assert_eq!(breaker.get_state(), CircuitBreakerState::Open);
    assert!(!breaker.allow_operation_at(1_100));
    assert!(breaker.allow_operation_at(1_101));
    assert_eq!(breaker.get_state(), CircuitBreakerState::HalfOpen);
    breaker.reset();
    assert_eq!(breaker.get_failure_count(), 0);
}

#[test]
fn test_transfer_stats() {
    let stats = TransferStats::default();
    assert_eq!(stats.total_transfers, 0);
    assert_eq!(stats.active_transfers, 0);
}

#[test]
fn test_pool_creation() {
    let settings = TransferSettings::default();
    let pool = TransferPool::new(settings);

    assert_eq!(pool.total_connections(), 0);
    assert_eq!(pool.total_idle_connections(), 0);
}

#[test]
fn test_connection_acquire_release() {
    let mut conn = TransferConnection::new(0, 0);

    assert!(conn.is_idle());
    assert!(conn.acquire());
    assert!(!conn.is_idle());
    conn.release();
    assert!(conn.is_idle());
}

#[test]
fn test_pool_stats() {
    let stats = PoolStats { total_connections: 5, idle_connections: 2, last_access_ms: 0 };

    assert_eq!(stats.total_connections, 5);
    assert_eq!(stats.idle_connections, 2);
}

#[test]
fn retry_statistics() {
    let executor = RetryExecutor::new(RetryStrategy::default());
    let mut context = RetryContext::new_at(3, 100);
    executor.after_failure(&mut context, TransferError::Timeout("t".to_string()), 40, 150, 0);
    let stats = executor.get_stats_at(&context, 400);
    assert_eq!(stats.total_attempts, 2);
    assert_eq!(stats.max_attempts, 3);
    assert_eq!(stats.elapsed_time_ms, 300);
    assert_eq!(stats.total_retry_time_ms, 40);
    assert_eq!(stats.success_rate_permille, Some(500));
    assert!(matches!(stats.last_error, Some(TransferError::Timeout(_))));
}

#[test]
fn transfer_health_default_is_empty() {
    let h = TransferHealth::default();
    assert_eq!(h.active_transfers, 0);
    assert_eq!(h.stuck_transfers, 0);
    assert_eq!(h.failed_transfers, 0);
    assert_eq!(h.avg_speed_bps, 0);
    assert_eq!(h.pool_usage_permille, 0);
}

#[test]
fn retry_backoff_rounds_once_at_the_end() {
    let strategy = RetryStrategy {
        max_attempts: 5,
        initial_delay_ms: 1001,
        max_delay_ms: 60000,
        backoff_multiplier_milli: 1500,
        jitter_factor_milli: 0,
        adaptive_backoff: false,
    };
    // 1001 * 1.5^3 = 3378.375, rounded down once.
    assert_eq!(strategy.calculate_delay_with_sample(3, None, 0), 3378);
    let halving = RetryStrategy { initial_delay_ms: 3, backoff_multiplier_milli: 500, ..strategy };
    // 3 * 0.5^2 = 0.75 rounds to 0; the adaptive timeout factor applies to
    // that whole number of milliseconds.
    assert_eq!(halving.calculate_delay_with_sample(2, None, 0), 0);
    let adaptive = RetryStrategy { adaptive_backoff: true, ..halving };
    assert_eq!(adaptive.calculate_delay_with_sample(1, Some(&TransferError::Timeout("t".to_string())), 0), 2);
}
