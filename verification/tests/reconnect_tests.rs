use std::time::Duration;

use ssh_assistant::connection::{after_connect_failure, ConnectRetry};
use ssh_assistant::error_classifier::SshErrorType;
use ssh_assistant::reconnect::{ReconnectManager, ReconnectManagerBuilder, MAX_RETRY_TIME_MS};

fn delay(manager: &ReconnectManager) -> Option<Duration> {
    manager.calculate_delay().map(Duration::from_millis)
}

#[test]
fn test_default_settings() {
    let manager = ReconnectManager::with_defaults();
    assert_eq!(manager.attempt_count(), 0);
    assert!(manager.is_enabled());
    assert!(manager.should_retry());
}

#[test]
fn test_exponential_backoff() {
    let mut manager = ReconnectManager::with_defaults();

    manager.record_attempt(SshErrorType::Temporary);
    let delay1 = delay(&manager).unwrap();
    assert_eq!(delay1, Duration::from_millis(1000));

    manager.record_attempt(SshErrorType::Temporary);
    let delay2 = delay(&manager).unwrap();
    assert!(delay2 > delay1);

    manager.record_attempt(SshErrorType::Temporary);
    let delay3 = delay(&manager).unwrap();
    assert!(delay3 > delay2);
}

#[test]
fn test_max_delay_cap() {
    let manager = ReconnectManagerBuilder::new()
        .initial_delay_ms(10000)
        .max_delay_ms(30000)
        .backoff_multiplier(3000)
        .build();

    let d = delay(&manager).unwrap();
    assert!(d <= Duration::from_millis(30000));
}

#[test]
fn test_permanent_error_no_retry() {
    let mut manager = ReconnectManager::with_defaults();
    manager.record_attempt(SshErrorType::Permanent);

    assert!(!manager.should_retry());
    assert!(manager.calculate_delay().is_none());
}

#[test]
fn test_rate_limit_extended_delay() {
    let mut manager1 = ReconnectManager::with_defaults();
    let mut manager2 = ReconnectManager::with_defaults();

    manager1.record_attempt(SshErrorType::Temporary);
    manager2.record_attempt(SshErrorType::RateLimited);

    let delay1 = delay(&manager1).unwrap();
    let delay2 = delay(&manager2).unwrap();

    assert!(delay2 > delay1);
}

#[test]
fn reconnect_test_reset() {
    let mut manager = ReconnectManager::with_defaults();

    manager.record_attempt(SshErrorType::Temporary);
    manager.record_attempt(SshErrorType::Temporary);
    assert_eq!(manager.attempt_count(), 2);

    manager.reset();
    assert_eq!(manager.attempt_count(), 0);
    assert!(manager.last_error_type().is_none());
}

#[test]
fn test_max_attempts() {
    let mut manager = ReconnectManagerBuilder::new().max_attempts(3).build();

    manager.record_attempt(SshErrorType::Temporary);
    assert!(manager.should_retry());

    manager.record_attempt(SshErrorType::Temporary);
    assert!(manager.should_retry());

    manager.record_attempt(SshErrorType::Temporary);
    assert!(!manager.should_retry());
}

#[test]
fn test_disabled() {
    let manager = ReconnectManagerBuilder::new().enabled(false).build();

    assert!(!manager.should_retry());
}

#[test]
fn exact_backoff_values() {
    let mut manager = ReconnectManager::with_defaults();
    manager.record_attempt(SshErrorType::Temporary);
    manager.record_attempt(SshErrorType::Temporary);
    assert_eq!(manager.calculate_delay(), Some(2000));
    manager.record_attempt(SshErrorType::ResourceExhausted);
    assert_eq!(manager.calculate_delay(), Some(6000));
    manager.record_attempt(SshErrorType::RateLimited);
    assert_eq!(manager.calculate_delay(), Some(16000));
}

#[test]
fn delay_is_capped_at_maximum() {
    let mut manager = ReconnectManagerBuilder::new().max_attempts(20).build();
    for _ in 0..10 {
        manager.record_attempt(SshErrorType::Temporary);
    }
    assert_eq!(manager.calculate_delay(), Some(30000));
}

#[test]
fn permanent_connection_failure_gives_up() {
    let mut manager = ReconnectManager::with_defaults();
    match after_connect_failure(&mut manager, "Authentication failed", 10) {
        ConnectRetry::GiveUp(m) => {
            assert_eq!(m, "Permanent error - will not retry: Authentication failed (attempts: 1)");
        }
        ConnectRetry::Wait(_) => panic!("a permanent error is not retried"),
    }
}

#[test]
fn temporary_connection_failure_waits() {
    let mut manager = ReconnectManager::with_defaults();
    match after_connect_failure(&mut manager, "Connection timed out", 10) {
        ConnectRetry::Wait(d) => assert_eq!(d, 1000),
        ConnectRetry::GiveUp(_) => panic!("a temporary error is retried"),
    }
}

#[test]
fn exhausted_attempts_give_up() {
    let mut manager = ReconnectManagerBuilder::new().max_attempts(1).build();
    match after_connect_failure(&mut manager, "Connection timed out", 10) {
        ConnectRetry::GiveUp(m) => {
            assert_eq!(m, "Max retry attempts reached: Connection timed out (attempts: 1)");
        }
        ConnectRetry::Wait(_) => panic!("no attempts left"),
    }
}

#[test]
fn status_summary_text() {
    let mut manager = ReconnectManager::with_defaults();
    assert_eq!(manager.status_summary(), "Attempt 0/5 - Last error: No error - Total retry time: 0ns");
    manager.record_attempt(SshErrorType::Temporary);
    assert_eq!(
        manager.status_summary(),
        "Attempt 1/5 - Last error: Temporary error - network issue or timeout - Total retry time: 1s"
    );
}

#[test]
fn attempt_fits_within_the_longest_duration() {
    let mut manager = ReconnectManager::with_defaults();
    assert!(manager.attempt_fits(SshErrorType::Temporary));
    manager.total_retry_time_ms = MAX_RETRY_TIME_MS;
    assert!(!manager.attempt_fits(SshErrorType::Temporary));
    // A permanent error adds no delay, so it still fits.
    assert!(manager.attempt_fits(SshErrorType::Permanent));
    manager.total_retry_time_ms = 0;
    manager.attempt_count = u32::MAX;
    assert!(!manager.attempt_fits(SshErrorType::Temporary));
}

#[test]
fn retry_time_adds_each_delay() {
    let mut manager = ReconnectManager::with_defaults();
    manager.record_attempt(SshErrorType::Temporary);
    manager.record_attempt(SshErrorType::Temporary);
    manager.record_attempt(SshErrorType::Temporary);
    assert_eq!(manager.total_retry_time(), 1000 + 2000 + 4000);
}

#[test]
fn backoff_rounds_once_at_the_end() {
    let mut temporary = ReconnectManagerBuilder::new()
        .initial_delay_ms(1)
        .backoff_multiplier(500)
        .max_delay_ms(30000)
        .build();
    let mut limited = ReconnectManagerBuilder::new()
        .initial_delay_ms(1)
        .backoff_multiplier(500)
        .max_delay_ms(30000)
        .build();
    temporary.record_attempt(SshErrorType::Temporary);
    temporary.record_attempt(SshErrorType::Temporary);
    limited.record_attempt(SshErrorType::Temporary);
    limited.record_attempt(SshErrorType::RateLimited);
    // The exact delay is 0.5 ms: 0 after a temporary error, 1 ms doubled.
    assert_eq!(temporary.calculate_delay(), Some(0));
    assert_eq!(limited.calculate_delay(), Some(1));

    let mut manager = ReconnectManagerBuilder::new()
        .initial_delay_ms(1001)
        .backoff_multiplier(1500)
        .max_delay_ms(30000)
        .build();
    for _ in 0..4 {
        manager.record_attempt(SshErrorType::Temporary);
    }
    // 1001 * 1.5^3 = 3378.375.
    assert_eq!(manager.calculate_delay(), Some(3378));
}
