use ssh_assistant::health_check::{HealthAction, PoolHealthChecker, SessionHealth, SessionHealthMetadata};
use ssh_assistant::models::PoolHealthSettings;

#[test]
fn test_session_health_metadata_default() {
    let metadata = SessionHealthMetadata::new();
    assert_eq!(metadata.consecutive_failures, 0);
    assert_eq!(metadata.health_score, 100);
    assert_eq!(metadata.operation_count, 0);
}

#[test]
fn test_record_failure() {
    let mut metadata = SessionHealthMetadata::new();
    metadata.record_failure();
    assert_eq!(metadata.consecutive_failures, 1);
    assert_eq!(metadata.health_score, 80);

    metadata.record_failure();
    assert_eq!(metadata.consecutive_failures, 2);
    assert_eq!(metadata.health_score, 60);
}

#[test]
fn test_record_success() {
    let mut metadata = SessionHealthMetadata::new();
    metadata.health_score = 50;
    metadata.consecutive_failures = 3;

    metadata.record_success();
    assert_eq!(metadata.consecutive_failures, 0);
    assert_eq!(metadata.health_score, 60);
}

#[test]
fn test_health_checker_expired() {
    let settings = PoolHealthSettings { max_session_age_minutes: 0, ..Default::default() };
    let checker = PoolHealthChecker::new(settings);
    let metadata = SessionHealthMetadata::new_at(0);
    // A session two minutes old is past a zero-minute age limit.
    assert_eq!(checker.check_session_health_at(&metadata, 120_000), SessionHealth::Expired);
}

#[test]
fn test_health_checker_unhealthy() {
    let settings = PoolHealthSettings { unhealthy_threshold: 2, ..Default::default() };
    let checker = PoolHealthChecker::new(settings);

    let mut metadata = SessionHealthMetadata::new();
    metadata.record_failure();
    metadata.record_failure();

    let health = checker.check_session_health(&metadata);
    assert_eq!(health, SessionHealth::Unhealthy);
}

#[test]
fn failures_never_push_score_below_zero() {
    let mut metadata = SessionHealthMetadata::new();
    for _ in 0..10 {
        metadata.record_failure();
    }
    assert_eq!(metadata.health_score, 0);
    assert_eq!(metadata.consecutive_failures, 10);
}

#[test]
fn success_caps_score_at_hundred() {
    let mut metadata = SessionHealthMetadata::new();
    metadata.health_score = 95;
    metadata.record_success();
    assert_eq!(metadata.health_score, 100);
}

#[test]
fn report_rebuilds_unhealthy_main_session() {
    let checker = PoolHealthChecker::with_defaults();
    let mut main = SessionHealthMetadata::new_at(0);
    main.record_failure();
    main.record_failure();
    main.record_failure();
    let report = checker.generate_report_at(&main, &[], None, 1000, 1);
    assert!(report.recommended_actions.iter().any(|a| matches!(a, HealthAction::RebuildMain)));
}

#[test]
fn last_use_never_goes_back() {
    let mut metadata = SessionHealthMetadata::new_at(1000);
    metadata.mark_used_at(500);
    assert_eq!(metadata.last_used_ms, 1000);
    assert_eq!(metadata.operation_count, 1);
    metadata.mark_used_at(2000);
    assert_eq!(metadata.last_used_ms, 2000);
    assert_eq!(metadata.operation_count, 2);
}

#[test]
fn report_lists_each_rebuild_and_the_warmup() {
    let checker = PoolHealthChecker::with_defaults();
    let main = SessionHealthMetadata::new_at(0);
    let healthy = SessionHealthMetadata::new_at(0);
    let mut failing = SessionHealthMetadata::new_at(0);
    for _ in 0..3 {
        failing.record_failure();
    }
    let report = checker.generate_report_at(&main, &[healthy.clone(), failing.clone()], Some(&failing), 1000, 1);
    let actions = &report.recommended_actions;
    assert!(!actions.iter().any(|a| matches!(a, HealthAction::RebuildMain)));
    assert!(!actions.iter().any(|a| matches!(a, HealthAction::RebuildBackground(0))));
    assert!(actions.iter().any(|a| matches!(a, HealthAction::RebuildBackground(1))));
    assert!(actions.iter().any(|a| matches!(a, HealthAction::RebuildAi)));
    // One healthy background session meets the default warm-up count of one.
    assert!(!actions.iter().any(|a| matches!(a, HealthAction::WarmupSessions(_))));
    // Scores: 100, 100 and twice 100 - 45 = 55; mean (100 + 100 + 55 + 55) / 4.
    assert_eq!(report.overall_score, 77);

    let report = checker.generate_report_at(&main, &[failing], None, 1000, 1);
    assert!(report.recommended_actions.iter().any(|a| matches!(a, HealthAction::WarmupSessions(1))));
}
