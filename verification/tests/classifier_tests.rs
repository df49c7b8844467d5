use ssh_assistant::error_classifier::{IoErrorInfo, IoErrorKind, SshError, SshErrorClassifier, SshErrorCode, SshErrorType};

#[test]
fn test_classify_permanent_auth() {
    let msg = "Authentication failed: invalid password";
    assert_eq!(SshErrorClassifier::classify_from_string(msg), SshErrorType::Permanent);
}

#[test]
fn test_classify_permanent_host() {
    let msg = "Host key verification failed";
    assert_eq!(SshErrorClassifier::classify_from_string(msg), SshErrorType::Permanent);
}

#[test]
fn test_classify_rate_limited() {
    let msg = "Too many connections from this IP";
    assert_eq!(SshErrorClassifier::classify_from_string(msg), SshErrorType::RateLimited);
}

#[test]
fn test_classify_resource_exhausted() {
    let msg = "Server is busy, try again later";
    assert_eq!(SshErrorClassifier::classify_from_string(msg), SshErrorType::ResourceExhausted);
}

#[test]
fn test_classify_temporary() {
    let msg = "Connection timed out";
    assert_eq!(SshErrorClassifier::classify_from_string(msg), SshErrorType::Temporary);
}

#[test]
fn test_should_retry() {
    assert!(SshErrorClassifier::should_retry(SshErrorType::Temporary));
    assert!(!SshErrorClassifier::should_retry(SshErrorType::Permanent));
    assert!(SshErrorClassifier::should_retry(SshErrorType::RateLimited));
    assert!(SshErrorClassifier::should_retry(SshErrorType::ResourceExhausted));
}

#[test]
fn permanent_wins_over_rate_limit() {
    let msg = "Permission denied: too many connections";
    assert_eq!(SshErrorClassifier::classify_from_string(msg), SshErrorType::Permanent);
}

#[test]
fn classification_ignores_case() {
    assert_eq!(SshErrorClassifier::classify_from_string("HOST KEY VERIFICATION FAILED"), SshErrorType::Permanent);
    assert_eq!(SshErrorClassifier::classify_from_string("RATE LIMIT reached"), SshErrorType::RateLimited);
}

#[test]
fn io_errors_classified_by_kind() {
    let refused = IoErrorInfo { kind: IoErrorKind::ConnectionRefused, text: "refused".to_string() };
    assert_eq!(SshErrorClassifier::classify_io_error(&refused), SshErrorType::Permanent);
    let reset = IoErrorInfo { kind: IoErrorKind::ConnectionReset, text: "reset".to_string() };
    assert_eq!(SshErrorClassifier::classify_io_error(&reset), SshErrorType::Temporary);
}

#[test]
fn ssh_error_codes_classified() {
    let e = SshError { code: SshErrorCode::Session(-18), text: "auth".to_string() };
    assert_eq!(SshErrorClassifier::classify(&e), SshErrorType::Permanent);
}
