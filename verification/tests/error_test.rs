use ripsed::error::{ContextValue, ErrorCode, RipsedError};

fn text(v: Option<&ContextValue>) -> String {
    match v {
        Some(ContextValue::Text(s)) => s.clone(),
        other => panic!("expected a text value, got {other:?}"),
    }
}

#[test]
fn no_matches_without_suggestions() {
    let err = RipsedError::no_matches(0, "foobar", 10, vec![]);
    assert_eq!(err.code, ErrorCode::NoMatches);
    assert_eq!(err.operation_index, Some(0));
    assert!(err.message.contains("foobar"));
    assert!(err.message.contains("10 files"));
    assert!(err.hint.contains("typos"));
    assert!(err.context_get("suggestions").is_none());
}

#[test]
fn no_matches_with_suggestions() {
    let err = RipsedError::no_matches(2, "fobar", 5, vec!["foobar".into()]);
    assert!(err.hint.contains("foobar"));
    match err.context_get("suggestions") {
        Some(ContextValue::List(suggestions)) => {
            assert_eq!(suggestions.len(), 1);
            assert_eq!(suggestions[0], "foobar");
        }
        other => panic!("expected a list, got {other:?}"),
    }
}

#[test]
fn invalid_regex_has_pattern_context() {
    let err = RipsedError::invalid_regex(1, "[bad", "unclosed bracket");
    assert_eq!(err.code, ErrorCode::InvalidRegex);
    assert_eq!(err.operation_index, Some(1));
    assert!(err.message.contains("unclosed bracket"));
    assert_eq!(text(err.context_get("pattern")), "[bad");
}

#[test]
fn invalid_request_has_no_operation_index() {
    let err = RipsedError::invalid_request("bad request", "fix it");
    assert_eq!(err.code, ErrorCode::InvalidRequest);
    assert!(err.operation_index.is_none());
    assert_eq!(err.message, "bad request");
    assert_eq!(err.hint, "fix it");
}

#[test]
fn file_not_found_without_suggestions() {
    let err = RipsedError::file_not_found("/missing/path", vec![]);
    assert_eq!(err.code, ErrorCode::FileNotFound);
    assert!(err.hint.contains("typos"));
    assert_eq!(text(err.context_get("path")), "/missing/path");
}

#[test]
fn file_not_found_with_suggestions() {
    let err = RipsedError::file_not_found("/src/mian.rs", vec!["/src/main.rs".into()]);
    assert!(err.hint.contains("/src/main.rs"));
}

#[test]
fn permission_denied_includes_path() {
    let err = RipsedError::permission_denied("/etc/shadow");
    assert_eq!(err.code, ErrorCode::PermissionDenied);
    assert!(err.message.contains("/etc/shadow"));
    assert_eq!(text(err.context_get("path")), "/etc/shadow");
}

#[test]
fn binary_file_skipped_includes_path() {
    let err = RipsedError::binary_file_skipped("image.png");
    assert_eq!(err.code, ErrorCode::BinaryFileSkipped);
    assert!(err.message.contains("image.png"));
}

#[test]
fn atomic_rollback_includes_file_and_reason() {
    let err = RipsedError::atomic_rollback(3, "src/lib.rs", "disk full");
    assert_eq!(err.code, ErrorCode::AtomicRollback);
    assert_eq!(err.operation_index, Some(3));
    assert!(err.message.contains("src/lib.rs"));
    assert!(err.message.contains("disk full"));
    assert_eq!(text(err.context_get("file")), "src/lib.rs");
    assert_eq!(text(err.context_get("reason")), "disk full");
}

#[test]
fn write_failed_includes_os_error() {
    let err = RipsedError::write_failed("/tmp/out", "permission denied");
    assert_eq!(err.code, ErrorCode::WriteFailed);
    assert!(err.message.contains("permission denied"));
    assert_eq!(text(err.context_get("os_error")), "permission denied");
}

#[test]
fn internal_error_has_bug_hint() {
    let err = RipsedError::internal_error("unexpected state");
    assert_eq!(err.code, ErrorCode::InternalError);
    assert!(err.hint.contains("bug"));
}

#[test]
fn display_shows_message() {
    let err = RipsedError::invalid_request("test message", "hint");
    assert_eq!(err.to_string(), "test message");
}

#[test]
fn no_matches_exact_texts() {
    let err = RipsedError::no_matches(4, "pat", 1234, vec!["pit".into()]);
    assert_eq!(err.message, "Pattern 'pat' matched 0 lines across 1234 files.");
    assert_eq!(
        err.hint,
        "Check for typos in the pattern. Did you mean 'pit'? If using regex, ensure --regex is set."
    );
    assert_eq!(err.context_get("files_searched"), Some(&ContextValue::Count(1234)));
    let zero = RipsedError::no_matches(0, "p", 0, vec![]);
    assert_eq!(zero.message, "Pattern 'p' matched 0 lines across 0 files.");
}

#[test]
fn error_code_names_are_snake_case() {
    assert_eq!(ErrorCode::NoMatches.name(), "no_matches");
    assert_eq!(ErrorCode::InvalidRegex.name(), "invalid_regex");
    assert_eq!(ErrorCode::BinaryFileSkipped.name(), "binary_file_skipped");
}
