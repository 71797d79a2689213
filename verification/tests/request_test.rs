use ripsed::error::ErrorCode;
use ripsed::operation::{Op, OpOptions};
use ripsed::request::{default_version, JsonOp, JsonRequest, UndoRequest};

fn replace(find: &str) -> JsonOp {
    JsonOp {
        op: Op::Replace { find: find.into(), replace: "b".into(), regex: false, case_insensitive: false },
        glob: None,
    }
}

fn request(version: &str, ops: Vec<JsonOp>, undo: Option<UndoRequest>) -> JsonRequest {
    JsonRequest { version: version.into(), operations: ops, options: OpOptions::default(), undo }
}

#[test]
fn validate_accepts_operations() {
    assert!(request("1", vec![replace("a")], None).validate().is_ok());
    assert!(request("1", vec![], Some(UndoRequest { last: 2 })).validate().is_ok());
}

#[test]
fn validate_refuses_unknown_version() {
    let err = request("99", vec![replace("a")], None).validate().unwrap_err();
    assert_eq!(err.code, ErrorCode::InvalidRequest);
    assert_eq!(err.message, "Unknown version '99'. Supported versions: 1");
    assert_eq!(err.hint, "Set \"version\": \"1\" in your request.");
}

#[test]
fn validate_refuses_empty_operations() {
    let err = request("1", vec![], None).validate().unwrap_err();
    assert_eq!(err.message, "Request must contain 'operations' or 'undo'.");
}

#[test]
fn validate_refuses_both() {
    let err = request("1", vec![replace("a")], Some(UndoRequest { last: 1 })).validate().unwrap_err();
    assert_eq!(err.message, "Request cannot contain both 'operations' and 'undo'.");
}

#[test]
fn into_ops_uses_request_glob_as_fallback() {
    let mut options = OpOptions::default();
    options.glob = Some("*.rs".into());
    let mut with_glob = replace("x");
    with_glob.glob = Some("*.txt".into());
    let req = JsonRequest { version: default_version(), operations: vec![replace("a"), with_glob], options, undo: None };
    let (ops, opts) = req.into_ops();
    assert_eq!(ops.len(), 2);
    assert_eq!(ops[0].0.find_pattern(), "a");
    assert_eq!(ops[0].1.as_deref(), Some("*.rs"));
    assert_eq!(ops[1].1.as_deref(), Some("*.txt"));
    assert_eq!(opts.glob.as_deref(), Some("*.rs"));
}

#[test]
fn default_version_is_one() {
    assert_eq!(default_version(), "1");
}
