use ripsed::diff::{Change, FileChanges, OpResult, Summary};
use ripsed::error::RipsedError;
use ripsed::response::{JsonResponse, UndoResponse, UndoSummary};

#[test]
fn success_response_has_correct_fields() {
    let summary = Summary { files_matched: 3, files_modified: 2, total_replacements: 5 };
    let results = vec![OpResult {
        operation_index: 0,
        files: vec![FileChanges {
            path: "src/lib.rs".into(),
            changes: vec![Change { line: 1, before: "old".into(), after: Some("new".into()), context: None }],
        }],
    }];
    let resp = JsonResponse::success(true, summary, results);
    assert_eq!(resp.version, "1");
    assert!(resp.success);
    assert!(resp.dry_run);
    assert_eq!(resp.summary.files_matched, 3);
    assert_eq!(resp.results.len(), 1);
    assert!(resp.errors.is_empty());
}

#[test]
fn error_response_has_correct_fields() {
    let err = RipsedError::invalid_request("bad input", "fix it");
    let resp = JsonResponse::error(vec![err]);
    assert_eq!(resp.version, "1");
    assert!(!resp.success);
    assert!(!resp.dry_run);
    assert_eq!(resp.summary, Summary::default());
    assert!(resp.results.is_empty());
    assert_eq!(resp.errors.len(), 1);
    assert_eq!(resp.errors[0].message, "bad input");
}

#[test]
fn undo_response_holds_counts() {
    let resp = UndoResponse {
        version: "1".into(),
        success: true,
        undo: UndoSummary { operations_reverted: 2, files_restored: 3, log_entries_remaining: 8 },
    };
    assert_eq!(resp.undo.operations_reverted, 2);
    assert_eq!(resp.undo.files_restored, 3);
    assert_eq!(resp.undo.log_entries_remaining, 8);
}
