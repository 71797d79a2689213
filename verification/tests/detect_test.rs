use ripsed::detect::{detect_buffered, detect_stdin, InputMode};

#[test]
fn test_detect_json() {
    let input = r#"{"operations": [{"op": "replace", "find": "a", "replace": "b"}]}"#;
    let mode = detect_stdin(input.as_bytes().to_vec());
    assert!(matches!(mode, InputMode::Json(_)));
}

#[test]
fn test_detect_plain_text() {
    let input = "just some plain text\n";
    let mode = detect_stdin(input.as_bytes().to_vec());
    assert!(matches!(mode, InputMode::Pipe(_)));
}

#[test]
fn test_detect_json_without_operations() {
    let input = r#"{"key": "value"}"#;
    let mode = detect_stdin(input.as_bytes().to_vec());
    assert!(matches!(mode, InputMode::Pipe(_)));
}

#[test]
fn test_detect_empty() {
    let input = "";
    let mode = detect_stdin(input.as_bytes().to_vec());
    assert!(matches!(mode, InputMode::Pipe(_)));
}

#[test]
fn detect_json_after_leading_whitespace() {
    let input = "  \n\t{\"operations\": []}";
    assert_eq!(detect_stdin(input.as_bytes().to_vec()), InputMode::Json(input.to_string()));
}

#[test]
fn detect_invalid_utf8_is_pipe() {
    let bytes = vec![b'{', 0xFF, b'}'];
    assert_eq!(detect_stdin(bytes.clone()), InputMode::Pipe(bytes));
}

#[test]
fn detect_buffered_decides_on_whole_input() {
    let full = b"{\"operations\": []}".to_vec();
    assert!(matches!(detect_buffered(&full[..4], full.clone()), InputMode::Json(_)));
    let text = b"hello {\"operations\": []}".to_vec();
    assert_eq!(detect_buffered(&text[..3], text.clone()), InputMode::Pipe(text));
    assert_eq!(detect_buffered(&[], Vec::new()), InputMode::Pipe(Vec::new()));
}

#[test]
fn detect_buffered_whitespace_first_chunk_still_json() {
    let full = b"   \n  {\"operations\": []}".to_vec();
    assert!(matches!(detect_buffered(&full[..3], full.clone()), InputMode::Json(_)));
    assert_eq!(detect_buffered(&full[..3], full.clone()), detect_stdin(full.clone()));
}
