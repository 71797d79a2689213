use ripsed::text::{decimal_string, join_strings, split_lines};

#[test]
fn lines_split_like_str_lines() {
    for text in ["", "a", "a\n", "a\r\nb\r\n", "a\n\nb", "x\r", "foo\r\nbar\n\nbaz\r", "\n\n"] {
        let expected: Vec<String> = text.lines().map(|s| s.to_string()).collect();
        assert_eq!(split_lines(text), expected, "text {text:?}");
    }
}

#[test]
fn join_inserts_separators() {
    let parts = vec!["a".to_string(), "b".to_string(), "c".to_string()];
    assert_eq!(join_strings(&parts, "\r\n"), "a\r\nb\r\nc");
    assert_eq!(join_strings(&vec![], ","), "");
}

#[test]
fn decimals() {
    assert_eq!(decimal_string(0), "0");
    assert_eq!(decimal_string(7), "7");
    assert_eq!(decimal_string(10), "10");
    assert_eq!(decimal_string(usize::MAX), usize::MAX.to_string());
}
