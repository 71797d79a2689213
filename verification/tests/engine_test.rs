use ripsed::engine::{apply, build_op_result, uses_crlf};
use ripsed::matcher::Matcher;
use ripsed::operation::{LineRange, Op, TransformMode};

fn replace_op(find: &str, replace: &str) -> Op {
    Op::Replace { find: find.to_string(), replace: replace.to_string(), regex: false, case_insensitive: false }
}

#[test]
fn test_simple_replace() {
    let text = "hello world\nfoo bar\nhello again\n";
    let op = replace_op("hello", "hi");
    let matcher = Matcher::new(&op).unwrap();
    let result = apply(text, &op, &matcher, None, 2).unwrap();
    assert_eq!(result.text.unwrap(), "hi world\nfoo bar\nhi again\n");
    assert_eq!(result.changes.len(), 2);
}

#[test]
fn test_delete_lines() {
    let text = "keep\ndelete me\nkeep too\n";
    let op = Op::Delete { find: "delete".to_string(), regex: false, case_insensitive: false };
    let matcher = Matcher::new(&op).unwrap();
    let result = apply(text, &op, &matcher, None, 0).unwrap();
    assert_eq!(result.text.unwrap(), "keep\nkeep too\n");
}

#[test]
fn test_no_changes() {
    let text = "nothing matches here\n";
    let op = replace_op("zzz", "aaa");
    let matcher = Matcher::new(&op).unwrap();
    let result = apply(text, &op, &matcher, None, 0).unwrap();
    assert!(result.text.is_none());
    assert!(result.changes.is_empty());
}

#[test]
fn test_line_range() {
    let text = "line1\nline2\nline3\nline4\n";
    let op = replace_op("line", "row");
    let range = Some(LineRange { start: 2, end: Some(3) });
    let matcher = Matcher::new(&op).unwrap();
    let result = apply(text, &op, &matcher, range, 0).unwrap();
    assert_eq!(result.text.unwrap(), "line1\nrow2\nrow3\nline4\n");
}

#[test]
fn test_crlf_replace_preserves_crlf() {
    let text = "hello world\r\nfoo bar\r\nhello again\r\n";
    let op = replace_op("hello", "hi");
    let matcher = Matcher::new(&op).unwrap();
    let result = apply(text, &op, &matcher, None, 0).unwrap();
    assert_eq!(result.text.unwrap(), "hi world\r\nfoo bar\r\nhi again\r\n");
}

#[test]
fn test_crlf_delete_preserves_crlf() {
    let text = "keep\r\ndelete me\r\nkeep too\r\n";
    let op = Op::Delete { find: "delete".to_string(), regex: false, case_insensitive: false };
    let matcher = Matcher::new(&op).unwrap();
    let result = apply(text, &op, &matcher, None, 0).unwrap();
    assert_eq!(result.text.unwrap(), "keep\r\nkeep too\r\n");
}

#[test]
fn test_crlf_no_trailing_newline() {
    let text = "hello world\r\nfoo bar";
    let op = replace_op("hello", "hi");
    let matcher = Matcher::new(&op).unwrap();
    let result = apply(text, &op, &matcher, None, 0).unwrap();
    let output = result.text.unwrap();
    assert_eq!(output, "hi world\r\nfoo bar");
    assert!(!output.ends_with("\r\n"));
}

#[test]
fn test_empty_input_text() {
    let text = "";
    let op = replace_op("anything", "something");
    let matcher = Matcher::new(&op).unwrap();
    let result = apply(text, &op, &matcher, None, 0).unwrap();
    assert!(result.text.is_none());
    assert!(result.changes.is_empty());
}

#[test]
fn test_single_line_no_trailing_newline() {
    let text = "hello world";
    let op = replace_op("hello", "hi");
    let matcher = Matcher::new(&op).unwrap();
    let result = apply(text, &op, &matcher, None, 0).unwrap();
    let output = result.text.unwrap();
    assert_eq!(output, "hi world");
    assert!(!output.ends_with('\n'));
}

#[test]
fn test_whitespace_only_lines() {
    let text = "  \n\t\n   \t  \n";
    let op = replace_op("\t", "TAB");
    let matcher = Matcher::new(&op).unwrap();
    let result = apply(text, &op, &matcher, None, 0).unwrap();
    let output = result.text.unwrap();
    assert!(output.contains("TAB"));
    assert_eq!(result.changes.len(), 2);
}

#[test]
fn test_very_long_line() {
    let long_word = "x".repeat(100_000);
    let text = format!("before\n{long_word}\nafter\n");
    let op = replace_op("x", "y");
    let matcher = Matcher::new(&op).unwrap();
    let result = apply(&text, &op, &matcher, None, 0).unwrap();
    let output = result.text.unwrap();
    let expected_long = "y".repeat(100_000);
    assert!(output.contains(&expected_long));
}

#[test]
fn test_unicode_emoji() {
    let text = "hello world\n";
    let op = replace_op("world", "\u{1F30D}");
    let matcher = Matcher::new(&op).unwrap();
    let result = apply(text, &op, &matcher, None, 0).unwrap();
    assert_eq!(result.text.unwrap(), "hello \u{1F30D}\n");
}

#[test]
fn test_unicode_cjk() {
    let text = "\u{4F60}\u{597D}\u{4E16}\u{754C}\n";
    let op = replace_op("\u{4E16}\u{754C}", "\u{5730}\u{7403}");
    let matcher = Matcher::new(&op).unwrap();
    let result = apply(text, &op, &matcher, None, 0).unwrap();
    assert_eq!(result.text.unwrap(), "\u{4F60}\u{597D}\u{5730}\u{7403}\n");
}

#[test]
fn test_unicode_combining_characters() {
    let text = "caf\u{0065}\u{0301}\n";
    let op = replace_op("caf\u{0065}\u{0301}", "coffee");
    let matcher = Matcher::new(&op).unwrap();
    let result = apply(text, &op, &matcher, None, 0).unwrap();
    assert_eq!(result.text.unwrap(), "coffee\n");
}

#[test]
fn test_regex_special_chars_in_literal_mode() {
    let text = "price is $10.00 (USD)\n";
    let op = replace_op("$10.00", "$20.00");
    let matcher = Matcher::new(&op).unwrap();
    let result = apply(text, &op, &matcher, None, 0).unwrap();
    assert_eq!(result.text.unwrap(), "price is $20.00 (USD)\n");
}

#[test]
fn test_overlapping_matches_in_single_line() {
    let text = "aaa\n";
    let op = replace_op("aa", "b");
    let matcher = Matcher::new(&op).unwrap();
    let result = apply(text, &op, &matcher, None, 0).unwrap();
    assert_eq!(result.text.unwrap(), "ba\n");
}

#[test]
fn test_replace_line_count_preserved() {
    let text = "line1\nline2\nline3\nline4\nline5\n";
    let input_line_count = text.lines().count();
    let op = replace_op("line", "row");
    let matcher = Matcher::new(&op).unwrap();
    let result = apply(text, &op, &matcher, None, 0).unwrap();
    let output = result.text.unwrap();
    let output_line_count = output.lines().count();
    assert_eq!(input_line_count, output_line_count);
}

#[test]
fn test_replace_preserves_empty_result_on_non_match() {
    let text = "alpha\nbeta\ngamma\n";
    let op = replace_op("zzzzzz", "y");
    let matcher = Matcher::new(&op).unwrap();
    let result = apply(text, &op, &matcher, None, 0).unwrap();
    assert!(result.text.is_none());
    assert!(result.undo.is_none());
}

#[test]
fn test_undo_entry_stores_original() {
    let text = "hello\nworld\n";
    let op = replace_op("hello", "hi");
    let matcher = Matcher::new(&op).unwrap();
    let result = apply(text, &op, &matcher, None, 0).unwrap();
    let undo = result.undo.unwrap();
    assert_eq!(undo.original_text, text);
}

#[test]
fn test_determinism_same_input_same_output() {
    let text = "foo bar baz\nhello world\nfoo again\n";
    let op = replace_op("foo", "qux");
    let matcher = Matcher::new(&op).unwrap();
    let r1 = apply(text, &op, &matcher, None, 0).unwrap();
    let r2 = apply(text, &op, &matcher, None, 0).unwrap();
    assert_eq!(r1.text, r2.text);
    assert_eq!(r1.changes.len(), r2.changes.len());
    for (c1, c2) in r1.changes.iter().zip(r2.changes.iter()) {
        assert_eq!(c1, c2);
    }
}

// ---- further cases ----

#[test]
fn insert_after_and_before_record_both_lines() {
    let text = "a\nb\n";
    let op = Op::InsertAfter { find: "a".into(), content: "X".into(), regex: false, case_insensitive: false };
    let m = Matcher::new(&op).unwrap();
    let out = apply(text, &op, &m, None, 0).unwrap();
    assert_eq!(out.text.unwrap(), "a\nX\nb\n");
    assert_eq!(out.changes[0].after.as_deref(), Some("a\nX"));

    let op = Op::InsertBefore { find: "b".into(), content: "Y".into(), regex: false, case_insensitive: false };
    let m = Matcher::new(&op).unwrap();
    let out = apply(text, &op, &m, None, 0).unwrap();
    assert_eq!(out.text.unwrap(), "a\nY\nb\n");
    assert_eq!(out.changes[0].after.as_deref(), Some("Y\nb"));
}

#[test]
fn replace_line_replaces_whole_line() {
    let text = "keep\nold stuff\n";
    let op = Op::ReplaceLine { find: "old".into(), content: "new".into(), regex: false, case_insensitive: false };
    let m = Matcher::new(&op).unwrap();
    let out = apply(text, &op, &m, None, 0).unwrap();
    assert_eq!(out.text.unwrap(), "keep\nnew\n");
    assert_eq!(out.changes[0].line, 2);
    assert_eq!(out.changes[0].before, "old stuff");
}

#[test]
fn context_lines_around_change() {
    let text = "l1\nl2\nl3\nTARGET\nl5\nl6\nl7\n";
    let op = replace_op("TARGET", "hit");
    let m = Matcher::new(&op).unwrap();
    let out = apply(text, &op, &m, None, 2).unwrap();
    let ctx = out.changes[0].context.as_ref().unwrap();
    assert_eq!(ctx.before, vec!["l2", "l3"]);
    assert_eq!(ctx.after, vec!["l5", "l6"]);
    let out = apply(text, &op, &m, None, 100).unwrap();
    let ctx = out.changes[0].context.as_ref().unwrap();
    assert_eq!(ctx.before.len(), 3);
    assert_eq!(ctx.after.len(), 3);
}

#[test]
fn deleting_every_line_keeps_final_newline() {
    let text = "x\nx\n";
    let op = Op::Delete { find: "x".into(), regex: false, case_insensitive: false };
    let m = Matcher::new(&op).unwrap();
    let out = apply(text, &op, &m, None, 0).unwrap();
    assert_eq!(out.text.unwrap(), "\n");
}

fn transform_op(find: &str, mode: TransformMode, regex: bool) -> Op {
    Op::Transform { find: find.into(), mode, regex, case_insensitive: false }
}

#[test]
fn transform_upper_changes_matched_text_only() {
    let op = transform_op("hello", TransformMode::Upper, false);
    let m = Matcher::new(&op).unwrap();
    let out = apply("say hello world\nnothing\n", &op, &m, None, 0).unwrap();
    assert_eq!(out.text.unwrap(), "say HELLO world\nnothing\n");
    assert_eq!(out.changes.len(), 1);
    assert_eq!(out.changes[0].after.as_deref(), Some("say HELLO world"));
}

#[test]
fn transform_no_op_records_no_change() {
    let op = transform_op("HELLO", TransformMode::Upper, false);
    let m = Matcher::new(&op).unwrap();
    let out = apply("HELLO there\n", &op, &m, None, 0).unwrap();
    assert!(out.changes.is_empty());
    assert!(out.text.is_none());
    assert!(out.undo.is_none());
}

#[test]
fn transform_case_modes_on_regex_matches() {
    let text = "let fooBar = my_value;\n";
    let cases = [
        (TransformMode::SnakeCase, "let foo_bar = my_value;\n"),
        (TransformMode::Lower, "let foobar = my_value;\n"),
    ];
    for (mode, expected) in cases {
        let op = transform_op(r"fooBar", mode, true);
        let m = Matcher::new(&op).unwrap();
        assert_eq!(apply(text, &op, &m, None, 0).unwrap().text.unwrap(), expected);
    }
    let op = transform_op(r"my_\w+", TransformMode::CamelCase, true);
    let m = Matcher::new(&op).unwrap();
    assert_eq!(apply(text, &op, &m, None, 0).unwrap().text.unwrap(), "let fooBar = myValue;\n");
    let op = transform_op(r"hello world", TransformMode::Title, false);
    let m = Matcher::new(&op).unwrap();
    assert_eq!(apply("x hello world\n", &op, &m, None, 0).unwrap().text.unwrap(), "x Hello World\n");
}

#[test]
fn surround_wraps_matching_lines() {
    let op = Op::Surround { find: "b".into(), prefix: "<".into(), suffix: ">".into(), regex: false, case_insensitive: false };
    let m = Matcher::new(&op).unwrap();
    let out = apply("a\nb\n", &op, &m, None, 0).unwrap();
    assert_eq!(out.text.unwrap(), "a\n<b>\n");
    assert_eq!(out.changes[0].line, 2);
}

#[test]
fn empty_surround_records_no_change() {
    let op = Op::Surround { find: "b".into(), prefix: "".into(), suffix: "".into(), regex: false, case_insensitive: false };
    let m = Matcher::new(&op).unwrap();
    let out = apply("a\nb\n", &op, &m, None, 0).unwrap();
    assert!(out.changes.is_empty());
    assert!(out.text.is_none());
}

#[test]
fn indent_and_dedent_round_trip_with_tabs() {
    let indent = Op::Indent { find: "x".into(), amount: 2, use_tabs: true, regex: false, case_insensitive: false };
    let m = Matcher::new(&indent).unwrap();
    let indented = apply("x1\ny\n", &indent, &m, None, 0).unwrap().text.unwrap();
    assert_eq!(indented, "\t\tx1\ny\n");
    let dedent = Op::Dedent { find: "x".into(), amount: 2, use_tabs: true, regex: false, case_insensitive: false };
    let m = Matcher::new(&dedent).unwrap();
    assert_eq!(apply(&indented, &dedent, &m, None, 0).unwrap().text.unwrap(), "x1\ny\n");
}

#[test]
fn indent_with_spaces_and_dedent_up_to_amount() {
    let indent = Op::Indent { find: "x".into(), amount: 4, use_tabs: false, regex: false, case_insensitive: false };
    let m = Matcher::new(&indent).unwrap();
    assert_eq!(apply("x\n", &indent, &m, None, 0).unwrap().text.unwrap(), "    x\n");
    let dedent = Op::Dedent { find: "x".into(), amount: 2, use_tabs: false, regex: false, case_insensitive: false };
    let m = Matcher::new(&dedent).unwrap();
    assert_eq!(apply(" \t  x\n", &dedent, &m, None, 0).unwrap().text.unwrap(), "  x\n");
    let out = apply("x\n", &dedent, &m, None, 0).unwrap();
    assert!(out.changes.is_empty());
}

#[test]
fn zero_indent_records_no_change() {
    let indent = Op::Indent { find: "x".into(), amount: 0, use_tabs: false, regex: false, case_insensitive: false };
    let m = Matcher::new(&indent).unwrap();
    let out = apply("x\n", &indent, &m, None, 0).unwrap();
    assert!(out.changes.is_empty());
}

#[test]
fn applying_the_undo_entry_restores_the_text() {
    let text = "one\ntwo\n";
    let op = replace_op("two", "2");
    let m = Matcher::new(&op).unwrap();
    let out = apply(text, &op, &m, None, 0).unwrap();
    let changed = out.text.unwrap();
    assert_eq!(changed, "one\n2\n");
    assert_eq!(out.undo.unwrap().original_text, text);
}

#[test]
fn regex_replace_with_capture_in_engine() {
    let text = "fn old_a() {}\nlet x = 1;\n";
    let op = Op::Replace { find: r"fn\s+old_(\w+)".into(), replace: "fn new_$1".into(), regex: true, case_insensitive: false };
    let m = Matcher::new(&op).unwrap();
    let out = apply(text, &op, &m, None, 0).unwrap();
    assert_eq!(out.text.unwrap(), "fn new_a() {}\nlet x = 1;\n");
}

#[test]
fn build_op_result_wraps_changes() {
    let empty = build_op_result(3, "a.rs", vec![]);
    assert_eq!(empty.operation_index, 3);
    assert!(empty.files.is_empty());
    let text = "a\n";
    let op = replace_op("a", "b");
    let m = Matcher::new(&op).unwrap();
    let out = apply(text, &op, &m, None, 0).unwrap();
    let r = build_op_result(1, "src/lib.rs", out.changes);
    assert_eq!(r.files.len(), 1);
    assert_eq!(r.files[0].path, "src/lib.rs");
    assert_eq!(r.files[0].changes.len(), 1);
}

#[test]
fn test_uses_crlf_detection() {
    assert!(uses_crlf("a\r\nb\r\n"));
    assert!(uses_crlf("a\r\n"));
    assert!(!uses_crlf("a\nb\n"));
    assert!(!uses_crlf("no newline at all"));
    assert!(!uses_crlf(""));
}

#[test]
fn first_line_ending_decides_the_separator() {
    assert!(!uses_crlf("a\nb\r\n"));
    assert!(uses_crlf("a\r\nb\nc\n"));
    let op = replace_op("b", "x");
    let matcher = Matcher::new(&op).unwrap();
    let out = apply("a\nb\r\n", &op, &matcher, None, 0).unwrap();
    assert_eq!(out.text.unwrap(), "a\nx\n");
    let out = apply("a\r\nb\nc\n", &op, &matcher, None, 0).unwrap();
    assert_eq!(out.text.unwrap(), "a\r\nx\r\nc\r\n");
}
