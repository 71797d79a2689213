use ripsed::error::ErrorCode;
use ripsed::matcher::Matcher;
use ripsed::operation::Op;

fn replace_op(find: &str, regex: bool, ci: bool) -> Op {
    Op::Replace { find: find.to_string(), replace: "x".to_string(), regex, case_insensitive: ci }
}

#[test]
fn test_literal_match() {
    let op = Op::Replace { find: "hello".to_string(), replace: "hi".to_string(), regex: false, case_insensitive: false };
    let m = Matcher::new(&op).unwrap();
    assert!(m.is_match("say hello world"));
    assert!(!m.is_match("say Hi world"));
}

#[test]
fn test_literal_case_insensitive() {
    let op = Op::Replace { find: "hello".to_string(), replace: "hi".to_string(), regex: false, case_insensitive: true };
    let m = Matcher::new(&op).unwrap();
    assert!(m.is_match("say HELLO world"));
    assert!(m.is_match("say Hello world"));
}

#[test]
fn test_regex_match() {
    let op = Op::Replace { find: r"fn\s+(\w+)".to_string(), replace: "fn new_$1".to_string(), regex: true, case_insensitive: false };
    let m = Matcher::new(&op).unwrap();
    assert!(m.is_match("fn old_func() {"));
    assert!(!m.is_match("let x = 5;"));
}

#[test]
fn test_regex_replace_with_captures() {
    let op = Op::Replace { find: r"fn\s+old_(\w+)".to_string(), replace: "fn new_$1".to_string(), regex: true, case_insensitive: false };
    let m = Matcher::new(&op).unwrap();
    let result = m.replace("fn old_function() {", "fn new_$1");
    assert_eq!(result, Some("fn new_function() {".to_string()));
}

#[test]
fn test_invalid_regex() {
    let op = Op::Replace { find: "fn (foo".to_string(), replace: "bar".to_string(), regex: true, case_insensitive: false };
    let err = Matcher::new(&op).unwrap_err();
    assert_eq!(err.code, ErrorCode::InvalidRegex);
}

#[test]
fn test_empty_pattern_literal_matches_everything() {
    let m = Matcher::new(&replace_op("", false, false)).unwrap();
    assert!(m.is_match("anything"));
    assert!(m.is_match(""));
}

#[test]
fn test_empty_pattern_literal_replace() {
    let m = Matcher::new(&replace_op("", false, false)).unwrap();
    let result = m.replace("ab", "x");
    assert_eq!(result, Some("xaxbx".to_string()));
}

#[test]
fn test_empty_pattern_regex_matches_everything() {
    let m = Matcher::new(&replace_op("", true, false)).unwrap();
    assert!(m.is_match("anything"));
    assert!(m.is_match(""));
}

#[test]
fn test_pattern_matches_entire_line_literal() {
    let m = Matcher::new(&replace_op("hello world", false, false)).unwrap();
    let result = m.replace("hello world", "goodbye");
    assert_eq!(result, Some("goodbye".to_string()));
}

#[test]
fn test_pattern_matches_entire_line_regex() {
    let m = Matcher::new(&replace_op(r"^.*$", true, false)).unwrap();
    let result = m.replace("anything here", "replaced");
    assert_eq!(result, Some("replaced".to_string()));
}

#[test]
fn test_regex_anchored_full_line() {
    let m = Matcher::new(&replace_op(r"^fn main\(\)$", true, false)).unwrap();
    assert!(m.is_match("fn main()"));
    assert!(!m.is_match("  fn main()"));
    assert!(!m.is_match("fn main() {"));
}

#[test]
fn test_case_insensitive_ascii() {
    let m = Matcher::new(&replace_op("Hello", false, true)).unwrap();
    assert!(m.is_match("HELLO"));
    assert!(m.is_match("hello"));
    assert!(m.is_match("HeLLo"));
    let result = m.replace("say HELLO there", "hi");
    assert_eq!(result, Some("say hi there".to_string()));
}

#[test]
fn test_case_insensitive_german_eszett() {
    let m = Matcher::new(&replace_op("stra\u{00DF}e", false, true)).unwrap();
    assert!(m.is_match("STRA\u{00DF}E"));
}

#[test]
fn test_case_insensitive_turkish_i_lowercase() {
    let m = Matcher::new(&replace_op("i", false, true)).unwrap();
    assert!(m.is_match("I"));
    assert!(!m.is_match("\u{0130}"));
}

#[test]
fn test_literal_mode_regex_metacharacters() {
    let patterns = vec![
        (".", "dot"), ("*", "star"), ("+", "plus"), ("?", "question"), ("(", "paren"),
        ("[", "bracket"), ("{", "brace"), ("^", "caret"), ("$", "dollar"), ("|", "pipe"),
        ("\\", "backslash"),
    ];
    for (pat, name) in patterns {
        let m = Matcher::new(&replace_op(pat, false, false)).unwrap();
        let text = format!("before {pat} after");
        assert!(m.is_match(&text), "Literal mode should match '{name}' ({pat}) as a literal character");
        let result = m.replace(&text, "X");
        assert_eq!(result, Some("before X after".to_string()), "Literal mode should replace '{name}' ({pat}) as a literal");
    }
}

#[test]
fn test_multiple_matches_same_line() {
    let m = Matcher::new(&replace_op("ab", false, false)).unwrap();
    let result = m.replace("ab cd ab ef ab", "X");
    assert_eq!(result, Some("X cd X ef X".to_string()));
}

#[test]
fn test_replace_with_empty_string() {
    let m = Matcher::new(&replace_op("remove", false, false)).unwrap();
    let result = m.replace("please remove this", "");
    assert_eq!(result, Some("please  this".to_string()));
}

#[test]
fn test_no_match_returns_none() {
    let m = Matcher::new(&replace_op("xyz", false, false)).unwrap();
    assert!(m.replace("nothing here", "abc").is_none());
}

#[test]
fn invalid_regex_error_names_pattern() {
    let err = Matcher::new(&replace_op("[bad", true, false)).unwrap_err();
    assert_eq!(err.operation_index, None);
    assert!(err.message.starts_with("Regex failed to compile: "));
    assert!(err.hint.starts_with("Check the regex syntax in pattern '[bad'. "));
}

#[test]
fn case_insensitive_literal_is_escaped() {
    let m = Matcher::new(&replace_op("a.c", false, true)).unwrap();
    assert!(m.is_match("A.C"));
    assert!(!m.is_match("abc"));
}

#[test]
fn literal_matcher_keeps_pattern() {
    let m = Matcher::new(&replace_op("abc", false, false)).unwrap();
    match m {
        Matcher::Literal { pattern, case_insensitive } => {
            assert_eq!(pattern, "abc");
            assert!(!case_insensitive);
        }
        _ => panic!("expected a literal matcher"),
    }
}
