use ripsed::suggestion::{find_path_suggestions, find_suggestions};

#[test]
fn test_finds_close_match() {
    let suggestions = find_suggestions("old_fnuction", &["old_function", "new_function", "xyz"]);
    assert_eq!(suggestions, vec!["old_function"]);
}

#[test]
fn test_no_suggestions_for_distant() {
    let suggestions = find_suggestions("abc", &["xyz", "completely_different"]);
    assert!(suggestions.is_empty());
}

#[test]
fn test_exact_match_excluded() {
    let suggestions = find_suggestions("hello", &["hello", "helo"]);
    assert_eq!(suggestions, vec!["helo"]);
}

#[test]
fn test_path_suggestions() {
    let suggestions = find_path_suggestions("src/lbi.rs", &["src/lib.rs", "src/main.rs"]);
    assert_eq!(suggestions, vec!["src/lib.rs"]);
}

#[test]
fn closer_suggestions_come_first_stably() {
    let suggestions = find_suggestions("abcd", &["abxy", "abce", "zbcd", "abcd"]);
    assert_eq!(suggestions, vec!["abce", "zbcd", "abxy"]);
}
