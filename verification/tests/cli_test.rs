use ripsed::cli::{build_op_from_cli, file_mode_options, parse_line_range, result_to_code, summary_message, Cli};
use ripsed::config::Config;
use ripsed::operation::{LineRange, Op};

fn cli() -> Cli {
    Cli {
        find: Some("old".into()),
        replace: None,
        regex: false,
        delete: false,
        in_place: false,
        pipe: false,
        dry_run: false,
        backup: false,
        glob: None,
        ignore_pattern: None,
        hidden: false,
        no_gitignore: false,
        json: false,
        json_input: None,
        no_json: false,
        jsonl: false,
        after: None,
        before: None,
        replace_line: None,
        line_range: None,
        max_depth: None,
        case_insensitive: false,
        count: false,
        quiet: false,
        confirm: false,
        config: None,
        undo: None,
        undo_list: false,
        follow: false,
        script: None,
    }
}

#[test]
fn cli_builds_replace_with_empty_default() {
    let op = build_op_from_cli(&cli(), "old");
    assert_eq!(op, Op::Replace { find: "old".into(), replace: "".into(), regex: false, case_insensitive: false });
}

#[test]
fn cli_delete_takes_precedence() {
    let mut c = cli();
    c.delete = true;
    c.after = Some("x".into());
    c.regex = true;
    assert_eq!(build_op_from_cli(&c, "p"), Op::Delete { find: "p".into(), regex: true, case_insensitive: false });
}

#[test]
fn cli_insert_and_replace_line() {
    let mut c = cli();
    c.before = Some("b".into());
    c.replace_line = Some("r".into());
    assert_eq!(
        build_op_from_cli(&c, "p"),
        Op::InsertBefore { find: "p".into(), content: "b".into(), regex: false, case_insensitive: false }
    );
    c.before = None;
    c.case_insensitive = true;
    assert_eq!(
        build_op_from_cli(&c, "p"),
        Op::ReplaceLine { find: "p".into(), content: "r".into(), regex: false, case_insensitive: true }
    );
}

#[test]
fn options_merge_flags_and_config() {
    let mut c = cli();
    c.no_gitignore = true;
    c.max_depth = None;
    let mut config = Config::default();
    config.defaults.backup = true;
    config.defaults.max_depth = Some(5);
    let o = file_mode_options(&c, &config, None);
    assert!(!o.gitignore);
    assert!(o.backup);
    assert_eq!(o.max_depth, Some(5));
    c.max_depth = Some(2);
    assert_eq!(file_mode_options(&c, &config, None).max_depth, Some(2));
}

#[test]
fn exit_codes() {
    assert_eq!(result_to_code(Ok(())), 0);
    assert_eq!(result_to_code(Err(3)), 3);
}

#[test]
fn line_range_argument() {
    assert_eq!(parse_line_range("2:10"), Some(LineRange { start: 2, end: Some(10) }));
    assert_eq!(parse_line_range("2"), None);
    assert_eq!(parse_line_range("a:3"), None);
    assert_eq!(parse_line_range("3:"), None);
    assert_eq!(parse_line_range("99999999999999999999999:1"), None);
}

#[test]
fn summary_lines() {
    assert_eq!(summary_message(2, 5, true), "ripsed: dry run — 5 change(s) in 2 file(s) (not applied)");
    assert_eq!(summary_message(1, 3, false), "ripsed: 3 change(s) applied in 1 file(s)");
}
