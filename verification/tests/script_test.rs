use ripsed::cli::{plan_run, Cli, RunPlan};
use ripsed::config::Config;
use ripsed::engine::apply;
use ripsed::matcher::Matcher;
use ripsed::operation::{Op, OpOptions, TransformMode};
use ripsed::script::{parse_script, split_words};
use ripsed::step::{plan_script_file_step, record_written, script_op_options, was_written};

fn cli() -> Cli {
    Cli {
        find: None,
        replace: None,
        regex: false,
        delete: false,
        in_place: false,
        pipe: false,
        dry_run: false,
        backup: false,
        glob: Some("*.txt".into()),
        ignore_pattern: None,
        hidden: false,
        no_gitignore: false,
        json: false,
        json_input: None,
        no_json: false,
        jsonl: false,
        after: None,
        before: None,
        replace_line: None,
        line_range: None,
        max_depth: None,
        case_insensitive: false,
        count: false,
        quiet: false,
        confirm: false,
        config: None,
        undo: None,
        undo_list: false,
        follow: false,
        script: Some("edit.rip".into()),
    }
}

fn words(line: &str) -> Vec<String> {
    split_words(line).unwrap()
}

#[test]
fn words_split_at_blanks_with_quotes_and_comments() {
    assert_eq!(words("foo  bar\tbaz"), vec!["foo", "bar", "baz"]);
    assert_eq!(words(r#""hello world" 'it''s' # a comment"#), vec!["hello world", "its"]);
    assert_eq!(words(r#""a\tb\n\"c\\" x#y"#), vec!["a\tb\n\"c\\", "x#y"]);
    assert_eq!(words(r#"pre"fix"'ed'"#), vec!["prefixed"]);
    assert_eq!(words(r#""""#), vec![""]);
    assert!(words("   # only a comment").is_empty());
    assert!(split_words("\"open").is_none());
    assert!(split_words("'open").is_none());
}

#[test]
fn script_lines_become_operations() {
    let text = "# rename things\n\
                old new --glob '*.rs'\n\
                \n\
                -d 'console\\.log' -e\n\
                x --after 'y z'\n\
                name --transform upper -i\n\
                line --surround '<' '>'\n\
                code --indent 2 --tabs\n\
                code --dedent 4\n\
                fn --replace-line gone\n\
                a --before b\n";
    let script = parse_script(text).unwrap();
    let ops: Vec<&Op> = script.operations.iter().map(|s| &s.op).collect();
    assert_eq!(ops.len(), 9);
    assert_eq!(*ops[0], Op::Replace { find: "old".into(), replace: "new".into(), regex: false, case_insensitive: false });
    assert_eq!(script.operations[0].glob.as_deref(), Some("*.rs"));
    assert_eq!(*ops[1], Op::Delete { find: "console\\.log".into(), regex: true, case_insensitive: false });
    assert!(script.operations[1].glob.is_none());
    assert_eq!(*ops[2], Op::InsertAfter { find: "x".into(), content: "y z".into(), regex: false, case_insensitive: false });
    assert_eq!(*ops[3], Op::Transform { find: "name".into(), mode: TransformMode::Upper, regex: false, case_insensitive: true });
    assert_eq!(*ops[4], Op::Surround { find: "line".into(), prefix: "<".into(), suffix: ">".into(), regex: false, case_insensitive: false });
    assert_eq!(*ops[5], Op::Indent { find: "code".into(), amount: 2, use_tabs: true, regex: false, case_insensitive: false });
    assert_eq!(*ops[6], Op::Dedent { find: "code".into(), amount: 4, use_tabs: false, regex: false, case_insensitive: false });
    assert_eq!(*ops[7], Op::ReplaceLine { find: "fn".into(), content: "gone".into(), regex: false, case_insensitive: false });
    assert_eq!(*ops[8], Op::InsertBefore { find: "a".into(), content: "b".into(), regex: false, case_insensitive: false });
}

#[test]
fn script_errors_name_the_line() {
    assert_eq!(parse_script("a b\n'open\n").unwrap_err(), "line 2: unterminated quote");
    assert_eq!(parse_script("a --after\n").unwrap_err(), "line 1: option '--after' needs a value");
    assert_eq!(parse_script("ok\n\na --bogus\n").unwrap_err(), "line 3: unknown option '--bogus'");
    assert_eq!(parse_script("--glob x\n").unwrap_err(), "line 1: missing pattern");
    assert_eq!(parse_script("a b c\n").unwrap_err(), "line 1: too many arguments");
    assert_eq!(parse_script("a b -d\n").unwrap_err(), "line 1: only a replace takes a replacement");
    assert_eq!(
        parse_script("a --transform shout\n").unwrap_err(),
        "line 1: unknown transform mode 'shout'. Valid modes: upper, lower, title, snake_case, camel_case"
    );
    assert_eq!(parse_script("a --indent two\n").unwrap_err(), "line 1: invalid amount 'two'");
    assert!(parse_script("# nothing\n\n").unwrap().operations.is_empty());
}

#[test]
fn script_runs_before_other_modes() {
    let mut c = cli();
    c.undo_list = true;
    assert_eq!(plan_run(&c, true), RunPlan::Script);
    c.script = None;
    assert_eq!(plan_run(&c, true), RunPlan::UndoList);
}

#[test]
fn script_operation_glob_overrides_the_command_line() {
    let c = cli();
    let config = Config::default();
    let own = script_op_options(&c, &config, &Some("*.rs".into()), None);
    assert_eq!(own.glob.as_deref(), Some("*.rs"));
    let inherited = script_op_options(&c, &config, &None, None);
    assert_eq!(inherited.glob.as_deref(), Some("*.txt"));
    assert!(inherited.gitignore);
}

#[test]
fn backup_only_before_the_first_write() {
    let c = cli();
    let mut options = OpOptions::default();
    options.dry_run = false;
    options.backup = true;
    let op = Op::Replace { find: "a".into(), replace: "b".into(), regex: false, case_insensitive: false };
    let m = Matcher::new(&op).unwrap();
    let out = apply("a\na\n", &op, &m, None, 0).unwrap();
    let first = plan_script_file_step(&c, &options, &out, false);
    assert_eq!(first.counted, 2);
    assert_eq!(first.write.as_deref(), Some("b\nb\n"));
    assert!(first.backup && first.record_undo);
    let later = plan_script_file_step(&c, &options, &out, true);
    assert!(!later.backup);
    assert!(later.write.is_some());
    let mut dry = cli();
    dry.dry_run = true;
    let preview = plan_script_file_step(&dry, &options, &out, false);
    assert_eq!(preview.counted, 2);
    assert!(preview.write.is_none() && !preview.backup && !preview.record_undo);
}

#[test]
fn written_files_are_counted_once() {
    let mut written: Vec<String> = Vec::new();
    record_written(&mut written, "a.txt");
    record_written(&mut written, "b.txt");
    record_written(&mut written, "a.txt");
    assert_eq!(written, vec!["a.txt", "b.txt"]);
    assert!(was_written(&written, "b.txt"));
    assert!(!was_written(&written, "c.txt"));
}
