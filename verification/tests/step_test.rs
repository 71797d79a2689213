use ripsed::cli::Cli;
use ripsed::engine::apply;
use ripsed::lock::{lock_retry_step, LockAttempt, LockStep};
use ripsed::matcher::Matcher;
use ripsed::operation::{Op, OpOptions};
use ripsed::reader::{input_within_limit, MAX_INPUT_BYTES};
use ripsed::step::{
    answer_from_input, ends_prompting, json_file_apply, json_file_new, json_file_plan, plan_file_step,
    Answer,
};

fn confirming_cli(dry_run: bool) -> Cli {
    Cli {
        find: Some("a".into()),
        replace: Some("b".into()),
        regex: false,
        delete: false,
        in_place: false,
        pipe: false,
        dry_run,
        backup: false,
        glob: None,
        ignore_pattern: None,
        hidden: false,
        no_gitignore: false,
        json: false,
        json_input: None,
        no_json: false,
        jsonl: false,
        after: None,
        before: None,
        replace_line: None,
        line_range: None,
        max_depth: None,
        case_insensitive: false,
        count: false,
        quiet: false,
        confirm: true,
        config: None,
        undo: None,
        undo_list: false,
        follow: false,
        script: None,
    }
}

const TEXT: &str = "a1\nx\na2\na3\n";

fn replace_op() -> Op {
    Op::Replace { find: "a".into(), replace: "b".into(), regex: false, case_insensitive: false }
}

fn backup_options() -> OpOptions {
    let mut o = OpOptions::default();
    o.dry_run = false;
    o.backup = true;
    o
}

#[test]
fn only_changes_answered_yes_are_written() {
    let cli = confirming_cli(false);
    let op = replace_op();
    let m = Matcher::new(&op).unwrap();
    let out = apply(TEXT, &op, &m, None, 0).unwrap();
    let answers = vec![Answer::Yes, Answer::No, Answer::Yes];
    let step = plan_file_step(&cli, &backup_options(), TEXT, &op, &m, &out, &answers, false);
    assert_eq!(step.kept, vec![0, 2]);
    assert_eq!(step.counted, 2);
    assert_eq!(step.write.as_deref(), Some("b1\nx\na2\nb3\n"));
    assert!(step.backup);
    assert!(step.record_undo);
    assert!(!step.apply_all);
    assert!(!step.quit);
}

#[test]
fn apply_all_keeps_the_rest_and_carries_over() {
    let cli = confirming_cli(false);
    let op = replace_op();
    let m = Matcher::new(&op).unwrap();
    let out = apply(TEXT, &op, &m, None, 0).unwrap();
    let answers = vec![Answer::No, Answer::ApplyAll];
    let step = plan_file_step(&cli, &backup_options(), TEXT, &op, &m, &out, &answers, false);
    assert_eq!(step.kept, vec![1, 2]);
    assert_eq!(step.write.as_deref(), Some("a1\nx\nb2\nb3\n"));
    assert!(step.apply_all);
    let next = plan_file_step(&cli, &backup_options(), TEXT, &op, &m, &out, &Vec::new(), true);
    assert_eq!(next.kept, vec![0, 1, 2]);
    assert_eq!(next.write.as_deref(), Some("b1\nx\nb2\nb3\n"));
}

#[test]
fn skip_file_and_quit_keep_nothing() {
    let cli = confirming_cli(false);
    let op = replace_op();
    let m = Matcher::new(&op).unwrap();
    let out = apply(TEXT, &op, &m, None, 0).unwrap();
    let skip = plan_file_step(&cli, &backup_options(), TEXT, &op, &m, &out, &vec![Answer::Yes, Answer::SkipFile], false);
    assert!(skip.kept.is_empty());
    assert!(skip.write.is_none());
    assert!(!skip.backup && !skip.record_undo && !skip.quit);
    let quit = plan_file_step(&cli, &backup_options(), TEXT, &op, &m, &out, &vec![Answer::Quit], false);
    assert!(quit.kept.is_empty());
    assert!(quit.quit);
}

#[test]
fn dry_run_writes_nothing_but_counts() {
    let mut cli = confirming_cli(true);
    cli.confirm = false;
    let op = replace_op();
    let m = Matcher::new(&op).unwrap();
    let out = apply(TEXT, &op, &m, None, 0).unwrap();
    let step = plan_file_step(&cli, &backup_options(), TEXT, &op, &m, &out, &Vec::new(), false);
    assert_eq!(step.counted, 3);
    assert!(step.write.is_none());
    assert!(!step.backup);
}

#[test]
fn prompt_answers_are_read() {
    assert_eq!(answer_from_input("y\n"), Answer::Yes);
    assert_eq!(answer_from_input(" YES "), Answer::Yes);
    assert_eq!(answer_from_input("a"), Answer::ApplyAll);
    assert_eq!(answer_from_input("skip"), Answer::SkipFile);
    assert_eq!(answer_from_input("q\n"), Answer::Quit);
    assert_eq!(answer_from_input(""), Answer::No);
    assert_eq!(answer_from_input("maybe"), Answer::No);
    assert!(ends_prompting(Answer::Quit));
    assert!(!ends_prompting(Answer::Yes));
}

#[test]
fn lock_back_off_doubles_up_to_the_cap() {
    assert_eq!(lock_retry_step(LockAttempt::Acquired, 0, 10, 1), LockStep::Done);
    assert_eq!(lock_retry_step(LockAttempt::Failed, 0, 10, 1), LockStep::Fail);
    assert_eq!(lock_retry_step(LockAttempt::Busy, 10, 10, 1), LockStep::TimedOut);
    assert_eq!(lock_retry_step(LockAttempt::Busy, 0, 0, 1), LockStep::TimedOut);
    assert_eq!(lock_retry_step(LockAttempt::Busy, 0, 10, 1), LockStep::Sleep { ms: 1, next_ms: 2 });
    assert_eq!(lock_retry_step(LockAttempt::Busy, 0, 10, 32), LockStep::Sleep { ms: 32, next_ms: 50 });
}

#[test]
fn input_limit_is_sixty_four_mebibytes() {
    assert_eq!(MAX_INPUT_BYTES, 64 * 1024 * 1024);
    assert!(input_within_limit(MAX_INPUT_BYTES));
    assert!(!input_within_limit(MAX_INPUT_BYTES + 1));
}

#[test]
fn json_file_composes_operations_and_writes_once() {
    let mut f = json_file_new("a x\n".to_string());
    let first = Op::Replace { find: "a".into(), replace: "b".into(), regex: false, case_insensitive: false };
    let m1 = Matcher::new(&first).unwrap();
    let out1 = apply(&f.current, &first, &m1, None, 0).unwrap();
    json_file_apply(&mut f, &out1);
    let second = Op::Replace { find: "b".into(), replace: "c".into(), regex: false, case_insensitive: false };
    let m2 = Matcher::new(&second).unwrap();
    let out2 = apply(&f.current, &second, &m2, None, 0).unwrap();
    json_file_apply(&mut f, &out2);
    assert_eq!(f.current, "c x\n");
    assert_eq!(f.original, "a x\n");
    assert_eq!(f.changes, 2);
    let plan = json_file_plan(&f, &backup_options());
    assert_eq!(plan.write.as_deref(), Some("c x\n"));
    assert!(plan.backup && plan.record_undo);
    let dry = json_file_plan(&f, &OpOptions::default());
    assert!(dry.write.is_none() && !dry.backup && !dry.record_undo);
    let untouched = json_file_plan(&json_file_new("same\n".to_string()), &backup_options());
    assert!(untouched.write.is_none());
}
