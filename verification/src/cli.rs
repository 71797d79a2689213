//! The command-line interface's decisions: which operation the flags ask
//! for, which options apply, and what the summary line and exit code are.
use vstd::prelude::*;
use vstd::string::*;

use crate::config::Config;
use crate::operation::{LineRange, Op, OpOptions};
use crate::request::opt_view;
use crate::text::{
    chars_of, decimal, decimal_string, lowercase, owned, str_eq, trim_str, trimmed, unicode_lowercase,
};

verus! {

/// The command-line arguments.
#[derive(Debug, Clone)]
pub struct Cli {
    /// Pattern to search for
    pub find: Option<String>,
    /// Replacement string
    pub replace: Option<String>,
    /// Treat FIND as a regex pattern
    pub regex: bool,
    /// Delete matching lines
    pub delete: bool,
    /// Modify files in place
    pub in_place: bool,
    /// Read from stdin, write to stdout
    pub pipe: bool,
    /// Preview changes without writing
    pub dry_run: bool,
    /// Create backup files before modifying
    pub backup: bool,
    /// Only process files matching glob
    pub glob: Option<String>,
    /// Skip files matching glob
    pub ignore_pattern: Option<String>,
    /// Include hidden files
    pub hidden: bool,
    /// Don't respect .gitignore
    pub no_gitignore: bool,
    /// Enable agent/JSON mode
    pub json: bool,
    /// JSON input as argument (for --json mode)
    pub json_input: Option<String>,
    /// Force human mode even if stdin looks like JSON
    pub no_json: bool,
    /// Stream results as JSON Lines
    pub jsonl: bool,
    /// Insert text after matching lines
    pub after: Option<String>,
    /// Insert text before matching lines
    pub before: Option<String>,
    /// Replace entire matching line with new content
    pub replace_line: Option<String>,
    /// Only operate on lines N through M (format: N:M)
    pub line_range: Option<String>,
    /// Maximum directory recursion depth
    pub max_depth: Option<usize>,
    /// Case-insensitive matching
    pub case_insensitive: bool,
    /// Print count of matches/replacements only
    pub count: bool,
    /// Suppress all non-error output
    pub quiet: bool,
    /// Interactive confirmation before each change
    pub confirm: bool,
    /// Path to a configuration file
    pub config: Option<String>,
    /// Undo the last N operations
    pub undo: Option<usize>,
    /// Show recent undo log entries
    pub undo_list: bool,
    /// Follow symbolic links during discovery
    pub follow: bool,
    /// Run the operations of a `.rip` script file
    pub script: Option<String>,
}

/// The operation the flags ask for: delete, insert after, insert before,
/// replace line, or else replace (with an empty replacement when none is
/// given), in that order of precedence.
pub open spec fn spec_op_from_cli(cli: Cli, find: Seq<char>, op: Op) -> bool {
    if cli.delete {
        op matches Op::Delete { find: f, regex, case_insensitive } && f@ == find && regex
            == cli.regex && case_insensitive == cli.case_insensitive
    } else if cli.after is Some {
        op matches Op::InsertAfter { find: f, content, regex, case_insensitive } && f@ == find
            && content@ == cli.after->0@ && regex == cli.regex && case_insensitive
            == cli.case_insensitive
    } else if cli.before is Some {
        op matches Op::InsertBefore { find: f, content, regex, case_insensitive } && f@ == find
            && content@ == cli.before->0@ && regex == cli.regex && case_insensitive
            == cli.case_insensitive
    } else if cli.replace_line is Some {
        op matches Op::ReplaceLine { find: f, content, regex, case_insensitive } && f@ == find
            && content@ == cli.replace_line->0@ && regex == cli.regex && case_insensitive
            == cli.case_insensitive
    } else {
        op matches Op::Replace { find: f, replace, regex, case_insensitive } && f@ == find
            && replace@ == match cli.replace {
            Some(r) => r@,
            None => Seq::<char>::empty(),
        } && regex == cli.regex && case_insensitive == cli.case_insensitive
    }
}

/// Build the operation the command-line flags ask for.
pub fn build_op_from_cli(cli: &Cli, find: &str) -> (op: Op)
    ensures
        spec_op_from_cli(*cli, find@, op),
{
    if cli.delete {
        Op::Delete { find: owned(find), regex: cli.regex, case_insensitive: cli.case_insensitive }
    } else if let Some(content) = &cli.after {
        Op::InsertAfter {
            find: owned(find),
            content: content.clone(),
            regex: cli.regex,
            case_insensitive: cli.case_insensitive,
        }
    } else if let Some(content) = &cli.before {
        Op::InsertBefore {
            find: owned(find),
            content: content.clone(),
            regex: cli.regex,
            case_insensitive: cli.case_insensitive,
        }
    } else if let Some(content) = &cli.replace_line {
        Op::ReplaceLine {
            find: owned(find),
            content: content.clone(),
            regex: cli.regex,
            case_insensitive: cli.case_insensitive,
        }
    } else {
        let replace = match &cli.replace {
            Some(r) => r.clone(),
            None => String::new(),
        };
        Op::Replace {
            find: owned(find),
            replace,
            regex: cli.regex,
            case_insensitive: cli.case_insensitive,
        }
    }
}

/// A copy of an optional string.
fn clone_opt(o: &Option<String>) -> (r: Option<String>)
    ensures
        opt_view(r) == opt_view(*o),
{
    match o {
        Some(s) => Some(s.clone()),
        None => None,
    }
}

/// The options of a file-mode run: the flags, with the configuration's
/// defaults for `.gitignore` (unless `--no-gitignore`), backups (either
/// turns them on) and the depth limit (the flag wins).
pub fn file_mode_options(cli: &Cli, config: &Config, line_range: Option<LineRange>) -> (r:
    OpOptions)
    ensures
        r.dry_run == cli.dry_run,
        r.root is None,
        r.gitignore == (!cli.no_gitignore && config.defaults.gitignore),
        r.backup == (cli.backup || config.defaults.backup),
        !r.atomic,
        opt_view(r.glob) == opt_view(cli.glob),
        opt_view(r.ignore) == opt_view(cli.ignore_pattern),
        r.hidden == cli.hidden,
        r.max_depth == match cli.max_depth {
            Some(d) => Some(d),
            None => config.defaults.max_depth,
        },
        r.line_range == line_range,
{
    OpOptions {
        dry_run: cli.dry_run,
        root: None,
        gitignore: if cli.no_gitignore {
            false
        } else {
            config.defaults.gitignore
        },
        backup: cli.backup || config.defaults.backup,
        atomic: false,
        glob: clone_opt(&cli.glob),
        ignore: clone_opt(&cli.ignore_pattern),
        hidden: cli.hidden,
        max_depth: match cli.max_depth {
            Some(d) => Some(d),
            None => config.defaults.max_depth,
        },
        line_range,
    }
}

/// The process exit code of a run's result.
pub fn result_to_code(result: Result<(), i32>) -> (r: i32)
    ensures
        r == match result {
            Ok(()) => 0i32,
            Err(code) => code,
        },
{
    match result {
        Ok(()) => 0,
        Err(code) => code,
    }
}

/// The value of a string of decimal digits, or `None` when it is empty, holds
/// anything but a digit, or is too large for `usize`.
pub open spec fn spec_parse_usize(s: Seq<char>) -> Option<nat>
    decreases s.len(),
{
    if s.len() == 0 {
        None
    } else if !('0' <= s.last() && s.last() <= '9') {
        None
    } else {
        let d = (s.last() as nat - '0' as nat) as nat;
        let v = if s.len() == 1 {
            Some(0nat)
        } else {
            spec_parse_usize(s.drop_last())
        };
        match v {
            Some(x) => if x * 10 + d <= usize::MAX {
                Some(x * 10 + d)
            } else {
                None
            },
            None => None,
        }
    }
}

/// The range a `--line-range` argument `N:M` denotes: lines `N` through `M`.
pub open spec fn spec_parse_line_range(s: Seq<char>) -> Option<(nat, nat)> {
    if exists|i: int| 0 <= i < s.len() && s[i] == ':' {
        let i = choose|i: int| 0 <= i < s.len() && s[i] == ':' && forall|j: int|
            0 <= j < i ==> s[j] != ':';
        match (spec_parse_usize(s.take(i)), spec_parse_usize(s.skip(i + 1))) {
            (Some(a), Some(b)) => Some((a, b)),
            _ => None,
        }
    } else {
        None
    }
}

pub(crate) fn parse_usize(s: &Vec<char>, from: usize, to: usize) -> (r: Option<usize>)
    requires
        from <= to <= s.len(),
    ensures
        r matches Some(v) ==> spec_parse_usize(s@.subrange(from as int, to as int)) == Some(
            v as nat,
        ),
        r is None ==> spec_parse_usize(s@.subrange(from as int, to as int)) is None,
{
    if from == to {
        return None;
    }
    let mut acc: usize = 0;
    let mut i = from;
    while i < to
        invariant
            from <= i <= to <= s.len(),
            i > from ==> spec_parse_usize(s@.subrange(from as int, i as int)) == Some(acc as nat),
            i == from ==> acc == 0,
        decreases to - i,
    {
        let c = s[i];
        assert(s@.subrange(from as int, i + 1).drop_last() =~= s@.subrange(from as int, i as int));
        assert(s@.subrange(from as int, i + 1).last() == c);
        if !('0' <= c && c <= '9') {
            proof {
                assert(s@.subrange(from as int, to as int).take((i + 1 - from) as int) =~= s@.subrange(
                    from as int,
                    i + 1,
                ));
                lemma_parse_prefix_none(s@.subrange(from as int, to as int), (i + 1 - from) as int);
            }
            return None;
        }
        let d = (c as u32 - '0' as u32) as usize;
        let next = match acc.checked_mul(10) {
            Some(m) => m.checked_add(d),
            None => None,
        };
        match next {
            Some(n) => {
                acc = n;
            },
            None => {
                proof {
                    assert(s@.subrange(from as int, to as int).take((i + 1 - from) as int)
                        =~= s@.subrange(from as int, i + 1));
                    assert(i > from);
                    assert((acc as nat) * 10 + (d as nat) > usize::MAX) by (nonlinear_arith)
                        requires
                            acc.checked_mul(10) is None || (acc * 10 <= usize::MAX && acc * 10
                                + d > usize::MAX),
                    ;
                    lemma_parse_prefix_none(
                        s@.subrange(from as int, to as int),
                        (i + 1 - from) as int,
                    );
                }
                return None;
            },
        }
        i += 1;
    }
    Some(acc)
}

/// Once a prefix fails to parse, every longer text does too.
proof fn lemma_parse_prefix_none(s: Seq<char>, k: int)
    requires
        0 < k <= s.len(),
        spec_parse_usize(s.take(k)) is None,
    ensures
        spec_parse_usize(s) is None,
    decreases s.len() - k,
{
    if k < s.len() {
        assert(s.take(k + 1).drop_last() =~= s.take(k));
        lemma_parse_prefix_none(s, k + 1);
    } else {
        assert(s.take(k) =~= s);
    }
}

/// Parse a `--line-range` argument of the form `N:M` (split at the first
/// colon) into the range of lines `N` through `M`; anything else is refused.
pub fn parse_line_range(s: &str) -> (r: Option<LineRange>)
    ensures
        r matches Some(lr) ==> spec_parse_line_range(s@) == Some(
            (lr.start as nat, lr.end->0 as nat),
        ) && lr.end is Some,
        r is None ==> spec_parse_line_range(s@) is None,
{
    let v = chars_of(s);
    let mut i: usize = 0;
    while i < v.len()
        invariant
            v@ == s@,
            i <= v.len(),
            forall|j: int| 0 <= j < i ==> v@[j] != ':',
        decreases v.len() - i,
    {
        if v[i] == ':' {
            let ghost k = choose|k: int| 0 <= k < s@.len() && s@[k] == ':' && forall|j: int|
                0 <= j < k ==> s@[j] != ':';
            assert(0 <= i < s@.len() && s@[i as int] == ':' && forall|j: int|
                0 <= j < i ==> s@[j] != ':');
            assert(k == i) by {
                if k < i {
                    assert(s@[k] != ':');
                } else if k > i {
                }
            }
            assert(v@.subrange(0, i as int) =~= s@.take(i as int));
            assert(v@.subrange(i + 1, v.len() as int) =~= s@.skip(i + 1));
            let a = parse_usize(&v, 0, i);
            let b = parse_usize(&v, i + 1, v.len());
            return match (a, b) {
                (Some(start), Some(end)) => Some(LineRange { start, end: Some(end) }),
                _ => None,
            };
        }
        i += 1;
    }
    None
}

/// The summary line of a file-mode run.
pub open spec fn spec_summary_message(files: nat, changes: nat, dry_run: bool) -> Seq<char> {
    if dry_run {
        "ripsed: dry run — "@ + decimal(changes) + " change(s) in "@ + decimal(files)
            + " file(s) (not applied)"@
    } else {
        "ripsed: "@ + decimal(changes) + " change(s) applied in "@ + decimal(files) + " file(s)"@
    }
}

/// The summary line of a file-mode run.
pub fn summary_message(files_matched: usize, total_changes: usize, dry_run: bool) -> (r: String)
    ensures
        r@ == spec_summary_message(files_matched as nat, total_changes as nat, dry_run),
{
    let changes = decimal_string(total_changes);
    let files = decimal_string(files_matched);
    if dry_run {
        let mut m = owned("ripsed: dry run — ");
        m.append(changes.as_str());
        m.append(" change(s) in ");
        m.append(files.as_str());
        m.append(" file(s) (not applied)");
        m
    } else {
        let mut m = owned("ripsed: ");
        m.append(changes.as_str());
        m.append(" change(s) applied in ");
        m.append(files.as_str());
        m.append(" file(s)");
        m
    }
}

/// What a run does, decided from the flags and whether stdin is a terminal.
#[derive(Debug, Clone, Copy, PartialEq, Eq, Structural)]
pub enum RunPlan {
    /// List the undo log.
    UndoList,
    /// Run the script file named by `--script`.
    Script,
    /// Undo the last N changes.
    Undo(usize),
    /// Read stdin and edit it as a stream (pipe mode).
    PipeFromStdin,
    /// Read stdin, then decide between JSON and the other modes.
    JsonFromStdin,
    /// Run the JSON request given as an argument.
    JsonFromArgument,
    /// JSON mode was asked for with no input to read.
    MissingJsonInput,
    /// Edit files (file mode).
    FileMode,
}

/// The plan of a run: `--script`, then `--undo-list`, then `--undo`, then `--pipe`; then JSON
/// mode when asked for or when stdin is not a terminal (unless
/// `--no-json`), reading stdin when it is not a terminal, else the
/// `--json-input` argument; then pipe mode when stdin is not a terminal;
/// otherwise file mode.
pub open spec fn spec_plan_run(cli: Cli, stdin_is_tty: bool) -> RunPlan {
    if cli.script is Some {
        RunPlan::Script
    } else if cli.undo_list {
        RunPlan::UndoList
    } else if cli.undo is Some {
        RunPlan::Undo(cli.undo->0)
    } else if cli.pipe {
        RunPlan::PipeFromStdin
    } else if cli.json || (!stdin_is_tty && !cli.no_json) {
        if !stdin_is_tty {
            RunPlan::JsonFromStdin
        } else if cli.json_input is Some {
            RunPlan::JsonFromArgument
        } else {
            RunPlan::MissingJsonInput
        }
    } else if !stdin_is_tty {
        RunPlan::PipeFromStdin
    } else {
        RunPlan::FileMode
    }
}

/// Decide what a run does.
pub fn plan_run(cli: &Cli, stdin_is_tty: bool) -> (r: RunPlan)
    ensures
        r == spec_plan_run(*cli, stdin_is_tty),
{
    if cli.script.is_some() {
        RunPlan::Script
    } else if cli.undo_list {
        RunPlan::UndoList
    } else if let Some(n) = cli.undo {
        RunPlan::Undo(n)
    } else if cli.pipe {
        RunPlan::PipeFromStdin
    } else if cli.json || (!stdin_is_tty && !cli.no_json) {
        if !stdin_is_tty {
            RunPlan::JsonFromStdin
        } else if cli.json_input.is_some() {
            RunPlan::JsonFromArgument
        } else {
            RunPlan::MissingJsonInput
        }
    } else if !stdin_is_tty {
        RunPlan::PipeFromStdin
    } else {
        RunPlan::FileMode
    }
}

/// What to do with stdin once it is read in JSON mode.
#[derive(Debug, Clone, Copy, PartialEq, Eq, Structural)]
pub enum StdinPlan {
    /// Nothing was piped and JSON was not asked for: edit files instead.
    FileMode,
    /// JSON was asked for: run the input as a request.
    Json,
    /// Detect whether the input is a request or text to edit.
    Detect,
}

/// Decide what to do with stdin read in JSON mode.
pub fn plan_stdin_input(cli: &Cli, input_is_empty: bool) -> (r: StdinPlan)
    ensures
        r == if input_is_empty && !cli.json {
            StdinPlan::FileMode
        } else if cli.json {
            StdinPlan::Json
        } else {
            StdinPlan::Detect
        },
{
    if input_is_empty && !cli.json {
        StdinPlan::FileMode
    } else if cli.json {
        StdinPlan::Json
    } else {
        StdinPlan::Detect
    }
}

/// Whether an answer to a confirmation prompt accepts: trimmed and
/// lowercased, it is `y` or `yes`.
pub fn is_confirmation(answer: &str) -> (r: bool)
    ensures
        r == (unicode_lowercase(trimmed(answer@)) == "y"@ || unicode_lowercase(trimmed(answer@))
            == "yes"@),
{
    let t = trim_str(answer);
    let l = lowercase(t.as_str());
    str_eq(l.as_str(), "y") || str_eq(l.as_str(), "yes")
}

/// The exit status of a file-mode run: failure when nothing changed.
pub fn file_mode_result(total_changes: usize) -> (r: Result<(), i32>)
    ensures
        total_changes == 0 ==> r == Err::<(), i32>(1),
        total_changes > 0 ==> r is Ok,
{
    if total_changes == 0 {
        Err(1)
    } else {
        Ok(())
    }
}

} // verus!
