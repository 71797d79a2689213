//! One file of a file-mode run: which of the file's changes the user's
//! answers keep, and what is then written, backed up and recorded.
use vstd::prelude::*;

use crate::cli::{file_mode_options, Cli};
use crate::config::Config;
use crate::operation::LineRange;
use crate::request::opt_view;
use crate::diff::Change;
use crate::engine::{apply_kept, spec_kept_text, EngineOutput};
use crate::matcher::Matcher;
use crate::operation::{Op, OpOptions};
use crate::text::{
    lowercase, owned, str_eq, string_views, trim_str, trimmed, unicode_lowercase,
};

verus! {

/// An answer to the confirmation prompt for one change.
#[derive(Debug, Clone, Copy, PartialEq, Eq, Structural)]
pub enum Answer {
    /// Apply this change.
    Yes,
    /// Leave this change out.
    No,
    /// Apply this change and every later one, in this file and the next.
    ApplyAll,
    /// Leave this whole file unchanged.
    SkipFile,
    /// Leave this file unchanged and stop the run.
    Quit,
}

/// The confirmation state after some answers.
#[derive(Debug, Clone, Copy, PartialEq, Eq, Structural)]
pub struct ConfirmState {
    /// Every further change is applied without asking.
    pub all: bool,
    /// The file is skipped.
    pub skip: bool,
    /// The run stops.
    pub quit: bool,
}

/// What is done with one file.
#[derive(Debug)]
pub struct FileStep {
    /// The positions, in the engine's change list, of the changes kept.
    pub kept: Vec<usize>,
    /// The number of changes kept.
    pub counted: usize,
    /// The text to write, if any.
    pub write: Option<String>,
    /// Whether a backup is made before writing.
    pub backup: bool,
    /// Whether an undo record is kept for the write.
    pub record_undo: bool,
    /// Whether later changes are applied without asking.
    pub apply_all: bool,
    /// Whether the run stops after this file.
    pub quit: bool,
}

/// The answer a line typed at the prompt gives: trimmed and lowercased,
/// `y`/`yes` accepts, `a`/`all` accepts this and every later change,
/// `s`/`skip` skips the file, `q`/`quit` stops; anything else declines.
pub open spec fn spec_answer(input: Seq<char>) -> Answer {
    let w = unicode_lowercase(trimmed(input));
    if w == "y"@ || w == "yes"@ {
        Answer::Yes
    } else if w == "a"@ || w == "all"@ {
        Answer::ApplyAll
    } else if w == "s"@ || w == "skip"@ {
        Answer::SkipFile
    } else if w == "q"@ || w == "quit"@ {
        Answer::Quit
    } else {
        Answer::No
    }
}

/// Read an answer from a line typed at the prompt.
pub fn answer_from_input(input: &str) -> (r: Answer)
    ensures
        r == spec_answer(input@),
{
    let t = trim_str(input);
    let w = lowercase(t.as_str());
    let w = w.as_str();
    if str_eq(w, "y") || str_eq(w, "yes") {
        Answer::Yes
    } else if str_eq(w, "a") || str_eq(w, "all") {
        Answer::ApplyAll
    } else if str_eq(w, "s") || str_eq(w, "skip") {
        Answer::SkipFile
    } else if str_eq(w, "q") || str_eq(w, "quit") {
        Answer::Quit
    } else {
        Answer::No
    }
}

/// Whether an answer ends the prompting for a file.
pub fn ends_prompting(a: Answer) -> (r: bool)
    ensures
        r == (a == Answer::ApplyAll || a == Answer::SkipFile || a == Answer::Quit),
{
    a == Answer::ApplyAll || a == Answer::SkipFile || a == Answer::Quit
}

/// The answer given for change `i`; a change never asked about counts as
/// declined.
pub open spec fn answer_at(answers: Seq<Answer>, i: int) -> Answer {
    if 0 <= i < answers.len() {
        answers[i]
    } else {
        Answer::No
    }
}

/// The state after the answers for the first `i` changes, starting with
/// `all0`. Once every change is applied, or the file skipped, or the run
/// stopped, later answers change nothing.
pub open spec fn confirm_state(answers: Seq<Answer>, i: int, all0: bool) -> ConfirmState
    decreases i,
{
    if i <= 0 {
        ConfirmState { all: all0, skip: false, quit: false }
    } else {
        let p = confirm_state(answers, i - 1, all0);
        if p.all || p.skip || p.quit {
            p
        } else {
            match answer_at(answers, i - 1) {
                Answer::ApplyAll => ConfirmState { all: true, ..p },
                Answer::SkipFile => ConfirmState { skip: true, ..p },
                Answer::Quit => ConfirmState { quit: true, ..p },
                _ => p,
            }
        }
    }
}

/// Change `i` is accepted: every change is being applied, or it was
/// answered Yes or ApplyAll.
pub open spec fn accepted(answers: Seq<Answer>, i: int, all0: bool) -> bool {
    ||| confirm_state(answers, i, all0).all
    ||| answer_at(answers, i) == Answer::Yes
    ||| answer_at(answers, i) == Answer::ApplyAll
}

/// The positions among the first `k` changes that are accepted, in order.
pub open spec fn accepted_upto(answers: Seq<Answer>, k: int, all0: bool) -> Seq<usize>
    decreases k,
{
    if k <= 0 {
        seq![]
    } else if accepted(answers, k - 1, all0) {
        accepted_upto(answers, k - 1, all0).push((k - 1) as usize)
    } else {
        accepted_upto(answers, k - 1, all0)
    }
}

proof fn lemma_accepted_bounded(answers: Seq<Answer>, k: int, all0: bool)
    requires
        0 <= k <= usize::MAX + 1,
    ensures
        forall|j: int|
            0 <= j < accepted_upto(answers, k, all0).len() ==> accepted_upto(answers, k, all0)[j]
                < k,
    decreases k,
{
    if k > 0 {
        lemma_accepted_bounded(answers, k - 1, all0);
        let prev = accepted_upto(answers, k - 1, all0);
        if accepted(answers, k - 1, all0) {
            let next = prev.push((k - 1) as usize);
            assert(((k - 1) as usize) as int == k - 1);
            assert forall|j: int| 0 <= j < next.len() implies #[trigger] next[j] < k by {
                if j < prev.len() {
                    assert(next[j] == prev[j]);
                }
            }
        }
    }
}

/// The positions of the changes kept among `n`: the accepted ones, unless
/// the file was skipped or the run stopped, which keep none.
pub open spec fn kept_positions(answers: Seq<Answer>, n: int, all0: bool) -> Seq<usize> {
    let fin = confirm_state(answers, n, all0);
    if fin.skip || fin.quit {
        seq![]
    } else {
        accepted_upto(answers, n, all0)
    }
}

/// The line numbers of the changes at the given positions.
pub open spec fn lines_of(changes: Seq<Change>, positions: Seq<usize>) -> Seq<usize> {
    positions.map_values(|i: usize| changes[i as int].line)
}

/// Plan what file mode does with one file, given the engine's output for
/// it and the answers to the confirmation prompt (one per change, in
/// order, up to and including the first ApplyAll, SkipFile or Quit; with
/// `--confirm` off, or after an earlier ApplyAll, no answer is read and
/// every change is kept).
///
/// The changes kept are those answered Yes, and from an ApplyAll on every
/// one; SkipFile and Quit keep none. Nothing is written in a dry run or
/// when nothing is kept; otherwise the text with exactly the kept changes
/// made is written, backed up first when backups are asked for, and
/// recorded for undo.
pub fn plan_file_step(
    cli: &Cli,
    options: &OpOptions,
    text: &str,
    op: &Op,
    matcher: &Matcher,
    output: &EngineOutput,
    answers: &Vec<Answer>,
    apply_all: bool,
) -> (r: FileStep)
    ensures
        ({
            let n = output.changes@.len() as int;
            let all0 = apply_all || !cli.confirm;
            let fin = confirm_state(answers@, n, all0);
            &&& r.kept@ == kept_positions(answers@, n, all0)
            &&& r.counted == r.kept@.len()
            &&& (cli.dry_run || r.counted == 0) ==> r.write is None
            &&& !cli.dry_run && r.counted > 0 ==> (r.write matches Some(t) && t@ == spec_kept_text(
                text@,
                *op,
                *matcher,
                options.line_range,
                lines_of(output.changes@, r.kept@),
            ))
            &&& r.backup == (r.write is Some && options.backup)
            &&& r.record_undo == r.write is Some
            &&& r.apply_all == if cli.confirm {
                fin.all
            } else {
                apply_all
            }
            &&& r.quit == fin.quit
        }),
{
    let n = output.changes.len();
    let all0 = apply_all || !cli.confirm;
    let mut all = all0;
    let mut skip = false;
    let mut quit = false;
    let mut accepted_pos: Vec<usize> = Vec::new();
    let mut i: usize = 0;
    while i < n
        invariant
            n == output.changes@.len(),
            i <= n,
            all0 == (apply_all || !cli.confirm),
            confirm_state(answers@, i as int, all0) == (ConfirmState { all, skip, quit }),
            accepted_pos@ == accepted_upto(answers@, i as int, all0),
        decreases n - i,
    {
        let a = if i < answers.len() {
            answers[i]
        } else {
            Answer::No
        };
        assert(a == answer_at(answers@, i as int));
        if all || a == Answer::Yes || a == Answer::ApplyAll {
            accepted_pos.push(i);
        }
        if !(all || skip || quit) {
            match a {
                Answer::ApplyAll => {
                    all = true;
                },
                Answer::SkipFile => {
                    skip = true;
                },
                Answer::Quit => {
                    quit = true;
                },
                _ => {},
            }
        }
        i += 1;
    }
    let kept: Vec<usize> = if skip || quit {
        Vec::new()
    } else {
        accepted_pos
    };
    proof {
        lemma_accepted_bounded(answers@, n as int, all0);
    }
    let counted = kept.len();
    let write = if cli.dry_run || counted == 0 {
        None
    } else {
        let mut line_numbers: Vec<usize> = Vec::new();
        let mut j: usize = 0;
        while j < kept.len()
            invariant
                j <= kept.len(),
                kept@ == kept_positions(answers@, n as int, all0),
                forall|k: int| 0 <= k < kept@.len() ==> kept@[k] < n,
                n == output.changes@.len(),
                line_numbers@ == lines_of(output.changes@, kept@.take(j as int)),
            decreases kept.len() - j,
        {
            let pos = kept[j];
            line_numbers.push(output.changes[pos].line);
            j += 1;
            assert(line_numbers@ =~= lines_of(output.changes@, kept@.take(j as int)));
        }
        assert(kept@.take(kept.len() as int) =~= kept@);
        Some(apply_kept(text, op, matcher, options.line_range, &line_numbers))
    };
    let is_write = write.is_some();
    FileStep {
        kept,
        counted,
        write,
        backup: is_write && options.backup,
        record_undo: is_write,
        apply_all: if cli.confirm {
            all
        } else {
            apply_all
        },
        quit,
    }
}

// ---------------------------------------------------------------------------
// Script mode
// ---------------------------------------------------------------------------

/// The options of one script operation: those of file mode, except that
/// the operation's own glob, when it has one, replaces the command line's.
pub fn script_op_options(
    cli: &Cli,
    config: &Config,
    op_glob: &Option<String>,
    line_range: Option<LineRange>,
) -> (r: OpOptions)
    ensures
        r.dry_run == cli.dry_run,
        r.root is None,
        r.gitignore == (!cli.no_gitignore && config.defaults.gitignore),
        r.backup == (cli.backup || config.defaults.backup),
        !r.atomic,
        opt_view(r.glob) == match op_glob {
            Some(g) => Some(g@),
            None => opt_view(cli.glob),
        },
        opt_view(r.ignore) == opt_view(cli.ignore_pattern),
        r.hidden == cli.hidden,
        r.max_depth == match cli.max_depth {
            Some(d) => Some(d),
            None => config.defaults.max_depth,
        },
        r.line_range == line_range,
{
    let mut r = file_mode_options(cli, config, line_range);
    r.glob = match op_glob {
        Some(g) => Some(g.clone()),
        None => match &cli.glob {
            Some(g) => Some(g.clone()),
            None => None,
        },
    };
    r
}

/// What script mode does with one file for one operation.
#[derive(Debug)]
pub struct ScriptFileStep {
    /// The number of changes counted.
    pub counted: usize,
    /// The text to write, if any.
    pub write: Option<String>,
    /// Whether a backup is made first.
    pub backup: bool,
    /// Whether an undo record is kept for the write.
    pub record_undo: bool,
}

/// Plan what script mode does with one file for one operation, given the
/// engine's output and whether an earlier operation of the run already
/// wrote the file: every change counts; the new text is written unless in
/// a dry run; a backup is made only before the file's first write in the
/// run (so it holds the file as it was before the script).
pub fn plan_script_file_step(
    cli: &Cli,
    options: &OpOptions,
    output: &EngineOutput,
    already_written: bool,
) -> (r: ScriptFileStep)
    ensures
        r.counted == output.changes@.len(),
        r.write is Some <==> (!cli.dry_run && output.changes@.len() > 0 && output.text is Some),
        r.write matches Some(t) ==> output.text matches Some(o) && t@ == o@,
        r.backup == (!cli.dry_run && output.changes@.len() > 0 && options.backup
            && !already_written),
        r.record_undo == r.write is Some,
{
    let counted = output.changes.len();
    let write = if cli.dry_run || counted == 0 {
        None
    } else {
        match &output.text {
            Some(t) => Some(t.clone()),
            None => None,
        }
    };
    let is_write = write.is_some();
    ScriptFileStep {
        counted,
        write,
        backup: !cli.dry_run && counted > 0 && options.backup && !already_written,
        record_undo: is_write,
    }
}

/// Whether the path is among those written so far.
pub fn was_written(written: &Vec<String>, path: &str) -> (r: bool)
    ensures
        r == string_views(written@).contains(path@),
{
    let mut i: usize = 0;
    while i < written.len()
        invariant
            i <= written.len(),
            forall|j: int| 0 <= j < i ==> written@[j]@ != path@,
        decreases written.len() - i,
    {
        if str_eq(written[i].as_str(), path) {
            assert(string_views(written@)[i as int] == path@);
            return true;
        }
        i += 1;
    }
    assert forall|j: int| 0 <= j < string_views(written@).len() implies string_views(written@)[j]
        != path@ by {
        assert(written@[j]@ != path@);
    }
    false
}

/// Record a written file: the list of files written keeps each path once,
/// so its length counts the files modified.
pub fn record_written(written: &mut Vec<String>, path: &str)
    ensures
        string_views(final(written)@) == if string_views(old(written)@).contains(path@) {
            string_views(old(written)@)
        } else {
            string_views(old(written)@).push(path@)
        },
{
    if !was_written(written, path) {
        let ghost before = written@;
        let p = owned(path);
        written.push(p);
        assert(string_views(written@) =~= string_views(before).push(path@));
    }
}

// ---------------------------------------------------------------------------
// JSON mode
// ---------------------------------------------------------------------------

/// One file of a JSON request: read once, edited by each operation in turn.
#[derive(Debug, Clone)]
pub struct JsonFile {
    /// The file's text when it was read.
    pub original: String,
    /// The text after the operations applied so far.
    pub current: String,
    /// The number of changes the operations made (saturating).
    pub changes: usize,
}

/// A file just read: no operation has changed it yet.
pub fn json_file_new(text: String) -> (r: JsonFile)
    ensures
        r.original@ == text@,
        r.current@ == text@,
        r.changes == 0,
{
    let current = text.clone();
    JsonFile { original: text, current, changes: 0 }
}

/// Fold one operation's result on the file's current text into it: its
/// changes are counted and its new text becomes the current one.
pub fn json_file_apply(f: &mut JsonFile, output: &EngineOutput)
    ensures
        final(f).original@ == old(f).original@,
        final(f).changes == old(f).changes.saturating_add(output.changes@.len() as usize),
        final(f).current@ == match output.text {
            Some(t) => t@,
            None => old(f).current@,
        },
{
    f.changes = f.changes.saturating_add(output.changes.len());
    match &output.text {
        Some(t) => {
            f.current = t.clone();
        },
        None => {},
    }
}

/// What JSON mode does with a file once every operation has run.
#[derive(Debug)]
pub struct JsonFilePlan {
    /// The text to write, if any.
    pub write: Option<String>,
    /// Whether a backup is made first.
    pub backup: bool,
    /// Whether the original text is recorded for undo.
    pub record_undo: bool,
}

/// Plan the end of a JSON run for one file: a file whose text the
/// operations changed is written (with a backup first when asked for, and
/// an undo record of the text as it was read), unless in a dry run; a file
/// left as it was is not touched.
pub fn json_file_plan(f: &JsonFile, options: &OpOptions) -> (r: JsonFilePlan)
    ensures
        r.write is Some <==> (!options.dry_run && f.current@ != f.original@),
        r.write matches Some(t) ==> t@ == f.current@,
        r.backup == (r.write is Some && options.backup),
        r.record_undo == r.write is Some,
{
    let modified = !str_eq(f.current.as_str(), f.original.as_str());
    let write = if !options.dry_run && modified {
        Some(f.current.clone())
    } else {
        None
    };
    let is_write = write.is_some();
    JsonFilePlan { write, backup: is_write && options.backup, record_undo: is_write }
}

} // verus!
