//! The edit engine: applies one operation to a text buffer, line by line,
//! and reports the new text, a structured diff and an undo entry.
use vstd::prelude::*;
use vstd::string::*;

use crate::diff::{
    change_views, Change, ChangeContext, ChangeSpec, ContextSpec, FileChanges, OpResult,
};
use crate::error::RipsedError;
use crate::matcher::Matcher;
use crate::operation::{LineRange, Op};
use crate::text::{
    chars_of, join_seqs, str_eq, string_from_chars, join_strings, owned, push_char,
    spec_lines, split_lines, string_views,
};
use crate::undo::UndoEntry;

verus! {

/// The result of applying operations to a text buffer.
#[derive(Debug)]
pub struct EngineOutput {
    /// The modified text (None if unchanged).
    pub text: Option<String>,
    /// Structured diff of changes made.
    pub changes: Vec<Change>,
    /// Undo entry to reverse this operation.
    pub undo: Option<UndoEntry>,
}

// ---------------------------------------------------------------------------
// Specification
// ---------------------------------------------------------------------------

/// The text's first line feed is part of a CRLF pair: a CRLF comes before
/// any bare line feed.
pub open spec fn crlf_first(text: Seq<char>) -> bool {
    exists|i: int|
        0 < i < text.len() && #[trigger] text[i] == '\n' && text[i - 1] == '\r' && forall|j: int|
            0 <= j < i ==> text[j] != '\n'
}

/// The line separator of the output: CRLF when the input's first line
/// ending is a CRLF.
pub open spec fn spec_line_sep(text: Seq<char>) -> Seq<char> {
    if crlf_first(text) {
        seq!['\r', '\n']
    } else {
        seq!['\n']
    }
}

/// What one matched or unmatched line becomes under an operation: the lines
/// emitted in its place, and the recorded change, if any (its `after` text,
/// absent for a deletion).
pub open spec fn line_edit(op: Op, m: Matcher, line: Seq<char>) -> (
    Seq<Seq<char>>,
    Option<Option<Seq<char>>>,
) {
    match op {
        Op::Replace { replace, .. } => match m.spec_replace(line, replace@) {
            Some(r) => (seq![r], Some(Some(r))),
            None => (seq![line], None),
        },
        Op::Delete { .. } => if m.spec_is_match(line) {
            (seq![], Some(None))
        } else {
            (seq![line], None)
        },
        Op::InsertAfter { content, .. } => if m.spec_is_match(line) {
            (seq![line, content@], Some(Some(line + seq!['\n'] + content@)))
        } else {
            (seq![line], None)
        },
        Op::InsertBefore { content, .. } => if m.spec_is_match(line) {
            (seq![content@, line], Some(Some(content@ + seq!['\n'] + line)))
        } else {
            (seq![line], None)
        },
        Op::ReplaceLine { content, .. } => if m.spec_is_match(line) {
            (seq![content@], Some(Some(content@)))
        } else {
            (seq![line], None)
        },
        Op::Transform { mode, .. } => match m.spec_transform(line, mode) {
            Some(t) => changed_line(line, t),
            None => (seq![line], None),
        },
        Op::Surround { prefix, suffix, .. } => if m.spec_is_match(line) {
            changed_line(line, prefix@ + line + suffix@)
        } else {
            (seq![line], None)
        },
        Op::Indent { amount, use_tabs, .. } => if m.spec_is_match(line) {
            changed_line(line, indent_prefix(amount as nat, use_tabs) + line)
        } else {
            (seq![line], None)
        },
        Op::Dedent { amount, .. } => if m.spec_is_match(line) {
            changed_line(line, line.skip(dedent_end(line, 0, amount as int)))
        } else {
            (seq![line], None)
        },
    }
}

/// A matched line rewritten to `new`: a change is recorded only when the
/// line really changes.
pub open spec fn changed_line(line: Seq<char>, new: Seq<char>) -> (
    Seq<Seq<char>>,
    Option<Option<Seq<char>>>,
) {
    if new == line {
        (seq![line], None)
    } else {
        (seq![new], Some(Some(new)))
    }
}

/// `amount` indentation characters: tabs, or spaces.
pub open spec fn indent_prefix(amount: nat, use_tabs: bool) -> Seq<char> {
    Seq::new(amount, |i: int| if use_tabs { '\t' } else { ' ' })
}

/// Where dedenting from position `i` stops: past at most `amount` leading
/// spaces or tabs in all.
pub open spec fn dedent_end(s: Seq<char>, i: int, amount: int) -> int
    decreases s.len() - i,
{
    if 0 <= i < s.len() && i < amount && (s[i] == ' ' || s[i] == '\t') {
        dedent_end(s, i + 1, amount)
    } else {
        i
    }
}

/// The view of an optional recorded change.
pub open spec fn after_view(o: Option<Option<String>>) -> Option<Option<Seq<char>>> {
    match o {
        Some(Some(t)) => Some(Some(t@)),
        Some(None) => Some(None),
        None => None,
    }
}

/// Whether the 0-indexed line `idx` is inside the optional line range.
pub open spec fn in_scope(range: Option<LineRange>, idx: int) -> bool {
    match range {
        Some(r) => r.spec_contains(idx + 1),
        None => true,
    }
}

/// What line `idx` becomes: lines outside the range are kept unchanged.
pub open spec fn edit_at(
    op: Op,
    m: Matcher,
    range: Option<LineRange>,
    lines: Seq<Seq<char>>,
    idx: int,
) -> (Seq<Seq<char>>, Option<Option<Seq<char>>>) {
    if in_scope(range, idx) {
        line_edit(op, m, lines[idx])
    } else {
        (seq![lines[idx]], None)
    }
}

/// The output lines produced by the first `k` input lines.
pub open spec fn out_lines(
    op: Op,
    m: Matcher,
    range: Option<LineRange>,
    lines: Seq<Seq<char>>,
    k: int,
) -> Seq<Seq<char>>
    decreases k,
{
    if k <= 0 {
        seq![]
    } else {
        out_lines(op, m, range, lines, k - 1) + edit_at(op, m, range, lines, k - 1).0
    }
}

/// The context of the change at line `idx`: up to `n` lines before it and
/// up to `n` lines after it.
pub open spec fn context_at(lines: Seq<Seq<char>>, idx: int, n: int) -> ContextSpec {
    let start = if idx > n {
        idx - n
    } else {
        0
    };
    let end = if idx + n + 1 < lines.len() {
        idx + n + 1
    } else {
        lines.len() as int
    };
    ContextSpec {
        before: lines.subrange(start, idx),
        after: if idx + 1 < end {
            lines.subrange(idx + 1, end)
        } else {
            seq![]
        },
    }
}

/// The changes recorded for the first `k` input lines, in line order.
pub open spec fn changes_upto(
    op: Op,
    m: Matcher,
    range: Option<LineRange>,
    lines: Seq<Seq<char>>,
    n: int,
    k: int,
) -> Seq<ChangeSpec>
    decreases k,
{
    if k <= 0 {
        seq![]
    } else {
        let prev = changes_upto(op, m, range, lines, n, k - 1);
        match edit_at(op, m, range, lines, k - 1).1 {
            Some(after) => prev.push(
                ChangeSpec {
                    line: k as nat,
                    before: lines[k - 1],
                    after,
                    context: Some(context_at(lines, k - 1, n)),
                },
            ),
            None => prev,
        }
    }
}

/// The changes an operation makes to a text.
pub open spec fn spec_changes(
    text: Seq<char>,
    op: Op,
    m: Matcher,
    range: Option<LineRange>,
    n: int,
) -> Seq<ChangeSpec> {
    let lines = spec_lines(text);
    changes_upto(op, m, range, lines, n, lines.len() as int)
}

/// The new text: the output lines joined with the input's line separator,
/// with a final separator when the input ended with a line feed.
pub open spec fn spec_new_text(text: Seq<char>, op: Op, m: Matcher, range: Option<LineRange>) -> Seq<
    char,
> {
    let lines = spec_lines(text);
    let sep = spec_line_sep(text);
    join_seqs(out_lines(op, m, range, lines, lines.len() as int), sep) + if text.len() > 0
        && text.last() == '\n' {
        sep
    } else {
        seq![]
    }
}

// ---------------------------------------------------------------------------
// Implementation
// ---------------------------------------------------------------------------

/// Whether the text uses CRLF line endings: a CRLF comes before any bare
/// line feed.
pub fn uses_crlf(text: &str) -> (r: bool)
    ensures
        r == crlf_first(text@),
{
    let t = chars_of(text);
    let mut i: usize = 0;
    while i < t.len()
        invariant
            t@ == text@,
            i <= t.len(),
            forall|j: int| 0 <= j < i ==> t@[j] != '\n',
        decreases t.len() - i,
    {
        if t[i] == '\n' {
            let r = i > 0 && t[i - 1] == '\r';
            assert(r ==> crlf_first(text@));
            assert(!r ==> !crlf_first(text@)) by {
                if !r && crlf_first(text@) {
                    let k = choose|k: int|
                        0 < k < text@.len() && #[trigger] text@[k] == '\n' && text@[k - 1] == '\r'
                            && forall|j: int| 0 <= j < k ==> text@[j] != '\n';
                    assert(k >= i);
                    assert(k <= i);
                }
            }
            return r;
        }
        i += 1;
    }
    false
}

/// A copy of `lines[from..to]`.
fn copy_lines(lines: &Vec<String>, from: usize, to: usize) -> (r: Vec<String>)
    requires
        from <= to <= lines.len(),
    ensures
        string_views(r@) == string_views(lines@).subrange(from as int, to as int),
{
    let mut r: Vec<String> = Vec::new();
    let mut j = from;
    while j < to
        invariant
            from <= j <= to <= lines.len(),
            string_views(r@) == string_views(lines@).subrange(from as int, j as int),
        decreases to - j,
    {
        let s = lines[j].clone();
        assert(s@ == string_views(lines@)[j as int]);
        let ghost before = r@;
        r.push(s);
        j += 1;
        assert(string_views(r@) =~= string_views(before).push(s@));
        assert(string_views(r@) =~= string_views(lines@).subrange(from as int, j as int));
    }
    r
}

/// The context of the change at line `idx`.
fn build_context(lines: &Vec<String>, idx: usize, context_lines: usize) -> (c: ChangeContext)
    requires
        idx < lines.len(),
    ensures
        c@ == context_at(string_views(lines@), idx as int, context_lines as int),
{
    let start = if idx > context_lines {
        idx - context_lines
    } else {
        0
    };
    let end = if context_lines < lines.len() - idx - 1 {
        idx + context_lines + 1
    } else {
        lines.len()
    };
    let before = copy_lines(lines, start, idx);
    let after = if idx + 1 < end {
        copy_lines(lines, idx + 1, end)
    } else {
        Vec::new()
    };
    let c = ChangeContext { before, after };
    assert(c@.after =~= context_at(string_views(lines@), idx as int, context_lines as int).after);
    c
}

/// `a`, a line feed, then `b`.
fn two_lines(a: &str, b: &str) -> (r: String)
    ensures
        r@ == a@ + seq!['\n'] + b@,
{
    let mut r = owned(a);
    push_char(&mut r, '\n');
    r.append(b);
    r
}

/// A vector holding one string.
fn single(s: String) -> (r: Vec<String>)
    ensures
        string_views(r@) == seq![s@],
{
    let mut r: Vec<String> = Vec::new();
    r.push(s);
    assert(string_views(r@) =~= seq![s@]);
    r
}

/// What a matched line becomes when it is rewritten to `new`.
fn changed(line: &str, new: String) -> (r: (Vec<String>, Option<Option<String>>))
    ensures
        string_views(r.0@) == changed_line(line@, new@).0,
        after_view(r.1) == changed_line(line@, new@).1,
{
    if str_eq(new.as_str(), line) {
        (single(owned(line)), None)
    } else {
        let c = new.clone();
        (single(new), Some(Some(c)))
    }
}

/// `amount` tabs, or `amount` spaces.
fn indent_string(amount: usize, use_tabs: bool) -> (r: String)
    ensures
        r@ == indent_prefix(amount as nat, use_tabs),
{
    let c = if use_tabs {
        '\t'
    } else {
        ' '
    };
    let mut v: Vec<char> = Vec::new();
    let mut i: usize = 0;
    while i < amount
        invariant
            i <= amount,
            c == (if use_tabs { '\t' } else { ' ' }),
            v@ =~= indent_prefix(i as nat, use_tabs),
        decreases amount - i,
    {
        v.push(c);
        i += 1;
        assert(v@ =~= indent_prefix(i as nat, use_tabs));
    }
    string_from_chars(&v)
}

/// The line without up to `amount` leading spaces or tabs.
fn dedent_line(line: &str, amount: usize) -> (r: String)
    ensures
        r@ == line@.skip(dedent_end(line@, 0, amount as int)),
{
    let v = chars_of(line);
    let mut i: usize = 0;
    while i < v.len() && i < amount && (v[i] == ' ' || v[i] == '\t')
        invariant
            v@ == line@,
            i <= v.len(),
            dedent_end(line@, 0, amount as int) == dedent_end(line@, i as int, amount as int),
        decreases v.len() - i,
    {
        i += 1;
    }
    let mut out: Vec<char> = Vec::new();
    let mut k = i;
    while k < v.len()
        invariant
            v@ == line@,
            i <= k <= v.len(),
            out@ == v@.subrange(i as int, k as int),
        decreases v.len() - k,
    {
        out.push(v[k]);
        k += 1;
        assert(out@ =~= v@.subrange(i as int, k as int));
    }
    assert(out@ =~= line@.skip(i as int));
    string_from_chars(&out)
}

/// What one line inside the range becomes under an operation: the lines
/// emitted in its place and the recorded change, if any.
fn edit_line(op: &Op, matcher: &Matcher, line: &str) -> (r: (Vec<String>, Option<Option<String>>))
    ensures
        string_views(r.0@) == line_edit(*op, *matcher, line@).0,
        after_view(r.1) == line_edit(*op, *matcher, line@).1,
{
    match op {
        Op::Replace { replace, .. } => match matcher.replace(line, replace.as_str()) {
            Some(replaced) => {
                let c = replaced.clone();
                (single(replaced), Some(Some(c)))
            },
            None => (single(owned(line)), None),
        },
        Op::Delete { .. } => {
            if matcher.is_match(line) {
                let empty: Vec<String> = Vec::new();
                assert(string_views(empty@) =~= Seq::<Seq<char>>::empty());
                (empty, Some(None))
            } else {
                (single(owned(line)), None)
            }
        },
        Op::InsertAfter { content, .. } => {
            if matcher.is_match(line) {
                let mut v: Vec<String> = Vec::new();
                v.push(owned(line));
                v.push(content.clone());
                assert(string_views(v@) =~= seq![line@, content@]);
                (v, Some(Some(two_lines(line, content.as_str()))))
            } else {
                (single(owned(line)), None)
            }
        },
        Op::InsertBefore { content, .. } => {
            if matcher.is_match(line) {
                let mut v: Vec<String> = Vec::new();
                v.push(content.clone());
                v.push(owned(line));
                assert(string_views(v@) =~= seq![content@, line@]);
                (v, Some(Some(two_lines(content.as_str(), line))))
            } else {
                (single(owned(line)), None)
            }
        },
        Op::ReplaceLine { content, .. } => {
            if matcher.is_match(line) {
                (single(content.clone()), Some(Some(content.clone())))
            } else {
                (single(owned(line)), None)
            }
        },
        Op::Transform { mode, .. } => match matcher.transform(line, *mode) {
            Some(t) => changed(line, t),
            None => (single(owned(line)), None),
        },
        Op::Surround { prefix, suffix, .. } => {
            if matcher.is_match(line) {
                let mut n = prefix.clone();
                n.append(line);
                n.append(suffix.as_str());
                changed(line, n)
            } else {
                (single(owned(line)), None)
            }
        },
        Op::Indent { amount, use_tabs, .. } => {
            if matcher.is_match(line) {
                let mut n = indent_string(*amount, *use_tabs);
                n.append(line);
                changed(line, n)
            } else {
                (single(owned(line)), None)
            }
        },
        Op::Dedent { amount, .. } => {
            if matcher.is_match(line) {
                changed(line, dedent_line(line, *amount))
            } else {
                (single(owned(line)), None)
            }
        },
    }
}

/// Appends the strings of `src` to `dst`.
fn append_all(dst: &mut Vec<String>, src: &Vec<String>)
    ensures
        string_views(final(dst)@) == string_views(old(dst)@) + string_views(src@),
{
    let ghost start = dst@;
    let mut i: usize = 0;
    while i < src.len()
        invariant
            i <= src.len(),
            string_views(dst@) == string_views(start) + string_views(src@.take(i as int)),
        decreases src.len() - i,
    {
        let s = src[i].clone();
        let ghost before = dst@;
        dst.push(s);
        i += 1;
        assert(string_views(dst@) =~= string_views(before).push(s@));
        assert(string_views(src@.take(i as int)) =~= string_views(src@.take(i - 1)).push(
            src@[i - 1]@,
        ));
    }
    assert(src@.take(src.len() as int) =~= src@);
}

/// Apply a single operation to a text buffer.
///
/// The text is split into lines as `str::lines` does; each line inside the
/// optional range is edited according to the operation, and each edit is
/// recorded as a change with up to `context_lines` lines of context on each
/// side. Transform, surround, indent and dedent record a change only where
/// the line really changes. When anything changed, the output lines are
/// joined with the input's line separator (CRLF when its first line ending
/// is a CRLF), a final separator is kept when the input ended with a line
/// feed, and an undo entry holds the original text.
pub fn apply(
    text: &str,
    op: &Op,
    matcher: &Matcher,
    line_range: Option<LineRange>,
    context_lines: usize,
) -> (r: Result<EngineOutput, RipsedError>)
    ensures
        r matches Ok(out) && {
            let changes = spec_changes(text@, *op, *matcher, line_range, context_lines as int);
            &&& change_views(out.changes@) == changes
            &&& changes.len() == 0 ==> out.text is None && out.undo is None
            &&& changes.len() > 0 ==> (out.text matches Some(t) && t@ == spec_new_text(
                text@,
                *op,
                *matcher,
                line_range,
            ))
            &&& changes.len() > 0 ==> (out.undo matches Some(u) && u.original_text@ == text@)
        },
{
    let crlf = uses_crlf(text);
    let lines = split_lines(text);
    let ghost lv = string_views(lines@);
    let mut result_lines: Vec<String> = Vec::new();
    let mut changes: Vec<Change> = Vec::new();
    let mut idx: usize = 0;
    while idx < lines.len()
        invariant
            lv == string_views(lines@),
            lv == spec_lines(text@),
            idx <= lines.len(),
            string_views(result_lines@) == out_lines(*op, *matcher, line_range, lv, idx as int),
            change_views(changes@) == changes_upto(
                *op,
                *matcher,
                line_range,
                lv,
                context_lines as int,
                idx as int,
            ),
        decreases lines.len() - idx,
    {
        let line: &str = lines[idx].as_str();
        let line_num = idx + 1;
        let ghost before_lines = result_lines@;
        let ghost before_changes = changes@;
        let ghost step = edit_at(*op, *matcher, line_range, lv, idx as int);
        assert(line@ == lv[idx as int]);
        let in_range = match line_range {
            Some(range) => range.contains(line_num),
            None => true,
        };
        if !in_range {
            result_lines.push(owned(line));
        } else {
            let (emitted, change) = edit_line(op, matcher, line);
            append_all(&mut result_lines, &emitted);
            match change {
                Some(after) => {
                    let ctx = build_context(&lines, idx, context_lines);
                    changes.push(
                        Change { line: line_num, before: owned(line), after, context: Some(ctx) },
                    );
                },
                None => {},
            }
        }
        idx += 1;
        assert(string_views(result_lines@) =~= string_views(before_lines) + step.0);
        assert(change_views(changes@) =~= match step.1 {
            Some(after) => change_views(before_changes).push(
                ChangeSpec {
                    line: idx as nat,
                    before: lv[idx - 1],
                    after,
                    context: Some(context_at(lv, idx - 1, context_lines as int)),
                },
            ),
            None => change_views(before_changes),
        });
    }
    let modified_text = if changes.len() == 0 {
        None
    } else {
        Some(finish_text(text, &result_lines, crlf))
    };
    let undo = if changes.len() > 0 {
        Some(UndoEntry { original_text: owned(text) })
    } else {
        None
    };
    Ok(EngineOutput { text: modified_text, changes, undo })
}

/// The output lines joined with the text's separator, with a final
/// separator when the text ended with a line feed.
fn finish_text(text: &str, result_lines: &Vec<String>, crlf: bool) -> (r: String)
    requires
        crlf == crlf_first(text@),
    ensures
        r@ == join_seqs(string_views(result_lines@), spec_line_sep(text@)) + if text@.len() > 0
            && text@.last() == '\n' {
            spec_line_sep(text@)
        } else {
            seq![]
        },
{
    let line_sep = if crlf {
        "\r\n"
    } else {
        "\n"
    };
    proof {
        reveal_strlit("\r\n");
        reveal_strlit("\n");
    }
    assert(line_sep@ == spec_line_sep(text@));
    let mut joined = join_strings(result_lines, line_sep);
    let t = chars_of(text);
    if t.len() > 0 && t[t.len() - 1] == '\n' {
        joined.append(line_sep);
    }
    joined
}

/// What line `idx` becomes when only the lines whose numbers are in `keep`
/// are edited.
pub open spec fn kept_edit(
    op: Op,
    m: Matcher,
    range: Option<LineRange>,
    lines: Seq<Seq<char>>,
    idx: int,
    keep: Seq<usize>,
) -> Seq<Seq<char>> {
    if in_scope(range, idx) && keep.contains((idx + 1) as usize) {
        line_edit(op, m, lines[idx]).0
    } else {
        seq![lines[idx]]
    }
}

/// The output lines produced by the first `k` input lines when only the
/// lines in `keep` are edited.
pub open spec fn kept_lines(
    op: Op,
    m: Matcher,
    range: Option<LineRange>,
    lines: Seq<Seq<char>>,
    k: int,
    keep: Seq<usize>,
) -> Seq<Seq<char>>
    decreases k,
{
    if k <= 0 {
        seq![]
    } else {
        kept_lines(op, m, range, lines, k - 1, keep) + kept_edit(op, m, range, lines, k - 1, keep)
    }
}

/// The text with only the edits of the lines numbered in `keep` made,
/// joined and terminated as `spec_new_text` is.
pub open spec fn spec_kept_text(
    text: Seq<char>,
    op: Op,
    m: Matcher,
    range: Option<LineRange>,
    keep: Seq<usize>,
) -> Seq<char> {
    let lines = spec_lines(text);
    let sep = spec_line_sep(text);
    join_seqs(kept_lines(op, m, range, lines, lines.len() as int, keep), sep) + if text.len() > 0
        && text.last() == '\n' {
        sep
    } else {
        seq![]
    }
}

/// Whether the number occurs in the vector.
fn contains_number(v: &Vec<usize>, x: usize) -> (r: bool)
    ensures
        r == v@.contains(x),
{
    let mut i: usize = 0;
    while i < v.len()
        invariant
            i <= v.len(),
            forall|j: int| 0 <= j < i ==> v@[j] != x,
        decreases v.len() - i,
    {
        if v[i] == x {
            assert(v@[i as int] == x);
            return true;
        }
        i += 1;
    }
    false
}

/// The text with only the edits of the lines numbered in `keep` (1-indexed)
/// made: what a confirmed subset of an operation's changes writes.
pub fn apply_kept(
    text: &str,
    op: &Op,
    matcher: &Matcher,
    line_range: Option<LineRange>,
    keep: &Vec<usize>,
) -> (r: String)
    ensures
        r@ == spec_kept_text(text@, *op, *matcher, line_range, keep@),
{
    let crlf = uses_crlf(text);
    let lines = split_lines(text);
    let ghost lv = string_views(lines@);
    let mut result_lines: Vec<String> = Vec::new();
    let mut idx: usize = 0;
    while idx < lines.len()
        invariant
            lv == string_views(lines@),
            lv == spec_lines(text@),
            idx <= lines.len(),
            string_views(result_lines@) == kept_lines(
                *op,
                *matcher,
                line_range,
                lv,
                idx as int,
                keep@,
            ),
        decreases lines.len() - idx,
    {
        let line: &str = lines[idx].as_str();
        let line_num = idx + 1;
        let ghost before_lines = result_lines@;
        let ghost step = kept_edit(*op, *matcher, line_range, lv, idx as int, keep@);
        assert(line@ == lv[idx as int]);
        let in_range = match line_range {
            Some(range) => range.contains(line_num),
            None => true,
        };
        if in_range && contains_number(keep, line_num) {
            let (emitted, _change) = edit_line(op, matcher, line);
            append_all(&mut result_lines, &emitted);
        } else {
            result_lines.push(owned(line));
        }
        idx += 1;
        assert(string_views(result_lines@) =~= string_views(before_lines) + step);
    }
    finish_text(text, &result_lines, crlf)
}

/// Build an OpResult from file-level changes: one file entry holding the
/// changes, or no entry when there are none.
pub fn build_op_result(operation_index: usize, path: &str, changes: Vec<Change>) -> (r: OpResult)
    ensures
        r.operation_index == operation_index,
        changes@.len() == 0 ==> r.files@.len() == 0,
        changes@.len() > 0 ==> r.files@.len() == 1 && r.files@[0].path@ == path@
            && r.files@[0].changes@ == changes@,
{
    if changes.len() == 0 {
        OpResult { operation_index, files: Vec::new() }
    } else {
        let mut files: Vec<FileChanges> = Vec::new();
        files.push(FileChanges { path: owned(path), changes });
        OpResult { operation_index, files }
    }
}

/// The text a stream edit writes out: the new text when something changed,
/// otherwise the input as it was.
pub fn output_text(original: &str, out: &EngineOutput) -> (r: String)
    ensures
        r@ == match out.text {
            Some(t) => t@,
            None => original@,
        },
{
    match &out.text {
        Some(t) => t.clone(),
        None => owned(original),
    }
}

} // verus!
