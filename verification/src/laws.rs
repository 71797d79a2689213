//! Properties of the library that span its functions, proved over the
//! specifications their contracts use.
use vstd::prelude::*;

use vstd::string::*;

use crate::diff::ChangeSpec;
use crate::engine::{
    changes_upto, dedent_end, edit_at, in_scope, kept_lines, line_edit, out_lines, spec_changes,
    spec_kept_text, spec_line_sep, spec_new_text,
};
use crate::matcher::{regex_escaped, regex_replaced, spec_regex_source, Matcher};
use crate::operation::{LineRange, Op};
use crate::paths::path_file_name;
use crate::suggestion::{
    compared_name, distances_to, edit_distance, spec_suggestions, with_distance,
};
use crate::text::{
    contains_seq, is_blank, join_seqs, lines_from, replace_all, replace_empty, spec_lines, strip_cr,
};
use crate::undo::{non_blank, pruned, tail_start, UndoRecord};

verus! {

// ---------------------------------------------------------------------------
// Line counting
// ---------------------------------------------------------------------------

/// The number of line feeds in `s`.
pub open spec fn count_nl(s: Seq<char>) -> nat
    decreases s.len(),
{
    if s.len() == 0 {
        0
    } else {
        (if s[0] == '\n' {
            1nat
        } else {
            0nat
        }) + count_nl(s.drop_first())
    }
}

/// `s` holds no line feed.
pub open spec fn no_nl(s: Seq<char>) -> bool {
    forall|i: int| 0 <= i < s.len() ==> s[i] != '\n'
}

proof fn lemma_count_nl_concat(a: Seq<char>, b: Seq<char>)
    ensures
        count_nl(a + b) == count_nl(a) + count_nl(b),
    decreases a.len(),
{
    if a.len() == 0 {
        assert(a + b =~= b);
    } else {
        assert((a + b).drop_first() =~= a.drop_first() + b);
        lemma_count_nl_concat(a.drop_first(), b);
    }
}

proof fn lemma_count_nl_none(s: Seq<char>)
    requires
        no_nl(s),
    ensures
        count_nl(s) == 0,
    decreases s.len(),
{
    if s.len() > 0 {
        lemma_count_nl_none(s.drop_first());
    }
}

proof fn lemma_count_nl_join(ls: Seq<Seq<char>>, sep: Seq<char>)
    requires
        ls.len() > 0,
        forall|i: int| 0 <= i < ls.len() ==> no_nl(#[trigger] ls[i]),
        count_nl(sep) == 1,
    ensures
        count_nl(join_seqs(ls, sep)) == ls.len() - 1,
    decreases ls.len(),
{
    if ls.len() == 1 {
        lemma_count_nl_none(ls[0]);
    } else {
        let init = ls.drop_last();
        assert forall|i: int| 0 <= i < init.len() implies no_nl(#[trigger] init[i]) by {
            assert(init[i] == ls[i]);
        }
        lemma_count_nl_join(init, sep);
        lemma_count_nl_concat(join_seqs(init, sep), sep);
        lemma_count_nl_concat(join_seqs(init, sep) + sep, ls.last());
        lemma_count_nl_none(ls.last());
    }
}

proof fn lemma_lines_from_count(s: Seq<char>, cur: Seq<char>, acc: Seq<Seq<char>>)
    requires
        s.len() > 0,
        s.last() == '\n',
    ensures
        lines_from(s, cur, acc).len() == acc.len() + count_nl(s),
    decreases s.len(),
{
    let rest = s.drop_first();
    if s[0] == '\n' {
        assert(lines_from(s, cur, acc) == lines_from(rest, seq![], acc.push(strip_cr(cur))));
        assert(count_nl(s) == 1 + count_nl(rest));
        if rest.len() > 0 {
            assert(rest.last() == s.last());
            lemma_lines_from_count(rest, seq![], acc.push(strip_cr(cur)));
        } else {
            assert(count_nl(rest) == 0);
            assert(lines_from(rest, seq![], acc.push(strip_cr(cur))) == acc.push(strip_cr(cur)));
        }
    } else {
        assert(lines_from(s, cur, acc) == lines_from(rest, cur.push(s[0]), acc));
        assert(count_nl(s) == count_nl(rest));
        assert(rest.len() > 0);
        assert(rest.last() == s.last());
        lemma_lines_from_count(rest, cur.push(s[0]), acc);
    }
}

/// A text ending with a line feed has as many lines as line feeds.
proof fn lemma_lines_count(s: Seq<char>)
    requires
        s.len() > 0,
        s.last() == '\n',
    ensures
        spec_lines(s).len() == count_nl(s),
{
    lemma_lines_from_count(s, seq![], seq![]);
}

proof fn lemma_lines_from_no_nl(s: Seq<char>, cur: Seq<char>, acc: Seq<Seq<char>>)
    requires
        no_nl(cur),
        forall|i: int| 0 <= i < acc.len() ==> no_nl(#[trigger] acc[i]),
    ensures
        forall|i: int|
            0 <= i < lines_from(s, cur, acc).len() ==> no_nl(#[trigger] lines_from(s, cur, acc)[i]),
    decreases s.len(),
{
    let rest = s.drop_first();
    if s.len() == 0 {
        if cur.len() > 0 {
            assert forall|i: int| 0 <= i < acc.push(cur).len() implies no_nl(
                #[trigger] acc.push(cur)[i],
            ) by {
                if i < acc.len() {
                    assert(acc.push(cur)[i] == acc[i]);
                }
            }
        }
    } else if s[0] == '\n' {
        let stripped = strip_cr(cur);
        assert(no_nl(stripped));
        assert(lines_from(s, cur, acc) == lines_from(rest, seq![], acc.push(stripped)));
        assert forall|i: int| 0 <= i < acc.push(stripped).len() implies no_nl(
            #[trigger] acc.push(stripped)[i],
        ) by {
            if i < acc.len() {
                assert(acc.push(stripped)[i] == acc[i]);
            }
        }
        lemma_lines_from_no_nl(rest, seq![], acc.push(stripped));
    } else {
        assert(no_nl(cur.push(s[0])));
        assert(lines_from(s, cur, acc) == lines_from(rest, cur.push(s[0]), acc));
        lemma_lines_from_no_nl(rest, cur.push(s[0]), acc);
    }
}

/// No line of a text holds a line feed.
proof fn lemma_lines_no_nl(s: Seq<char>)
    ensures
        forall|i: int| 0 <= i < spec_lines(s).len() ==> no_nl(#[trigger] spec_lines(s)[i]),
{
    lemma_lines_from_no_nl(s, seq![], seq![]);
}

proof fn lemma_no_nl_concat(a: Seq<char>, b: Seq<char>)
    requires
        no_nl(a),
        no_nl(b),
    ensures
        no_nl(a + b),
{
    assert forall|i: int| 0 <= i < (a + b).len() implies (a + b)[i] != '\n' by {
        if i < a.len() {
            assert((a + b)[i] == a[i]);
        } else {
            assert((a + b)[i] == b[i - a.len()]);
        }
    }
}

proof fn lemma_replace_empty_no_nl(s: Seq<char>, r: Seq<char>)
    requires
        no_nl(s),
        no_nl(r),
    ensures
        no_nl(replace_empty(s, r)),
    decreases s.len(),
{
    if s.len() > 0 {
        lemma_replace_empty_no_nl(s.drop_first(), r);
        assert(no_nl(seq![s[0]]));
        lemma_no_nl_concat(r, seq![s[0]]);
        lemma_no_nl_concat(r + seq![s[0]], replace_empty(s.drop_first(), r));
    }
}

/// Literal replacement brings in no line feed that neither the text nor
/// the replacement holds.
proof fn lemma_replace_all_no_nl(s: Seq<char>, p: Seq<char>, r: Seq<char>)
    requires
        no_nl(s),
        no_nl(r),
    ensures
        no_nl(replace_all(s, p, r)),
    decreases s.len(),
{
    if p.len() == 0 {
        lemma_replace_empty_no_nl(s, r);
    } else if s.len() == 0 {
    } else if p.len() <= s.len() && s.subrange(0, p.len() as int) == p {
        lemma_replace_all_no_nl(s.skip(p.len() as int), p, r);
        lemma_no_nl_concat(r, replace_all(s.skip(p.len() as int), p, r));
    } else {
        lemma_replace_all_no_nl(s.drop_first(), p, r);
        assert(no_nl(seq![s[0]]));
        lemma_no_nl_concat(seq![s[0]], replace_all(s.drop_first(), p, r));
    }
}

proof fn lemma_replace_out_lines(
    op: Op,
    m: Matcher,
    range: Option<LineRange>,
    lines: Seq<Seq<char>>,
    k: int,
)
    requires
        op is Replace,
        m is Literal,
        no_nl(op->replace@),
        0 <= k <= lines.len(),
        forall|i: int| 0 <= i < lines.len() ==> no_nl(#[trigger] lines[i]),
    ensures
        out_lines(op, m, range, lines, k).len() == k,
        forall|i: int|
            0 <= i < k ==> no_nl(#[trigger] out_lines(op, m, range, lines, k)[i]),
    decreases k,
{
    if k > 0 {
        lemma_replace_out_lines(op, m, range, lines, k - 1);
        let prev = out_lines(op, m, range, lines, k - 1);
        let step = edit_at(op, m, range, lines, k - 1);
        let line = lines[k - 1];
        if in_scope(range, k - 1) {
            match m.spec_replace(line, op->replace@) {
                Some(r) => {
                    lemma_replace_all_no_nl(line, m->pattern@, op->replace@);
                },
                None => {},
            }
        }
        assert(step.0.len() == 1 && no_nl(step.0[0]));
        let out = out_lines(op, m, range, lines, k);
        assert(out =~= prev + step.0);
        assert forall|i: int| 0 <= i < k implies no_nl(#[trigger] out[i]) by {
            if i < k - 1 {
                assert(out[i] == prev[i]);
            } else {
                assert(out[i] == step.0[0]);
            }
        }
    }
}

/// A literal replacement whose replacement text holds no line feed keeps
/// the number of lines of a text that ends with a line feed: the new text
/// has exactly as many lines as the old one.
pub proof fn law_replace_preserves_line_count(
    text: Seq<char>,
    op: Op,
    m: Matcher,
    range: Option<LineRange>,
)
    requires
        op is Replace,
        m is Literal,
        no_nl(op->replace@),
        text.len() > 0,
        text.last() == '\n',
    ensures
        spec_lines(spec_new_text(text, op, m, range)).len() == spec_lines(text).len(),
{
    let lines = spec_lines(text);
    let n = lines.len() as int;
    let sep = spec_line_sep(text);
    lemma_lines_no_nl(text);
    lemma_replace_out_lines(op, m, range, lines, n);
    let out = out_lines(op, m, range, lines, n);
    lemma_lines_count(text);
    // a text ending with a line feed has at least one line
    assert(count_nl(text) > 0) by {
        lemma_count_nl_concat(text.drop_last(), seq![text.last()]);
        assert(text.drop_last() + seq![text.last()] =~= text);
        assert(count_nl(seq!['\n']) == 1) by {
            reveal_with_fuel(count_nl, 2);
            assert(seq!['\n'].drop_first() =~= Seq::<char>::empty());
        }
    }
    assert(count_nl(sep) == 1) by {
        reveal_with_fuel(count_nl, 3);
        assert(seq!['\n'].drop_first() =~= Seq::<char>::empty());
        assert(seq!['\r', '\n'].drop_first() =~= seq!['\n']);
    }
    lemma_count_nl_join(out, sep);
    let new_text = join_seqs(out, sep) + sep;
    assert(spec_new_text(text, op, m, range) == new_text);
    lemma_count_nl_concat(join_seqs(out, sep), sep);
    assert(new_text.last() == '\n');
    lemma_lines_count(new_text);
}

// ---------------------------------------------------------------------------
// Edits that change nothing
// ---------------------------------------------------------------------------

proof fn lemma_no_match_changes(
    op: Op,
    m: Matcher,
    range: Option<LineRange>,
    lines: Seq<Seq<char>>,
    n: int,
    k: int,
)
    requires
        0 <= k <= lines.len(),
        forall|i: int|
            0 <= i < lines.len() && in_scope(range, i) ==> !m.spec_is_match(#[trigger] lines[i]),
    ensures
        changes_upto(op, m, range, lines, n, k).len() == 0,
        out_lines(op, m, range, lines, k) == lines.take(k),
    decreases k,
{
    if k > 0 {
        lemma_no_match_changes(op, m, range, lines, n, k - 1);
        if in_scope(range, k - 1) {
            assert(!m.spec_is_match(lines[k - 1]));
        }
        assert(edit_at(op, m, range, lines, k - 1).0 == seq![lines[k - 1]]);
        assert(lines.take(k - 1) + seq![lines[k - 1]] =~= lines.take(k));
    }
}

/// An operation whose pattern matches no line inside the range records no
/// change (so the engine leaves the text as it is: no new text and no undo
/// entry).
pub proof fn law_no_match_no_change(
    text: Seq<char>,
    op: Op,
    m: Matcher,
    range: Option<LineRange>,
    context_lines: int,
)
    requires
        forall|i: int|
            0 <= i < spec_lines(text).len() && in_scope(range, i) ==> !m.spec_is_match(
                #[trigger] spec_lines(text)[i],
            ),
    ensures
        spec_changes(text, op, m, range, context_lines).len() == 0,
{
    let lines = spec_lines(text);
    lemma_no_match_changes(op, m, range, lines, context_lines, lines.len() as int);
}

/// Lines outside the line range come out unchanged and record no change.
pub proof fn law_out_of_range_lines_kept(
    op: Op,
    m: Matcher,
    range: Option<LineRange>,
    lines: Seq<Seq<char>>,
    idx: int,
)
    requires
        0 <= idx < lines.len(),
        !in_scope(range, idx),
    ensures
        edit_at(op, m, range, lines, idx) == (seq![lines[idx]], None::<Option<Seq<char>>>),
{
}

/// A matcher that finds nothing in a line leaves it as it is under every
/// operation: the line is emitted once and no change is recorded.
pub proof fn law_unmatched_line_kept(op: Op, m: Matcher, line: Seq<char>)
    requires
        !m.spec_is_match(line),
    ensures
        line_edit(op, m, line) == (seq![line], None::<Option<Seq<char>>>),
{
}

// ---------------------------------------------------------------------------
// Confirmed subsets of changes
// ---------------------------------------------------------------------------

/// An edit that records no change emits the line as it was.
proof fn lemma_unchanged_edit(op: Op, m: Matcher, line: Seq<char>)
    ensures
        line_edit(op, m, line).1 is None ==> line_edit(op, m, line).0 == seq![line],
{
}

proof fn lemma_kept_lines_all(
    op: Op,
    m: Matcher,
    range: Option<LineRange>,
    lines: Seq<Seq<char>>,
    k: int,
    keep: Seq<usize>,
)
    requires
        0 <= k <= lines.len(),
        forall|i: int|
            0 <= i < lines.len() && (#[trigger] edit_at(op, m, range, lines, i)).1 is Some
                ==> keep.contains((i + 1) as usize),
    ensures
        kept_lines(op, m, range, lines, k, keep) == out_lines(op, m, range, lines, k),
    decreases k,
{
    if k > 0 {
        lemma_kept_lines_all(op, m, range, lines, k - 1, keep);
        lemma_unchanged_edit(op, m, lines[k - 1]);
        let e = edit_at(op, m, range, lines, k - 1);
        if e.1 is Some {
            assert(keep.contains(k as usize));
        }
    }
}

/// Keeping every line that the operation changes (as with `--confirm`
/// answered yes throughout, or without `--confirm`) writes exactly the text
/// the plain edit gives.
pub proof fn law_keeping_every_change_is_the_plain_edit(
    text: Seq<char>,
    op: Op,
    m: Matcher,
    range: Option<LineRange>,
    keep: Seq<usize>,
)
    requires
        forall|i: int|
            0 <= i < spec_lines(text).len() && (#[trigger] edit_at(
                op,
                m,
                range,
                spec_lines(text),
                i,
            )).1 is Some ==> keep.contains((i + 1) as usize),
    ensures
        spec_kept_text(text, op, m, range, keep) == spec_new_text(text, op, m, range),
{
    let lines = spec_lines(text);
    lemma_kept_lines_all(op, m, range, lines, lines.len() as int, keep);
}

/// Keeping no line leaves the text's lines as they were.
pub proof fn law_keeping_nothing_keeps_the_lines(
    text: Seq<char>,
    op: Op,
    m: Matcher,
    range: Option<LineRange>,
)
    ensures
        kept_lines(op, m, range, spec_lines(text), spec_lines(text).len() as int, seq![])
            == spec_lines(text),
{
    let lines = spec_lines(text);
    lemma_kept_none(op, m, range, lines, lines.len() as int);
    assert(lines.take(lines.len() as int) =~= lines);
}

proof fn lemma_kept_none(op: Op, m: Matcher, range: Option<LineRange>, lines: Seq<Seq<char>>, k: int)
    requires
        0 <= k <= lines.len(),
    ensures
        kept_lines(op, m, range, lines, k, seq![]) == lines.take(k),
    decreases k,
{
    if k > 0 {
        lemma_kept_none(op, m, range, lines, k - 1);
        assert(!Seq::<usize>::empty().contains(k as usize));
        assert(lines.take(k - 1) + seq![lines[k - 1]] =~= lines.take(k));
    }
}

// ---------------------------------------------------------------------------
// Script mode
// ---------------------------------------------------------------------------

/// Recording a written file, as `record_written` does, never lists a file
/// twice: script mode counts each modified file once, however many of its
/// operations wrote it.
pub proof fn law_written_files_listed_once(written: Seq<Seq<char>>, path: Seq<char>)
    requires
        written.no_duplicates(),
    ensures
        (if written.contains(path) {
            written
        } else {
            written.push(path)
        }).no_duplicates(),
{
    if !written.contains(path) {
        let n = written.push(path);
        assert forall|i: int, j: int| 0 <= i < n.len() && 0 <= j < n.len() && i != j implies n[i]
            != n[j] by {
            if i < written.len() && j < written.len() {
                assert(n[i] == written[i] && n[j] == written[j]);
            } else if i == written.len() {
                assert(n[j] == written[j]);
            } else {
                assert(n[i] == written[i]);
            }
        }
    }
}

// ---------------------------------------------------------------------------
// The undo log
// ---------------------------------------------------------------------------

/// After a push to a log whose limit is positive, the log holds no more
/// records than its limit, and the record pushed is the most recent one.
pub proof fn law_push_bounded(s: Seq<UndoRecord>, limit: nat, r: UndoRecord)
    requires
        limit > 0,
    ensures
        s.len() < limit ==> pruned(s.push(r), limit) == s.push(r),
        pruned(s.push(r), limit).len() <= limit,
        pruned(s.push(r), limit).last() == r,
{
}

/// Popping one record right after pushing one gives that record back, and
/// leaves the log holding what the push kept of the older records.
pub proof fn law_push_then_pop(s: Seq<UndoRecord>, limit: nat, r: UndoRecord)
    requires
        limit > 0,
    ensures
        ({
            let after = pruned(s.push(r), limit);
            let start = tail_start(after.len(), 1);
            &&& after.skip(start as int).reverse() == seq![r]
            &&& after.take(start as int) == pruned(s.push(r), limit).drop_last()
        }),
{
    let after = pruned(s.push(r), limit);
    let start = tail_start(after.len(), 1);
    assert(after.len() > 0);
    assert(after.skip(start as int) =~= seq![r]);
    assert(seq![r].reverse() =~= seq![r]);
    assert(after.take(start as int) =~= after.drop_last());
}

/// Popping `count` records returns the last `count` (or all) records, most
/// recent first, and what remains followed by what was popped, reversed
/// back, is the log as it was.
pub proof fn law_pop_splits_log(s: Seq<UndoRecord>, count: nat)
    ensures
        ({
            let start = tail_start(s.len(), count);
            let popped = s.skip(start as int).reverse();
            &&& popped.len() == if s.len() < count {
                s.len()
            } else {
                count
            }
            &&& s.take(start as int) + popped.reverse() == s
        }),
{
    let start = tail_start(s.len(), count);
    assert(s.skip(start as int).reverse().reverse() =~= s.skip(start as int));
    assert(s.take(start as int) + s.skip(start as int) =~= s);
}

// ---------------------------------------------------------------------------
// Suggestions
// ---------------------------------------------------------------------------

/// Every sequence is at distance zero from itself.
pub proof fn lemma_edit_distance_self(a: Seq<char>)
    ensures
        edit_distance(a, a) == 0,
    decreases a.len(),
{
    if a.len() > 0 {
        lemma_edit_distance_self(a.drop_last());
    }
}

proof fn lemma_with_distance_members(v: Seq<Seq<char>>, keys: Seq<nat>, d: nat)
    ensures
        forall|x: Seq<char>|
            with_distance(v, keys, d).contains(x) ==> exists|i: int|
                0 <= i < v.len() && i < keys.len() && v[i] == x && keys[i] == d,
    decreases v.len(),
{
    if v.len() > 0 && keys.len() == v.len() {
        let rest = with_distance(v.drop_last(), keys.drop_last(), d);
        lemma_with_distance_members(v.drop_last(), keys.drop_last(), d);
        assert forall|x: Seq<char>| with_distance(v, keys, d).contains(x) implies exists|i: int|
            0 <= i < v.len() && i < keys.len() && v[i] == x && keys[i] == d by {
            if rest.contains(x) {
                let i = choose|i: int|
                    0 <= i < v.drop_last().len() && i < keys.drop_last().len() && v.drop_last()[i]
                        == x && keys.drop_last()[i] == d;
                assert(v[i] == x && keys[i] == d);
            } else {
                let j = choose|j: int| 0 <= j < with_distance(v, keys, d).len() && with_distance(v, keys, d)[j] == x;
                assert(keys.last() == d);
                assert(j == rest.len());
                assert(v[v.len() - 1] == x);
            }
        }
    }
}

/// Every suggestion is one of the candidates, one or two edits away from
/// the pattern; in particular a candidate equal to the pattern is never
/// suggested.
pub proof fn law_suggestions_are_near_misses(pattern: Seq<char>, candidates: Seq<Seq<char>>)
    ensures
        forall|x: Seq<char>|
            spec_suggestions(candidates, distances_to(pattern, candidates)).contains(x) ==> {
                &&& candidates.contains(x)
                &&& 1 <= edit_distance(pattern, x) <= 2
            },
        !spec_suggestions(candidates, distances_to(pattern, candidates)).contains(pattern),
{
    let keys = distances_to(pattern, candidates);
    lemma_with_distance_members(candidates, keys, 1);
    lemma_with_distance_members(candidates, keys, 2);
    lemma_edit_distance_self(pattern);
    let s1 = with_distance(candidates, keys, 1);
    let s2 = with_distance(candidates, keys, 2);
    assert forall|x: Seq<char>| #[trigger] spec_suggestions(candidates, keys).contains(x) implies (
    candidates.contains(x) && 1 <= edit_distance(pattern, x) <= 2) by {
        let j = choose|j: int| 0 <= j < (s1 + s2).len() && (s1 + s2)[j] == x;
        if j < s1.len() {
            assert(s1[j] == x);
            assert(s1.contains(x));
            let i = choose|i: int|
                0 <= i < candidates.len() && i < keys.len() && candidates[i] == x && keys[i] == 1;
            assert(keys[i] == edit_distance(pattern, candidates[i]));
        } else {
            assert(s2[j - s1.len()] == x);
            assert(s2.contains(x));
            let i = choose|i: int|
                0 <= i < candidates.len() && i < keys.len() && candidates[i] == x && keys[i] == 2;
            assert(keys[i] == edit_distance(pattern, candidates[i]));
        }
    }
    assert(keys == distances_to(pattern, candidates));
    if spec_suggestions(candidates, keys).contains(pattern) {
        assert(candidates.contains(pattern) && 1 <= edit_distance(pattern, pattern));
    }
}

// ---------------------------------------------------------------------------
// What each recorded change says
// ---------------------------------------------------------------------------

/// Every change recorded for the first `k` lines comes from one line inside
/// the range, returned here: the change carries that line as `before`, and
/// what the line's edit records as `after`.
proof fn lemma_change_origin(
    op: Op,
    m: Matcher,
    range: Option<LineRange>,
    lines: Seq<Seq<char>>,
    n: int,
    k: int,
    j: int,
) -> (i: int)
    requires
        0 <= k <= lines.len(),
        0 <= j < changes_upto(op, m, range, lines, n, k).len(),
    ensures
        0 <= i < k,
        in_scope(range, i),
        changes_upto(op, m, range, lines, n, k)[j].before == lines[i],
        changes_upto(op, m, range, lines, n, k)[j].line == i + 1,
        line_edit(op, m, lines[i]).1 == Some(changes_upto(op, m, range, lines, n, k)[j].after),
    decreases k,
{
    let prev = changes_upto(op, m, range, lines, n, k - 1);
    if j < prev.len() {
        lemma_change_origin(op, m, range, lines, n, k - 1, j)
    } else {
        k - 1
    }
}

/// A replace records, for every line it changes, the whole new line: the
/// line with every match replaced (by `str::replace` for a literal pattern,
/// by the regex crate's `replace_all` for a regex), never the replacement
/// text alone; and the line emitted into the new text is that same line.
pub proof fn law_replace_change_is_whole_new_line(
    text: Seq<char>,
    op: Op,
    m: Matcher,
    range: Option<LineRange>,
    context_lines: int,
    line: Seq<char>,
)
    requires
        op is Replace,
    ensures
        forall|j: int|
            0 <= j < spec_changes(text, op, m, range, context_lines).len() ==> {
                let c = #[trigger] spec_changes(text, op, m, range, context_lines)[j];
                &&& c.after matches Some(a) && (m matches Matcher::Literal { pattern, .. } ==> a
                    == replace_all(c.before, pattern@, op->replace@))
                &&& c.after matches Some(a) && (m matches Matcher::Regex(src) ==> a
                    == regex_replaced(src@, c.before, op->replace@))
            },
        line_edit(op, m, line).1 matches Some(Some(a)) ==> line_edit(op, m, line).0 == seq![a],
        m matches Matcher::Literal { pattern, .. } ==> (contains_seq(line, pattern@) <==> line_edit(
            op,
            m,
            line,
        ).1 is Some),
{
    let lines = spec_lines(text);
    let cs = spec_changes(text, op, m, range, context_lines);
    assert forall|j: int| 0 <= j < cs.len() implies {
        let c = #[trigger] cs[j];
        &&& c.after matches Some(a) && (m matches Matcher::Literal { pattern, .. } ==> a
            == replace_all(c.before, pattern@, op->replace@))
        &&& c.after matches Some(a) && (m matches Matcher::Regex(src) ==> a == regex_replaced(
            src@,
            c.before,
            op->replace@,
        ))
    } by {
        let i = lemma_change_origin(op, m, range, lines, context_lines, lines.len() as int, j);
    }
}

/// A space or a tab: what dedenting removes.
pub open spec fn is_indent_char(c: char) -> bool {
    c == ' ' || c == '\t'
}

proof fn lemma_dedent_end(s: Seq<char>, i: int, amount: int)
    requires
        0 <= i <= s.len(),
        i <= amount,
    ensures
        i <= dedent_end(s, i, amount) <= s.len(),
        dedent_end(s, i, amount) <= amount,
        forall|j: int| i <= j < dedent_end(s, i, amount) ==> is_indent_char(#[trigger] s[j]),
        dedent_end(s, i, amount) == amount || dedent_end(s, i, amount) == s.len()
            || !is_indent_char(s[dedent_end(s, i, amount)]),
    decreases s.len() - i,
{
    if i < s.len() && i < amount && (s[i] == ' ' || s[i] == '\t') {
        lemma_dedent_end(s, i + 1, amount);
    }
}

/// Dedenting a matched line removes its leading spaces and tabs, but no
/// more than `amount` of them: what remains is a suffix of the line, every
/// removed character is a space or a tab, at most `amount` are removed, and
/// the removal stops only at `amount`, at the end of the line, or at a
/// character that is neither. A change is recorded exactly when something
/// was removed, and it records the remaining line.
pub proof fn law_dedent_removes_leading_blanks_up_to_amount(op: Op, m: Matcher, line: Seq<char>)
    requires
        op is Dedent,
        m.spec_is_match(line),
    ensures
        ({
            let (out, change) = line_edit(op, m, line);
            let rest = out[0];
            let k = line.len() - rest.len();
            &&& out.len() == 1
            &&& 0 <= k <= op->Dedent_amount
            &&& line == line.take(k) + rest
            &&& forall|j: int| 0 <= j < k ==> is_indent_char(#[trigger] line[j])
            &&& k == op->Dedent_amount || rest.len() == 0 || !is_indent_char(rest[0])
            &&& (change is Some <==> k > 0)
            &&& change is Some ==> change == Some(Some(rest))
        }),
{
    let amount = op->Dedent_amount as int;
    lemma_dedent_end(line, 0, amount);
    let e = dedent_end(line, 0, amount);
    let rest = line.skip(e);
    assert(line.take(e) + rest =~= line);
    if e > 0 {
        assert(rest.len() < line.len());
        assert(rest != line);
    } else {
        assert(rest =~= line);
    }
    if e < line.len() {
        assert(rest[0] == line[e]);
    }
}

/// Whenever an operation asks for case-insensitive matching, the regex the
/// matcher compiles starts with the `(?i)` flag, for regex patterns and
/// escaped literals alike, and the rest is the pattern (or, for a literal,
/// its escaped form); without the flag a regex pattern is compiled as it
/// is.
pub proof fn law_case_insensitive_source_has_flag(op: Op)
    ensures
        op.spec_case_insensitive() ==> spec_regex_source(op).take(4) == "(?i)"@,
        op.spec_case_insensitive() ==> spec_regex_source(op).skip(4) == if op.spec_regex() {
            op.spec_find()
        } else {
            regex_escaped(op.spec_find())
        },
        !op.spec_case_insensitive() && op.spec_regex() ==> spec_regex_source(op) == op.spec_find(),
{
    reveal_strlit("(?i)");
    let base = if op.spec_regex() {
        op.spec_find()
    } else {
        regex_escaped(op.spec_find())
    };
    assert(("(?i)"@ + base).take(4) =~= "(?i)"@);
    assert(("(?i)"@ + base).skip(4) =~= base);
}

/// The records of a stored undo log are exactly its non-blank lines, in
/// order: none is dropped and no blank line is kept.
pub proof fn law_undo_records_are_the_non_blank_lines(ls: Seq<Seq<char>>)
    ensures
        non_blank(ls) == ls.filter(|l: Seq<char>| !is_blank(l)),
        non_blank(ls).len() <= ls.len(),
        forall|i: int| 0 <= i < non_blank(ls).len() ==> !is_blank(#[trigger] non_blank(ls)[i]),
    decreases ls.len(),
{
    reveal(Seq::filter);
    if ls.len() > 0 {
        law_undo_records_are_the_non_blank_lines(ls.drop_last());
        let prev = non_blank(ls.drop_last());
        if !is_blank(ls.last()) {
            assert forall|i: int| 0 <= i < non_blank(ls).len() implies !is_blank(
                #[trigger] non_blank(ls)[i],
            ) by {
                if i < prev.len() {
                    assert(non_blank(ls)[i] == prev[i]);
                }
            }
        }
    }
}

/// Path suggestions compare file names, not whole paths: when the path and
/// an existing path both have a final component, the distance that ranks
/// the existing path is the edit distance between the two final
/// components.
pub proof fn law_path_suggestions_compare_file_names(path: Seq<char>, existing: Seq<char>)
    requires
        path_file_name(path) is Some,
        path_file_name(existing) is Some,
    ensures
        edit_distance(compared_name(path), compared_name(existing)) == edit_distance(
            path_file_name(path)->0,
            path_file_name(existing)->0,
        ),
        compared_name(path) == path_file_name(path)->0,
{
}

/// Under every operation, what a changed line records as its new text is
/// the lines emitted in its place, joined by line feeds (nothing for a
/// deletion); a line that records no change is emitted as it was.
pub proof fn law_change_after_is_emitted_lines(op: Op, m: Matcher, line: Seq<char>)
    ensures
        ({
            let (out, change) = line_edit(op, m, line);
            &&& change is None ==> out == seq![line]
            &&& change == Some(None::<Seq<char>>) ==> out.len() == 0
            &&& change matches Some(Some(t)) ==> out.len() > 0 && t == join_seqs(out, seq!['\n'])
        }),
{
    reveal_with_fuel(join_seqs, 3);
    let out = line_edit(op, m, line).0;
    if out.len() == 2 {
        assert(out.drop_last() =~= seq![out[0]]);
    }
}

/// Every recorded change names, by its 1-based number, a line of the text
/// inside the range, and holds that line as it was.
pub proof fn law_changes_name_their_lines(
    text: Seq<char>,
    op: Op,
    m: Matcher,
    range: Option<LineRange>,
    context_lines: int,
)
    ensures
        forall|j: int|
            0 <= j < spec_changes(text, op, m, range, context_lines).len() ==> {
                let c = #[trigger] spec_changes(text, op, m, range, context_lines)[j];
                &&& 1 <= c.line <= spec_lines(text).len()
                &&& spec_lines(text)[c.line - 1] == c.before
                &&& in_scope(range, c.line - 1)
            },
{
    let lines = spec_lines(text);
    let cs = spec_changes(text, op, m, range, context_lines);
    assert forall|j: int| 0 <= j < cs.len() implies {
        let c = #[trigger] cs[j];
        &&& 1 <= c.line <= lines.len()
        &&& lines[c.line - 1] == c.before
        &&& in_scope(range, c.line - 1)
    } by {
        let i = lemma_change_origin(op, m, range, lines, context_lines, lines.len() as int, j);
    }
}

/// Indenting a matched line puts exactly `amount` tabs (with `use_tabs`)
/// or spaces in front of it and changes nothing else; a change is recorded
/// exactly when `amount` is positive.
pub proof fn law_indent_prefixes_amount_chars(op: Op, m: Matcher, line: Seq<char>)
    requires
        op is Indent,
        m.spec_is_match(line),
    ensures
        ({
            let (out, change) = line_edit(op, m, line);
            let amount = op->Indent_amount as int;
            &&& out.len() == 1
            &&& out[0].len() == line.len() + amount
            &&& out[0].skip(amount) == line
            &&& forall|j: int| 0 <= j < amount ==> #[trigger] out[0][j] == if op->Indent_use_tabs {
                '\t'
            } else {
                ' '
            }
            &&& (change is Some <==> amount > 0)
        }),
{
    let out = line_edit(op, m, line).0;
    let amount = op->Indent_amount as int;
    assert(out[0].skip(amount) =~= line);
    if amount > 0 {
        assert(out[0].len() != line.len());
    } else {
        assert(out[0] =~= line);
    }
}

} // verus!
