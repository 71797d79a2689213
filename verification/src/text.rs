//! Character-level text primitives: conversion between strings and character
//! vectors, line splitting in the manner of `str::lines`, joining, literal
//! substring search and replacement, and decimal formatting.
use vstd::prelude::*;
use vstd::string::*;

verus! {

// ---------------------------------------------------------------------------
// Specifications
// ---------------------------------------------------------------------------

/// `p` occurs in `s` starting at position `i`.
pub open spec fn occurs_at(s: Seq<char>, p: Seq<char>, i: int) -> bool {
    &&& 0 <= i
    &&& i + p.len() <= s.len()
    &&& s.subrange(i, i + p.len()) == p
}

/// `p` occurs somewhere in `s` (the empty pattern occurs in every sequence).
pub open spec fn contains_seq(s: Seq<char>, p: Seq<char>) -> bool {
    exists|i: int| occurs_at(s, p, i)
}

/// `r` inserted before every character of `s` and once more at the end:
/// what replacing the empty pattern does.
pub open spec fn replace_empty(s: Seq<char>, r: Seq<char>) -> Seq<char>
    decreases s.len(),
{
    if s.len() == 0 {
        r
    } else {
        r + seq![s[0]] + replace_empty(s.drop_first(), r)
    }
}

/// Replacement of every non-overlapping occurrence of `p` in `s` by `r`,
/// scanning from the left (the behaviour of `str::replace`).
pub open spec fn replace_all(s: Seq<char>, p: Seq<char>, r: Seq<char>) -> Seq<char>
    decreases s.len(),
{
    if p.len() == 0 {
        replace_empty(s, r)
    } else if s.len() == 0 {
        seq![]
    } else if p.len() <= s.len() && s.subrange(0, p.len() as int) == p {
        r + replace_all(s.skip(p.len() as int), p, r)
    } else {
        seq![s[0]] + replace_all(s.drop_first(), p, r)
    }
}

/// `l` without one trailing carriage return, if it has one.
pub open spec fn strip_cr(l: Seq<char>) -> Seq<char> {
    if l.len() > 0 && l.last() == '\r' {
        l.drop_last()
    } else {
        l
    }
}

/// Line splitting, left to right: `cur` is the line read so far and `acc`
/// the lines already completed. A line feed ends a line (and a carriage
/// return just before it is dropped); a last line without a line feed is
/// kept as it is, and an empty one is not a line.
pub open spec fn lines_from(s: Seq<char>, cur: Seq<char>, acc: Seq<Seq<char>>) -> Seq<Seq<char>>
    decreases s.len(),
{
    if s.len() == 0 {
        if cur.len() == 0 {
            acc
        } else {
            acc.push(cur)
        }
    } else if s[0] == '\n' {
        lines_from(s.drop_first(), seq![], acc.push(strip_cr(cur)))
    } else {
        lines_from(s.drop_first(), cur.push(s[0]), acc)
    }
}

/// The lines of a text, as `str::lines` yields them.
pub open spec fn spec_lines(s: Seq<char>) -> Seq<Seq<char>> {
    lines_from(s, seq![], seq![])
}

/// The lines joined with `sep` between consecutive lines.
pub open spec fn join_seqs(ls: Seq<Seq<char>>, sep: Seq<char>) -> Seq<char>
    decreases ls.len(),
{
    if ls.len() == 0 {
        seq![]
    } else if ls.len() == 1 {
        ls[0]
    } else {
        join_seqs(ls.drop_last(), sep) + sep + ls.last()
    }
}

/// The views of a sequence of strings.
pub open spec fn string_views(v: Seq<String>) -> Seq<Seq<char>> {
    v.map_values(|s: String| s@)
}

/// The decimal digit character for `d < 10`.
pub open spec fn digit_char(d: nat) -> char {
    ((48 + d) as u32) as char
}

/// The decimal representation of `n`, without leading zeros.
pub open spec fn decimal(n: nat) -> Seq<char>
    decreases n,
{
    if n < 10 {
        seq![digit_char(n)]
    } else {
        decimal(n / 10).push(digit_char(n % 10))
    }
}

/// `s` ends with `suffix`.
pub open spec fn ends_with_seq(s: Seq<char>, suffix: Seq<char>) -> bool {
    suffix.len() <= s.len() && s.subrange(s.len() - suffix.len(), s.len() as int) == suffix
}

// ---------------------------------------------------------------------------
// Conversions
// ---------------------------------------------------------------------------

/// Appends one character to a string (`String::push`).
#[verifier::external_body]
pub(crate) fn push_char(s: &mut String, c: char)
    ensures
        final(s)@ == old(s)@.push(c),
{
    s.push(c);
}

/// The characters of a string slice, in order.
pub fn chars_of(s: &str) -> (v: Vec<char>)
    ensures
        v@ == s@,
{
    let mut v: Vec<char> = Vec::new();
    for c in it: s.chars()
        invariant
            v@ == it.seq().take(it.index() as int),
            it.seq() == s@,
    {
        v.push(c);
    }
    v
}

/// The string made of the characters of `v`.
pub fn string_from_chars(v: &Vec<char>) -> (s: String)
    ensures
        s@ == v@,
{
    let mut s = String::new();
    let mut i: usize = 0;
    while i < v.len()
        invariant
            i <= v.len(),
            s@ == v@.take(i as int),
        decreases v.len() - i,
    {
        push_char(&mut s, v[i]);
        i += 1;
        assert(v@.take(i as int) == v@.take((i - 1) as int).push(v@[i - 1]));
    }
    assert(v@.take(v.len() as int) == v@);
    s
}

/// An owned copy of a string slice.
pub fn owned(s: &str) -> (r: String)
    ensures
        r@ == s@,
{
    String::from_str(s)
}

/// Whether two string slices hold the same characters.
pub fn str_eq(a: &str, b: &str) -> (r: bool)
    ensures
        r == (a@ == b@),
{
    let va = chars_of(a);
    let vb = chars_of(b);
    if va.len() != vb.len() {
        return false;
    }
    let mut i: usize = 0;
    while i < va.len()
        invariant
            va.len() == vb.len(),
            va@ == a@,
            vb@ == b@,
            i <= va.len(),
            forall|j: int| 0 <= j < i ==> va@[j] == vb@[j],
        decreases va.len() - i,
    {
        if va[i] != vb[i] {
            return false;
        }
        i += 1;
    }
    assert(va@ =~= vb@);
    true
}

// ---------------------------------------------------------------------------
// Search and replacement
// ---------------------------------------------------------------------------

/// Whether `p` occurs in `s` at position `i`.
pub fn matches_at(s: &Vec<char>, p: &Vec<char>, i: usize) -> (r: bool)
    requires
        i <= s.len(),
    ensures
        r == occurs_at(s@, p@, i as int),
{
    if p.len() > s.len() - i {
        return false;
    }
    let mut j: usize = 0;
    while j < p.len()
        invariant
            i + p.len() <= s.len(),
            j <= p.len(),
            forall|k: int| 0 <= k < j ==> s@[i + k] == p@[k],
        decreases p.len() - j,
    {
        if s[i + j] != p[j] {
            assert(s@.subrange(i as int, i + p.len())[j as int] != p@[j as int]);
            return false;
        }
        j += 1;
    }
    assert(s@.subrange(i as int, i + p.len()) =~= p@);
    true
}

/// Whether `p` occurs anywhere in `s`.
pub fn contains_chars(s: &Vec<char>, p: &Vec<char>) -> (r: bool)
    ensures
        r == contains_seq(s@, p@),
{
    let mut i: usize = 0;
    while i < s.len()
        invariant
            i <= s.len(),
            forall|k: int| 0 <= k < i ==> !occurs_at(s@, p@, k),
        decreases s.len() - i,
    {
        if matches_at(s, p, i) {
            return true;
        }
        i += 1;
    }
    if matches_at(s, p, i) {
        return true;
    }
    assert forall|k: int| !occurs_at(s@, p@, k) by {
        if 0 <= k && k <= i {
        }
    }
    false
}

proof fn lemma_replace_all_step(s: Seq<char>, p: Seq<char>, r: Seq<char>, i: int)
    requires
        p.len() > 0,
        0 <= i < s.len(),
    ensures
        occurs_at(s, p, i) ==> replace_all(s.skip(i), p, r) == r + replace_all(
            s.skip(i + p.len()),
            p,
            r,
        ),
        !occurs_at(s, p, i) ==> replace_all(s.skip(i), p, r) == seq![s[i]] + replace_all(
            s.skip(i + 1),
            p,
            r,
        ),
{
    let t = s.skip(i);
    if p.len() <= t.len() {
        assert(t.subrange(0, p.len() as int) =~= s.subrange(i, i + p.len()));
    }
    if i + p.len() <= s.len() {
        assert(t.skip(p.len() as int) =~= s.skip(i + p.len()));
    }
    assert(t.drop_first() =~= s.skip(i + 1));
}

proof fn lemma_replace_empty_step(s: Seq<char>, r: Seq<char>, i: int)
    requires
        0 <= i < s.len(),
    ensures
        replace_empty(s.skip(i), r) == r + seq![s[i]] + replace_empty(s.skip(i + 1), r),
{
    assert(s.skip(i).drop_first() =~= s.skip(i + 1));
}

/// `s` with every non-overlapping occurrence of `p` (scanning from the left)
/// replaced by `r`.
pub fn replace_chars(s: &Vec<char>, p: &Vec<char>, r: &Vec<char>) -> (out: Vec<char>)
    ensures
        out@ == replace_all(s@, p@, r@),
{
    let mut out: Vec<char> = Vec::new();
    let mut i: usize = 0;
    assert(s@.skip(0) =~= s@);
    if p.len() == 0 {
        while i < s.len()
            invariant
                p@.len() == 0,
                i <= s.len(),
                out@ + replace_empty(s@.skip(i as int), r@) == replace_all(s@, p@, r@),
            decreases s.len() - i,
        {
            proof {
                lemma_replace_empty_step(s@, r@, i as int);
            }
            let ghost before = out@;
            out.extend_from_slice(r.as_slice());
            out.push(s[i]);
            i += 1;
            assert(out@ == before + r@ + seq![s@[i - 1]]);
            assert(before + (r@ + seq![s@[i - 1]] + replace_empty(s@.skip(i as int), r@))
                =~= out@ + replace_empty(s@.skip(i as int), r@));
        }
        assert(s@.skip(i as int) =~= Seq::<char>::empty());
        let ghost before = out@;
        out.extend_from_slice(r.as_slice());
        assert(out@ =~= before + replace_empty(s@.skip(i as int), r@));
        return out;
    }
    while i < s.len()
        invariant
            p@.len() > 0,
            i <= s.len(),
            out@ + replace_all(s@.skip(i as int), p@, r@) == replace_all(s@, p@, r@),
        decreases s.len() - i,
    {
        proof {
            lemma_replace_all_step(s@, p@, r@, i as int);
        }
        let ghost before = out@;
        if matches_at(s, p, i) {
            out.extend_from_slice(r.as_slice());
            i += p.len();
            assert(before + (r@ + replace_all(s@.skip(i as int), p@, r@)) =~= out@
                + replace_all(s@.skip(i as int), p@, r@));
        } else {
            out.push(s[i]);
            i += 1;
            assert(before + (seq![s@[i - 1]] + replace_all(s@.skip(i as int), p@, r@)) =~= out@
                + replace_all(s@.skip(i as int), p@, r@));
        }
    }
    assert(s@.skip(i as int).len() == 0);
    assert(out@ + replace_all(s@.skip(i as int), p@, r@) =~= out@);
    out
}

// ---------------------------------------------------------------------------
// Lines
// ---------------------------------------------------------------------------

proof fn lemma_lines_from_step(s: Seq<char>, i: int, cur: Seq<char>, acc: Seq<Seq<char>>)
    requires
        0 <= i < s.len(),
    ensures
        s[i] == '\n' ==> lines_from(s.skip(i), cur, acc) == lines_from(
            s.skip(i + 1),
            seq![],
            acc.push(strip_cr(cur)),
        ),
        s[i] != '\n' ==> lines_from(s.skip(i), cur, acc) == lines_from(
            s.skip(i + 1),
            cur.push(s[i]),
            acc,
        ),
{
    assert(s.skip(i).drop_first() =~= s.skip(i + 1));
}

/// The lines of `text`, as `str::lines` yields them.
pub fn split_lines(text: &str) -> (lines: Vec<String>)
    ensures
        string_views(lines@) == spec_lines(text@),
{
    let s = chars_of(text);
    let mut lines: Vec<String> = Vec::new();
    let mut cur: Vec<char> = Vec::new();
    let mut i: usize = 0;
    assert(s@.skip(0) =~= s@);
    assert(string_views(lines@) =~= Seq::<Seq<char>>::empty());
    while i < s.len()
        invariant
            s@ == text@,
            i <= s.len(),
            lines_from(s@.skip(i as int), cur@, string_views(lines@)) == spec_lines(text@),
        decreases s.len() - i,
    {
        proof {
            lemma_lines_from_step(s@, i as int, cur@, string_views(lines@));
        }
        if s[i] == '\n' {
            if cur.len() > 0 && cur[cur.len() - 1] == '\r' {
                cur.pop();
            }
            let line = string_from_chars(&cur);
            let ghost before = lines@;
            lines.push(line);
            assert(string_views(lines@) =~= string_views(before).push(line@));
            cur = Vec::new();
        } else {
            cur.push(s[i]);
        }
        i += 1;
    }
    assert(s@.skip(i as int) =~= Seq::<char>::empty());
    if cur.len() > 0 {
        let line = string_from_chars(&cur);
        let ghost before = lines@;
        lines.push(line);
        assert(string_views(lines@) =~= string_views(before).push(line@));
    }
    lines
}

/// The strings joined with `sep` between consecutive ones.
pub fn join_strings(parts: &Vec<String>, sep: &str) -> (out: String)
    ensures
        out@ == join_seqs(string_views(parts@), sep@),
{
    let mut out = String::new();
    let mut i: usize = 0;
    while i < parts.len()
        invariant
            i <= parts.len(),
            out@ == join_seqs(string_views(parts@.take(i as int)), sep@),
        decreases parts.len() - i,
    {
        let ghost before = out@;
        assert(string_views(parts@.take(i + 1)).drop_last() =~= string_views(parts@.take(i as int)));
        if i > 0 {
            out.append(sep);
        }
        out.append(parts[i].as_str());
        i += 1;
        assert(string_views(parts@.take(i as int)).last() == parts@[i - 1]@);
    }
    assert(parts@.take(parts.len() as int) =~= parts@);
    out
}

// ---------------------------------------------------------------------------
// Numbers
// ---------------------------------------------------------------------------

/// The decimal representation of `n`.
pub fn decimal_string(n: usize) -> (s: String)
    ensures
        s@ == decimal(n as nat),
{
    let mut digits: Vec<char> = Vec::new();
    let mut m: usize = n;
    // digits holds the low-order digits, least significant first
    assert(digits@.reverse() =~= Seq::<char>::empty());
    while m >= 10
        invariant
            m <= n,
            decimal(n as nat) == decimal(m as nat) + digits@.reverse(),
        decreases m,
    {
        let d = (m % 10) as u32;
        let c = char_of_digit(d);
        let ghost before = digits@;
        digits.push(c);
        m = m / 10;
        assert(digits@.reverse() =~= seq![c] + before.reverse());
        assert(decimal((m * 10 + d) as nat) == decimal(m as nat).push(c));
    }
    let first = char_of_digit(m as u32);
    let mut out: Vec<char> = Vec::new();
    out.push(first);
    let mut k: usize = digits.len();
    while k > 0
        invariant
            k <= digits.len(),
            out@ == seq![first] + digits@.reverse().take(digits.len() - k),
        decreases k,
    {
        k -= 1;
        out.push(digits[k]);
        assert(digits@.reverse().take(digits.len() - k) =~= digits@.reverse().take(
            digits.len() - k - 1,
        ).push(digits@[k as int]));
    }
    assert(digits@.reverse().take(digits.len() as int) =~= digits@.reverse());
    assert(decimal(m as nat) == seq![first]);
    assert(out@ =~= decimal(m as nat) + digits@.reverse());
    string_from_chars(&out)
}

/// The character of the decimal digit `d`.
fn char_of_digit(d: u32) -> (c: char)
    requires
        d < 10,
    ensures
        c == digit_char(d as nat),
{
    if d == 0 { '0' }
    else if d == 1 { '1' }
    else if d == 2 { '2' }
    else if d == 3 { '3' }
    else if d == 4 { '4' }
    else if d == 5 { '5' }
    else if d == 6 { '6' }
    else if d == 7 { '7' }
    else if d == 8 { '8' }
    else { '9' }
}

// ---------------------------------------------------------------------------
// Whitespace and case
// ---------------------------------------------------------------------------

/// Whether a character has the Unicode `White_Space` property, as
/// `char::is_whitespace` decides.
pub uninterp spec fn unicode_white_space(c: char) -> bool;

/// The lowercase mapping of a text, as `str::to_lowercase` gives it.
pub uninterp spec fn unicode_lowercase(s: Seq<char>) -> Seq<char>;

/// Calls `char::is_whitespace`; which characters count is named, not stated.
#[verifier::external_body]
pub(crate) fn is_whitespace_char(c: char) -> (r: bool)
    ensures
        r == unicode_white_space(c),
{
    c.is_whitespace()
}

/// Calls `str::to_lowercase`; the mapping is named, not stated.
#[verifier::external_body]
pub(crate) fn lowercase(s: &str) -> (r: String)
    ensures
        r@ == unicode_lowercase(s@),
{
    s.to_lowercase()
}

/// Every character of `s` is whitespace (so `s.trim()` is empty).
pub open spec fn is_blank(s: Seq<char>) -> bool {
    forall|i: int| 0 <= i < s.len() ==> unicode_white_space(#[trigger] s[i])
}

/// `s` without its leading and trailing whitespace, as `str::trim` gives it.
pub open spec fn trimmed(s: Seq<char>) -> Seq<char> {
    let start = first_non_ws(s, 0);
    let end = last_non_ws_end(s, s.len() as int);
    if start < end {
        s.subrange(start, end)
    } else {
        seq![]
    }
}

/// The index of the first non-whitespace character at or after `i`, or the
/// length when there is none.
pub open spec fn first_non_ws(s: Seq<char>, i: int) -> int
    decreases s.len() - i,
{
    if i >= s.len() || i < 0 {
        s.len() as int
    } else if !unicode_white_space(s[i]) {
        i
    } else {
        first_non_ws(s, i + 1)
    }
}

/// One past the index of the last non-whitespace character before `j`, or
/// zero when there is none.
pub open spec fn last_non_ws_end(s: Seq<char>, j: int) -> int
    decreases j,
{
    if j <= 0 || j > s.len() {
        0
    } else if !unicode_white_space(s[j - 1]) {
        j
    } else {
        last_non_ws_end(s, j - 1)
    }
}

/// Whether every character of the text is whitespace.
pub fn str_is_blank(s: &str) -> (r: bool)
    ensures
        r == is_blank(s@),
{
    let v = chars_of(s);
    let mut i: usize = 0;
    while i < v.len()
        invariant
            v@ == s@,
            i <= v.len(),
            forall|j: int| 0 <= j < i ==> unicode_white_space(#[trigger] v@[j]),
        decreases v.len() - i,
    {
        if !is_whitespace_char(v[i]) {
            return false;
        }
        i += 1;
    }
    true
}

/// The text without leading and trailing whitespace.
pub fn trim_str(s: &str) -> (r: String)
    ensures
        r@ == trimmed(s@),
{
    let v = chars_of(s);
    let mut start: usize = 0;
    while start < v.len()
        invariant
            v@ == s@,
            start <= v.len(),
            first_non_ws(s@, 0) == first_non_ws(s@, start as int),
        ensures
            start == v.len() || !unicode_white_space(v@[start as int]),
            first_non_ws(s@, 0) == first_non_ws(s@, start as int),
        decreases v.len() - start,
    {
        if !is_whitespace_char(v[start]) {
            break;
        }
        start += 1;
    }
    let mut end: usize = v.len();
    while end > 0
        invariant
            v@ == s@,
            end <= v.len(),
            last_non_ws_end(s@, s@.len() as int) == last_non_ws_end(s@, end as int),
        ensures
            end == 0 || !unicode_white_space(v@[end - 1]),
            end <= v.len(),
            last_non_ws_end(s@, s@.len() as int) == last_non_ws_end(s@, end as int),
        decreases end,
    {
        if !is_whitespace_char(v[end - 1]) {
            break;
        }
        end -= 1;
    }
    let mut out: Vec<char> = Vec::new();
    if start < end {
        let mut k = start;
        while k < end
            invariant
                v@ == s@,
                start <= k <= end <= v.len(),
                out@ == v@.subrange(start as int, k as int),
            decreases end - k,
        {
            out.push(v[k]);
            k += 1;
            assert(out@ =~= v@.subrange(start as int, k as int));
        }
    }
    assert(first_non_ws(s@, start as int) == start as int);
    assert(last_non_ws_end(s@, end as int) == end as int);
    assert(start < end ==> out@ =~= trimmed(s@));
    assert(start >= end ==> out@ =~= trimmed(s@));
    string_from_chars(&out)
}

} // verus!
