//! Case transformations of matched text: upper, lower, title, snake_case
//! and camelCase.
use vstd::prelude::*;
use vstd::string::*;

use crate::operation::TransformMode;
use crate::text::{
    chars_of, is_whitespace_char, lowercase, string_from_chars, unicode_lowercase,
    unicode_white_space,
};

verus! {

// ---------------------------------------------------------------------------
// Unicode case mappings, through std
// ---------------------------------------------------------------------------

/// The uppercase mapping of a text, as `str::to_uppercase` gives it.
pub uninterp spec fn unicode_uppercase(s: Seq<char>) -> Seq<char>;

/// The uppercase mapping of one character, as `char::to_uppercase` yields it.
pub uninterp spec fn char_uppercase(c: char) -> Seq<char>;

/// The lowercase mapping of one character, as `char::to_lowercase` yields it.
pub uninterp spec fn char_lowercase(c: char) -> Seq<char>;

/// Calls `str::to_uppercase`; the mapping is named, not stated.
#[verifier::external_body]
fn uppercase(s: &str) -> (r: String)
    ensures
        r@ == unicode_uppercase(s@),
{
    s.to_uppercase()
}

/// Collects `char::to_uppercase` into a string; the mapping is named, not
/// stated.
#[verifier::external_body]
fn upper_of_char(c: char) -> (r: String)
    ensures
        r@ == char_uppercase(c),
{
    c.to_uppercase().collect::<String>()
}

/// Collects `char::to_lowercase` into a string; the mapping is named, not
/// stated.
#[verifier::external_body]
fn lower_of_char(c: char) -> (r: String)
    ensures
        r@ == char_lowercase(c),
{
    c.to_lowercase().collect::<String>()
}

// ---------------------------------------------------------------------------
// Specification
// ---------------------------------------------------------------------------

/// A character that separates words: whitespace, `-` or `_`.
pub open spec fn is_word_sep(c: char) -> bool {
    unicode_white_space(c) || c == '-' || c == '_'
}

/// A character that lowercasing changes (an uppercase letter).
pub open spec fn is_upperish(c: char) -> bool {
    char_lowercase(c) != seq![c]
}

/// A character that uppercasing changes (a lowercase letter).
pub open spec fn is_lowerish(c: char) -> bool {
    char_uppercase(c) != seq![c]
}

/// Title case: the first character of every whitespace-separated word
/// uppercased, every other character lowercased, whitespace kept.
pub open spec fn title_from(s: Seq<char>, at_start: bool) -> Seq<char>
    decreases s.len(),
{
    if s.len() == 0 {
        seq![]
    } else if unicode_white_space(s[0]) {
        seq![s[0]] + title_from(s.drop_first(), true)
    } else if at_start {
        char_uppercase(s[0]) + title_from(s.drop_first(), false)
    } else {
        char_lowercase(s[0]) + title_from(s.drop_first(), false)
    }
}

/// snake_case: every character lowercased, every word separator turned into
/// `_`, and a `_` put before an uppercase letter that follows a lowercase
/// one.
pub open spec fn snake_from(s: Seq<char>, prev: Option<char>) -> Seq<char>
    decreases s.len(),
{
    if s.len() == 0 {
        seq![]
    } else if is_word_sep(s[0]) {
        seq!['_'] + snake_from(s.drop_first(), Some(s[0]))
    } else if prev matches Some(p) && is_lowerish(p) && is_upperish(s[0]) {
        seq!['_'] + char_lowercase(s[0]) + snake_from(s.drop_first(), Some(s[0]))
    } else {
        char_lowercase(s[0]) + snake_from(s.drop_first(), Some(s[0]))
    }
}

/// camelCase: word separators dropped; the first character of the result
/// lowercased, the first character of every later word uppercased, the
/// rest kept. `cap_next`: a separator came after some output; `started`:
/// something was output.
pub open spec fn camel_from(s: Seq<char>, cap_next: bool, started: bool) -> Seq<char>
    decreases s.len(),
{
    if s.len() == 0 {
        seq![]
    } else if is_word_sep(s[0]) {
        camel_from(s.drop_first(), started, started)
    } else if cap_next {
        char_uppercase(s[0]) + camel_from(s.drop_first(), false, true)
    } else if !started {
        char_lowercase(s[0]) + camel_from(s.drop_first(), false, true)
    } else {
        seq![s[0]] + camel_from(s.drop_first(), false, true)
    }
}

/// The text a transform mode turns `s` into.
pub open spec fn transform_text(mode: TransformMode, s: Seq<char>) -> Seq<char> {
    match mode {
        TransformMode::Upper => unicode_uppercase(s),
        TransformMode::Lower => unicode_lowercase(s),
        TransformMode::Title => title_from(s, true),
        TransformMode::SnakeCase => snake_from(s, None),
        TransformMode::CamelCase => camel_from(s, false, false),
    }
}

// ---------------------------------------------------------------------------
// Implementation
// ---------------------------------------------------------------------------

proof fn lemma_skip_step(s: Seq<char>, i: int)
    requires
        0 <= i < s.len(),
    ensures
        s.skip(i).drop_first() == s.skip(i + 1),
        s.skip(i)[0] == s[i],
        s.skip(i).len() > 0,
{
    assert(s.skip(i).drop_first() =~= s.skip(i + 1));
}

fn is_word_sep_char(c: char) -> (r: bool)
    ensures
        r == is_word_sep(c),
{
    c == '-' || c == '_' || is_whitespace_char(c)
}

fn title_chars(s: &Vec<char>) -> (out: Vec<char>)
    ensures
        out@ == title_from(s@, true),
{
    let mut out: Vec<char> = Vec::new();
    let mut at_start = true;
    let mut i: usize = 0;
    assert(s@.skip(0) =~= s@);
    while i < s.len()
        invariant
            i <= s.len(),
            out@ + title_from(s@.skip(i as int), at_start) == title_from(s@, true),
        decreases s.len() - i,
    {
        proof {
            lemma_skip_step(s@, i as int);
        }
        let ghost before = out@;
        let ghost rest = s@.skip(i + 1);
        let c = s[i];
        if is_whitespace_char(c) {
            out.push(c);
            at_start = true;
            assert(before + (seq![c] + title_from(rest, true)) =~= out@ + title_from(rest, true));
        } else {
            let m = if at_start {
                upper_of_char(c)
            } else {
                lower_of_char(c)
            };
            let mv = chars_of(m.as_str());
            out.extend_from_slice(mv.as_slice());
            at_start = false;
            assert(before + (mv@ + title_from(rest, false)) =~= out@ + title_from(rest, false));
        }
        i += 1;
    }
    assert(s@.skip(i as int) =~= Seq::<char>::empty());
    assert(out@ + Seq::<char>::empty() =~= out@);
    out
}

fn snake_chars(s: &Vec<char>) -> (out: Vec<char>)
    ensures
        out@ == snake_from(s@, None),
{
    let mut out: Vec<char> = Vec::new();
    let mut prev: Option<char> = None;
    let mut i: usize = 0;
    assert(s@.skip(0) =~= s@);
    while i < s.len()
        invariant
            i <= s.len(),
            out@ + snake_from(s@.skip(i as int), prev) == snake_from(s@, None),
        decreases s.len() - i,
    {
        proof {
            lemma_skip_step(s@, i as int);
        }
        let ghost before = out@;
        let ghost rest = s@.skip(i + 1);
        let c = s[i];
        if is_word_sep_char(c) {
            out.push('_');
            assert(before + (seq!['_'] + snake_from(rest, Some(c))) =~= out@ + snake_from(
                rest,
                Some(c),
            ));
        } else {
            let low = lower_of_char(c);
            let lv = chars_of(low.as_str());
            let boundary = match prev {
                Some(p) => {
                    let pu = upper_of_char(p);
                    let pv = chars_of(pu.as_str());
                    let p_lower = !(pv.len() == 1 && pv[0] == p);
                    let c_upper = !(lv.len() == 1 && lv[0] == c);
                    proof {
                        if pv@ == seq![p] {
                            assert(pv.len() == 1 && pv@[0] == p);
                        }
                        if pv.len() == 1 && pv@[0] == p {
                            assert(pv@ =~= seq![p]);
                        }
                        if lv@ == seq![c] {
                            assert(lv.len() == 1 && lv@[0] == c);
                        }
                        if lv.len() == 1 && lv@[0] == c {
                            assert(lv@ =~= seq![c]);
                        }
                    }
                    p_lower && c_upper
                },
                None => false,
            };
            if boundary {
                out.push('_');
                out.extend_from_slice(lv.as_slice());
                assert(before + (seq!['_'] + lv@ + snake_from(rest, Some(c))) =~= out@
                    + snake_from(rest, Some(c)));
            } else {
                out.extend_from_slice(lv.as_slice());
                assert(before + (lv@ + snake_from(rest, Some(c))) =~= out@ + snake_from(
                    rest,
                    Some(c),
                ));
            }
        }
        prev = Some(c);
        i += 1;
    }
    assert(s@.skip(i as int) =~= Seq::<char>::empty());
    assert(out@ + Seq::<char>::empty() =~= out@);
    out
}

fn camel_chars(s: &Vec<char>) -> (out: Vec<char>)
    ensures
        out@ == camel_from(s@, false, false),
{
    let mut out: Vec<char> = Vec::new();
    let mut cap_next = false;
    let mut started = false;
    let mut i: usize = 0;
    assert(s@.skip(0) =~= s@);
    while i < s.len()
        invariant
            i <= s.len(),
            out@ + camel_from(s@.skip(i as int), cap_next, started) == camel_from(
                s@,
                false,
                false,
            ),
        decreases s.len() - i,
    {
        proof {
            lemma_skip_step(s@, i as int);
        }
        let ghost before = out@;
        let ghost rest = s@.skip(i + 1);
        let c = s[i];
        if is_word_sep_char(c) {
            cap_next = started;
        } else if cap_next {
            let u = upper_of_char(c);
            let uv = chars_of(u.as_str());
            out.extend_from_slice(uv.as_slice());
            cap_next = false;
            started = true;
            assert(before + (uv@ + camel_from(rest, false, true)) =~= out@ + camel_from(
                rest,
                false,
                true,
            ));
        } else if !started {
            let l = lower_of_char(c);
            let lv = chars_of(l.as_str());
            out.extend_from_slice(lv.as_slice());
            started = true;
            assert(before + (lv@ + camel_from(rest, false, true)) =~= out@ + camel_from(
                rest,
                false,
                true,
            ));
        } else {
            out.push(c);
            assert(before + (seq![c] + camel_from(rest, false, true)) =~= out@ + camel_from(
                rest,
                false,
                true,
            ));
        }
        i += 1;
    }
    assert(s@.skip(i as int) =~= Seq::<char>::empty());
    assert(out@ + Seq::<char>::empty() =~= out@);
    out
}

/// The text a transform mode turns `s` into.
pub fn transform_str(mode: TransformMode, s: &str) -> (r: String)
    ensures
        r@ == transform_text(mode, s@),
{
    match mode {
        TransformMode::Upper => uppercase(s),
        TransformMode::Lower => lowercase(s),
        TransformMode::Title => {
            let v = chars_of(s);
            string_from_chars(&title_chars(&v))
        },
        TransformMode::SnakeCase => {
            let v = chars_of(s);
            string_from_chars(&snake_chars(&v))
        },
        TransformMode::CamelCase => {
            let v = chars_of(s);
            string_from_chars(&camel_chars(&v))
        },
    }
}

} // verus!
