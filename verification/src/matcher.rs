//! Literal and regular-expression matching of single lines.
//!
//! Literal, case-sensitive patterns are searched for and replaced here, with
//! the semantics of `str::contains` and `str::replace`. Regular expressions
//! and case-insensitive literals are handed to the `regex` crate: the
//! matcher keeps the source of the compiled expression, and each search or
//! replacement runs that source through `regex`.
use vstd::prelude::*;
use vstd::string::*;

use crate::error::{is_invalid_regex_report, RipsedError};
use crate::case::{transform_str, transform_text};
use crate::operation::{Op, TransformMode};
use crate::text::{
    chars_of, contains_chars, contains_seq, owned, replace_all, replace_chars, string_from_chars,
};

verus! {

// ---------------------------------------------------------------------------
// The regex crate
// ---------------------------------------------------------------------------

/// A regex meta character, as `regex_syntax::is_meta_character` lists them.
pub open spec fn is_regex_meta(c: char) -> bool {
    c == '\\' || c == '.' || c == '+' || c == '*' || c == '?' || c == '(' || c == ')' || c == '|'
        || c == '[' || c == ']' || c == '{' || c == '}' || c == '^' || c == '$' || c == '#' || c
        == '&' || c == '-' || c == '~'
}

/// What `regex::escape` returns for a pattern: every meta character
/// preceded by a backslash, every other character kept.
pub open spec fn regex_escaped(pattern: Seq<char>) -> Seq<char>
    decreases pattern.len(),
{
    if pattern.len() == 0 {
        seq![]
    } else {
        (if is_regex_meta(pattern[0]) {
            seq!['\\', pattern[0]]
        } else {
            seq![pattern[0]]
        }) + regex_escaped(pattern.drop_first())
    }
}

/// Whether `regex::Regex::new` accepts a pattern.
pub uninterp spec fn regex_compiles(pattern: Seq<char>) -> bool;

/// The text of the `regex::Error` that `regex::Regex::new` gives for a
/// pattern it refuses.
pub uninterp spec fn regex_error_text(pattern: Seq<char>) -> Seq<char>;

/// Whether the regex compiled from a pattern matches somewhere in a haystack.
pub uninterp spec fn regex_is_match(pattern: Seq<char>, haystack: Seq<char>) -> bool;

/// What `replace_all` of the regex compiled from a pattern gives for a
/// haystack and a replacement template (with `$name` expansion).
pub uninterp spec fn regex_replaced(
    pattern: Seq<char>,
    haystack: Seq<char>,
    replacement: Seq<char>,
) -> Seq<char>;

/// Calls `regex::escape`, which puts a backslash before every regex meta
/// character of the pattern.
#[verifier::external_body]
fn regex_escape(pattern: &str) -> (r: String)
    ensures
        r@ == regex_escaped(pattern@),
{
    regex::escape(pattern)
}

/// Calls `regex::Regex::new` and returns `None` when it succeeds, or the
/// error's text when it fails. Which patterns compile is named, not stated.
#[verifier::external_body]
fn regex_compile_error(pattern: &str) -> (r: Option<String>)
    ensures
        r is None <==> regex_compiles(pattern@),
        r matches Some(m) ==> m@ == regex_error_text(pattern@),
{
    match regex::Regex::new(pattern) {
        Ok(_) => None,
        Err(e) => Some(e.to_string()),
    }
}

/// Compiles the pattern with `regex::Regex::new` and calls `Regex::is_match`
/// on the haystack; a pattern that does not compile matches nothing.
#[verifier::external_body]
fn regex_search(pattern: &str, haystack: &str) -> (r: bool)
    ensures
        r == (regex_compiles(pattern@) && regex_is_match(pattern@, haystack@)),
{
    match regex::Regex::new(pattern) {
        Ok(re) => re.is_match(haystack),
        Err(_) => false,
    }
}

/// Compiles the pattern with `regex::Regex::new` and calls
/// `Regex::replace_all` with the replacement template; `None` when the
/// pattern does not compile.
#[verifier::external_body]
fn regex_replace(pattern: &str, haystack: &str, replacement: &str) -> (r: Option<String>)
    ensures
        r is Some <==> regex_compiles(pattern@),
        r matches Some(s) ==> s@ == regex_replaced(pattern@, haystack@, replacement@),
{
    match regex::Regex::new(pattern) {
        Ok(re) => Some(re.replace_all(haystack, replacement).into_owned()),
        Err(_) => None,
    }
}

/// What `Regex::replace_all` of the regex compiled from a pattern gives
/// for a haystack when every match is replaced by its text transformed
/// with `transform_str` in the given mode.
pub uninterp spec fn regex_transformed(
    pattern: Seq<char>,
    haystack: Seq<char>,
    mode: TransformMode,
) -> Seq<char>;

/// Compiles the pattern with `regex::Regex::new` and calls
/// `Regex::replace_all` with a closure that hands each match's text to
/// `transform_str`; `None` when the pattern does not compile.
#[verifier::external_body]
fn regex_transform(pattern: &str, haystack: &str, mode: TransformMode) -> (r: Option<String>)
    ensures
        r is Some <==> regex_compiles(pattern@),
        r matches Some(s) ==> s@ == regex_transformed(pattern@, haystack@, mode),
{
    match regex::Regex::new(pattern) {
        Ok(re) => Some(
            re.replace_all(haystack, |caps: &regex::Captures| transform_str(mode, &caps[0]))
                .into_owned(),
        ),
        Err(_) => None,
    }
}

// ---------------------------------------------------------------------------
// The matcher
// ---------------------------------------------------------------------------

/// Abstraction over literal and regex matching.
#[derive(Debug)]
pub enum Matcher {
    /// A case-sensitive literal pattern.
    Literal { pattern: String, case_insensitive: bool },
    /// The source of a regular expression (one that compiles, when built by
    /// `Matcher::new`). It backs explicit regex patterns and case-insensitive
    /// literals (escaped, with `(?i)`); a source that does not compile
    /// matches nothing.
    Regex(String),
}

/// The regex source built for an operation's pattern: the pattern itself
/// for a regex, its escaped form for a literal, and `(?i)` in front when
/// matching ignores case.
pub open spec fn spec_regex_source(op: Op) -> Seq<char> {
    let base = if op.spec_regex() {
        op.spec_find()
    } else {
        regex_escaped(op.spec_find())
    };
    if op.spec_case_insensitive() {
        "(?i)"@ + base
    } else {
        base
    }
}

impl Matcher {
    /// A regex matcher holds a source that compiles.
    pub open spec fn wf(&self) -> bool {
        match self {
            Matcher::Regex(src) => regex_compiles(src@),
            Matcher::Literal { .. } => true,
        }
    }

    /// Whether the matcher matches somewhere in `text`.
    pub open spec fn spec_is_match(&self, text: Seq<char>) -> bool {
        match self {
            Matcher::Literal { pattern, .. } => contains_seq(text, pattern@),
            Matcher::Regex(src) => regex_compiles(src@) && regex_is_match(src@, text),
        }
    }

    /// Every match in `text` replaced by `replacement`, or `None` when there
    /// is no match.
    pub open spec fn spec_replace(&self, text: Seq<char>, replacement: Seq<char>) -> Option<
        Seq<char>,
    > {
        if !self.spec_is_match(text) {
            None
        } else {
            match self {
                Matcher::Literal { pattern, .. } => Some(replace_all(text, pattern@, replacement)),
                Matcher::Regex(src) => Some(regex_replaced(src@, text, replacement)),
            }
        }
    }

    /// Every match in `text` replaced by its transformed text, or `None`
    /// when there is no match.
    pub open spec fn spec_transform(&self, text: Seq<char>, mode: TransformMode) -> Option<
        Seq<char>,
    > {
        if !self.spec_is_match(text) {
            None
        } else {
            match self {
                Matcher::Literal { pattern, .. } => Some(
                    replace_all(text, pattern@, transform_text(mode, pattern@)),
                ),
                Matcher::Regex(src) => Some(regex_transformed(src@, text, mode)),
            }
        }
    }

    /// Create a new matcher from an operation: a literal matcher for a
    /// case-sensitive literal, otherwise a regex matcher, refused with an
    /// `invalid_regex` error when the source does not compile. The error
    /// names no operation index; the caller, which knows it, fills it in.
    pub fn new(op: &Op) -> (r: Result<Self, RipsedError>)
        ensures
            !op.spec_regex() && !op.spec_case_insensitive() ==> (r matches Ok(m) && (m matches Matcher::Literal { pattern, case_insensitive } && pattern@ == op.spec_find()
                && !case_insensitive)),
            (op.spec_regex() || op.spec_case_insensitive()) && regex_compiles(
                spec_regex_source(*op),
            ) ==> (r matches Ok(m) && (m matches Matcher::Regex(src) && src@ == spec_regex_source(
                *op,
            ))),
            (op.spec_regex() || op.spec_case_insensitive()) && !regex_compiles(
                spec_regex_source(*op),
            ) ==> (r matches Err(e) && e.operation_index is None && is_invalid_regex_report(
                e,
                op.spec_find(),
                regex_error_text(spec_regex_source(*op)),
            )),
            r matches Ok(m) ==> m.wf(),
    {
        let pattern = op.find_pattern();
        let is_regex = op.is_regex();
        let case_insensitive = op.is_case_insensitive();
        if is_regex || case_insensitive {
            let re_src = if is_regex {
                owned(pattern)
            } else {
                regex_escape(pattern)
            };
            let re_pattern = if case_insensitive {
                let mut s = owned("(?i)");
                s.append(re_src.as_str());
                s
            } else {
                re_src
            };
            match regex_compile_error(re_pattern.as_str()) {
                None => Ok(Matcher::Regex(re_pattern)),
                Some(msg) => {
                    // The matcher does not know which operation it serves:
                    // the caller fills the index in.
                    let mut e = RipsedError::invalid_regex(0, pattern, msg.as_str());
                    e.operation_index = None;
                    Err(e)
                },
            }
        } else {
            Ok(Matcher::Literal { pattern: owned(pattern), case_insensitive: false })
        }
    }

    /// Check if the given text matches.
    pub fn is_match(&self, text: &str) -> (r: bool)
        ensures
            r == self.spec_is_match(text@),
    {
        match self {
            Matcher::Literal { pattern, .. } => {
                let t = chars_of(text);
                let p = chars_of(pattern.as_str());
                contains_chars(&t, &p)
            },
            Matcher::Regex(src) => regex_search(src.as_str(), text),
        }
    }

    /// Replace all matches in the given text. Returns None if no matches.
    pub fn replace(&self, text: &str, replacement: &str) -> (r: Option<String>)
        ensures
            r matches Some(s) ==> self.spec_replace(text@, replacement@) == Some(s@),
            r is None ==> self.spec_replace(text@, replacement@) is None,
    {
        match self {
            Matcher::Literal { pattern, .. } => {
                let t = chars_of(text);
                let p = chars_of(pattern.as_str());
                if contains_chars(&t, &p) {
                    let r = chars_of(replacement);
                    let out = replace_chars(&t, &p, &r);
                    Some(string_from_chars(&out))
                } else {
                    None
                }
            },
            Matcher::Regex(src) => {
                if regex_search(src.as_str(), text) {
                    regex_replace(src.as_str(), text, replacement)
                } else {
                    None
                }
            },
        }
    }

    /// Transform the case of every match in the given text. Returns None if
    /// no matches.
    pub fn transform(&self, text: &str, mode: TransformMode) -> (r: Option<String>)
        ensures
            r matches Some(s) ==> self.spec_transform(text@, mode) == Some(s@),
            r is None ==> self.spec_transform(text@, mode) is None,
    {
        match self {
            Matcher::Literal { pattern, .. } => {
                let t = chars_of(text);
                let p = chars_of(pattern.as_str());
                if contains_chars(&t, &p) {
                    let replacement = transform_str(mode, pattern.as_str());
                    let r = chars_of(replacement.as_str());
                    let out = replace_chars(&t, &p, &r);
                    Some(string_from_chars(&out))
                } else {
                    None
                }
            },
            Matcher::Regex(src) => {
                if regex_search(src.as_str(), text) {
                    regex_transform(src.as_str(), text, mode)
                } else {
                    None
                }
            },
        }
    }
}

} // verus!
