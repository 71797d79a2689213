//! `.rip` script files: one operation per line, written as on the command
//! line.
//!
//! A line is split into words at spaces and tabs. `"..."` quotes text in
//! which `\n`, `\t` and `\` before any other character are escapes; `'...'`
//! quotes text taken as it is; quoted and unquoted pieces that touch form
//! one word. A `#` that begins a word starts a comment running to the end of
//! the line. Lines with no words are skipped.
//!
//! The words of a line are the pattern, an optional replacement, and the
//! options `-e`/`--regex`, `-i`/`--case-insensitive`, `-d`/`--delete`,
//! `--after TEXT`, `--before TEXT`, `--replace-line TEXT`,
//! `--transform MODE`, `--surround PREFIX SUFFIX`, `--indent N`,
//! `--dedent N`, `--tabs` and `--glob GLOB` (which scopes that operation to
//! the files it matches).
use vstd::prelude::*;
use vstd::string::*;

use crate::cli::{parse_usize, spec_parse_usize};
use crate::operation::{spec_mode_from_name, spec_unknown_mode_message, Op, TransformMode};
use crate::text::{chars_of, decimal, decimal_string, owned, spec_lines, split_lines, str_eq, string_from_chars, string_views};

verus! {

// ---------------------------------------------------------------------------
// Words
// ---------------------------------------------------------------------------

/// Where the word splitter is within a line.
#[derive(Debug, Clone, Copy, PartialEq, Eq, Structural)]
pub enum Lex {
    /// Between words.
    Gap,
    /// Inside an unquoted piece of a word.
    Word,
    /// Inside double quotes.
    Double,
    /// Just after a backslash inside double quotes.
    DoubleEscape,
    /// Inside single quotes.
    Single,
    /// Inside a comment.
    Comment,
}

/// A space or a tab.
pub open spec fn is_gap(c: char) -> bool {
    c == ' ' || c == '\t'
}

/// The character a double-quoted escape stands for.
pub open spec fn escaped(c: char) -> char {
    if c == 'n' {
        '\n'
    } else if c == 't' {
        '\t'
    } else {
        c
    }
}

/// One step of the word splitter: the next state, the word being read, and
/// the word finished by this character, if any.
pub open spec fn lex_step(st: Lex, cur: Seq<char>, c: char) -> (Lex, Seq<char>, Option<Seq<char>>) {
    match st {
        Lex::Gap => if is_gap(c) {
            (Lex::Gap, cur, None)
        } else if c == '#' {
            (Lex::Comment, cur, None)
        } else if c == '"' {
            (Lex::Double, seq![], None)
        } else if c == '\'' {
            (Lex::Single, seq![], None)
        } else {
            (Lex::Word, seq![c], None)
        },
        Lex::Word => if is_gap(c) {
            (Lex::Gap, seq![], Some(cur))
        } else if c == '"' {
            (Lex::Double, cur, None)
        } else if c == '\'' {
            (Lex::Single, cur, None)
        } else {
            (Lex::Word, cur.push(c), None)
        },
        Lex::Double => if c == '"' {
            (Lex::Word, cur, None)
        } else if c == '\\' {
            (Lex::DoubleEscape, cur, None)
        } else {
            (Lex::Double, cur.push(c), None)
        },
        Lex::DoubleEscape => (Lex::Double, cur.push(escaped(c)), None),
        Lex::Single => if c == '\'' {
            (Lex::Word, cur, None)
        } else {
            (Lex::Single, cur.push(c), None)
        },
        Lex::Comment => (Lex::Comment, cur, None),
    }
}

/// The words of the rest `s` of a line, given the state, the word being
/// read and the words already read; `None` when a quote is left open.
pub open spec fn lex_from(s: Seq<char>, st: Lex, cur: Seq<char>, acc: Seq<Seq<char>>) -> Option<
    Seq<Seq<char>>,
>
    decreases s.len(),
{
    if s.len() == 0 {
        match st {
            Lex::Gap | Lex::Comment => Some(acc),
            Lex::Word => Some(acc.push(cur)),
            _ => None,
        }
    } else {
        let (st2, cur2, done) = lex_step(st, cur, s[0]);
        lex_from(
            s.drop_first(),
            st2,
            cur2,
            match done {
                Some(w) => acc.push(w),
                None => acc,
            },
        )
    }
}

/// The words of a line, or `None` when a quote is left open.
pub open spec fn line_words(line: Seq<char>) -> Option<Seq<Seq<char>>> {
    lex_from(line, Lex::Gap, seq![], seq![])
}

proof fn lemma_lex_from_step(s: Seq<char>, i: int, st: Lex, cur: Seq<char>, acc: Seq<Seq<char>>)
    requires
        0 <= i < s.len(),
    ensures
        lex_from(s.skip(i), st, cur, acc) == ({
            let (st2, cur2, done) = lex_step(st, cur, s[i]);
            lex_from(
                s.skip(i + 1),
                st2,
                cur2,
                match done {
                    Some(w) => acc.push(w),
                    None => acc,
                },
            )
        }),
{
    assert(s.skip(i).drop_first() =~= s.skip(i + 1));
    assert(s.skip(i)[0] == s[i]);
}

/// The words of a line, or `None` when a quote is left open.
pub fn split_words(line: &str) -> (r: Option<Vec<String>>)
    ensures
        match line_words(line@) {
            Some(ws) => r matches Some(v) && string_views(v@) == ws,
            None => r is None,
        },
{
    let s = chars_of(line);
    let mut words: Vec<String> = Vec::new();
    let mut cur: Vec<char> = Vec::new();
    let mut st = Lex::Gap;
    let mut i: usize = 0;
    assert(s@.skip(0) =~= s@);
    assert(string_views(words@) =~= Seq::<Seq<char>>::empty());
    while i < s.len()
        invariant
            s@ == line@,
            i <= s.len(),
            lex_from(s@.skip(i as int), st, cur@, string_views(words@)) == line_words(line@),
        decreases s.len() - i,
    {
        proof {
            lemma_lex_from_step(s@, i as int, st, cur@, string_views(words@));
        }
        let c = s[i];
        let ghost before = words@;
        let gap = c == ' ' || c == '\t';
        match st {
            Lex::Gap => {
                if gap {
                } else if c == '#' {
                    st = Lex::Comment;
                } else if c == '"' {
                    st = Lex::Double;
                    cur = Vec::new();
                } else if c == '\'' {
                    st = Lex::Single;
                    cur = Vec::new();
                } else {
                    st = Lex::Word;
                    cur = Vec::new();
                    cur.push(c);
                    assert(cur@ =~= seq![c]);
                }
            },
            Lex::Word => {
                if gap {
                    let w = string_from_chars(&cur);
                    words.push(w);
                    assert(string_views(words@) =~= string_views(before).push(w@));
                    st = Lex::Gap;
                    cur = Vec::new();
                } else if c == '"' {
                    st = Lex::Double;
                } else if c == '\'' {
                    st = Lex::Single;
                } else {
                    cur.push(c);
                }
            },
            Lex::Double => {
                if c == '"' {
                    st = Lex::Word;
                } else if c == '\\' {
                    st = Lex::DoubleEscape;
                } else {
                    cur.push(c);
                }
            },
            Lex::DoubleEscape => {
                let e = if c == 'n' {
                    '\n'
                } else if c == 't' {
                    '\t'
                } else {
                    c
                };
                cur.push(e);
                st = Lex::Double;
            },
            Lex::Single => {
                if c == '\'' {
                    st = Lex::Word;
                } else {
                    cur.push(c);
                }
            },
            Lex::Comment => {},
        }
        i += 1;
    }
    assert(s@.skip(i as int) =~= Seq::<char>::empty());
    match st {
        Lex::Gap | Lex::Comment => Some(words),
        Lex::Word => {
            let w = string_from_chars(&cur);
            let ghost before = words@;
            words.push(w);
            assert(string_views(words@) =~= string_views(before).push(w@));
            Some(words)
        },
        _ => None,
    }
}

// ---------------------------------------------------------------------------
// Options
// ---------------------------------------------------------------------------

/// The words of a line, sorted into pattern, replacement and options.
pub struct ArgsSpec {
    pub pos: Seq<Seq<char>>,
    pub regex: bool,
    pub ci: bool,
    pub delete: bool,
    pub tabs: bool,
    pub after: Option<Seq<char>>,
    pub before: Option<Seq<char>>,
    pub replace_line: Option<Seq<char>>,
    pub glob: Option<Seq<char>>,
    pub transform: Option<Seq<char>>,
    pub surround: Option<(Seq<char>, Seq<char>)>,
    pub indent: Option<Seq<char>>,
    pub dedent: Option<Seq<char>>,
}

/// The words of a line, sorted into pattern, replacement and options.
pub struct ScriptArgs {
    pub pos: Vec<String>,
    pub regex: bool,
    pub ci: bool,
    pub delete: bool,
    pub tabs: bool,
    pub after: Option<String>,
    pub before: Option<String>,
    pub replace_line: Option<String>,
    pub glob: Option<String>,
    pub transform: Option<String>,
    pub surround: Option<(String, String)>,
    pub indent: Option<String>,
    pub dedent: Option<String>,
}

/// The view of an optional string.
pub open spec fn opt_seq(o: Option<String>) -> Option<Seq<char>> {
    match o {
        Some(s) => Some(s@),
        None => None,
    }
}

impl View for ScriptArgs {
    type V = ArgsSpec;

    open spec fn view(&self) -> ArgsSpec {
        ArgsSpec {
            pos: string_views(self.pos@),
            regex: self.regex,
            ci: self.ci,
            delete: self.delete,
            tabs: self.tabs,
            after: opt_seq(self.after),
            before: opt_seq(self.before),
            replace_line: opt_seq(self.replace_line),
            glob: opt_seq(self.glob),
            transform: opt_seq(self.transform),
            surround: match self.surround {
                Some((p, q)) => Some((p@, q@)),
                None => None,
            },
            indent: opt_seq(self.indent),
            dedent: opt_seq(self.dedent),
        }
    }
}

/// No words read yet.
pub open spec fn no_args() -> ArgsSpec {
    ArgsSpec {
        pos: seq![],
        regex: false,
        ci: false,
        delete: false,
        tabs: false,
        after: None,
        before: None,
        replace_line: None,
        glob: None,
        transform: None,
        surround: None,
        indent: None,
        dedent: None,
    }
}

/// A word that names a long option (it begins with `--`).
pub open spec fn is_long_option(w: Seq<char>) -> bool {
    w.len() >= 2 && w[0] == '-' && w[1] == '-'
}

/// The error for an option given without its value.
pub open spec fn missing_value_message(w: Seq<char>) -> Seq<char> {
    "option '"@ + w + "' needs a value"@
}

/// The error for an option that does not exist.
pub open spec fn unknown_option_message(w: Seq<char>) -> Seq<char> {
    "unknown option '"@ + w + "'"@
}

/// An option that takes no value.
pub open spec fn is_flag(w: Seq<char>) -> bool {
    w == "-e"@ || w == "--regex"@ || w == "-i"@ || w == "--case-insensitive"@ || w == "-d"@ || w
        == "--delete"@ || w == "--tabs"@
}

/// `a` with the flag `w` set.
pub open spec fn with_flag(a: ArgsSpec, w: Seq<char>) -> ArgsSpec {
    if w == "-e"@ || w == "--regex"@ {
        ArgsSpec { regex: true, ..a }
    } else if w == "-i"@ || w == "--case-insensitive"@ {
        ArgsSpec { ci: true, ..a }
    } else if w == "-d"@ || w == "--delete"@ {
        ArgsSpec { delete: true, ..a }
    } else {
        ArgsSpec { tabs: true, ..a }
    }
}

/// An option that takes one value.
pub open spec fn is_value_option(w: Seq<char>) -> bool {
    w == "--after"@ || w == "--before"@ || w == "--replace-line"@ || w == "--glob"@ || w
        == "--transform"@ || w == "--indent"@ || w == "--dedent"@
}

/// `a` with the option `w` given the value `v`.
pub open spec fn with_value(a: ArgsSpec, w: Seq<char>, v: Seq<char>) -> ArgsSpec {
    if w == "--after"@ {
        ArgsSpec { after: Some(v), ..a }
    } else if w == "--before"@ {
        ArgsSpec { before: Some(v), ..a }
    } else if w == "--replace-line"@ {
        ArgsSpec { replace_line: Some(v), ..a }
    } else if w == "--glob"@ {
        ArgsSpec { glob: Some(v), ..a }
    } else if w == "--transform"@ {
        ArgsSpec { transform: Some(v), ..a }
    } else if w == "--indent"@ {
        ArgsSpec { indent: Some(v), ..a }
    } else {
        ArgsSpec { dedent: Some(v), ..a }
    }
}

/// Sorting the words from position `i` on into `a`; a later option of the
/// same kind replaces an earlier one.
pub open spec fn args_from(ws: Seq<Seq<char>>, i: int, a: ArgsSpec) -> Result<ArgsSpec, Seq<char>>
    decreases ws.len() - i,
{
    if i < 0 || i >= ws.len() {
        Ok(a)
    } else {
        let w = ws[i];
        if is_flag(w) {
            args_from(ws, i + 1, with_flag(a, w))
        } else if is_value_option(w) {
            if i + 1 < ws.len() {
                args_from(ws, i + 2, with_value(a, w, ws[i + 1]))
            } else {
                Err(missing_value_message(w))
            }
        } else if w == "--surround"@ {
            if i + 2 < ws.len() {
                args_from(ws, i + 3, ArgsSpec { surround: Some((ws[i + 1], ws[i + 2])), ..a })
            } else {
                Err(missing_value_message(w))
            }
        } else if is_long_option(w) {
            Err(unknown_option_message(w))
        } else {
            args_from(ws, i + 1, ArgsSpec { pos: a.pos.push(w), ..a })
        }
    }
}

fn message_with(head: &str, w: &str, tail: &str) -> (r: String)
    ensures
        r@ == head@ + w@ + tail@,
{
    let mut r = owned(head);
    r.append(w);
    r.append(tail);
    r
}

fn is_long_option_str(w: &str) -> (r: bool)
    ensures
        r == is_long_option(w@),
{
    let v = chars_of(w);
    v.len() >= 2 && v[0] == '-' && v[1] == '-'
}

fn set_flag(a: &mut ScriptArgs, w: &str)
    requires
        is_flag(w@),
    ensures
        final(a)@ == with_flag(old(a)@, w@),
{
    if str_eq(w, "-e") || str_eq(w, "--regex") {
        a.regex = true;
    } else if str_eq(w, "-i") || str_eq(w, "--case-insensitive") {
        a.ci = true;
    } else if str_eq(w, "-d") || str_eq(w, "--delete") {
        a.delete = true;
    } else {
        a.tabs = true;
    }
}

fn set_value(a: &mut ScriptArgs, w: &str, v: String)
    requires
        is_value_option(w@),
    ensures
        final(a)@ == with_value(old(a)@, w@, v@),
{
    if str_eq(w, "--after") {
        a.after = Some(v);
    } else if str_eq(w, "--before") {
        a.before = Some(v);
    } else if str_eq(w, "--replace-line") {
        a.replace_line = Some(v);
    } else if str_eq(w, "--glob") {
        a.glob = Some(v);
    } else if str_eq(w, "--transform") {
        a.transform = Some(v);
    } else if str_eq(w, "--indent") {
        a.indent = Some(v);
    } else {
        a.dedent = Some(v);
    }
}

fn flag_word(w: &str) -> (r: bool)
    ensures
        r == is_flag(w@),
{
    str_eq(w, "-e") || str_eq(w, "--regex") || str_eq(w, "-i") || str_eq(w, "--case-insensitive")
        || str_eq(w, "-d") || str_eq(w, "--delete") || str_eq(w, "--tabs")
}

fn value_option_word(w: &str) -> (r: bool)
    ensures
        r == is_value_option(w@),
{
    str_eq(w, "--after") || str_eq(w, "--before") || str_eq(w, "--replace-line") || str_eq(
        w,
        "--glob",
    ) || str_eq(w, "--transform") || str_eq(w, "--indent") || str_eq(w, "--dedent")
}

/// One step of sorting: reads the word at `i` (and its values) into `a`,
/// and returns where the next word is.
fn args_step(words: &Vec<String>, i: usize, a: &mut ScriptArgs) -> (r: Result<usize, String>)
    requires
        i < words.len(),
    ensures
        match r {
            Ok(j) => i < j <= words.len() && args_from(string_views(words@), i as int, old(a)@)
                == args_from(string_views(words@), j as int, final(a)@),
            Err(e) => args_from(string_views(words@), i as int, old(a)@) == Err::<ArgsSpec, Seq<char>>(e@),
        },
{
    let ghost ws = string_views(words@);
    let n = words.len();
    let w = words[i].as_str();
    assert(w@ == ws[i as int]);
    if flag_word(w) {
        set_flag(a, w);
        Ok(i + 1)
    } else if value_option_word(w) {
        if n - i < 2 {
            return Err(message_with("option '", w, "' needs a value"));
        }
        let v = words[i + 1].clone();
        assert(v@ == ws[i + 1]);
        set_value(a, w, v);
        Ok(i + 2)
    } else if str_eq(w, "--surround") {
        if n - i < 3 {
            return Err(message_with("option '", w, "' needs a value"));
        }
        let p = words[i + 1].clone();
        let q = words[i + 2].clone();
        assert(p@ == ws[i + 1]);
        assert(q@ == ws[i + 2]);
        a.surround = Some((p, q));
        Ok(i + 3)
    } else if is_long_option_str(w) {
        Err(message_with("unknown option '", w, "'"))
    } else {
        let ghost before = a.pos@;
        a.pos.push(owned(w));
        assert(string_views(a.pos@) =~= string_views(before).push(w@));
        Ok(i + 1)
    }
}

/// Sort the words of a line into pattern, replacement and options.
pub fn parse_args(words: &Vec<String>) -> (r: Result<ScriptArgs, String>)
    ensures
        match args_from(string_views(words@), 0, no_args()) {
            Ok(a) => r matches Ok(x) && x@ == a,
            Err(m) => r matches Err(e) && e@ == m,
        },
{
    let ghost ws = string_views(words@);
    let mut a = ScriptArgs {
        pos: Vec::new(),
        regex: false,
        ci: false,
        delete: false,
        tabs: false,
        after: None,
        before: None,
        replace_line: None,
        glob: None,
        transform: None,
        surround: None,
        indent: None,
        dedent: None,
    };
    assert(string_views(a.pos@) =~= Seq::<Seq<char>>::empty());
    assert(a@ == no_args());
    let n = words.len();
    let mut i: usize = 0;
    while i < n
        invariant
            n == words.len(),
            ws == string_views(words@),
            i <= n,
            args_from(ws, i as int, a@) == args_from(ws, 0, no_args()),
        decreases n - i,
    {
        match args_step(words, i, &mut a) {
            Ok(j) => {
                i = j;
            },
            Err(e) => {
                return Err(e);
            },
        }
    }
    Ok(a)
}

// ---------------------------------------------------------------------------
// Operations
// ---------------------------------------------------------------------------

/// The kind of operation a line asks for.
#[derive(Debug, Clone, Copy, PartialEq, Eq, Structural)]
pub enum ScriptKind {
    Delete,
    InsertAfter,
    InsertBefore,
    ReplaceLine,
    Transform,
    Surround,
    Indent,
    Dedent,
    Replace,
}

/// The kind of operation: the first of delete, after, before,
/// replace-line, transform, surround, indent and dedent that is given,
/// else a replace.
pub open spec fn spec_kind(a: ArgsSpec) -> ScriptKind {
    if a.delete {
        ScriptKind::Delete
    } else if a.after is Some {
        ScriptKind::InsertAfter
    } else if a.before is Some {
        ScriptKind::InsertBefore
    } else if a.replace_line is Some {
        ScriptKind::ReplaceLine
    } else if a.transform is Some {
        ScriptKind::Transform
    } else if a.surround is Some {
        ScriptKind::Surround
    } else if a.indent is Some {
        ScriptKind::Indent
    } else if a.dedent is Some {
        ScriptKind::Dedent
    } else {
        ScriptKind::Replace
    }
}

/// What is wrong with a line's words, if anything: no pattern, more than a
/// pattern and a replacement, a replacement for an operation other than a
/// replace, an unknown transform mode, or an amount that is not a number.
pub open spec fn args_error(a: ArgsSpec) -> Option<Seq<char>> {
    let k = spec_kind(a);
    if a.pos.len() == 0 {
        Some("missing pattern"@)
    } else if a.pos.len() > 2 {
        Some("too many arguments"@)
    } else if a.pos.len() == 2 && k != ScriptKind::Replace {
        Some("only a replace takes a replacement"@)
    } else if k == ScriptKind::Transform && spec_mode_from_name(a.transform->0) is None {
        Some(spec_unknown_mode_message(a.transform->0))
    } else if k == ScriptKind::Indent && spec_parse_usize(a.indent->0) is None {
        Some("invalid amount '"@ + a.indent->0 + "'"@)
    } else if k == ScriptKind::Dedent && spec_parse_usize(a.dedent->0) is None {
        Some("invalid amount '"@ + a.dedent->0 + "'"@)
    } else {
        None
    }
}

/// One operation of a script, with the glob that scopes it.
#[derive(Debug, Clone)]
pub struct ScriptOp {
    pub op: Op,
    pub glob: Option<String>,
}

/// A parsed script.
#[derive(Debug, Clone)]
pub struct Script {
    pub operations: Vec<ScriptOp>,
}

/// `s` is the operation a line's (error-free) words ask for.
pub open spec fn is_script_op(a: ArgsSpec, s: ScriptOp) -> bool {
    let find = a.pos[0];
    &&& opt_seq(s.glob) == a.glob
    &&& s.op.spec_find() == find
    &&& s.op.spec_regex() == a.regex
    &&& s.op.spec_case_insensitive() == a.ci
    &&& match spec_kind(a) {
        ScriptKind::Delete => s.op is Delete,
        ScriptKind::InsertAfter => s.op matches Op::InsertAfter { content, .. } && content@
            == a.after->0,
        ScriptKind::InsertBefore => s.op matches Op::InsertBefore { content, .. } && content@
            == a.before->0,
        ScriptKind::ReplaceLine => s.op matches Op::ReplaceLine { content, .. } && content@
            == a.replace_line->0,
        ScriptKind::Transform => s.op matches Op::Transform { mode, .. } && spec_mode_from_name(
            a.transform->0,
        ) == Some(mode),
        ScriptKind::Surround => s.op matches Op::Surround { prefix, suffix, .. } && prefix@
            == (a.surround->0).0 && suffix@ == (a.surround->0).1,
        ScriptKind::Indent => s.op matches Op::Indent { amount, use_tabs, .. }
            && spec_parse_usize(a.indent->0) == Some(amount as nat) && use_tabs == a.tabs,
        ScriptKind::Dedent => s.op matches Op::Dedent { amount, use_tabs, .. }
            && spec_parse_usize(a.dedent->0) == Some(amount as nat) && use_tabs == a.tabs,
        ScriptKind::Replace => s.op matches Op::Replace { replace, .. } && replace@ == if a.pos.len()
            == 2 {
            a.pos[1]
        } else {
            Seq::<char>::empty()
        },
    }
}

fn kind_of(a: &ScriptArgs) -> (k: ScriptKind)
    ensures
        k == spec_kind(a@),
{
    if a.delete {
        ScriptKind::Delete
    } else if a.after.is_some() {
        ScriptKind::InsertAfter
    } else if a.before.is_some() {
        ScriptKind::InsertBefore
    } else if a.replace_line.is_some() {
        ScriptKind::ReplaceLine
    } else if a.transform.is_some() {
        ScriptKind::Transform
    } else if a.surround.is_some() {
        ScriptKind::Surround
    } else if a.indent.is_some() {
        ScriptKind::Indent
    } else if a.dedent.is_some() {
        ScriptKind::Dedent
    } else {
        ScriptKind::Replace
    }
}

fn parse_amount(s: &str) -> (r: Option<usize>)
    ensures
        match spec_parse_usize(s@) {
            Some(v) => r == Some(v as usize),
            None => r is None,
        },
{
    let v = chars_of(s);
    assert(v@.subrange(0, v.len() as int) =~= v@);
    parse_usize(&v, 0, v.len())
}

/// The operation a line's words ask for, or what is wrong with them.
pub fn script_op_from_args(a: ScriptArgs) -> (r: Result<ScriptOp, String>)
    ensures
        match args_error(a@) {
            Some(m) => r matches Err(e) && e@ == m,
            None => r matches Ok(s) && is_script_op(a@, s),
        },
{
    let k = kind_of(&a);
    let n = a.pos.len();
    if n == 0 {
        return Err(owned("missing pattern"));
    }
    if n > 2 {
        return Err(owned("too many arguments"));
    }
    if n == 2 && k != ScriptKind::Replace {
        return Err(owned("only a replace takes a replacement"));
    }
    let find = a.pos[0].clone();
    assert(find@ == a@.pos[0]);
    let regex = a.regex;
    let case_insensitive = a.ci;
    let op = match k {
        ScriptKind::Delete => Op::Delete { find, regex, case_insensitive },
        ScriptKind::InsertAfter => {
            let content = match &a.after {
                Some(c) => c.clone(),
                None => String::new(),
            };
            Op::InsertAfter { find, content, regex, case_insensitive }
        },
        ScriptKind::InsertBefore => {
            let content = match &a.before {
                Some(c) => c.clone(),
                None => String::new(),
            };
            Op::InsertBefore { find, content, regex, case_insensitive }
        },
        ScriptKind::ReplaceLine => {
            let content = match &a.replace_line {
                Some(c) => c.clone(),
                None => String::new(),
            };
            Op::ReplaceLine { find, content, regex, case_insensitive }
        },
        ScriptKind::Transform => {
            let name = match &a.transform {
                Some(c) => c.clone(),
                None => String::new(),
            };
            match TransformMode::from_name(name.as_str()) {
                Ok(mode) => Op::Transform { find, mode, regex, case_insensitive },
                Err(e) => {
                    return Err(e);
                },
            }
        },
        ScriptKind::Surround => {
            let (prefix, suffix) = match &a.surround {
                Some((p, q)) => (p.clone(), q.clone()),
                None => (String::new(), String::new()),
            };
            Op::Surround { find, prefix, suffix, regex, case_insensitive }
        },
        ScriptKind::Indent => {
            let text = match &a.indent {
                Some(c) => c.clone(),
                None => String::new(),
            };
            match parse_amount(text.as_str()) {
                Some(amount) => Op::Indent { find, amount, use_tabs: a.tabs, regex, case_insensitive },
                None => {
                    return Err(message_with("invalid amount '", text.as_str(), "'"));
                },
            }
        },
        ScriptKind::Dedent => {
            let text = match &a.dedent {
                Some(c) => c.clone(),
                None => String::new(),
            };
            match parse_amount(text.as_str()) {
                Some(amount) => Op::Dedent { find, amount, use_tabs: a.tabs, regex, case_insensitive },
                None => {
                    return Err(message_with("invalid amount '", text.as_str(), "'"));
                },
            }
        },
        ScriptKind::Replace => {
            let replace = if n == 2 {
                a.pos[1].clone()
            } else {
                String::new()
            };
            assert(n == 2 ==> replace@ == a@.pos[1]);
            Op::Replace { find, replace, regex, case_insensitive }
        },
    };
    let glob = a.glob;
    Ok(ScriptOp { op, glob })
}

// ---------------------------------------------------------------------------
// Scripts
// ---------------------------------------------------------------------------

/// What one line of a script holds: nothing (no words), the sorted words of
/// an operation, or what is wrong with it.
pub open spec fn line_args(line: Seq<char>) -> Result<Option<ArgsSpec>, Seq<char>> {
    match line_words(line) {
        None => Err("unterminated quote"@),
        Some(ws) => if ws.len() == 0 {
            Ok(None)
        } else {
            match args_from(ws, 0, no_args()) {
                Err(m) => Err(m),
                Ok(a) => match args_error(a) {
                    Some(m) => Err(m),
                    None => Ok(Some(a)),
                },
            }
        },
    }
}

/// The operations of the first `k` lines, or the first error, prefixed
/// with its line number.
pub open spec fn script_upto(lines: Seq<Seq<char>>, k: int) -> Result<Seq<ArgsSpec>, Seq<char>>
    decreases k,
{
    if k <= 0 {
        Ok(seq![])
    } else {
        match script_upto(lines, k - 1) {
            Err(m) => Err(m),
            Ok(prev) => match line_args(lines[k - 1]) {
                Err(m) => Err("line "@ + decimal(k as nat) + ": "@ + m),
                Ok(None) => Ok(prev),
                Ok(Some(a)) => Ok(prev.push(a)),
            },
        }
    }
}

/// The operations a script's text asks for, or its first error.
pub open spec fn spec_script(text: Seq<char>) -> Result<Seq<ArgsSpec>, Seq<char>> {
    let lines = spec_lines(text);
    script_upto(lines, lines.len() as int)
}

/// What one line holds: no operation, an operation, or an error.
fn parse_line(line: &str) -> (r: Result<Option<ScriptOp>, String>)
    ensures
        match line_args(line@) {
            Err(m) => r matches Err(e) && e@ == m,
            Ok(None) => r matches Ok(o) && o is None,
            Ok(Some(a)) => r matches Ok(o) && o matches Some(s) && is_script_op(a, s),
        },
{
    let words = match split_words(line) {
        Some(w) => w,
        None => {
            return Err(owned("unterminated quote"));
        },
    };
    if words.len() == 0 {
        return Ok(None);
    }
    let args = match parse_args(&words) {
        Ok(a) => a,
        Err(e) => {
            return Err(e);
        },
    };
    match script_op_from_args(args) {
        Ok(s) => Ok(Some(s)),
        Err(e) => Err(e),
    }
}

/// Parse a script: one operation per line that has words. Fails with the
/// first bad line's number and what is wrong with it.
pub fn parse_script(text: &str) -> (r: Result<Script, String>)
    ensures
        match spec_script(text@) {
            Err(m) => r matches Err(e) && e@ == m,
            Ok(args) => r matches Ok(s) && s.operations@.len() == args.len() && forall|i: int|
                0 <= i < args.len() ==> is_script_op(args[i], #[trigger] s.operations@[i]),
        },
{
    let lines = split_lines(text);
    let ghost lv = string_views(lines@);
    let mut ops: Vec<ScriptOp> = Vec::new();
    let ghost mut argv: Seq<ArgsSpec> = seq![];
    let mut k: usize = 0;
    while k < lines.len()
        invariant
            lv == string_views(lines@),
            lv == spec_lines(text@),
            k <= lines.len(),
            script_upto(lv, k as int) == Ok::<Seq<ArgsSpec>, Seq<char>>(argv),
            ops@.len() == argv.len(),
            forall|i: int| 0 <= i < argv.len() ==> is_script_op(argv[i], #[trigger] ops@[i]),
        decreases lines.len() - k,
    {
        let line = lines[k].as_str();
        assert(line@ == lv[k as int]);
        match parse_line(line) {
            Err(e) => {
                let mut m = owned("line ");
                let num = decimal_string(k + 1);
                m.append(num.as_str());
                m.append(": ");
                m.append(e.as_str());
                assert(script_upto(lv, (k + 1) as int) matches Err(x) && x == m@);
                proof {
                    lemma_script_error_stays(lv, (k + 1) as int, lv.len() as int, m@);
                }
                return Err(m);
            },
            Ok(None) => {},
            Ok(Some(s)) => {
                proof {
                    let a = line_args(lv[k as int])->Ok_0->Some_0;
                    argv = argv.push(a);
                }
                ops.push(s);
            },
        }
        k += 1;
    }
    Ok(Script { operations: ops })
}

proof fn lemma_script_error_stays(lines: Seq<Seq<char>>, k: int, j: int, m: Seq<char>)
    requires
        0 <= k <= j,
        script_upto(lines, k) == Err::<Seq<ArgsSpec>, Seq<char>>(m),
    ensures
        script_upto(lines, j) == Err::<Seq<ArgsSpec>, Seq<char>>(m),
    decreases j - k,
{
    if j > k {
        lemma_script_error_stays(lines, k, j - 1, m);
    }
}

} // verus!
