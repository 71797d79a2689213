//! The operation representation: every request, whether it comes from the
//! command line or from a JSON document, is normalised into an [`Op`].
use vstd::prelude::*;
use vstd::string::*;

use crate::text::{owned, str_eq};

verus! {

/// Text transformation modes for the Transform operation.
#[derive(Debug, Clone, Copy, PartialEq, Eq, Structural)]
pub enum TransformMode {
    Upper,
    Lower,
    Title,
    SnakeCase,
    CamelCase,
}

/// The canonical name of a mode (what `Display` prints in the JSON protocol).
pub open spec fn spec_mode_name(m: TransformMode) -> Seq<char> {
    match m {
        TransformMode::Upper => "upper"@,
        TransformMode::Lower => "lower"@,
        TransformMode::Title => "title"@,
        TransformMode::SnakeCase => "snake_case"@,
        TransformMode::CamelCase => "camel_case"@,
    }
}

/// The mode a name denotes, if any: the canonical names, plus the aliases
/// `snake` and `camel`.
pub open spec fn spec_mode_from_name(s: Seq<char>) -> Option<TransformMode> {
    if s == "upper"@ {
        Some(TransformMode::Upper)
    } else if s == "lower"@ {
        Some(TransformMode::Lower)
    } else if s == "title"@ {
        Some(TransformMode::Title)
    } else if s == "snake_case"@ || s == "snake"@ {
        Some(TransformMode::SnakeCase)
    } else if s == "camel_case"@ || s == "camel"@ {
        Some(TransformMode::CamelCase)
    } else {
        None
    }
}

/// The error text for an unknown mode name.
pub open spec fn spec_unknown_mode_message(s: Seq<char>) -> Seq<char> {
    "unknown transform mode '"@ + s
        + "'. Valid modes: upper, lower, title, snake_case, camel_case"@
}

impl TransformMode {
    /// The canonical name of this mode.
    pub fn name(&self) -> (r: &'static str)
        ensures
            r@ == spec_mode_name(*self),
    {
        match self {
            TransformMode::Upper => "upper",
            TransformMode::Lower => "lower",
            TransformMode::Title => "title",
            TransformMode::SnakeCase => "snake_case",
            TransformMode::CamelCase => "camel_case",
        }
    }

    /// The canonical name of this mode, as an owned string.
    pub fn to_string(&self) -> (r: String)
        ensures
            r@ == spec_mode_name(*self),
    {
        owned(self.name())
    }

    /// Parses a mode name; unknown names are refused with a message that
    /// lists the valid ones.
    pub fn from_name(s: &str) -> (r: Result<TransformMode, String>)
        ensures
            spec_mode_from_name(s@) matches Some(m) ==> r == Ok::<TransformMode, String>(m),
            spec_mode_from_name(s@) is None ==> (r matches Err(e) && e@
                == spec_unknown_mode_message(s@)),
    {
        if str_eq(s, "upper") {
            Ok(TransformMode::Upper)
        } else if str_eq(s, "lower") {
            Ok(TransformMode::Lower)
        } else if str_eq(s, "title") {
            Ok(TransformMode::Title)
        } else if str_eq(s, "snake_case") || str_eq(s, "snake") {
            Ok(TransformMode::SnakeCase)
        } else if str_eq(s, "camel_case") || str_eq(s, "camel") {
            Ok(TransformMode::CamelCase)
        } else {
            let mut msg = owned("unknown transform mode '");
            msg.append(s);
            msg.append("'. Valid modes: upper, lower, title, snake_case, camel_case");
            Err(msg)
        }
    }
}

impl std::str::FromStr for TransformMode {
    type Err = String;

    fn from_str(s: &str) -> (r: Result<Self, Self::Err>)
        ensures
            spec_mode_from_name(s@) matches Some(m) ==> r == Ok::<TransformMode, String>(m),
            spec_mode_from_name(s@) is None ==> (r matches Err(e) && e@
                == spec_unknown_mode_message(s@)),
    {
        TransformMode::from_name(s)
    }
}

/// The intermediate representation for all operations.
#[derive(Debug, Clone, PartialEq, Eq)]
pub enum Op {
    Replace { find: String, replace: String, regex: bool, case_insensitive: bool },
    Delete { find: String, regex: bool, case_insensitive: bool },
    InsertAfter { find: String, content: String, regex: bool, case_insensitive: bool },
    InsertBefore { find: String, content: String, regex: bool, case_insensitive: bool },
    ReplaceLine { find: String, content: String, regex: bool, case_insensitive: bool },
    Transform { find: String, mode: TransformMode, regex: bool, case_insensitive: bool },
    Surround {
        find: String,
        prefix: String,
        suffix: String,
        regex: bool,
        case_insensitive: bool,
    },
    Indent { find: String, amount: usize, use_tabs: bool, regex: bool, case_insensitive: bool },
    Dedent { find: String, amount: usize, use_tabs: bool, regex: bool, case_insensitive: bool },
}

/// The indentation amount used when a request gives none.
pub fn default_indent_amount() -> (r: usize)
    ensures
        r == 4,
{
    4
}

impl Op {
    /// The find pattern of the operation.
    pub open spec fn spec_find(&self) -> Seq<char> {
        match self {
            Op::Replace { find, .. } => find@,
            Op::Delete { find, .. } => find@,
            Op::InsertAfter { find, .. } => find@,
            Op::InsertBefore { find, .. } => find@,
            Op::ReplaceLine { find, .. } => find@,
            Op::Transform { find, .. } => find@,
            Op::Surround { find, .. } => find@,
            Op::Indent { find, .. } => find@,
            Op::Dedent { find, .. } => find@,
        }
    }

    /// Whether the pattern is a regular expression.
    pub open spec fn spec_regex(&self) -> bool {
        match self {
            Op::Replace { regex, .. } => *regex,
            Op::Delete { regex, .. } => *regex,
            Op::InsertAfter { regex, .. } => *regex,
            Op::InsertBefore { regex, .. } => *regex,
            Op::ReplaceLine { regex, .. } => *regex,
            Op::Transform { regex, .. } => *regex,
            Op::Surround { regex, .. } => *regex,
            Op::Indent { regex, .. } => *regex,
            Op::Dedent { regex, .. } => *regex,
        }
    }

    /// Whether matching ignores case.
    pub open spec fn spec_case_insensitive(&self) -> bool {
        match self {
            Op::Replace { case_insensitive, .. } => *case_insensitive,
            Op::Delete { case_insensitive, .. } => *case_insensitive,
            Op::InsertAfter { case_insensitive, .. } => *case_insensitive,
            Op::InsertBefore { case_insensitive, .. } => *case_insensitive,
            Op::ReplaceLine { case_insensitive, .. } => *case_insensitive,
            Op::Transform { case_insensitive, .. } => *case_insensitive,
            Op::Surround { case_insensitive, .. } => *case_insensitive,
            Op::Indent { case_insensitive, .. } => *case_insensitive,
            Op::Dedent { case_insensitive, .. } => *case_insensitive,
        }
    }

    /// Extract the find pattern from the operation.
    pub fn find_pattern(&self) -> (r: &str)
        ensures
            r@ == self.spec_find(),
    {
        match self {
            Op::Replace { find, .. } => find.as_str(),
            Op::Delete { find, .. } => find.as_str(),
            Op::InsertAfter { find, .. } => find.as_str(),
            Op::InsertBefore { find, .. } => find.as_str(),
            Op::ReplaceLine { find, .. } => find.as_str(),
            Op::Transform { find, .. } => find.as_str(),
            Op::Surround { find, .. } => find.as_str(),
            Op::Indent { find, .. } => find.as_str(),
            Op::Dedent { find, .. } => find.as_str(),
        }
    }

    /// Whether the find pattern is a regular expression.
    pub fn is_regex(&self) -> (r: bool)
        ensures
            r == self.spec_regex(),
    {
        match self {
            Op::Replace { regex, .. } => *regex,
            Op::Delete { regex, .. } => *regex,
            Op::InsertAfter { regex, .. } => *regex,
            Op::InsertBefore { regex, .. } => *regex,
            Op::ReplaceLine { regex, .. } => *regex,
            Op::Transform { regex, .. } => *regex,
            Op::Surround { regex, .. } => *regex,
            Op::Indent { regex, .. } => *regex,
            Op::Dedent { regex, .. } => *regex,
        }
    }

    /// Whether matching ignores case.
    pub fn is_case_insensitive(&self) -> (r: bool)
        ensures
            r == self.spec_case_insensitive(),
    {
        match self {
            Op::Replace { case_insensitive, .. } => *case_insensitive,
            Op::Delete { case_insensitive, .. } => *case_insensitive,
            Op::InsertAfter { case_insensitive, .. } => *case_insensitive,
            Op::InsertBefore { case_insensitive, .. } => *case_insensitive,
            Op::ReplaceLine { case_insensitive, .. } => *case_insensitive,
            Op::Transform { case_insensitive, .. } => *case_insensitive,
            Op::Surround { case_insensitive, .. } => *case_insensitive,
            Op::Indent { case_insensitive, .. } => *case_insensitive,
            Op::Dedent { case_insensitive, .. } => *case_insensitive,
        }
    }
}

/// A range of lines to operate on (1-indexed, inclusive; an absent end
/// extends to the end of the text).
#[derive(Debug, Clone, Copy, PartialEq, Eq, Structural)]
pub struct LineRange {
    pub start: usize,
    pub end: Option<usize>,
}

impl LineRange {
    /// Whether the 1-indexed line number lies in the range.
    pub open spec fn spec_contains(&self, line: int) -> bool {
        line >= self.start && match self.end {
            Some(e) => line <= e,
            None => true,
        }
    }

    /// Whether the 1-indexed line number lies in the range.
    pub fn contains(&self, line: usize) -> (r: bool)
        ensures
            r == self.spec_contains(line as int),
    {
        line >= self.start && match self.end {
            Some(e) => line <= e,
            None => true,
        }
    }
}

/// Options that control how operations are applied.
#[derive(Debug, Clone)]
pub struct OpOptions {
    pub dry_run: bool,
    pub root: Option<String>,
    pub gitignore: bool,
    pub backup: bool,
    pub atomic: bool,
    pub glob: Option<String>,
    pub ignore: Option<String>,
    pub hidden: bool,
    pub max_depth: Option<usize>,
    pub line_range: Option<LineRange>,
}

impl Default for OpOptions {
    /// Dry run and `.gitignore` respected; everything else off or absent.
    fn default() -> (r: Self)
        ensures
            r.dry_run,
            r.root is None,
            r.gitignore,
            !r.backup,
            !r.atomic,
            r.glob is None,
            r.ignore is None,
            !r.hidden,
            r.max_depth is None,
            r.line_range is None,
    {
        OpOptions {
            dry_run: true,
            root: None,
            gitignore: true,
            backup: false,
            atomic: false,
            glob: None,
            ignore: None,
            hidden: false,
            max_depth: None,
            line_range: None,
        }
    }
}

/// Returns `true`: the default of the boolean options that are on unless
/// a request turns them off.
pub fn default_true() -> (r: bool)
    ensures
        r,
{
    true
}

} // verus!
