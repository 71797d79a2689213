//! The error taxonomy: every error carries a machine-readable code, a
//! message, an actionable hint and a small map of context values.
use vstd::prelude::*;
use vstd::string::*;

use crate::text::{decimal, decimal_string, owned, str_eq};

verus! {

/// All error codes.
#[derive(Debug, Clone, Copy, PartialEq, Eq, Structural)]
pub enum ErrorCode {
    NoMatches,
    InvalidRegex,
    InvalidRequest,
    FileNotFound,
    PermissionDenied,
    BinaryFileSkipped,
    AtomicRollback,
    WriteFailed,
    InternalError,
}

impl ErrorCode {
    /// The snake_case name of the code, as the JSON protocol writes it.
    pub open spec fn spec_name(self) -> Seq<char> {
        match self {
            ErrorCode::NoMatches => "no_matches"@,
            ErrorCode::InvalidRegex => "invalid_regex"@,
            ErrorCode::InvalidRequest => "invalid_request"@,
            ErrorCode::FileNotFound => "file_not_found"@,
            ErrorCode::PermissionDenied => "permission_denied"@,
            ErrorCode::BinaryFileSkipped => "binary_file_skipped"@,
            ErrorCode::AtomicRollback => "atomic_rollback"@,
            ErrorCode::WriteFailed => "write_failed"@,
            ErrorCode::InternalError => "internal_error"@,
        }
    }

    /// The snake_case name of the code.
    pub fn name(&self) -> (r: &'static str)
        ensures
            r@ == self.spec_name(),
    {
        match self {
            ErrorCode::NoMatches => "no_matches",
            ErrorCode::InvalidRegex => "invalid_regex",
            ErrorCode::InvalidRequest => "invalid_request",
            ErrorCode::FileNotFound => "file_not_found",
            ErrorCode::PermissionDenied => "permission_denied",
            ErrorCode::BinaryFileSkipped => "binary_file_skipped",
            ErrorCode::AtomicRollback => "atomic_rollback",
            ErrorCode::WriteFailed => "write_failed",
            ErrorCode::InternalError => "internal_error",
        }
    }
}

/// A value in an error's context map.
#[derive(Debug, Clone, PartialEq, Eq)]
pub enum ContextValue {
    Text(String),
    Count(usize),
    List(Vec<String>),
}

/// The mathematical value of a context entry.
pub enum ContextEntry {
    Text(Seq<char>),
    Count(nat),
    List(Seq<Seq<char>>),
}

impl View for ContextValue {
    type V = ContextEntry;

    open spec fn view(&self) -> ContextEntry {
        match self {
            ContextValue::Text(s) => ContextEntry::Text(s@),
            ContextValue::Count(n) => ContextEntry::Count(*n as nat),
            ContextValue::List(v) => ContextEntry::List(v@.map_values(|s: String| s@)),
        }
    }
}

/// The context pairs of an error, by their views.
pub open spec fn context_view(ctx: Seq<(String, ContextValue)>) -> Seq<(Seq<char>, ContextEntry)> {
    ctx.map_values(|kv: (String, ContextValue)| (kv.0@, kv.1@))
}

/// A structured error with code, message, hint, and context.
#[derive(Debug, Clone)]
pub struct RipsedError {
    pub operation_index: Option<usize>,
    pub code: ErrorCode,
    pub message: String,
    pub hint: String,
    pub context: Vec<(String, ContextValue)>,
}

fn text_entry(key: &str, value: &str) -> (r: (String, ContextValue))
    ensures
        r.0@ == key@,
        r.1@ == ContextEntry::Text(value@),
{
    (owned(key), ContextValue::Text(owned(value)))
}

/// The hint of a `no_matches` error.
pub open spec fn spec_no_matches_hint(suggestions: Seq<Seq<char>>) -> Seq<char> {
    if suggestions.len() == 0 {
        "Check for typos in the pattern. If using regex, ensure --regex is set."@
    } else {
        "Check for typos in the pattern. Did you mean '"@ + suggestions[0]
            + "'? If using regex, ensure --regex is set."@
    }
}

/// The hint of a `file_not_found` error.
pub open spec fn spec_file_not_found_hint(path: Seq<char>, suggestions: Seq<Seq<char>>) -> Seq<
    char,
> {
    if suggestions.len() == 0 {
        "The path '"@ + path + "' does not exist. Check for typos."@
    } else {
        "The path '"@ + path + "' does not exist. Did you mean '"@ + suggestions[0] + "'?"@
    }
}

/// `e` is the `invalid_regex` error for an operation index, a pattern and
/// the compiler's error text.
pub open spec fn is_invalid_regex_error(
    e: RipsedError,
    operation_index: usize,
    pattern: Seq<char>,
    error: Seq<char>,
) -> bool {
    &&& e.operation_index == Some(operation_index)
    &&& is_invalid_regex_report(e, pattern, error)
}

/// `e` is the `invalid_regex` error for a pattern and the compiler's error
/// text, whatever operation index it carries.
pub open spec fn is_invalid_regex_report(e: RipsedError, pattern: Seq<char>, error: Seq<char>) -> bool {
    &&& e.code == ErrorCode::InvalidRegex
    &&& e.message@ == "Regex failed to compile: "@ + error + "."@
    &&& e.hint@ == "Check the regex syntax in pattern '"@ + pattern + "'. "@ + error
    &&& context_view(e.context@) == seq![("pattern"@, ContextEntry::Text(pattern))]
}

impl RipsedError {
    /// The message, which is what the error displays as.
    pub fn to_string(&self) -> (r: String)
        ensures
            r@ == self.message@,
    {
        self.message.clone()
    }

    /// The context value stored under `key`, if any: that of the first
    /// entry with the key.
    pub fn context_get(&self, key: &str) -> (r: Option<&ContextValue>)
        ensures
            r matches Some(v) ==> exists|i: int|
                0 <= i < self.context@.len() && self.context@[i].0@ == key@ && self.context@[i].1
                    == *v && forall|j: int| 0 <= j < i ==> self.context@[j].0@ != key@,
            r is None ==> forall|i: int|
                0 <= i < self.context@.len() ==> self.context@[i].0@ != key@,
    {
        let mut i: usize = 0;
        while i < self.context.len()
            invariant
                i <= self.context@.len(),
                forall|j: int| 0 <= j < i ==> self.context@[j].0@ != key@,
            decreases self.context.len() - i,
        {
            if str_eq(self.context[i].0.as_str(), key) {
                return Some(&self.context[i].1);
            }
            i += 1;
        }
        None
    }

    /// A pattern matched nothing across the files searched.
    pub fn no_matches(
        operation_index: usize,
        pattern: &str,
        files_searched: usize,
        suggestions: Vec<String>,
    ) -> (e: Self)
        ensures
            e.operation_index == Some(operation_index),
            e.code == ErrorCode::NoMatches,
            e.message@ == "Pattern '"@ + pattern@ + "' matched 0 lines across "@ + decimal(
                files_searched as nat,
            ) + " files."@,
            e.hint@ == spec_no_matches_hint(suggestions@.map_values(|s: String| s@)),
            context_view(e.context@) == if suggestions@.len() == 0 {
                seq![
                    ("pattern"@, ContextEntry::Text(pattern@)),
                    ("files_searched"@, ContextEntry::Count(files_searched as nat)),
                ]
            } else {
                seq![
                    ("pattern"@, ContextEntry::Text(pattern@)),
                    ("files_searched"@, ContextEntry::Count(files_searched as nat)),
                    ("suggestions"@, ContextEntry::List(suggestions@.map_values(|s: String| s@))),
                ]
            },
    {
        let mut context: Vec<(String, ContextValue)> = Vec::new();
        context.push(text_entry("pattern", pattern));
        context.push((owned("files_searched"), ContextValue::Count(files_searched)));
        let hint = if suggestions.len() == 0 {
            owned("Check for typos in the pattern. If using regex, ensure --regex is set.")
        } else {
            let mut h = owned("Check for typos in the pattern. Did you mean '");
            h.append(suggestions[0].as_str());
            h.append("'? If using regex, ensure --regex is set.");
            h
        };
        if suggestions.len() > 0 {
            context.push((owned("suggestions"), ContextValue::List(suggestions)));
        }
        let mut message = owned("Pattern '");
        message.append(pattern);
        message.append("' matched 0 lines across ");
        let count = decimal_string(files_searched);
        message.append(count.as_str());
        message.append(" files.");
        let e = RipsedError {
            operation_index: Some(operation_index),
            code: ErrorCode::NoMatches,
            message,
            hint,
            context,
        };
        assert(context_view(e.context@) =~= if e.context@.len() == 2 {
            seq![
                ("pattern"@, ContextEntry::Text(pattern@)),
                ("files_searched"@, ContextEntry::Count(files_searched as nat)),
            ]
        } else {
            seq![
                ("pattern"@, ContextEntry::Text(pattern@)),
                ("files_searched"@, ContextEntry::Count(files_searched as nat)),
                ("suggestions"@, ContextEntry::List(suggestions@.map_values(|s: String| s@))),
            ]
        });
        e
    }

    /// A regular expression failed to compile.
    pub fn invalid_regex(operation_index: usize, pattern: &str, error: &str) -> (e: Self)
        ensures
            is_invalid_regex_error(e, operation_index, pattern@, error@),
    {
        let mut context: Vec<(String, ContextValue)> = Vec::new();
        context.push(text_entry("pattern", pattern));
        let mut message = owned("Regex failed to compile: ");
        message.append(error);
        message.append(".");
        let mut hint = owned("Check the regex syntax in pattern '");
        hint.append(pattern);
        hint.append("'. ");
        hint.append(error);
        let e = RipsedError {
            operation_index: Some(operation_index),
            code: ErrorCode::InvalidRegex,
            message,
            hint,
            context,
        };
        assert(context_view(e.context@) =~= seq![("pattern"@, ContextEntry::Text(pattern@))]);
        e
    }

    /// A request was malformed.
    pub fn invalid_request(message: &str, hint: &str) -> (e: Self)
        ensures
            e.operation_index is None,
            e.code == ErrorCode::InvalidRequest,
            e.message@ == message@,
            e.hint@ == hint@,
            e.context@.len() == 0,
    {
        RipsedError {
            operation_index: None,
            code: ErrorCode::InvalidRequest,
            message: owned(message),
            hint: owned(hint),
            context: Vec::new(),
        }
    }

    /// A target path does not exist.
    pub fn file_not_found(path: &str, suggestions: Vec<String>) -> (e: Self)
        ensures
            e.operation_index is None,
            e.code == ErrorCode::FileNotFound,
            e.message@ == "Target path '"@ + path@ + "' does not exist."@,
            e.hint@ == spec_file_not_found_hint(path@, suggestions@.map_values(|s: String| s@)),
            context_view(e.context@) == seq![("path"@, ContextEntry::Text(path@))],
    {
        let mut context: Vec<(String, ContextValue)> = Vec::new();
        context.push(text_entry("path", path));
        let mut hint = owned("The path '");
        hint.append(path);
        if suggestions.len() == 0 {
            hint.append("' does not exist. Check for typos.");
        } else {
            hint.append("' does not exist. Did you mean '");
            hint.append(suggestions[0].as_str());
            hint.append("'?");
        }
        let mut message = owned("Target path '");
        message.append(path);
        message.append("' does not exist.");
        let e = RipsedError {
            operation_index: None,
            code: ErrorCode::FileNotFound,
            message,
            hint,
            context,
        };
        assert(context_view(e.context@) =~= seq![("path"@, ContextEntry::Text(path@))]);
        e
    }

    /// A path cannot be read or written.
    pub fn permission_denied(path: &str) -> (e: Self)
        ensures
            e.operation_index is None,
            e.code == ErrorCode::PermissionDenied,
            e.message@ == "Cannot read or write '"@ + path@ + "'."@,
            e.hint@ == "Check file permissions for '"@ + path@
                + "'. Try chmod or run with appropriate permissions."@,
            context_view(e.context@) == seq![("path"@, ContextEntry::Text(path@))],
    {
        let mut context: Vec<(String, ContextValue)> = Vec::new();
        context.push(text_entry("path", path));
        let mut message = owned("Cannot read or write '");
        message.append(path);
        message.append("'.");
        let mut hint = owned("Check file permissions for '");
        hint.append(path);
        hint.append("'. Try chmod or run with appropriate permissions.");
        let e = RipsedError {
            operation_index: None,
            code: ErrorCode::PermissionDenied,
            message,
            hint,
            context,
        };
        assert(context_view(e.context@) =~= seq![("path"@, ContextEntry::Text(path@))]);
        e
    }

    /// A binary file was skipped.
    pub fn binary_file_skipped(path: &str) -> (e: Self)
        ensures
            e.operation_index is None,
            e.code == ErrorCode::BinaryFileSkipped,
            e.message@ == "Binary file '"@ + path@ + "' was skipped."@,
            e.hint@ == "Binary files are skipped by default. Use --binary to include them."@,
            context_view(e.context@) == seq![("path"@, ContextEntry::Text(path@))],
    {
        let mut context: Vec<(String, ContextValue)> = Vec::new();
        context.push(text_entry("path", path));
        let mut message = owned("Binary file '");
        message.append(path);
        message.append("' was skipped.");
        let e = RipsedError {
            operation_index: None,
            code: ErrorCode::BinaryFileSkipped,
            message,
            hint: owned("Binary files are skipped by default. Use --binary to include them."),
            context,
        };
        assert(context_view(e.context@) =~= seq![("path"@, ContextEntry::Text(path@))]);
        e
    }

    /// A batch failed part-way and every change was reverted.
    pub fn atomic_rollback(operation_index: usize, file: &str, reason: &str) -> (e: Self)
        ensures
            e.operation_index == Some(operation_index),
            e.code == ErrorCode::AtomicRollback,
            e.message@ == "Batch operation failed at '"@ + file@ + "': "@ + reason@
                + ". All changes reverted."@,
            e.hint@
                == "Nothing was written. Consider splitting into smaller batches or fixing the failing operation."@,
            context_view(e.context@) == seq![
                ("file"@, ContextEntry::Text(file@)),
                ("reason"@, ContextEntry::Text(reason@)),
            ],
    {
        let mut context: Vec<(String, ContextValue)> = Vec::new();
        context.push(text_entry("file", file));
        context.push(text_entry("reason", reason));
        let mut message = owned("Batch operation failed at '");
        message.append(file);
        message.append("': ");
        message.append(reason);
        message.append(". All changes reverted.");
        let e = RipsedError {
            operation_index: Some(operation_index),
            code: ErrorCode::AtomicRollback,
            message,
            hint: owned(
                "Nothing was written. Consider splitting into smaller batches or fixing the failing operation.",
            ),
            context,
        };
        assert(context_view(e.context@) =~= seq![
            ("file"@, ContextEntry::Text(file@)),
            ("reason"@, ContextEntry::Text(reason@)),
        ]);
        e
    }

    /// Writing a file failed.
    pub fn write_failed(path: &str, os_error: &str) -> (e: Self)
        ensures
            e.operation_index is None,
            e.code == ErrorCode::WriteFailed,
            e.message@ == "Could not write to '"@ + path@ + "': "@ + os_error@ + "."@,
            e.hint@ == "Check disk space and path validity."@,
            context_view(e.context@) == seq![
                ("path"@, ContextEntry::Text(path@)),
                ("os_error"@, ContextEntry::Text(os_error@)),
            ],
    {
        let mut context: Vec<(String, ContextValue)> = Vec::new();
        context.push(text_entry("path", path));
        context.push(text_entry("os_error", os_error));
        let mut message = owned("Could not write to '");
        message.append(path);
        message.append("': ");
        message.append(os_error);
        message.append(".");
        let e = RipsedError {
            operation_index: None,
            code: ErrorCode::WriteFailed,
            message,
            hint: owned("Check disk space and path validity."),
            context,
        };
        assert(context_view(e.context@) =~= seq![
            ("path"@, ContextEntry::Text(path@)),
            ("os_error"@, ContextEntry::Text(os_error@)),
        ]);
        e
    }

    /// An internal invariant was broken.
    pub fn internal_error(message: &str) -> (e: Self)
        ensures
            e.operation_index is None,
            e.code == ErrorCode::InternalError,
            e.message@ == message@,
            e.hint@ == "This is a bug in ripsed. Please report it."@,
            e.context@.len() == 0,
    {
        RipsedError {
            operation_index: None,
            code: ErrorCode::InternalError,
            message: owned(message),
            hint: owned("This is a bug in ripsed. Please report it."),
            context: Vec::new(),
        }
    }
}

} // verus!
