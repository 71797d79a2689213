//! Structured diffs: the changes an operation makes, per file.
use vstd::prelude::*;

use crate::text::string_views;

verus! {

/// A single change within a file.
#[derive(Debug, Clone, PartialEq, Eq)]
pub struct Change {
    /// 1-indexed line number where the change occurs.
    pub line: usize,
    /// The original line content.
    pub before: String,
    /// The modified line content (None for deletions).
    pub after: Option<String>,
    /// Surrounding context lines.
    pub context: Option<ChangeContext>,
}

/// Context lines surrounding a change for display.
#[derive(Debug, Clone, PartialEq, Eq)]
pub struct ChangeContext {
    pub before: Vec<String>,
    pub after: Vec<String>,
}

/// The mathematical value of a context.
pub struct ContextSpec {
    pub before: Seq<Seq<char>>,
    pub after: Seq<Seq<char>>,
}

/// The mathematical value of a change.
pub struct ChangeSpec {
    pub line: nat,
    pub before: Seq<char>,
    pub after: Option<Seq<char>>,
    pub context: Option<ContextSpec>,
}

impl View for ChangeContext {
    type V = ContextSpec;

    open spec fn view(&self) -> ContextSpec {
        ContextSpec { before: string_views(self.before@), after: string_views(self.after@) }
    }
}

impl View for Change {
    type V = ChangeSpec;

    open spec fn view(&self) -> ChangeSpec {
        ChangeSpec {
            line: self.line as nat,
            before: self.before@,
            after: match self.after {
                Some(a) => Some(a@),
                None => None,
            },
            context: match self.context {
                Some(c) => Some(c@),
                None => None,
            },
        }
    }
}

/// The views of a sequence of changes.
pub open spec fn change_views(v: Seq<Change>) -> Seq<ChangeSpec> {
    v.map_values(|c: Change| c@)
}

/// All changes applied to a single file.
#[derive(Debug, Clone, PartialEq, Eq)]
pub struct FileChanges {
    pub path: String,
    pub changes: Vec<Change>,
}

/// The result of applying an operation, including all file changes.
#[derive(Debug, Clone)]
pub struct OpResult {
    pub operation_index: usize,
    pub files: Vec<FileChanges>,
}

/// Summary statistics for the full run.
#[derive(Debug, Clone, PartialEq, Eq, Structural)]
pub struct Summary {
    pub files_matched: usize,
    pub files_modified: usize,
    pub total_replacements: usize,
}

impl Default for Summary {
    /// All counts zero.
    fn default() -> (r: Self)
        ensures
            r.files_matched == 0,
            r.files_modified == 0,
            r.total_replacements == 0,
    {
        Summary { files_matched: 0, files_modified: 0, total_replacements: 0 }
    }
}

impl Summary {
    /// Count one file in the summary: it matched when it had changes, and
    /// was modified when it was written. Counts saturate at `usize::MAX`.
    pub fn record_file(&mut self, changes: usize, written: bool)
        ensures
            final(self).files_matched == if changes > 0 {
                old(self).files_matched.saturating_add(1)
            } else {
                old(self).files_matched
            },
            final(self).files_modified == if written {
                old(self).files_modified.saturating_add(1)
            } else {
                old(self).files_modified
            },
            final(self).total_replacements == old(self).total_replacements.saturating_add(changes),
    {
        if changes > 0 {
            self.files_matched = self.files_matched.saturating_add(1);
        }
        if written {
            self.files_modified = self.files_modified.saturating_add(1);
        }
        self.total_replacements = self.total_replacements.saturating_add(changes);
    }
}

} // verus!
