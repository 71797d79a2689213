//! Responses of the JSON protocol.
use vstd::prelude::*;

use crate::diff::{OpResult, Summary};
use crate::error::RipsedError;
use crate::schema::CURRENT_VERSION;
use crate::text::owned;

verus! {

/// The top-level JSON response.
#[derive(Debug, Clone)]
pub struct JsonResponse {
    pub version: String,
    pub success: bool,
    pub dry_run: bool,
    pub summary: Summary,
    pub results: Vec<OpResult>,
    pub errors: Vec<RipsedError>,
}

/// An undo response.
#[derive(Debug, Clone)]
pub struct UndoResponse {
    pub version: String,
    pub success: bool,
    pub undo: UndoSummary,
}

/// Counts of an undo.
#[derive(Debug, Clone, Copy, PartialEq, Eq, Structural)]
pub struct UndoSummary {
    pub operations_reverted: usize,
    pub files_restored: usize,
    pub log_entries_remaining: usize,
}

impl JsonResponse {
    /// Build a success response.
    pub fn success(dry_run: bool, summary: Summary, results: Vec<OpResult>) -> (r: Self)
        ensures
            r.version@ == CURRENT_VERSION@,
            r.version@ == "1"@,
            r.success,
            r.dry_run == dry_run,
            r.summary == summary,
            r.results@ == results@,
            r.errors@.len() == 0,
    {
        JsonResponse {
            version: owned(CURRENT_VERSION),
            success: true,
            dry_run,
            summary,
            results,
            errors: Vec::new(),
        }
    }

    /// Build an error response.
    pub fn error(errors: Vec<RipsedError>) -> (r: Self)
        ensures
            r.version@ == CURRENT_VERSION@,
            r.version@ == "1"@,
            !r.success,
            !r.dry_run,
            r.summary.files_matched == 0,
            r.summary.files_modified == 0,
            r.summary.total_replacements == 0,
            r.results@.len() == 0,
            r.errors@ == errors@,
    {
        JsonResponse {
            version: owned(CURRENT_VERSION),
            success: false,
            dry_run: false,
            summary: Summary::default(),
            results: Vec::new(),
            errors,
        }
    }
}

} // verus!
