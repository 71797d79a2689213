//! Naming of the advisory lock file that sits beside a target file.
use vstd::prelude::*;
use vstd::string::*;

use crate::paths::{extension_of, has_char, lemma_no_separator_concat, path_extension, path_with_extension, with_extension};
use crate::text::owned;

verus! {

/// The lock-file path of a target: the extension extended with
/// `.ripsed.lock`, or `.ripsed.lock` appended when there is no extension or the extension
/// holds a backslash (which `Path::with_extension` refuses on Windows).
pub open spec fn spec_lock_path(path: Seq<char>) -> Seq<char> {
    match path_extension(path) {
        Some(ext) => if ext.contains('\\') {
            path + ".ripsed.lock"@
        } else {
            path_with_extension(path, ext + ".ripsed.lock"@)
        },
        None => path + ".ripsed.lock"@,
    }
}

/// Compute the lock-file path for a given target path.
pub fn lock_path_for(path: &str) -> (r: String)
    ensures
        r@ == spec_lock_path(path@),
{
    match extension_of(path) {
        Some(ext) => {
            if has_char(ext.as_str(), '\\') {
                let mut p = owned(path);
                p.append(".ripsed.lock");
                return p;
            }
            let mut e = ext;
            let ghost ext_view = e@;
            e.append(".ripsed.lock");
            proof {
                reveal_strlit(".ripsed.lock");
                assert forall|i: int| 0 <= i < ".ripsed.lock"@.len() implies ".ripsed.lock"@[i] != '/' && ".ripsed.lock"@[i] != '\\' by {}
                lemma_no_separator_concat(ext_view, ".ripsed.lock"@);
            }
            with_extension(path, e.as_str())
        },
        None => {
            let mut p = owned(path);
            p.append(".ripsed.lock");
            p
        },
    }
}

/// The first pause, in milliseconds, between attempts to take a held lock.
pub const LOCK_FIRST_SLEEP_MS: u64 = 1;

/// The longest pause, in milliseconds, between attempts to take a held lock.
pub const LOCK_MAX_SLEEP_MS: u64 = 50;

/// How one attempt to take the lock ended.
#[derive(Debug, Clone, Copy, PartialEq, Eq, Structural)]
pub enum LockAttempt {
    /// The lock was taken.
    Acquired,
    /// Another holder has it.
    Busy,
    /// The attempt failed for another reason.
    Failed,
}

/// What to do after an attempt to take the lock.
#[derive(Debug, Clone, Copy, PartialEq, Eq, Structural)]
pub enum LockStep {
    /// Return the lock.
    Done,
    /// Return the attempt's error.
    Fail,
    /// Give up with a timeout error.
    TimedOut,
    /// Sleep `ms` milliseconds, then try again pausing `next_ms` after.
    Sleep { ms: u64, next_ms: u64 },
}

/// The next step of a lock wait with back-off: stop on success or on a
/// failure other than contention; while the lock is held, time out once the
/// elapsed time reaches the timeout, otherwise sleep and double the pause,
/// up to `LOCK_MAX_SLEEP_MS`.
pub fn lock_retry_step(attempt: LockAttempt, elapsed_ns: u128, timeout_ns: u128, sleep_ms: u64) -> (r: LockStep)
    ensures
        attempt == LockAttempt::Acquired ==> r == LockStep::Done,
        attempt == LockAttempt::Failed ==> r == LockStep::Fail,
        attempt == LockAttempt::Busy && elapsed_ns >= timeout_ns ==> r == LockStep::TimedOut,
        attempt == LockAttempt::Busy && elapsed_ns < timeout_ns ==> r == (LockStep::Sleep {
            ms: sleep_ms,
            next_ms: if 2 * sleep_ms < LOCK_MAX_SLEEP_MS {
                (2 * sleep_ms) as u64
            } else {
                LOCK_MAX_SLEEP_MS
            },
        }),
{
    match attempt {
        LockAttempt::Acquired => LockStep::Done,
        LockAttempt::Failed => LockStep::Fail,
        LockAttempt::Busy => {
            if elapsed_ns >= timeout_ns {
                LockStep::TimedOut
            } else {
                let next_ms = if sleep_ms < LOCK_MAX_SLEEP_MS / 2 {
                    sleep_ms * 2
                } else {
                    LOCK_MAX_SLEEP_MS
                };
                LockStep::Sleep { ms: sleep_ms, next_ms }
            }
        },
    }
}

} // verus!
