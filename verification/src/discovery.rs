//! File-discovery options and the ignore-pattern filter.
use vstd::prelude::*;

verus! {

/// Options for file discovery.
#[derive(Debug, Clone)]
pub struct DiscoveryOptions {
    pub root: String,
    pub glob: Option<String>,
    pub ignore_pattern: Option<String>,
    pub gitignore: bool,
    pub hidden: bool,
    pub max_depth: Option<usize>,
    pub follow_links: bool,
}

impl DiscoveryOptions {
    /// The default options for a root directory: `.gitignore` respected,
    /// hidden files skipped, links not followed, no glob, ignore pattern or
    /// depth limit.
    pub fn with_root(root: String) -> (r: Self)
        ensures
            r.root == root,
            r.glob is None,
            r.ignore_pattern is None,
            r.gitignore,
            !r.hidden,
            r.max_depth is None,
            !r.follow_links,
    {
        DiscoveryOptions {
            root,
            glob: None,
            ignore_pattern: None,
            gitignore: true,
            hidden: false,
            max_depth: None,
            follow_links: false,
        }
    }
}

/// Strategy for choosing between serial and parallel file discovery.
#[derive(Debug, Clone, Copy, PartialEq, Eq, Structural)]
pub enum WalkStrategy {
    /// Automatically choose based on directory size heuristic.
    Auto,
    /// Always use the parallel walker.
    ForceParallel,
}

/// Whether a single gitignore line matches a (file) path, as the `ignore`
/// crate's gitignore matcher decides; a line it refuses matches nothing.
pub uninterp spec fn gitignore_line_matches(pattern: Seq<char>, path: Seq<char>) -> bool;

/// Builds a one-line matcher with `ignore::gitignore::GitignoreBuilder`
/// (rooted at the empty path) and asks it whether the path, as a file, is
/// ignored. A line that does not build matches nothing. The matching itself
/// is named, not stated.
#[verifier::external_body]
fn glob_match(pattern: &str, path: &str) -> (r: bool)
    ensures
        r == gitignore_line_matches(pattern@, path@),
{
    let mut builder = ignore::gitignore::GitignoreBuilder::new("");
    match builder.add_line(None, pattern) {
        Ok(_) => {},
        Err(_) => return false,
    }
    match builder.build() {
        Ok(gi) => gi.matched(std::path::Path::new(path), false).is_ignore(),
        Err(_) => false,
    }
}

/// Whether a discovered file is kept: it is unless an ignore pattern is set
/// and matches its path.
pub fn passes_ignore_filter(ignore_pattern: &Option<String>, path: &str) -> (r: bool)
    ensures
        r == match ignore_pattern {
            Some(p) => !gitignore_line_matches(p@, path@),
            None => true,
        },
{
    match ignore_pattern {
        Some(p) => !glob_match(p.as_str(), path),
        None => true,
    }
}

} // verus!
