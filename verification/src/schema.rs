//! Protocol versions of the JSON interface.
use vstd::prelude::*;

use crate::text::str_eq;

verus! {

/// Current protocol version.
pub const CURRENT_VERSION: &'static str = "1";

/// The supported protocol versions.
pub open spec fn spec_supported_versions() -> Seq<Seq<char>> {
    seq!["1"@]
}

/// Check if a version string is supported: only `"1"` is.
pub fn is_supported_version(version: &str) -> (r: bool)
    ensures
        r == spec_supported_versions().contains(version@),
        r == (version@ == "1"@),
{
    let r = str_eq(version, "1");
    assert(r ==> spec_supported_versions()[0] == version@);
    r
}

} // verus!
