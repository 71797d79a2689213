//! Naming of backup files.
use vstd::prelude::*;
use vstd::string::*;

use crate::paths::{extension_of, has_char, lemma_no_separator_concat, path_extension, path_with_extension, with_extension};
use crate::text::{decimal, decimal_string, owned, push_char};

verus! {

/// The base backup path of a file: the extension extended with
/// `.ripsed.bak`, or `.ripsed.bak` appended when there is no extension or the extension
/// holds a backslash (which `Path::with_extension` refuses on Windows).
pub open spec fn spec_backup_path(path: Seq<char>) -> Seq<char> {
    match path_extension(path) {
        Some(ext) => if ext.contains('\\') {
            path + ".ripsed.bak"@
        } else {
            path_with_extension(path, ext + ".ripsed.bak"@)
        },
        None => path + ".ripsed.bak"@,
    }
}

/// Compute the base backup path for a given file.
pub fn backup_path_for(path: &str) -> (r: String)
    ensures
        r@ == spec_backup_path(path@),
{
    match extension_of(path) {
        Some(ext) => {
            if has_char(ext.as_str(), '\\') {
                let mut p = owned(path);
                p.append(".ripsed.bak");
                return p;
            }
            let mut e = ext;
            let ghost ext_view = e@;
            e.append(".ripsed.bak");
            proof {
                reveal_strlit(".ripsed.bak");
                assert forall|i: int| 0 <= i < ".ripsed.bak"@.len() implies ".ripsed.bak"@[i] != '/' && ".ripsed.bak"@[i] != '\\' by {}
                lemma_no_separator_concat(ext_view, ".ripsed.bak"@);
            }
            with_extension(path, e.as_str())
        },
        None => {
            let mut p = owned(path);
            p.append(".ripsed.bak");
            p
        },
    }
}

/// The backup path tried at attempt `n`: the base path itself first, then
/// the base path followed by `.1`, `.2`, and so on.
pub fn backup_candidate(base: &str, n: u32) -> (r: String)
    ensures
        n == 0 ==> r@ == base@,
        n > 0 ==> r@ == base@ + seq!['.'] + decimal(n as nat),
{
    let mut r = owned(base);
    if n > 0 {
        push_char(&mut r, '.');
        let d = decimal_string(n as usize);
        r.append(d.as_str());
    }
    r
}

} // verus!
