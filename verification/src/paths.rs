//! Path components, through `std::path::Path`.
use vstd::prelude::*;

use crate::text::chars_of;

verus! {

/// The path's final component, as `std::path::Path::file_name` gives it.
pub uninterp spec fn path_file_name(path: Seq<char>) -> Option<Seq<char>>;

/// The index of the last `.` among the first `i` characters of `name`, or
/// -1 when there is none.
pub open spec fn last_dot_before(name: Seq<char>, i: int) -> int
    decreases i,
{
    if i <= 0 || i > name.len() {
        -1
    } else if name[i - 1] == '.' {
        i - 1
    } else {
        last_dot_before(name, i - 1)
    }
}

/// The extension of a file name, by the rules `Path::extension` documents:
/// none when the name holds no `.`, or only one that begins the name;
/// otherwise what follows the final `.`.
pub open spec fn name_extension(name: Seq<char>) -> Option<Seq<char>> {
    let d = last_dot_before(name, name.len() as int);
    if d <= 0 {
        None
    } else {
        Some(name.skip(d + 1))
    }
}

/// The path's extension, as `std::path::Path::extension` gives it: none
/// without a file name, otherwise the file name's extension.
pub open spec fn path_extension(path: Seq<char>) -> Option<Seq<char>> {
    match path_file_name(path) {
        Some(name) => name_extension(name),
        None => None,
    }
}

/// The path that `std::path::Path::with_extension` makes from a path and an
/// extension.
pub uninterp spec fn path_with_extension(path: Seq<char>, extension: Seq<char>) -> Seq<char>;

/// Calls `std::path::Path::file_name` on the path and converts the name back
/// to a string; the component it picks is named, not stated.
#[verifier::external_body]
pub(crate) fn file_name_of(path: &str) -> (r: Option<String>)
    ensures
        r is Some <==> path_file_name(path@) is Some,
        r matches Some(s) ==> path_file_name(path@) == Some(s@),
{
    std::path::Path::new(path).file_name().and_then(|f| f.to_str()).map(|s| s.to_string())
}

/// Calls `std::path::Path::extension` on the path and converts it back to a
/// string; the extension is taken from the (named) file name by the
/// documented rules. The extension
/// is a part of the final component, so it holds no `/`, a separator on
/// every platform.
#[verifier::external_body]
pub(crate) fn extension_of(path: &str) -> (r: Option<String>)
    ensures
        r is Some <==> path_extension(path@) is Some,
        r matches Some(s) ==> path_extension(path@) == Some(s@),
        r matches Some(s) ==> !s@.contains('/'),
{
    std::path::Path::new(path).extension().and_then(|e| e.to_str()).map(|s| s.to_string())
}

/// Calls `std::path::Path::with_extension` and converts the path back to a
/// string; the path it builds is named, not stated. `with_extension` panics
/// on an extension that holds a path separator (`/`, and `\\` on Windows), so
/// neither may occur in it.
#[verifier::external_body]
pub(crate) fn with_extension(path: &str, extension: &str) -> (r: String)
    requires
        !extension@.contains('/'),
        !extension@.contains('\\'),
    ensures
        r@ == path_with_extension(path@, extension@),
{
    std::path::Path::new(path).with_extension(extension).to_string_lossy().into_owned()
}

/// Whether the text holds the character.
pub fn has_char(s: &str, c: char) -> (r: bool)
    ensures
        r == s@.contains(c),
{
    let v = chars_of(s);
    let mut i: usize = 0;
    while i < v.len()
        invariant
            v@ == s@,
            i <= v.len(),
            forall|j: int| 0 <= j < i ==> v@[j] != c,
        decreases v.len() - i,
    {
        if v[i] == c {
            assert(s@[i as int] == c);
            return true;
        }
        i += 1;
    }
    false
}

/// `s` followed by `suffix` holds neither separator when neither does.
pub proof fn lemma_no_separator_concat(s: Seq<char>, suffix: Seq<char>)
    requires
        !s.contains('/'),
        !s.contains('\\'),
        !suffix.contains('/'),
        !suffix.contains('\\'),
    ensures
        !(s + suffix).contains('/'),
        !(s + suffix).contains('\\'),
{
    assert forall|i: int| 0 <= i < (s + suffix).len() implies (s + suffix)[i] != '/' && (s
        + suffix)[i] != '\\' by {
        if i < s.len() {
            assert(s[i] == (s + suffix)[i]);
        } else {
            assert(suffix[i - s.len()] == (s + suffix)[i]);
        }
    }
}

} // verus!
