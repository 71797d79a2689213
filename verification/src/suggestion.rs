//! Near-miss suggestions ("did you mean ...?") by edit distance.
use vstd::prelude::*;

use crate::paths::{file_name_of, path_file_name};
use crate::text::owned;

verus! {

/// The Levenshtein distance: the least number of single-character
/// insertions, deletions and substitutions that turn `a` into `b`.
pub open spec fn edit_distance(a: Seq<char>, b: Seq<char>) -> nat
    decreases a.len() + b.len(),
{
    if a.len() == 0 {
        b.len()
    } else if b.len() == 0 {
        a.len()
    } else {
        let substitute = edit_distance(a.drop_last(), b.drop_last()) + if a.last() == b.last() {
            0nat
        } else {
            1nat
        };
        let delete = edit_distance(a.drop_last(), b) + 1;
        let insert = edit_distance(a, b.drop_last()) + 1;
        if substitute <= delete && substitute <= insert {
            substitute
        } else if delete <= insert {
            delete
        } else {
            insert
        }
    }
}

/// Maximum edit distance for a suggestion to be considered relevant.
pub const MAX_DISTANCE: usize = 2;

/// Calls `strsim::levenshtein`, which counts the minimum number of
/// single-character insertions, deletions and substitutions between two
/// strings, as its documentation states.
#[verifier::external_body]
fn levenshtein(a: &str, b: &str) -> (d: usize)
    ensures
        d == edit_distance(a@, b@),
{
    strsim::levenshtein(a, b)
}

/// The string views of the elements of `v` whose key has distance `d`.
pub open spec fn with_distance(v: Seq<Seq<char>>, keys: Seq<nat>, d: nat) -> Seq<Seq<char>>
    decreases v.len(),
{
    if v.len() == 0 || keys.len() != v.len() {
        seq![]
    } else {
        let rest = with_distance(v.drop_last(), keys.drop_last(), d);
        if keys.last() == d {
            rest.push(v.last())
        } else {
            rest
        }
    }
}

/// The suggestions drawn from `v` with distances `keys`: those at distance
/// 1, then those at distance 2, each group in its original order (a stable
/// sort by distance of those within `MAX_DISTANCE` and not equal).
pub open spec fn spec_suggestions(v: Seq<Seq<char>>, keys: Seq<nat>) -> Seq<Seq<char>> {
    with_distance(v, keys, 1) + with_distance(v, keys, 2)
}

/// The views of a slice of string slices.
pub open spec fn str_views(v: Seq<&str>) -> Seq<Seq<char>> {
    v.map_values(|s: &str| s@)
}

/// The distances from `pattern` to each candidate.
pub open spec fn distances_to(pattern: Seq<char>, v: Seq<Seq<char>>) -> Seq<nat> {
    v.map_values(|c: Seq<char>| edit_distance(pattern, c))
}

/// The name a path is compared by: its final component, or the whole path
/// when it has none.
pub open spec fn compared_name(path: Seq<char>) -> Seq<char> {
    match path_file_name(path) {
        Some(n) => n,
        None => path,
    }
}

/// Collects, in order, the entries of `candidates` whose distance in
/// `dists` equals `d`.
fn collect_with_distance(candidates: &[&str], dists: &Vec<usize>, d: usize, out: &mut Vec<String>)
    requires
        dists@.len() == candidates@.len(),
    ensures
        final(out)@.map_values(|s: String| s@) == old(out)@.map_values(|s: String| s@)
            + with_distance(
            str_views(candidates@),
            dists@.map_values(|x: usize| x as nat),
            d as nat,
        ),
{
    let ghost keys = dists@.map_values(|x: usize| x as nat);
    let ghost vs = str_views(candidates@);
    let ghost start = old(out)@.map_values(|s: String| s@);
    let mut i: usize = 0;
    while i < candidates.len()
        invariant
            dists@.len() == candidates@.len(),
            keys == dists@.map_values(|x: usize| x as nat),
            vs == str_views(candidates@),
            i <= candidates@.len(),
            out@.map_values(|s: String| s@) == start + with_distance(
                vs.take(i as int),
                keys.take(i as int),
                d as nat,
            ),
        decreases candidates.len() - i,
    {
        let ghost prev = out@;
        assert(vs.take(i + 1).drop_last() =~= vs.take(i as int));
        assert(keys.take(i + 1).drop_last() =~= keys.take(i as int));
        if dists[i] == d {
            out.push(owned(candidates[i]));
            assert(out@.map_values(|s: String| s@) =~= prev.map_values(|s: String| s@).push(
                candidates@[i as int]@,
            ));
        }
        i += 1;
    }
    assert(vs.take(candidates@.len() as int) =~= vs);
    assert(keys.take(candidates@.len() as int) =~= keys);
}

/// Find near-miss suggestions for a pattern among candidates.
///
/// Returns the candidates within `MAX_DISTANCE` edits of the pattern (an
/// exact match excluded), closest first, in their original order among
/// equals.
pub fn find_suggestions(pattern: &str, candidates: &[&str]) -> (r: Vec<String>)
    ensures
        r@.map_values(|s: String| s@) == spec_suggestions(
            str_views(candidates@),
            distances_to(pattern@, str_views(candidates@)),
        ),
{
    let mut dists: Vec<usize> = Vec::new();
    let mut i: usize = 0;
    while i < candidates.len()
        invariant
            i <= candidates@.len(),
            dists@.map_values(|x: usize| x as nat) == distances_to(
                pattern@,
                str_views(candidates@),
            ).take(i as int),
        decreases candidates.len() - i,
    {
        let d = levenshtein(pattern, candidates[i]);
        let ghost prev = dists@;
        assert(str_views(candidates@)[i as int] == candidates@[i as int]@);
        dists.push(d);
        assert(dists@.map_values(|x: usize| x as nat) =~= prev.map_values(|x: usize| x as nat).push(
            d as nat,
        ));
        i += 1;
        assert(dists@.map_values(|x: usize| x as nat) =~= distances_to(
            pattern@,
            str_views(candidates@),
        ).take(i as int));
    }
    assert(distances_to(pattern@, str_views(candidates@)).take(i as int) =~= distances_to(
        pattern@,
        str_views(candidates@),
    ));
    let mut out: Vec<String> = Vec::new();
    collect_with_distance(candidates, &dists, 1, &mut out);
    collect_with_distance(candidates, &dists, 2, &mut out);
    out
}

/// The name of a path that suggestions compare: its final component, or the
/// whole path when it has none.
fn name_of_path(path: &str) -> (r: String)
    ensures
        r@ == compared_name(path@),
{
    match file_name_of(path) {
        Some(n) => n,
        None => owned(path),
    }
}

/// Find near-miss path suggestions: the existing paths whose final
/// component is within `MAX_DISTANCE` edits of the path's final component
/// (and not equal to it), closest first, in their original order among
/// equals.
pub fn find_path_suggestions(path: &str, existing_paths: &[&str]) -> (r: Vec<String>)
    ensures
        r@.map_values(|s: String| s@) == spec_suggestions(
            str_views(existing_paths@),
            str_views(existing_paths@).map_values(
                |e: Seq<char>| edit_distance(compared_name(path@), compared_name(e)),
            ),
        ),
{
    let filename = name_of_path(path);
    let ghost keys = str_views(existing_paths@).map_values(
        |e: Seq<char>| edit_distance(compared_name(path@), compared_name(e)),
    );
    let mut dists: Vec<usize> = Vec::new();
    let mut i: usize = 0;
    while i < existing_paths.len()
        invariant
            i <= existing_paths@.len(),
            filename@ == compared_name(path@),
            keys == str_views(existing_paths@).map_values(
                |e: Seq<char>| edit_distance(compared_name(path@), compared_name(e)),
            ),
            dists@.map_values(|x: usize| x as nat) == keys.take(i as int),
        decreases existing_paths.len() - i,
    {
        let existing_name = name_of_path(existing_paths[i]);
        let d = levenshtein(filename.as_str(), existing_name.as_str());
        let ghost prev = dists@;
        assert(str_views(existing_paths@)[i as int] == existing_paths@[i as int]@);
        assert(keys[i as int] == d);
        dists.push(d);
        assert(dists@.map_values(|x: usize| x as nat) =~= prev.map_values(|x: usize| x as nat).push(
            d as nat,
        ));
        i += 1;
        assert(dists@.map_values(|x: usize| x as nat) =~= keys.take(i as int));
    }
    assert(keys.take(i as int) =~= keys);
    let mut out: Vec<String> = Vec::new();
    collect_with_distance(existing_paths, &dists, 1, &mut out);
    collect_with_distance(existing_paths, &dists, 2, &mut out);
    out
}

} // verus!
