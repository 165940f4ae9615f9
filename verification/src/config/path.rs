//! File paths, as far as the rules need them.
//!
//! Paths are kept as strings. Whether one is relative, and what joining two of
//! them gives, is answered by `std::path` for the platform the crate is built
//! for; both answers are taken on trust and given a name.

use vstd::prelude::*;

verus! {

/// Whether `path` is relative: what `Path::is_relative` returns.
pub uninterp spec fn path_is_relative(path: Seq<char>) -> bool;

/// `path` adjoined to `base`: what `Path::join` returns.
pub uninterp spec fn path_join(base: Seq<char>, path: Seq<char>) -> Seq<char>;

/// Where `path` points when relative paths start at `base`.
pub open spec fn resolved_path(base: Seq<char>, path: Seq<char>) -> Seq<char> {
    if path_is_relative(path) {
        path_join(base, path)
    } else {
        path
    }
}

/// `Path::is_relative`: whether `path` is not absolute.
#[verifier::external_body]
pub(crate) fn is_relative(path: &str) -> (relative: bool)
    ensures
        relative == path_is_relative(path@),
{
    std::path::Path::new(path).is_relative()
}

/// `Path::join`: `base` with `path` adjoined. Both are UTF-8, so the joined
/// path is, and nothing is lost on the way back to a string.
#[verifier::external_body]
pub(crate) fn join(base: &str, path: &str) -> (joined: String)
    ensures
        joined@ == path_join(base@, path@),
{
    std::path::Path::new(base).join(path).to_string_lossy().into_owned()
}

/// Resolves `path` against `base`: a relative path is adjoined to `base`, an
/// absolute one is kept.
pub fn resolve_path(base: &str, path: &str) -> (resolved: String)
    ensures
        resolved@ == resolved_path(base@, path@),
{
    if is_relative(path) {
        join(base, path)
    } else {
        path.to_owned()
    }
}

} // verus!
