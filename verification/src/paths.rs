//! What the classifier asks of a path's text. The answers come from
//! `std::path`, which parses the text as the platform's paths are written.

use vstd::prelude::*;

verus! {

/// Whether the components of `tail` are the last components of `path`,
/// as `std::path::Path::ends_with` decides it.
pub uninterp spec fn path_ends_with(path: Seq<char>, tail: Seq<char>) -> bool;

/// Whether the two paths have the same parent directory: whether
/// `std::path::Path::parent` gives equal results for them.
pub uninterp spec fn same_parent(first: Seq<char>, second: Seq<char>) -> bool;

/// Calls `std::path::Path::ends_with` on the two texts. Trusted: the result
/// is the value that [`path_ends_with`] names, nothing more is claimed.
#[verifier::external_body]
pub(crate) fn ends_with_path(path: &str, tail: &str) -> (r: bool)
    ensures
        r == path_ends_with(path@, tail@),
{
    std::path::Path::new(path).ends_with(tail)
}

/// Calls `std::path::Path::parent` on each text and compares the two
/// results. Trusted: the result is the value that [`same_parent`] names,
/// nothing more is claimed.
#[verifier::external_body]
pub(crate) fn parents_match(first: &str, second: &str) -> (r: bool)
    ensures
        r == same_parent(first@, second@),
{
    std::path::Path::new(first).parent() == std::path::Path::new(second).parent()
}

} // verus!
