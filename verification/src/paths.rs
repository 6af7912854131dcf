//! Paths below the working root.

use vstd::prelude::*;

verus! {

/// The path that `std::path::Path::join` gives for `relative` below `root`,
/// on the platform that the crate is built for.
pub uninterp spec fn joined_path(root: Seq<char>, relative: Seq<char>) -> Seq<char>;

/// Calls `std::path::Path::join`.
///
/// Trusted: the result is a function of the two texts alone, which
/// [`joined_path`] names. The join reads neither the disk nor the
/// environment, and both arguments are valid UTF-8, so nothing is lost when
/// the joined path is turned back into a `String`.
#[verifier::external_body]
pub(crate) fn join_path(root: &str, relative: &str) -> (path: String)
    ensures
        path@ == joined_path(root@, relative@),
{
    std::path::Path::new(root).join(relative).to_string_lossy().into_owned()
}

} // verus!
