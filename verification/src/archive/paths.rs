//! The two `std::path` computations the storage system relies on.
//!
//! `std::path::Path` equality compares paths component by component
//! (`a/b`, `a//b` and `a/b/` are the same path), so archives are keyed by
//! the components of their path. Both results are fixed by the path syntax
//! of the target the crate is built for.

use vstd::prelude::*;

verus! {

/// The components of `path` as `std::path::Path::components` yields them,
/// each as a string.
pub uninterp spec fn path_components(path: Seq<char>) -> Seq<Seq<char>>;

/// `path` joined onto `root`, as `std::path::Path::join` forms it.
pub uninterp spec fn joined_path(root: Seq<char>, path: Seq<char>) -> Seq<char>;

/// `std::path::Path::components`: each component converted to a string.
/// The components of a `str` path are `str` slices, so the conversion
/// loses nothing. Claimed: the result is [`path_components`] of `path`.
#[verifier::external_body]
pub(crate) fn components_of(path: &str) -> (parts: Vec<String>)
    ensures
        parts.deep_view() == path_components(path@),
{
    std::path::Path::new(path).components().map(|c| c.as_os_str().to_string_lossy().into_owned()).collect()
}

/// `std::path::Path::join`, converted to a string (lossless, as both
/// inputs are `str`). Claimed: the result is [`joined_path`] of the inputs.
#[verifier::external_body]
pub(crate) fn join_path(root: &str, path: &str) -> (joined: String)
    ensures
        joined@ == joined_path(root@, path@),
{
    std::path::Path::new(root).join(path).to_string_lossy().into_owned()
}

} // verus!
