//! File-system paths, held as text.
//!
//! The engine never touches the file system. It only builds the paths that
//! it asks its caller to act on, with the standard library's own rules for
//! the platform it is compiled for.

use vstd::prelude::*;

verus! {

/// What `std::path::Path::join` gives for `base` joined with `child`.
pub uninterp spec fn joined_path(base: Seq<char>, child: Seq<char>) -> Seq<char>;

/// What `std::path::Path::file_name` gives for `path`: its final component,
/// if it has one.
pub uninterp spec fn final_component(path: Seq<char>) -> Option<Seq<char>>;

/// `std::path::Path::join`, on text.
///
/// Trusted: the result depends on the two texts alone. Both are valid
/// UTF-8, so the joined path is too and converts back to text unchanged.
#[verifier::external_body]
pub(crate) fn join_path(base: &str, child: &str) -> (r: String)
    ensures
        r@ == joined_path(base@, child@),
{
    std::path::Path::new(base).join(child).to_string_lossy().into_owned()
}

/// `std::path::Path::file_name`, on text.
///
/// Trusted: the result depends on the text alone. A component of a path
/// that is valid UTF-8 is valid UTF-8 and converts back to text unchanged.
#[verifier::external_body]
pub(crate) fn file_name(path: &str) -> (r: Option<String>)
    ensures
        r.deep_view() == final_component(path@),
{
    match std::path::Path::new(path).file_name() {
        Some(name) => Some(name.to_string_lossy().into_owned()),
        None => None,
    }
}

} // verus!
