//! File-system paths, taken as text.

use vstd::prelude::*;
use std::path::Path;

verus! {

/// The text of an optional string.
pub open spec fn option_view(o: Option<String>) -> Option<Seq<char>> {
    match o {
        Some(s) => Some(s@),
        None => None,
    }
}

/// What `std::path::Path::file_name` gives for the path: its last component,
/// or `None` when the path ends in `..` or has no component.
pub uninterp spec fn path_file_name(path: Seq<char>) -> Option<Seq<char>>;

/// Calls `std::path::Path::file_name` on the path. The contract claims that the
/// result is `path_file_name` of the path's text; the name is a part of that
/// text, so turning it back into a `String` loses nothing.
#[verifier::external_body]
pub(crate) fn file_name(path: &String) -> (r: Option<String>)
    ensures
        option_view(r) == path_file_name(path@),
{
    match Path::new(path.as_str()).file_name() {
        Some(name) => Some(name.to_string_lossy().into_owned()),
        None => None,
    }
}

/// What `std::path::Path::join` gives for `base` joined with `rel`, as text.
pub uninterp spec fn path_join(base: Seq<char>, rel: Seq<char>) -> Seq<char>;

/// What `std::path::Path::parent` gives for the path, as text: `None` for a
/// root or an empty path.
pub uninterp spec fn path_parent(path: Seq<char>) -> Option<Seq<char>>;

/// Calls `std::path::Path::join`. The contract claims that the result's text
/// is `path_join` of the two texts; both are valid UTF-8, and so is their
/// join, so the conversion back to a `String` loses nothing.
#[verifier::external_body]
pub(crate) fn join(base: &str, rel: &str) -> (r: String)
    ensures
        r@ == path_join(base@, rel@),
{
    Path::new(base).join(rel).to_string_lossy().into_owned()
}

/// Calls `std::path::Path::parent`. The contract claims that the result's
/// text is `path_parent` of the path's text; a parent is a part of that text,
/// so the conversion back to a `String` loses nothing.
#[verifier::external_body]
pub(crate) fn parent(path: &str) -> (r: Option<String>)
    ensures
        option_view(r) == path_parent(path@),
{
    match Path::new(path).parent() {
        Some(p) => Some(p.to_string_lossy().into_owned()),
        None => None,
    }
}

} // verus!
