//! What the host hands over about the file system: paths, which are carried
//! through as they are, and the outcome of reading a file.

use vstd::prelude::*;

verus! {

/// `std::path::PathBuf`: a path, carried as it is.
#[verifier::external_type_specification]
#[verifier::external_body]
pub struct ExPathBuf(std::path::PathBuf);

/// The text that a path prints as in its `Debug` form: quoted and escaped.
pub uninterp spec fn path_debug_text(p: std::path::PathBuf) -> Seq<char>;

/// The path that `Path::join` gives for a base path and a component.
pub uninterp spec fn path_joined(base: std::path::PathBuf, component: Seq<char>) -> std::path::PathBuf;

/// `Clone` for `PathBuf`: the copy equals the value it was made from.
pub assume_specification[ <std::path::PathBuf as Clone>::clone ](p: &std::path::PathBuf) -> (r:
    std::path::PathBuf)
    ensures
        r == *p,
;

/// `Debug` for a path: the quoted text that the path prints as.
#[verifier::external_body]
pub(crate) fn path_debug(p: &std::path::PathBuf) -> (r: String)
    ensures
        r@ == path_debug_text(*p),
{
    format!("{:?}", p)
}

/// `Path::join`: the base path with the component adjoined.
#[verifier::external_body]
pub(crate) fn join_path(base: &std::path::PathBuf, component: &str) -> (r: std::path::PathBuf)
    ensures
        r == path_joined(*base, component@),
{
    base.join(component)
}

/// `Path::exists`: whether the path points at something on disk. The answer
/// is the disk's, so nothing is stated of it.
#[verifier::external_body]
pub(crate) fn path_exists(p: &std::path::PathBuf) -> (r: bool) {
    p.exists()
}

/// `Path::is_dir`: whether the path points at a directory on disk. The answer
/// is the disk's, so nothing is stated of it.
#[verifier::external_body]
pub(crate) fn path_is_dir(p: &std::path::PathBuf) -> (r: bool) {
    p.is_dir()
}

/// `dirs::home_dir`: the home directory of the current user, where the
/// environment tells it.
#[verifier::external_body]
pub(crate) fn home_dir() -> (r: Option<std::path::PathBuf>) {
    dirs::home_dir()
}

/// The outcome of reading a document from a file that exists.
#[derive(Debug, Clone)]
pub enum Loaded<T> {
    /// The file could not be read; the text is the cause.
    Unreadable(String),
    /// The file was read and its text is not a document of the kind
    /// expected; the text is the cause.
    Malformed(String),
    /// The document, as written in the file.
    Parsed(T),
}

} // verus!
