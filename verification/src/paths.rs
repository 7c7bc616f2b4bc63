//! Path arithmetic, done by `std::path`.
//!
//! Paths are held as text. What the standard library makes of a path depends on
//! the platform the crate is built for (which characters separate components,
//! what counts as a prefix), so the results are given names here rather than
//! definitions: for one build they are functions of their arguments alone.

use vstd::prelude::*;

verus! {

/// Whether `std::path::Path::is_absolute` holds of `path`.
pub uninterp spec fn path_is_absolute(path: Seq<char>) -> bool;

/// What `std::path::Path::file_name` finds in `path`: its last component, unless
/// the path ends in the root or in `..`.
pub uninterp spec fn path_file_name(path: Seq<char>) -> Option<Seq<char>>;

/// What `std::path::Path::with_extension` makes of `path` and `extension`.
pub uninterp spec fn path_with_extension(path: Seq<char>, extension: Seq<char>) -> Seq<char>;

/// What `std::path::Path::join` makes of `base` and `tail`: `base` with `tail`
/// adjoined, as `std::path::PathBuf::push` adjoins it.
pub uninterp spec fn path_joined(base: Seq<char>, tail: Seq<char>) -> Seq<char>;

/// Whether `c` separates path components on some supported platform.
pub open spec fn is_separator(c: char) -> bool {
    c == '/' || c == '\\'
}

/// Whether `text` holds no path separator.
pub open spec fn separator_free(text: Seq<char>) -> bool {
    forall|i: int| 0 <= i < text.len() ==> !is_separator(#[trigger] text[i])
}

/// Calls `std::path::Path::is_absolute`. Trusted: the answer is the one named
/// by [`path_is_absolute`].
#[verifier::external_body]
pub(crate) fn is_absolute(path: &str) -> (absolute: bool)
    ensures
        absolute == path_is_absolute(path@),
{
    std::path::Path::new(path).is_absolute()
}

/// Calls `std::path::Path::file_name`. Trusted: the component found, or its
/// absence, is the one named by [`path_file_name`]. A component of a path
/// given as text is text again, so the conversion loses nothing.
#[verifier::external_body]
pub(crate) fn file_name(path: &str) -> (name: Option<String>)
    ensures
        name is Some <==> path_file_name(path@) is Some,
        name matches Some(n) ==> path_file_name(path@) == Some(n@),
{
    match std::path::Path::new(path).file_name() {
        Some(name) => Some(name.to_string_lossy().into_owned()),
        None => None,
    }
}

/// Calls `std::path::Path::with_extension`. Trusted: the result is the one
/// named by [`path_with_extension`]. The standard library panics on an
/// extension that holds a separator, which `requires` rules out. The path and
/// the extension are text, so the result is text and the conversion loses
/// nothing.
#[verifier::external_body]
pub(crate) fn with_extension(path: &str, extension: &str) -> (renamed: String)
    requires
        separator_free(extension@),
    ensures
        renamed@ == path_with_extension(path@, extension@),
{
    std::path::Path::new(path).with_extension(extension).to_string_lossy().into_owned()
}

/// Calls `std::path::Path::join`. Trusted: the result is the one named by
/// [`path_joined`]. Both paths are text, so their join is text too and the
/// conversion loses nothing.
#[verifier::external_body]
pub(crate) fn join(base: &str, tail: &str) -> (joined: String)
    ensures
        joined@ == path_joined(base@, tail@),
{
    std::path::Path::new(base).join(tail).to_string_lossy().into_owned()
}

} // verus!
