//! Filesystem paths as the shell sees them: opaque values that can be shown.

use std::path::PathBuf;
use vstd::prelude::*;

verus! {

/// `std::path::PathBuf`, carried through the library as an opaque value.
#[verifier::external_type_specification]
#[verifier::external_body]
pub struct ExPathBuf(std::path::PathBuf);

/// The text that `std::path::Path::display` prints for a path.
///
/// The text depends on the path alone. Where the path is not valid Unicode the
/// conversion is lossy, so two different paths may share one text.
pub uninterp spec fn display_text(path: PathBuf) -> Seq<char>;

/// Formats `path` with `std::path::Path::display`.
///
/// Trusted: the result is taken to be `display_text(*path)`, which names what
/// the standard library prints and says nothing else about it.
#[verifier::external_body]
pub(crate) fn display_string(path: &PathBuf) -> (shown: String)
    ensures
        shown@ == display_text(*path),
{
    format!("{}", path.display())
}

} // verus!
