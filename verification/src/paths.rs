//! File system paths, handled by the `camino` crate.
use vstd::prelude::*;

use camino::Utf8Path;

verus! {

/// Final component of a path, as `Utf8Path::file_name` gives it.
pub uninterp spec fn path_file_name(path: Seq<char>) -> Option<Seq<char>>;

/// A path with another adjoined, as `Utf8Path::join` gives it.
pub uninterp spec fn path_joined(base: Seq<char>, path: Seq<char>) -> Seq<char>;

/// `camino::Utf8Path::file_name`. Claimed: the result is the name `path_file_name` of the
/// path. The crate's rules (a directory's own name, `None` for a path ending in `..` or for
/// the root) are not restated here.
#[verifier::external_body]
pub(crate) fn file_name(path: &str) -> (r: Option<String>)
    ensures
        match r {
            Some(n) => path_file_name(path@) == Some(n@),
            None => path_file_name(path@) is None,
        },
{
    Utf8Path::new(path).file_name().map(|s| s.to_string())
}

/// `camino::Utf8Path::join`. Claimed: the result is the name `path_joined` of the two
/// paths.
#[verifier::external_body]
pub(crate) fn join(base: &str, path: &str) -> (r: String)
    ensures
        r@ == path_joined(base@, path@),
{
    Utf8Path::new(base).join(path).into_string()
}

} // verus!
