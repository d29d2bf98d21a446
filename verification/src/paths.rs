//! The path operations that descriptors rest on.
//!
//! Paths are held as text. What the standard library makes of two paths is
//! named here and left uninterpreted: the descriptors only rely on the same
//! paths giving the same answer.

use vstd::prelude::*;

verus! {

/// Whether `std::path::Path::is_relative` holds of `path`.
pub uninterp spec fn is_relative_path(path: Seq<char>) -> bool;

/// The text of what `std::path::Path::join` makes of `base` and `path`.
pub uninterp spec fn joined_path(base: Seq<char>, path: Seq<char>) -> Seq<char>;

/// Whether `std::path::Path::starts_with` holds of `path` and `base`.
pub uninterp spec fn path_starts_with(path: Seq<char>, base: Seq<char>) -> bool;

/// Calls `std::path::Path::is_relative` on `path`. The contract only names
/// the answer.
#[verifier::external_body]
pub(crate) fn is_relative(path: &str) -> (r: bool)
    ensures
        r == is_relative_path(path@),
{
    std::path::Path::new(path).is_relative()
}

/// Calls `std::path::Path::join` on `base` and `path` and gives the result
/// as text. The contract only names the result.
#[verifier::external_body]
pub(crate) fn join(base: &str, path: &str) -> (r: String)
    ensures
        r@ == joined_path(base@, path@),
{
    std::path::Path::new(base).join(path).to_string_lossy().into_owned()
}

/// Calls `std::path::Path::starts_with` on `path` and `base`: whether the
/// components of `base` are the leading components of `path`. The contract
/// only names the answer.
#[verifier::external_body]
pub(crate) fn starts_with(path: &str, base: &str) -> (r: bool)
    ensures
        r == path_starts_with(path@, base@),
{
    std::path::Path::new(path).starts_with(base)
}

} // verus!
