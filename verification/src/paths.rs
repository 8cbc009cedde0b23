//! Paths.
//!
//! Paths are UTF-8 texts. The `camino` crate takes them apart and puts them
//! together, by the path syntax of the platform that the library is built for.

use vstd::prelude::*;

use camino::Utf8Path;

verus! {

/// The final component of a path, if the path has one: a path that ends in
/// `..`, or that holds only a root or prefix, has none.
pub uninterp spec fn file_name_of(path: Seq<char>) -> Option<Seq<char>>;

/// The path that adjoining a second path to a first gives.
pub uninterp spec fn joined_path(base: Seq<char>, path: Seq<char>) -> Seq<char>;

/// Calls `Utf8Path::file_name`, whose result depends on the path's text alone.
/// A file name is a component of the path: it is not empty, and it holds no
/// `/`, which separates components.
#[verifier::external_body]
pub(crate) fn utf8_path_file_name(path: &str) -> (name: Option<String>)
    ensures
        match name {
            Some(name) => file_name_of(path@) == Some(name@) && name@.len() > 0
                && !name@.contains('/'),
            None => file_name_of(path@) is None,
        },
{
    Utf8Path::new(path).file_name().map(String::from)
}

/// Calls `Utf8Path::join`, whose result depends on the texts of the two paths
/// alone.
#[verifier::external_body]
pub(crate) fn utf8_path_join(base: &str, path: &str) -> (joined: String)
    ensures
        joined@ == joined_path(base@, path@),
{
    Utf8Path::new(base).join(path).into_string()
}

/// Return the final component of a path, if the path has one. It is not
/// empty and holds no `/`.
pub fn file_name(path: &str) -> (name: Option<String>)
    ensures
        match name {
            Some(name) => file_name_of(path@) == Some(name@) && name@.len() > 0
                && !name@.contains('/'),
            None => file_name_of(path@) is None,
        },
{
    utf8_path_file_name(path)
}

/// Adjoin a path to a base path.
pub fn join(base: &str, path: &str) -> (joined: String)
    ensures
        joined@ == joined_path(base@, path@),
{
    utf8_path_join(base, path)
}

/// True when two paths are the same path: they have the same components.
pub uninterp spec fn same_path(left: Seq<char>, right: Seq<char>) -> bool;

/// True when the path matches the glob pattern.
pub uninterp spec fn glob_matches(pattern: Seq<char>, path: Seq<char>) -> bool;

/// Compares two paths with `==` on `Utf8Path`, whose result depends on the
/// texts of the two paths alone.
#[verifier::external_body]
pub(crate) fn utf8_path_eq(left: &str, right: &str) -> (same: bool)
    ensures
        same == same_path(left@, right@),
{
    Utf8Path::new(left) == Utf8Path::new(right)
}

/// Calls `fast_glob::glob_match`, whose result depends on the pattern and
/// the path alone.
#[verifier::external_body]
pub(crate) fn fast_glob_match(pattern: &str, path: &str) -> (matches: bool)
    ensures
        matches == glob_matches(pattern@, path@),
{
    fast_glob::glob_match(pattern, path)
}

/// True when two paths are the same path.
pub fn is_same_path(left: &str, right: &str) -> (same: bool)
    ensures
        same == same_path(left@, right@),
{
    utf8_path_eq(left, right)
}

/// True when the path matches the glob pattern.
pub fn matches_glob(pattern: &str, path: &str) -> (matches: bool)
    ensures
        matches == glob_matches(pattern@, path@),
{
    fast_glob_match(pattern, path)
}

/// True when the first path comes before the second in the order of paths,
/// which compares them component by component.
pub uninterp spec fn path_precedes(first: Seq<char>, second: Seq<char>) -> bool;

/// Compares two paths with `<` on `Utf8Path`, whose result depends on the
/// texts of the two paths alone.
#[verifier::external_body]
pub(crate) fn utf8_path_lt(first: &str, second: &str) -> (precedes: bool)
    ensures
        precedes == path_precedes(first@, second@),
{
    Utf8Path::new(first) < Utf8Path::new(second)
}

/// True when the first path comes before the second in the order of paths.
pub fn precedes(first: &str, second: &str) -> (precedes: bool)
    ensures
        precedes == path_precedes(first@, second@),
{
    utf8_path_lt(first, second)
}

} // verus!
