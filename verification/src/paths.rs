//! Paths as the workspace uses them: UTF-8 text, taken apart by `camino`.
//!
//! How a path splits into components is decided by the path syntax of the
//! platform the library is built for. The library does not restate those
//! rules. Each function below names what `camino` answers for a given text
//! and states nothing further about it.

use biome_fs::ConfigName;
use camino::Utf8Path;
use vstd::prelude::*;

verus! {

/// The extension of a path's last component, as `Utf8Path::extension` gives it.
pub uninterp spec fn path_extension(path: Seq<char>) -> Option<Seq<char>>;

/// A path's last component, as `Utf8Path::file_name` gives it.
pub uninterp spec fn path_file_name(path: Seq<char>) -> Option<Seq<char>>;

/// The path itself, then its parent, and so on up to the top, as
/// `Utf8Path::ancestors` yields them.
pub uninterp spec fn path_ancestors(path: Seq<char>) -> Seq<Seq<char>>;

/// Whether `base` is a prefix of `path`, component by component, as
/// `Utf8Path::starts_with` decides it.
pub uninterp spec fn path_starts_with(path: Seq<char>, base: Seq<char>) -> bool;

/// Whether a path is rooted, as `Utf8Path::has_root` decides it.
pub uninterp spec fn path_has_root(path: Seq<char>) -> bool;

/// `name` appended to `dir` as one more component, as `Utf8Path::join` builds
/// it.
pub uninterp spec fn path_join(dir: Seq<char>, name: Seq<char>) -> Seq<char>;

/// The view of an optional string.
pub open spec fn text_of(value: Option<String>) -> Option<Seq<char>> {
    match value {
        Some(s) => Some(s@),
        None => None,
    }
}

/// The views of a list of strings.
pub open spec fn texts_of(values: Seq<String>) -> Seq<Seq<char>> {
    Seq::new(values.len(), |i: int| values[i]@)
}

/// Calls `Utf8Path::extension`. The contract gives the result its name, and
/// says one thing of it that the function's documentation says: a path
/// without file name has no extension.
#[verifier::external_body]
pub(crate) fn extension(path: &str) -> (r: Option<String>)
    ensures
        text_of(r) == path_extension(path@),
        r is Some ==> path_file_name(path@) is Some,
{
    Utf8Path::new(path).extension().map(|e| e.to_owned())
}

/// Calls `Utf8Path::file_name`. The contract gives the result its name.
#[verifier::external_body]
pub(crate) fn file_name(path: &str) -> (r: Option<String>)
    ensures
        text_of(r) == path_file_name(path@),
{
    Utf8Path::new(path).file_name().map(|n| n.to_owned())
}

/// Calls `Utf8Path::ancestors` and copies each ancestor's text. The contract
/// gives the result its name.
#[verifier::external_body]
pub(crate) fn ancestors(path: &str) -> (r: Vec<String>)
    ensures
        texts_of(r@) == path_ancestors(path@),
{
    Utf8Path::new(path).ancestors().map(|a| a.as_str().to_owned()).collect()
}

/// Calls `Utf8Path::starts_with`. The contract gives the result its name.
#[verifier::external_body]
pub(crate) fn starts_with(path: &str, base: &str) -> (r: bool)
    ensures
        r == path_starts_with(path@, base@),
{
    Utf8Path::new(path).starts_with(base)
}

/// Calls `Utf8Path::has_root`. The contract gives the result its name.
#[verifier::external_body]
pub(crate) fn has_root(path: &str) -> (r: bool)
    ensures
        r == path_has_root(path@),
{
    Utf8Path::new(path).has_root()
}

/// Calls `Utf8Path::join`. The contract gives the result its name.
#[verifier::external_body]
pub(crate) fn join(dir: &str, name: &str) -> (r: String)
    ensures
        r@ == path_join(dir@, name@),
{
    Utf8Path::new(dir).join(name).into_string()
}

/// The two file names under which a root configuration is looked for, in the
/// order in which they are tried.
pub open spec fn config_names() -> Seq<Seq<char>> {
    seq!["biome.json"@, "biome.jsonc"@]
}

/// Calls `biome_fs::ConfigName::file_names`, which lists `biome.json` and then
/// `biome.jsonc`.
#[verifier::external_body]
pub(crate) fn config_file_names() -> (r: Vec<String>)
    ensures
        texts_of(r@) == config_names(),
{
    ConfigName::file_names().iter().map(|n| (*n).to_owned()).collect()
}

} // verus!
