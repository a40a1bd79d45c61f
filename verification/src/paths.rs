//! Paths of the file system, as far as the library reads them: a path is
//! carried as it is, and what is made of it is known by name.

use std::path::PathBuf;
use vstd::prelude::*;
use crate::text::text_of;

verus! {

/// `std::path::PathBuf`, carried as it is: nothing is known of what a path
/// holds but what the names below say.
#[verifier::external_type_specification]
#[verifier::external_body]
pub struct ExPathBuf(PathBuf);

/// The path that `Path::join` makes of a base and a name.
pub uninterp spec fn joined_path(base: PathBuf, name: Seq<char>) -> PathBuf;

/// The text of a path, where the path is Unicode.
pub uninterp spec fn path_text(path: PathBuf) -> Option<Seq<char>>;

/// Adjoins a name to a path with `Path::join`. The result is a function of
/// the two, on a given platform.
#[verifier::external_body]
pub(crate) fn join_path(base: &PathBuf, name: &str) -> (r: PathBuf)
    ensures
        r == joined_path(*base, name@),
{
    base.join(name)
}

/// The text of a path, by `Path::to_str`: a function of the path, absent
/// where the path is not Unicode.
#[verifier::external_body]
pub(crate) fn text_of_path(path: &PathBuf) -> (r: Option<String>)
    ensures
        text_of(r) == path_text(*path),
{
    match path.to_str() {
        Some(text) => Some(text.to_owned()),
        None => None,
    }
}

/// The last component of a path, where it has one.
pub uninterp spec fn file_name_of(path: PathBuf) -> Option<PathBuf>;

/// The last component of a path, by `Path::file_name`: a function of the
/// path, absent where the path ends in `..` or is a root.
#[verifier::external_body]
pub(crate) fn file_name(path: &PathBuf) -> (r: Option<PathBuf>)
    ensures
        r == file_name_of(*path),
{
    match path.file_name() {
        Some(name) => Some(PathBuf::from(name)),
        None => None,
    }
}

/// `PathBuf::clone` gives a path equal to the one it copies.
pub assume_specification[ <PathBuf as Clone>::clone ](path: &PathBuf) -> (r: PathBuf)
    ensures
        r == *path,
;

} // verus!
