//! File paths, held as strings, and the parts of them that std's `Path` computes.
//!
//! `Path` splits a path by the separators of the platform the crate is built
//! for; the names below stand for what it computes there.

use std::path::Path;
use vstd::prelude::*;

verus! {

/// What std's `Path::file_name` gives for a path: its last normal component,
/// or nothing where the path ends in `..` or has no such component.
pub uninterp spec fn path_file_name_of(path: Seq<char>) -> Option<Seq<char>>;

/// The position of the last `.` in `name`, or -1 where there is none.
pub open spec fn last_dot(name: Seq<char>) -> int
    decreases name.len(),
{
    if name.len() == 0 {
        -1
    } else if name.last() == '.' {
        name.len() - 1
    } else {
        last_dot(name.drop_last())
    }
}

/// The extension of a file name, as std's `Path::extension` documents it:
/// none where the name has no `.`, or only one `.` that begins it; otherwise
/// the part of the name after its last `.`.
pub open spec fn extension_of_name(name: Seq<char>) -> Option<Seq<char>> {
    if last_dot(name) <= 0 {
        None
    } else {
        Some(name.subrange(last_dot(name) + 1, name.len() as int))
    }
}

/// What std's `Path::extension` gives for a path: none where the path has no
/// file name, otherwise the extension of its file name.
pub open spec fn path_extension_of(path: Seq<char>) -> Option<Seq<char>> {
    match path_file_name_of(path) {
        Some(name) => extension_of_name(name),
        None => None,
    }
}

/// What std's `Path::join` gives for a directory and a name pushed onto it.
pub uninterp spec fn path_join_of(dir: Seq<char>, name: Seq<char>) -> Seq<char>;

/// std's `Path::file_name`, on a path written as a string. The result is
/// named by `path_file_name_of`; nothing more is stated of it.
#[verifier::external_body]
pub(crate) fn path_file_name(path: &str) -> (r: Option<String>)
    ensures
        match r {
            Some(name) => path_file_name_of(path@) == Some(name@),
            None => path_file_name_of(path@) is None,
        },
{
    Path::new(path).file_name().map(|name| name.to_string_lossy().into_owned())
}

/// std's `Path::extension`, on a path written as a string: the extension of
/// the path's file name (named by `path_file_name_of`), by the rule that
/// std's documentation gives.
#[verifier::external_body]
pub(crate) fn path_extension(path: &str) -> (r: Option<String>)
    ensures
        match r {
            Some(ext) => path_extension_of(path@) == Some(ext@),
            None => path_extension_of(path@) is None,
        },
{
    Path::new(path).extension().map(|ext| ext.to_string_lossy().into_owned())
}

/// std's `Path::join`, on a directory and a name written as strings. The
/// result is named by `path_join_of`; nothing more is stated of it.
#[verifier::external_body]
pub(crate) fn path_join(dir: &str, name: &str) -> (r: String)
    ensures
        r@ == path_join_of(dir@, name@),
{
    Path::new(dir).join(name).to_string_lossy().into_owned()
}

} // verus!
