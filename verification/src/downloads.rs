//! Where a downloaded file goes: the file's name under the directory that
//! the caller found for downloads.

use vstd::prelude::*;
use std::path::PathBuf;
use crate::error::ErrorKind;

verus! {

/// A path of the file system, carried as an opaque value.
#[verifier::external_type_specification]
#[verifier::external_body]
pub struct ExPathBuf(PathBuf);

/// The path that `Path::join` makes of `dir` and the file name `name`.
pub uninterp spec fn joined(dir: PathBuf, name: Seq<char>) -> PathBuf;

/// Calls `Path::join`, which adjoins `name` to `dir` by the platform's
/// rules for paths.
///
/// Trusted: that the path made depends on `dir` and `name` alone, which is
/// all that naming it `joined` claims.
#[verifier::external_body]
fn join(dir: &PathBuf, name: &str) -> (path: PathBuf)
    ensures
        path == joined(*dir, name@),
{
    dir.join(name)
}

/// The text of a path, as `Path::to_string_lossy` gives it: the path
/// itself where it is valid Unicode.
pub uninterp spec fn path_text(path: PathBuf) -> Seq<char>;

/// Calls `Path::to_string_lossy` and owns the text that it gives.
///
/// Trusted: that the text depends on the path alone.
#[verifier::external_body]
fn text_of(path: &PathBuf) -> (text: String)
    ensures
        text@ == path_text(*path),
{
    path.to_string_lossy().into_owned()
}

/// The path of the file named `file_name` under the directory `dir`, or
/// `DirectoryResolutionError` where the caller found no directory. No
/// other directory is tried in its place.
pub fn place_in(dir: Option<PathBuf>, file_name: &str) -> (place: Result<PathBuf, ErrorKind>)
    ensures
        match dir {
            Some(dir) => place == Ok::<PathBuf, ErrorKind>(joined(dir, file_name@)),
            None => place == Err::<PathBuf, ErrorKind>(ErrorKind::DirectoryResolutionError),
        },
{
    match dir {
        Some(dir) => Ok(join(&dir, file_name)),
        None => Err(ErrorKind::DirectoryResolutionError),
    }
}

/// What the caller is told once the bytes have been written to `place`,
/// or could not be: the text of the path, or `IoError` with the system's
/// message.
pub fn saved_at(place: &PathBuf, written: Result<(), String>) -> (told: Result<String, ErrorKind>)
    ensures
        match written {
            Ok(_) => told matches Ok(text) && text@ == path_text(*place),
            Err(message) => told matches Err(ErrorKind::IoError(detail)) && detail@ == message@,
        },
{
    match written {
        Ok(_) => Ok(text_of(place)),
        Err(message) => Err(ErrorKind::IoError(message)),
    }
}

} // verus!
