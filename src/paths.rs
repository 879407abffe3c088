//! Checks on a path named on the command line, decided from what the file
//! system reported about it.

use vstd::prelude::*;

verus! {

/// What the file system holds at a path.
#[derive(Debug, Clone, Copy, PartialEq, Eq, Structural)]
pub enum PathKind {
    /// Nothing.
    Missing,
    /// A regular file.
    File,
    /// Something other than a regular file, such as a directory.
    Other,
}

/// Why a path cannot be read as a document; each holds the path.
#[derive(Debug, Clone)]
pub enum FileError {
    NotFound(String),
    NotAFile(String),
}

/// The message of a `FileError`.
pub open spec fn file_error_text(e: FileError) -> Seq<char> {
    match e {
        FileError::NotFound(p) => "File not found: "@ + p@,
        FileError::NotAFile(p) => "Path is not a file: "@ + p@,
    }
}

impl FileError {
    /// The message for the user.
    pub fn message(&self) -> (r: String)
        ensures
            r@ == file_error_text(*self),
    {
        match self {
            FileError::NotFound(p) => {
                let mut r = String::from_str("File not found: ");
                r.append(p.as_str());
                r
            },
            FileError::NotAFile(p) => {
                let mut r = String::from_str("Path is not a file: ");
                r.append(p.as_str());
                r
            },
        }
    }
}

/// The path, if something exists there.
pub fn assert_exists(path: &str, kind: PathKind) -> (r: Result<&str, FileError>)
    ensures
        kind == PathKind::Missing ==> (r matches Err(FileError::NotFound(p)) && p@ == path@),
        kind != PathKind::Missing ==> (r matches Ok(p) && p@ == path@),
{
    if kind == PathKind::Missing {
        return Err(FileError::NotFound(String::from_str(path)));
    }
    Ok(path)
}

/// The path, if a regular file is there.
pub fn assert_is_file(path: &str, kind: PathKind) -> (r: Result<&str, FileError>)
    ensures
        kind != PathKind::File ==> (r matches Err(FileError::NotAFile(p)) && p@ == path@),
        kind == PathKind::File ==> (r matches Ok(p) && p@ == path@),
{
    if kind != PathKind::File {
        return Err(FileError::NotAFile(String::from_str(path)));
    }
    Ok(path)
}

/// The path of a document to read: it must exist, and be a regular file.
pub fn get_file_path(path: &str, kind: PathKind) -> (r: Result<&str, FileError>)
    ensures
        kind == PathKind::Missing ==> (r matches Err(FileError::NotFound(p)) && p@ == path@),
        kind == PathKind::Other ==> (r matches Err(FileError::NotAFile(p)) && p@ == path@),
        kind == PathKind::File ==> (r matches Ok(p) && p@ == path@),
{
    match assert_exists(path, kind) {
        Ok(p) => assert_is_file(p, kind),
        Err(e) => Err(e),
    }
}

} // verus!
