//! What the file system answered when a configured path was looked up.
//!
//! Resolving a configuration never touches the disk. The caller canonicalizes each
//! path, looks at what is there, and hands the answer in as one of these values.

use vstd::prelude::*;

verus! {

/// What stands at a canonical path.
#[derive(Clone, Copy, Debug, PartialEq, Eq, Structural)]
pub enum PathKind {
    /// Nothing.
    Missing,
    /// A directory.
    Directory,
    /// A regular file.
    File,
    /// Something else.
    Other,
}

/// The outcome of canonicalizing a path.
#[derive(Debug, PartialEq, Eq)]
pub enum CanonicalPath {
    /// The path could not be canonicalized; `error` says why.
    Failed { error: String },
    /// The canonical path is not valid UTF-8; `path` shows it as far as it can be shown.
    NotUtf8 { path: String },
    /// The canonical path, and what stands there.
    Found { path: String, kind: PathKind },
}

/// The outcome of asking for the directory of the running executable.
#[derive(Debug, PartialEq, Eq)]
pub enum ExecutableDirectory {
    /// The executable could not be located, or has no parent directory.
    Unavailable { error: Option<String> },
    /// The directory's path is not valid UTF-8.
    NotUtf8 { path: String },
    /// The directory of the executable.
    Found { path: String },
}

impl Clone for CanonicalPath {
    fn clone(&self) -> (copy: Self)
        ensures
            copy == *self,
    {
        match self {
            CanonicalPath::Failed { error } => CanonicalPath::Failed { error: error.clone() },
            CanonicalPath::NotUtf8 { path } => CanonicalPath::NotUtf8 { path: path.clone() },
            CanonicalPath::Found { path, kind } => CanonicalPath::Found {
                path: path.clone(),
                kind: *kind,
            },
        }
    }
}

impl Clone for ExecutableDirectory {
    fn clone(&self) -> (copy: Self)
        ensures
            copy == *self,
    {
        match self {
            ExecutableDirectory::Unavailable { error } => ExecutableDirectory::Unavailable {
                error: match error {
                    Some(error) => Some(error.clone()),
                    None => None,
                },
            },
            ExecutableDirectory::NotUtf8 { path } => ExecutableDirectory::NotUtf8 {
                path: path.clone(),
            },
            ExecutableDirectory::Found { path } => ExecutableDirectory::Found {
                path: path.clone(),
            },
        }
    }
}

/// What reading and parsing a configuration file gave.
#[derive(Debug, PartialEq, Eq)]
pub enum LoadedFile<T> {
    /// There is no file at the path.
    Missing,
    /// The file could not be read; `error` says why.
    Unreadable { error: String },
    /// The file was read, but its contents are not valid TOML, or lack a field, or
    /// hold a value of the wrong type.
    Malformed { error: String },
    /// The contents of the file.
    Parsed { contents: T },
}

} // verus!
