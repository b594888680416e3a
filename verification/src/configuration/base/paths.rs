//! Base paths: the directories that other configured paths build on.

use vstd::prelude::*;

use crate::configuration::filesystem::{CanonicalPath, ExecutableDirectory};
use crate::configuration::traits::TryResolveWithContext;
use crate::configuration::utilities::Placeholders;
use crate::text::{replace, replace_all};

verus! {

/// Why the base paths could not be resolved.
#[derive(Debug, PartialEq, Eq)]
#[allow(inconsistent_fields)]
pub enum PathsConfigurationError {
    FailedToGetCurrentExecutable { error: Option<String> },
    PathIsNotUtf8 { path: String },
    BaseLibraryPathNotFound { original_path: String, final_path: String },
    BaseLibraryPathNotADirectory { original_path: String, final_path: String },
    FailedToCanonicalizeBaseLibraryPath { original_path: String, final_path: String, error: String },
    BaseToolsPathNotFound { original_path: String, final_path: String },
    BaseToolsPathNotADirectory { original_path: String, final_path: String },
    FailedToCanonicalizeBaseToolsPath { original_path: String, final_path: String, error: String },
}

/// The base paths as configured. Each may hold the placeholder
/// `{BINARY_DIRECTORY_PATH}`.
#[derive(Debug, PartialEq, Eq)]
pub struct UnresolvedPathsConfiguration {
    pub base_library_path: String,
    pub base_tools_path: String,
}

/// Base paths: reusable values such as the base library path and the base tools path,
/// both canonical.
#[derive(Debug, PartialEq, Eq)]
pub struct PathsConfiguration {
    pub base_library_path: String,
    pub base_tools_path: String,
}

/// What resolving the base paths needs from outside: the directory of the executable
/// and the outcome of canonicalizing each of the two final paths.
#[derive(Debug, PartialEq, Eq)]
pub struct PathsResolutionContext {
    pub executable_directory: ExecutableDirectory,
    pub base_library_path: CanonicalPath,
    pub base_tools_path: CanonicalPath,
}

/// `template` with the placeholder for the executable's directory filled in.
pub open spec fn with_binary_directory(template: Seq<char>, executable_directory: Seq<char>) -> Seq<
    char,
> {
    replace_all(template, "{BINARY_DIRECTORY_PATH}"@, executable_directory)
}

impl UnresolvedPathsConfiguration {
    /// The base library path to canonicalize: the configured one with the directory of
    /// the executable filled in.
    pub fn final_base_library_path(&self, executable_directory: &str) -> (path: String)
        ensures
            path@ == with_binary_directory(self.base_library_path@, executable_directory@),
    {
        replace(self.base_library_path.as_str(), "{BINARY_DIRECTORY_PATH}", executable_directory)
    }

    /// The base tools path to canonicalize: the configured one with the directory of
    /// the executable filled in.
    pub fn final_base_tools_path(&self, executable_directory: &str) -> (path: String)
        ensures
            path@ == with_binary_directory(self.base_tools_path@, executable_directory@),
    {
        replace(self.base_tools_path.as_str(), "{BINARY_DIRECTORY_PATH}", executable_directory)
    }
}

/// What resolving the base paths returns for given answers of the file system. The
/// first of these that applies decides: no executable directory; a base library path
/// that did not canonicalize or is not UTF-8; the same for the base tools path. A
/// failed canonicalization of either path is reported with the configured base
/// library path as the untransformed one.
pub open spec fn paths_resolution(
    unresolved: UnresolvedPathsConfiguration,
    context: PathsResolutionContext,
    result: Result<PathsConfiguration, PathsConfigurationError>,
) -> bool {
    match context.executable_directory {
        ExecutableDirectory::Unavailable { error } => result == Err::<
            PathsConfiguration,
            PathsConfigurationError,
        >(PathsConfigurationError::FailedToGetCurrentExecutable { error }),
        ExecutableDirectory::NotUtf8 { path } => result == Err::<
            PathsConfiguration,
            PathsConfigurationError,
        >(PathsConfigurationError::PathIsNotUtf8 { path }),
        ExecutableDirectory::Found { path: directory } => match context.base_library_path {
            CanonicalPath::Failed { error } => {
                &&& result matches Err(
                    PathsConfigurationError::FailedToCanonicalizeBaseLibraryPath {
                        original_path,
                        final_path,
                        error: reason,
                    },
                )
                &&& original_path == unresolved.base_library_path
                &&& final_path@ == with_binary_directory(
                    unresolved.base_library_path@,
                    directory@,
                )
                &&& reason == error
            },
            CanonicalPath::NotUtf8 { path } => result == Err::<
                PathsConfiguration,
                PathsConfigurationError,
            >(PathsConfigurationError::PathIsNotUtf8 { path }),
            CanonicalPath::Found { path: library, .. } => match context.base_tools_path {
                CanonicalPath::Failed { error } => {
                    &&& result matches Err(
                        PathsConfigurationError::FailedToCanonicalizeBaseToolsPath {
                            original_path,
                            final_path,
                            error: reason,
                        },
                    )
                    &&& original_path == unresolved.base_library_path
                    &&& final_path@ == with_binary_directory(
                        unresolved.base_tools_path@,
                        directory@,
                    )
                    &&& reason == error
                },
                CanonicalPath::NotUtf8 { path } => result == Err::<
                    PathsConfiguration,
                    PathsConfigurationError,
                >(PathsConfigurationError::PathIsNotUtf8 { path }),
                CanonicalPath::Found { path: tools, .. } => result == Ok::<
                    PathsConfiguration,
                    PathsConfigurationError,
                >(PathsConfiguration { base_library_path: library, base_tools_path: tools }),
            },
        },
    }
}

impl TryResolveWithContext for UnresolvedPathsConfiguration {
    type Resolved = PathsConfiguration;

    type Error = PathsConfigurationError;

    type Context = PathsResolutionContext;

    /// Resolves the base paths from what the file system answered.
    fn try_resolve(self, context: PathsResolutionContext) -> (result: Result<
        PathsConfiguration,
        PathsConfigurationError,
    >)
        ensures
            paths_resolution(self, context, result),
    {
        let executable_directory = match context.executable_directory {
            ExecutableDirectory::Unavailable { error } => {
                return Err(PathsConfigurationError::FailedToGetCurrentExecutable { error });
            },
            ExecutableDirectory::NotUtf8 { path } => {
                return Err(PathsConfigurationError::PathIsNotUtf8 { path });
            },
            ExecutableDirectory::Found { path } => path,
        };
        let base_library_path = match context.base_library_path {
            CanonicalPath::Failed { error } => {
                let final_path = self.final_base_library_path(executable_directory.as_str());
                return Err(
                    PathsConfigurationError::FailedToCanonicalizeBaseLibraryPath {
                        original_path: self.base_library_path,
                        final_path,
                        error,
                    },
                );
            },
            CanonicalPath::NotUtf8 { path } => {
                return Err(PathsConfigurationError::PathIsNotUtf8 { path });
            },
            CanonicalPath::Found { path, kind: _ } => path,
        };
        let base_tools_path = match context.base_tools_path {
            CanonicalPath::Failed { error } => {
                let final_path = self.final_base_tools_path(executable_directory.as_str());
                return Err(
                    PathsConfigurationError::FailedToCanonicalizeBaseToolsPath {
                        original_path: self.base_library_path,
                        final_path,
                        error,
                    },
                );
            },
            CanonicalPath::NotUtf8 { path } => {
                return Err(PathsConfigurationError::PathIsNotUtf8 { path });
            },
            CanonicalPath::Found { path, kind: _ } => path,
        };
        Ok(PathsConfiguration { base_library_path, base_tools_path })
    }
}

/// The placeholders that the base paths stand for: `{LIBRARY_DIRECTORY}` and
/// `{TOOLS_DIRECTORY}`, in this order.
pub open spec fn placeholders_of(paths: PathsConfiguration) -> Seq<(Seq<char>, Seq<char>)> {
    seq![
        ("{LIBRARY_DIRECTORY}"@, paths.base_library_path@),
        ("{TOOLS_DIRECTORY}"@, paths.base_tools_path@),
    ]
}

impl PathsConfiguration {
    /// The placeholders that other configured paths may use for the base paths.
    pub fn placeholders(&self) -> (placeholders: Placeholders)
        ensures
            crate::configuration::utilities::placeholder_pairs(placeholders@) == placeholders_of(
                *self,
            ),
    {
        let mut placeholders: Placeholders = Vec::new();
        placeholders.push(("{LIBRARY_DIRECTORY}".to_owned(), self.base_library_path.clone()));
        placeholders.push(("{TOOLS_DIRECTORY}".to_owned(), self.base_tools_path.clone()));
        placeholders
    }
}

impl Clone for PathsConfiguration {
    fn clone(&self) -> (copy: Self)
        ensures
            copy == *self,
    {
        PathsConfiguration {
            base_library_path: self.base_library_path.clone(),
            base_tools_path: self.base_tools_path.clone(),
        }
    }
}

} // verus!
