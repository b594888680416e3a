//! A library's name, place and options.

use vstd::prelude::*;

use super::transcoding::{LibraryTranscodingConfiguration, UnresolvedLibraryTranscodingConfiguration};
use super::validation::{LibraryValidationConfiguration, UnresolvedLibraryValidationConfiguration};
use crate::configuration::base::paths::{placeholders_of, PathsConfiguration};
use crate::configuration::filesystem::{CanonicalPath, PathKind};
use crate::configuration::traits::{Resolve, TryResolveWithContext};
use crate::configuration::utilities::{replace_placeholders_in_str, with_placeholders_replaced};
use crate::text::{lowercase_each, texts_of};

verus! {

/// Why a library could not be resolved.
#[derive(Debug, PartialEq, Eq)]
pub enum LibraryConfigurationError {
    LibraryPathNotFound { library_path: String },
    LibraryPathNotDirectory { library_path: String },
    FailedToCanonicalizeLibraryPath { original_path: String, final_path: String, error: String },
    LibraryPathIsNotUtf8 { path: String },
}

/// A library as configured. Its path may hold the placeholders of the base paths.
#[derive(Debug, PartialEq, Eq)]
pub struct UnresolvedLibraryConfiguration {
    pub name: String,
    pub path: String,
    pub ignored_directories_in_base_directory: Option<Vec<String>>,
    pub validation: UnresolvedLibraryValidationConfiguration,
    pub transcoding: UnresolvedLibraryTranscodingConfiguration,
}

/// A library: its display name, the canonical path of its directory, and its options.
#[derive(Debug, PartialEq, Eq)]
#[non_exhaustive]
pub struct LibraryConfiguration {
    pub name: String,
    pub path: String,
    pub ignored_directories_in_base_directory: Option<Vec<String>>,
    pub validation: LibraryValidationConfiguration,
    pub transcoding: LibraryTranscodingConfiguration,
}

/// What resolving a library needs from outside: the base paths, and the outcome of
/// canonicalizing the library's final path.
#[derive(Debug, PartialEq, Eq)]
pub struct LibraryResolutionContext {
    pub paths: PathsConfiguration,
    pub library_path: CanonicalPath,
}

impl UnresolvedLibraryConfiguration {
    /// The library path to canonicalize: the configured one with the base paths
    /// filled in.
    pub fn final_path(&self, paths: &PathsConfiguration) -> (path: String)
        ensures
            path@ == with_placeholders_replaced(self.path@, placeholders_of(*paths)),
    {
        replace_placeholders_in_str(self.path.as_str(), &paths.placeholders())
    }
}

/// What resolving a library returns for a given outcome of canonicalizing its path:
/// it fails where the path did not canonicalize, is not UTF-8, leads nowhere or leads
/// to something that is no directory.
pub open spec fn library_resolution(
    unresolved: UnresolvedLibraryConfiguration,
    paths: PathsConfiguration,
    library_path: CanonicalPath,
    result: Result<LibraryConfiguration, LibraryConfigurationError>,
) -> bool {
    match library_path {
        CanonicalPath::Failed { error } => {
            &&& result matches Err(
                LibraryConfigurationError::FailedToCanonicalizeLibraryPath {
                    original_path,
                    final_path,
                    error: reason,
                },
            )
            &&& original_path == unresolved.path
            &&& final_path@ == with_placeholders_replaced(
                unresolved.path@,
                placeholders_of(paths),
            )
            &&& reason == error
        },
        CanonicalPath::NotUtf8 { path } => result == Err::<
            LibraryConfiguration,
            LibraryConfigurationError,
        >(LibraryConfigurationError::LibraryPathIsNotUtf8 { path }),
        CanonicalPath::Found { path, kind } => match kind {
            PathKind::Missing => result == Err::<
                LibraryConfiguration,
                LibraryConfigurationError,
            >(LibraryConfigurationError::LibraryPathNotFound { library_path: path }),
            PathKind::Directory => {
                &&& result matches Ok(library)
                &&& library.name == unresolved.name
                &&& library.path == path
                &&& library.ignored_directories_in_base_directory
                    == unresolved.ignored_directories_in_base_directory
                &&& texts_of(library.validation.allowed_audio_file_extensions@)
                    == lowercase_each(
                    texts_of(unresolved.validation.allowed_audio_file_extensions@),
                )
                &&& texts_of(library.validation.allowed_other_file_extensions@)
                    == lowercase_each(
                    texts_of(unresolved.validation.allowed_other_file_extensions@),
                )
                &&& library.validation.allowed_other_files_by_name
                    == unresolved.validation.allowed_other_files_by_name
                &&& texts_of(library.transcoding.audio_file_extensions@) == lowercase_each(
                    texts_of(unresolved.transcoding.audio_file_extensions@),
                )
                &&& texts_of(library.transcoding.other_file_extensions@) == lowercase_each(
                    texts_of(unresolved.transcoding.other_file_extensions@),
                )
                &&& texts_of(library.transcoding.all_tracked_extensions@) == texts_of(
                    library.transcoding.audio_file_extensions@,
                ) + texts_of(library.transcoding.other_file_extensions@)
            },
            _ => result == Err::<LibraryConfiguration, LibraryConfigurationError>(
                LibraryConfigurationError::LibraryPathNotDirectory { library_path: path },
            ),
        },
    }
}

impl TryResolveWithContext for UnresolvedLibraryConfiguration {
    type Resolved = LibraryConfiguration;

    type Error = LibraryConfigurationError;

    type Context = LibraryResolutionContext;

    /// Resolves the library from what the file system answered.
    fn try_resolve(self, context: LibraryResolutionContext) -> (result: Result<
        LibraryConfiguration,
        LibraryConfigurationError,
    >)
        ensures
            library_resolution(self, context.paths, context.library_path, result),
    {
        let canonical_library_path = match context.library_path {
            CanonicalPath::Failed { error } => {
                let final_path = self.final_path(&context.paths);
                return Err(
                    LibraryConfigurationError::FailedToCanonicalizeLibraryPath {
                        original_path: self.path,
                        final_path,
                        error,
                    },
                );
            },
            CanonicalPath::NotUtf8 { path } => {
                return Err(LibraryConfigurationError::LibraryPathIsNotUtf8 { path });
            },
            CanonicalPath::Found { path, kind } => {
                match kind {
                    PathKind::Missing => {
                        return Err(
                            LibraryConfigurationError::LibraryPathNotFound { library_path: path },
                        );
                    },
                    PathKind::Directory => path,
                    _ => {
                        return Err(
                            LibraryConfigurationError::LibraryPathNotDirectory {
                                library_path: path,
                            },
                        );
                    },
                }
            },
        };
        Ok(
            LibraryConfiguration {
                name: self.name,
                path: canonical_library_path,
                ignored_directories_in_base_directory: self.ignored_directories_in_base_directory,
                validation: self.validation.resolve(),
                transcoding: self.transcoding.resolve(),
            },
        )
    }
}

} // verus!
