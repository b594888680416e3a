//! The aggregated library: where transcoded and copied files go.

use vstd::prelude::*;

use crate::configuration::base::paths::{placeholders_of, PathsConfiguration};
use crate::configuration::filesystem::CanonicalPath;
use crate::configuration::traits::TryResolveWithContext;
use crate::configuration::utilities::{replace_placeholders_in_str, with_placeholders_replaced};

verus! {

/// Why the aggregated library could not be resolved.
#[derive(Debug, PartialEq, Eq)]
pub enum AggregatedLibraryConfigurationError {
    ZeroTranscodeThreads,
    FailedToCanonicalizePath { original_path: String, final_path: String, error: String },
    PathIsNotUtf8 { path: String },
}

/// The aggregated library as configured. Its path may hold the placeholders of the
/// base paths.
#[derive(Debug, PartialEq, Eq)]
pub struct UnresolvedAggregatedLibraryConfiguration {
    pub path: String,
    pub transcode_threads: usize,
    pub failure_max_retries: u16,
    pub failure_delay_seconds: u16,
}

/// The aggregated library: the canonical path of its directory, the number of worker
/// threads, which is at least one, and how failures are retried.
#[derive(Debug, PartialEq, Eq)]
pub struct AggregatedLibraryConfiguration {
    pub path: String,
    pub transcode_threads: usize,
    pub failure_max_retries: u16,
    pub failure_delay_seconds: u16,
}

/// What resolving the aggregated library needs from outside: the base paths, and the
/// outcome of canonicalizing the final path.
#[derive(Debug, PartialEq, Eq)]
pub struct AggregatedLibraryResolutionContext {
    pub paths: PathsConfiguration,
    pub path: CanonicalPath,
}

impl UnresolvedAggregatedLibraryConfiguration {
    /// The path to canonicalize: the configured one with the base paths filled in.
    pub fn final_path(&self, paths: &PathsConfiguration) -> (path: String)
        ensures
            path@ == with_placeholders_replaced(self.path@, placeholders_of(*paths)),
    {
        replace_placeholders_in_str(self.path.as_str(), &paths.placeholders())
    }
}

/// What resolving the aggregated library returns for a given outcome of
/// canonicalizing its path: it fails where the path did not canonicalize or is not
/// UTF-8, and else where no worker thread is configured.
pub open spec fn aggregated_library_resolution(
    unresolved: UnresolvedAggregatedLibraryConfiguration,
    paths: PathsConfiguration,
    path: CanonicalPath,
    result: Result<AggregatedLibraryConfiguration, AggregatedLibraryConfigurationError>,
) -> bool {
    match path {
        CanonicalPath::Failed { error } => {
            &&& result matches Err(
                AggregatedLibraryConfigurationError::FailedToCanonicalizePath {
                    original_path,
                    final_path,
                    error: reason,
                },
            )
            &&& original_path == unresolved.path
            &&& final_path@ == with_placeholders_replaced(
                unresolved.path@,
                placeholders_of(paths),
            )
            &&& reason == error
        },
        CanonicalPath::NotUtf8 { path } => result == Err::<
            AggregatedLibraryConfiguration,
            AggregatedLibraryConfigurationError,
        >(AggregatedLibraryConfigurationError::PathIsNotUtf8 { path }),
        CanonicalPath::Found { path, .. } => if unresolved.transcode_threads == 0 {
            result == Err::<
                AggregatedLibraryConfiguration,
                AggregatedLibraryConfigurationError,
            >(AggregatedLibraryConfigurationError::ZeroTranscodeThreads)
        } else {
            result == Ok::<
                AggregatedLibraryConfiguration,
                AggregatedLibraryConfigurationError,
            >(
                AggregatedLibraryConfiguration {
                    path,
                    transcode_threads: unresolved.transcode_threads,
                    failure_max_retries: unresolved.failure_max_retries,
                    failure_delay_seconds: unresolved.failure_delay_seconds,
                },
            )
        },
    }
}

impl TryResolveWithContext for UnresolvedAggregatedLibraryConfiguration {
    type Resolved = AggregatedLibraryConfiguration;

    type Error = AggregatedLibraryConfigurationError;

    type Context = AggregatedLibraryResolutionContext;

    /// Resolves the aggregated library from what the file system answered.
    fn try_resolve(self, context: AggregatedLibraryResolutionContext) -> (result: Result<
        AggregatedLibraryConfiguration,
        AggregatedLibraryConfigurationError,
    >)
        ensures
            aggregated_library_resolution(self, context.paths, context.path, result),
            result matches Ok(library) ==> library.transcode_threads >= 1,
    {
        let canonical_aggregated_library_path = match context.path {
            CanonicalPath::Failed { error } => {
                let final_path = self.final_path(&context.paths);
                return Err(
                    AggregatedLibraryConfigurationError::FailedToCanonicalizePath {
                        original_path: self.path,
                        final_path,
                        error,
                    },
                );
            },
            CanonicalPath::NotUtf8 { path } => {
                return Err(AggregatedLibraryConfigurationError::PathIsNotUtf8 { path });
            },
            CanonicalPath::Found { path, kind: _ } => path,
        };
        if self.transcode_threads == 0 {
            return Err(AggregatedLibraryConfigurationError::ZeroTranscodeThreads);
        }
        Ok(
            AggregatedLibraryConfiguration {
                path: canonical_aggregated_library_path,
                transcode_threads: self.transcode_threads,
                failure_max_retries: self.failure_max_retries,
                failure_delay_seconds: self.failure_delay_seconds,
            },
        )
    }
}

} // verus!
