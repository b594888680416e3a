//! The external tools that do the transcoding.

use vstd::prelude::*;

use crate::configuration::base::paths::{placeholders_of, PathsConfiguration};
use crate::configuration::filesystem::{CanonicalPath, PathKind};
use crate::configuration::traits::TryResolveWithContext;
use crate::configuration::utilities::{replace_placeholders_in_str, with_placeholders_replaced};
use crate::filesystem::{extension_of, get_path_extension_or_empty};
use crate::text::{ascii_lowercase, to_ascii_lowercase};

verus! {

/// Why the tools could not be resolved.
#[derive(Debug, PartialEq, Eq)]
pub enum ToolsConfigurationError {
    BinaryNotFound { tool_name: String, tool_path: String },
    BinaryPathIsNotUtf8 { tool_name: String, tool_path: String },
    BinaryNotFile { tool_name: String, tool_path: String },
    FailedToCanonicalizeBinaryPath {
        tool_name: String,
        original_path: String,
        final_path: String,
        error: String,
    },
}

/// The tools as configured.
#[derive(Debug, PartialEq, Eq)]
pub struct UnresolvedToolsConfiguration {
    pub ffmpeg: UnresolvedFfmpegToolsConfiguration,
}

/// The tools.
#[derive(Debug, PartialEq, Eq)]
pub struct ToolsConfiguration {
    pub ffmpeg: FfmpegToolsConfiguration,
}

/// ffmpeg as configured. Its path may hold the placeholders of the base paths.
#[derive(Debug, PartialEq, Eq)]
pub struct UnresolvedFfmpegToolsConfiguration {
    pub binary_path: String,
    pub audio_transcoding_args: Vec<String>,
    pub audio_transcoding_output_extension: String,
}

/// ffmpeg: the canonical path of its binary, the arguments of a transcoding run, in
/// which `{INPUT_FILE}` and `{OUTPUT_FILE}` stand for the two files, and the
/// extension of the files it writes, in lower case.
#[derive(Debug, PartialEq, Eq)]
pub struct FfmpegToolsConfiguration {
    pub binary_path: String,
    pub audio_transcoding_args: Vec<String>,
    pub audio_transcoding_output_extension: String,
}

/// What resolving the tools needs from outside: the base paths, and the outcome of
/// canonicalizing the final path of the ffmpeg binary.
#[derive(Debug, PartialEq, Eq)]
pub struct ToolsResolutionContext {
    pub paths: PathsConfiguration,
    pub ffmpeg_binary_path: CanonicalPath,
}

impl FfmpegToolsConfiguration {
    /// Whether the extension of `file_path`, in lower case, is the one that
    /// transcoding writes.
    pub fn is_path_transcoding_output_by_extension(&self, file_path: &str) -> (is_output: bool)
        ensures
            is_output == (self.audio_transcoding_output_extension@ == extension_of(file_path@)),
    {
        let extension = get_path_extension_or_empty(file_path);
        self.audio_transcoding_output_extension == extension
    }
}

impl UnresolvedFfmpegToolsConfiguration {
    /// The path of the binary to canonicalize: the configured one with the base paths
    /// filled in.
    pub fn final_binary_path(&self, paths: &PathsConfiguration) -> (path: String)
        ensures
            path@ == with_placeholders_replaced(self.binary_path@, placeholders_of(*paths)),
    {
        replace_placeholders_in_str(self.binary_path.as_str(), &paths.placeholders())
    }
}

/// What resolving ffmpeg returns for a given outcome of canonicalizing its binary.
pub open spec fn ffmpeg_resolution(
    unresolved: UnresolvedFfmpegToolsConfiguration,
    paths: PathsConfiguration,
    binary_path: CanonicalPath,
    result: Result<FfmpegToolsConfiguration, ToolsConfigurationError>,
) -> bool {
    match binary_path {
        CanonicalPath::Failed { error } => {
            &&& result matches Err(
                ToolsConfigurationError::FailedToCanonicalizeBinaryPath {
                    tool_name,
                    original_path,
                    final_path,
                    error: reason,
                },
            )
            &&& tool_name@ == "ffmpeg"@
            &&& original_path == unresolved.binary_path
            &&& final_path@ == with_placeholders_replaced(
                unresolved.binary_path@,
                placeholders_of(paths),
            )
            &&& reason == error
        },
        CanonicalPath::NotUtf8 { path } => {
            &&& result matches Err(
                ToolsConfigurationError::BinaryPathIsNotUtf8 { tool_name, tool_path },
            )
            &&& tool_name@ == "ffmpeg"@
            &&& tool_path == path
        },
        CanonicalPath::Found { path, kind } => match kind {
            PathKind::Missing => {
                &&& result matches Err(
                    ToolsConfigurationError::BinaryNotFound { tool_name, tool_path },
                )
                &&& tool_name@ == "ffmpeg"@
                &&& tool_path == path
            },
            PathKind::File => {
                &&& result matches Ok(ffmpeg)
                &&& ffmpeg.binary_path == path
                &&& ffmpeg.audio_transcoding_args == unresolved.audio_transcoding_args
                &&& ffmpeg.audio_transcoding_output_extension@ == ascii_lowercase(
                    unresolved.audio_transcoding_output_extension@,
                )
            },
            _ => {
                &&& result matches Err(
                    ToolsConfigurationError::BinaryNotFile { tool_name, tool_path },
                )
                &&& tool_name@ == "ffmpeg"@
                &&& tool_path == path
            },
        },
    }
}

impl TryResolveWithContext for UnresolvedFfmpegToolsConfiguration {
    type Resolved = FfmpegToolsConfiguration;

    type Error = ToolsConfigurationError;

    type Context = ToolsResolutionContext;

    /// Resolves ffmpeg. It fails where the path of its binary did not canonicalize,
    /// is not UTF-8, leads nowhere or leads to something that is no file.
    fn try_resolve(self, context: ToolsResolutionContext) -> (result: Result<
        FfmpegToolsConfiguration,
        ToolsConfigurationError,
    >)
        ensures
            ffmpeg_resolution(self, context.paths, context.ffmpeg_binary_path, result),
    {
        let canonical_ffmpeg_binary_path = match context.ffmpeg_binary_path {
            CanonicalPath::Failed { error } => {
                let final_path = self.final_binary_path(&context.paths);
                return Err(
                    ToolsConfigurationError::FailedToCanonicalizeBinaryPath {
                        tool_name: "ffmpeg".to_owned(),
                        original_path: self.binary_path,
                        final_path,
                        error,
                    },
                );
            },
            CanonicalPath::NotUtf8 { path } => {
                return Err(
                    ToolsConfigurationError::BinaryPathIsNotUtf8 {
                        tool_name: "ffmpeg".to_owned(),
                        tool_path: path,
                    },
                );
            },
            CanonicalPath::Found { path, kind } => {
                match kind {
                    PathKind::Missing => {
                        return Err(
                            ToolsConfigurationError::BinaryNotFound {
                                tool_name: "ffmpeg".to_owned(),
                                tool_path: path,
                            },
                        );
                    },
                    PathKind::File => path,
                    _ => {
                        return Err(
                            ToolsConfigurationError::BinaryNotFile {
                                tool_name: "ffmpeg".to_owned(),
                                tool_path: path,
                            },
                        );
                    },
                }
            },
        };
        let audio_transcoding_output_extension = to_ascii_lowercase(
            self.audio_transcoding_output_extension.as_str(),
        );
        Ok(
            FfmpegToolsConfiguration {
                binary_path: canonical_ffmpeg_binary_path,
                audio_transcoding_args: self.audio_transcoding_args,
                audio_transcoding_output_extension,
            },
        )
    }
}

impl TryResolveWithContext for UnresolvedToolsConfiguration {
    type Resolved = ToolsConfiguration;

    type Error = ToolsConfigurationError;

    type Context = ToolsResolutionContext;

    /// Resolves each tool.
    fn try_resolve(self, context: ToolsResolutionContext) -> (result: Result<
        ToolsConfiguration,
        ToolsConfigurationError,
    >)
        ensures
            match result {
                Ok(tools) => ffmpeg_resolution(
                    self.ffmpeg,
                    context.paths,
                    context.ffmpeg_binary_path,
                    Ok(tools.ffmpeg),
                ),
                Err(error) => ffmpeg_resolution(
                    self.ffmpeg,
                    context.paths,
                    context.ffmpeg_binary_path,
                    Err(error),
                ),
            },
    {
        match self.ffmpeg.try_resolve(context) {
            Ok(ffmpeg) => Ok(ToolsConfiguration { ffmpeg }),
            Err(error) => Err(error),
        }
    }
}

} // verus!
