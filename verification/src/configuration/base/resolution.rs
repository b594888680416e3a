//! Resolving a whole configuration, part by part.

use vstd::prelude::*;

use super::aggregated_library::{
    aggregated_library_resolution, AggregatedLibraryResolutionContext,
    UnresolvedAggregatedLibraryConfiguration,
};
use super::library::configuration::{
    library_resolution, LibraryResolutionContext, UnresolvedLibraryConfiguration,
};
use super::logging::{logging_resolution, LoggingResolutionContext, UnresolvedLoggingConfiguration};
use super::paths::{
    paths_resolution, PathsConfiguration, PathsResolutionContext, UnresolvedPathsConfiguration,
};
use super::tools::{ffmpeg_resolution, ToolsResolutionContext, UnresolvedToolsConfiguration};
use super::ui::UnresolvedUiConfiguration;
use super::validation::UnresolvedValidationConfiguration;
use super::{Configuration, ConfigurationResolutionError, LibraryEntry};
use crate::configuration::error::ConfigurationError;
use crate::configuration::filesystem::{CanonicalPath, LoadedFile, PathKind};
use crate::configuration::traits::{Resolve, TryResolveWithContext};
use crate::text::{lowercase_each, texts_of};

verus! {

/// One library as configured, and the key that it is configured under.
#[derive(Debug, PartialEq, Eq)]
pub struct UnresolvedLibraryEntry {
    pub key: String,
    pub library: UnresolvedLibraryConfiguration,
}

/// A whole configuration as its file holds it.
#[derive(Debug, PartialEq, Eq)]
pub struct UnresolvedConfiguration {
    pub paths: UnresolvedPathsConfiguration,
    pub logging: UnresolvedLoggingConfiguration,
    pub ui: UnresolvedUiConfiguration,
    pub validation: UnresolvedValidationConfiguration,
    pub tools: UnresolvedToolsConfiguration,
    /// The libraries, in the order of their keys.
    pub libraries: Vec<UnresolvedLibraryEntry>,
    pub aggregated_library: UnresolvedAggregatedLibraryConfiguration,
}

/// What resolving a whole configuration needs from outside.
#[derive(Debug, PartialEq, Eq)]
pub struct ConfigurationResolutionContext {
    /// The file that the configuration was loaded from.
    pub configuration_file_path: String,
    /// The directory of the executable and the canonical base paths.
    pub paths: PathsResolutionContext,
    /// The time of start-up, formatted for the name of a log file.
    pub startup_date_time: String,
    /// The outcome of canonicalizing the final path of the ffmpeg binary.
    pub ffmpeg_binary_path: CanonicalPath,
    /// The outcome of canonicalizing the final path of each library, in the order of
    /// the libraries.
    pub library_paths: Vec<CanonicalPath>,
    /// The outcome of canonicalizing the final path of the aggregated library.
    pub aggregated_library_path: CanonicalPath,
}

/// Whether the base paths resolve: the executable's directory and both canonical
/// paths were found.
pub open spec fn paths_resolve(context: PathsResolutionContext) -> bool {
    &&& context.executable_directory is Found
    &&& context.base_library_path is Found
    &&& context.base_tools_path is Found
}

/// The base paths that resolve from the given context, where they do.
pub open spec fn resolved_paths(context: PathsResolutionContext) -> PathsConfiguration {
    PathsConfiguration {
        base_library_path: context.base_library_path->Found_path,
        base_tools_path: context.base_tools_path->Found_path,
    }
}

/// Whether a library at the given canonical path resolves: a directory stands there.
pub open spec fn library_resolves(library_path: CanonicalPath) -> bool {
    library_path matches CanonicalPath::Found { kind, .. } && kind == PathKind::Directory
}

/// Whether the library at position `i` has the display name of a library before it.
pub open spec fn name_is_taken(libraries: Seq<UnresolvedLibraryEntry>, i: int) -> bool {
    exists|j: int| 0 <= j < i && (#[trigger] libraries[j]).library.name@ == libraries[i].library.name@
}

/// The position of the first of the first `count` libraries that does not resolve or
/// whose display name is taken, or `count` where there is none.
pub open spec fn first_failing_library(
    libraries: Seq<UnresolvedLibraryEntry>,
    library_paths: Seq<CanonicalPath>,
    count: int,
) -> int
    decreases count,
{
    if count <= 0 {
        0
    } else {
        let before = first_failing_library(libraries, library_paths, count - 1);
        if before < count - 1 {
            before
        } else if !library_resolves(library_paths[count - 1]) || name_is_taken(
            libraries,
            count - 1,
        ) {
            count - 1
        } else {
            count
        }
    }
}

/// Once a library fails, it stays the first one that does, however many more
/// libraries are looked at.
pub proof fn lemma_first_failing_library_stays(
    libraries: Seq<UnresolvedLibraryEntry>,
    library_paths: Seq<CanonicalPath>,
    count: int,
    more: int,
)
    requires
        0 <= count <= more,
        first_failing_library(libraries, library_paths, count) < count,
    ensures
        first_failing_library(libraries, library_paths, more) == first_failing_library(
            libraries,
            library_paths,
            count,
        ),
    decreases more - count,
{
    if count < more {
        lemma_first_failing_library_stays(libraries, library_paths, count, more - 1);
    }
}

/// What resolving a whole configuration returns. The parts are resolved in this
/// order, and the first failure decides: the base paths; logging; the tools; the
/// libraries in the order of their keys, each of which fails where it does not
/// resolve, or else where an earlier library has its display name; the aggregated
/// library.
pub open spec fn configuration_resolution(
    unresolved: UnresolvedConfiguration,
    context: ConfigurationResolutionContext,
    result: Result<Configuration, ConfigurationResolutionError>,
) -> bool {
    let paths = resolved_paths(context.paths);
    let failing = first_failing_library(
        unresolved.libraries@,
        context.library_paths@,
        unresolved.libraries.len() as int,
    );
    if !paths_resolve(context.paths) {
        &&& result matches Err(ConfigurationResolutionError::InPaths { error })
        &&& paths_resolution(unresolved.paths, context.paths, Err(error))
    } else if !(context.ffmpeg_binary_path matches CanonicalPath::Found { kind, .. } && kind
        == PathKind::File) {
        &&& result matches Err(ConfigurationResolutionError::InTools { error })
        &&& ffmpeg_resolution(unresolved.tools.ffmpeg, paths, context.ffmpeg_binary_path, Err(error))
    } else if failing < unresolved.libraries.len() {
        if !library_resolves(context.library_paths[failing]) {
            &&& result matches Err(
                ConfigurationResolutionError::InLibrary { library_key, error },
            )
            &&& library_key == unresolved.libraries[failing].key
            &&& library_resolution(
                unresolved.libraries[failing].library,
                paths,
                context.library_paths[failing],
                Err(error),
            )
        } else {
            &&& result matches Err(
                ConfigurationResolutionError::LibraryDisplayNameConflict { library_display_name },
            )
            &&& library_display_name == unresolved.libraries[failing].library.name
        }
    } else if !(context.aggregated_library_path is Found
        && unresolved.aggregated_library.transcode_threads != 0) {
        &&& result matches Err(ConfigurationResolutionError::InAggregatedLibrary { error })
        &&& aggregated_library_resolution(
            unresolved.aggregated_library,
            paths,
            context.aggregated_library_path,
            Err(error),
        )
    } else {
        &&& result matches Ok(configuration)
        &&& configuration.configuration_file_path == context.configuration_file_path
        &&& configuration.paths == paths
        &&& logging_resolution(
            unresolved.logging,
            LoggingResolutionContext {
                paths,
                executable_directory: context.paths.executable_directory,
                startup_date_time: context.startup_date_time,
            },
            Ok(configuration.logging),
        )
        &&& configuration.ui.transcoding.show_logs_tab_on_exit
            == unresolved.ui.transcoding.show_logs_tab_on_exit
        &&& texts_of(configuration.validation.extensions_considered_audio_files@)
            == lowercase_each(texts_of(unresolved.validation.extensions_considered_audio_files@))
        &&& ffmpeg_resolution(
            unresolved.tools.ffmpeg,
            paths,
            context.ffmpeg_binary_path,
            Ok(configuration.tools.ffmpeg),
        )
        &&& configuration.libraries.len() == unresolved.libraries.len()
        &&& forall|i: int|
            0 <= i < unresolved.libraries.len() ==> {
                &&& (#[trigger] configuration.libraries[i]).key == unresolved.libraries[i].key
                &&& library_resolution(
                    unresolved.libraries[i].library,
                    paths,
                    context.library_paths[i],
                    Ok(configuration.libraries[i].library),
                )
            }
        &&& aggregated_library_resolution(
            unresolved.aggregated_library,
            paths,
            context.aggregated_library_path,
            Ok(configuration.aggregated_library),
        )
    }
}

/// Whether one of `libraries` has the display name `name`.
fn has_display_name(libraries: &Vec<LibraryEntry>, name: &String) -> (found: bool)
    ensures
        found == exists|j: int|
            0 <= j < libraries.len() && (#[trigger] libraries[j]).library.name@ == name@,
{
    let mut j: usize = 0;
    while j < libraries.len()
        invariant
            j <= libraries.len(),
            forall|k: int| 0 <= k < j ==> (#[trigger] libraries[k]).library.name@ != name@,
        decreases libraries.len() - j,
    {
        if libraries[j].library.name == *name {
            return true;
        }
        j += 1;
    }
    false
}

impl UnresolvedConfiguration {
    /// Validates the configuration and resolves it, given what the file system
    /// answered. The context must hold one canonical path for each library.
    #[verifier::loop_isolation(false)]
    pub fn try_resolve(self, context: ConfigurationResolutionContext) -> (result: Result<
        Configuration,
        ConfigurationResolutionError,
    >)
        requires
            context.library_paths.len() == self.libraries.len(),
        ensures
            configuration_resolution(self, context, result),
    {
        let executable_directory = context.paths.executable_directory.clone();
        let paths = match self.paths.try_resolve(context.paths) {
            Ok(paths) => paths,
            Err(error) => {
                return Err(ConfigurationResolutionError::InPaths { error });
            },
        };
        let logging = match self.logging.try_resolve(
            LoggingResolutionContext {
                paths: paths.clone(),
                executable_directory,
                startup_date_time: context.startup_date_time,
            },
        ) {
            Ok(logging) => logging,
            Err(error) => {
                return Err(ConfigurationResolutionError::InLogging { error });
            },
        };
        let ui = self.ui.resolve();
        let validation = self.validation.resolve();
        let tools = match self.tools.try_resolve(
            ToolsResolutionContext {
                paths: paths.clone(),
                ffmpeg_binary_path: context.ffmpeg_binary_path,
            },
        ) {
            Ok(tools) => tools,
            Err(error) => {
                return Err(ConfigurationResolutionError::InTools { error });
            },
        };
        let ghost all = self.libraries@;
        let ghost all_paths = context.library_paths@;
        let mut unresolved_libraries = self.libraries;
        let mut library_paths = context.library_paths;
        let mut libraries: Vec<LibraryEntry> = Vec::new();
        while unresolved_libraries.len() > 0
            invariant
                all.len() == all_paths.len(),
                libraries.len() + unresolved_libraries.len() == all.len(),
                unresolved_libraries@ == all.skip(libraries.len() as int),
                library_paths@ == all_paths.skip(libraries.len() as int),
                first_failing_library(all, all_paths, libraries.len() as int) == libraries.len(),
                forall|i: int|
                    0 <= i < libraries.len() ==> {
                        &&& (#[trigger] libraries[i]).key == all[i].key
                        &&& libraries[i].library.name == all[i].library.name
                        &&& library_resolution(
                            all[i].library,
                            paths,
                            all_paths[i],
                            Ok(libraries[i].library),
                        )
                    },
            decreases unresolved_libraries.len(),
        {
            let ghost i = libraries.len() as int;
            let entry = unresolved_libraries.remove(0);
            let library_path = library_paths.remove(0);
            let key = entry.key;
            let resolved_library = match entry.library.try_resolve(
                LibraryResolutionContext { paths: paths.clone(), library_path },
            ) {
                Ok(resolved_library) => resolved_library,
                Err(error) => {
                    proof {
                        lemma_first_failing_library_stays(all, all_paths, i + 1, all.len() as int);
                    }
                    return Err(
                        ConfigurationResolutionError::InLibrary { library_key: key, error },
                    );
                },
            };
            if has_display_name(&libraries, &resolved_library.name) {
                proof {
                    let j = choose|j: int|
                        0 <= j < libraries.len() && (#[trigger] libraries[j]).library.name@
                            == resolved_library.name@;
                    lemma_first_failing_library_stays(all, all_paths, i + 1, all.len() as int);
                }
                return Err(
                    ConfigurationResolutionError::LibraryDisplayNameConflict {
                        library_display_name: resolved_library.name,
                    },
                );
            }
            proof {
                assert(!name_is_taken(all, i)) by {
                    if name_is_taken(all, i) {
                        let j = choose|j: int|
                            0 <= j < i && (#[trigger] all[j]).library.name@ == all[i].library.name@;
                        assert(libraries[j].library.name@ == resolved_library.name@);
                    }
                }
            }
            libraries.push(LibraryEntry { key, library: resolved_library });
        }
        let aggregated_library = match self.aggregated_library.try_resolve(
            AggregatedLibraryResolutionContext {
                paths: paths.clone(),
                path: context.aggregated_library_path,
            },
        ) {
            Ok(aggregated_library) => aggregated_library,
            Err(error) => {
                return Err(ConfigurationResolutionError::InAggregatedLibrary { error });
            },
        };
        Ok(
            Configuration {
                configuration_file_path: context.configuration_file_path,
                paths,
                logging,
                ui,
                validation,
                tools,
                libraries,
                aggregated_library,
            },
        )
    }
}

/// What loading a configuration returns for what reading its file gave: a file that
/// is missing or cannot be read is a load error; one that cannot be parsed, a format
/// error; and one that does not resolve has invalid content.
pub open spec fn configuration_loading(
    loaded: LoadedFile<UnresolvedConfiguration>,
    context: ConfigurationResolutionContext,
    result: Result<Configuration, ConfigurationError>,
) -> bool {
    match loaded {
        LoadedFile::Missing => {
            &&& result matches Err(ConfigurationError::FileLoadError { file_path, error })
            &&& file_path == context.configuration_file_path
            &&& error@ == "the file does not exist"@
        },
        LoadedFile::Unreadable { error } => result == Err::<Configuration, ConfigurationError>(
            ConfigurationError::FileLoadError {
                file_path: context.configuration_file_path,
                error,
            },
        ),
        LoadedFile::Malformed { error } => result == Err::<Configuration, ConfigurationError>(
            ConfigurationError::FileFormatError {
                file_path: context.configuration_file_path,
                error,
            },
        ),
        LoadedFile::Parsed { contents } => match result {
            Ok(configuration) => configuration_resolution(contents, context, Ok(configuration)),
            Err(ConfigurationError::InvalidContent { error }) => configuration_resolution(
                contents,
                context,
                Err(error),
            ),
            Err(_) => false,
        },
    }
}

impl Configuration {
    /// The configuration of the file at `context.configuration_file_path`, given what
    /// reading that file gave and what the file system answered about the paths in
    /// it. For a file that was parsed, the context must hold one canonical path for
    /// each library.
    pub fn load_from_path(
        loaded: LoadedFile<UnresolvedConfiguration>,
        context: ConfigurationResolutionContext,
    ) -> (result: Result<Configuration, ConfigurationError>)
        requires
            loaded matches LoadedFile::Parsed { contents } ==> context.library_paths.len()
                == contents.libraries.len(),
        ensures
            configuration_loading(loaded, context, result),
    {
        match loaded {
            LoadedFile::Missing => Err(
                ConfigurationError::FileLoadError {
                    file_path: context.configuration_file_path,
                    error: "the file does not exist".to_owned(),
                },
            ),
            LoadedFile::Unreadable { error } => Err(
                ConfigurationError::FileLoadError {
                    file_path: context.configuration_file_path,
                    error,
                },
            ),
            LoadedFile::Malformed { error } => Err(
                ConfigurationError::FileFormatError {
                    file_path: context.configuration_file_path,
                    error,
                },
            ),
            LoadedFile::Parsed { contents } => match contents.try_resolve(context) {
                Ok(configuration) => Ok(configuration),
                Err(error) => Err(ConfigurationError::InvalidContent { error }),
            },
        }
    }
}

} // verus!
