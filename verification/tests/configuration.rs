use euphony::configuration::album::scan::{
    AlbumScanConfiguration, UnresolvedAlbumScanConfiguration, DEFAULT_SCAN_DEPTH,
};
use euphony::configuration::album::{
    AlbumConfiguration, UnresolvedAlbumConfiguration, ALBUM_OVERRIDE_FILE_NAME,
};
use euphony::configuration::base::aggregated_library::{
    AggregatedLibraryConfiguration, AggregatedLibraryConfigurationError,
    AggregatedLibraryResolutionContext, UnresolvedAggregatedLibraryConfiguration,
};
use euphony::configuration::base::library::configuration::{
    LibraryConfigurationError, LibraryResolutionContext, UnresolvedLibraryConfiguration,
};
use euphony::configuration::base::library::transcoding::UnresolvedLibraryTranscodingConfiguration;
use euphony::configuration::base::library::validation::UnresolvedLibraryValidationConfiguration;
use euphony::configuration::base::logging::{
    LoggingConfiguration, LoggingConfigurationError, LoggingResolutionContext,
    UnresolvedLoggingConfiguration,
};
use euphony::configuration::base::paths::{
    PathsConfiguration, PathsConfigurationError, PathsResolutionContext,
    UnresolvedPathsConfiguration,
};
use euphony::configuration::base::resolution::{
    ConfigurationResolutionContext, UnresolvedConfiguration, UnresolvedLibraryEntry,
};
use euphony::configuration::base::tools::{
    FfmpegToolsConfiguration, ToolsConfigurationError, ToolsResolutionContext,
    UnresolvedFfmpegToolsConfiguration, UnresolvedToolsConfiguration,
};
use euphony::configuration::base::ui::{
    UnresolvedTranscodingUiConfiguration, UnresolvedUiConfiguration,
};
use euphony::configuration::base::validation::UnresolvedValidationConfiguration;
use euphony::configuration::base::{Configuration, ConfigurationResolutionError};
use euphony::configuration::error::ConfigurationError;
use euphony::configuration::filesystem::{
    CanonicalPath, ExecutableDirectory, LoadedFile, PathKind,
};
use euphony::configuration::traits::{Resolve, ResolveWithContext, TryResolveWithContext};
use euphony::configuration::utilities::{
    default_u16, get_default_configuration_file_path, replace_placeholders_in_str,
    replace_placeholders_in_utf8_path, NotUtf8Error,
};

fn found(path: &str, kind: PathKind) -> CanonicalPath {
    CanonicalPath::Found { path: path.to_string(), kind }
}

fn executable_directory() -> ExecutableDirectory {
    ExecutableDirectory::Found { path: "/opt/euphony".to_string() }
}

fn paths() -> PathsConfiguration {
    PathsConfiguration {
        base_library_path: "/music".to_string(),
        base_tools_path: "/tools".to_string(),
    }
}

fn unresolved_library(name: &str, path: &str) -> UnresolvedLibraryConfiguration {
    UnresolvedLibraryConfiguration {
        name: name.to_string(),
        path: path.to_string(),
        ignored_directories_in_base_directory: Some(vec!["_other".to_string()]),
        validation: UnresolvedLibraryValidationConfiguration {
            allowed_audio_file_extensions: vec!["FLAC".to_string()],
            allowed_other_file_extensions: vec!["Jpg".to_string(), "png".to_string()],
            allowed_other_files_by_name: vec!["Cover.JPG".to_string()],
        },
        transcoding: UnresolvedLibraryTranscodingConfiguration {
            audio_file_extensions: vec!["FLAC".to_string(), "Mp3".to_string()],
            other_file_extensions: vec!["JPG".to_string()],
        },
    }
}

fn unresolved_configuration(libraries: Vec<(&str, &str)>) -> UnresolvedConfiguration {
    UnresolvedConfiguration {
        paths: UnresolvedPathsConfiguration {
            base_library_path: "{BINARY_DIRECTORY_PATH}/../music".to_string(),
            base_tools_path: "{BINARY_DIRECTORY_PATH}/tools".to_string(),
        },
        logging: UnresolvedLoggingConfiguration {
            log_output_path: Some(
                "{BINARY_DIRECTORY_PATH}/logs/{STARTUP_DATE_TIME}.log".to_string(),
            ),
        },
        ui: UnresolvedUiConfiguration {
            transcoding: UnresolvedTranscodingUiConfiguration { show_logs_tab_on_exit: true },
        },
        validation: UnresolvedValidationConfiguration {
            extensions_considered_audio_files: vec!["FLAC".to_string(), "ogg".to_string()],
        },
        tools: UnresolvedToolsConfiguration {
            ffmpeg: UnresolvedFfmpegToolsConfiguration {
                binary_path: "{TOOLS_DIRECTORY}/ffmpeg".to_string(),
                audio_transcoding_args: vec!["-i".to_string(), "{INPUT_FILE}".to_string()],
                audio_transcoding_output_extension: "MP3".to_string(),
            },
        },
        libraries: libraries
            .into_iter()
            .map(|(key, name)| UnresolvedLibraryEntry {
                key: key.to_string(),
                library: unresolved_library(name, "{LIBRARY_DIRECTORY}/lib"),
            })
            .collect(),
        aggregated_library: UnresolvedAggregatedLibraryConfiguration {
            path: "{LIBRARY_DIRECTORY}/aggregated".to_string(),
            transcode_threads: 4,
            failure_max_retries: 2,
            failure_delay_seconds: 3,
        },
    }
}

fn context(library_paths: Vec<CanonicalPath>) -> ConfigurationResolutionContext {
    ConfigurationResolutionContext {
        configuration_file_path: "/etc/euphony.toml".to_string(),
        paths: PathsResolutionContext {
            executable_directory: executable_directory(),
            base_library_path: found("/music", PathKind::Directory),
            base_tools_path: found("/tools", PathKind::Directory),
        },
        startup_date_time: "2024-01-02_03-04-05".to_string(),
        ffmpeg_binary_path: found("/tools/ffmpeg", PathKind::File),
        library_paths,
        aggregated_library_path: found("/music/aggregated", PathKind::Directory),
    }
}

#[test]
fn default_values_are_named() {
    assert_eq!(default_u16::<0>(), 0);
    assert_eq!(default_u16::<7>(), 7);
    assert_eq!(default_u16::<65535>(), 65535);
    assert_eq!(NotUtf8Error.message(), "provided path is not valid UTF-8");
}

#[test]
fn placeholders_are_replaced_in_order() {
    let placeholders = vec![
        ("{A}".to_string(), "{B}".to_string()),
        ("{B}".to_string(), "x".to_string()),
    ];
    assert_eq!(replace_placeholders_in_str("{A}/{B}/{C}", &placeholders), "x/x/{C}");
    assert_eq!(replace_placeholders_in_str("{A}", &vec![]), "{A}");
    assert_eq!(replace_placeholders_in_utf8_path("{B}/{B}", &placeholders), "x/x");
    assert_eq!(
        paths().placeholders(),
        vec![
            ("{LIBRARY_DIRECTORY}".to_string(), "/music".to_string()),
            ("{TOOLS_DIRECTORY}".to_string(), "/tools".to_string()),
        ]
    );
}

#[test]
fn the_default_configuration_file_lies_beside_the_executable() {
    assert_eq!(
        get_default_configuration_file_path(&executable_directory()),
        Ok("/opt/euphony/data/configuration.toml".to_string())
    );
    assert_eq!(
        get_default_configuration_file_path(&ExecutableDirectory::Unavailable {
            error: Some("denied".to_string())
        }),
        Err(ConfigurationError::OtherError { error: "denied".to_string() })
    );
    assert!(matches!(
        get_default_configuration_file_path(&ExecutableDirectory::Unavailable { error: None }),
        Err(ConfigurationError::OtherError { .. })
    ));
    assert!(matches!(
        get_default_configuration_file_path(&ExecutableDirectory::NotUtf8 {
            path: "?".to_string()
        }),
        Err(ConfigurationError::OtherError { .. })
    ));
}

#[test]
fn base_paths_resolve_to_their_canonical_form() {
    let unresolved = unresolved_configuration(vec![]).paths;
    assert_eq!(unresolved.final_base_library_path("/opt/euphony"), "/opt/euphony/../music");
    assert_eq!(unresolved.final_base_tools_path("/opt/euphony"), "/opt/euphony/tools");
    assert_eq!(unresolved.try_resolve(context(vec![]).paths), Ok(paths()));
}

#[test]
fn base_paths_fail_in_a_fixed_order() {
    let unresolved = || unresolved_configuration(vec![]).paths;
    let failed = CanonicalPath::Failed { error: "no such directory".to_string() };
    let not_utf8 = CanonicalPath::NotUtf8 { path: "/bad".to_string() };

    assert_eq!(
        unresolved().try_resolve(PathsResolutionContext {
            executable_directory: ExecutableDirectory::Unavailable { error: None },
            base_library_path: failed.clone(),
            base_tools_path: failed.clone(),
        }),
        Err(PathsConfigurationError::FailedToGetCurrentExecutable { error: None })
    );
    assert_eq!(
        unresolved().try_resolve(PathsResolutionContext {
            executable_directory: ExecutableDirectory::NotUtf8 { path: "/exe".to_string() },
            base_library_path: failed.clone(),
            base_tools_path: failed.clone(),
        }),
        Err(PathsConfigurationError::PathIsNotUtf8 { path: "/exe".to_string() })
    );
    assert_eq!(
        unresolved().try_resolve(PathsResolutionContext {
            executable_directory: executable_directory(),
            base_library_path: failed.clone(),
            base_tools_path: not_utf8.clone(),
        }),
        Err(PathsConfigurationError::FailedToCanonicalizeBaseLibraryPath {
            original_path: "{BINARY_DIRECTORY_PATH}/../music".to_string(),
            final_path: "/opt/euphony/../music".to_string(),
            error: "no such directory".to_string(),
        })
    );
    assert_eq!(
        unresolved().try_resolve(PathsResolutionContext {
            executable_directory: executable_directory(),
            base_library_path: not_utf8.clone(),
            base_tools_path: failed.clone(),
        }),
        Err(PathsConfigurationError::PathIsNotUtf8 { path: "/bad".to_string() })
    );
    assert_eq!(
        unresolved().try_resolve(PathsResolutionContext {
            executable_directory: executable_directory(),
            base_library_path: found("/music", PathKind::Directory),
            base_tools_path: failed,
        }),
        Err(PathsConfigurationError::FailedToCanonicalizeBaseToolsPath {
            original_path: "{BINARY_DIRECTORY_PATH}/../music".to_string(),
            final_path: "/opt/euphony/tools".to_string(),
            error: "no such directory".to_string(),
        })
    );
    assert_eq!(
        unresolved().try_resolve(PathsResolutionContext {
            executable_directory: executable_directory(),
            base_library_path: found("/music", PathKind::Directory),
            base_tools_path: not_utf8,
        }),
        Err(PathsConfigurationError::PathIsNotUtf8 { path: "/bad".to_string() })
    );
}

#[test]
fn a_library_resolves_with_lower_case_extensions() {
    let unresolved = unresolved_library("Lossless", "{LIBRARY_DIRECTORY}/lossless");
    assert_eq!(unresolved.final_path(&paths()), "/music/lossless");
    let library = unresolved
        .try_resolve(LibraryResolutionContext {
            paths: paths(),
            library_path: found("/music/lossless", PathKind::Directory),
        })
        .unwrap();
    assert_eq!(library.name, "Lossless");
    assert_eq!(library.path, "/music/lossless");
    assert_eq!(library.ignored_directories_in_base_directory, Some(vec!["_other".to_string()]));
    assert_eq!(library.validation.allowed_audio_file_extensions, vec!["flac"]);
    assert_eq!(library.validation.allowed_other_file_extensions, vec!["jpg", "png"]);
    assert_eq!(library.validation.allowed_other_files_by_name, vec!["Cover.JPG"]);
    assert_eq!(library.transcoding.audio_file_extensions, vec!["flac", "mp3"]);
    assert_eq!(library.transcoding.other_file_extensions, vec!["jpg"]);
    assert_eq!(library.transcoding.all_tracked_extensions, vec!["flac", "mp3", "jpg"]);
    assert!(library.transcoding.is_audio_file_by_extension("a/b.FLAC"));
    assert!(!library.transcoding.is_audio_file_by_extension("a/b.jpg"));
    assert!(library.transcoding.is_data_file_by_extension("a/b.Jpg"));
    assert!(!library.transcoding.is_data_file_by_extension("a/b"));
}

#[test]
fn a_library_fails_for_each_bad_path() {
    let resolve = |library_path: CanonicalPath| {
        unresolved_library("Lossless", "{LIBRARY_DIRECTORY}/lossless")
            .try_resolve(LibraryResolutionContext { paths: paths(), library_path })
    };
    assert_eq!(
        resolve(CanonicalPath::Failed { error: "nope".to_string() }).err(),
        Some(LibraryConfigurationError::FailedToCanonicalizeLibraryPath {
            original_path: "{LIBRARY_DIRECTORY}/lossless".to_string(),
            final_path: "/music/lossless".to_string(),
            error: "nope".to_string(),
        })
    );
    assert_eq!(
        resolve(CanonicalPath::NotUtf8 { path: "/x".to_string() }).err(),
        Some(LibraryConfigurationError::LibraryPathIsNotUtf8 { path: "/x".to_string() })
    );
    assert_eq!(
        resolve(found("/music/lossless", PathKind::Missing)).err(),
        Some(LibraryConfigurationError::LibraryPathNotFound {
            library_path: "/music/lossless".to_string()
        })
    );
    assert_eq!(
        resolve(found("/music/lossless", PathKind::File)).err(),
        Some(LibraryConfigurationError::LibraryPathNotDirectory {
            library_path: "/music/lossless".to_string()
        })
    );
    assert_eq!(
        resolve(found("/music/lossless", PathKind::Other)).err(),
        Some(LibraryConfigurationError::LibraryPathNotDirectory {
            library_path: "/music/lossless".to_string()
        })
    );
}

#[test]
fn the_aggregated_library_needs_a_worker_thread() {
    let unresolved = |transcode_threads| UnresolvedAggregatedLibraryConfiguration {
        path: "{LIBRARY_DIRECTORY}/aggregated".to_string(),
        transcode_threads,
        failure_max_retries: 2,
        failure_delay_seconds: 3,
    };
    let context = |path| AggregatedLibraryResolutionContext { paths: paths(), path };
    assert_eq!(unresolved(1).final_path(&paths()), "/music/aggregated");
    assert_eq!(
        unresolved(1).try_resolve(context(found("/music/aggregated", PathKind::Missing))),
        Ok(AggregatedLibraryConfiguration {
            path: "/music/aggregated".to_string(),
            transcode_threads: 1,
            failure_max_retries: 2,
            failure_delay_seconds: 3,
        })
    );
    assert_eq!(
        unresolved(0).try_resolve(context(found("/music/aggregated", PathKind::Directory))),
        Err(AggregatedLibraryConfigurationError::ZeroTranscodeThreads)
    );
    assert_eq!(
        unresolved(0).try_resolve(context(CanonicalPath::NotUtf8 { path: "/x".to_string() })),
        Err(AggregatedLibraryConfigurationError::PathIsNotUtf8 { path: "/x".to_string() })
    );
    assert_eq!(
        unresolved(0).try_resolve(context(CanonicalPath::Failed { error: "nope".to_string() })),
        Err(AggregatedLibraryConfigurationError::FailedToCanonicalizePath {
            original_path: "{LIBRARY_DIRECTORY}/aggregated".to_string(),
            final_path: "/music/aggregated".to_string(),
            error: "nope".to_string(),
        })
    );
}

#[test]
fn ffmpeg_needs_a_binary_that_is_a_file() {
    let unresolved = || UnresolvedFfmpegToolsConfiguration {
        binary_path: "{TOOLS_DIRECTORY}/ffmpeg".to_string(),
        audio_transcoding_args: vec!["-i".to_string()],
        audio_transcoding_output_extension: "MP3".to_string(),
    };
    let context =
        |ffmpeg_binary_path| ToolsResolutionContext { paths: paths(), ffmpeg_binary_path };
    assert_eq!(unresolved().final_binary_path(&paths()), "/tools/ffmpeg");
    let ffmpeg = unresolved().try_resolve(context(found("/tools/ffmpeg", PathKind::File)));
    assert_eq!(
        ffmpeg,
        Ok(FfmpegToolsConfiguration {
            binary_path: "/tools/ffmpeg".to_string(),
            audio_transcoding_args: vec!["-i".to_string()],
            audio_transcoding_output_extension: "mp3".to_string(),
        })
    );
    let ffmpeg = ffmpeg.unwrap();
    assert!(ffmpeg.is_path_transcoding_output_by_extension("a/b.MP3"));
    assert!(!ffmpeg.is_path_transcoding_output_by_extension("a/b.flac"));

    let tool_name = "ffmpeg".to_string();
    assert_eq!(
        unresolved().try_resolve(context(found("/tools/ffmpeg", PathKind::Missing))),
        Err(ToolsConfigurationError::BinaryNotFound {
            tool_name: tool_name.clone(),
            tool_path: "/tools/ffmpeg".to_string()
        })
    );
    assert_eq!(
        unresolved().try_resolve(context(found("/tools/ffmpeg", PathKind::Directory))),
        Err(ToolsConfigurationError::BinaryNotFile {
            tool_name: tool_name.clone(),
            tool_path: "/tools/ffmpeg".to_string()
        })
    );
    assert_eq!(
        unresolved().try_resolve(context(CanonicalPath::NotUtf8 { path: "/x".to_string() })),
        Err(ToolsConfigurationError::BinaryPathIsNotUtf8 {
            tool_name: tool_name.clone(),
            tool_path: "/x".to_string()
        })
    );
    assert_eq!(
        UnresolvedToolsConfiguration { ffmpeg: unresolved() }
            .try_resolve(context(CanonicalPath::Failed { error: "nope".to_string() }))
            .err(),
        Some(ToolsConfigurationError::FailedToCanonicalizeBinaryPath {
            tool_name,
            original_path: "{TOOLS_DIRECTORY}/ffmpeg".to_string(),
            final_path: "/tools/ffmpeg".to_string(),
            error: "nope".to_string(),
        })
    );
}

#[test]
fn the_log_path_gets_its_placeholders_filled_in() {
    let context = |executable_directory| LoggingResolutionContext {
        paths: paths(),
        executable_directory,
        startup_date_time: "2024-01-02_03-04-05".to_string(),
    };
    let unresolved = UnresolvedLoggingConfiguration {
        log_output_path: Some(
            "{LIBRARY_DIRECTORY}/{BINARY_DIRECTORY_PATH}/{STARTUP_DATE_TIME}.log".to_string(),
        ),
    };
    assert_eq!(
        unresolved.try_resolve(context(executable_directory())),
        Ok(LoggingConfiguration {
            log_output_path: Some("/music//opt/euphony/2024-01-02_03-04-05.log".to_string())
        })
    );
    assert_eq!(
        UnresolvedLoggingConfiguration { log_output_path: None }
            .try_resolve(context(executable_directory())),
        Ok(LoggingConfiguration { log_output_path: None })
    );
    assert_eq!(
        UnresolvedLoggingConfiguration { log_output_path: None }
            .try_resolve(context(ExecutableDirectory::Unavailable { error: None })),
        Err(LoggingConfigurationError::FailedToGetCurrentExecutable { error: None })
    );
    assert_eq!(
        UnresolvedLoggingConfiguration { log_output_path: None }
            .try_resolve(context(ExecutableDirectory::NotUtf8 { path: "/x".to_string() })),
        Err(LoggingConfigurationError::PathIsNotUtf8 { path: "/x".to_string() })
    );
}

#[test]
fn interface_and_validation_options_resolve() {
    let ui = UnresolvedUiConfiguration {
        transcoding: UnresolvedTranscodingUiConfiguration { show_logs_tab_on_exit: true },
    }
    .resolve();
    assert!(ui.transcoding.show_logs_tab_on_exit);
    let validation = UnresolvedValidationConfiguration {
        extensions_considered_audio_files: vec!["FLAC".to_string(), "Ogg".to_string()],
    }
    .resolve();
    assert_eq!(validation.extensions_considered_audio_files, vec!["flac", "ogg"]);
}

#[test]
fn a_whole_configuration_resolves() {
    let directory = || found("/music/lib", PathKind::Directory);
    let configuration = unresolved_configuration(vec![("a", "First"), ("b", "Second")])
        .try_resolve(context(vec![directory(), directory()]))
        .unwrap();
    assert_eq!(configuration.configuration_file_path, "/etc/euphony.toml");
    assert_eq!(configuration.paths, paths());
    assert_eq!(
        configuration.logging.log_output_path,
        Some("/opt/euphony/logs/2024-01-02_03-04-05.log".to_string())
    );
    assert!(configuration.ui.transcoding.show_logs_tab_on_exit);
    assert_eq!(configuration.validation.extensions_considered_audio_files, vec!["flac", "ogg"]);
    assert_eq!(configuration.tools.ffmpeg.audio_transcoding_output_extension, "mp3");
    assert_eq!(configuration.libraries.len(), 2);
    assert_eq!(configuration.libraries[0].key, "a");
    assert_eq!(configuration.libraries[1].library.name, "Second");
    assert_eq!(configuration.aggregated_library.transcode_threads, 4);

    assert!(configuration.is_library("/music/lib"));
    assert!(!configuration.is_library("/music/other"));
    assert_eq!(configuration.get_library_name_from_path("/music/lib"), Some("First".to_string()));
    assert_eq!(configuration.get_library_name_from_path("/nowhere"), None);
    assert_eq!(configuration.get_library_by_full_name("Second").map(|l| &l.name[..]), Some("Second"));
    assert!(configuration.get_library_by_full_name("Third").is_none());
    assert!(configuration.get_library_by_path("/music/lib").is_some());
}

#[test]
fn the_first_failure_of_a_configuration_decides() {
    let directory = || found("/music/lib", PathKind::Directory);
    let resolve = |libraries: Vec<(&str, &str)>, context: ConfigurationResolutionContext| {
        unresolved_configuration(libraries).try_resolve(context).err()
    };

    let mut no_executable = context(vec![]);
    no_executable.paths.executable_directory = ExecutableDirectory::Unavailable { error: None };
    no_executable.ffmpeg_binary_path = found("/tools/ffmpeg", PathKind::Missing);
    assert_eq!(
        resolve(vec![], no_executable),
        Some(ConfigurationResolutionError::InPaths {
            error: PathsConfigurationError::FailedToGetCurrentExecutable { error: None }
        })
    );

    let mut no_ffmpeg = context(vec![found("/music/lib", PathKind::Missing)]);
    no_ffmpeg.ffmpeg_binary_path = found("/tools/ffmpeg", PathKind::Missing);
    assert_eq!(
        resolve(vec![("a", "First")], no_ffmpeg),
        Some(ConfigurationResolutionError::InTools {
            error: ToolsConfigurationError::BinaryNotFound {
                tool_name: "ffmpeg".to_string(),
                tool_path: "/tools/ffmpeg".to_string()
            }
        })
    );

    assert_eq!(
        resolve(
            vec![("a", "First"), ("b", "Second"), ("c", "First")],
            context(vec![directory(), found("/music/lib", PathKind::Missing), directory()])
        ),
        Some(ConfigurationResolutionError::InLibrary {
            library_key: "b".to_string(),
            error: LibraryConfigurationError::LibraryPathNotFound {
                library_path: "/music/lib".to_string()
            }
        })
    );

    assert_eq!(
        resolve(
            vec![("a", "First"), ("b", "Second"), ("c", "First")],
            context(vec![directory(), directory(), directory()])
        ),
        Some(ConfigurationResolutionError::LibraryDisplayNameConflict {
            library_display_name: "First".to_string()
        })
    );

    let mut no_aggregated = context(vec![directory()]);
    no_aggregated.aggregated_library_path = CanonicalPath::NotUtf8 { path: "/x".to_string() };
    assert_eq!(
        resolve(vec![("a", "First")], no_aggregated),
        Some(ConfigurationResolutionError::InAggregatedLibrary {
            error: AggregatedLibraryConfigurationError::PathIsNotUtf8 { path: "/x".to_string() }
        })
    );
}

#[test]
fn loading_a_configuration_reports_each_kind_of_failure() {
    assert!(matches!(
        Configuration::load_from_path(LoadedFile::Missing, context(vec![])),
        Err(ConfigurationError::FileLoadError { .. })
    ));
    assert_eq!(
        Configuration::load_from_path(
            LoadedFile::Unreadable { error: "denied".to_string() },
            context(vec![])
        )
        .err(),
        Some(ConfigurationError::FileLoadError {
            file_path: "/etc/euphony.toml".to_string(),
            error: "denied".to_string()
        })
    );
    assert_eq!(
        Configuration::load_from_path(
            LoadedFile::Malformed { error: "line 3".to_string() },
            context(vec![])
        )
        .err(),
        Some(ConfigurationError::FileFormatError {
            file_path: "/etc/euphony.toml".to_string(),
            error: "line 3".to_string()
        })
    );
    let mut zero_threads = unresolved_configuration(vec![]);
    zero_threads.aggregated_library.transcode_threads = 0;
    assert_eq!(
        Configuration::load_from_path(
            LoadedFile::Parsed { contents: zero_threads },
            context(vec![])
        )
        .err(),
        Some(ConfigurationError::InvalidContent {
            error: ConfigurationResolutionError::InAggregatedLibrary {
                error: AggregatedLibraryConfigurationError::ZeroTranscodeThreads
            }
        })
    );
    assert!(Configuration::load_from_path(
        LoadedFile::Parsed { contents: unresolved_configuration(vec![]) },
        context(vec![])
    )
    .is_ok());
}

#[test]
fn an_album_without_override_file_gets_the_defaults() {
    assert_eq!(ALBUM_OVERRIDE_FILE_NAME, ".album.override.euphony");
    assert_eq!(DEFAULT_SCAN_DEPTH, 0);
    assert_eq!(AlbumScanConfiguration::default().depth, 0);
    assert_eq!(UnresolvedAlbumScanConfiguration::default().depth, 0);
    assert_eq!(
        AlbumConfiguration::override_file_path("/music/A/B"),
        "/music/A/B/.album.override.euphony"
    );
    assert_eq!(
        AlbumConfiguration::load_or_default("/music/A/B", LoadedFile::Missing),
        Ok(AlbumConfiguration::default())
    );
    let overrides =
        UnresolvedAlbumConfiguration { scan: UnresolvedAlbumScanConfiguration { depth: 2 } };
    assert_eq!(
        overrides.resolve("/x".to_string()),
        AlbumConfiguration {
            configuration_file_path: "/x".to_string(),
            scan: AlbumScanConfiguration { depth: 2 }
        }
    );
    assert_eq!(
        AlbumConfiguration::load_or_default(
            "/music/A/B",
            LoadedFile::Parsed { contents: overrides }
        ),
        Ok(AlbumConfiguration {
            configuration_file_path: "/music/A/B/.album.override.euphony".to_string(),
            scan: AlbumScanConfiguration { depth: 2 }
        })
    );
    assert_eq!(
        AlbumConfiguration::load_or_default(
            "/music/A/B",
            LoadedFile::Unreadable { error: "denied".to_string() }
        ),
        Err(ConfigurationError::FileLoadError {
            file_path: "/music/A/B/.album.override.euphony".to_string(),
            error: "denied".to_string()
        })
    );
    assert_eq!(
        AlbumConfiguration::load_or_default(
            "/music/A/B",
            LoadedFile::Malformed { error: "bad".to_string() }
        ),
        Err(ConfigurationError::FileFormatError {
            file_path: "/music/A/B/.album.override.euphony".to_string(),
            error: "bad".to_string()
        })
    );
}
