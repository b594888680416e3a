//! Where the log of a run is written.

use vstd::prelude::*;

use crate::configuration::base::paths::{placeholders_of, PathsConfiguration};
use crate::configuration::filesystem::ExecutableDirectory;
use crate::configuration::traits::TryResolveWithContext;
use crate::configuration::utilities::{
    placeholder_pairs, replace_placeholders_in_utf8_path, with_placeholders_replaced,
};

verus! {

/// Why the logging options could not be resolved.
#[derive(Debug, PartialEq, Eq)]
pub enum LoggingConfigurationError {
    FailedToGetCurrentExecutable { error: Option<String> },
    PathIsNotUtf8 { path: String },
}

/// The logging options as configured. The path may hold the placeholders of the base
/// paths, `{BINARY_DIRECTORY_PATH}` and `{STARTUP_DATE_TIME}`.
#[derive(Debug, PartialEq, Eq)]
pub struct UnresolvedLoggingConfiguration {
    pub log_output_path: Option<String>,
}

/// The logging options: the file that the log goes to, if any.
#[derive(Debug, PartialEq, Eq)]
pub struct LoggingConfiguration {
    pub log_output_path: Option<String>,
}

/// What resolving the logging options needs from outside: the base paths, the
/// directory of the executable, and the time of start-up, formatted as year, month,
/// day, hour, minute and second.
#[derive(Debug, PartialEq, Eq)]
pub struct LoggingResolutionContext {
    pub paths: PathsConfiguration,
    pub executable_directory: ExecutableDirectory,
    pub startup_date_time: String,
}

/// The placeholders of a log path: those of the base paths, then the directory of the
/// executable, then the time of start-up.
pub open spec fn log_placeholders(
    paths: PathsConfiguration,
    executable_directory: Seq<char>,
    startup_date_time: Seq<char>,
) -> Seq<(Seq<char>, Seq<char>)> {
    placeholders_of(paths) + seq![
        ("{BINARY_DIRECTORY_PATH}"@, executable_directory),
        ("{STARTUP_DATE_TIME}"@, startup_date_time),
    ]
}

/// What resolving the logging options returns. Without a directory of the executable
/// it fails, also where no log path is configured. A configured path gets its
/// placeholders filled in.
pub open spec fn logging_resolution(
    unresolved: UnresolvedLoggingConfiguration,
    context: LoggingResolutionContext,
    result: Result<LoggingConfiguration, LoggingConfigurationError>,
) -> bool {
    match context.executable_directory {
        ExecutableDirectory::Unavailable { error } => result == Err::<
            LoggingConfiguration,
            LoggingConfigurationError,
        >(LoggingConfigurationError::FailedToGetCurrentExecutable { error }),
        ExecutableDirectory::NotUtf8 { path } => result == Err::<
            LoggingConfiguration,
            LoggingConfigurationError,
        >(LoggingConfigurationError::PathIsNotUtf8 { path }),
        ExecutableDirectory::Found { path: directory } => {
            &&& result matches Ok(logging)
            &&& match unresolved.log_output_path {
                None => logging.log_output_path is None,
                Some(configured) => {
                    &&& logging.log_output_path matches Some(path)
                    &&& path@ == with_placeholders_replaced(
                        configured@,
                        log_placeholders(
                            context.paths,
                            directory@,
                            context.startup_date_time@,
                        ),
                    )
                },
            }
        },
    }
}

impl TryResolveWithContext for UnresolvedLoggingConfiguration {
    type Resolved = LoggingConfiguration;

    type Error = LoggingConfigurationError;

    type Context = LoggingResolutionContext;

    /// Resolves the logging options.
    fn try_resolve(self, context: LoggingResolutionContext) -> (result: Result<
        LoggingConfiguration,
        LoggingConfigurationError,
    >)
        ensures
            logging_resolution(self, context, result),
    {
        let executable_directory = match context.executable_directory {
            ExecutableDirectory::Unavailable { error } => {
                return Err(LoggingConfigurationError::FailedToGetCurrentExecutable { error });
            },
            ExecutableDirectory::NotUtf8 { path } => {
                return Err(LoggingConfigurationError::PathIsNotUtf8 { path });
            },
            ExecutableDirectory::Found { path } => path,
        };
        let log_output_path = match self.log_output_path {
            Some(log_output_path) => {
                let mut placeholders = context.paths.placeholders();
                placeholders.push(("{BINARY_DIRECTORY_PATH}".to_owned(), executable_directory));
                placeholders.push(("{STARTUP_DATE_TIME}".to_owned(), context.startup_date_time));
                assert(placeholder_pairs(placeholders@) =~= log_placeholders(
                    context.paths,
                    executable_directory@,
                    context.startup_date_time@,
                ));
                Some(replace_placeholders_in_utf8_path(log_output_path.as_str(), &placeholders))
            },
            None => None,
        };
        Ok(LoggingConfiguration { log_output_path })
    }
}

} // verus!
