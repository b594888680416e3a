//! What the command line decides: where the configuration comes from, which
//! presentation backend a command gets, and the exit code that it ends with.

use vstd::prelude::*;

verus! {

/// A command of the program, as given on the command line.
#[derive(Debug, PartialEq, Eq)]
pub enum CliCommand {
    /// Transcode all libraries into the aggregated library.
    TranscodeAll { bare_terminal: bool, log_to_file: Option<String> },
    /// Transcode the library in the given directory.
    TranscodeLibrary { library_directory: String, bare_terminal: bool, log_to_file: Option<String> },
    /// Transcode the album in the given directory.
    TranscodeAlbum { album_directory: String, bare_terminal: bool, log_to_file: Option<String> },
    /// Validate all libraries.
    ValidateAll { log_to_file: Option<String> },
    /// Load, validate and print the configuration.
    ShowConfig,
    /// List the configured libraries.
    ListLibraries,
}

/// Where the configuration is loaded from.
#[derive(Debug, PartialEq, Eq)]
pub enum ConfigurationSource {
    /// The file at the given path.
    Path { path: String },
    /// The file `data/configuration.toml` beside the executable.
    DefaultPath,
}

/// A presentation backend.
#[derive(Clone, Copy, Debug, PartialEq, Eq, Structural)]
pub enum TerminalKind {
    /// Plain lines on the console, without progress bars.
    Bare,
    /// The full terminal interface.
    Fancy,
}

/// How far a command got.
#[derive(Clone, Copy, Debug, PartialEq, Eq, Structural)]
pub enum CommandProgress {
    /// The log file that was asked for could not be opened. The command did not run.
    LogFileFailed,
    /// The command ran and succeeded.
    Succeeded,
    /// The command ran and failed.
    Failed,
}

/// Where the configuration is loaded from: the path given on the command line, or
/// else the default path.
pub fn get_configuration(config: Option<String>) -> (source: ConfigurationSource)
    ensures
        source == (match config {
            Some(path) => ConfigurationSource::Path { path },
            None => ConfigurationSource::DefaultPath,
        }),
{
    match config {
        Some(path) => ConfigurationSource::Path { path },
        None => ConfigurationSource::DefaultPath,
    }
}

/// The backend of a transcoding command: the bare one where it is asked for, else the
/// terminal interface.
pub fn get_transcode_terminal(use_bare: bool) -> (terminal: TerminalKind)
    ensures
        terminal == (if use_bare {
            TerminalKind::Bare
        } else {
            TerminalKind::Fancy
        }),
{
    if use_bare {
        TerminalKind::Bare
    } else {
        TerminalKind::Fancy
    }
}

/// Whether the command transcodes: a whole collection, a library or an album.
pub open spec fn transcodes(command: CliCommand) -> bool {
    command is TranscodeAll || command is TranscodeLibrary || command is TranscodeAlbum
}

/// Whether the bare backend is asked for. Only transcoding has a choice; every other
/// command runs with the bare backend.
pub open spec fn wants_bare_terminal(command: CliCommand) -> bool {
    match command {
        CliCommand::TranscodeAll { bare_terminal, .. } => bare_terminal,
        CliCommand::TranscodeLibrary { bare_terminal, .. } => bare_terminal,
        CliCommand::TranscodeAlbum { bare_terminal, .. } => bare_terminal,
        _ => true,
    }
}

/// The log file that the command asks for, if any.
pub open spec fn log_file_of(command: CliCommand) -> Option<String> {
    match command {
        CliCommand::TranscodeAll { log_to_file, .. } => log_to_file,
        CliCommand::TranscodeLibrary { log_to_file, .. } => log_to_file,
        CliCommand::TranscodeAlbum { log_to_file, .. } => log_to_file,
        CliCommand::ValidateAll { log_to_file } => log_to_file,
        _ => None,
    }
}

/// The backend that a command runs with.
pub open spec fn terminal_of(command: CliCommand) -> TerminalKind {
    if wants_bare_terminal(command) {
        TerminalKind::Bare
    } else {
        TerminalKind::Fancy
    }
}

/// The exit code of a command that got as far as `progress`: transcoding fails with
/// code one where it failed or its log file could not be opened; validation only
/// where its log file could not be opened, since its findings are logged; the other
/// commands never fail.
pub open spec fn exit_code_of(command: CliCommand, progress: CommandProgress) -> int {
    if transcodes(command) {
        if progress == CommandProgress::Succeeded {
            0
        } else {
            1
        }
    } else if command is ValidateAll {
        if progress == CommandProgress::LogFileFailed {
            1
        } else {
            0
        }
    } else {
        0
    }
}

/// What running a command takes.
#[derive(Debug, PartialEq, Eq)]
pub struct CommandPlan {
    /// The backend to set up before the command and to destroy after it.
    pub terminal: TerminalKind,
    /// The file that the log is saved to as well, if any.
    pub log_to_file: Option<String>,
}

/// What running the given command takes: its backend, and its log file where one is
/// asked for.
pub fn run_requested_cli_command(command: &CliCommand) -> (plan: CommandPlan)
    ensures
        plan.terminal == terminal_of(*command),
        plan.log_to_file == log_file_of(*command),
{
    match command {
        CliCommand::TranscodeAll { bare_terminal, log_to_file } => CommandPlan {
            terminal: get_transcode_terminal(*bare_terminal),
            log_to_file: clone_path(log_to_file),
        },
        CliCommand::TranscodeLibrary { library_directory: _, bare_terminal, log_to_file } => {
            CommandPlan {
                terminal: get_transcode_terminal(*bare_terminal),
                log_to_file: clone_path(log_to_file),
            }
        },
        CliCommand::TranscodeAlbum { album_directory: _, bare_terminal, log_to_file } => {
            CommandPlan {
                terminal: get_transcode_terminal(*bare_terminal),
                log_to_file: clone_path(log_to_file),
            }
        },
        CliCommand::ValidateAll { log_to_file } => CommandPlan {
            terminal: TerminalKind::Bare,
            log_to_file: clone_path(log_to_file),
        },
        _ => CommandPlan { terminal: TerminalKind::Bare, log_to_file: None },
    }
}

/// A copy of an optional path.
fn clone_path(path: &Option<String>) -> (copy: Option<String>)
    ensures
        copy == *path,
{
    match path {
        Some(path) => Some(path.clone()),
        None => None,
    }
}

/// The exit code of a command that got as far as `progress`.
pub fn exit_code(command: &CliCommand, progress: CommandProgress) -> (code: i32)
    ensures
        code == exit_code_of(*command, progress),
{
    match command {
        CliCommand::TranscodeAll { .. }
        | CliCommand::TranscodeLibrary { .. }
        | CliCommand::TranscodeAlbum { .. } => match progress {
            CommandProgress::Succeeded => 0,
            _ => 1,
        },
        CliCommand::ValidateAll { .. } => match progress {
            CommandProgress::LogFileFailed => 1,
            _ => 0,
        },
        _ => 0,
    }
}

} // verus!
