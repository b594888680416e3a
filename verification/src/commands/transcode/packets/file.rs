//! One file's pending action: an audio file is transcoded, a data file is copied.

use vstd::prelude::*;

use crate::commands::transcode::directories::{AlbumDirectoryInfo, AlbumDirectoryInfoView};
use crate::configuration::base::library::transcoding::LibraryTranscodingConfiguration;
use crate::configuration::base::tools::FfmpegToolsConfiguration;
use crate::configuration::base::{first_with_path, Configuration};
use crate::filesystem::{
    extension_of, file_name, file_name_of, join_path, joined, with_extension, with_extension_of,
};
use crate::text::{replace, replace_all, texts_of};

verus! {

/// What is done with a file.
#[derive(Clone, Copy, Debug, PartialEq, Eq, Structural)]
pub enum FilePacketType {
    /// The file is handed to the transcoding tool.
    AudioFile,
    /// The file is copied as it is.
    DataFile,
}

/// Why no work packet can be made for a file.
#[derive(Clone, Copy, Debug, PartialEq, Eq, Structural)]
pub enum FilePacketError {
    /// The album's library directory is not that of a configured library.
    UnknownLibrary,
    /// The file's extension is neither an audio nor a data extension of its library.
    UntrackedExtension,
}

/// Why processing a file failed.
#[derive(Debug, PartialEq, Eq)]
pub enum FileProcessingError {
    /// The transcoding tool did not exit with code zero, or left no output file.
    /// Without an exit code the tool could not be run or was killed.
    ToolInvocationError { exit_code: Option<i32>, output_exists: bool },
    /// Reading, writing or copying failed; `message` says how.
    IOError { message: String },
}

impl Clone for FileProcessingError {
    fn clone(&self) -> (copy: Self)
        ensures
            copy == *self,
    {
        match self {
            FileProcessingError::ToolInvocationError { exit_code, output_exists } => {
                FileProcessingError::ToolInvocationError {
                    exit_code: *exit_code,
                    output_exists: *output_exists,
                }
            },
            FileProcessingError::IOError { message } => FileProcessingError::IOError {
                message: message.clone(),
            },
        }
    }
}

/// The step that processes a file, for the caller to carry out.
#[derive(Debug, PartialEq, Eq)]
pub enum FileAction {
    /// Run the program `binary_path` with `arguments`.
    Transcode { binary_path: String, arguments: Vec<String> },
    /// Copy the file `from` to `to`, byte for byte.
    Copy { from: String, to: String },
}

/// The mathematical value of a [`FileAction`].
pub ghost enum FileActionView {
    Transcode { binary_path: Seq<char>, arguments: Seq<Seq<char>> },
    Copy { from: Seq<char>, to: Seq<char> },
}

impl View for FileAction {
    type V = FileActionView;

    open spec fn view(&self) -> FileActionView {
        match self {
            FileAction::Transcode { binary_path, arguments } => FileActionView::Transcode {
                binary_path: binary_path@,
                arguments: texts_of(arguments@),
            },
            FileAction::Copy { from, to } => FileActionView::Copy { from: from@, to: to@ },
        }
    }
}

/// One file of an album together with all that is needed to process it on its own.
#[derive(Debug, PartialEq, Eq)]
pub struct FileWorkPacket {
    /// The file's path relative to the album directory.
    pub file_path: String,
    /// The file's path in its library.
    pub source_file_path: String,
    /// The path that the processed file gets in the aggregated library.
    pub target_file_path: String,
    pub file_type: FilePacketType,
}

/// The mathematical value of a [`FileWorkPacket`].
pub ghost struct FileWorkPacketView {
    pub file_path: Seq<char>,
    pub source_file_path: Seq<char>,
    pub target_file_path: Seq<char>,
    pub file_type: FilePacketType,
}

impl View for FileWorkPacket {
    type V = FileWorkPacketView;

    open spec fn view(&self) -> FileWorkPacketView {
        FileWorkPacketView {
            file_path: self.file_path@,
            source_file_path: self.source_file_path@,
            target_file_path: self.target_file_path@,
            file_type: self.file_type,
        }
    }
}

/// How a library treats the file `file_path`: by its extension in lower case, as an
/// audio file, else as a data file, else not at all.
pub open spec fn file_type_of(
    file_path: Seq<char>,
    transcoding: LibraryTranscodingConfiguration,
) -> Option<FilePacketType> {
    if texts_of(transcoding.audio_file_extensions@).contains(extension_of(file_path)) {
        Some(FilePacketType::AudioFile)
    } else if texts_of(transcoding.other_file_extensions@).contains(extension_of(file_path)) {
        Some(FilePacketType::DataFile)
    } else {
        None
    }
}

/// The work packet for the file `file_path` of the album `album`: the source lies in
/// the album directory, the target under the same artist, album and relative path in
/// the aggregated library. The target of an audio file gets the extension that
/// transcoding writes.
pub open spec fn file_packet_of(
    file_path: Seq<char>,
    album: AlbumDirectoryInfoView,
    configuration: Configuration,
) -> Result<FileWorkPacketView, FilePacketError> {
    let position = first_with_path(configuration.libraries@, album.library_path);
    if position >= configuration.libraries.len() {
        Err(FilePacketError::UnknownLibrary)
    } else {
        match file_type_of(file_path, configuration.libraries[position].library.transcoding) {
            None => Err(FilePacketError::UntrackedExtension),
            Some(file_type) => {
                let target_album = AlbumDirectoryInfoView {
                    library_path: configuration.aggregated_library.path@,
                    ..album
                };
                let target = joined(target_album.directory_path(), file_path);
                Ok(
                    FileWorkPacketView {
                        file_path,
                        source_file_path: joined(album.directory_path(), file_path),
                        target_file_path: match file_type {
                            FilePacketType::AudioFile => with_extension_of(
                                target,
                                configuration.tools.ffmpeg.audio_transcoding_output_extension@,
                            ),
                            FilePacketType::DataFile => target,
                        },
                        file_type,
                    },
                )
            },
        }
    }
}

/// `argument` with the placeholders for the input and the output file filled in.
pub open spec fn tool_argument(argument: Seq<char>, input: Seq<char>, output: Seq<char>) -> Seq<
    char,
> {
    replace_all(replace_all(argument, "{INPUT_FILE}"@, input), "{OUTPUT_FILE}"@, output)
}

/// The step that processes `packet` with the tool `ffmpeg`.
pub open spec fn action_of(packet: FileWorkPacketView, ffmpeg: FfmpegToolsConfiguration) -> FileActionView {
    match packet.file_type {
        FilePacketType::AudioFile => FileActionView::Transcode {
            binary_path: ffmpeg.binary_path@,
            arguments: texts_of(ffmpeg.audio_transcoding_args@).map_values(
                |argument: Seq<char>|
                    tool_argument(argument, packet.source_file_path, packet.target_file_path),
            ),
        },
        FilePacketType::DataFile => FileActionView::Copy {
            from: packet.source_file_path,
            to: packet.target_file_path,
        },
    }
}

impl FileWorkPacket {
    /// The work packet for the file at `file_path`, relative to the directory of the
    /// album `album_info`.
    pub fn new(file_path: &str, album_info: &AlbumDirectoryInfo, config: &Configuration) -> (result:
        Result<FileWorkPacket, FilePacketError>)
        ensures
            match result {
                Ok(packet) => file_packet_of(file_path@, album_info@, *config) == Ok::<
                    FileWorkPacketView,
                    FilePacketError,
                >(packet@),
                Err(error) => file_packet_of(file_path@, album_info@, *config) == Err::<
                    FileWorkPacketView,
                    FilePacketError,
                >(error),
            },
    {
        let library = match config.get_library_by_path(album_info.library_path.as_str()) {
            Some(library) => library,
            None => {
                return Err(FilePacketError::UnknownLibrary);
            },
        };
        let file_type = if library.transcoding.is_audio_file_by_extension(file_path) {
            FilePacketType::AudioFile
        } else if library.transcoding.is_data_file_by_extension(file_path) {
            FilePacketType::DataFile
        } else {
            return Err(FilePacketError::UntrackedExtension);
        };
        let source_directory = album_info.directory_path();
        let source_file_path = join_path(source_directory.as_str(), file_path);
        let target_album = AlbumDirectoryInfo {
            library_path: config.aggregated_library.path.clone(),
            artist_name: album_info.artist_name.clone(),
            album_title: album_info.album_title.clone(),
        };
        let target_directory = target_album.directory_path();
        let target = join_path(target_directory.as_str(), file_path);
        let target_file_path = match file_type {
            FilePacketType::AudioFile => with_extension(
                target.as_str(),
                config.tools.ffmpeg.audio_transcoding_output_extension.as_str(),
            ),
            FilePacketType::DataFile => target,
        };
        Ok(
            FileWorkPacket {
                file_path: file_path.to_owned(),
                source_file_path,
                target_file_path,
                file_type,
            },
        )
    }

    /// The name of the file: the last component of its path.
    pub fn get_file_name(&self) -> (name: String)
        ensures
            name@ == file_name_of(self@.source_file_path),
    {
        file_name(self.source_file_path.as_str())
    }

    /// The step that processes this file: a run of the transcoding tool for an audio
    /// file, with the two file paths filled into its arguments, and a copy for a data
    /// file.
    pub fn process(&self, ffmpeg: &FfmpegToolsConfiguration) -> (action: FileAction)
        ensures
            action@ == action_of(self@, *ffmpeg),
    {
        match self.file_type {
            FilePacketType::AudioFile => {
                let configured = &ffmpeg.audio_transcoding_args;
                let ghost wanted = action_of(self@, *ffmpeg)->Transcode_arguments;
                let mut arguments: Vec<String> = Vec::new();
                let mut i: usize = 0;
                while i < configured.len()
                    invariant
                        i <= configured.len(),
                        configured == &ffmpeg.audio_transcoding_args,
                        wanted == texts_of(ffmpeg.audio_transcoding_args@).map_values(
                            |argument: Seq<char>|
                                tool_argument(
                                    argument,
                                    self@.source_file_path,
                                    self@.target_file_path,
                                ),
                        ),
                        texts_of(arguments@) == wanted.take(i as int),
                    decreases configured.len() - i,
                {
                    let with_input = replace(
                        configured[i].as_str(),
                        "{INPUT_FILE}",
                        self.source_file_path.as_str(),
                    );
                    let argument = replace(
                        with_input.as_str(),
                        "{OUTPUT_FILE}",
                        self.target_file_path.as_str(),
                    );
                    let ghost before = texts_of(arguments@);
                    arguments.push(argument);
                    i += 1;
                    assert(texts_of(arguments@) =~= wanted.take(i as int)) by {
                        assert(texts_of(arguments@) =~= before.push(argument@));
                    }
                }
                assert(wanted.take(i as int) =~= wanted);
                FileAction::Transcode { binary_path: ffmpeg.binary_path.clone(), arguments }
            },
            FilePacketType::DataFile => FileAction::Copy {
                from: self.source_file_path.clone(),
                to: self.target_file_path.clone(),
            },
        }
    }

    /// What a finished run of the transcoding tool amounts to: success where it exited
    /// with code zero and the output file is there, else a failed invocation.
    pub fn judge_tool_run(exit_code: Option<i32>, output_exists: bool) -> (result: Result<
        (),
        FileProcessingError,
    >)
        ensures
            result is Ok <==> exit_code == Some(0i32) && output_exists,
            result matches Err(error) ==> error == (FileProcessingError::ToolInvocationError {
                exit_code,
                output_exists,
            }),
    {
        match exit_code {
            Some(code) => {
                if code == 0 && output_exists {
                    Ok(())
                } else {
                    Err(FileProcessingError::ToolInvocationError { exit_code, output_exists })
                }
            },
            None => Err(FileProcessingError::ToolInvocationError { exit_code, output_exists }),
        }
    }
}

impl Clone for FileWorkPacket {
    fn clone(&self) -> (copy: Self)
        ensures
            copy == *self,
    {
        FileWorkPacket {
            file_path: self.file_path.clone(),
            source_file_path: self.source_file_path.clone(),
            target_file_path: self.target_file_path.clone(),
            file_type: self.file_type,
        }
    }
}

} // verus!
