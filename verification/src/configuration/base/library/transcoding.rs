//! Which files of a library are transcoded and which are copied.

use vstd::prelude::*;

use crate::configuration::traits::Resolve;
use crate::filesystem::{extension_of, get_path_extension_or_empty};
use crate::text::{clone_strings, contains_text, lowercase_each, texts_of, to_ascii_lowercase_each};

verus! {

/// The tracked extensions of a library as configured, in any case.
#[derive(Debug, PartialEq, Eq)]
pub struct UnresolvedLibraryTranscodingConfiguration {
    pub audio_file_extensions: Vec<String>,
    pub other_file_extensions: Vec<String>,
}

/// The tracked extensions of a library, in lower case and without a dot.
#[derive(Debug, PartialEq, Eq)]
pub struct LibraryTranscodingConfiguration {
    /// Files with these extensions are audio files: they are transcoded.
    pub audio_file_extensions: Vec<String>,
    /// Files with these extensions are data files: they are copied.
    pub other_file_extensions: Vec<String>,
    /// The audio extensions followed by the other extensions.
    pub all_tracked_extensions: Vec<String>,
}

impl Resolve for UnresolvedLibraryTranscodingConfiguration {
    type Resolved = LibraryTranscodingConfiguration;

    /// Puts the configured extensions in lower case and lists all of them together.
    fn resolve(self) -> (resolved: LibraryTranscodingConfiguration)
        ensures
            texts_of(resolved.audio_file_extensions@) == lowercase_each(
                texts_of(self.audio_file_extensions@),
            ),
            texts_of(resolved.other_file_extensions@) == lowercase_each(
                texts_of(self.other_file_extensions@),
            ),
            texts_of(resolved.all_tracked_extensions@) == texts_of(resolved.audio_file_extensions@)
                + texts_of(resolved.other_file_extensions@),
    {
        let audio_file_extensions = to_ascii_lowercase_each(&self.audio_file_extensions);
        let other_file_extensions = to_ascii_lowercase_each(&self.other_file_extensions);
        let mut all_tracked_extensions = clone_strings(&audio_file_extensions);
        let mut others = clone_strings(&other_file_extensions);
        all_tracked_extensions.append(&mut others);
        LibraryTranscodingConfiguration {
            audio_file_extensions,
            other_file_extensions,
            all_tracked_extensions,
        }
    }
}

impl LibraryTranscodingConfiguration {
    /// Whether the extension of `file_path`, in lower case, is one of the audio
    /// extensions.
    pub fn is_audio_file_by_extension(&self, file_path: &str) -> (is_audio: bool)
        ensures
            is_audio == texts_of(self.audio_file_extensions@).contains(extension_of(file_path@)),
    {
        let extension = get_path_extension_or_empty(file_path);
        contains_text(&self.audio_file_extensions, &extension)
    }

    /// Whether the extension of `file_path`, in lower case, is one of the other
    /// tracked extensions.
    pub fn is_data_file_by_extension(&self, file_path: &str) -> (is_data: bool)
        ensures
            is_data == texts_of(self.other_file_extensions@).contains(extension_of(file_path@)),
    {
        let extension = get_path_extension_or_empty(file_path);
        contains_text(&self.other_file_extensions, &extension)
    }
}

impl Clone for LibraryTranscodingConfiguration {
    fn clone(&self) -> (copy: Self)
        ensures
            copy.audio_file_extensions@ == self.audio_file_extensions@,
            copy.other_file_extensions@ == self.other_file_extensions@,
            copy.all_tracked_extensions@ == self.all_tracked_extensions@,
    {
        LibraryTranscodingConfiguration {
            audio_file_extensions: clone_strings(&self.audio_file_extensions),
            other_file_extensions: clone_strings(&self.other_file_extensions),
            all_tracked_extensions: clone_strings(&self.all_tracked_extensions),
        }
    }
}

} // verus!
