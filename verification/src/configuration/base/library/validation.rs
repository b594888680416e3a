//! Which files a library may hold.

use vstd::prelude::*;

use crate::configuration::traits::Resolve;
use crate::filesystem::{extension_of, file_name, file_name_of, get_path_extension_or_empty};
use crate::text::{
    clone_strings, contains_text, lowercase_each, texts_of, to_ascii_lowercase_each,
};

verus! {

/// The files that a library may hold, as configured.
#[derive(Debug, PartialEq, Eq)]
pub struct UnresolvedLibraryValidationConfiguration {
    pub allowed_audio_file_extensions: Vec<String>,
    pub allowed_other_file_extensions: Vec<String>,
    pub allowed_other_files_by_name: Vec<String>,
}

/// The files that a library may hold: extensions in lower case, and file names as
/// configured. Any other file is flagged when the library is validated.
#[derive(Debug, PartialEq, Eq)]
pub struct LibraryValidationConfiguration {
    pub allowed_audio_file_extensions: Vec<String>,
    pub allowed_other_file_extensions: Vec<String>,
    pub allowed_other_files_by_name: Vec<String>,
}

impl Resolve for UnresolvedLibraryValidationConfiguration {
    type Resolved = LibraryValidationConfiguration;

    /// Puts the configured extensions in lower case and keeps the file names.
    fn resolve(self) -> (resolved: LibraryValidationConfiguration)
        ensures
            texts_of(resolved.allowed_audio_file_extensions@) == lowercase_each(
                texts_of(self.allowed_audio_file_extensions@),
            ),
            texts_of(resolved.allowed_other_file_extensions@) == lowercase_each(
                texts_of(self.allowed_other_file_extensions@),
            ),
            resolved.allowed_other_files_by_name == self.allowed_other_files_by_name,
    {
        let allowed_audio_file_extensions = to_ascii_lowercase_each(
            &self.allowed_audio_file_extensions,
        );
        let allowed_other_file_extensions = to_ascii_lowercase_each(
            &self.allowed_other_file_extensions,
        );
        LibraryValidationConfiguration {
            allowed_audio_file_extensions,
            allowed_other_file_extensions,
            allowed_other_files_by_name: self.allowed_other_files_by_name,
        }
    }
}

impl LibraryValidationConfiguration {
    /// Whether the library may hold the file at `file_path`: its extension, in lower
    /// case, is an allowed audio or other extension, or its name is an allowed name.
    pub fn is_file_allowed(&self, file_path: &str) -> (allowed: bool)
        ensures
            allowed == (texts_of(self.allowed_audio_file_extensions@).contains(
                extension_of(file_path@),
            ) || texts_of(self.allowed_other_file_extensions@).contains(extension_of(file_path@))
                || texts_of(self.allowed_other_files_by_name@).contains(file_name_of(file_path@))),
    {
        let extension = get_path_extension_or_empty(file_path);
        if contains_text(&self.allowed_audio_file_extensions, &extension) {
            return true;
        }
        if contains_text(&self.allowed_other_file_extensions, &extension) {
            return true;
        }
        let name = file_name(file_path);
        contains_text(&self.allowed_other_files_by_name, &name)
    }
}

impl Clone for LibraryValidationConfiguration {
    fn clone(&self) -> (copy: Self)
        ensures
            copy.allowed_audio_file_extensions@ == self.allowed_audio_file_extensions@,
            copy.allowed_other_file_extensions@ == self.allowed_other_file_extensions@,
            copy.allowed_other_files_by_name@ == self.allowed_other_files_by_name@,
    {
        LibraryValidationConfiguration {
            allowed_audio_file_extensions: clone_strings(&self.allowed_audio_file_extensions),
            allowed_other_file_extensions: clone_strings(&self.allowed_other_file_extensions),
            allowed_other_files_by_name: clone_strings(&self.allowed_other_files_by_name),
        }
    }
}

} // verus!
