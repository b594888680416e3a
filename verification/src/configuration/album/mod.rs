//! Options that an album directory may override for itself.

pub mod scan;

use vstd::prelude::*;

use self::scan::{AlbumScanConfiguration, UnresolvedAlbumScanConfiguration, DEFAULT_SCAN_DEPTH};
use crate::configuration::error::ConfigurationError;
use crate::configuration::filesystem::LoadedFile;
use crate::configuration::traits::{Resolve, ResolveWithContext};
use crate::filesystem::{join_path, joined};

verus! {

/// The name of the file in an album directory that holds the album's overrides. The
/// file need not exist.
pub const ALBUM_OVERRIDE_FILE_NAME: &'static str = ".album.override.euphony";

/// The overrides of an album as its file holds them.
#[derive(Clone, Copy, Debug, PartialEq, Eq)]
pub struct UnresolvedAlbumConfiguration {
    pub scan: UnresolvedAlbumScanConfiguration,
}

impl ResolveWithContext for UnresolvedAlbumConfiguration {
    type Resolved = AlbumConfiguration;

    type Context = String;

    /// Resolves the overrides. The context is the path of the file that they were
    /// loaded from.
    fn resolve(self, context: String) -> (resolved: AlbumConfiguration)
        ensures
            resolved.configuration_file_path == context,
            resolved.scan.depth == self.scan.depth,
    {
        let scan = self.scan.resolve();
        AlbumConfiguration { configuration_file_path: context, scan }
    }
}

/// The options of one album.
#[derive(Debug, PartialEq, Eq)]
pub struct AlbumConfiguration {
    /// The file that the options were loaded from; empty for the defaults.
    pub configuration_file_path: String,
    pub scan: AlbumScanConfiguration,
}

impl Default for AlbumConfiguration {
    fn default() -> (configuration: Self)
        ensures
            configuration.configuration_file_path@ == Seq::<char>::empty(),
            configuration.scan.depth == DEFAULT_SCAN_DEPTH,
    {
        AlbumConfiguration {
            configuration_file_path: String::new(),
            scan: AlbumScanConfiguration::default(),
        }
    }
}

impl AlbumConfiguration {
    /// The path of the override file of the album in `album_directory_path`.
    pub fn override_file_path(album_directory_path: &str) -> (path: String)
        ensures
            path@ == joined(album_directory_path@, ALBUM_OVERRIDE_FILE_NAME@),
    {
        join_path(album_directory_path, ALBUM_OVERRIDE_FILE_NAME)
    }

    /// The options of the album in `album_directory_path`, given what reading its
    /// override file gave: the defaults where there is no such file, the resolved
    /// overrides where there is one, and an error where it cannot be read or parsed.
    pub fn load_or_default(
        album_directory_path: &str,
        loaded: LoadedFile<UnresolvedAlbumConfiguration>,
    ) -> (result: Result<AlbumConfiguration, ConfigurationError>)
        ensures
            match loaded {
                LoadedFile::Missing => {
                    &&& result matches Ok(configuration)
                    &&& configuration.configuration_file_path@ == Seq::<char>::empty()
                    &&& configuration.scan.depth == DEFAULT_SCAN_DEPTH
                },
                LoadedFile::Unreadable { error } => {
                    &&& result matches Err(
                        ConfigurationError::FileLoadError { file_path, error: reason },
                    )
                    &&& file_path@ == joined(album_directory_path@, ALBUM_OVERRIDE_FILE_NAME@)
                    &&& reason == error
                },
                LoadedFile::Malformed { error } => {
                    &&& result matches Err(
                        ConfigurationError::FileFormatError { file_path, error: reason },
                    )
                    &&& file_path@ == joined(album_directory_path@, ALBUM_OVERRIDE_FILE_NAME@)
                    &&& reason == error
                },
                LoadedFile::Parsed { contents } => {
                    &&& result matches Ok(configuration)
                    &&& configuration.configuration_file_path@ == joined(
                        album_directory_path@,
                        ALBUM_OVERRIDE_FILE_NAME@,
                    )
                    &&& configuration.scan.depth == contents.scan.depth
                },
            },
    {
        let album_configuration_file_path = AlbumConfiguration::override_file_path(
            album_directory_path,
        );
        match loaded {
            LoadedFile::Missing => Ok(AlbumConfiguration::default()),
            LoadedFile::Unreadable { error } => Err(
                ConfigurationError::FileLoadError {
                    file_path: album_configuration_file_path,
                    error,
                },
            ),
            LoadedFile::Malformed { error } => Err(
                ConfigurationError::FileFormatError {
                    file_path: album_configuration_file_path,
                    error,
                },
            ),
            LoadedFile::Parsed { contents } => Ok(contents.resolve(album_configuration_file_path)),
        }
    }
}

} // verus!
