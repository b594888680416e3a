//! How the files of an album are scanned.

use vstd::prelude::*;

use crate::configuration::traits::Resolve;

verus! {

/// The scan depth of an album unless its override says otherwise: no subdirectory is
/// scanned.
pub const DEFAULT_SCAN_DEPTH: u16 = 0;

/// The scan options of an album as configured.
#[derive(Clone, Copy, Debug, PartialEq, Eq)]
pub struct UnresolvedAlbumScanConfiguration {
    /// How many levels of subdirectories are scanned.
    pub depth: u16,
}

impl Default for UnresolvedAlbumScanConfiguration {
    fn default() -> (configuration: Self)
        ensures
            configuration.depth == DEFAULT_SCAN_DEPTH,
    {
        Self { depth: DEFAULT_SCAN_DEPTH }
    }
}

impl Resolve for UnresolvedAlbumScanConfiguration {
    type Resolved = AlbumScanConfiguration;

    fn resolve(self) -> (resolved: AlbumScanConfiguration)
        ensures
            resolved.depth == self.depth,
    {
        AlbumScanConfiguration { depth: self.depth }
    }
}

/// The scan options of an album.
#[derive(Clone, Copy, Debug, PartialEq, Eq, Structural)]
pub struct AlbumScanConfiguration {
    /// How many levels of subdirectories are scanned. Zero means none.
    pub depth: u16,
}

impl Default for AlbumScanConfiguration {
    fn default() -> (configuration: Self)
        ensures
            configuration.depth == DEFAULT_SCAN_DEPTH,
    {
        Self { depth: DEFAULT_SCAN_DEPTH }
    }
}

} // verus!
