//! The errors of loading a configuration.

use vstd::prelude::*;

use crate::configuration::base::ConfigurationResolutionError;

verus! {

/// Why a configuration could not be loaded.
#[derive(Debug, PartialEq, Eq)]
#[allow(inconsistent_fields)]
pub enum ConfigurationError {
    /// The file could not be read, for instance because it does not exist.
    FileLoadError { file_path: String, error: String },
    /// The file was read, but its contents could not be parsed.
    FileFormatError { file_path: String, error: String },
    /// The file was read and parsed, but what it holds is not valid.
    InvalidContent { error: ConfigurationResolutionError },
    /// Other, unlikely errors.
    OtherError { error: String },
}

} // verus!
