//! Validation options that hold for every library.

use vstd::prelude::*;

use crate::configuration::traits::Resolve;
use crate::text::{lowercase_each, texts_of, to_ascii_lowercase_each};

verus! {

/// The validation options as configured.
#[derive(Debug, PartialEq, Eq)]
pub struct UnresolvedValidationConfiguration {
    pub extensions_considered_audio_files: Vec<String>,
}

/// The validation options: the extensions that mark a file as audio, in lower case.
#[derive(Debug, PartialEq, Eq)]
pub struct ValidationConfiguration {
    pub extensions_considered_audio_files: Vec<String>,
}

impl Resolve for UnresolvedValidationConfiguration {
    type Resolved = ValidationConfiguration;

    /// Puts the configured extensions in lower case.
    fn resolve(self) -> (resolved: ValidationConfiguration)
        ensures
            texts_of(resolved.extensions_considered_audio_files@) == lowercase_each(
                texts_of(self.extensions_considered_audio_files@),
            ),
    {
        ValidationConfiguration {
            extensions_considered_audio_files: to_ascii_lowercase_each(
                &self.extensions_considered_audio_files,
            ),
        }
    }
}

} // verus!
