//! Placeholders in configured paths and arguments, and other small helpers.

use vstd::prelude::*;

use crate::configuration::error::ConfigurationError;
use crate::configuration::filesystem::ExecutableDirectory;
use crate::filesystem::{join_path, joined};
use crate::text::{replace, replace_all};

verus! {

/// Returns the `u16` that it is instantiated with. Serves as a named default value.
pub fn default_u16<const V: u16>() -> (value: u16)
    ensures
        value == V,
{
    V
}

/// The place of the configuration file relative to the directory of the executable.
pub const DEFAULT_CONFIGURATION_FILE_PATH: &'static str = "data/configuration.toml";

/// The path of the configuration file that is loaded where none is named: the file
/// `data/configuration.toml` in the directory of the executable. Fails where that
/// directory is not known.
pub fn get_default_configuration_file_path(executable_directory: &ExecutableDirectory) -> (result:
    Result<String, ConfigurationError>)
    ensures
        match *executable_directory {
            ExecutableDirectory::Found { path } => result matches Ok(file_path) && file_path@
                == joined(path@, DEFAULT_CONFIGURATION_FILE_PATH@),
            ExecutableDirectory::NotUtf8 { path } => result matches Err(
                ConfigurationError::OtherError { error },
            ) && error@ == "Path to the current executable is not valid UTF-8."@,
            ExecutableDirectory::Unavailable { error: Some(reason) } => result == Err::<
                String,
                ConfigurationError,
            >(ConfigurationError::OtherError { error: reason }),
            ExecutableDirectory::Unavailable { error: None } => result matches Err(
                ConfigurationError::OtherError { error },
            ) && error@ == "Current executable path does not have a parent directory."@,
        },
{
    match executable_directory {
        ExecutableDirectory::Found { path } => Ok(
            join_path(path.as_str(), DEFAULT_CONFIGURATION_FILE_PATH),
        ),
        ExecutableDirectory::NotUtf8 { path: _ } => Err(
            ConfigurationError::OtherError {
                error: "Path to the current executable is not valid UTF-8.".to_owned(),
            },
        ),
        ExecutableDirectory::Unavailable { error } => match error {
            Some(reason) => Err(ConfigurationError::OtherError { error: reason.clone() }),
            None => Err(
                ConfigurationError::OtherError {
                    error: "Current executable path does not have a parent directory.".to_owned(),
                },
            ),
        },
    }
}

/// The error of a path that is not valid UTF-8.
#[derive(Clone, Copy, Debug, PartialEq, Eq, Structural)]
pub struct NotUtf8Error;

impl NotUtf8Error {
    /// The error in words.
    pub fn message(&self) -> (text: String)
        ensures
            text@ == "provided path is not valid UTF-8"@,
    {
        "provided path is not valid UTF-8".to_owned()
    }
}

/// Placeholders and the text that stands for each: pairs of a key, such as
/// `{LIBRARY_DIRECTORY}`, and its value. Replacement goes through the pairs in order.
pub type Placeholders = Vec<(String, String)>;

/// The keys and values of a list of placeholders.
pub open spec fn placeholder_pairs(placeholders: Seq<(String, String)>) -> Seq<
    (Seq<char>, Seq<char>),
> {
    placeholders.map_values(|pair: (String, String)| (pair.0@, pair.1@))
}

/// `text` after each placeholder in turn has been replaced by its value, wherever its
/// key occurs.
pub open spec fn with_placeholders_replaced(
    text: Seq<char>,
    placeholders: Seq<(Seq<char>, Seq<char>)>,
) -> Seq<char>
    decreases placeholders.len(),
{
    if placeholders.len() == 0 {
        text
    } else {
        replace_all(
            with_placeholders_replaced(text, placeholders.drop_last()),
            placeholders.last().0,
            placeholders.last().1,
        )
    }
}

/// Replaces each placeholder in `string` by its value.
pub fn replace_placeholders_in_str(string: &str, placeholders: &Placeholders) -> (replaced: String)
    ensures
        replaced@ == with_placeholders_replaced(string@, placeholder_pairs(placeholders@)),
{
    let mut replaced_string = string.to_owned();
    let ghost pairs = placeholder_pairs(placeholders@);
    let mut i: usize = 0;
    while i < placeholders.len()
        invariant
            i <= placeholders.len(),
            pairs == placeholder_pairs(placeholders@),
            replaced_string@ == with_placeholders_replaced(string@, pairs.take(i as int)),
        decreases placeholders.len() - i,
    {
        proof {
            assert(pairs.take(i + 1).drop_last() =~= pairs.take(i as int));
        }
        replaced_string = replace(
            replaced_string.as_str(),
            placeholders[i].0.as_str(),
            placeholders[i].1.as_str(),
        );
        i += 1;
    }
    assert(pairs.take(i as int) =~= pairs);
    replaced_string
}

/// Replaces each placeholder in a path by its value.
pub fn replace_placeholders_in_utf8_path(original_path: &str, placeholders: &Placeholders) -> (replaced:
    String)
    ensures
        replaced@ == with_placeholders_replaced(
            original_path@,
            placeholder_pairs(placeholders@),
        ),
{
    replace_placeholders_in_str(original_path, placeholders)
}

} // verus!
