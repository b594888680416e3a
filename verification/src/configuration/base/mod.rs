//! The configuration of the program as a whole: base paths, logging, interface,
//! validation, tools, libraries and the aggregated library.

pub mod aggregated_library;
pub mod library;
pub mod logging;
pub mod paths;
pub mod resolution;
pub mod tools;
pub mod ui;
pub mod validation;

use vstd::prelude::*;

use self::aggregated_library::{AggregatedLibraryConfiguration, AggregatedLibraryConfigurationError};
use self::library::configuration::{LibraryConfiguration, LibraryConfigurationError};
use self::logging::{LoggingConfiguration, LoggingConfigurationError};
use self::paths::{PathsConfiguration, PathsConfigurationError};
use self::tools::{ToolsConfiguration, ToolsConfigurationError};
use self::ui::UiConfiguration;
use self::validation::ValidationConfiguration;

verus! {

/// Why a configuration could not be validated and resolved.
#[derive(Debug, PartialEq, Eq)]
#[allow(inconsistent_fields)]
pub enum ConfigurationResolutionError {
    InPaths { error: PathsConfigurationError },
    InLogging { error: LoggingConfigurationError },
    InTools { error: ToolsConfigurationError },
    /// Two libraries have the same display name.
    LibraryDisplayNameConflict { library_display_name: String },
    /// The library configured under `library_key` could not be resolved.
    InLibrary { library_key: String, error: LibraryConfigurationError },
    InAggregatedLibrary { error: AggregatedLibraryConfigurationError },
}

/// One configured library and the key that it is configured under.
#[derive(Debug, PartialEq, Eq)]
pub struct LibraryEntry {
    pub key: String,
    pub library: LibraryConfiguration,
}

/// The entire configuration, from tool paths to libraries.
#[derive(Debug, PartialEq, Eq)]
pub struct Configuration {
    /// The file that this configuration was loaded from.
    pub configuration_file_path: String,
    pub paths: PathsConfiguration,
    pub logging: LoggingConfiguration,
    pub ui: UiConfiguration,
    pub validation: ValidationConfiguration,
    pub tools: ToolsConfiguration,
    /// The libraries, in the order of their keys.
    pub libraries: Vec<LibraryEntry>,
    pub aggregated_library: AggregatedLibraryConfiguration,
}

/// The position of the first of `libraries` whose directory is `library_path`, or the
/// number of libraries where none is there.
pub open spec fn first_with_path(libraries: Seq<LibraryEntry>, library_path: Seq<char>) -> int
    decreases libraries.len(),
{
    if libraries.len() == 0 {
        0
    } else if libraries[0].library.path@ == library_path {
        0
    } else {
        1 + first_with_path(libraries.skip(1), library_path)
    }
}

/// The position of the first of `libraries` whose display name is `name`, or the
/// number of libraries where none has it.
pub open spec fn first_with_name(libraries: Seq<LibraryEntry>, name: Seq<char>) -> int
    decreases libraries.len(),
{
    if libraries.len() == 0 {
        0
    } else if libraries[0].library.name@ == name {
        0
    } else {
        1 + first_with_name(libraries.skip(1), name)
    }
}

/// A position before which no library has the directory `library_path`, and which is
/// the end of the list or a library with that directory, is the first such position.
pub proof fn lemma_first_with_path(libraries: Seq<LibraryEntry>, library_path: Seq<char>, k: int)
    requires
        0 <= k <= libraries.len(),
        forall|i: int| 0 <= i < k ==> (#[trigger] libraries[i]).library.path@ != library_path,
        k == libraries.len() || libraries[k].library.path@ == library_path,
    ensures
        first_with_path(libraries, library_path) == k,
    decreases k,
{
    if k > 0 {
        let rest = libraries.skip(1);
        lemma_first_with_path(rest, library_path, k - 1);
    }
}

/// A position before which no library has the display name `name`, and which is the
/// end of the list or a library with that name, is the first such position.
pub proof fn lemma_first_with_name(libraries: Seq<LibraryEntry>, name: Seq<char>, k: int)
    requires
        0 <= k <= libraries.len(),
        forall|i: int| 0 <= i < k ==> (#[trigger] libraries[i]).library.name@ != name,
        k == libraries.len() || libraries[k].library.name@ == name,
    ensures
        first_with_name(libraries, name) == k,
    decreases k,
{
    if k > 0 {
        let rest = libraries.skip(1);
        lemma_first_with_name(rest, name, k - 1);
    }
}

impl Configuration {
    /// The position of the first library whose directory is `library_path`.
    fn find_by_path(&self, library_path: &str) -> (position: usize)
        ensures
            position == first_with_path(self.libraries@, library_path@),
            position <= self.libraries.len(),
            position < self.libraries.len() ==> self.libraries[position as int].library.path@
                == library_path@,
    {
        let wanted = library_path.to_owned();
        let mut i: usize = 0;
        while i < self.libraries.len()
            invariant
                i <= self.libraries.len(),
                wanted@ == library_path@,
                forall|j: int| 0 <= j < i ==> (#[trigger] self.libraries[j]).library.path@
                    != library_path@,
            ensures
                i == self.libraries.len() || self.libraries[i as int].library.path@
                    == library_path@,
            decreases self.libraries.len() - i,
        {
            if self.libraries[i].library.path == wanted {
                break;
            }
            i += 1;
        }
        proof {
            lemma_first_with_path(self.libraries@, library_path@, i as int);
        }
        i
    }

    /// Whether `library_path` is the directory of a configured library.
    pub fn is_library(&self, library_path: &str) -> (is_library: bool)
        ensures
            is_library == (first_with_path(self.libraries@, library_path@)
                < self.libraries.len()),
    {
        self.find_by_path(library_path) < self.libraries.len()
    }

    /// The library whose directory is `library_path`; the first one in the order of
    /// the keys where several have it.
    pub fn get_library_by_path(&self, library_path: &str) -> (library: Option<
        &LibraryConfiguration,
    >)
        ensures
            match library {
                Some(found) => {
                    &&& first_with_path(self.libraries@, library_path@) < self.libraries.len()
                    &&& *found == self.libraries[first_with_path(
                        self.libraries@,
                        library_path@,
                    )].library
                },
                None => first_with_path(self.libraries@, library_path@) == self.libraries.len(),
            },
    {
        let position = self.find_by_path(library_path);
        if position < self.libraries.len() {
            Some(&self.libraries[position].library)
        } else {
            None
        }
    }

    /// The display name of the library whose directory is `library_path`; of the
    /// first one in the order of the keys where several have it.
    pub fn get_library_name_from_path(&self, library_path: &str) -> (name: Option<String>)
        ensures
            match name {
                Some(found) => {
                    &&& first_with_path(self.libraries@, library_path@) < self.libraries.len()
                    &&& found == self.libraries[first_with_path(
                        self.libraries@,
                        library_path@,
                    )].library.name
                },
                None => first_with_path(self.libraries@, library_path@) == self.libraries.len(),
            },
    {
        match self.get_library_by_path(library_path) {
            Some(library) => Some(library.name.clone()),
            None => None,
        }
    }

    /// The library with the display name `library_name`; the first one in the order
    /// of the keys where several have it.
    pub fn get_library_by_full_name(&self, library_name: &str) -> (library: Option<
        &LibraryConfiguration,
    >)
        ensures
            match library {
                Some(found) => {
                    &&& first_with_name(self.libraries@, library_name@) < self.libraries.len()
                    &&& *found == self.libraries[first_with_name(
                        self.libraries@,
                        library_name@,
                    )].library
                },
                None => first_with_name(self.libraries@, library_name@) == self.libraries.len(),
            },
    {
        let wanted = library_name.to_owned();
        let mut i: usize = 0;
        while i < self.libraries.len()
            invariant
                i <= self.libraries.len(),
                wanted@ == library_name@,
                forall|j: int| 0 <= j < i ==> (#[trigger] self.libraries[j]).library.name@
                    != library_name@,
            ensures
                i == self.libraries.len() || self.libraries[i as int].library.name@
                    == library_name@,
            decreases self.libraries.len() - i,
        {
            if self.libraries[i].library.name == wanted {
                break;
            }
            i += 1;
        }
        proof {
            lemma_first_with_name(self.libraries@, library_name@, i as int);
        }
        if i < self.libraries.len() {
            Some(&self.libraries[i].library)
        } else {
            None
        }
    }
}

} // verus!
