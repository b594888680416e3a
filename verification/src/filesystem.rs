//! Paths as the library sees them: text whose components are separated by `/`.

use vstd::prelude::*;

use crate::text::{
    ascii_lowercase, chars_of, find_last, last_index_of, lemma_last_index_of, push_char,
    string_of_range, to_ascii_lowercase,
};

verus! {

/// The character that separates the components of a path.
pub const PATH_SEPARATOR: char = '/';

/// The last component of `path`: what follows its last separator, or all of it.
pub open spec fn file_name_of(path: Seq<char>) -> Seq<char> {
    path.skip(last_index_of(path, PATH_SEPARATOR) + 1)
}

/// What precedes the last separator of `path`, where it has one.
pub open spec fn parent_of(path: Seq<char>) -> Option<Seq<char>> {
    let at = last_index_of(path, PATH_SEPARATOR);
    if at >= 0 {
        Some(path.take(at))
    } else {
        None
    }
}

/// The number of characters at the end of `path` that make up its extension together
/// with the dot before it; zero where the last component has no dot after its first
/// character.
pub open spec fn extension_len(path: Seq<char>) -> int {
    let name = file_name_of(path);
    let dot = last_index_of(name, '.');
    if dot <= 0 {
        0
    } else {
        name.len() - dot
    }
}

/// The extension of `path` in lower case, without its dot; empty where there is none.
pub open spec fn extension_of(path: Seq<char>) -> Seq<char> {
    if extension_len(path) == 0 {
        Seq::empty()
    } else {
        ascii_lowercase(path.skip(path.len() - extension_len(path) + 1))
    }
}

/// `path` with its extension, if any, replaced by `extension`.
pub open spec fn with_extension_of(path: Seq<char>, extension: Seq<char>) -> Seq<char> {
    path.take(path.len() - extension_len(path)) + seq!['.'] + extension
}

/// The path of `name` inside the directory `base`.
pub open spec fn joined(base: Seq<char>, name: Seq<char>) -> Seq<char> {
    base + seq![PATH_SEPARATOR] + name
}

/// Whether `name` can be a component of a path: it holds no separator.
pub open spec fn is_component(name: Seq<char>) -> bool {
    forall|i: int| 0 <= i < name.len() ==> name[i] != PATH_SEPARATOR
}

/// Joining and taking apart are inverse: the path of a component inside a directory
/// has that component as its last one and that directory as its parent.
pub proof fn lemma_joined_splits(base: Seq<char>, name: Seq<char>)
    requires
        is_component(name),
    ensures
        file_name_of(joined(base, name)) == name,
        parent_of(joined(base, name)) == Some(base),
{
    let path = joined(base, name);
    assert forall|i: int| base.len() < i < path.len() implies path[i] != PATH_SEPARATOR by {
        assert(path[i] == name[i - base.len() - 1]);
    }
    crate::text::lemma_last_index_is(path, PATH_SEPARATOR, base.len() as int);
    assert(path.skip(base.len() as int + 1) =~= name);
    assert(path.take(base.len() as int) =~= base);
}

/// The path of `name` inside the directory `base`.
pub fn join_path(base: &str, name: &str) -> (path: String)
    ensures
        path@ == joined(base@, name@),
{
    let mut path = base.to_owned();
    push_char(&mut path, PATH_SEPARATOR);
    path.append(name);
    path
}

/// The last component of `path`.
pub fn file_name(path: &str) -> (name: String)
    ensures
        name@ == file_name_of(path@),
{
    let chars = chars_of(path);
    let start = match find_last(&chars, PATH_SEPARATOR) {
        Some(at) => at + 1,
        None => 0,
    };
    string_of_range(&chars, start, chars.len())
}

/// What precedes the last separator of `path`, if it has one.
pub fn parent(path: &str) -> (directory: Option<String>)
    ensures
        match directory {
            Some(d) => parent_of(path@) == Some(d@),
            None => parent_of(path@) is None,
        },
{
    let chars = chars_of(path);
    match find_last(&chars, PATH_SEPARATOR) {
        Some(at) => Some(string_of_range(&chars, 0, at)),
        None => None,
    }
}

/// The number of characters that the extension of `chars` and its dot take up.
fn measure_extension(chars: &Vec<char>) -> (len: usize)
    ensures
        len == extension_len(chars@),
        len <= chars.len(),
{
    let start = match find_last(chars, PATH_SEPARATOR) {
        Some(at) => at + 1,
        None => 0,
    };
    let ghost name = file_name_of(chars@);
    proof {
        lemma_last_index_of(name, '.');
    }
    let mut i: usize = chars.len();
    while i > start
        invariant
            start <= i <= chars.len(),
            name == chars@.skip(start as int),
            name == file_name_of(chars@),
            forall|j: int| i - start <= j < name.len() ==> name[j] != '.',
        decreases i,
    {
        i -= 1;
        if chars[i] == '.' {
            proof {
                crate::text::lemma_last_index_is(name, '.', i - start);
            }
            if i == start {
                return 0;
            }
            return chars.len() - i;
        }
    }
    proof {
        crate::text::lemma_last_index_is(name, '.', -1);
    }
    0
}

/// The extension of `path` in lower case, without its dot; empty where the last
/// component of `path` has no dot after its first character.
pub fn get_path_extension_or_empty(path: &str) -> (extension: String)
    ensures
        extension@ == extension_of(path@),
{
    let chars = chars_of(path);
    let len = measure_extension(&chars);
    if len == 0 {
        String::new()
    } else {
        let raw = string_of_range(&chars, chars.len() - len + 1, chars.len());
        to_ascii_lowercase(raw.as_str())
    }
}

/// `path` with its extension, if any, replaced by `extension`.
pub fn with_extension(path: &str, extension: &str) -> (renamed: String)
    ensures
        renamed@ == with_extension_of(path@, extension@),
{
    let chars = chars_of(path);
    let len = measure_extension(&chars);
    let mut renamed = string_of_range(&chars, 0, chars.len() - len);
    push_char(&mut renamed, '.');
    renamed.append(extension);
    renamed
}

} // verus!
