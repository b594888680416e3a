//! The snapshot file of an album directory: one line for each recorded file, which
//! holds the file's size and its times of modification and creation as decimal
//! numbers and then its path, separated by single spaces. Every line ends with a
//! line feed.

use vstd::prelude::*;

use super::meta::{
    entries_of, has_path, paths_unique, FileFingerprint, LibraryMeta,
    MetaEntry, MetaError,
};
use crate::configuration::filesystem::LoadedFile;
use crate::text::{
    chars_of, decimal_of, find_first_from, first_index_of, is_decimal, lemma_decimal_of,
    lemma_first_index_bounds, lemma_first_index_of, parse_decimal, push_char, split_into_lines,
    split_lines, string_of_range, texts_of, to_decimal, value_of,
};

verus! {

/// The number that `digits` stands for, where it is a number in decimal notation that
/// fits into 64 bits.
pub open spec fn number_of(digits: Seq<char>) -> Option<u64> {
    if is_decimal(digits) && value_of(digits) <= u64::MAX {
        Some(value_of(digits) as u64)
    } else {
        None
    }
}

/// The line that records `entry`, without its line feed.
pub open spec fn entry_line(entry: MetaEntry) -> Seq<char> {
    decimal_of(entry.fingerprint.size_bytes as nat) + seq![' '] + decimal_of(
        entry.fingerprint.time_modified as nat,
    ) + seq![' '] + decimal_of(entry.fingerprint.time_created as nat) + seq![' '] + entry.path
}

/// The contents of the snapshot file that records `entries`.
pub open spec fn serialized(entries: Seq<MetaEntry>) -> Seq<char>
    decreases entries.len(),
{
    if entries.len() == 0 {
        Seq::empty()
    } else {
        serialized(entries.drop_last()) + entry_line(entries.last()) + seq!['\n']
    }
}

/// What `text` holds before its first space and what it holds after it, where it
/// holds a space.
pub open spec fn split_at_space(text: Seq<char>) -> Option<(Seq<char>, Seq<char>)> {
    let at = first_index_of(text, ' ');
    if at < text.len() {
        Some((text.take(at), text.skip(at + 1)))
    } else {
        None
    }
}

/// The entry that the line `line` records, where it records one: three numbers and a
/// path, separated by single spaces.
pub open spec fn parse_entry(line: Seq<char>) -> Option<MetaEntry> {
    match split_at_space(line) {
        None => None,
        Some((size, after_size)) => match split_at_space(after_size) {
            None => None,
            Some((modified, after_modified)) => match split_at_space(after_modified) {
                None => None,
                Some((created, path)) => match (
                    number_of(size),
                    number_of(modified),
                    number_of(created),
                ) {
                    (Some(size_bytes), Some(time_modified), Some(time_created)) => Some(
                        MetaEntry {
                            path,
                            fingerprint: FileFingerprint {
                                size_bytes,
                                time_modified,
                                time_created,
                            },
                        },
                    ),
                    _ => None,
                },
            },
        },
    }
}

/// The entries that the lines `lines` record, where each of them records an entry and
/// no path is recorded twice.
pub open spec fn parse_entries(lines: Seq<Seq<char>>) -> Option<Seq<MetaEntry>>
    decreases lines.len(),
{
    if lines.len() == 0 {
        Some(Seq::empty())
    } else {
        match (parse_entries(lines.drop_last()), parse_entry(lines.last())) {
            (Some(before), Some(entry)) => if has_path(before, entry.path) {
                None
            } else {
                Some(before.push(entry))
            },
            _ => None,
        }
    }
}

/// The snapshot that a file with the contents `text` records, where it records one:
/// every line must end with a line feed and record an entry, and no path may be
/// recorded twice.
pub open spec fn parsed(text: Seq<char>) -> Option<Seq<MetaEntry>> {
    let lines = split_lines(text);
    if lines.last().len() != 0 {
        None
    } else {
        parse_entries(lines.drop_last())
    }
}

/// Whether `text` holds no line feed.
pub open spec fn is_single_line(text: Seq<char>) -> bool {
    forall|k: int| 0 <= k < text.len() ==> text[k] != '\n'
}

/// Whether the snapshot file can record `entries`: no path holds a line feed.
pub open spec fn representable(entries: Seq<MetaEntry>) -> bool {
    forall|i: int| 0 <= i < entries.len() ==> is_single_line((#[trigger] entries[i]).path)
}

/// A number in decimal notation, followed by a space and more text, is split at that
/// space.
proof fn lemma_split_after_number(n: nat, rest: Seq<char>)
    ensures
        split_at_space(decimal_of(n) + seq![' '] + rest) == Some((decimal_of(n), rest)),
        is_single_line(decimal_of(n)),
        n <= u64::MAX ==> number_of(decimal_of(n)) == Some(n as u64),
{
    lemma_decimal_of(n);
    let digits = decimal_of(n);
    let text = digits + seq![' '] + rest;
    lemma_first_index_of(text, ' ', digits.len() as int);
}

/// The line of an entry records that entry, and holds no line feed where the entry's
/// path holds none.
pub proof fn lemma_entry_line_round_trip(entry: MetaEntry)
    ensures
        parse_entry(entry_line(entry)) == Some(entry),
        is_single_line(entry.path) ==> is_single_line(entry_line(entry)),
{
    let size = entry.fingerprint.size_bytes as nat;
    let modified = entry.fingerprint.time_modified as nat;
    let created = entry.fingerprint.time_created as nat;
    let after_modified = decimal_of(created) + seq![' '] + entry.path;
    let after_size = decimal_of(modified) + seq![' '] + after_modified;
    assert(entry_line(entry) =~= decimal_of(size) + seq![' '] + after_size);
    lemma_split_after_number(size, after_size);
    lemma_split_after_number(modified, after_modified);
    lemma_split_after_number(created, entry.path);
    if is_single_line(entry.path) {
        let line = entry_line(entry);
    }
}

/// The lines of entries.
pub open spec fn entry_lines(entries: Seq<MetaEntry>) -> Seq<Seq<char>> {
    entries.map_values(|entry: MetaEntry| entry_line(entry))
}

/// A text that begins with a line without line feed, followed by a line feed, has
/// that line as its first line, and the lines of the rest after it.
proof fn lemma_split_lines_prepend(line: Seq<char>, rest: Seq<char>)
    requires
        is_single_line(line),
    ensures
        split_lines(line + seq!['\n'] + rest) == seq![line] + split_lines(rest),
{
    let text = line + seq!['\n'] + rest;
    lemma_first_index_of(text, '\n', line.len() as int);
    assert(text.take(line.len() as int) =~= line);
    assert(text.skip(line.len() as int + 1) =~= rest);
}

/// The lines of a serialized snapshot are the lines of its entries, followed by one
/// empty line.
proof fn lemma_lines_of_serialized(entries: Seq<MetaEntry>, rest: Seq<char>)
    requires
        representable(entries),
    ensures
        split_lines(serialized(entries) + rest) == entry_lines(entries) + split_lines(rest),
    decreases entries.len(),
{
    if entries.len() > 0 {
        let earlier = entries.drop_last();
        let last = entries.last();
        let line = entry_line(last);
        lemma_entry_line_round_trip(last);
        lemma_split_lines_prepend(line, rest);
        lemma_lines_of_serialized(earlier, line + seq!['\n'] + rest);
        assert(serialized(entries) + rest =~= serialized(earlier) + (line + seq!['\n'] + rest));
    }
}

/// The lines of entries with unique paths record those entries.
proof fn lemma_parse_entry_lines(entries: Seq<MetaEntry>)
    requires
        paths_unique(entries),
    ensures
        parse_entries(entry_lines(entries)) == Some(entries),
    decreases entries.len(),
{
    if entries.len() > 0 {
        let earlier = entries.drop_last();
        let last = entries.last();
        assert(entry_lines(entries).drop_last() =~= entry_lines(earlier));
        lemma_parse_entry_lines(earlier);
        lemma_entry_line_round_trip(last);
        if has_path(earlier, last.path) {
            let i = choose|i: int| 0 <= i < earlier.len() && #[trigger] earlier[i].path
                == last.path;
        }
    }
}

/// Reading what was written gives back what was written: the contents of the
/// snapshot file of a snapshot record that snapshot, as long as no path is recorded
/// twice and no path holds a line feed.
pub proof fn lemma_snapshot_file_round_trip(entries: Seq<MetaEntry>)
    requires
        paths_unique(entries),
        representable(entries),
    ensures
        parsed(serialized(entries)) == Some(entries),
{
    let nothing = Seq::<char>::empty();
    lemma_lines_of_serialized(entries, nothing);
    let lines = split_lines(serialized(entries));
    assert(lines.drop_last() =~= entry_lines(entries));
    lemma_parse_entry_lines(entries);
}

/// Lines that do not record a snapshot do not do so either when more lines follow.
proof fn lemma_parse_entries_fails_for_good(lines: Seq<Seq<char>>, count: int)
    requires
        0 <= count <= lines.len(),
        parse_entries(lines.take(count)) is None,
    ensures
        parse_entries(lines) is None,
    decreases lines.len() - count,
{
    if count < lines.len() {
        assert(lines.drop_last().take(count) =~= lines.take(count));
        lemma_parse_entries_fails_for_good(lines.drop_last(), count);
    } else {
        assert(lines.take(count) =~= lines);
    }
}

/// The entry that a line records, if it records one.
fn read_entry(line: &str) -> (entry: Option<(String, FileFingerprint)>)
    ensures
        match entry {
            Some((path, fingerprint)) => parse_entry(line@) == Some(
                MetaEntry { path: path@, fingerprint },
            ),
            None => parse_entry(line@) is None,
        },
{
    let chars = chars_of(line);
    let len = chars.len();
    assert(chars@.skip(0) =~= chars@);
    let a = find_first_from(&chars, 0, ' ');
    if a >= len {
        return None;
    }
    let ghost after_size = line@.skip(a + 1);
    let b = find_first_from(&chars, a + 1, ' ');
    if b >= len {
        return None;
    }
    let ghost after_modified = after_size.skip(b - a);
    assert(after_modified =~= chars@.skip(b + 1));
    let c = find_first_from(&chars, b + 1, ' ');
    if c >= len {
        return None;
    }
    proof {
        assert(after_size.take(b - a - 1) =~= chars@.subrange(a + 1, b as int));
        assert(after_modified.take(c - b - 1) =~= chars@.subrange(b + 1, c as int));
        assert(after_modified.skip(c - b) =~= chars@.subrange(c + 1, len as int));
    }
    let size_bytes = match parse_decimal(&chars, 0, a) {
        Some(number) => number,
        None => {
            return None;
        },
    };
    let time_modified = match parse_decimal(&chars, a + 1, b) {
        Some(number) => number,
        None => {
            return None;
        },
    };
    let time_created = match parse_decimal(&chars, b + 1, c) {
        Some(number) => number,
        None => {
            return None;
        },
    };
    let path = string_of_range(&chars, c + 1, len);
    Some((path, FileFingerprint { size_bytes, time_modified, time_created }))
}

/// Whether `text` holds no line feed.
fn holds_no_line_feed(text: &str) -> (single: bool)
    ensures
        single == is_single_line(text@),
{
    let chars = chars_of(text);
    let position = find_first_from(&chars, 0, '\n');
    proof {
        assert(chars@.skip(0) =~= chars@);
        lemma_first_index_bounds(text@, '\n');
    }
    position == chars.len()
}

impl LibraryMeta {
    /// The contents of the snapshot file that records this snapshot. There are none
    /// where a path holds a line feed, which the file cannot record.
    pub fn to_file_contents(&self) -> (contents: Option<String>)
        ensures
            match contents {
                Some(text) => representable(self@) && text@ == serialized(self@),
                None => !representable(self@),
            },
            contents matches Some(text) ==> (self.wf() ==> parsed(text@) == Some(self@)),
    {
        proof {
            if self.wf() && representable(self@) {
                lemma_snapshot_file_round_trip(self@);
            }
        }
        let files = self.files();
        let ghost entries = self@;
        let mut text = String::new();
        let mut i: usize = 0;
        while i < files.len()
            invariant
                i <= files.len(),
                entries == entries_of(files@),
                entries == self@,
                representable(entries.take(i as int)),
                text@ == serialized(entries.take(i as int)),
            decreases files.len() - i,
        {
            assert(entries[i as int].path == files[i as int].0@);
            if !holds_no_line_feed(files[i].0.as_str()) {
                return None;
            }
            text.append(to_decimal(files[i].1.size_bytes).as_str());
            push_char(&mut text, ' ');
            text.append(to_decimal(files[i].1.time_modified).as_str());
            push_char(&mut text, ' ');
            text.append(to_decimal(files[i].1.time_created).as_str());
            push_char(&mut text, ' ');
            text.append(files[i].0.as_str());
            push_char(&mut text, '\n');
            proof {
                assert(entries.take(i + 1).drop_last() =~= entries.take(i as int));
            }
            i += 1;
        }
        assert(entries.take(i as int) =~= entries);
        Some(text)
    }

    /// The snapshot that a snapshot file with the contents `contents` records. Fails
    /// with a format error where a line does not end with a line feed or does not
    /// record an entry, and where a path is recorded twice.
    pub fn from_file_contents(contents: &str) -> (result: Result<LibraryMeta, MetaError>)
        ensures
            match result {
                Ok(meta) => meta.wf() && parsed(contents@) == Some(meta@),
                Err(error) => error is FormatError && parsed(contents@) is None,
            },
    {
        let lines = split_into_lines(contents);
        let ghost all = split_lines(contents@);
        let count = lines.len() - 1;
        if lines[count].as_str().unicode_len() != 0 {
            return Err(
                MetaError::FormatError {
                    error: "the last line does not end with a line feed".to_owned(),
                },
            );
        }
        let ghost records = all.drop_last();
        let mut meta = LibraryMeta::new();
        let mut i: usize = 0;
        while i < count
            invariant
                i <= count,
                count == lines.len() - 1,
                texts_of(lines@) == all,
                all == split_lines(contents@),
                all.last().len() == 0,
                records == all.drop_last(),
                meta.wf(),
                parse_entries(records.take(i as int)) == Some(meta@),
            decreases count - i,
        {
            proof {
                assert(records.take(i + 1).drop_last() =~= records.take(i as int));
            }
            match read_entry(lines[i].as_str()) {
                Some((path, fingerprint)) => {
                    if meta.contains_path(&path) {
                        proof {
                            lemma_parse_entries_fails_for_good(records, i + 1);
                        }
                        return Err(
                            MetaError::FormatError {
                                error: "a path is recorded twice".to_owned(),
                            },
                        );
                    }
                    meta.insert(path, fingerprint);
                },
                None => {
                    proof {
                        lemma_parse_entries_fails_for_good(records, i + 1);
                    }
                    return Err(
                        MetaError::FormatError { error: "a line records no entry".to_owned() },
                    );
                },
            }
            i += 1;
        }
        assert(records.take(i as int) =~= records);
        Ok(meta)
    }
}

impl LibraryMeta {
    /// The saved snapshot of an album, given what reading its snapshot file gave. A
    /// missing file is no error: the album has not been processed before, and there
    /// is no saved snapshot. A file that is there but does not record a snapshot is a
    /// format error.
    pub fn load(loaded: LoadedFile<String>) -> (result: Result<Option<LibraryMeta>, MetaError>)
        ensures
            match loaded {
                LoadedFile::Missing => result matches Ok(None),
                LoadedFile::Unreadable { error } => result == Err::<
                    Option<LibraryMeta>,
                    MetaError,
                >(MetaError::IOError { error }),
                LoadedFile::Malformed { error } => result == Err::<
                    Option<LibraryMeta>,
                    MetaError,
                >(MetaError::FormatError { error }),
                LoadedFile::Parsed { contents } => match result {
                    Ok(Some(meta)) => meta.wf() && parsed(contents@) == Some(meta@),
                    Ok(None) => false,
                    Err(error) => error is FormatError && parsed(contents@) is None,
                },
            },
    {
        match loaded {
            LoadedFile::Missing => Ok(None),
            LoadedFile::Unreadable { error } => Err(MetaError::IOError { error }),
            LoadedFile::Malformed { error } => Err(MetaError::FormatError { error }),
            LoadedFile::Parsed { contents } => match LibraryMeta::from_file_contents(
                contents.as_str(),
            ) {
                Ok(meta) => Ok(Some(meta)),
                Err(error) => Err(error),
            },
        }
    }

    /// The contents to write to the snapshot file for this snapshot. Fails with an
    /// input-output error where the file exists already and may not be overwritten,
    /// and where a path holds a line feed, which the file cannot record.
    pub fn save(&self, destination_exists: bool, allow_overwrite: bool) -> (result: Result<
        String,
        MetaError,
    >)
        ensures
            match result {
                Ok(contents) => {
                    &&& !destination_exists || allow_overwrite
                    &&& representable(self@)
                    &&& contents@ == serialized(self@)
                    &&& self.wf() ==> parsed(contents@) == Some(self@)
                },
                Err(error) => {
                    &&& error is IOError
                    &&& (destination_exists && !allow_overwrite) || !representable(self@)
                },
            },
    {
        if destination_exists && !allow_overwrite {
            return Err(
                MetaError::IOError { error: "the snapshot file exists already".to_owned() },
            );
        }
        match self.to_file_contents() {
            Some(contents) => Ok(contents),
            None => Err(
                MetaError::IOError {
                    error: "a path with a line feed cannot be recorded".to_owned(),
                },
            ),
        }
    }
}

} // verus!
