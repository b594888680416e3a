//! Snapshots of an album's tracked files and the difference between two of them.

use vstd::prelude::*;

use crate::filesystem::{
    extension_of, get_path_extension_or_empty, join_path, joined, PATH_SEPARATOR,
};
use crate::text::{chars_of, contains_text, texts_of};

verus! {

/// What is recorded of one tracked file: its size and its times of modification and
/// creation. Two fingerprints that are equal stand for an unchanged file.
#[derive(Clone, Copy, Debug, PartialEq, Eq, Structural)]
pub struct FileFingerprint {
    pub size_bytes: u64,
    pub time_modified: u64,
    pub time_created: u64,
}

/// One entry of a snapshot: a path relative to the album directory and the
/// fingerprint of the file there.
pub ghost struct MetaEntry {
    pub path: Seq<char>,
    pub fingerprint: FileFingerprint,
}

/// Whether some entry of `entries` records the path `path`.
pub open spec fn has_path(entries: Seq<MetaEntry>, path: Seq<char>) -> bool {
    exists|i: int| 0 <= i < entries.len() && #[trigger] entries[i].path == path
}

/// The position of the entry for `path`, where there is one.
pub open spec fn position_of_path(entries: Seq<MetaEntry>, path: Seq<char>) -> int {
    choose|i: int| 0 <= i < entries.len() && #[trigger] entries[i].path == path
}

/// The fingerprint recorded for `path`, where there is one.
pub open spec fn fingerprint_of(entries: Seq<MetaEntry>, path: Seq<char>) -> FileFingerprint {
    entries[position_of_path(entries, path)].fingerprint
}

/// No path is recorded twice.
pub open spec fn paths_unique(entries: Seq<MetaEntry>) -> bool {
    forall|i: int, j: int|
        0 <= i < entries.len() && 0 <= j < entries.len() && i != j ==> #[trigger] entries[i].path
            != #[trigger] entries[j].path
}

/// The paths of the given entries, in order.
pub open spec fn paths_of(entries: Seq<MetaEntry>) -> Seq<Seq<char>> {
    entries.map_values(|entry: MetaEntry| entry.path)
}

/// The entries of `entries` whose path `other` does not record.
pub open spec fn missing_from(entries: Seq<MetaEntry>, other: Seq<MetaEntry>) -> Seq<MetaEntry> {
    entries.filter(|entry: MetaEntry| !has_path(other, entry.path))
}

/// The entries of `entries` whose path `other` records with another fingerprint.
pub open spec fn differing_from(entries: Seq<MetaEntry>, other: Seq<MetaEntry>) -> Seq<
    MetaEntry,
> {
    entries.filter(
        |entry: MetaEntry|
            has_path(other, entry.path) && fingerprint_of(other, entry.path) != entry.fingerprint,
    )
}

/// The mathematical value of a [`SnapshotDiff`]: three lists of paths.
pub ghost struct SnapshotDiffView {
    /// Paths that only the fresh snapshot records, in its order.
    pub added: Seq<Seq<char>>,
    /// Paths that only the saved snapshot records, in its order.
    pub removed: Seq<Seq<char>>,
    /// Paths that both record, with different fingerprints, in the fresh snapshot's
    /// order.
    pub changed: Seq<Seq<char>>,
}

impl SnapshotDiffView {
    /// Whether any path was added, removed or changed.
    pub open spec fn has_any_changes(self) -> bool {
        self.added.len() > 0 || self.removed.len() > 0 || self.changed.len() > 0
    }
}

/// The difference between the snapshot `saved` and the snapshot `fresh`.
pub open spec fn diff_of(saved: Seq<MetaEntry>, fresh: Seq<MetaEntry>) -> SnapshotDiffView {
    SnapshotDiffView {
        added: paths_of(missing_from(fresh, saved)),
        removed: paths_of(missing_from(saved, fresh)),
        changed: paths_of(differing_from(fresh, saved)),
    }
}

/// In a snapshot with unique paths, an entry is found under its own path.
pub proof fn lemma_position_of_path(entries: Seq<MetaEntry>, i: int)
    requires
        paths_unique(entries),
        0 <= i < entries.len(),
    ensures
        has_path(entries, entries[i].path),
        position_of_path(entries, entries[i].path) == i,
        fingerprint_of(entries, entries[i].path) == entries[i].fingerprint,
{
    let path = entries[i].path;
    let p = position_of_path(entries, path);
}

/// Two identical snapshots differ in nothing.
pub proof fn lemma_diff_of_identical(snapshot: Seq<MetaEntry>)
    requires
        paths_unique(snapshot),
    ensures
        !diff_of(snapshot, snapshot).has_any_changes(),
{
    let missing = |entry: MetaEntry| !has_path(snapshot, entry.path);
    let differing = |entry: MetaEntry|
        has_path(snapshot, entry.path) && fingerprint_of(snapshot, entry.path)
            != entry.fingerprint;
    snapshot.lemma_all_neg_filter_empty(missing);
    snapshot.lemma_all_neg_filter_empty(differing);
}

/// Where the paths of a filtered snapshot come from: a path is among them exactly if
/// the snapshot records it in an entry that passes the filter.
proof fn lemma_filtered_paths(entries: Seq<MetaEntry>, pred: spec_fn(MetaEntry) -> bool, path: Seq<char>)
    ensures
        paths_of(entries.filter(pred)).contains(path) <==> exists|i: int|
            0 <= i < entries.len() && #[trigger] entries[i].path == path && pred(entries[i]),
{
    let kept = entries.filter(pred);
    if paths_of(kept).contains(path) {
        let k = choose|k: int| 0 <= k < paths_of(kept).len() && paths_of(kept)[k] == path;
        entries.lemma_filter_pred(pred, k);
        entries.lemma_filter_contains_rev(pred, kept[k]);
        let i = choose|i: int| 0 <= i < entries.len() && entries[i] == kept[k];
    }
    if exists|i: int| 0 <= i < entries.len() && #[trigger] entries[i].path == path && pred(entries[i]) {
        let i = choose|i: int|
            0 <= i < entries.len() && #[trigger] entries[i].path == path && pred(entries[i]);
        entries.lemma_filter_contains(pred, i);
        let k = choose|k: int| 0 <= k < kept.len() && kept[k] == entries[i];
        assert(paths_of(kept)[k] == path);
    }
}

/// What the difference says of a path: it is added exactly if only the fresh snapshot
/// records it, removed exactly if only the saved one does, and changed exactly if both
/// record it with different fingerprints.
pub proof fn lemma_diff_classifies(saved: Seq<MetaEntry>, fresh: Seq<MetaEntry>, path: Seq<char>)
    requires
        paths_unique(saved),
        paths_unique(fresh),
    ensures
        diff_of(saved, fresh).added.contains(path) <==> has_path(fresh, path) && !has_path(
            saved,
            path,
        ),
        diff_of(saved, fresh).removed.contains(path) <==> has_path(saved, path) && !has_path(
            fresh,
            path,
        ),
        diff_of(saved, fresh).changed.contains(path) <==> has_path(saved, path) && has_path(
            fresh,
            path,
        ) && fingerprint_of(saved, path) != fingerprint_of(fresh, path),
{
    let new_in_fresh = |entry: MetaEntry| !has_path(saved, entry.path);
    let gone_from_fresh = |entry: MetaEntry| !has_path(fresh, entry.path);
    let differing = |entry: MetaEntry|
        has_path(saved, entry.path) && fingerprint_of(saved, entry.path) != entry.fingerprint;
    lemma_filtered_paths(fresh, new_in_fresh, path);
    lemma_filtered_paths(saved, gone_from_fresh, path);
    lemma_filtered_paths(fresh, differing, path);
    if has_path(fresh, path) {
        lemma_position_of_path(fresh, position_of_path(fresh, path));
    }
    if diff_of(saved, fresh).changed.contains(path) {
        let i = choose|i: int|
            0 <= i < fresh.len() && #[trigger] fresh[i].path == path && differing(fresh[i]);
        lemma_position_of_path(fresh, i);
    }
}

/// The entries that a vector of recorded files stands for, in order.
pub open spec fn entries_of(files: Seq<(String, FileFingerprint)>) -> Seq<MetaEntry> {
    files.map_values(
        |file: (String, FileFingerprint)| MetaEntry { path: file.0@, fingerprint: file.1 },
    )
}

/// A snapshot of an album: for each tracked file, its path relative to the album
/// directory and its fingerprint, in the order in which the files were recorded.
#[derive(Debug, PartialEq, Eq)]
pub struct LibraryMeta {
    files: Vec<(String, FileFingerprint)>,
}

impl View for LibraryMeta {
    type V = Seq<MetaEntry>;

    closed spec fn view(&self) -> Seq<MetaEntry> {
        entries_of(self.files@)
    }
}

/// The paths that differ between a saved and a fresh snapshot.
#[derive(Debug, PartialEq, Eq)]
pub struct SnapshotDiff {
    /// Paths that only the fresh snapshot records.
    pub added: Vec<String>,
    /// Paths that only the saved snapshot records.
    pub removed: Vec<String>,
    /// Paths that both snapshots record, with different fingerprints.
    pub changed: Vec<String>,
}

impl View for SnapshotDiff {
    type V = SnapshotDiffView;

    open spec fn view(&self) -> SnapshotDiffView {
        SnapshotDiffView {
            added: texts_of(self.added@),
            removed: texts_of(self.removed@),
            changed: texts_of(self.changed@),
        }
    }
}

impl SnapshotDiff {
    /// Whether any path was added, removed or changed.
    pub fn has_any_changes(&self) -> (any: bool)
        ensures
            any == self@.has_any_changes(),
    {
        self.added.len() > 0 || self.removed.len() > 0 || self.changed.len() > 0
    }
}

impl LibraryMeta {
    /// No path is recorded twice. Every snapshot that this module hands out is well
    /// formed, and every operation keeps it so.
    pub open spec fn wf(&self) -> bool {
        paths_unique(self@)
    }

    /// A snapshot that records no file.
    pub fn new() -> (meta: Self)
        ensures
            meta.wf(),
            meta@ == Seq::<MetaEntry>::empty(),
    {
        let meta = LibraryMeta { files: Vec::new() };
        meta
    }

    /// The number of recorded files.
    pub fn len(&self) -> (len: usize)
        ensures
            len == self@.len(),
    {
        self.files.len()
    }

    /// Whether no file is recorded.
    pub fn is_empty(&self) -> (empty: bool)
        ensures
            empty == (self@.len() == 0),
    {
        self.files.len() == 0
    }

    /// The recorded files, in the order in which they were recorded.
    pub fn files(&self) -> (files: &Vec<(String, FileFingerprint)>)
        ensures
            entries_of(files@) == self@,
    {
        &self.files
    }

    /// Position of the entry for `path`, if there is one.
    fn find(&self, path: &String) -> (found: Option<usize>)
        ensures
            found matches Some(i) ==> i < self@.len() && self@[i as int].path == path@
                && self.files[i as int].0@ == path@,
            found is None ==> !has_path(self@, path@),
    {
        let mut i: usize = 0;
        while i < self.files.len()
            invariant
                i <= self.files.len(),
                forall|j: int| 0 <= j < i ==> (#[trigger] self@[j]).path != path@,
            decreases self.files.len() - i,
        {
            if self.files[i].0 == *path {
                return Some(i);
            }
            i += 1;
        }
        None
    }

    /// Whether the snapshot records the path `path`.
    pub fn contains_path(&self, path: &String) -> (found: bool)
        ensures
            found == has_path(self@, path@),
    {
        self.find(path).is_some()
    }

    /// The fingerprint recorded for `path`, if the snapshot records that path.
    pub fn get(&self, path: &String) -> (fingerprint: Option<FileFingerprint>)
        requires
            self.wf(),
        ensures
            fingerprint is Some == has_path(self@, path@),
            fingerprint matches Some(f) ==> f == fingerprint_of(self@, path@),
    {
        match self.find(path) {
            Some(i) => {
                proof {
                    lemma_position_of_path(self@, i as int);
                }
                Some(self.files[i].1)
            },
            None => None,
        }
    }

    /// Records `fingerprint` for `path`. A path that is already recorded keeps its
    /// place and gets the new fingerprint, and the old one is returned; a new path
    /// goes to the end.
    pub fn insert(&mut self, path: String, fingerprint: FileFingerprint) -> (previous: Option<
        FileFingerprint,
    >)
        requires
            old(self).wf(),
        ensures
            final(self).wf(),
            previous is Some == has_path(old(self)@, path@),
            previous matches Some(f) ==> f == fingerprint_of(old(self)@, path@),
            final(self)@ == (if has_path(old(self)@, path@) {
                old(self)@.update(
                    position_of_path(old(self)@, path@),
                    MetaEntry { path: path@, fingerprint },
                )
            } else {
                old(self)@.push(MetaEntry { path: path@, fingerprint })
            }),
    {
        let ghost before = self@;
        let ghost entry = MetaEntry { path: path@, fingerprint };
        match self.find(&path) {
            Some(i) => {
                proof {
                    lemma_position_of_path(self@, i as int);
                }
                let previous = self.files[i].1;
                self.files.set(i, (path, fingerprint));
                assert(self@ =~= before.update(i as int, entry));
                Some(previous)
            },
            None => {
                self.files.push((path, fingerprint));
                assert(self@ =~= before.push(entry));
                None
            },
        }
    }

    /// The difference between this snapshot, taken as the saved one, and `fresh`.
    pub fn diff(&self, fresh: &LibraryMeta) -> (diff: SnapshotDiff)
        requires
            self.wf(),
        ensures
            diff@ == diff_of(self@, fresh@),
    {
        let mut added: Vec<String> = Vec::new();
        let mut changed: Vec<String> = Vec::new();
        let ghost is_new = |entry: MetaEntry| !has_path(self@, entry.path);
        let ghost is_changed = |entry: MetaEntry|
            has_path(self@, entry.path) && fingerprint_of(self@, entry.path)
                != entry.fingerprint;
        let mut i: usize = 0;
        proof {
            reveal(Seq::filter);
        }
        while i < fresh.files.len()
            invariant
                self.wf(),
                i <= fresh.files.len(),
                fresh.files.len() == fresh@.len(),
                is_new == |entry: MetaEntry| !has_path(self@, entry.path),
                is_changed == |entry: MetaEntry|
                    has_path(self@, entry.path) && fingerprint_of(self@, entry.path)
                        != entry.fingerprint,
                texts_of(added@) == paths_of(fresh@.take(i as int).filter(is_new)),
                texts_of(changed@) == paths_of(fresh@.take(i as int).filter(is_changed)),
            decreases fresh.files.len() - i,
        {
            let ghost entry = fresh@[i as int];
            let ghost added_before = texts_of(added@);
            let ghost changed_before = texts_of(changed@);
            proof {
                assert(fresh@.take(i + 1) =~= fresh@.take(i as int).push(entry));
                fresh@.take(i as int).lemma_filter_push(entry, is_new);
                fresh@.take(i as int).lemma_filter_push(entry, is_changed);
            }
            match self.get(&fresh.files[i].0) {
                None => {
                    added.push(fresh.files[i].0.clone());
                    assert(paths_of(fresh@.take(i as int).filter(is_new).push(entry))
                        =~= added_before.push(entry.path));
                },
                Some(saved_fingerprint) => {
                    if saved_fingerprint != fresh.files[i].1 {
                        changed.push(fresh.files[i].0.clone());
                        assert(paths_of(fresh@.take(i as int).filter(is_changed).push(entry))
                            =~= changed_before.push(entry.path));
                    }
                },
            }
            i += 1;
        }
        assert(fresh@.take(i as int) =~= fresh@);
        let removed = self.paths_missing_from(fresh);
        SnapshotDiff { added, removed, changed }
    }

    /// The recorded paths that `other` does not record, in this snapshot's order.
    fn paths_missing_from(&self, other: &LibraryMeta) -> (paths: Vec<String>)
        ensures
            texts_of(paths@) == paths_of(missing_from(self@, other@)),
    {
        let mut paths: Vec<String> = Vec::new();
        let ghost is_missing = |entry: MetaEntry| !has_path(other@, entry.path);
        let mut i: usize = 0;
        proof {
            reveal(Seq::filter);
        }
        while i < self.files.len()
            invariant
                i <= self.files.len(),
                self.files.len() == self@.len(),
                is_missing == |entry: MetaEntry| !has_path(other@, entry.path),
                texts_of(paths@) == paths_of(self@.take(i as int).filter(is_missing)),
            decreases self.files.len() - i,
        {
            let ghost entry = self@[i as int];
            let ghost before = texts_of(paths@);
            proof {
                assert(self@.take(i + 1) =~= self@.take(i as int).push(entry));
                self@.take(i as int).lemma_filter_push(entry, is_missing);
            }
            if !other.contains_path(&self.files[i].0) {
                paths.push(self.files[i].0.clone());
                assert(paths_of(self@.take(i as int).filter(is_missing).push(entry))
                    =~= before.push(entry.path));
            }
            i += 1;
        }
        assert(self@.take(i as int) =~= self@);
        paths
    }
}

impl Clone for LibraryMeta {
    fn clone(&self) -> (copy: Self)
        ensures
            copy@ == self@,
    {
        let mut files: Vec<(String, FileFingerprint)> = Vec::new();
        let mut i: usize = 0;
        while i < self.files.len()
            invariant
                i <= self.files.len(),
                entries_of(files@) == self@.take(i as int),
            decreases self.files.len() - i,
        {
            let ghost before = entries_of(files@);
            files.push((self.files[i].0.clone(), self.files[i].1));
            assert(entries_of(files@) =~= before.push(self@[i as int]));
            i += 1;
        }
        LibraryMeta { files }
    }
}

/// The name of the file in an album directory that holds the album's saved snapshot.
pub const LIBRARY_META_FILE_NAME: &'static str = ".librarymeta";

/// The directory could not be scanned; `error` says why.
#[derive(Debug, PartialEq, Eq)]
pub struct ScanError {
    pub error: String,
}

/// What walking an album directory gave.
#[derive(Debug, PartialEq, Eq)]
pub enum DirectoryScan {
    /// The directory could not be read; `error` says why.
    Unreadable { error: String },
    /// Every file below the directory, with its path relative to the directory and
    /// its fingerprint, in the order in which the files were found.
    Files { files: Vec<(String, FileFingerprint)> },
}

/// How deep a relative path lies: the number of separators in it. A file in the album
/// directory itself lies at depth zero.
pub open spec fn depth_of(path: Seq<char>) -> nat
    decreases path.len(),
{
    if path.len() == 0 {
        0
    } else {
        depth_of(path.drop_last()) + if path.last() == PATH_SEPARATOR {
            1nat
        } else {
            0nat
        }
    }
}

/// Whether a snapshot tracks the file at `path`: its extension, in lower case, is one
/// of the tracked ones, and it lies no deeper than `max_depth`.
pub open spec fn is_tracked(path: Seq<char>, tracked_extensions: Seq<Seq<char>>, max_depth: nat) -> bool {
    tracked_extensions.contains(extension_of(path)) && depth_of(path) <= max_depth
}

/// The snapshot of the files `files`: an entry for each tracked file, in the order of
/// the files. Of several files with one path, the first counts.
pub open spec fn snapshot_of(
    files: Seq<MetaEntry>,
    tracked_extensions: Seq<Seq<char>>,
    max_depth: nat,
) -> Seq<MetaEntry>
    decreases files.len(),
{
    if files.len() == 0 {
        Seq::empty()
    } else {
        let before = snapshot_of(files.drop_last(), tracked_extensions, max_depth);
        if is_tracked(files.last().path, tracked_extensions, max_depth) && !has_path(
            before,
            files.last().path,
        ) {
            before.push(files.last())
        } else {
            before
        }
    }
}

/// A snapshot is complete and without repetition: it records a path exactly if a
/// tracked file has that path, and it records no path twice.
pub proof fn lemma_snapshot_is_complete(
    files: Seq<MetaEntry>,
    tracked_extensions: Seq<Seq<char>>,
    max_depth: nat,
)
    ensures
        paths_unique(snapshot_of(files, tracked_extensions, max_depth)),
        forall|path: Seq<char>|
            has_path(snapshot_of(files, tracked_extensions, max_depth), path) <==> (exists|i: int|
                0 <= i < files.len() && #[trigger] files[i].path == path && is_tracked(
                    path,
                    tracked_extensions,
                    max_depth,
                )),
    decreases files.len(),
{
    let snapshot = snapshot_of(files, tracked_extensions, max_depth);
    if files.len() > 0 {
        let earlier = files.drop_last();
        let before = snapshot_of(earlier, tracked_extensions, max_depth);
        let last = files.last();
        lemma_snapshot_is_complete(earlier, tracked_extensions, max_depth);
        assert forall|path: Seq<char>| has_path(snapshot, path) implies (exists|i: int|
            0 <= i < files.len() && #[trigger] files[i].path == path && is_tracked(
                path,
                tracked_extensions,
                max_depth,
            )) by {
            let k = choose|k: int| 0 <= k < snapshot.len() && #[trigger] snapshot[k].path == path;
            if k < before.len() {
                assert(has_path(before, path));
                let i = choose|i: int|
                    0 <= i < earlier.len() && #[trigger] earlier[i].path == path && is_tracked(
                        path,
                        tracked_extensions,
                        max_depth,
                    );
            }
        }
        assert forall|path: Seq<char>|
            (exists|i: int|
                0 <= i < files.len() && #[trigger] files[i].path == path && is_tracked(
                    path,
                    tracked_extensions,
                    max_depth,
                )) implies has_path(snapshot, path) by {
            let i = choose|i: int|
                0 <= i < files.len() && #[trigger] files[i].path == path && is_tracked(
                    path,
                    tracked_extensions,
                    max_depth,
                );
            if i < earlier.len() {
                assert(earlier[i].path == path);
                assert(has_path(before, path));
                let k = choose|k: int| 0 <= k < before.len() && #[trigger] before[k].path == path;
                assert(snapshot[k].path == path);
            } else if has_path(before, path) {
                let k = choose|k: int| 0 <= k < before.len() && #[trigger] before[k].path == path;
            } else {
                assert(snapshot[snapshot.len() - 1].path == path);
            }
        }
    }
}

/// How deep a relative path lies.
fn measure_depth(path: &str) -> (depth: usize)
    ensures
        depth == depth_of(path@),
{
    let chars = chars_of(path);
    let mut depth: usize = 0;
    let mut i: usize = 0;
    while i < chars.len()
        invariant
            i <= chars.len(),
            chars@ == path@,
            depth == depth_of(path@.take(i as int)),
            depth <= i,
        decreases chars.len() - i,
    {
        assert(path@.take(i + 1).drop_last() =~= path@.take(i as int));
        if chars[i] == PATH_SEPARATOR {
            depth += 1;
        }
        i += 1;
    }
    assert(path@.take(i as int) =~= path@);
    depth
}

impl LibraryMeta {
    /// The fresh snapshot of an album, given what walking its directory gave: an
    /// entry for each file whose extension is tracked and which lies no deeper than
    /// `max_depth` levels below the album directory. Fails where the directory could
    /// not be read.
    pub fn generate(scan: &DirectoryScan, max_depth: u16, tracked_extensions: &Vec<String>) -> (result:
        Result<LibraryMeta, ScanError>)
        ensures
            match *scan {
                DirectoryScan::Unreadable { error } => result == Err::<LibraryMeta, ScanError>(
                    ScanError { error },
                ),
                DirectoryScan::Files { files } => {
                    &&& result matches Ok(meta)
                    &&& meta.wf()
                    &&& meta@ == snapshot_of(
                        entries_of(files@),
                        texts_of(tracked_extensions@),
                        max_depth as nat,
                    )
                },
            },
    {
        let files = match scan {
            DirectoryScan::Unreadable { error } => {
                return Err(ScanError { error: error.clone() });
            },
            DirectoryScan::Files { files } => files,
        };
        let mut meta = LibraryMeta::new();
        let ghost all = entries_of(files@);
        let ghost extensions = texts_of(tracked_extensions@);
        let mut i: usize = 0;
        while i < files.len()
            invariant
                i <= files.len(),
                all == entries_of(files@),
                extensions == texts_of(tracked_extensions@),
                meta.wf(),
                meta@ == snapshot_of(all.take(i as int), extensions, max_depth as nat),
            decreases files.len() - i,
        {
            proof {
                assert(all.take(i + 1).drop_last() =~= all.take(i as int));
                lemma_snapshot_is_complete(all.take(i + 1), extensions, max_depth as nat);
            }
            let path = &files[i].0;
            let extension = get_path_extension_or_empty(path.as_str());
            if contains_text(tracked_extensions, &extension) && measure_depth(path.as_str())
                <= max_depth as usize && !meta.contains_path(path) {
                meta.insert(path.clone(), files[i].1);
            }
            i += 1;
        }
        assert(all.take(i as int) =~= all);
        Ok(meta)
    }
}

/// Why a saved snapshot could not be loaded or written.
#[derive(Debug, PartialEq, Eq)]
pub enum MetaError {
    /// The snapshot file is there, but its contents are not those of a snapshot.
    FormatError { error: String },
    /// Reading or writing the snapshot file failed, or the file is there already and
    /// may not be overwritten.
    IOError { error: String },
}

impl LibraryMeta {
    /// The path of the snapshot file of the album in `album_directory_path`.
    pub fn file_path(album_directory_path: &str) -> (path: String)
        ensures
            path@ == joined(album_directory_path@, LIBRARY_META_FILE_NAME@),
    {
        join_path(album_directory_path, LIBRARY_META_FILE_NAME)
    }
}

} // verus!
