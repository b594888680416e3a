use euphony::commands::transcode::meta::{
    DirectoryScan, FileFingerprint, LibraryMeta, MetaError, ScanError,
};
use euphony::configuration::filesystem::LoadedFile;

fn fingerprint(size_bytes: u64) -> FileFingerprint {
    FileFingerprint { size_bytes, time_modified: 10, time_created: 5 }
}

fn snapshot(files: &[(&str, u64)]) -> LibraryMeta {
    let mut meta = LibraryMeta::new();
    for (path, size) in files {
        meta.insert(path.to_string(), fingerprint(*size));
    }
    meta
}

#[test]
fn identical_snapshots_have_no_changes() {
    let meta = snapshot(&[("a.flac", 1), ("b.flac", 2), ("cover.jpg", 3)]);
    let diff = meta.diff(&meta.clone());
    assert!(!diff.has_any_changes());
    assert!(diff.added.is_empty());
    assert!(diff.removed.is_empty());
    assert!(diff.changed.is_empty());

    let empty = LibraryMeta::new();
    assert!(!empty.diff(&LibraryMeta::new()).has_any_changes());
}

#[test]
fn differences_are_classified() {
    let saved = snapshot(&[("kept.flac", 1), ("gone.flac", 2), ("edited.flac", 3)]);
    let fresh = snapshot(&[("new.flac", 9), ("edited.flac", 4), ("kept.flac", 1)]);
    let diff = saved.diff(&fresh);
    assert_eq!(diff.added, vec!["new.flac"]);
    assert_eq!(diff.removed, vec!["gone.flac"]);
    assert_eq!(diff.changed, vec!["edited.flac"]);
    assert!(diff.has_any_changes());

    for path in &diff.changed {
        assert!(saved.contains_path(path) && fresh.contains_path(path));
        assert_ne!(saved.get(path), fresh.get(path));
    }
    for path in &diff.added {
        assert!(!saved.contains_path(path) && fresh.contains_path(path));
    }
    for path in &diff.removed {
        assert!(saved.contains_path(path) && !fresh.contains_path(path));
    }
}

#[test]
fn each_kind_of_change_counts_alone() {
    let base = snapshot(&[("a.flac", 1)]);
    assert!(base.diff(&snapshot(&[("a.flac", 1), ("b.flac", 1)])).has_any_changes());
    assert!(base.diff(&snapshot(&[])).has_any_changes());
    assert!(base.diff(&snapshot(&[("a.flac", 2)])).has_any_changes());
    assert!(!base.diff(&snapshot(&[("a.flac", 1)])).has_any_changes());
}

#[test]
fn a_changed_time_is_a_change() {
    let mut saved = LibraryMeta::new();
    saved.insert(
        "a.flac".to_string(),
        FileFingerprint { size_bytes: 1, time_modified: 10, time_created: 5 },
    );
    let mut fresh = LibraryMeta::new();
    fresh.insert(
        "a.flac".to_string(),
        FileFingerprint { size_bytes: 1, time_modified: 11, time_created: 5 },
    );
    assert_eq!(saved.diff(&fresh).changed, vec!["a.flac"]);
}

#[test]
fn the_order_of_the_entries_does_not_decide() {
    let saved = snapshot(&[("a.flac", 1), ("b.flac", 2)]);
    let fresh = snapshot(&[("b.flac", 2), ("a.flac", 1)]);
    assert!(!saved.diff(&fresh).has_any_changes());
}

#[test]
fn inserting_a_known_path_replaces_its_fingerprint() {
    let mut meta = LibraryMeta::new();
    assert!(meta.is_empty());
    assert_eq!(meta.insert("a.flac".to_string(), fingerprint(1)), None);
    assert_eq!(meta.insert("b.flac".to_string(), fingerprint(2)), None);
    assert_eq!(meta.insert("a.flac".to_string(), fingerprint(3)), Some(fingerprint(1)));
    assert_eq!(meta.len(), 2);
    assert_eq!(meta.get(&"a.flac".to_string()), Some(fingerprint(3)));
    assert_eq!(meta.get(&"c.flac".to_string()), None);
    assert_eq!(meta.files()[0].0, "a.flac");
    assert_eq!(meta.files()[1].0, "b.flac");
}

#[test]
fn a_fresh_snapshot_holds_the_files_with_known_extensions() {
    let scan = DirectoryScan::Files {
        files: vec![
            ("01.FLAC".to_string(), fingerprint(1)),
            ("notes.txt".to_string(), fingerprint(2)),
            ("cover.jpg".to_string(), fingerprint(3)),
            ("cd2/01.flac".to_string(), fingerprint(4)),
            ("cd2/extra/02.flac".to_string(), fingerprint(5)),
            ("01.FLAC".to_string(), fingerprint(6)),
        ],
    };
    let extensions = vec!["flac".to_string(), "jpg".to_string()];

    let flat = LibraryMeta::generate(&scan, 0, &extensions).unwrap();
    assert_eq!(flat, snapshot(&[("01.FLAC", 1), ("cover.jpg", 3)]));

    let one_level = LibraryMeta::generate(&scan, 1, &extensions).unwrap();
    assert_eq!(one_level, snapshot(&[("01.FLAC", 1), ("cover.jpg", 3), ("cd2/01.flac", 4)]));

    let deep = LibraryMeta::generate(&scan, 9, &extensions).unwrap();
    assert_eq!(deep.len(), 4);
}

#[test]
fn an_unreadable_directory_is_a_scan_error() {
    let scan = DirectoryScan::Unreadable { error: "permission denied".to_string() };
    assert_eq!(
        LibraryMeta::generate(&scan, 0, &vec![]),
        Err(ScanError { error: "permission denied".to_string() })
    );
}

#[test]
fn a_missing_snapshot_file_is_no_error() {
    assert_eq!(LibraryMeta::load(LoadedFile::Missing), Ok(None));
    assert_eq!(
        LibraryMeta::load(LoadedFile::Parsed { contents: "1 10 5 a.flac\n".to_string() }),
        Ok(Some(snapshot(&[("a.flac", 1)])))
    );
    assert_eq!(
        LibraryMeta::load(LoadedFile::Parsed { contents: String::new() }),
        Ok(Some(LibraryMeta::new()))
    );
    assert!(matches!(
        LibraryMeta::load(LoadedFile::Parsed { contents: "nonsense".to_string() }),
        Err(MetaError::FormatError { .. })
    ));
    assert_eq!(
        LibraryMeta::load(LoadedFile::Malformed { error: "bad".to_string() }),
        Err(MetaError::FormatError { error: "bad".to_string() })
    );
    assert_eq!(
        LibraryMeta::load(LoadedFile::Unreadable { error: "gone".to_string() }),
        Err(MetaError::IOError { error: "gone".to_string() })
    );
}

#[test]
fn an_existing_snapshot_file_is_only_overwritten_on_request() {
    let meta = snapshot(&[("a.flac", 1)]);
    let contents = "1 10 5 a.flac\n".to_string();
    assert_eq!(meta.save(false, false), Ok(contents.clone()));
    assert_eq!(meta.save(false, true), Ok(contents.clone()));
    assert_eq!(meta.save(true, true), Ok(contents));
    assert!(matches!(meta.save(true, false), Err(MetaError::IOError { .. })));
    assert_eq!(LibraryMeta::file_path("/music/A/B"), "/music/A/B/.librarymeta");
}

#[test]
fn a_snapshot_file_holds_one_line_for_each_file() {
    let mut meta = LibraryMeta::new();
    meta.insert(
        "cd 1/01 Intro.flac".to_string(),
        FileFingerprint { size_bytes: 1234, time_modified: 1700000000, time_created: 0 },
    );
    meta.insert(
        "cover.jpg".to_string(),
        FileFingerprint { size_bytes: u64::MAX, time_modified: 7, time_created: 8 },
    );
    let contents = meta.to_file_contents().unwrap();
    assert_eq!(
        contents,
        "1234 1700000000 0 cd 1/01 Intro.flac\n18446744073709551615 7 8 cover.jpg\n"
    );
    assert_eq!(LibraryMeta::from_file_contents(&contents), Ok(meta));
    assert_eq!(LibraryMeta::new().to_file_contents(), Some(String::new()));
    assert_eq!(LibraryMeta::from_file_contents(""), Ok(LibraryMeta::new()));
}

#[test]
fn a_path_with_a_line_feed_cannot_be_recorded() {
    let meta = snapshot(&[("a.flac", 1), ("b\nc.flac", 2)]);
    assert_eq!(meta.to_file_contents(), None);
    assert!(matches!(meta.save(false, true), Err(MetaError::IOError { .. })));
}

#[test]
fn malformed_snapshot_files_are_refused() {
    let malformed = [
        "1 10 5 a.flac",
        "1 10 5 a.flac\n2 10 5 a.flac\n",
        "1 10 a.flac\n",
        "1 10\n",
        "x 10 5 a.flac\n",
        "1 -10 5 a.flac\n",
        "01 10 5 a.flac\n",
        "1  10 5 a.flac\n",
        "1 10 18446744073709551616 a.flac\n",
        "\n",
        "1 10 5 a.flac\n\n",
    ];
    for contents in malformed {
        assert!(
            matches!(
                LibraryMeta::from_file_contents(contents),
                Err(MetaError::FormatError { .. })
            ),
            "{:?}",
            contents
        );
    }
    assert_eq!(
        LibraryMeta::from_file_contents("1 10 5 \n"),
        Ok(snapshot(&[("", 1)]))
    );
    assert_eq!(
        LibraryMeta::from_file_contents("1 10 5 a b \n"),
        Ok(snapshot(&[("a b ", 1)]))
    );
}
