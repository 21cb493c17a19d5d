use fermata::file_scanner::{Candidate, FileScanner, RootSnapshot};
use fermata::file_sizes::FileSizes;
use fermata::models::{Recording, RecordingStatus};
use fermata::snapshot::{DirSnapshot, Entry, EntryKind, MarkerFile};

fn file(path: &str, size: u64) -> Entry {
    Entry { path: path.to_string(), kind: EntryKind::File, size }
}

fn dir(path: &str) -> Entry {
    Entry { path: path.to_string(), kind: EntryKind::Directory, size: 0 }
}

fn snapshot(entries: Vec<Entry>) -> DirSnapshot {
    DirSnapshot {
        root: Some(EntryKind::Directory),
        entries,
        error_log: MarkerFile::Absent,
        failed_marker: MarkerFile::Absent,
    }
}

fn candidate(name: &str, modified: u64, entries: Vec<Entry>) -> Candidate {
    Candidate {
        path: format!("/recordings/{}", name),
        modified: Some(modified),
        snapshot: snapshot(entries),
    }
}

fn recording_dir(name: &str, modified: u64, has_extracted: bool, has_analysis: bool) -> Candidate {
    let mut entries = vec![file(&format!("{}.mp4", name), 13)];
    if has_extracted {
        entries.push(dir("extracted"));
        entries.push(file("extracted/audio.m4a", 5));
    }
    if has_analysis {
        entries.push(dir("analysis"));
        entries.push(file("analysis/audio_analysis.json", 2));
    }
    candidate(name, modified, entries)
}

fn test_recordings_structure() -> RootSnapshot {
    RootSnapshot {
        root: Some(EntryKind::Directory),
        children: vec![
            recording_dir("recording_001", 100, false, false),
            recording_dir("recording_002", 200, true, false),
            recording_dir("recording_003", 300, true, true),
            candidate("not_a_recording", 400, vec![file("some_file.txt", 15)]),
        ],
    }
}

fn with_status(name: &str, status: RecordingStatus) -> Recording {
    Recording {
        name: name.to_string(),
        path: format!("/recordings/{}", name),
        status,
        last_updated: 1,
        file_sizes: FileSizes::new(),
    }
}

fn names(recordings: &[Recording]) -> Vec<String> {
    recordings.iter().map(|r| r.name.clone()).collect()
}

#[test]
fn test_scan_recordings() {
    let recordings = FileScanner::scan_recordings(&test_recordings_structure());

    assert_eq!(recordings.len(), 3);

    let names: Vec<String> = recordings.iter().map(|r| r.name.clone()).collect();
    assert!(names.contains(&"recording_001".to_string()));
    assert!(names.contains(&"recording_002".to_string()));
    assert!(names.contains(&"recording_003".to_string()));
}

#[test]
fn test_scan_recordings_empty_directory() {
    let empty = RootSnapshot { root: Some(EntryKind::Directory), children: Vec::new() };
    let recordings = FileScanner::scan_recordings(&empty);
    assert!(recordings.is_empty());
}

#[test]
fn test_scan_recordings_nonexistent_directory() {
    let nonexistent = RootSnapshot { root: None, children: Vec::new() };
    let recordings = FileScanner::scan_recordings(&nonexistent);
    assert!(recordings.is_empty());
}

#[test]
fn test_is_valid_recording_dir() {
    let root = test_recordings_structure();

    assert!(FileScanner::is_valid_recording_dir(&root.children[0].snapshot));
    assert!(FileScanner::is_valid_recording_dir(&root.children[1].snapshot));
    assert!(FileScanner::is_valid_recording_dir(&root.children[2].snapshot));

    assert!(!FileScanner::is_valid_recording_dir(&root.children[3].snapshot));

    let mut nonexistent = snapshot(Vec::new());
    nonexistent.root = None;
    assert!(!FileScanner::is_valid_recording_dir(&nonexistent));
}

#[test]
fn test_get_recording_name() {
    assert_eq!(
        FileScanner::get_recording_name("/path/to/my_recording_name"),
        "my_recording_name"
    );
    assert_eq!(FileScanner::get_recording_name("/"), "unknown");
}

#[test]
fn test_filter_by_status() {
    let recordings = FileScanner::scan_recordings(&test_recordings_structure());

    let recorded = FileScanner::filter_by_status(&recordings, "recorded");
    assert_eq!(recorded.len(), 1);
    assert_eq!(recorded[0].name, "recording_001");

    let extracted = FileScanner::filter_by_status(&recordings, "extracted");
    assert_eq!(extracted.len(), 1);
    assert_eq!(extracted[0].name, "recording_002");

    let analyzed = FileScanner::filter_by_status(&recordings, "analyzed");
    assert_eq!(analyzed.len(), 1);
    assert_eq!(analyzed[0].name, "recording_003");
}

#[test]
fn test_get_recordings_needing_attention() {
    let recordings = FileScanner::scan_recordings(&test_recordings_structure());

    let needing_attention = FileScanner::get_recordings_needing_attention(&recordings);
    assert_eq!(needing_attention.len(), 3);
}

#[test]
fn test_recordings_sorted_by_last_updated() {
    let recordings = FileScanner::scan_recordings(&test_recordings_structure());

    assert_eq!(recordings.len(), 3);
    assert_eq!(
        names(&recordings),
        vec!["recording_003", "recording_002", "recording_001"]
    );
    for pair in recordings.windows(2) {
        assert!(pair[0].last_updated >= pair[1].last_updated);
    }
}

#[test]
fn scan_sorts_by_modification_time_descending() {
    let root = RootSnapshot {
        root: Some(EntryKind::Directory),
        children: vec![
            recording_dir("b", 20, false, false),
            recording_dir("d", 40, false, false),
            recording_dir("a", 10, false, false),
            recording_dir("e", 50, false, false),
            recording_dir("c", 30, false, false),
        ],
    };
    let recordings = FileScanner::scan_recordings(&root);
    assert_eq!(names(&recordings), vec!["e", "d", "c", "b", "a"]);
    let times: Vec<u64> = recordings.iter().map(|r| r.last_updated).collect();
    assert_eq!(times, vec![50, 40, 30, 20, 10]);
}

#[test]
fn scan_keeps_the_read_order_among_equal_times() {
    let root = RootSnapshot {
        root: Some(EntryKind::Directory),
        children: vec![
            recording_dir("first", 7, false, false),
            recording_dir("newer", 9, false, false),
            recording_dir("second", 7, false, false),
            recording_dir("third", 7, false, false),
        ],
    };
    let recordings = FileScanner::scan_recordings(&root);
    assert_eq!(names(&recordings), vec!["newer", "first", "second", "third"]);
}

#[test]
fn scan_fills_in_status_path_and_sizes() {
    let recordings = FileScanner::scan_recordings(&test_recordings_structure());
    let third = &recordings[0];
    assert_eq!(third.name, "recording_003");
    assert_eq!(third.path, "/recordings/recording_003");
    assert_eq!(third.status, RecordingStatus::Analyzed);
    assert_eq!(third.last_updated, 300);
    assert_eq!(third.file_sizes.len(), 3);
    assert_eq!(third.file_sizes.get("analysis/audio_analysis.json"), Some(2));
    assert_eq!(recordings[1].status, RecordingStatus::Extracted);
    assert_eq!(recordings[2].status, RecordingStatus::Recorded);
}

#[test]
fn scan_drops_what_is_no_recording() {
    let mut plain_file = recording_dir("a_file", 5, false, false);
    plain_file.snapshot.root = Some(EntryKind::File);
    let mut no_time = recording_dir("no_time", 5, false, false);
    no_time.modified = None;
    let mut no_name = recording_dir("x", 5, false, false);
    no_name.path = "/recordings/..".to_string();
    let root = RootSnapshot {
        root: Some(EntryKind::Directory),
        children: vec![plain_file, no_time, recording_dir("kept", 6, false, false), no_name],
    };
    let recordings = FileScanner::scan_recordings(&root);
    assert_eq!(names(&recordings), vec!["kept"]);

    let root_is_a_file = RootSnapshot {
        root: Some(EntryKind::File),
        children: vec![recording_dir("kept", 6, false, false)],
    };
    assert!(FileScanner::scan_recordings(&root_is_a_file).is_empty());
}

#[test]
fn filter_ignores_case_and_matches_any_failure() {
    let recordings = vec![
        with_status("a", RecordingStatus::Failed("disk full".to_string())),
        with_status("b", RecordingStatus::Uploaded),
        with_status("c", RecordingStatus::Failed("other".to_string())),
        with_status("d", RecordingStatus::SetupRendered),
        with_status("e", RecordingStatus::Rendered),
    ];
    assert_eq!(names(&FileScanner::filter_by_status(&recordings, "failed")), vec!["a", "c"]);
    assert_eq!(names(&FileScanner::filter_by_status(&recordings, "FAILED")), vec!["a", "c"]);
    assert_eq!(names(&FileScanner::filter_by_status(&recordings, "Uploaded")), vec!["b"]);
    assert_eq!(names(&FileScanner::filter_by_status(&recordings, "rendered")), vec!["e"]);
    assert_eq!(names(&FileScanner::filter_by_status(&recordings, "SetupRendered")), vec!["d"]);
    assert_eq!(
        names(&FileScanner::filter_by_status(&recordings, "no such status")),
        vec!["a", "b", "c", "d", "e"]
    );
    assert_eq!(
        names(&FileScanner::filter_by_status(&recordings, "")),
        vec!["a", "b", "c", "d", "e"]
    );
    assert!(FileScanner::filter_by_status(&recordings, "recorded").is_empty());
    assert_eq!(names(&FileScanner::filter_by_label(&recordings, "FAILED")).len(), 5);
}

#[test]
fn attention_is_everything_but_uploaded() {
    let recordings = vec![
        with_status("a", RecordingStatus::Recorded),
        with_status("b", RecordingStatus::Uploaded),
        with_status("c", RecordingStatus::Extracted),
        with_status("d", RecordingStatus::Analyzed),
        with_status("e", RecordingStatus::SetupRendered),
        with_status("f", RecordingStatus::Rendered),
        with_status("g", RecordingStatus::Failed("x".to_string())),
        with_status("h", RecordingStatus::Uploaded),
    ];
    assert_eq!(
        names(&FileScanner::get_recordings_needing_attention(&recordings)),
        vec!["a", "c", "d", "e", "f", "g"]
    );
}

#[test]
fn recording_names_follow_the_last_component() {
    assert_eq!(FileScanner::get_recording_name("/r/take_1/"), "take_1");
    assert_eq!(FileScanner::get_recording_name("/r/take_1/."), "take_1");
    assert_eq!(FileScanner::get_recording_name("take"), "take");
    assert_eq!(FileScanner::get_recording_name(""), "unknown");
    assert_eq!(FileScanner::get_recording_name("/r/.."), "unknown");
    assert_eq!(FileScanner::get_recording_name("."), "unknown");
}
