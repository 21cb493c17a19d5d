use fermata::file_sizes::FileSizes;
use fermata::models::{NextStep, Recording, RecordingStatus};
use fermata::paths::{
    entry_name_in, extension_of, file_name_of, file_stem_of, has_extension, join_path,
};
use fermata::snapshot::{DirSnapshot, Entry, EntryKind, MarkerFile};
use fermata::text::{
    bracket_list, chars_of, format_names, is_whitespace, last_nonblank_line, str_ends_with,
    str_eq, trim,
};

fn some(s: &str) -> Option<String> {
    Some(s.to_string())
}

#[test]
fn trim_agrees_with_the_standard_library() {
    let samples = [
        "",
        " ",
        "a",
        "  a  ",
        "\t\n a b \r\n",
        "\u{a0}x\u{3000}",
        "\u{2003}wide\u{2009}",
        "no-space",
        " \u{200b} ",
        "\u{85}next line\u{1680}",
        "\u{2028}\u{2029}\u{202f}\u{205f}",
    ];
    for sample in samples {
        assert_eq!(trim(sample), sample.trim(), "sample {:?}", sample);
    }
}

#[test]
fn whitespace_is_the_unicode_property() {
    for code in 0u32..0x3100 {
        if let Some(c) = char::from_u32(code) {
            assert_eq!(is_whitespace(c), c.is_whitespace(), "code {:#x}", code);
        }
    }
    assert!(!is_whitespace('\u{feff}'));
    assert!(!is_whitespace('\u{10ffff}'));
}

#[test]
fn last_line_with_text() {
    assert_eq!(last_nonblank_line("disk full\n"), some("disk full"));
    assert_eq!(last_nonblank_line("one\ntwo"), some("two"));
    assert_eq!(last_nonblank_line("one\ntwo\n\n\n"), some("two"));
    assert_eq!(last_nonblank_line("one\r\ntwo\r\n"), some("two"));
    assert_eq!(last_nonblank_line("one\ntwo\r"), some("two\r"));
    assert_eq!(last_nonblank_line("  padded \n"), some("  padded "));
    assert_eq!(last_nonblank_line("\n\nonly\n"), some("only"));
    assert_eq!(last_nonblank_line(""), None);
    assert_eq!(last_nonblank_line(" \n\t\r\n"), None);
}

#[test]
fn characters_and_equality() {
    assert_eq!(chars_of("a\u{119}b"), vec!['a', '\u{119}', 'b']);
    assert!(chars_of("").is_empty());
    assert!(str_eq("abc", "abc"));
    assert!(!str_eq("abc", "abd"));
    assert!(!str_eq("abc", "ab"));
    assert!(str_eq("", ""));
}

#[test]
fn suffixes() {
    assert!(str_ends_with("take_final.mp4", "_final.mp4"));
    assert!(str_ends_with("_final.mp4", "_final.mp4"));
    assert!(!str_ends_with("final.mp4", "_final.mp4"));
    assert!(!str_ends_with("mp4", "_final.mp4"));
    assert!(str_ends_with("anything", ""));
    assert!(!str_ends_with("take_final.mp4x", "_final.mp4"));
}

#[test]
fn names_are_listed_in_their_debug_form() {
    assert_eq!(format_names(&Vec::new()), "[]");
    assert_eq!(format_names(&vec!["a.m4a".to_string()]), "[\"a.m4a\"]");
    assert_eq!(
        format_names(&vec!["a.m4a".to_string(), "b c.m4a".to_string(), "d".to_string()]),
        "[\"a.m4a\", \"b c.m4a\", \"d\"]"
    );
    let odd = vec![
        "say \"hi\".m4a".to_string(),
        "back\\slash".to_string(),
        "line\nfeed\ttab".to_string(),
        "d\u{17a}wi\u{119}k".to_string(),
        "it's".to_string(),
        String::new(),
    ];
    assert_eq!(format_names(&odd), format!("{:?}", odd));
    assert_eq!(
        format_names(&odd),
        "[\"say \\\"hi\\\".m4a\", \"back\\\\slash\", \"line\\nfeed\\ttab\", \"d\u{17a}wi\u{119}k\", \"it's\", \"\"]"
    );
}

#[test]
fn items_are_listed_as_they_are() {
    assert_eq!(bracket_list(&Vec::new()), "[]");
    assert_eq!(bracket_list(&vec!["a".to_string()]), "[a]");
    assert_eq!(
        bracket_list(&vec!["a".to_string(), "\"b\"".to_string(), String::new(), "c d".to_string()]),
        "[a, \"b\", , c d]"
    );
}

#[test]
fn statuses_are_printed_as_for_debugging() {
    let statuses = [
        RecordingStatus::Recorded,
        RecordingStatus::Extracted,
        RecordingStatus::Analyzed,
        RecordingStatus::SetupRendered,
        RecordingStatus::Rendered,
        RecordingStatus::Uploaded,
        RecordingStatus::Failed("disk full".to_string()),
        RecordingStatus::Failed("a \"quoted\" reason\n".to_string()),
        RecordingStatus::Failed(String::new()),
    ];
    for status in statuses {
        assert_eq!(status.debug_string(), format!("{:?}", status));
    }
    assert_eq!(RecordingStatus::Failed("x".to_string()).debug_string(), "Failed(\"x\")");
    assert_eq!(RecordingStatus::failure_debug("\"x\""), "Failed(\"x\")");
    assert_eq!(RecordingStatus::failure_debug("raw"), "Failed(raw)");
}

#[test]
fn steps_are_known_by_their_lower_case_names() {
    assert_eq!(NextStep::from_request_name("extract"), Some(NextStep::Extract));
    assert_eq!(NextStep::from_request_name("analyze"), Some(NextStep::Analyze));
    assert_eq!(NextStep::from_request_name("setup_render"), Some(NextStep::SetupRender));
    assert_eq!(NextStep::from_request_name("setup-render"), Some(NextStep::SetupRender));
    assert_eq!(NextStep::from_request_name("render"), Some(NextStep::Render));
    assert_eq!(NextStep::from_request_name("upload"), Some(NextStep::Upload));
    assert_eq!(NextStep::from_request_name("retry"), Some(NextStep::Retry));
    assert_eq!(NextStep::from_request_name("Extract"), None);
    assert_eq!(NextStep::from_request_name("setup render"), None);
    assert_eq!(NextStep::from_request_name(""), None);
    for step in [
        NextStep::Extract,
        NextStep::Analyze,
        NextStep::SetupRender,
        NextStep::Render,
        NextStep::Upload,
        NextStep::Retry,
    ] {
        assert_eq!(NextStep::from_request_name(&step.command_name()), Some(step));
    }
}

#[test]
fn file_names() {
    assert_eq!(file_name_of("/usr/bin/"), some("bin"));
    assert_eq!(file_name_of("tmp/foo.txt"), some("foo.txt"));
    assert_eq!(file_name_of("foo.txt/."), some("foo.txt"));
    assert_eq!(file_name_of("foo.txt/.//"), some("foo.txt"));
    assert_eq!(file_name_of("foo.txt/.."), None);
    assert_eq!(file_name_of("/"), None);
    assert_eq!(file_name_of(""), None);
    assert_eq!(file_name_of("."), None);
    assert_eq!(file_name_of(".."), None);
    assert_eq!(file_name_of("./foo"), some("foo"));
    assert_eq!(file_name_of(".hidden"), some(".hidden"));
    assert_eq!(file_name_of("a/..."), some("..."));
    assert_eq!(file_name_of("a/b."), some("b."));
}

#[test]
fn extensions_and_stems() {
    assert_eq!(extension_of("foo.rs"), some("rs"));
    assert_eq!(extension_of("foo.tar.gz"), some("gz"));
    assert_eq!(extension_of("dir.d/foo"), None);
    assert_eq!(extension_of(".bashrc"), None);
    assert_eq!(extension_of(".bashrc.bak"), some("bak"));
    assert_eq!(extension_of("foo."), some(""));
    assert_eq!(extension_of(".."), None);
    assert_eq!(extension_of("..."), some(""));
    assert_eq!(extension_of(""), None);
    assert_eq!(extension_of("a/b.MP4"), some("MP4"));

    assert_eq!(file_stem_of("foo.rs"), some("foo"));
    assert_eq!(file_stem_of("foo.tar.gz"), some("foo.tar"));
    assert_eq!(file_stem_of(".bashrc"), some(".bashrc"));
    assert_eq!(file_stem_of("foo"), some("foo"));
    assert_eq!(file_stem_of("a/b/take.mkv"), some("take"));
    assert_eq!(file_stem_of(".."), None);
    assert_eq!(file_stem_of("/"), None);

    assert!(has_extension("a/b.json", "json"));
    assert!(!has_extension("a/b.json", "JSON"));
    assert!(!has_extension("a/b.jsonl", "json"));
    assert!(!has_extension("json", "json"));
}

#[test]
fn joining() {
    assert_eq!(join_path("/recs", "take"), "/recs/take");
    assert_eq!(join_path("/recs/", "take"), "/recs/take");
    assert_eq!(join_path("", "take"), "take");
    assert_eq!(join_path("/recs", "/abs"), "/abs");
    assert_eq!(join_path("/recs", ""), "/recs/");
    assert_eq!(join_path("/recs", "blender/render"), "/recs/blender/render");
    assert_eq!(join_path("/", "take"), "/take");
}

#[test]
fn names_in_directories() {
    assert_eq!(entry_name_in("blender/render/out.mp4", "blender/render"), some("out.mp4"));
    assert_eq!(entry_name_in("blender/render/a/out.mp4", "blender/render"), None);
    assert_eq!(entry_name_in("blender/render", "blender/render"), None);
    assert_eq!(entry_name_in("blender/render/", "blender/render"), None);
    assert_eq!(entry_name_in("blender/renders/out.mp4", "blender/render"), None);
    assert_eq!(entry_name_in("blender/render.mp4", "blender/render"), None);
    assert_eq!(entry_name_in("xlender/render/out.mp4", "blender/render"), None);
    assert_eq!(entry_name_in("out.mp4", ""), some("out.mp4"));
    assert_eq!(entry_name_in("a/out.mp4", ""), None);
    assert_eq!(entry_name_in("", ""), None);
    assert_eq!(entry_name_in("a", "analysis"), None);
}

#[test]
fn snapshot_queries() {
    let snap = DirSnapshot {
        root: Some(EntryKind::Directory),
        entries: vec![
            Entry { path: "extracted".to_string(), kind: EntryKind::Directory, size: 0 },
            Entry { path: "extracted/b.m4a".to_string(), kind: EntryKind::File, size: 2 },
            Entry { path: "extracted/a.m4a".to_string(), kind: EntryKind::File, size: 1 },
            Entry { path: "extracted/c.m4a".to_string(), kind: EntryKind::Other, size: 1 },
            Entry { path: "extracted/notes.txt".to_string(), kind: EntryKind::File, size: 1 },
            Entry { path: "marker".to_string(), kind: EntryKind::File, size: 1 },
        ],
        error_log: MarkerFile::Absent,
        failed_marker: MarkerFile::Absent,
    };
    assert!(snap.contains_path("extracted"));
    assert!(snap.contains_path("marker"));
    assert!(!snap.contains_path("analysis"));
    assert!(snap.is_dir("extracted"));
    assert!(!snap.is_dir("marker"));
    assert!(!snap.is_dir("analysis"));
    assert!(snap.has_file_with_extension("extracted", "m4a"));
    assert!(!snap.has_file_with_extension("extracted", "mp4"));
    assert!(!snap.has_file_with_extension("", "m4a"));
    assert_eq!(snap.files_with_extension("extracted", "m4a"), vec!["b.m4a", "a.m4a"]);
    assert_eq!(snap.files_in("extracted"), vec!["b.m4a", "a.m4a", "notes.txt"]);
    assert_eq!(snap.files_in(""), vec!["marker"]);
    assert!(snap.files_with_extension("analysis", "json").is_empty());
    let copy = snap.entries[1].clone();
    assert_eq!(copy.path, "extracted/b.m4a");
    assert_eq!(copy.size, 2);
}

#[test]
fn file_sizes_behave_as_a_map() {
    let mut sizes = FileSizes::new();
    assert!(sizes.is_empty());
    assert_eq!(sizes.len(), 0);
    assert_eq!(sizes.get("a"), None);

    sizes.insert("a".to_string(), 1);
    sizes.insert("b/c".to_string(), 2);
    assert_eq!(sizes.len(), 2);
    assert!(!sizes.is_empty());
    assert_eq!(sizes.get("a"), Some(1));
    assert_eq!(sizes.get("b/c"), Some(2));
    assert!(sizes.contains_key("a"));
    assert!(!sizes.contains_key("b"));

    sizes.insert("a".to_string(), 10);
    assert_eq!(sizes.len(), 2);
    assert_eq!(sizes.get("a"), Some(10));

    let copy = sizes.clone();
    assert_eq!(copy.len(), 2);
    assert_eq!(copy.get("a"), Some(10));
    assert_eq!(copy.get("b/c"), Some(2));
    let mut pairs = copy.to_pairs();
    pairs.sort();
    assert_eq!(pairs, vec![("a".to_string(), 10), ("b/c".to_string(), 2)]);
}

#[test]
fn step_names_and_case() {
    assert_eq!(NextStep::SetupRender.command_name(), "setup_render");
    assert_eq!(NextStep::Extract.command_name(), "extract");
    assert_eq!(NextStep::Analyze.command_name(), "analyze");
    assert_eq!(NextStep::Render.command_name(), "render");
    assert_eq!(NextStep::Upload.command_name(), "upload");
    assert_eq!(NextStep::Retry.command_name(), "retry");

    let recording = Recording {
        name: "t".to_string(),
        path: "/t".to_string(),
        status: RecordingStatus::Analyzed,
        last_updated: 0,
        file_sizes: FileSizes::new(),
    };
    assert!(recording.can_run_step("SETUP_RENDER"));
    assert!(recording.can_run_step("Setup-Render"));
    assert!(!recording.can_run_normalized("SETUP_RENDER"));
    assert!(recording.can_run_normalized("setup-render"));
    assert!(!recording.can_run_step("retry"));
    assert!(!recording.can_run_step("analyze"));
    assert!(!recording.can_run_step(""));
    assert!(!recording.can_run_step("setup render"));
    assert_eq!(RecordingStatus::Analyzed.progress(), Some(2));
    assert_eq!(RecordingStatus::Failed("x".to_string()).progress(), None);
    assert_eq!(RecordingStatus::Uploaded.progress(), Some(5));
}

#[test]
fn offered_steps_for_every_status() {
    let steps_for = |status: RecordingStatus| {
        Recording {
            name: "t".to_string(),
            path: "/t".to_string(),
            status,
            last_updated: 0,
            file_sizes: FileSizes::new(),
        }
        .get_available_steps()
    };
    assert_eq!(steps_for(RecordingStatus::Recorded), vec!["Extract"]);
    assert_eq!(steps_for(RecordingStatus::Extracted), vec!["Analyze", "extract"]);
    assert_eq!(
        steps_for(RecordingStatus::Analyzed),
        vec!["Setup Render", "extract", "analyze"]
    );
    assert_eq!(steps_for(RecordingStatus::SetupRendered), vec!["Render"]);
    assert_eq!(
        steps_for(RecordingStatus::Rendered),
        vec!["Upload", "extract", "analyze", "render"]
    );
    assert_eq!(
        steps_for(RecordingStatus::Uploaded),
        vec!["extract", "analyze", "render", "upload"]
    );
    assert_eq!(steps_for(RecordingStatus::Failed("x".to_string())), vec!["Retry"]);
}
