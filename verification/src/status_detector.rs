//! The stage of a recording, inferred from what its directory holds.

use crate::file_sizes::FileSizes;
use crate::models::{Recording, RecordingStatus, RecordingView, StatusView};
use crate::paths::{entry_name_in, has_extension};
use crate::snapshot::{
    holds_file, is_file_in, listed, listed_dir, DirSnapshot, EntryKind, EntryView, MarkerFile,
    MarkerView, SnapshotView,
};
use crate::text::{is_blank, last_nonblank_line, last_text_line, trim, trimmed};
use vstd::prelude::*;
use vstd::string::*;

verus! {

/// The reason that the failure markers give, if they mark a failure. An
/// `error.log` with more than white space in it gives its last line that
/// holds text. Otherwise a `.failed` file gives its text without the white
/// space around it, or a fixed reason where it has no text to give.
pub open spec fn failure_reason(s: SnapshotView) -> Option<Seq<char>> {
    if s.error_log is Content && !is_blank(s.error_log->Content_0) {
        last_text_line(s.error_log->Content_0)
    } else {
        match s.failed_marker {
            MarkerView::Absent => None,
            MarkerView::Unreadable => Some("Process failed"@),
            MarkerView::Content(text) => if is_blank(text) {
                Some("Process failed"@)
            } else {
                Some(trimmed(text))
            },
        }
    }
}

/// `uploads/` is a directory and holds `upload_results.json`.
pub open spec fn has_uploads(entries: Seq<EntryView>) -> bool {
    listed_dir(entries, "uploads"@) && listed(entries, "uploads/upload_results.json"@)
}

/// `blender/render/` is a directory and holds a video file.
pub open spec fn has_rendered_video(entries: Seq<EntryView>) -> bool {
    listed_dir(entries, "blender/render"@) && (holds_file(entries, "blender/render"@, "mp4"@)
        || holds_file(entries, "blender/render"@, "mkv"@) || holds_file(
        entries,
        "blender/render"@,
        "avi"@,
    ))
}

/// `blender/` is a directory and holds a `.blend` file.
pub open spec fn has_render_setup(entries: Seq<EntryView>) -> bool {
    listed_dir(entries, "blender"@) && holds_file(entries, "blender"@, "blend"@)
}

/// `analysis/` is a directory and holds a `.json` file.
pub open spec fn has_analysis_files(entries: Seq<EntryView>) -> bool {
    listed_dir(entries, "analysis"@) && holds_file(entries, "analysis"@, "json"@)
}

/// `extracted/` is a directory, whatever it holds.
pub open spec fn has_extracted_files(entries: Seq<EntryView>) -> bool {
    listed_dir(entries, "extracted"@)
}

/// The stage that the directory's contents stand for. A failure marker goes
/// before everything else; then the furthest stage whose mark is there; and
/// `Recorded` where no mark is.
pub open spec fn status_of(s: SnapshotView) -> StatusView {
    if failure_reason(s) is Some {
        StatusView::Failed(failure_reason(s)->0)
    } else if has_uploads(s.entries) {
        StatusView::Uploaded
    } else if has_rendered_video(s.entries) {
        StatusView::Rendered
    } else if has_render_setup(s.entries) {
        StatusView::SetupRendered
    } else if has_analysis_files(s.entries) {
        StatusView::Analyzed
    } else if has_extracted_files(s.entries) {
        StatusView::Extracted
    } else {
        StatusView::Recorded
    }
}

/// The size of every regular file by its path. Of two entries with one path
/// the later one counts.
pub open spec fn file_sizes_of(entries: Seq<EntryView>) -> Map<Seq<char>, u64>
    decreases entries.len(),
{
    if entries.len() == 0 {
        Map::empty()
    } else {
        let before = file_sizes_of(entries.drop_last());
        if entries.last().kind == EntryKind::File {
            before.insert(entries.last().path, entries.last().size)
        } else {
            before
        }
    }
}

/// A video file stands at the top of the directory.
pub open spec fn has_video_file(entries: Seq<EntryView>) -> bool {
    holds_file(entries, ""@, "mkv"@) || holds_file(entries, ""@, "mp4"@)
}

/// The entry is a video file at the top of the directory.
pub open spec fn is_top_video(e: EntryView) -> bool {
    is_file_in(e, ""@, "mkv"@) || is_file_in(e, ""@, "mp4"@)
}

/// The size of the first video file at the top of the directory, at or
/// after the entry `from`.
pub open spec fn first_video_size(entries: Seq<EntryView>, from: int) -> Option<u64>
    decreases entries.len() - from,
{
    if from >= entries.len() {
        None
    } else if is_top_video(entries[from]) {
        Some(entries[from].size)
    } else {
        first_video_size(entries, from + 1)
    }
}

/// The sizes of all regular files together.
pub open spec fn total_size(entries: Seq<EntryView>) -> nat
    decreases entries.len(),
{
    if entries.len() == 0 {
        0
    } else if entries.last().kind == EntryKind::File {
        total_size(entries.drop_last()) + entries.last().size as nat
    } else {
        total_size(entries.drop_last())
    }
}

proof fn lemma_total_size_grows(entries: Seq<EntryView>, i: int)
    requires
        0 <= i <= entries.len(),
    ensures
        total_size(entries.subrange(0, i)) <= total_size(entries),
    decreases entries.len() - i,
{
    if i < entries.len() {
        lemma_total_size_grows(entries, i + 1);
        assert(entries.subrange(0, i + 1).drop_last() =~= entries.subrange(0, i));
    } else {
        assert(entries.subrange(0, i) =~= entries);
    }
}

/// Why a path is no recording.
#[derive(Debug, Clone, Copy, PartialEq, Eq, Structural)]
pub enum StructureError {
    /// Nothing stands at the path.
    NotFound,
    /// What stands at the path is no directory.
    NotADirectory,
    /// The directory holds neither a video file nor an `extracted/`
    /// directory.
    NotARecording,
}

/// Whether the directory is a recording, and if not, why not.
pub open spec fn structure_of(s: SnapshotView) -> Result<(), StructureError> {
    if s.root is None {
        Err(StructureError::NotFound)
    } else if s.root != Some(EntryKind::Directory) {
        Err(StructureError::NotADirectory)
    } else if !has_video_file(s.entries) && !has_extracted_files(s.entries) {
        Err(StructureError::NotARecording)
    } else {
        Ok(())
    }
}

impl StructureError {
    pub open spec fn text(self, path: Seq<char>) -> Seq<char> {
        match self {
            StructureError::NotFound => "Recording directory does not exist: "@ + path,
            StructureError::NotADirectory => "Recording path is not a directory: "@ + path,
            StructureError::NotARecording =>
                "Directory does not appear to be a recording (no video file or extracted directory)"@,
        }
    }

    /// The error in words, for the directory at `path`.
    pub fn message(&self, path: &str) -> (r: String)
        ensures
            r@ == self.text(path@),
    {
        match self {
            StructureError::NotFound => String::from_str(
                "Recording directory does not exist: ",
            ).concat(path),
            StructureError::NotADirectory => String::from_str(
                "Recording path is not a directory: ",
            ).concat(path),
            StructureError::NotARecording => String::from_str(
                "Directory does not appear to be a recording (no video file or extracted directory)",
            ),
        }
    }
}

pub struct StatusDetector;

impl StatusDetector {
    /// The stage that the directory's contents stand for.
    pub fn detect_status(snapshot: &DirSnapshot) -> (r: RecordingStatus)
        ensures
            r@ == status_of(snapshot@),
    {
        match Self::check_for_errors(snapshot) {
            Some(reason) => {
                return RecordingStatus::Failed(reason);
            },
            None => {},
        }
        if Self::has_uploads(snapshot) {
            return RecordingStatus::Uploaded;
        }
        if Self::has_rendered_video(snapshot) {
            return RecordingStatus::Rendered;
        }
        if Self::has_render_setup(snapshot) {
            return RecordingStatus::SetupRendered;
        }
        if Self::has_analysis_files(snapshot) {
            return RecordingStatus::Analyzed;
        }
        if Self::has_extracted_files(snapshot) {
            return RecordingStatus::Extracted;
        }
        RecordingStatus::Recorded
    }

    /// The size of every regular file below the directory, by its path.
    pub fn get_file_info(snapshot: &DirSnapshot) -> (r: FileSizes)
        ensures
            r@ == file_sizes_of(snapshot@.entries),
    {
        let mut sizes = FileSizes::new();
        let mut i: usize = 0;
        while i < snapshot.entries.len()
            invariant
                i <= snapshot.entries.len(),
                sizes@ == file_sizes_of(snapshot@.entries.subrange(0, i as int)),
            decreases snapshot.entries.len() - i,
        {
            assert(snapshot@.entries.subrange(0, i + 1).drop_last() =~= snapshot@.entries.subrange(
                0,
                i as int,
            ));
            if snapshot.entries[i].kind == EntryKind::File {
                sizes.insert(snapshot.entries[i].path.clone(), snapshot.entries[i].size);
            }
            i = i + 1;
        }
        assert(snapshot@.entries.subrange(0, i as int) =~= snapshot@.entries);
        sizes
    }

    /// Whether the directory is a recording: it is there, it is a directory,
    /// and it holds a video file at its top or an `extracted/` directory.
    pub fn validate_recording_structure(snapshot: &DirSnapshot) -> (r: Result<(), StructureError>)
        ensures
            r == structure_of(snapshot@),
    {
        match snapshot.root {
            None => {
                return Err(StructureError::NotFound);
            },
            Some(kind) => {
                if kind != EntryKind::Directory {
                    return Err(StructureError::NotADirectory);
                }
            },
        }
        let has_video = Self::has_video_file(snapshot);
        let has_extracted = Self::has_extracted_files(snapshot);
        if !has_video && !has_extracted {
            return Err(StructureError::NotARecording);
        }
        Ok(())
    }

    pub fn has_extracted_files(snapshot: &DirSnapshot) -> (r: bool)
        ensures
            r == has_extracted_files(snapshot@.entries),
    {
        snapshot.is_dir("extracted")
    }

    pub fn has_analysis_files(snapshot: &DirSnapshot) -> (r: bool)
        ensures
            r == has_analysis_files(snapshot@.entries),
    {
        snapshot.is_dir("analysis") && snapshot.has_file_with_extension("analysis", "json")
    }

    pub fn has_render_setup(snapshot: &DirSnapshot) -> (r: bool)
        ensures
            r == has_render_setup(snapshot@.entries),
    {
        snapshot.is_dir("blender") && snapshot.has_file_with_extension("blender", "blend")
    }

    pub fn has_rendered_video(snapshot: &DirSnapshot) -> (r: bool)
        ensures
            r == has_rendered_video(snapshot@.entries),
    {
        snapshot.is_dir("blender/render") && (snapshot.has_file_with_extension(
            "blender/render",
            "mp4",
        ) || snapshot.has_file_with_extension("blender/render", "mkv")
            || snapshot.has_file_with_extension("blender/render", "avi"))
    }

    pub fn has_uploads(snapshot: &DirSnapshot) -> (r: bool)
        ensures
            r == has_uploads(snapshot@.entries),
    {
        snapshot.is_dir("uploads") && snapshot.contains_path("uploads/upload_results.json")
    }

    /// A video file stands at the top of the directory.
    pub fn has_video_file(snapshot: &DirSnapshot) -> (r: bool)
        ensures
            r == has_video_file(snapshot@.entries),
    {
        snapshot.has_file_with_extension("", "mkv") || snapshot.has_file_with_extension("", "mp4")
    }

    /// The size of the first video file at the top of the directory.
    pub fn get_video_file_size(snapshot: &DirSnapshot) -> (r: Option<u64>)
        ensures
            r == first_video_size(snapshot@.entries, 0),
    {
        let mut i: usize = 0;
        while i < snapshot.entries.len()
            invariant
                i <= snapshot.entries.len(),
                first_video_size(snapshot@.entries, 0) == first_video_size(
                    snapshot@.entries,
                    i as int,
                ),
            decreases snapshot.entries.len() - i,
        {
            if snapshot.entries[i].kind == EntryKind::File {
                match entry_name_in(snapshot.entries[i].path.as_str(), "") {
                    Some(name) => {
                        if has_extension(name.as_str(), "mkv") || has_extension(
                            name.as_str(),
                            "mp4",
                        ) {
                            return Some(snapshot.entries[i].size);
                        }
                    },
                    None => {},
                }
            }
            i = i + 1;
        }
        None
    }

    /// The sizes of all regular files below the directory together: `None`
    /// where the path is no directory, or the sum is more than the result
    /// can hold.
    pub fn get_directory_size(snapshot: &DirSnapshot) -> (r: Option<u64>)
        ensures
            r == (if snapshot.root == Some(EntryKind::Directory) && total_size(
                snapshot@.entries,
            ) <= u64::MAX {
                Some(total_size(snapshot@.entries) as u64)
            } else {
                None
            }),
    {
        match snapshot.root {
            Some(EntryKind::Directory) => {},
            _ => {
                return None;
            },
        }
        let mut total: u64 = 0;
        let mut i: usize = 0;
        while i < snapshot.entries.len()
            invariant
                i <= snapshot.entries.len(),
                total == total_size(snapshot@.entries.subrange(0, i as int)),
            decreases snapshot.entries.len() - i,
        {
            assert(snapshot@.entries.subrange(0, i + 1).drop_last() =~= snapshot@.entries.subrange(
                0,
                i as int,
            ));
            if snapshot.entries[i].kind == EntryKind::File {
                match total.checked_add(snapshot.entries[i].size) {
                    Some(sum) => {
                        total = sum;
                    },
                    None => {
                        proof {
                            lemma_total_size_grows(snapshot@.entries, i + 1);
                        }
                        return None;
                    },
                }
            }
            i = i + 1;
        }
        assert(snapshot@.entries.subrange(0, i as int) =~= snapshot@.entries);
        Some(total)
    }

    /// The reason that the failure markers give, if they mark a failure.
    pub fn check_for_errors(snapshot: &DirSnapshot) -> (r: Option<String>)
        ensures
            r is Some <==> failure_reason(snapshot@) is Some,
            r is Some ==> r->0@ == failure_reason(snapshot@)->0,
    {
        match &snapshot.error_log {
            MarkerFile::Content(log) => {
                match last_nonblank_line(log.as_str()) {
                    Some(line) => {
                        return Some(line);
                    },
                    None => {},
                }
            },
            _ => {},
        }
        match &snapshot.failed_marker {
            MarkerFile::Absent => None,
            MarkerFile::Unreadable => Some(String::from_str("Process failed")),
            MarkerFile::Content(text) => {
                let reason = trim(text.as_str());
                if reason.as_str().unicode_len() == 0 {
                    Some(String::from_str("Process failed"))
                } else {
                    Some(reason)
                }
            },
        }
    }
}

/// Sets the recording's status and file sizes to what the snapshot of its
/// directory shows. Nothing else of the recording changes.
pub fn update_recording_status(recording: &mut Recording, snapshot: &DirSnapshot)
    ensures
        final(recording)@ == (RecordingView {
            status: status_of(snapshot@),
            file_sizes: file_sizes_of(snapshot@.entries),
            ..old(recording)@
        }),
{
    recording.status = StatusDetector::detect_status(snapshot);
    recording.file_sizes = StatusDetector::get_file_info(snapshot);
}

/// A failure that `error.log` reports is the status, whatever else the
/// directory holds.
pub proof fn error_log_goes_first(s: SnapshotView)
    requires
        s.error_log is Content,
        !is_blank(s.error_log->Content_0),
    ensures
        status_of(s) == StatusView::Failed(last_text_line(s.error_log->Content_0)->0),
        !(status_of(s) is Uploaded),
{
}

/// A `.failed` file makes the status a failure, whatever else the directory
/// holds.
pub proof fn failed_marker_goes_first(s: SnapshotView)
    requires
        !(s.failed_marker is Absent),
    ensures
        status_of(s) is Failed,
{
}

/// Without a failure marker the status is a stage of progress, and it is the
/// furthest one whose mark the directory holds.
pub proof fn furthest_mark_decides(s: SnapshotView)
    requires
        failure_reason(s) is None,
    ensures
        status_of(s).progress() is Some,
        has_uploads(s.entries) ==> status_of(s) is Uploaded,
        has_rendered_video(s.entries) ==> status_of(s).progress()->0 >= 4,
        has_render_setup(s.entries) ==> status_of(s).progress()->0 >= 3,
        has_analysis_files(s.entries) ==> status_of(s).progress()->0 >= 2,
        has_extracted_files(s.entries) ==> status_of(s).progress()->0 >= 1,
{
}

/// The size of a video file is known exactly where a video file stands at
/// the top of the directory.
pub proof fn video_size_iff_video(entries: Seq<EntryView>)
    ensures
        first_video_size(entries, 0) is Some <==> has_video_file(entries),
{
    lemma_video_size_from(entries, 0);
    if has_video_file(entries) {
        if holds_file(entries, ""@, "mkv"@) {
            let i = choose|i: int| 0 <= i < entries.len() && is_file_in(entries[i], ""@, "mkv"@);
            assert(is_top_video(entries[i]));
        } else {
            let i = choose|i: int| 0 <= i < entries.len() && is_file_in(entries[i], ""@, "mp4"@);
            assert(is_top_video(entries[i]));
        }
    }
}

proof fn lemma_video_size_from(entries: Seq<EntryView>, from: int)
    requires
        0 <= from,
    ensures
        first_video_size(entries, from) is Some <==> exists|i: int|
            from <= i < entries.len() && is_top_video(entries[i]),
    decreases entries.len() - from,
{
    if from < entries.len() {
        lemma_video_size_from(entries, from + 1);
        if is_top_video(entries[from]) {
        } else if exists|i: int| from <= i < entries.len() && is_top_video(entries[i]) {
            let i = choose|i: int| from <= i < entries.len() && is_top_video(entries[i]);
            assert(from + 1 <= i);
        }
    }
}

/// Two looks that found the same contents give the same status and the same
/// file sizes.
pub proof fn same_contents_same_status(a: DirSnapshot, b: DirSnapshot)
    requires
        a@ == b@,
    ensures
        status_of(a@) == status_of(b@),
        file_sizes_of(a@.entries) == file_sizes_of(b@.entries),
{
}

} // verus!
