//! What the presentation layer asks for: lists of recordings, one
//! recording's details, the configuration, and the check before a
//! recording is deleted.

use crate::config::{AppConfig, AppConfigDto, PathError};
use crate::file_scanner::{
    candidate_views, found_recordings, modified_at, newest_first, recording_views, unfinished,
    with_label, FileScanner, RootSnapshot,
};
use crate::models::{fresh_recording, Recording, RecordingError, RecordingView};
use crate::paths::{join_path, joined};
use crate::snapshot::{DirSnapshot, EntryKind, SnapshotView};
use crate::status_detector::{file_sizes_of, status_of, update_recording_status};
use crate::text::lowercase_of;
use vstd::prelude::*;
use vstd::string::*;

verus! {

/// All recordings below the recordings root, newest first.
pub fn get_recordings(root: &RootSnapshot) -> (r: Vec<Recording>)
    ensures
        root.root != Some(EntryKind::Directory) ==> r@.len() == 0,
        root.root == Some(EntryKind::Directory) ==> {
            &&& newest_first(recording_views(r@))
            &&& r@.len() == found_recordings(candidate_views(root.children@)).len()
            &&& forall|t: u64|
                modified_at(recording_views(r@), t) == modified_at(
                    found_recordings(candidate_views(root.children@)),
                    t,
                )
        },
{
    FileScanner::scan_recordings(root)
}

/// Why the details of a recording cannot be given.
#[derive(Debug, Clone, Copy, PartialEq, Eq, Structural)]
pub enum DetailsError {
    /// Nothing stands at the recording's path.
    NotFound,
    /// The recording could not be made from its path.
    LoadFailed(RecordingError),
}

impl DetailsError {
    pub open spec fn text(self, name: Seq<char>) -> Seq<char> {
        match self {
            DetailsError::NotFound => "Recording '"@ + name + "' not found"@,
            DetailsError::LoadFailed(e) => "Failed to load recording '"@ + name + "': "@
                + e.text(),
        }
    }

    pub fn message(&self, name: &str) -> (r: String)
        ensures
            r@ == self.text(name@),
    {
        match self {
            DetailsError::NotFound => String::from_str("Recording '").concat(name).concat(
                "' not found",
            ),
            DetailsError::LoadFailed(e) => String::from_str("Failed to load recording '").concat(
                name,
            ).concat("': ").concat(e.message().as_str()),
        }
    }
}

/// The recording of this name below the recordings root, as its directory
/// shows it.
pub open spec fn details(
    name: Seq<char>,
    recordings_path: Seq<char>,
    modified: Option<u64>,
    s: SnapshotView,
) -> Result<RecordingView, DetailsError> {
    let path = joined(recordings_path, name);
    if s.root is None {
        Err(DetailsError::NotFound)
    } else {
        match fresh_recording(path, modified) {
            Err(e) => Err(DetailsError::LoadFailed(e)),
            Ok(fresh) => Ok(
                RecordingView {
                    status: status_of(s),
                    file_sizes: file_sizes_of(s.entries),
                    ..fresh
                },
            ),
        }
    }
}

/// Where the recording of this name stands.
pub fn recording_path(config: &AppConfig, name: &str) -> (r: String)
    ensures
        r@ == joined(config@.recordings_path, name@),
{
    join_path(config.recordings_path.as_str(), name)
}

/// The recording of this name with its status and file sizes as they are
/// now. `modified` and `snapshot` are what was found at `recording_path`.
pub fn get_recording_details(
    name: &str,
    config: &AppConfig,
    modified: Option<u64>,
    snapshot: &DirSnapshot,
) -> (r: Result<Recording, DetailsError>)
    ensures
        match r {
            Ok(recording) => details(name@, config@.recordings_path, modified, snapshot@) == Ok::<
                RecordingView,
                DetailsError,
            >(recording@),
            Err(e) => details(name@, config@.recordings_path, modified, snapshot@) == Err::<
                RecordingView,
                DetailsError,
            >(e),
        },
{
    if snapshot.root.is_none() {
        return Err(DetailsError::NotFound);
    }
    let path = recording_path(config, name);
    match Recording::from_path(path.as_str(), modified) {
        Err(e) => Err(DetailsError::LoadFailed(e)),
        Ok(made) => {
            let mut recording = made;
            update_recording_status(&mut recording, snapshot);
            Ok(recording)
        },
    }
}

/// The recordings whose status goes by the label, out of `recordings`.
pub fn get_recordings_by_status(status_filter: &str, recordings: &[Recording]) -> (r: Vec<
    Recording,
>)
    ensures
        recording_views(r@) == with_label(
            recording_views(recordings@),
            lowercase_of(status_filter@),
        ),
{
    FileScanner::filter_by_status(recordings, status_filter)
}

/// The recordings that are not uploaded yet, out of `recordings`.
pub fn get_recordings_needing_attention(recordings: &[Recording]) -> (r: Vec<Recording>)
    ensures
        recording_views(r@) == unfinished(recording_views(recordings@)),
{
    FileScanner::get_recordings_needing_attention(recordings)
}

/// Why a recording is not deleted.
#[derive(Debug, Clone, Copy, PartialEq, Eq, Structural)]
pub enum DeleteError {
    NotFound,
    NotADirectory,
}

impl DeleteError {
    pub open spec fn text(self, name: Seq<char>, path: Seq<char>) -> Seq<char> {
        match self {
            DeleteError::NotFound => "Recording '"@ + name + "' not found at path: "@ + path,
            DeleteError::NotADirectory => "Recording '"@ + name + "' is not a directory"@,
        }
    }

    pub fn message(&self, name: &str, path: &str) -> (r: String)
        ensures
            r@ == self.text(name@, path@),
    {
        match self {
            DeleteError::NotFound => String::from_str("Recording '").concat(name).concat(
                "' not found at path: ",
            ).concat(path),
            DeleteError::NotADirectory => String::from_str("Recording '").concat(name).concat(
                "' is not a directory",
            ),
        }
    }
}

/// The directory to remove in order to delete the recording of this name:
/// the recording has to be there and be a directory. `found` is what stands
/// at `recording_path`.
pub fn delete_recording(recording_name: &str, recordings_path: &str, found: Option<EntryKind>) -> (r:
    Result<String, DeleteError>)
    ensures
        found is None ==> r == Err::<String, DeleteError>(DeleteError::NotFound),
        found is Some && found != Some(EntryKind::Directory) ==> r == Err::<String, DeleteError>(
            DeleteError::NotADirectory,
        ),
        found == Some(EntryKind::Directory) ==> r is Ok && r->Ok_0@ == joined(
            recordings_path@,
            recording_name@,
        ),
{
    match found {
        None => Err(DeleteError::NotFound),
        Some(EntryKind::Directory) => Ok(join_path(recordings_path, recording_name)),
        Some(_) => Err(DeleteError::NotADirectory),
    }
}

/// The error to report where the directory of a recording could not be
/// removed.
pub fn delete_failure(recording_name: &str, reason: &str) -> (r: String)
    ensures
        r@ == "Failed to delete recording '"@ + recording_name@ + "': "@ + reason@,
{
    String::from_str("Failed to delete recording '").concat(recording_name).concat("': ").concat(
        reason,
    )
}

/// Whether `new_path` can hold the recordings, given what stands at it: it
/// has to be a directory. The answer for a path that can is the notice to
/// show. The configuration itself is not changed.
pub fn update_recordings_path(new_path: &str, found: Option<EntryKind>) -> (r: Result<
    String,
    PathError,
>)
    ensures
        found is None ==> r == Err::<String, PathError>(PathError::DoesNotExist),
        found is Some && found != Some(EntryKind::Directory) ==> r == Err::<String, PathError>(
            PathError::NotADirectory,
        ),
        found == Some(EntryKind::Directory) ==> r is Ok && r->Ok_0@
            == "Path validation successful: "@ + new_path@,
{
    match found {
        None => Err(PathError::DoesNotExist),
        Some(EntryKind::Directory) => Ok(
            String::from_str("Path validation successful: ").concat(new_path),
        ),
        Some(_) => Err(PathError::NotADirectory),
    }
}

/// The configuration as it is shown.
pub fn get_app_config(config: &AppConfig) -> (r: AppConfigDto)
    ensures
        r@ == config@,
{
    config.to_dto()
}

} // verus!
