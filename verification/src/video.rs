//! Which video of a recording to play, and the call that opens it in the
//! system's player.

use crate::paths::{
    entry_name_in, extension, extension_of, file_stem, file_stem_of, join_path, joined, name_in,
};
use crate::process_runner::{Invocation, InvocationView};
use crate::snapshot::{DirSnapshot, Entry, EntryKind, EntryView, SnapshotView};
use crate::text::{ends_with, str_ends_with, str_eq, texts};
use vstd::prelude::*;
use vstd::string::*;

verus! {

/// The three ways in which a file can be the video to play, in the order in
/// which they are tried.
#[derive(Debug, Clone, Copy, PartialEq, Eq, Structural)]
pub enum VideoChoice {
    /// A finished render: `final.mp4`, or a name that ends in `_final.mp4`,
    /// in `blender/render`.
    FinalRender,
    /// A video at the top of the recording that has the recording's name.
    Named,
    /// Any video at the top of the recording.
    Source,
}

/// The extension is one of a video file.
pub open spec fn is_video_extension(ext: Option<Seq<char>>) -> bool {
    ext == Some("mkv"@) || ext == Some("mp4"@) || ext == Some("avi"@) || ext == Some("mov"@)
}

/// The entry is a regular file that the choice takes.
pub open spec fn qualifies(e: EntryView, choice: VideoChoice, recording_name: Seq<char>) -> bool {
    e.kind == EntryKind::File && match choice {
        VideoChoice::FinalRender => {
            let name = name_in(e.path, "blender/render"@);
            name is Some && (name->0 == "final.mp4"@ || ends_with(name->0, "_final.mp4"@))
        },
        VideoChoice::Named => {
            let name = name_in(e.path, ""@);
            name is Some && is_video_extension(extension(name->0)) && file_stem(name->0) == Some(
                recording_name,
            )
        },
        VideoChoice::Source => {
            let name = name_in(e.path, ""@);
            name is Some && is_video_extension(extension(name->0))
        },
    }
}

/// The place of the first entry at or after `from` that the choice takes.
pub open spec fn first_qualifying(
    entries: Seq<EntryView>,
    from: int,
    choice: VideoChoice,
    recording_name: Seq<char>,
) -> Option<int>
    decreases entries.len() - from,
{
    if from >= entries.len() {
        None
    } else if qualifies(entries[from], choice, recording_name) {
        Some(from)
    } else {
        first_qualifying(entries, from + 1, choice, recording_name)
    }
}

#[derive(Debug, Clone, Copy, PartialEq, Eq, Structural)]
pub enum VideoError {
    /// The recording's directory is not there.
    RecordingNotFound,
    /// The recording holds no video that can be played.
    NoPlayableVideo,
}

impl VideoError {
    pub open spec fn text(self, recording_name: Seq<char>) -> Seq<char> {
        match self {
            VideoError::RecordingNotFound => "Recording '"@ + recording_name + "' not found"@,
            VideoError::NoPlayableVideo => "No playable video file found for recording '"@
                + recording_name + "'"@,
        }
    }

    pub fn message(&self, recording_name: &str) -> (r: String)
        ensures
            r@ == self.text(recording_name@),
    {
        match self {
            VideoError::RecordingNotFound => String::from_str("Recording '").concat(
                recording_name,
            ).concat("' not found"),
            VideoError::NoPlayableVideo => String::from_str(
                "No playable video file found for recording '",
            ).concat(recording_name).concat("'"),
        }
    }
}

/// The relative path of the video to play: a finished render before a
/// video of the recording's name, and that before any other video; of
/// several files of one kind the first in the order of the entries.
pub open spec fn playable_entry(entries: Seq<EntryView>, recording_name: Seq<char>) -> Option<
    Seq<char>,
> {
    let rendered = first_qualifying(entries, 0, VideoChoice::FinalRender, recording_name);
    let named = first_qualifying(entries, 0, VideoChoice::Named, recording_name);
    let source = first_qualifying(entries, 0, VideoChoice::Source, recording_name);
    if rendered is Some {
        Some(entries[rendered->0].path)
    } else if named is Some {
        Some(entries[named->0].path)
    } else if source is Some {
        Some(entries[source->0].path)
    } else {
        None
    }
}

/// The path of the video to play for the recording at `recording_path`.
pub open spec fn playable_video(
    recording_path: Seq<char>,
    recording_name: Seq<char>,
    s: SnapshotView,
) -> Result<Seq<char>, VideoError> {
    if s.root is None {
        Err(VideoError::RecordingNotFound)
    } else {
        match playable_entry(s.entries, recording_name) {
            Some(path) => Ok(joined(recording_path, path)),
            None => Err(VideoError::NoPlayableVideo),
        }
    }
}

proof fn lemma_first_qualifying_bounds(
    entries: Seq<EntryView>,
    from: int,
    choice: VideoChoice,
    recording_name: Seq<char>,
)
    requires
        0 <= from,
    ensures
        first_qualifying(entries, from, choice, recording_name) is Some ==> from
            <= first_qualifying(entries, from, choice, recording_name)->0 < entries.len(),
    decreases entries.len() - from,
{
    if from < entries.len() && !qualifies(entries[from], choice, recording_name) {
        lemma_first_qualifying_bounds(entries, from + 1, choice, recording_name);
    }
}

fn has_video_extension(name: &str) -> (r: bool)
    ensures
        r == is_video_extension(extension(name@)),
{
    match extension_of(name) {
        None => false,
        Some(ext) => str_eq(ext.as_str(), "mkv") || str_eq(ext.as_str(), "mp4") || str_eq(
            ext.as_str(),
            "avi",
        ) || str_eq(ext.as_str(), "mov"),
    }
}

fn entry_qualifies(entry: &Entry, choice: VideoChoice, recording_name: &str) -> (r: bool)
    ensures
        r == qualifies(entry@, choice, recording_name@),
{
    if entry.kind != EntryKind::File {
        return false;
    }
    match choice {
        VideoChoice::FinalRender => {
            match entry_name_in(entry.path.as_str(), "blender/render") {
                None => false,
                Some(name) => str_eq(name.as_str(), "final.mp4") || str_ends_with(
                    name.as_str(),
                    "_final.mp4",
                ),
            }
        },
        VideoChoice::Named => {
            match entry_name_in(entry.path.as_str(), "") {
                None => false,
                Some(name) => {
                    if !has_video_extension(name.as_str()) {
                        false
                    } else {
                        match file_stem_of(name.as_str()) {
                            None => false,
                            Some(stem) => str_eq(stem.as_str(), recording_name),
                        }
                    }
                },
            }
        },
        VideoChoice::Source => {
            match entry_name_in(entry.path.as_str(), "") {
                None => false,
                Some(name) => has_video_extension(name.as_str()),
            }
        },
    }
}

/// The place of the first entry that the choice takes.
pub fn find_video(snapshot: &DirSnapshot, choice: VideoChoice, recording_name: &str) -> (r: Option<
    usize,
>)
    ensures
        r is Some <==> first_qualifying(snapshot@.entries, 0, choice, recording_name@) is Some,
        r is Some ==> r->0 < snapshot.entries.len() && r->0 == first_qualifying(
            snapshot@.entries,
            0,
            choice,
            recording_name@,
        )->0,
{
    let mut i: usize = 0;
    while i < snapshot.entries.len()
        invariant
            i <= snapshot.entries.len(),
            first_qualifying(snapshot@.entries, 0, choice, recording_name@) == first_qualifying(
                snapshot@.entries,
                i as int,
                choice,
                recording_name@,
            ),
        decreases snapshot.entries.len() - i,
    {
        if entry_qualifies(&snapshot.entries[i], choice, recording_name) {
            return Some(i);
        }
        i = i + 1;
    }
    None
}

/// The path of the video to play for the recording of this name at
/// `recording_path`, given the snapshot of its directory.
pub fn get_playable_video_path(recording_path: &str, recording_name: &str, snapshot: &DirSnapshot)
    -> (r: Result<String, VideoError>)
    ensures
        match r {
            Ok(path) => playable_video(recording_path@, recording_name@, snapshot@) == Ok::<
                Seq<char>,
                VideoError,
            >(path@),
            Err(e) => playable_video(recording_path@, recording_name@, snapshot@) == Err::<
                Seq<char>,
                VideoError,
            >(e),
        },
{
    if snapshot.root.is_none() {
        return Err(VideoError::RecordingNotFound);
    }
    let found = match find_video(snapshot, VideoChoice::FinalRender, recording_name) {
        Some(i) => Some(i),
        None => match find_video(snapshot, VideoChoice::Named, recording_name) {
            Some(i) => Some(i),
            None => find_video(snapshot, VideoChoice::Source, recording_name),
        },
    };
    match found {
        Some(i) => Ok(join_path(recording_path, snapshot.entries[i].path.as_str())),
        None => Err(VideoError::NoPlayableVideo),
    }
}

/// The systems whose player can be called.
#[derive(Debug, Clone, Copy, PartialEq, Eq, Structural)]
pub enum Platform {
    Linux,
    Windows,
    MacOs,
    Other,
}

#[derive(Debug, Clone, Copy, PartialEq, Eq, Structural)]
pub enum OpenError {
    /// No file stands at the path.
    FileNotFound,
    /// The system has no player that is known to this library.
    UnsupportedPlatform,
}

impl OpenError {
    pub open spec fn text(self, file_path: Seq<char>) -> Seq<char> {
        match self {
            OpenError::FileNotFound => "Video file not found: "@ + file_path,
            OpenError::UnsupportedPlatform => "External player not supported on this platform"@,
        }
    }

    pub fn message(&self, file_path: &str) -> (r: String)
        ensures
            r@ == self.text(file_path@),
    {
        match self {
            OpenError::FileNotFound => String::from_str("Video file not found: ").concat(
                file_path,
            ),
            OpenError::UnsupportedPlatform => String::from_str(
                "External player not supported on this platform",
            ),
        }
    }
}

/// The call that opens a file in the system's player.
pub open spec fn player_call(platform: Platform, file_path: Seq<char>) -> Option<InvocationView> {
    match platform {
        Platform::Linux => Some(
            InvocationView { program: "xdg-open"@, args: seq![file_path], working_dir: None },
        ),
        Platform::Windows => Some(
            InvocationView {
                program: "cmd"@,
                args: seq!["/C"@, "start"@, ""@, file_path],
                working_dir: None,
            },
        ),
        Platform::MacOs => Some(
            InvocationView { program: "open"@, args: seq![file_path], working_dir: None },
        ),
        Platform::Other => None,
    }
}

/// The call that opens the video at `file_path` in the system's player.
/// `file_exists` says whether something stands at the path.
pub fn open_video_external(platform: Platform, file_path: &str, file_exists: bool) -> (r: Result<
    Invocation,
    OpenError,
>)
    ensures
        !file_exists ==> r == Err::<Invocation, OpenError>(OpenError::FileNotFound),
        file_exists && player_call(platform, file_path@) is None ==> r == Err::<
            Invocation,
            OpenError,
        >(OpenError::UnsupportedPlatform),
        file_exists && player_call(platform, file_path@) is Some ==> r is Ok && Some(r->Ok_0@)
            == player_call(platform, file_path@),
{
    if !file_exists {
        return Err(OpenError::FileNotFound);
    }
    let mut args: Vec<String> = Vec::new();
    match platform {
        Platform::Linux => {
            args.push(String::from_str(file_path));
            assert(texts(args@) =~= seq![file_path@]);
            Ok(Invocation { program: String::from_str("xdg-open"), args, working_dir: None })
        },
        Platform::Windows => {
            args.push(String::from_str("/C"));
            args.push(String::from_str("start"));
            args.push(String::from_str(""));
            args.push(String::from_str(file_path));
            assert(texts(args@) =~= seq!["/C"@, "start"@, ""@, file_path@]);
            Ok(Invocation { program: String::from_str("cmd"), args, working_dir: None })
        },
        Platform::MacOs => {
            args.push(String::from_str(file_path));
            assert(texts(args@) =~= seq![file_path@]);
            Ok(Invocation { program: String::from_str("open"), args, working_dir: None })
        },
        Platform::Other => Err(OpenError::UnsupportedPlatform),
    }
}

/// A finished render is played before any video at the top of the
/// recording.
pub proof fn finished_render_is_preferred(entries: Seq<EntryView>, recording_name: Seq<char>)
    requires
        first_qualifying(entries, 0, VideoChoice::FinalRender, recording_name) is Some,
    ensures
        playable_entry(entries, recording_name) is Some,
        ({
            let i = first_qualifying(entries, 0, VideoChoice::FinalRender, recording_name)->0;
            0 <= i < entries.len() && playable_entry(entries, recording_name) == Some(
                entries[i].path,
            ) && qualifies(entries[i], VideoChoice::FinalRender, recording_name)
        }),
{
    lemma_first_qualifying_bounds(entries, 0, VideoChoice::FinalRender, recording_name);
    lemma_first_qualifies(entries, 0, VideoChoice::FinalRender, recording_name);
}

proof fn lemma_first_qualifies(
    entries: Seq<EntryView>,
    from: int,
    choice: VideoChoice,
    recording_name: Seq<char>,
)
    requires
        0 <= from,
        first_qualifying(entries, from, choice, recording_name) is Some,
    ensures
        qualifies(
            entries[first_qualifying(entries, from, choice, recording_name)->0],
            choice,
            recording_name,
        ),
    decreases entries.len() - from,
{
    if from < entries.len() && !qualifies(entries[from], choice, recording_name) {
        lemma_first_qualifies(entries, from + 1, choice, recording_name);
    }
}

} // verus!
