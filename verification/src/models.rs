//! A recording, the stage it has reached, and the step that comes next.

use crate::file_sizes::FileSizes;
use crate::paths::{file_name, file_name_of};
use crate::text::{debug_form, debug_text, lowercase_of, str_eq, texts, to_lowercase};
use vstd::prelude::*;
use vstd::string::*;

verus! {

/// The stage of the pipeline that a recording has reached. The stages run
/// from `Recorded` to `Uploaded`; `Failed` stands beside them and carries the
/// reason as free text.
#[derive(Debug, PartialEq, Eq)]
pub enum RecordingStatus {
    Recorded,
    Extracted,
    Analyzed,
    SetupRendered,
    Rendered,
    Uploaded,
    Failed(String),
}

/// A status with its reason as a sequence of characters.
pub enum StatusView {
    Recorded,
    Extracted,
    Analyzed,
    SetupRendered,
    Rendered,
    Uploaded,
    Failed(Seq<char>),
}

impl View for RecordingStatus {
    type V = StatusView;

    open spec fn view(&self) -> StatusView {
        match self {
            RecordingStatus::Recorded => StatusView::Recorded,
            RecordingStatus::Extracted => StatusView::Extracted,
            RecordingStatus::Analyzed => StatusView::Analyzed,
            RecordingStatus::SetupRendered => StatusView::SetupRendered,
            RecordingStatus::Rendered => StatusView::Rendered,
            RecordingStatus::Uploaded => StatusView::Uploaded,
            RecordingStatus::Failed(reason) => StatusView::Failed(reason@),
        }
    }
}

impl Clone for RecordingStatus {
    fn clone(&self) -> (r: Self)
        ensures
            r@ == self@,
    {
        match self {
            RecordingStatus::Recorded => RecordingStatus::Recorded,
            RecordingStatus::Extracted => RecordingStatus::Extracted,
            RecordingStatus::Analyzed => RecordingStatus::Analyzed,
            RecordingStatus::SetupRendered => RecordingStatus::SetupRendered,
            RecordingStatus::Rendered => RecordingStatus::Rendered,
            RecordingStatus::Uploaded => RecordingStatus::Uploaded,
            RecordingStatus::Failed(reason) => RecordingStatus::Failed(reason.clone()),
        }
    }
}

impl StatusView {
    /// The place of a stage in the order of progress, from 0 for `Recorded`
    /// to 5 for `Uploaded`; `None` for `Failed`, which has no place in it.
    pub open spec fn progress(self) -> Option<nat> {
        match self {
            StatusView::Recorded => Some(0),
            StatusView::Extracted => Some(1),
            StatusView::Analyzed => Some(2),
            StatusView::SetupRendered => Some(3),
            StatusView::Rendered => Some(4),
            StatusView::Uploaded => Some(5),
            StatusView::Failed(_) => None,
        }
    }
}

impl StatusView {
    /// The status as it is printed for debugging: the stage's name, and for
    /// a failure the reason in its debug form, in round brackets behind it.
    pub open spec fn debug_text(self) -> Seq<char> {
        match self {
            StatusView::Recorded => "Recorded"@,
            StatusView::Extracted => "Extracted"@,
            StatusView::Analyzed => "Analyzed"@,
            StatusView::SetupRendered => "SetupRendered"@,
            StatusView::Rendered => "Rendered"@,
            StatusView::Uploaded => "Uploaded"@,
            StatusView::Failed(reason) => "Failed("@ + debug_form(reason) + ")"@,
        }
    }
}

impl RecordingStatus {
    /// A failure as it is printed for debugging, from the debug form of its
    /// reason.
    pub fn failure_debug(reason_form: &str) -> (r: String)
        ensures
            r@ == "Failed("@ + reason_form@ + ")"@,
    {
        String::from_str("Failed(").concat(reason_form).concat(")")
    }

    /// The status as it is printed for debugging.
    pub fn debug_string(&self) -> (r: String)
        ensures
            r@ == self@.debug_text(),
    {
        match self {
            RecordingStatus::Recorded => String::from_str("Recorded"),
            RecordingStatus::Extracted => String::from_str("Extracted"),
            RecordingStatus::Analyzed => String::from_str("Analyzed"),
            RecordingStatus::SetupRendered => String::from_str("SetupRendered"),
            RecordingStatus::Rendered => String::from_str("Rendered"),
            RecordingStatus::Uploaded => String::from_str("Uploaded"),
            RecordingStatus::Failed(reason) => Self::failure_debug(
                debug_text(reason.as_str()).as_str(),
            ),
        }
    }

    /// The place of the stage in the order of progress.
    pub fn progress(&self) -> (r: Option<u8>)
        ensures
            r is Some <==> self@.progress() is Some,
            r is Some ==> r->0 == self@.progress()->0,
    {
        match self {
            RecordingStatus::Recorded => Some(0),
            RecordingStatus::Extracted => Some(1),
            RecordingStatus::Analyzed => Some(2),
            RecordingStatus::SetupRendered => Some(3),
            RecordingStatus::Rendered => Some(4),
            RecordingStatus::Uploaded => Some(5),
            RecordingStatus::Failed(_) => None,
        }
    }
}

/// An action that advances, or retries, the stage of a recording. `Retry`
/// is never executed as it is: it stands for one of the other five.
#[derive(Debug, Clone, Copy, PartialEq, Eq, Structural)]
pub enum NextStep {
    Extract,
    Analyze,
    SetupRender,
    Render,
    Upload,
    Retry,
}

impl NextStep {
    /// The step's name as it is shown.
    pub open spec fn display_name(self) -> Seq<char> {
        match self {
            NextStep::Extract => "Extract"@,
            NextStep::Analyze => "Analyze"@,
            NextStep::SetupRender => "Setup Render"@,
            NextStep::Render => "Render"@,
            NextStep::Upload => "Upload"@,
            NextStep::Retry => "Retry"@,
        }
    }

    /// The step's name as a request for it is spelled.
    pub open spec fn request_name(self) -> Seq<char> {
        match self {
            NextStep::Extract => "extract"@,
            NextStep::Analyze => "analyze"@,
            NextStep::SetupRender => "setup_render"@,
            NextStep::Render => "render"@,
            NextStep::Upload => "upload"@,
            NextStep::Retry => "retry"@,
        }
    }

    /// The step's name as it is shown.
    pub fn to_string(&self) -> (r: String)
        ensures
            r@ == self.display_name(),
    {
        match self {
            NextStep::Extract => String::from_str("Extract"),
            NextStep::Analyze => String::from_str("Analyze"),
            NextStep::SetupRender => String::from_str("Setup Render"),
            NextStep::Render => String::from_str("Render"),
            NextStep::Upload => String::from_str("Upload"),
            NextStep::Retry => String::from_str("Retry"),
        }
    }

    /// The step that a lower-case name asks for; `setup-render` is a second
    /// spelling of `setup_render`.
    pub fn from_request_name(name: &str) -> (r: Option<NextStep>)
        ensures
            r == step_named(name@),
    {
        if str_eq(name, "extract") {
            Some(NextStep::Extract)
        } else if str_eq(name, "analyze") {
            Some(NextStep::Analyze)
        } else if str_eq(name, "setup_render") || str_eq(name, "setup-render") {
            Some(NextStep::SetupRender)
        } else if str_eq(name, "render") {
            Some(NextStep::Render)
        } else if str_eq(name, "upload") {
            Some(NextStep::Upload)
        } else if str_eq(name, "retry") {
            Some(NextStep::Retry)
        } else {
            None
        }
    }

    /// The step's name as a request for it is spelled.
    pub fn command_name(&self) -> (r: String)
        ensures
            r@ == self.request_name(),
    {
        match self {
            NextStep::Extract => String::from_str("extract"),
            NextStep::Analyze => String::from_str("analyze"),
            NextStep::SetupRender => String::from_str("setup_render"),
            NextStep::Render => String::from_str("render"),
            NextStep::Upload => String::from_str("upload"),
            NextStep::Retry => String::from_str("retry"),
        }
    }
}

/// The step that follows a stage by itself: the next stage's step, `Retry`
/// after a failure, and nothing once the recording is uploaded.
pub open spec fn next_step_of(status: StatusView) -> Option<NextStep> {
    match status {
        StatusView::Recorded => Some(NextStep::Extract),
        StatusView::Extracted => Some(NextStep::Analyze),
        StatusView::Analyzed => Some(NextStep::SetupRender),
        StatusView::SetupRendered => Some(NextStep::Render),
        StatusView::Rendered => Some(NextStep::Upload),
        StatusView::Uploaded => None,
        StatusView::Failed(_) => Some(NextStep::Retry),
    }
}

/// The step that a lower-case name asks for: one of the six, or none.
pub open spec fn step_named(name: Seq<char>) -> Option<NextStep> {
    if name == "extract"@ {
        Some(NextStep::Extract)
    } else if name == "analyze"@ {
        Some(NextStep::Analyze)
    } else if name == "setup_render"@ || name == "setup-render"@ {
        Some(NextStep::SetupRender)
    } else if name == "render"@ {
        Some(NextStep::Render)
    } else if name == "upload"@ {
        Some(NextStep::Upload)
    } else if name == "retry"@ {
        Some(NextStep::Retry)
    } else {
        None
    }
}

/// The stage that a step asks for, by the step's lower-case name: `None`
/// for `retry`, which asks for a failure, and for a name that is no step's.
pub open spec fn required_stage(name: Seq<char>) -> Option<StatusView> {
    if name == "extract"@ {
        Some(StatusView::Recorded)
    } else if name == "analyze"@ {
        Some(StatusView::Extracted)
    } else if name == "setup_render"@ || name == "setup-render"@ {
        Some(StatusView::Analyzed)
    } else if name == "render"@ {
        Some(StatusView::SetupRendered)
    } else if name == "upload"@ {
        Some(StatusView::Rendered)
    } else {
        None
    }
}

/// Whether the step of this lower-case name may be run by hand at this
/// stage: at the stage the step asks for, and after a failure, where every
/// step may be tried. A name that is no step's is never allowed.
pub open spec fn step_allowed(status: StatusView, name: Seq<char>) -> bool {
    if name == "retry"@ {
        status is Failed
    } else {
        match required_stage(name) {
            Some(stage) => status == stage || status is Failed,
            None => false,
        }
    }
}

/// The steps that are offered for a stage, in the order they are offered:
/// first the step that comes next, where there is one, under the name it
/// is shown by; then steps that can be run again, under the names they are
/// asked for by. Nothing is offered beside the next step before the
/// extraction is done, once the render is set up, or after a failure.
pub open spec fn offered_steps(status: StatusView) -> Seq<Seq<char>> {
    match status {
        StatusView::Recorded => seq!["Extract"@],
        StatusView::Extracted => seq!["Analyze"@, "extract"@],
        StatusView::Analyzed => seq!["Setup Render"@, "extract"@, "analyze"@],
        StatusView::SetupRendered => seq!["Render"@],
        StatusView::Rendered => seq!["Upload"@, "extract"@, "analyze"@, "render"@],
        StatusView::Uploaded => seq!["extract"@, "analyze"@, "render"@, "upload"@],
        StatusView::Failed(_) => seq!["Retry"@],
    }
}

/// Why a recording could not be made from a path.
#[derive(Debug, Clone, Copy, PartialEq, Eq, Structural)]
pub enum RecordingError {
    /// The path has no final component that names a directory.
    InvalidName,
    /// The directory's modification time could not be had.
    MetadataUnavailable,
}

impl RecordingError {
    pub open spec fn text(self) -> Seq<char> {
        match self {
            RecordingError::InvalidName => "Invalid recording directory name"@,
            RecordingError::MetadataUnavailable => "Recording directory metadata unavailable"@,
        }
    }

    pub fn message(&self) -> (r: String)
        ensures
            r@ == self.text(),
    {
        match self {
            RecordingError::InvalidName => String::from_str("Invalid recording directory name"),
            RecordingError::MetadataUnavailable => String::from_str(
                "Recording directory metadata unavailable",
            ),
        }
    }
}

/// One recorded session: a directory and what was inferred from it.
#[derive(Debug)]
pub struct Recording {
    pub name: String,
    /// The directory, as text with `/` between the components.
    pub path: String,
    pub status: RecordingStatus,
    /// When the directory was last modified, in seconds since the epoch.
    pub last_updated: u64,
    pub file_sizes: FileSizes,
}

pub struct RecordingView {
    pub name: Seq<char>,
    pub path: Seq<char>,
    pub status: StatusView,
    pub last_updated: u64,
    pub file_sizes: Map<Seq<char>, u64>,
}

impl View for Recording {
    type V = RecordingView;

    open spec fn view(&self) -> RecordingView {
        RecordingView {
            name: self.name@,
            path: self.path@,
            status: self.status@,
            last_updated: self.last_updated,
            file_sizes: self.file_sizes@,
        }
    }
}

impl Clone for Recording {
    fn clone(&self) -> (r: Self)
        ensures
            r@ == self@,
    {
        Recording {
            name: self.name.clone(),
            path: self.path.clone(),
            status: self.status.clone(),
            last_updated: self.last_updated,
            file_sizes: self.file_sizes.clone(),
        }
    }
}

/// The recording that a path and its directory's modification time make,
/// before anything is inferred from the directory's contents.
pub open spec fn fresh_recording(path: Seq<char>, modified: Option<u64>) -> Result<
    RecordingView,
    RecordingError,
> {
    if file_name(path) is None {
        Err(RecordingError::InvalidName)
    } else if modified is None {
        Err(RecordingError::MetadataUnavailable)
    } else {
        Ok(
            RecordingView {
                name: file_name(path)->0,
                path: path,
                status: StatusView::Recorded,
                last_updated: modified->0,
                file_sizes: Map::empty(),
            },
        )
    }
}

impl Recording {
    /// A recording for the directory at `path`, named by the path's final
    /// component; the components of `path` are separated by `/`. `modified` is the directory's modification time in seconds
    /// since the epoch, `None` where it could not be read. The status is
    /// `Recorded` and no file size is held until the directory is inspected.
    pub fn from_path(path: &str, modified: Option<u64>) -> (r: Result<Recording, RecordingError>)
        ensures
            r is Ok <==> fresh_recording(path@, modified) is Ok,
            r is Ok ==> Ok::<RecordingView, RecordingError>(r->Ok_0@) == fresh_recording(
                path@,
                modified,
            ),
            r is Err ==> Err::<RecordingView, RecordingError>(r->Err_0) == fresh_recording(
                path@,
                modified,
            ),
    {
        let name = match file_name_of(path) {
            Some(name) => name,
            None => {
                return Err(RecordingError::InvalidName);
            },
        };
        let last_updated: u64 = match modified {
            Some(seconds) => seconds,
            None => {
                return Err(RecordingError::MetadataUnavailable);
            },
        };
        Ok(
            Recording {
                name,
                path: String::from_str(path),
                status: RecordingStatus::Recorded,
                last_updated,
                file_sizes: FileSizes::new(),
            },
        )
    }

    /// The step that follows the recording's stage by itself.
    pub fn get_next_step(&self) -> (r: Option<NextStep>)
        ensures
            r == next_step_of(self.status@),
    {
        match &self.status {
            RecordingStatus::Recorded => Some(NextStep::Extract),
            RecordingStatus::Extracted => Some(NextStep::Analyze),
            RecordingStatus::Analyzed => Some(NextStep::SetupRender),
            RecordingStatus::SetupRendered => Some(NextStep::Render),
            RecordingStatus::Rendered => Some(NextStep::Upload),
            RecordingStatus::Uploaded => None,
            RecordingStatus::Failed(_) => Some(NextStep::Retry),
        }
    }

    /// Whether the step of this name, already in lower case, may be run by
    /// hand.
    pub fn can_run_normalized(&self, step: &str) -> (r: bool)
        ensures
            r == step_allowed(self.status@, step@),
    {
        let failed = match &self.status {
            RecordingStatus::Failed(_) => true,
            _ => false,
        };
        if str_eq(step, "retry") {
            failed
        } else if str_eq(step, "extract") {
            failed || matches!(&self.status, RecordingStatus::Recorded)
        } else if str_eq(step, "analyze") {
            failed || matches!(&self.status, RecordingStatus::Extracted)
        } else if str_eq(step, "setup_render") || str_eq(step, "setup-render") {
            failed || matches!(&self.status, RecordingStatus::Analyzed)
        } else if str_eq(step, "render") {
            failed || matches!(&self.status, RecordingStatus::SetupRendered)
        } else if str_eq(step, "upload") {
            failed || matches!(&self.status, RecordingStatus::Rendered)
        } else {
            false
        }
    }

    /// Whether the step of this name may be run by hand. Upper and lower
    /// case are not told apart.
    pub fn can_run_step(&self, step: &str) -> (r: bool)
        ensures
            r == step_allowed(self.status@, lowercase_of(step@)),
    {
        let lowered = to_lowercase(step);
        self.can_run_normalized(lowered.as_str())
    }

    /// The steps that are offered for the recording.
    pub fn get_available_steps(&self) -> (r: Vec<String>)
        ensures
            texts(r@) == offered_steps(self.status@),
    {
        let mut steps: Vec<String> = Vec::new();
        match self.get_next_step() {
            Some(step) => {
                steps.push(step.to_string());
            },
            None => {},
        }
        match &self.status {
            RecordingStatus::Extracted => {
                steps.push(String::from_str("extract"));
            },
            RecordingStatus::Analyzed => {
                steps.push(String::from_str("extract"));
                steps.push(String::from_str("analyze"));
            },
            RecordingStatus::Rendered => {
                steps.push(String::from_str("extract"));
                steps.push(String::from_str("analyze"));
                steps.push(String::from_str("render"));
            },
            RecordingStatus::Uploaded => {
                steps.push(String::from_str("extract"));
                steps.push(String::from_str("analyze"));
                steps.push(String::from_str("render"));
                steps.push(String::from_str("upload"));
            },
            _ => {},
        }
        assert(texts(steps@) =~= offered_steps(self.status@));
        steps
    }
}

/// Every stage has exactly the one step that the pipeline gives it, and only
/// the last stage has none.
pub proof fn next_step_is_total(status: StatusView)
    ensures
        next_step_of(status) is None <==> status is Uploaded,
        status is Failed <==> next_step_of(status) == Some(NextStep::Retry),
        status.progress() is Some && !(status is Uploaded) ==> next_step_of(status) is Some
            && next_step_of(status)->0 != NextStep::Retry,
{
}

/// The step that follows a recording's stage may be run by hand under the
/// name by which it is asked for.
pub proof fn next_step_may_be_run(status: StatusView)
    requires
        next_step_of(status) is Some,
    ensures
        step_allowed(status, next_step_of(status)->0.request_name()),
{
    reveal_strlit("retry");
    reveal_strlit("extract");
    reveal_strlit("analyze");
    reveal_strlit("setup_render");
    reveal_strlit("setup-render");
    reveal_strlit("render");
    reveal_strlit("upload");
    assert("analyze"@[0] != "extract"@[0]);
    assert("upload"@[0] != "render"@[0]);
    assert("extract"@.len() != "retry"@.len());
    assert("render"@.len() != "retry"@.len());
    assert("setup_render"@.len() != "retry"@.len());
}

/// A name under which a step may be run is the name of a step.
pub proof fn allowed_name_is_a_steps(status: StatusView, name: Seq<char>)
    requires
        step_allowed(status, name),
    ensures
        step_named(name) is Some,
{
}

/// A failed recording may try every step that has a name.
pub proof fn failed_allows_every_step(reason: Seq<char>, name: Seq<char>)
    requires
        required_stage(name) is Some || name == "retry"@,
    ensures
        step_allowed(StatusView::Failed(reason), name),
{
}

} // verus!
