//! Which step to run for a recording, what running it takes, and what its
//! result means. Nothing here runs a process: a step becomes a plan, and
//! the plan is carried out elsewhere.

use crate::config::AppConfig;
use crate::file_scanner::{candidate_views, recording_views, CandidateView, RootSnapshot};
use crate::models::{
    next_step_of, step_allowed, step_named, NextStep, Recording, RecordingStatus, RecordingView,
    StatusView,
};
use crate::paths::{join_path, joined};
use crate::process_runner::{
    Invocation, InvocationView, ProcessResult, ProcessResultView, ProcessRunner, RenderSetupPlan,
    RenderSetupPlanView,
};
use crate::snapshot::{
    all_file_names, file_names, holds_file, listed, listed_dir, DirSnapshot, EntryView,
};
use crate::text::{
    bracketed, debug_forms, format_names, lowercase_of, str_eq, texts, to_lowercase,
};
use vstd::prelude::*;
use vstd::string::*;

verus! {

/// Why a step cannot be run in the state things are in.
#[derive(Debug, PartialEq, Eq)]
pub enum StateProblem {
    /// The step that was asked for by `step` may not be run for the
    /// recording at the stage it has reached.
    StepNotAllowed { step: String, recording: String, status: RecordingStatus },
    /// The recording has reached the last stage.
    NoNextStep { recording: String },
    /// Extraction is another tool's work.
    ExtractNotImplemented,
    /// Rendering is done by hand.
    ManualRenderRequired,
    /// `Retry` was not resolved to the step to try again.
    RetryNotResolved,
}

pub enum StateProblemView {
    StepNotAllowed { step: Seq<char>, recording: Seq<char>, status: StatusView },
    NoNextStep { recording: Seq<char> },
    ExtractNotImplemented,
    ManualRenderRequired,
    RetryNotResolved,
}

impl View for StateProblem {
    type V = StateProblemView;

    open spec fn view(&self) -> StateProblemView {
        match self {
            StateProblem::StepNotAllowed { step, recording, status } =>
                StateProblemView::StepNotAllowed {
                    step: step@,
                    recording: recording@,
                    status: status@,
                },
            StateProblem::NoNextStep { recording } => StateProblemView::NoNextStep {
                recording: recording@,
            },
            StateProblem::ExtractNotImplemented => StateProblemView::ExtractNotImplemented,
            StateProblem::ManualRenderRequired => StateProblemView::ManualRenderRequired,
            StateProblem::RetryNotResolved => StateProblemView::RetryNotResolved,
        }
    }
}

/// The directories of a recording that steps read.
#[derive(Debug, Clone, Copy, PartialEq, Eq, Structural)]
pub enum PipelineDir {
    Extracted,
    Analysis,
    Blender,
    Render,
}

/// What a step needs and did not find.
#[derive(Debug, PartialEq, Eq)]
pub enum Missing {
    Directory(PipelineDir),
    /// No audio file among the extracted files, which are listed.
    AudioFile(Vec<String>),
    BlendFile,
    RenderedVideo,
    UploadConfig,
}

pub enum MissingView {
    Directory(PipelineDir),
    AudioFile(Seq<Seq<char>>),
    BlendFile,
    RenderedVideo,
    UploadConfig,
}

impl View for Missing {
    type V = MissingView;

    open spec fn view(&self) -> MissingView {
        match self {
            Missing::Directory(dir) => MissingView::Directory(*dir),
            Missing::AudioFile(found) => MissingView::AudioFile(texts(found@)),
            Missing::BlendFile => MissingView::BlendFile,
            Missing::RenderedVideo => MissingView::RenderedVideo,
            Missing::UploadConfig => MissingView::UploadConfig,
        }
    }
}

/// Why an operation on a recording failed.
#[derive(Debug, PartialEq, Eq)]
pub enum PipelineError {
    /// No recording has this name.
    NotFound(String),
    InvalidState(StateProblem),
    MissingPrerequisite(Missing),
    /// Several audio files, which are listed, and no configuration that
    /// picks one of them.
    AmbiguousConfiguration(Vec<String>),
    /// The tool of a step did not succeed; what it wrote as its error is
    /// kept.
    ProcessFailure { step: String, stderr: String },
    /// The tool of a step could not be started, for the reason kept.
    ProcessNotStarted(String),
    /// A directory is there and could not be read.
    FilesystemError(PipelineDir),
    /// Nothing in the directory says which step to retry.
    Unresolvable,
}

pub enum ErrorView {
    NotFound(Seq<char>),
    InvalidState(StateProblemView),
    MissingPrerequisite(MissingView),
    AmbiguousConfiguration(Seq<Seq<char>>),
    ProcessFailure { step: Seq<char>, stderr: Seq<char> },
    ProcessNotStarted(Seq<char>),
    FilesystemError(PipelineDir),
    Unresolvable,
}

impl View for PipelineError {
    type V = ErrorView;

    open spec fn view(&self) -> ErrorView {
        match self {
            PipelineError::NotFound(name) => ErrorView::NotFound(name@),
            PipelineError::InvalidState(problem) => ErrorView::InvalidState(problem@),
            PipelineError::MissingPrerequisite(missing) => ErrorView::MissingPrerequisite(
                missing@,
            ),
            PipelineError::AmbiguousConfiguration(candidates) => ErrorView::AmbiguousConfiguration(
                texts(candidates@),
            ),
            PipelineError::ProcessFailure { step, stderr } => ErrorView::ProcessFailure {
                step: step@,
                stderr: stderr@,
            },
            PipelineError::ProcessNotStarted(reason) => ErrorView::ProcessNotStarted(reason@),
            PipelineError::FilesystemError(dir) => ErrorView::FilesystemError(*dir),
            PipelineError::Unresolvable => ErrorView::Unresolvable,
        }
    }
}

impl StateProblemView {
    pub open spec fn text(self) -> Seq<char> {
        match self {
            StateProblemView::StepNotAllowed { step, recording, status } => "Step '"@ + step
                + "' cannot be run for recording '"@ + recording + "' in current status: "@
                + status.debug_text(),
            StateProblemView::NoNextStep { recording } =>
                "No next step available for recording '"@ + recording + "'"@,
            StateProblemView::ExtractNotImplemented =>
                "Extract step not implemented in fermata - use obsession package"@,
            StateProblemView::ManualRenderRequired =>
                "Manual Blender rendering required. Open the .blend file and render manually, or implement automatic rendering."@,
            StateProblemView::RetryNotResolved =>
                "Retry step should be resolved to specific step before execution"@,
        }
    }
}

impl StateProblem {
    /// The error in words.
    pub fn message(&self) -> (r: String)
        ensures
            r@ == self@.text(),
    {
        match self {
            StateProblem::StepNotAllowed { step, recording, status } => String::from_str(
                "Step '",
            ).concat(step.as_str()).concat("' cannot be run for recording '").concat(
                recording.as_str(),
            ).concat("' in current status: ").concat(status.debug_string().as_str()),
            StateProblem::NoNextStep { recording } => String::from_str(
                "No next step available for recording '",
            ).concat(recording.as_str()).concat("'"),
            StateProblem::ExtractNotImplemented => String::from_str(
                "Extract step not implemented in fermata - use obsession package",
            ),
            StateProblem::ManualRenderRequired => String::from_str(
                "Manual Blender rendering required. Open the .blend file and render manually, or implement automatic rendering.",
            ),
            StateProblem::RetryNotResolved => String::from_str(
                "Retry step should be resolved to specific step before execution",
            ),
        }
    }
}

impl PipelineDir {
    /// The directory's path below the recording.
    pub open spec fn path(self) -> Seq<char> {
        match self {
            PipelineDir::Extracted => "extracted"@,
            PipelineDir::Analysis => "analysis"@,
            PipelineDir::Blender => "blender"@,
            PipelineDir::Render => "blender/render"@,
        }
    }

    pub open spec fn missing_text(self) -> Seq<char> {
        match self {
            PipelineDir::Extracted => "Extracted directory not found - run extract step first"@,
            PipelineDir::Analysis => "Analysis directory not found - run analyze step first"@,
            PipelineDir::Blender => "Blender project not found - run setup render step first"@,
            PipelineDir::Render => "Render directory not found - run render step first"@,
        }
    }

    pub open spec fn unreadable_text(self) -> Seq<char> {
        match self {
            PipelineDir::Extracted => "Failed to read extracted directory"@,
            PipelineDir::Analysis => "Failed to read analysis directory"@,
            PipelineDir::Blender => "Failed to read blender directory"@,
            PipelineDir::Render => "Failed to read render directory"@,
        }
    }

    /// The directory's path below the recording.
    pub fn relative_path(&self) -> (r: String)
        ensures
            r@ == self.path(),
    {
        match self {
            PipelineDir::Extracted => String::from_str("extracted"),
            PipelineDir::Analysis => String::from_str("analysis"),
            PipelineDir::Blender => String::from_str("blender"),
            PipelineDir::Render => String::from_str("blender/render"),
        }
    }

    fn missing_message(&self) -> (r: String)
        ensures
            r@ == self.missing_text(),
    {
        match self {
            PipelineDir::Extracted => String::from_str(
                "Extracted directory not found - run extract step first",
            ),
            PipelineDir::Analysis => String::from_str(
                "Analysis directory not found - run analyze step first",
            ),
            PipelineDir::Blender => String::from_str(
                "Blender project not found - run setup render step first",
            ),
            PipelineDir::Render => String::from_str(
                "Render directory not found - run render step first",
            ),
        }
    }

    fn unreadable_message(&self) -> (r: String)
        ensures
            r@ == self.unreadable_text(),
    {
        match self {
            PipelineDir::Extracted => String::from_str("Failed to read extracted directory"),
            PipelineDir::Analysis => String::from_str("Failed to read analysis directory"),
            PipelineDir::Blender => String::from_str("Failed to read blender directory"),
            PipelineDir::Render => String::from_str("Failed to read render directory"),
        }
    }
}

impl MissingView {
    pub open spec fn text(self) -> Seq<char> {
        match self {
            MissingView::Directory(dir) => dir.missing_text(),
            MissingView::AudioFile(found) =>
                "No audio file (.m4a) found in extracted directory. Found files: "@ + bracketed(
                    debug_forms(found),
                ),
            MissingView::BlendFile => "No .blend file found in blender directory"@,
            MissingView::RenderedVideo => "No video file (.mp4) found in render directory"@,
            MissingView::UploadConfig => "Medusa config not found - check medusa package setup"@,
        }
    }
}

impl Missing {
    pub fn message(&self) -> (r: String)
        ensures
            r@ == self@.text(),
    {
        match self {
            Missing::Directory(dir) => dir.missing_message(),
            Missing::AudioFile(found) => String::from_str(
                "No audio file (.m4a) found in extracted directory. Found files: ",
            ).concat(format_names(found).as_str()),
            Missing::BlendFile => String::from_str("No .blend file found in blender directory"),
            Missing::RenderedVideo => String::from_str(
                "No video file (.mp4) found in render directory",
            ),
            Missing::UploadConfig => String::from_str(
                "Medusa config not found - check medusa package setup",
            ),
        }
    }
}

/// The kinds of failure that an operation on a recording can end in.
#[derive(Debug, Clone, Copy, PartialEq, Eq, Structural)]
pub enum ErrorKind {
    NotFound,
    InvalidState,
    MissingPrerequisite,
    AmbiguousConfiguration,
    ProcessFailure,
    FilesystemError,
    Unresolvable,
}

impl ErrorView {
    pub open spec fn kind(self) -> ErrorKind {
        match self {
            ErrorView::NotFound(_) => ErrorKind::NotFound,
            ErrorView::InvalidState(_) => ErrorKind::InvalidState,
            ErrorView::MissingPrerequisite(_) => ErrorKind::MissingPrerequisite,
            ErrorView::AmbiguousConfiguration(_) => ErrorKind::AmbiguousConfiguration,
            ErrorView::ProcessFailure { .. } => ErrorKind::ProcessFailure,
            ErrorView::ProcessNotStarted(_) => ErrorKind::ProcessFailure,
            ErrorView::FilesystemError(_) => ErrorKind::FilesystemError,
            ErrorView::Unresolvable => ErrorKind::Unresolvable,
        }
    }

    pub open spec fn text(self) -> Seq<char> {
        match self {
            ErrorView::NotFound(name) => "Recording '"@ + name + "' not found"@,
            ErrorView::InvalidState(problem) => problem.text(),
            ErrorView::MissingPrerequisite(missing) => missing.text(),
            ErrorView::AmbiguousConfiguration(candidates) => "Multiple audio files found: "@
                + bracketed(debug_forms(candidates))
                + ". Configure FERMATA_MAIN_AUDIO environment variable to specify which one to use."@,
            ErrorView::ProcessFailure { step, stderr } => "Failed to execute "@ + step + ": "@
                + stderr,
            ErrorView::ProcessNotStarted(reason) => "Command execution failed: "@ + reason,
            ErrorView::FilesystemError(dir) => dir.unreadable_text(),
            ErrorView::Unresolvable => "Cannot determine retry step"@,
        }
    }
}

impl PipelineError {
    pub fn kind(&self) -> (r: ErrorKind)
        ensures
            r == self@.kind(),
    {
        match self {
            PipelineError::NotFound(_) => ErrorKind::NotFound,
            PipelineError::InvalidState(_) => ErrorKind::InvalidState,
            PipelineError::MissingPrerequisite(_) => ErrorKind::MissingPrerequisite,
            PipelineError::AmbiguousConfiguration(_) => ErrorKind::AmbiguousConfiguration,
            PipelineError::ProcessFailure { .. } => ErrorKind::ProcessFailure,
            PipelineError::ProcessNotStarted(_) => ErrorKind::ProcessFailure,
            PipelineError::FilesystemError(_) => ErrorKind::FilesystemError,
            PipelineError::Unresolvable => ErrorKind::Unresolvable,
        }
    }

    /// The error in words.
    pub fn message(&self) -> (r: String)
        ensures
            r@ == self@.text(),
    {
        match self {
            PipelineError::NotFound(name) => String::from_str("Recording '").concat(
                name.as_str(),
            ).concat("' not found"),
            PipelineError::InvalidState(problem) => problem.message(),
            PipelineError::MissingPrerequisite(missing) => missing.message(),
            PipelineError::AmbiguousConfiguration(candidates) => String::from_str(
                "Multiple audio files found: ",
            ).concat(format_names(candidates).as_str()).concat(
                ". Configure FERMATA_MAIN_AUDIO environment variable to specify which one to use.",
            ),
            PipelineError::ProcessFailure { step, stderr } => String::from_str(
                "Failed to execute ",
            ).concat(step.as_str()).concat(": ").concat(stderr.as_str()),
            PipelineError::ProcessNotStarted(reason) => String::from_str(
                "Command execution failed: ",
            ).concat(reason.as_str()),
            PipelineError::FilesystemError(dir) => dir.unreadable_message(),
            PipelineError::Unresolvable => String::from_str("Cannot determine retry step"),
        }
    }
}

/// What running a step takes.
#[derive(Debug)]
pub enum StepPlan {
    /// One process, whose result is that of the step.
    Run(Invocation),
    /// The render setup, which takes two processes, the second depending on
    /// how the first one ended.
    RenderSetup(RenderSetupPlan),
}

pub enum StepPlanView {
    Run(InvocationView),
    RenderSetup(RenderSetupPlanView),
}

impl View for StepPlan {
    type V = StepPlanView;

    open spec fn view(&self) -> StepPlanView {
        match self {
            StepPlan::Run(command) => StepPlanView::Run(command@),
            StepPlan::RenderSetup(setup) => StepPlanView::RenderSetup(setup@),
        }
    }
}

pub open spec fn plan_view(r: Result<StepPlan, PipelineError>) -> Result<StepPlanView, ErrorView> {
    match r {
        Ok(plan) => Ok(plan@),
        Err(e) => Err(e@),
    }
}

pub open spec fn step_view(r: Result<NextStep, PipelineError>) -> Result<NextStep, ErrorView> {
    match r {
        Ok(step) => Ok(step),
        Err(e) => Err(e@),
    }
}

/// The extracted audio files, in the order of the entries.
pub open spec fn audio_files(entries: Seq<EntryView>) -> Seq<Seq<char>> {
    file_names(entries, "extracted"@, "m4a"@)
}

/// The rendered videos that can be uploaded, in the order of the entries.
pub open spec fn upload_videos(entries: Seq<EntryView>) -> Seq<Seq<char>> {
    file_names(entries, "blender/render"@, "mp4"@)
}

/// Where the configuration of the upload tool stands.
pub open spec fn upload_config_at(workspace_root: Seq<char>) -> Seq<char> {
    joined(workspace_root, "packages/medusa/examples/config_example.json"@)
}

/// The analysis needs the `extracted` directory and an audio file in it,
/// and takes the first one.
pub open spec fn analyze_plan(
    runner: ProcessRunner,
    recording_path: Seq<char>,
    entries: Seq<EntryView>,
) -> Result<StepPlanView, ErrorView> {
    if !listed(entries, "extracted"@) {
        Err(ErrorView::MissingPrerequisite(MissingView::Directory(PipelineDir::Extracted)))
    } else if !listed_dir(entries, "extracted"@) {
        Err(ErrorView::FilesystemError(PipelineDir::Extracted))
    } else if audio_files(entries).len() == 0 {
        Err(
            ErrorView::MissingPrerequisite(
                MissingView::AudioFile(all_file_names(entries, "extracted"@)),
            ),
        )
    } else {
        Ok(StepPlanView::Run(runner.analyze_call(recording_path, audio_files(entries)[0])))
    }
}

/// The render setup needs the `analysis` directory. Where more than one
/// audio file was extracted, the configured main audio file has to be one
/// of them, and is named to the tool.
pub open spec fn setup_render_plan(
    runner: ProcessRunner,
    recording_path: Seq<char>,
    entries: Seq<EntryView>,
    main_audio_file: Seq<char>,
) -> Result<StepPlanView, ErrorView> {
    if !listed(entries, "analysis"@) {
        Err(ErrorView::MissingPrerequisite(MissingView::Directory(PipelineDir::Analysis)))
    } else if !listed(entries, "extracted"@) {
        Ok(StepPlanView::RenderSetup(runner.render_setup(recording_path, "beat-switch"@, None)))
    } else if !listed_dir(entries, "extracted"@) {
        Err(ErrorView::FilesystemError(PipelineDir::Extracted))
    } else if audio_files(entries).len() <= 1 {
        Ok(StepPlanView::RenderSetup(runner.render_setup(recording_path, "beat-switch"@, None)))
    } else if main_audio_file.len() > 0 && audio_files(entries).contains(main_audio_file) {
        Ok(
            StepPlanView::RenderSetup(
                runner.render_setup(recording_path, "beat-switch"@, Some(main_audio_file)),
            ),
        )
    } else {
        Err(ErrorView::AmbiguousConfiguration(audio_files(entries)))
    }
}

/// Rendering needs the `blender` directory and a `.blend` file in it, and
/// even then is left to be done by hand.
pub open spec fn render_plan(entries: Seq<EntryView>) -> Result<StepPlanView, ErrorView> {
    if !listed(entries, "blender"@) {
        Err(ErrorView::MissingPrerequisite(MissingView::Directory(PipelineDir::Blender)))
    } else if !listed_dir(entries, "blender"@) {
        Err(ErrorView::FilesystemError(PipelineDir::Blender))
    } else if !holds_file(entries, "blender"@, "blend"@) {
        Err(ErrorView::MissingPrerequisite(MissingView::BlendFile))
    } else {
        Err(ErrorView::InvalidState(StateProblemView::ManualRenderRequired))
    }
}

/// The upload needs the `blender/render` directory, an `.mp4` file in it,
/// of which it takes the first, and the upload tool's configuration.
pub open spec fn upload_plan(
    runner: ProcessRunner,
    recording_path: Seq<char>,
    entries: Seq<EntryView>,
    upload_config_exists: bool,
) -> Result<StepPlanView, ErrorView> {
    if !listed(entries, "blender/render"@) {
        Err(ErrorView::MissingPrerequisite(MissingView::Directory(PipelineDir::Render)))
    } else if !listed_dir(entries, "blender/render"@) {
        Err(ErrorView::FilesystemError(PipelineDir::Render))
    } else if upload_videos(entries).len() == 0 {
        Err(ErrorView::MissingPrerequisite(MissingView::RenderedVideo))
    } else if !upload_config_exists {
        Err(ErrorView::MissingPrerequisite(MissingView::UploadConfig))
    } else {
        Ok(
            StepPlanView::Run(
                runner.upload_call(
                    joined(joined(recording_path, "blender/render"@), upload_videos(entries)[0]),
                    upload_config_at(runner.workspace_root@),
                ),
            ),
        )
    }
}

/// What running a step takes, or why it cannot be run.
pub open spec fn planned(
    runner: ProcessRunner,
    recording_path: Seq<char>,
    step: NextStep,
    entries: Seq<EntryView>,
    main_audio_file: Seq<char>,
    upload_config_exists: bool,
) -> Result<StepPlanView, ErrorView> {
    match step {
        NextStep::Extract => Err(
            ErrorView::InvalidState(StateProblemView::ExtractNotImplemented),
        ),
        NextStep::Analyze => analyze_plan(runner, recording_path, entries),
        NextStep::SetupRender => setup_render_plan(
            runner,
            recording_path,
            entries,
            main_audio_file,
        ),
        NextStep::Render => render_plan(entries),
        NextStep::Upload => upload_plan(runner, recording_path, entries, upload_config_exists),
        NextStep::Retry => Err(ErrorView::InvalidState(StateProblemView::RetryNotResolved)),
    }
}

/// The step to run again after a failure, by what the directory holds:
/// the render where `blender/render` is there, the render setup where
/// `blender` or `analysis` is, the analysis where `extracted` is.
pub open spec fn retry_target(entries: Seq<EntryView>) -> Result<NextStep, ErrorView> {
    if listed(entries, "blender/render"@) {
        Ok(NextStep::Render)
    } else if listed(entries, "blender"@) {
        Ok(NextStep::SetupRender)
    } else if listed(entries, "analysis"@) {
        Ok(NextStep::SetupRender)
    } else if listed(entries, "extracted"@) {
        Ok(NextStep::Analyze)
    } else {
        Err(ErrorView::Unresolvable)
    }
}

/// The error for a step that may not be run for a recording.
pub open spec fn not_allowed(recording: RecordingView, step: Seq<char>) -> ErrorView {
    ErrorView::InvalidState(
        StateProblemView::StepNotAllowed {
            step,
            recording: recording.name,
            status: recording.status,
        },
    )
}

/// The step that a request stands for. `step` is the name as it was given
/// and `lowered` the same in lower case. The name has to be that of a step
/// that is allowed at the recording's stage; `retry`, which is allowed only
/// after a failure, is resolved by what the directory holds.
pub open spec fn requested_step(
    recording: RecordingView,
    step: Seq<char>,
    lowered: Seq<char>,
    entries: Seq<EntryView>,
) -> Result<NextStep, ErrorView> {
    match step_named(lowered) {
        Some(asked) => if !step_allowed(recording.status, lowered) {
            Err(not_allowed(recording, step))
        } else if asked == NextStep::Retry {
            retry_target(entries)
        } else {
            Ok(asked)
        },
        None => Err(not_allowed(recording, step)),
    }
}

/// `i` is the place of the first recording of this name.
pub open spec fn is_first_named(rs: Seq<RecordingView>, name: Seq<char>, i: int) -> bool {
    &&& 0 <= i < rs.len()
    &&& rs[i].name == name
    &&& forall|j: int| 0 <= j < i ==> rs[j].name != name
}

/// The name by which a step is called in the notice of its outcome.
pub open spec fn outcome_label(step: NextStep) -> Seq<char> {
    match step {
        NextStep::Extract => "extract"@,
        NextStep::Analyze => "analyze"@,
        NextStep::SetupRender => "setup render"@,
        NextStep::Render => "render"@,
        NextStep::Upload => "upload"@,
        NextStep::Retry => "retry"@,
    }
}

/// What the result of a step's process means: a notice where it
/// succeeded, and else a failure that keeps what the process wrote as its
/// error.
pub open spec fn outcome(label: Seq<char>, recording_name: Seq<char>, result: ProcessResultView)
    -> Result<Seq<char>, ErrorView> {
    if result.success {
        Ok("Successfully completed "@ + label + " for "@ + recording_name)
    } else {
        Err(ErrorView::ProcessFailure { step: label, stderr: result.stderr })
    }
}

/// True where one of the names is `name`.
fn contains_name(names: &Vec<String>, name: &str) -> (r: bool)
    ensures
        r == texts(names@).contains(name@),
{
    let mut i: usize = 0;
    while i < names.len()
        invariant
            i <= names.len(),
            forall|j: int| 0 <= j < i ==> texts(names@)[j] != name@,
        decreases names.len() - i,
    {
        if str_eq(names[i].as_str(), name) {
            assert(texts(names@)[i as int] == name@);
            return true;
        }
        i = i + 1;
    }
    false
}

/// Where the configuration of the upload tool stands. The upload can be
/// planned only where a file is there.
pub fn upload_config_path(config: &AppConfig) -> (r: String)
    ensures
        r@ == upload_config_at(config@.workspace_root),
{
    join_path(
        config.cli_paths.workspace_root.as_str(),
        "packages/medusa/examples/config_example.json",
    )
}

fn plan_analyze(runner: &ProcessRunner, recording_path: &str, snapshot: &DirSnapshot) -> (r:
    Result<StepPlan, PipelineError>)
    ensures
        plan_view(r) == analyze_plan(*runner, recording_path@, snapshot@.entries),
{
    if !snapshot.contains_path("extracted") {
        return Err(
            PipelineError::MissingPrerequisite(Missing::Directory(PipelineDir::Extracted)),
        );
    }
    if !snapshot.is_dir("extracted") {
        return Err(PipelineError::FilesystemError(PipelineDir::Extracted));
    }
    let audio = snapshot.files_with_extension("extracted", "m4a");
    if audio.len() == 0 {
        let found = snapshot.files_in("extracted");
        return Err(PipelineError::MissingPrerequisite(Missing::AudioFile(found)));
    }
    assert(texts(audio@)[0] == audio@[0]@);
    Ok(StepPlan::Run(runner.run_beatrix_analyze(recording_path, audio[0].as_str())))
}

fn plan_setup_render(
    runner: &ProcessRunner,
    recording_path: &str,
    snapshot: &DirSnapshot,
    main_audio_file: &str,
) -> (r: Result<StepPlan, PipelineError>)
    ensures
        plan_view(r) == setup_render_plan(
            *runner,
            recording_path@,
            snapshot@.entries,
            main_audio_file@,
        ),
{
    if !snapshot.contains_path("analysis") {
        return Err(PipelineError::MissingPrerequisite(Missing::Directory(PipelineDir::Analysis)));
    }
    if !snapshot.contains_path("extracted") {
        return Ok(
            StepPlan::RenderSetup(runner.run_cinemon_render(recording_path, "beat-switch", None)),
        );
    }
    if !snapshot.is_dir("extracted") {
        return Err(PipelineError::FilesystemError(PipelineDir::Extracted));
    }
    let audio = snapshot.files_with_extension("extracted", "m4a");
    if audio.len() <= 1 {
        return Ok(
            StepPlan::RenderSetup(runner.run_cinemon_render(recording_path, "beat-switch", None)),
        );
    }
    if main_audio_file.unicode_len() > 0 && contains_name(&audio, main_audio_file) {
        Ok(
            StepPlan::RenderSetup(
                runner.run_cinemon_render_with_audio(
                    recording_path,
                    "beat-switch",
                    Some(main_audio_file),
                ),
            ),
        )
    } else {
        Err(PipelineError::AmbiguousConfiguration(audio))
    }
}

fn plan_render(snapshot: &DirSnapshot) -> (r: Result<StepPlan, PipelineError>)
    ensures
        plan_view(r) == render_plan(snapshot@.entries),
{
    if !snapshot.contains_path("blender") {
        return Err(PipelineError::MissingPrerequisite(Missing::Directory(PipelineDir::Blender)));
    }
    if !snapshot.is_dir("blender") {
        return Err(PipelineError::FilesystemError(PipelineDir::Blender));
    }
    if !snapshot.has_file_with_extension("blender", "blend") {
        return Err(PipelineError::MissingPrerequisite(Missing::BlendFile));
    }
    Err(PipelineError::InvalidState(StateProblem::ManualRenderRequired))
}

fn plan_upload(
    runner: &ProcessRunner,
    recording_path: &str,
    snapshot: &DirSnapshot,
    upload_config_exists: bool,
) -> (r: Result<StepPlan, PipelineError>)
    ensures
        plan_view(r) == upload_plan(
            *runner,
            recording_path@,
            snapshot@.entries,
            upload_config_exists,
        ),
{
    if !snapshot.contains_path("blender/render") {
        return Err(PipelineError::MissingPrerequisite(Missing::Directory(PipelineDir::Render)));
    }
    if !snapshot.is_dir("blender/render") {
        return Err(PipelineError::FilesystemError(PipelineDir::Render));
    }
    let videos = snapshot.files_with_extension("blender/render", "mp4");
    if videos.len() == 0 {
        return Err(PipelineError::MissingPrerequisite(Missing::RenderedVideo));
    }
    if !upload_config_exists {
        return Err(PipelineError::MissingPrerequisite(Missing::UploadConfig));
    }
    assert(texts(videos@)[0] == videos@[0]@);
    let render_dir = join_path(recording_path, "blender/render");
    let video_path = join_path(render_dir.as_str(), videos[0].as_str());
    let config_path = join_path(
        runner.workspace_root.as_str(),
        "packages/medusa/examples/config_example.json",
    );
    Ok(StepPlan::Run(runner.run_medusa_upload(video_path.as_str(), config_path.as_str())))
}

/// What running `step` for the recording takes: the step's prerequisites
/// are looked for in the snapshot of the recording's directory, and the
/// tool's call is built where they are met. `upload_config_exists` says
/// whether a file stands at `upload_config_path`. A plan is only made for
/// the analysis, the render setup and the upload.
pub fn plan_step(
    recording: &Recording,
    step: NextStep,
    snapshot: &DirSnapshot,
    config: &AppConfig,
    upload_config_exists: bool,
) -> (r: Result<StepPlan, PipelineError>)
    ensures
        plan_view(r) == planned(
            runner_of(*config),
            recording.path@,
            step,
            snapshot@.entries,
            config@.main_audio_file,
            upload_config_exists,
        ),
        step == NextStep::Extract || step == NextStep::Render || step == NextStep::Retry ==> r
            is Err,
{
    let runner = ProcessRunner::new(
        config.cli_paths.workspace_root.clone(),
        config.cli_paths.uv_path.clone(),
    );
    let path = recording.path.as_str();
    match step {
        NextStep::Extract => Err(PipelineError::InvalidState(StateProblem::ExtractNotImplemented)),
        NextStep::Analyze => plan_analyze(&runner, path, snapshot),
        NextStep::SetupRender => plan_setup_render(
            &runner,
            path,
            snapshot,
            config.main_audio_file.as_str(),
        ),
        NextStep::Render => plan_render(snapshot),
        NextStep::Upload => plan_upload(&runner, path, snapshot, upload_config_exists),
        NextStep::Retry => Err(PipelineError::InvalidState(StateProblem::RetryNotResolved)),
    }
}

/// The step to run again for a failed recording, by what its directory
/// holds.
pub fn resolve_retry(snapshot: &DirSnapshot) -> (r: Result<NextStep, PipelineError>)
    ensures
        step_view(r) == retry_target(snapshot@.entries),
{
    if snapshot.contains_path("blender/render") {
        Ok(NextStep::Render)
    } else if snapshot.contains_path("blender") {
        Ok(NextStep::SetupRender)
    } else if snapshot.contains_path("analysis") {
        Ok(NextStep::SetupRender)
    } else if snapshot.contains_path("extracted") {
        Ok(NextStep::Analyze)
    } else {
        Err(PipelineError::Unresolvable)
    }
}

/// The error for a step that may not be run for the recording.
fn step_not_allowed(recording: &Recording, step: &str) -> (r: PipelineError)
    ensures
        r@ == not_allowed(recording@, step@),
{
    PipelineError::InvalidState(
        StateProblem::StepNotAllowed {
            step: String::from_str(step),
            recording: recording.name.clone(),
            status: recording.status.clone(),
        },
    )
}

/// The step that a request by name stands for. `step` is the name as it
/// was given, `lowered` the same in lower case already. The step has to be
/// allowed at the recording's stage, and `retry` is resolved by what the
/// recording's directory holds.
pub fn resolve_normalized(
    recording: &Recording,
    step: &str,
    lowered: &str,
    snapshot: &DirSnapshot,
) -> (r: Result<NextStep, PipelineError>)
    ensures
        step_view(r) == requested_step(recording@, step@, lowered@, snapshot@.entries),
{
    let allowed = recording.can_run_normalized(lowered);
    match NextStep::from_request_name(lowered) {
        Some(asked) => {
            if !allowed {
                Err(step_not_allowed(recording, step))
            } else if asked == NextStep::Retry {
                resolve_retry(snapshot)
            } else {
                Ok(asked)
            }
        },
        None => Err(step_not_allowed(recording, step)),
    }
}

/// The step that a request by name stands for. Upper and lower case are
/// not told apart in the name.
pub fn resolve_requested_step(recording: &Recording, step: &str, snapshot: &DirSnapshot) -> (r:
    Result<NextStep, PipelineError>)
    ensures
        step_view(r) == requested_step(
            recording@,
            step@,
            lowercase_of(step@),
            snapshot@.entries,
        ),
{
    let lowered = to_lowercase(step);
    resolve_normalized(recording, step, lowered.as_str(), snapshot)
}

/// The place of the first recording of this name.
pub fn find_recording(recordings: &[Recording], name: &str) -> (r: Option<usize>)
    ensures
        match r {
            Some(i) => is_first_named(recording_views(recordings@), name@, i as int),
            None => forall|j: int|
                0 <= j < recordings@.len() ==> recording_views(recordings@)[j].name != name@,
        },
{
    let mut i: usize = 0;
    while i < recordings.len()
        invariant
            i <= recordings.len(),
            forall|j: int| 0 <= j < i ==> recording_views(recordings@)[j].name != name@,
        decreases recordings.len() - i,
    {
        if str_eq(recordings[i].name.as_str(), name) {
            return Some(i);
        }
        i = i + 1;
    }
    None
}

/// The name by which a step is called in the notice of its outcome.
pub fn step_label(step: NextStep) -> (r: String)
    ensures
        r@ == outcome_label(step),
{
    match step {
        NextStep::Extract => String::from_str("extract"),
        NextStep::Analyze => String::from_str("analyze"),
        NextStep::SetupRender => String::from_str("setup render"),
        NextStep::Render => String::from_str("render"),
        NextStep::Upload => String::from_str("upload"),
        NextStep::Retry => String::from_str("retry"),
    }
}

/// What the result of a step's process means for the caller.
pub fn conclude_step(label: &str, recording_name: &str, result: &ProcessResult) -> (r: Result<
    String,
    PipelineError,
>)
    ensures
        match r {
            Ok(notice) => outcome(label@, recording_name@, result@) == Ok::<Seq<char>, ErrorView>(
                notice@,
            ),
            Err(e) => outcome(label@, recording_name@, result@) == Err::<Seq<char>, ErrorView>(
                e@,
            ),
        },
{
    if result.success {
        Ok(
            String::from_str("Successfully completed ").concat(label).concat(" for ").concat(
                recording_name,
            ),
        )
    } else {
        Err(
            PipelineError::ProcessFailure {
                step: String::from_str(label),
                stderr: result.stderr.clone(),
            },
        )
    }
}

/// The failure of a step whose process could not be started at all.
pub fn spawn_failure(reason: &str) -> (r: PipelineError)
    ensures
        r@ == ErrorView::ProcessNotStarted(reason@),
{
    PipelineError::ProcessNotStarted(String::from_str(reason))
}

/// The place of the first recording named `name` at or after `from`.
pub open spec fn first_named(rs: Seq<RecordingView>, name: Seq<char>, from: int) -> Option<int>
    decreases rs.len() - from,
{
    if from >= rs.len() {
        None
    } else if rs[from].name == name {
        Some(from)
    } else {
        first_named(rs, name, from + 1)
    }
}

/// The place of the first directory at `path`, at or after `from`.
pub open spec fn first_at_path(children: Seq<CandidateView>, path: Seq<char>, from: int) -> Option<
    int,
>
    decreases children.len() - from,
{
    if from >= children.len() {
        None
    } else if children[from].path == path {
        Some(from)
    } else {
        first_at_path(children, path, from + 1)
    }
}

/// A step that has been chosen for a recording, with what running it takes.
#[derive(Debug)]
pub struct PlannedStep {
    /// The place of the recording in the list it was chosen from.
    pub index: usize,
    pub step: NextStep,
    /// The name by which the step is called in the notice of its outcome.
    pub label: String,
    pub plan: StepPlan,
}

pub struct PlannedStepView {
    pub index: int,
    pub step: NextStep,
    pub label: Seq<char>,
    pub plan: StepPlanView,
}

impl View for PlannedStep {
    type V = PlannedStepView;

    open spec fn view(&self) -> PlannedStepView {
        PlannedStepView {
            index: self.index as int,
            step: self.step,
            label: self.label@,
            plan: self.plan@,
        }
    }
}

pub open spec fn planned_step_view(r: Result<PlannedStep, PipelineError>) -> Result<
    PlannedStepView,
    ErrorView,
> {
    match r {
        Ok(planned) => Ok(planned@),
        Err(e) => Err(e@),
    }
}

/// The builder of tool calls that a configuration gives.
pub open spec fn runner_of(config: AppConfig) -> ProcessRunner {
    ProcessRunner {
        workspace_root: config.cli_paths.workspace_root,
        uv_path: config.cli_paths.uv_path,
    }
}

/// The plan of `step` for the recording at place `i`, made on the snapshot
/// of the directory at the recording's path.
pub open spec fn planned_at(
    i: int,
    step: NextStep,
    label: Seq<char>,
    rs: Seq<RecordingView>,
    source: CandidateView,
    config: AppConfig,
    upload_config_exists: bool,
) -> Result<PlannedStepView, ErrorView> {
    match planned(
        runner_of(config),
        rs[i].path,
        step,
        source.snapshot.entries,
        config@.main_audio_file,
        upload_config_exists,
    ) {
        Ok(plan) => Ok(PlannedStepView { index: i, step, label, plan }),
        Err(e) => Err(e),
    }
}

/// What running the next step of the recording named `name` takes: the
/// recording is the first of that name, its directory the first at the
/// recording's path, and the step the one that follows the recording's
/// stage.
pub open spec fn next_run(
    name: Seq<char>,
    rs: Seq<RecordingView>,
    children: Seq<CandidateView>,
    config: AppConfig,
    upload_config_exists: bool,
) -> Result<PlannedStepView, ErrorView> {
    match first_named(rs, name, 0) {
        None => Err(ErrorView::NotFound(name)),
        Some(i) => match first_at_path(children, rs[i].path, 0) {
            None => Err(ErrorView::NotFound(name)),
            Some(c) => match next_step_of(rs[i].status) {
                None => Err(
                    ErrorView::InvalidState(StateProblemView::NoNextStep { recording: name }),
                ),
                Some(step) => planned_at(
                    i,
                    step,
                    outcome_label(step),
                    rs,
                    children[c],
                    config,
                    upload_config_exists,
                ),
            },
        },
    }
}

/// What running the step that was asked for by `step` takes, for the
/// recording named `name`. `lowered` is `step` in lower case, by which the
/// step is known; the step is called by `step` itself in the notice of its
/// outcome.
pub open spec fn specific_run(
    name: Seq<char>,
    step: Seq<char>,
    lowered: Seq<char>,
    rs: Seq<RecordingView>,
    children: Seq<CandidateView>,
    config: AppConfig,
    upload_config_exists: bool,
) -> Result<PlannedStepView, ErrorView> {
    match first_named(rs, name, 0) {
        None => Err(ErrorView::NotFound(name)),
        Some(i) => match first_at_path(children, rs[i].path, 0) {
            None => Err(ErrorView::NotFound(name)),
            Some(c) => match requested_step(rs[i], step, lowered, children[c].snapshot.entries) {
                Err(e) => Err(e),
                Ok(resolved) => planned_at(
                    i,
                    resolved,
                    step,
                    rs,
                    children[c],
                    config,
                    upload_config_exists,
                ),
            },
        },
    }
}

proof fn lemma_first_named(rs: Seq<RecordingView>, name: Seq<char>, from: int)
    requires
        0 <= from,
    ensures
        match first_named(rs, name, from) {
            Some(i) => from <= i < rs.len() && rs[i].name == name && forall|j: int|
                from <= j < i ==> rs[j].name != name,
            None => forall|j: int| from <= j < rs.len() ==> rs[j].name != name,
        },
    decreases rs.len() - from,
{
    if from < rs.len() && rs[from].name != name {
        lemma_first_named(rs, name, from + 1);
    }
}

/// The first recording of a name is one of that name, and none of that name
/// stands before it.
pub proof fn first_named_is_first(rs: Seq<RecordingView>, name: Seq<char>)
    ensures
        match first_named(rs, name, 0) {
            Some(i) => is_first_named(rs, name, i),
            None => forall|j: int| 0 <= j < rs.len() ==> rs[j].name != name,
        },
{
    lemma_first_named(rs, name, 0);
}

/// The place of the first directory at `path` among those below the root.
fn find_source(root: &RootSnapshot, path: &str) -> (r: Option<usize>)
    ensures
        match r {
            Some(c) => c < root.children.len() && first_at_path(
                candidate_views(root.children@),
                path@,
                0,
            ) == Some(c as int),
            None => first_at_path(candidate_views(root.children@), path@, 0) is None,
        },
{
    let mut i: usize = 0;
    while i < root.children.len()
        invariant
            i <= root.children.len(),
            first_at_path(candidate_views(root.children@), path@, 0) == first_at_path(
                candidate_views(root.children@),
                path@,
                i as int,
            ),
        decreases root.children.len() - i,
    {
        if str_eq(root.children[i].path.as_str(), path) {
            return Some(i);
        }
        i = i + 1;
    }
    None
}

/// The place of the first recording of this name, and of the first directory
/// at that recording's path.
fn locate(recordings: &[Recording], root: &RootSnapshot, name: &str) -> (r: Result<
    (usize, usize),
    PipelineError,
>)
    ensures
        match r {
            Ok((i, c)) => {
                &&& i < recordings@.len()
                &&& c < root.children@.len()
                &&& first_named(recording_views(recordings@), name@, 0) == Some(i as int)
                &&& first_at_path(candidate_views(root.children@), recordings@[i as int].path@, 0)
                    == Some(c as int)
            },
            Err(e) => {
                &&& e@ == ErrorView::NotFound(name@)
                &&& match first_named(recording_views(recordings@), name@, 0) {
                    None => true,
                    Some(i) => first_at_path(
                        candidate_views(root.children@),
                        recording_views(recordings@)[i].path,
                        0,
                    ) is None,
                }
            },
        },
{
    proof {
        lemma_first_named(recording_views(recordings@), name@, 0);
    }
    match find_recording(recordings, name) {
        None => Err(PipelineError::NotFound(String::from_str(name))),
        Some(i) => {
            match find_source(root, recordings[i].path.as_str()) {
                None => Err(PipelineError::NotFound(String::from_str(name))),
                Some(c) => Ok((i, c)),
            }
        },
    }
}

/// What running the next step of the recording named `recording_name`
/// takes. `recordings` are the recordings that a scan of `root` gave, and
/// the step is planned on what the recording's directory held then.
pub fn run_next_step(
    recording_name: &str,
    recordings: &[Recording],
    root: &RootSnapshot,
    config: &AppConfig,
    upload_config_exists: bool,
) -> (r: Result<PlannedStep, PipelineError>)
    ensures
        planned_step_view(r) == next_run(
            recording_name@,
            recording_views(recordings@),
            candidate_views(root.children@),
            *config,
            upload_config_exists,
        ),
{
    let (i, c) = match locate(recordings, root, recording_name) {
        Ok(found) => found,
        Err(e) => {
            return Err(e);
        },
    };
    let step = match recordings[i].get_next_step() {
        Some(step) => step,
        None => {
            return Err(
                PipelineError::InvalidState(
                    StateProblem::NoNextStep { recording: String::from_str(recording_name) },
                ),
            );
        },
    };
    match plan_step(&recordings[i], step, &root.children[c].snapshot, config, upload_config_exists) {
        Ok(plan) => Ok(PlannedStep { index: i, step, label: step_label(step), plan }),
        Err(e) => Err(e),
    }
}

/// What running the step asked for by `lowered` takes, which is `step` in
/// lower case already.
pub fn run_specific_normalized(
    recording_name: &str,
    step: &str,
    lowered: &str,
    recordings: &[Recording],
    root: &RootSnapshot,
    config: &AppConfig,
    upload_config_exists: bool,
) -> (r: Result<PlannedStep, PipelineError>)
    ensures
        planned_step_view(r) == specific_run(
            recording_name@,
            step@,
            lowered@,
            recording_views(recordings@),
            candidate_views(root.children@),
            *config,
            upload_config_exists,
        ),
{
    let (i, c) = match locate(recordings, root, recording_name) {
        Ok(found) => found,
        Err(e) => {
            return Err(e);
        },
    };
    let snapshot = &root.children[c].snapshot;
    let resolved = match resolve_normalized(&recordings[i], step, lowered, snapshot) {
        Ok(resolved) => resolved,
        Err(e) => {
            return Err(e);
        },
    };
    match plan_step(&recordings[i], resolved, snapshot, config, upload_config_exists) {
        Ok(plan) => Ok(
            PlannedStep { index: i, step: resolved, label: String::from_str(step), plan },
        ),
        Err(e) => Err(e),
    }
}

/// What running the step asked for by name takes, for the recording named
/// `recording_name`. The step has to be allowed at the recording's stage;
/// `retry` is resolved by what the recording's directory holds. Upper and
/// lower case are not told apart in the step's name.
pub fn run_specific_step(
    recording_name: &str,
    step: &str,
    recordings: &[Recording],
    root: &RootSnapshot,
    config: &AppConfig,
    upload_config_exists: bool,
) -> (r: Result<PlannedStep, PipelineError>)
    ensures
        planned_step_view(r) == specific_run(
            recording_name@,
            step@,
            lowercase_of(step@),
            recording_views(recordings@),
            candidate_views(root.children@),
            *config,
            upload_config_exists,
        ),
{
    let lowered = to_lowercase(step);
    run_specific_normalized(
        recording_name,
        step,
        lowered.as_str(),
        recordings,
        root,
        config,
        upload_config_exists,
    )
}

/// A retry is resolved to the render wherever `blender/render` is there,
/// whatever else the directory holds.
pub proof fn render_directory_decides_retry(entries: Seq<EntryView>)
    requires
        listed(entries, "blender/render"@),
    ensures
        retry_target(entries) == Ok::<NextStep, ErrorView>(NextStep::Render),
{
}

/// A retry is never resolved to the extraction, to the upload or to
/// another retry.
pub proof fn retry_resolves_to_three_steps(entries: Seq<EntryView>)
    ensures
        retry_target(entries) is Ok ==> {
            ||| retry_target(entries)->Ok_0 == NextStep::Render
            ||| retry_target(entries)->Ok_0 == NextStep::SetupRender
            ||| retry_target(entries)->Ok_0 == NextStep::Analyze
        },
        retry_target(entries) is Err <==> !listed(entries, "blender/render"@) && !listed(
            entries,
            "blender"@,
        ) && !listed(entries, "analysis"@) && !listed(entries, "extracted"@),
{
}

/// A retry is resolved only for a recording that has failed.
pub proof fn retry_needs_failure(recording: RecordingView, step: Seq<char>, entries: Seq<EntryView>)
    requires
        requested_step(recording, step, "retry"@, entries) is Ok,
    ensures
        recording.status is Failed,
{
}

/// A request that is honoured was allowed at the recording's stage, and it
/// is honoured with a step that can be planned as it is.
pub proof fn honoured_request_was_allowed(
    recording: RecordingView,
    step: Seq<char>,
    lowered: Seq<char>,
    entries: Seq<EntryView>,
)
    requires
        requested_step(recording, step, lowered, entries) is Ok,
    ensures
        step_allowed(recording.status, lowered),
        requested_step(recording, step, lowered, entries)->Ok_0 != NextStep::Retry,
{
    retry_resolves_to_three_steps(entries);
}

/// A request that is refused for the recording's stage is refused with the
/// step's name as it was given, the recording's name and its status.
pub proof fn refusal_names_step_and_status(
    recording: RecordingView,
    step: Seq<char>,
    lowered: Seq<char>,
    entries: Seq<EntryView>,
)
    requires
        !step_allowed(recording.status, lowered),
    ensures
        requested_step(recording, step, lowered, entries) == Err::<NextStep, ErrorView>(
            not_allowed(recording, step),
        ),
{
}

/// Where the extraction is asked for and allowed, the request stands for
/// the extraction, which is then refused as another tool's work.
pub proof fn extraction_is_asked_for_by_name(
    recording: RecordingView,
    step: Seq<char>,
    entries: Seq<EntryView>,
    runner: ProcessRunner,
    main_audio_file: Seq<char>,
    upload_config_exists: bool,
)
    requires
        recording.status is Recorded || recording.status is Failed,
    ensures
        requested_step(recording, step, "extract"@, entries) == Ok::<NextStep, ErrorView>(
            NextStep::Extract,
        ),
        planned(
            runner,
            recording.path,
            NextStep::Extract,
            entries,
            main_audio_file,
            upload_config_exists,
        ) == Err::<StepPlanView, ErrorView>(
            ErrorView::InvalidState(StateProblemView::ExtractNotImplemented),
        ),
{
    reveal_strlit("extract");
    reveal_strlit("retry");
    assert("extract"@.len() != "retry"@.len());
}

/// Extraction, rendering and an unresolved retry never come to a plan,
/// whatever the directory holds.
pub proof fn three_steps_are_never_planned(
    runner: ProcessRunner,
    recording_path: Seq<char>,
    step: NextStep,
    entries: Seq<EntryView>,
    main_audio_file: Seq<char>,
    upload_config_exists: bool,
)
    requires
        step == NextStep::Extract || step == NextStep::Render || step == NextStep::Retry,
    ensures
        planned(
            runner,
            recording_path,
            step,
            entries,
            main_audio_file,
            upload_config_exists,
        ) is Err,
{
}

/// Several extracted audio files, none of which the configuration picks,
/// fail the render setup, and the failure lists them all.
pub proof fn unpicked_audio_is_ambiguous(
    runner: ProcessRunner,
    recording_path: Seq<char>,
    entries: Seq<EntryView>,
    main_audio_file: Seq<char>,
)
    requires
        listed(entries, "analysis"@),
        listed_dir(entries, "extracted"@),
        audio_files(entries).len() > 1,
        main_audio_file.len() == 0 || !audio_files(entries).contains(main_audio_file),
    ensures
        setup_render_plan(runner, recording_path, entries, main_audio_file) == Err::<
            StepPlanView,
            ErrorView,
        >(ErrorView::AmbiguousConfiguration(audio_files(entries))),
{
    let i = choose|i: int|
        0 <= i < entries.len() && #[trigger] entries[i].path == "extracted"@ && entries[i].kind
            == crate::snapshot::EntryKind::Directory;
    assert(entries[i].path == "extracted"@);
}

} // verus!
