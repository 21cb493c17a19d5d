//! The command lines of the outside tools, and what follows from their
//! results. The tools themselves are run elsewhere.

use crate::paths::{join_path, joined};
use crate::text::{str_eq, texts};
use vstd::prelude::*;
use vstd::string::*;

verus! {

/// What a finished process left behind.
#[derive(Debug)]
pub struct ProcessResult {
    /// True exactly where the process ended with code 0.
    pub success: bool,
    pub stdout: String,
    pub stderr: String,
    /// `None` where the process ended without a code.
    pub exit_code: Option<i32>,
}

pub struct ProcessResultView {
    pub success: bool,
    pub stdout: Seq<char>,
    pub stderr: Seq<char>,
    pub exit_code: Option<i32>,
}

impl View for ProcessResult {
    type V = ProcessResultView;

    open spec fn view(&self) -> ProcessResultView {
        ProcessResultView {
            success: self.success,
            stdout: self.stdout@,
            stderr: self.stderr@,
            exit_code: self.exit_code,
        }
    }
}

impl ProcessResultView {
    /// The result says that the process succeeded exactly where it says that
    /// the process ended with code 0.
    pub open spec fn well_formed(self) -> bool {
        self.success == (self.exit_code == Some(0i32))
    }
}

impl Clone for ProcessResult {
    fn clone(&self) -> (r: Self)
        ensures
            r@ == self@,
    {
        ProcessResult {
            success: self.success,
            stdout: self.stdout.clone(),
            stderr: self.stderr.clone(),
            exit_code: self.exit_code,
        }
    }
}

impl ProcessResult {
    /// The result of a process that ended with `exit_code` and wrote the two
    /// texts.
    pub fn from_output(exit_code: Option<i32>, stdout: String, stderr: String) -> (r: Self)
        ensures
            r@ == (ProcessResultView {
                success: exit_code == Some(0i32),
                stdout: stdout@,
                stderr: stderr@,
                exit_code,
            }),
            r@.well_formed(),
    {
        let success = match exit_code {
            Some(code) => code == 0,
            None => false,
        };
        ProcessResult { success, stdout, stderr, exit_code }
    }
}

/// One call of an outside program.
#[derive(Debug)]
pub struct Invocation {
    pub program: String,
    pub args: Vec<String>,
    /// The directory to run the program in; `None` for the caller's own.
    pub working_dir: Option<String>,
}

pub struct InvocationView {
    pub program: Seq<char>,
    pub args: Seq<Seq<char>>,
    pub working_dir: Option<Seq<char>>,
}

impl View for Invocation {
    type V = InvocationView;

    open spec fn view(&self) -> InvocationView {
        InvocationView {
            program: self.program@,
            args: texts(self.args@),
            working_dir: match self.working_dir {
                Some(dir) => Some(dir@),
                None => None,
            },
        }
    }
}

/// How a render setup begins: the configuration for `preset` is generated
/// by `generate`, which should leave the file at `config_path` behind.
/// `ProcessRunner::after_generate_config` says how to go on from there.
#[derive(Debug)]
pub struct RenderSetupPlan {
    pub generate: Invocation,
    pub preset: String,
    pub config_path: String,
}

pub struct RenderSetupPlanView {
    pub generate: InvocationView,
    pub preset: Seq<char>,
    pub config_path: Seq<char>,
}

impl View for RenderSetupPlan {
    type V = RenderSetupPlanView;

    open spec fn view(&self) -> RenderSetupPlanView {
        RenderSetupPlanView {
            generate: self.generate@,
            preset: self.preset@,
            config_path: self.config_path@,
        }
    }
}

/// What to do once the configuration for a render setup was generated.
#[derive(Debug)]
pub enum RenderSetupNext {
    /// Nothing more is run, and this is the result of the whole setup.
    Finished(ProcessResult),
    /// The project setup is run next, and its result is that of the whole
    /// setup.
    RunSetup(Invocation),
}

pub enum RenderSetupNextView {
    Finished(ProcessResultView),
    RunSetup(InvocationView),
}

impl View for RenderSetupNext {
    type V = RenderSetupNextView;

    open spec fn view(&self) -> RenderSetupNextView {
        match self {
            RenderSetupNext::Finished(result) => RenderSetupNextView::Finished(result@),
            RenderSetupNext::RunSetup(command) => RenderSetupNextView::RunSetup(command@),
        }
    }
}

/// One check that a tool is there: the command to run, and the error to
/// report where the command does not succeed.
#[derive(Debug)]
pub struct ToolCheck {
    pub command: Invocation,
    pub failure: String,
}

pub struct ToolCheckView {
    pub command: InvocationView,
    pub failure: Seq<char>,
}

impl View for ToolCheck {
    type V = ToolCheckView;

    open spec fn view(&self) -> ToolCheckView {
        ToolCheckView { command: self.command@, failure: self.failure@ }
    }
}

pub open spec fn tool_check_views(checks: Seq<ToolCheck>) -> Seq<ToolCheckView> {
    checks.map_values(|c: ToolCheck| c@)
}

/// The arguments that make the package runner run `tool` of `package`.
pub open spec fn run_tool(package: Seq<char>, tool: Seq<char>) -> Seq<Seq<char>> {
    seq!["run"@, "--package"@, package, tool]
}

/// The name of the configuration file that is generated for a preset.
pub open spec fn config_file_name(preset: Seq<char>) -> Seq<char> {
    "animation_config_"@ + preset + ".yaml"@
}

/// The preset that stands for an animation mode of the earlier naming.
pub open spec fn preset_of_mode(mode: Seq<char>) -> Seq<char> {
    if mode == "beat-switch"@ {
        "beat-switch"@
    } else if mode == "energy-pulse"@ {
        "music-video"@
    } else if mode == "multi-pip"@ {
        "vintage"@
    } else {
        "beat-switch"@
    }
}

/// Builds the calls of the outside tools. Every tool is run through the
/// package runner at `uv_path`, from the workspace root.
#[derive(Debug)]
pub struct ProcessRunner {
    pub workspace_root: String,
    pub uv_path: String,
}

impl ProcessRunner {
    /// A call of the package runner from the workspace root.
    pub open spec fn call(&self, args: Seq<Seq<char>>) -> InvocationView {
        InvocationView {
            program: self.uv_path@,
            args,
            working_dir: Some(self.workspace_root@),
        }
    }

    /// The audio analysis of one extracted audio file, written to the
    /// recording's `analysis` directory.
    pub open spec fn analyze_call(
        &self,
        recording_path: Seq<char>,
        audio_file: Seq<char>,
    ) -> InvocationView {
        self.call(
            run_tool("beatrix"@, "beatrix"@) + seq![
                joined(joined(recording_path, "extracted"@), audio_file),
                joined(recording_path, "analysis"@),
            ],
        )
    }

    /// The generation of the configuration file for a preset, with the main
    /// audio file named where one is given.
    pub open spec fn generate_config_call(
        &self,
        recording_path: Seq<char>,
        preset: Seq<char>,
        main_audio: Option<Seq<char>>,
    ) -> InvocationView {
        let fixed = run_tool("cinemon"@, "cinemon-generate-config"@) + seq![
            recording_path,
            "--preset"@,
            preset,
        ];
        match main_audio {
            Some(audio) => self.call(fixed + seq!["--main-audio"@, audio]),
            None => self.call(fixed),
        }
    }

    /// The project setup from a generated configuration file.
    pub open spec fn blend_setup_call(
        &self,
        recording_path: Seq<char>,
        config_path: Seq<char>,
    ) -> InvocationView {
        self.call(
            run_tool("cinemon"@, "cinemon-blend-setup"@) + seq![
                recording_path,
                "--config"@,
                config_path,
            ],
        )
    }

    /// The beginning of a render setup with a preset.
    pub open spec fn render_setup(
        &self,
        recording_path: Seq<char>,
        preset: Seq<char>,
        main_audio: Option<Seq<char>>,
    ) -> RenderSetupPlanView {
        RenderSetupPlanView {
            generate: self.generate_config_call(recording_path, preset, main_audio),
            preset,
            config_path: joined(recording_path, config_file_name(preset)),
        }
    }

    pub open spec fn list_presets_call(&self) -> InvocationView {
        self.call(run_tool("cinemon"@, "cinemon-generate-config"@) + seq!["--list-presets"@])
    }

    /// The upload of one video with a configuration file.
    pub open spec fn upload_call(
        &self,
        video_path: Seq<char>,
        config_path: Seq<char>,
    ) -> InvocationView {
        self.call(run_tool("medusa"@, "upload"@) + seq![video_path, "--config"@, config_path])
    }

    /// What follows the generation of the configuration: its result as it
    /// is where it failed; a failure of its own where the file it should
    /// have written is not there; and else the project setup.
    pub open spec fn after_config(
        &self,
        recording_path: Seq<char>,
        preset: Seq<char>,
        generated: ProcessResultView,
        config_exists: bool,
    ) -> RenderSetupNextView {
        let config_path = joined(recording_path, config_file_name(preset));
        if !generated.success {
            RenderSetupNextView::Finished(generated)
        } else if !config_exists {
            RenderSetupNextView::Finished(
                ProcessResultView {
                    success: false,
                    stdout: Seq::empty(),
                    stderr: "Generated config file not found: "@ + config_path,
                    exit_code: Some(1i32),
                },
            )
        } else {
            RenderSetupNextView::RunSetup(self.blend_setup_call(recording_path, config_path))
        }
    }

    /// The checks that the tools are there, in the order to make them: the
    /// package runner itself, then each package of the workspace.
    pub open spec fn checks(&self) -> Seq<ToolCheckView> {
        seq![
            ToolCheckView {
                command: InvocationView {
                    program: self.uv_path@,
                    args: seq!["--version"@],
                    working_dir: None,
                },
                failure: "UV tool not found at: "@ + self.uv_path@,
            },
            self.package_check("beatrix"@),
            self.package_check("cinemon"@),
            self.package_check("medusa"@),
        ]
    }

    pub open spec fn package_check(&self, package: Seq<char>) -> ToolCheckView {
        ToolCheckView {
            command: self.call(seq!["run"@, "--package"@, package, "--help"@]),
            failure: "Package '"@ + package + "' not available in workspace"@,
        }
    }

    pub fn new(workspace_root: String, uv_path: String) -> (r: Self)
        ensures
            r.workspace_root == workspace_root,
            r.uv_path == uv_path,
    {
        ProcessRunner { workspace_root, uv_path }
    }

    /// A call of the package runner from the workspace root.
    fn invoke(&self, args: Vec<String>) -> (r: Invocation)
        ensures
            r@ == self.call(texts(args@)),
    {
        Invocation {
            program: self.uv_path.clone(),
            args,
            working_dir: Some(self.workspace_root.clone()),
        }
    }

    /// The arguments that run `tool` of `package`.
    fn tool_args(package: &str, tool: &str) -> (r: Vec<String>)
        ensures
            texts(r@) == run_tool(package@, tool@),
    {
        let mut args: Vec<String> = Vec::new();
        args.push(String::from_str("run"));
        args.push(String::from_str("--package"));
        args.push(String::from_str(package));
        args.push(String::from_str(tool));
        assert(texts(args@) =~= run_tool(package@, tool@));
        args
    }

    /// The call that analyses one extracted audio file.
    pub fn run_beatrix_analyze(&self, recording_path: &str, audio_file: &str) -> (r: Invocation)
        ensures
            r@ == self.analyze_call(recording_path@, audio_file@),
    {
        let extracted = join_path(recording_path, "extracted");
        let audio_path = join_path(extracted.as_str(), audio_file);
        let analysis_dir = join_path(recording_path, "analysis");
        let mut args = Self::tool_args("beatrix", "beatrix");
        let ghost fixed = texts(args@);
        args.push(audio_path);
        args.push(analysis_dir);
        assert(texts(args@) =~= fixed + seq![
            joined(joined(recording_path@, "extracted"@), audio_file@),
            joined(recording_path@, "analysis"@),
        ]);
        self.invoke(args)
    }

    /// The call that generates the configuration file for a preset.
    pub fn run_cinemon_generate_config(
        &self,
        recording_path: &str,
        preset: &str,
        main_audio: Option<&str>,
    ) -> (r: Invocation)
        ensures
            r@ == self.generate_config_call(
                recording_path@,
                preset@,
                match main_audio {
                    Some(audio) => Some(audio@),
                    None => None,
                },
            ),
    {
        let mut args = Self::tool_args("cinemon", "cinemon-generate-config");
        let ghost tool = texts(args@);
        args.push(String::from_str(recording_path));
        args.push(String::from_str("--preset"));
        args.push(String::from_str(preset));
        let ghost fixed = tool + seq![recording_path@, "--preset"@, preset@];
        assert(texts(args@) =~= fixed);
        match main_audio {
            Some(audio) => {
                args.push(String::from_str("--main-audio"));
                args.push(String::from_str(audio));
                assert(texts(args@) =~= fixed + seq!["--main-audio"@, audio@]);
            },
            None => {},
        }
        self.invoke(args)
    }

    /// The call that sets up the project from a generated configuration
    /// file.
    pub fn cinemon_blend_setup_command(&self, recording_path: &str, config_path: &str) -> (r:
        Invocation)
        ensures
            r@ == self.blend_setup_call(recording_path@, config_path@),
    {
        let mut args = Self::tool_args("cinemon", "cinemon-blend-setup");
        let ghost tool = texts(args@);
        args.push(String::from_str(recording_path));
        args.push(String::from_str("--config"));
        args.push(String::from_str(config_path));
        assert(texts(args@) =~= tool + seq![recording_path@, "--config"@, config_path@]);
        self.invoke(args)
    }

    /// The call that lists the presets.
    pub fn list_cinemon_presets(&self) -> (r: Invocation)
        ensures
            r@ == self.list_presets_call(),
    {
        let mut args = Self::tool_args("cinemon", "cinemon-generate-config");
        let ghost tool = texts(args@);
        args.push(String::from_str("--list-presets"));
        assert(texts(args@) =~= tool + seq!["--list-presets"@]);
        self.invoke(args)
    }

    /// The call that uploads one video.
    pub fn run_medusa_upload(&self, video_path: &str, config_path: &str) -> (r: Invocation)
        ensures
            r@ == self.upload_call(video_path@, config_path@),
    {
        let mut args = Self::tool_args("medusa", "upload");
        let ghost tool = texts(args@);
        args.push(String::from_str(video_path));
        args.push(String::from_str("--config"));
        args.push(String::from_str(config_path));
        assert(texts(args@) =~= tool + seq![video_path@, "--config"@, config_path@]);
        self.invoke(args)
    }

    /// The preset that stands for an animation mode of the earlier naming;
    /// a mode that is not known stands for the first preset.
    pub fn preset_for_mode(animation_mode: &str) -> (r: String)
        ensures
            r@ == preset_of_mode(animation_mode@),
    {
        if str_eq(animation_mode, "beat-switch") {
            String::from_str("beat-switch")
        } else if str_eq(animation_mode, "energy-pulse") {
            String::from_str("music-video")
        } else if str_eq(animation_mode, "multi-pip") {
            String::from_str("vintage")
        } else {
            String::from_str("beat-switch")
        }
    }

    /// Where the configuration file for a preset is written.
    pub fn config_path(recording_path: &str, preset: &str) -> (r: String)
        ensures
            r@ == joined(recording_path@, config_file_name(preset@)),
    {
        let name = String::from_str("animation_config_").concat(preset).concat(".yaml");
        join_path(recording_path, name.as_str())
    }

    /// The beginning of a render setup with a preset: the call that
    /// generates the configuration, and where its file is to be looked for
    /// afterwards.
    pub fn run_cinemon_render(
        &self,
        recording_path: &str,
        preset: &str,
        main_audio: Option<&str>,
    ) -> (r: RenderSetupPlan)
        ensures
            r@ == self.render_setup(
                recording_path@,
                preset@,
                match main_audio {
                    Some(audio) => Some(audio@),
                    None => None,
                },
            ),
    {
        RenderSetupPlan {
            generate: self.run_cinemon_generate_config(recording_path, preset, main_audio),
            preset: String::from_str(preset),
            config_path: Self::config_path(recording_path, preset),
        }
    }

    /// The beginning of a render setup for an animation mode of the earlier
    /// naming, which is taken for the preset that stands for it.
    pub fn run_cinemon_render_with_audio(
        &self,
        recording_path: &str,
        animation_mode: &str,
        main_audio: Option<&str>,
    ) -> (r: RenderSetupPlan)
        ensures
            r@ == self.render_setup(
                recording_path@,
                preset_of_mode(animation_mode@),
                match main_audio {
                    Some(audio) => Some(audio@),
                    None => None,
                },
            ),
    {
        let preset = Self::preset_for_mode(animation_mode);
        self.run_cinemon_render(recording_path, preset.as_str(), main_audio)
    }

    /// What follows the generation of the configuration for a render setup.
    /// `generated` is the result of the generation, and `config_exists` says
    /// whether the file it should have written is there.
    pub fn after_generate_config(
        &self,
        recording_path: &str,
        preset: &str,
        generated: ProcessResult,
        config_exists: bool,
    ) -> (r: RenderSetupNext)
        ensures
            r@ == self.after_config(recording_path@, preset@, generated@, config_exists),
    {
        if !generated.success {
            return RenderSetupNext::Finished(generated);
        }
        let config_path = Self::config_path(recording_path, preset);
        if !config_exists {
            return RenderSetupNext::Finished(
                ProcessResult {
                    success: false,
                    stdout: String::new(),
                    stderr: String::from_str("Generated config file not found: ").concat(
                        config_path.as_str(),
                    ),
                    exit_code: Some(1),
                },
            );
        }
        RenderSetupNext::RunSetup(
            self.cinemon_blend_setup_command(recording_path, config_path.as_str()),
        )
    }

    /// The check that one package of the workspace is there.
    fn package_tool_check(&self, package: &str) -> (r: ToolCheck)
        ensures
            r@ == self.package_check(package@),
    {
        let mut args: Vec<String> = Vec::new();
        args.push(String::from_str("run"));
        args.push(String::from_str("--package"));
        args.push(String::from_str(package));
        args.push(String::from_str("--help"));
        assert(texts(args@) =~= seq!["run"@, "--package"@, package@, "--help"@]);
        ToolCheck {
            command: self.invoke(args),
            failure: String::from_str("Package '").concat(package).concat(
                "' not available in workspace",
            ),
        }
    }

    /// The checks that the tools are there, in the order to make them. The
    /// tools are there where every command succeeds; the first one that does
    /// not gives the error.
    pub fn validate_cli_tools(&self) -> (r: Vec<ToolCheck>)
        ensures
            tool_check_views(r@) == self.checks(),
    {
        let mut version_args: Vec<String> = Vec::new();
        version_args.push(String::from_str("--version"));
        assert(texts(version_args@) =~= seq!["--version"@]);
        let version = ToolCheck {
            command: Invocation {
                program: self.uv_path.clone(),
                args: version_args,
                working_dir: None,
            },
            failure: String::from_str("UV tool not found at: ").concat(self.uv_path.as_str()),
        };
        let mut checks: Vec<ToolCheck> = Vec::new();
        checks.push(version);
        checks.push(self.package_tool_check("beatrix"));
        checks.push(self.package_tool_check("cinemon"));
        checks.push(self.package_tool_check("medusa"));
        assert(tool_check_views(checks@) =~= self.checks());
        checks
    }
}

/// Where the generation of the configuration failed, the setup ends with
/// that very result, and the project setup is not run.
pub proof fn failed_generation_ends_setup(
    runner: ProcessRunner,
    recording_path: Seq<char>,
    preset: Seq<char>,
    generated: ProcessResultView,
    config_exists: bool,
)
    requires
        !generated.success,
    ensures
        runner.after_config(recording_path, preset, generated, config_exists)
            == RenderSetupNextView::Finished(generated),
{
}

/// A render setup that ends without the project setup ends with a result
/// that is well formed, provided that the generation's result was.
pub proof fn setup_ends_well_formed(
    runner: ProcessRunner,
    recording_path: Seq<char>,
    preset: Seq<char>,
    generated: ProcessResultView,
    config_exists: bool,
)
    requires
        generated.well_formed(),
    ensures
        match runner.after_config(recording_path, preset, generated, config_exists) {
            RenderSetupNextView::Finished(result) => result.well_formed() && !result.success,
            RenderSetupNextView::RunSetup(_) => generated.success && config_exists,
        },
{
}

/// The project setup is run only after a generation that succeeded and left
/// its file behind.
pub proof fn setup_needs_generated_config(
    runner: ProcessRunner,
    recording_path: Seq<char>,
    preset: Seq<char>,
    generated: ProcessResultView,
    config_exists: bool,
)
    ensures
        runner.after_config(recording_path, preset, generated, config_exists) is RunSetup <==> (
        generated.success && config_exists),
{
}

} // verus!
