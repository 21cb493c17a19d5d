//! The configuration: where the recordings and the workspace are, and which
//! audio file is the main one. It is made once, from what the environment
//! held at start, and handed to whoever needs it.

use crate::process_runner::ProcessRunner;
use vstd::prelude::*;
use vstd::string::*;

verus! {

/// The text of an optional string.
pub open spec fn opt_text(o: Option<String>) -> Option<Seq<char>> {
    match o {
        Some(s) => Some(s@),
        None => None,
    }
}

/// Where the tools are.
#[derive(Debug)]
pub struct CliPaths {
    /// The package runner through which every tool is run.
    pub uv_path: String,
    /// The directory the tools are run from.
    pub workspace_root: String,
}

#[derive(Debug)]
pub struct AppConfig {
    /// The directory that holds the recordings.
    pub recordings_path: String,
    pub cli_paths: CliPaths,
    /// The name of the audio file to take where a recording has several;
    /// empty where none is configured.
    pub main_audio_file: String,
}

pub struct ConfigView {
    pub recordings_path: Seq<char>,
    pub uv_path: Seq<char>,
    pub workspace_root: Seq<char>,
    pub main_audio_file: Seq<char>,
}

impl View for AppConfig {
    type V = ConfigView;

    open spec fn view(&self) -> ConfigView {
        ConfigView {
            recordings_path: self.recordings_path@,
            uv_path: self.cli_paths.uv_path@,
            workspace_root: self.cli_paths.workspace_root@,
            main_audio_file: self.main_audio_file@,
        }
    }
}

/// The tool paths as they are shown.
#[derive(Debug)]
pub struct CliPathsDto {
    pub uv_path: String,
    pub workspace_root: String,
}

/// The configuration as it is shown.
#[derive(Debug)]
pub struct AppConfigDto {
    pub recordings_path: String,
    pub cli_paths: CliPathsDto,
    pub main_audio_file: String,
}

impl View for AppConfigDto {
    type V = ConfigView;

    open spec fn view(&self) -> ConfigView {
        ConfigView {
            recordings_path: self.recordings_path@,
            uv_path: self.cli_paths.uv_path@,
            workspace_root: self.cli_paths.workspace_root@,
            main_audio_file: self.main_audio_file@,
        }
    }
}

/// What the environment held when the process started. A variable that
/// was not set is `None`.
#[derive(Debug)]
pub struct Environment {
    /// `FERMATA_RECORDINGS_PATH`.
    pub recordings_path: Option<String>,
    /// `HOME`.
    pub home: Option<String>,
    /// `FERMATA_WORKSPACE_ROOT`.
    pub workspace_root: Option<String>,
    /// The directory the process was started in, where it is known.
    pub current_dir: Option<String>,
    /// `FERMATA_MAIN_AUDIO`.
    pub main_audio: Option<String>,
}

pub struct EnvironmentView {
    pub recordings_path: Option<Seq<char>>,
    pub home: Option<Seq<char>>,
    pub workspace_root: Option<Seq<char>>,
    pub current_dir: Option<Seq<char>>,
    pub main_audio: Option<Seq<char>>,
}

impl View for Environment {
    type V = EnvironmentView;

    open spec fn view(&self) -> EnvironmentView {
        EnvironmentView {
            recordings_path: opt_text(self.recordings_path),
            home: opt_text(self.home),
            workspace_root: opt_text(self.workspace_root),
            current_dir: opt_text(self.current_dir),
            main_audio: opt_text(self.main_audio),
        }
    }
}

/// `value` where it is set, else `fallback`.
pub open spec fn or_else(value: Option<Seq<char>>, fallback: Seq<char>) -> Seq<char> {
    match value {
        Some(v) => v,
        None => fallback,
    }
}

/// The configuration that an environment gives. The recordings are where
/// their variable says, else in `Videos/obs-recordings` below the home
/// directory, or below `/tmp` without one. The workspace root is where its
/// variable says, else the directory the process was started in. The main
/// audio file is the one its variable names, else a fixed file name.
pub open spec fn configured(env: EnvironmentView) -> ConfigView {
    ConfigView {
        recordings_path: or_else(
            env.recordings_path,
            or_else(env.home, "/tmp"@) + "/Videos/obs-recordings"@,
        ),
        uv_path: "uv"@,
        workspace_root: or_else(env.workspace_root, or_else(env.current_dir, Seq::empty())),
        main_audio_file: or_else(
            env.main_audio,
            "Przechwytywanie wej\u{15b}cia d\u{17a}wi\u{119}ku (PulseAudio).m4a"@,
        ),
    }
}

/// A copy of the optional text, or of the fallback.
fn text_or(value: &Option<String>, fallback: &str) -> (r: String)
    ensures
        r@ == or_else(opt_text(*value), fallback@),
{
    match value {
        Some(v) => v.clone(),
        None => String::from_str(fallback),
    }
}

impl AppConfig {
    /// The configuration that the environment gives.
    pub fn from_environment(env: &Environment) -> (r: Self)
        ensures
            r@ == configured(env@),
    {
        let recordings_path = match &env.recordings_path {
            Some(path) => path.clone(),
            None => text_or(&env.home, "/tmp").concat("/Videos/obs-recordings"),
        };
        let workspace_root = match &env.workspace_root {
            Some(path) => path.clone(),
            None => {
                let cwd = text_or(&env.current_dir, "");
                proof {
                    reveal_strlit("");
                    assert(""@ =~= Seq::<char>::empty());
                }
                cwd
            },
        };
        let main_audio_file = text_or(
            &env.main_audio,
            "Przechwytywanie wej\u{15b}cia d\u{17a}wi\u{119}ku (PulseAudio).m4a",
        );
        AppConfig {
            recordings_path,
            cli_paths: CliPaths { uv_path: String::from_str("uv"), workspace_root },
            main_audio_file,
        }
    }

    /// The configuration as it is shown.
    pub fn to_dto(&self) -> (r: AppConfigDto)
        ensures
            r@ == self@,
    {
        AppConfigDto {
            recordings_path: self.recordings_path.clone(),
            cli_paths: CliPathsDto {
                uv_path: self.cli_paths.uv_path.clone(),
                workspace_root: self.cli_paths.workspace_root.clone(),
            },
            main_audio_file: self.main_audio_file.clone(),
        }
    }

    /// The builder of tool calls for this configuration.
    pub fn runner(&self) -> (r: ProcessRunner)
        ensures
            r.workspace_root@ == self@.workspace_root,
            r.uv_path@ == self@.uv_path,
    {
        ProcessRunner::new(self.cli_paths.workspace_root.clone(), self.cli_paths.uv_path.clone())
    }
}

/// Why a path cannot hold the recordings.
#[derive(Debug, Clone, Copy, PartialEq, Eq, Structural)]
pub enum PathError {
    DoesNotExist,
    NotADirectory,
}

impl PathError {
    pub open spec fn text(self, path: Seq<char>) -> Seq<char> {
        match self {
            PathError::DoesNotExist => "Path does not exist: "@ + path,
            PathError::NotADirectory => "Path is not a directory: "@ + path,
        }
    }

    pub fn message(&self, path: &str) -> (r: String)
        ensures
            r@ == self.text(path@),
    {
        match self {
            PathError::DoesNotExist => String::from_str("Path does not exist: ").concat(path),
            PathError::NotADirectory => String::from_str("Path is not a directory: ").concat(path),
        }
    }
}

} // verus!
