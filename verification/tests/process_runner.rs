use fermata::process_runner::{ProcessResult, ProcessRunner, RenderSetupNext};

fn create_test_runner() -> ProcessRunner {
    ProcessRunner::new("/tmp/ws".to_string(), "echo".to_string())
}

fn strings(items: &[&str]) -> Vec<String> {
    items.iter().map(|s| s.to_string()).collect()
}

#[test]
fn test_process_runner_creation() {
    let workspace = "/test/workspace".to_string();
    let runner = ProcessRunner::new(workspace.clone(), "uv".to_string());

    assert_eq!(runner.workspace_root, workspace);
    assert_eq!(runner.uv_path, "uv");
}

#[test]
fn test_execute_command_success() {
    let result = ProcessResult::from_output(Some(0), "test output\n".to_string(), String::new());

    assert!(result.success);
    assert_eq!(result.stdout.trim(), "test output");
    assert!(result.stderr.is_empty());
    assert_eq!(result.exit_code, Some(0));
}

#[test]
fn test_execute_command_failure() {
    let result = ProcessResult::from_output(Some(1), String::new(), String::new());

    assert!(!result.success);
    assert_eq!(result.exit_code, Some(1));
}

#[test]
fn test_beatrix_analyze_command_structure() {
    let runner = create_test_runner();

    let command = runner.run_beatrix_analyze("/tmp/ws/test_recording", "audio.m4a");

    assert_eq!(command.program, "echo");
    assert_eq!(
        command.args,
        strings(&[
            "run",
            "--package",
            "beatrix",
            "beatrix",
            "/tmp/ws/test_recording/extracted/audio.m4a",
            "/tmp/ws/test_recording/analysis",
        ])
    );
    assert_eq!(command.working_dir, Some("/tmp/ws".to_string()));
}

#[test]
fn test_cinemon_render_command_structure() {
    let runner = create_test_runner();

    let setup = runner.run_cinemon_render("/tmp/ws/test_recording", "beat-switch", None);

    assert_eq!(setup.preset, "beat-switch");
    assert_eq!(
        setup.config_path,
        "/tmp/ws/test_recording/animation_config_beat-switch.yaml"
    );
    assert_eq!(
        setup.generate.args,
        strings(&[
            "run",
            "--package",
            "cinemon",
            "cinemon-generate-config",
            "/tmp/ws/test_recording",
            "--preset",
            "beat-switch",
        ])
    );
}

#[test]
fn test_medusa_upload_command_structure() {
    let runner = create_test_runner();

    let command = runner.run_medusa_upload("/tmp/ws/video.mp4", "/tmp/ws/config.json");

    assert_eq!(command.program, "echo");
    assert_eq!(
        command.args,
        strings(&[
            "run",
            "--package",
            "medusa",
            "upload",
            "/tmp/ws/video.mp4",
            "--config",
            "/tmp/ws/config.json",
        ])
    );
    assert_eq!(command.working_dir, Some("/tmp/ws".to_string()));
}

#[test]
fn success_is_exit_code_zero() {
    assert!(ProcessResult::from_output(Some(0), String::new(), "warning".to_string()).success);
    assert!(!ProcessResult::from_output(Some(-1), String::new(), String::new()).success);
    assert!(!ProcessResult::from_output(Some(255), String::new(), String::new()).success);
    let signalled = ProcessResult::from_output(None, "out".to_string(), "err".to_string());
    assert!(!signalled.success);
    assert_eq!(signalled.exit_code, None);
    assert_eq!(signalled.stdout, "out");
    assert_eq!(signalled.stderr, "err");
    let copy = signalled.clone();
    assert_eq!(copy.stderr, "err");
    assert_eq!(copy.exit_code, None);
}

#[test]
fn generate_config_names_the_main_audio_when_given() {
    let runner = create_test_runner();
    let with_audio = runner.run_cinemon_generate_config("/r/a", "vintage", Some("mic.m4a"));
    assert_eq!(
        with_audio.args,
        strings(&[
            "run",
            "--package",
            "cinemon",
            "cinemon-generate-config",
            "/r/a",
            "--preset",
            "vintage",
            "--main-audio",
            "mic.m4a",
        ])
    );
    let without = runner.run_cinemon_generate_config("/r/a", "vintage", None);
    assert_eq!(without.args.len(), 7);
    assert_eq!(without.program, "echo");
    assert_eq!(without.working_dir, Some("/tmp/ws".to_string()));
}

#[test]
fn list_presets_command() {
    let command = create_test_runner().list_cinemon_presets();
    assert_eq!(
        command.args,
        strings(&["run", "--package", "cinemon", "cinemon-generate-config", "--list-presets"])
    );
    assert_eq!(command.working_dir, Some("/tmp/ws".to_string()));
}

#[test]
fn earlier_animation_modes_map_to_presets() {
    assert_eq!(ProcessRunner::preset_for_mode("beat-switch"), "beat-switch");
    assert_eq!(ProcessRunner::preset_for_mode("energy-pulse"), "music-video");
    assert_eq!(ProcessRunner::preset_for_mode("multi-pip"), "vintage");
    assert_eq!(ProcessRunner::preset_for_mode("something else"), "beat-switch");
    assert_eq!(ProcessRunner::preset_for_mode(""), "beat-switch");

    let runner = create_test_runner();
    let setup = runner.run_cinemon_render_with_audio("/r/a", "energy-pulse", Some("mic.m4a"));
    assert_eq!(setup.preset, "music-video");
    assert_eq!(setup.config_path, "/r/a/animation_config_music-video.yaml");
    assert_eq!(setup.generate.args[6], "music-video");
    assert_eq!(setup.generate.args[8], "mic.m4a");
}

#[test]
fn config_path_is_named_by_preset() {
    assert_eq!(
        ProcessRunner::config_path("/r/a", "vintage"),
        "/r/a/animation_config_vintage.yaml"
    );
    assert_eq!(
        ProcessRunner::config_path("/r/a/", "vintage"),
        "/r/a/animation_config_vintage.yaml"
    );
}

#[test]
fn failed_generation_is_surfaced_untouched() {
    let runner = create_test_runner();
    let failed = ProcessResult::from_output(Some(3), "partial".to_string(), "bad preset".to_string());
    for config_exists in [false, true] {
        match runner.after_generate_config("/r/a", "vintage", failed.clone(), config_exists) {
            RenderSetupNext::Finished(result) => {
                assert!(!result.success);
                assert_eq!(result.stdout, "partial");
                assert_eq!(result.stderr, "bad preset");
                assert_eq!(result.exit_code, Some(3));
            }
            other => panic!("setup must not run, got {:?}", other),
        }
    }
}

#[test]
fn missing_generated_file_fails_the_setup() {
    let runner = create_test_runner();
    let ok = ProcessResult::from_output(Some(0), "written".to_string(), String::new());
    match runner.after_generate_config("/r/a", "vintage", ok, false) {
        RenderSetupNext::Finished(result) => {
            assert!(!result.success);
            assert_eq!(result.stdout, "");
            assert_eq!(
                result.stderr,
                "Generated config file not found: /r/a/animation_config_vintage.yaml"
            );
            assert_eq!(result.exit_code, Some(1));
        }
        other => panic!("setup must not run, got {:?}", other),
    }
}

#[test]
fn setup_runs_after_a_generation_that_left_its_file() {
    let runner = create_test_runner();
    let ok = ProcessResult::from_output(Some(0), String::new(), String::new());
    match runner.after_generate_config("/r/a", "vintage", ok, true) {
        RenderSetupNext::RunSetup(command) => {
            assert_eq!(command.program, "echo");
            assert_eq!(
                command.args,
                strings(&[
                    "run",
                    "--package",
                    "cinemon",
                    "cinemon-blend-setup",
                    "/r/a",
                    "--config",
                    "/r/a/animation_config_vintage.yaml",
                ])
            );
            assert_eq!(command.working_dir, Some("/tmp/ws".to_string()));
        }
        other => panic!("setup must run, got {:?}", other),
    }
    let direct = runner.cinemon_blend_setup_command("/r/a", "/r/a/c.yaml");
    assert_eq!(direct.args[6], "/r/a/c.yaml");
}

#[test]
fn tool_checks_come_in_order() {
    let runner = ProcessRunner::new("/ws".to_string(), "/usr/bin/uv".to_string());
    let checks = runner.validate_cli_tools();
    assert_eq!(checks.len(), 4);

    assert_eq!(checks[0].command.program, "/usr/bin/uv");
    assert_eq!(checks[0].command.args, strings(&["--version"]));
    assert_eq!(checks[0].command.working_dir, None);
    assert_eq!(checks[0].failure, "UV tool not found at: /usr/bin/uv");

    let packages = ["beatrix", "cinemon", "medusa"];
    for (check, package) in checks[1..].iter().zip(packages) {
        assert_eq!(check.command.program, "/usr/bin/uv");
        assert_eq!(check.command.args, strings(&["run", "--package", package, "--help"]));
        assert_eq!(check.command.working_dir, Some("/ws".to_string()));
        assert_eq!(
            check.failure,
            format!("Package '{}' not available in workspace", package)
        );
    }
}
