use std::collections::BTreeSet;

use fermata::config::{AppConfig, CliPaths};
use fermata::rename::{
    rename_recording, rename_recording_impl, RenameAction, RenameError, RenameEvent, RenamePlan,
    RenameState,
};
use fermata::snapshot::EntryKind;

/// The paths of a small tree, kept in memory, on which the moves of a rename
/// are carried out.
struct Tree {
    paths: BTreeSet<String>,
    failing: Vec<String>,
}

impl Tree {
    fn new(paths: &[&str]) -> Tree {
        Tree { paths: paths.iter().map(|p| p.to_string()).collect(), failing: Vec::new() }
    }

    fn has(&self, path: &str) -> bool {
        self.paths.contains(path)
    }

    fn kind(&self, path: &str) -> Option<EntryKind> {
        if !self.has(path) {
            None
        } else if self.paths.iter().any(|p| p.starts_with(&format!("{}/", path))) {
            Some(EntryKind::Directory)
        } else if path.contains('.') {
            Some(EntryKind::File)
        } else {
            Some(EntryKind::Directory)
        }
    }

    fn rename(&mut self, from: &str, to: &str) -> Result<(), String> {
        if self.failing.iter().any(|f| f == from) {
            return Err("permission denied".to_string());
        }
        let prefix = format!("{}/", from);
        let moved: Vec<String> = self
            .paths
            .iter()
            .filter(|p| p.as_str() == from || p.starts_with(&prefix))
            .cloned()
            .collect();
        for old in moved {
            self.paths.remove(&old);
            self.paths.insert(format!("{}{}", to, &old[from.len()..]));
        }
        Ok(())
    }
}

fn setup_test_recording(root: &str, name: &str) -> Vec<String> {
    vec![
        format!("{}/{}", root, name),
        format!("{}/{}/{}.mkv", root, name, name),
        format!("{}/{}/metadata.json", root, name),
        format!("{}/{}/extracted", root, name),
        format!("{}/{}/extracted/audio.m4a", root, name),
    ]
}

fn tree_with(root: &str, names: &[&str]) -> Tree {
    let mut tree = Tree::new(&[root]);
    for name in names {
        for path in setup_test_recording(root, name) {
            tree.paths.insert(path);
        }
    }
    tree
}

fn carry_out(plan: &RenamePlan, tree: &mut Tree) -> Result<(), RenameError> {
    let mut state = RenameState::Start;
    let mut event = RenameEvent::Begin;
    for _ in 0..8 {
        let (next, action) = plan.advance(state, event);
        state = next;
        event = match action {
            RenameAction::Move { from, to } => match tree.rename(&from, &to) {
                Ok(()) => RenameEvent::Moved,
                Err(e) => RenameEvent::MoveFailed(e),
            },
            RenameAction::CheckFile(path) => {
                if tree.has(&path) {
                    RenameEvent::FileFound
                } else {
                    RenameEvent::FileMissing
                }
            }
            RenameAction::Succeed => return Ok(()),
            RenameAction::Fail(e) => return Err(e),
        };
    }
    panic!("the rename did not come to an end");
}

fn rename_in(tree: &mut Tree, old_name: &str, new_name: &str, root: &str) -> Result<(), RenameError> {
    let old_found = tree.kind(&format!("{}/{}", root, old_name));
    let new_exists = tree.has(&format!("{}/{}", root, new_name));
    let plan = rename_recording_impl(old_name, new_name, root, old_found, new_exists)?;
    carry_out(&plan, tree)
}

#[test]
fn test_rename_recording_success() {
    let root = "/tmp/fermata_rename_test_success";
    let mut tree = tree_with(root, &["old_recording"]);

    let result = rename_in(&mut tree, "old_recording", "new_recording", root);

    assert!(result.is_ok(), "Rename should succeed");

    assert!(!tree.has(&format!("{}/old_recording", root)));
    assert!(tree.has(&format!("{}/new_recording", root)));

    assert!(tree.has(&format!("{}/new_recording/new_recording.mkv", root)));
    assert!(!tree.has(&format!("{}/new_recording/old_recording.mkv", root)));

    assert!(tree.has(&format!("{}/new_recording/metadata.json", root)));
    assert!(tree.has(&format!("{}/new_recording/extracted/audio.m4a", root)));
}

#[test]
fn test_rename_recording_source_not_exists() {
    let root = "/tmp/fermata_rename_test_no_source";
    let mut tree = Tree::new(&[root]);

    let result = rename_in(&mut tree, "nonexistent", "new_name", root);

    assert!(result.is_err());
    assert!(result.unwrap_err().message().contains("not found"));
}

#[test]
fn test_rename_recording_target_exists() {
    let root = "/tmp/fermata_rename_test_target_exists";
    let mut tree = tree_with(root, &["source_recording", "target_recording"]);

    let result = rename_in(&mut tree, "source_recording", "target_recording", root);

    assert!(result.is_err());
    assert!(result.unwrap_err().message().contains("already exists"));

    assert!(tree.has(&format!("{}/source_recording", root)));
    assert!(tree.has(&format!("{}/target_recording", root)));
}

#[test]
fn test_rename_recording_empty_names() {
    let root = "/tmp/fermata_rename_test_empty";
    let mut tree = tree_with(root, &["test_recording"]);

    let result = rename_in(&mut tree, "", "new_name", root);
    assert!(result.is_err());
    assert!(result.unwrap_err().message().contains("cannot be empty"));

    let result = rename_in(&mut tree, "test_recording", "", root);
    assert!(result.is_err());
    assert!(result.unwrap_err().message().contains("cannot be empty"));
}

#[test]
fn test_rename_recording_same_name() {
    let root = "/tmp/fermata_rename_test_same";
    let mut tree = tree_with(root, &["test_recording"]);

    let result = rename_in(&mut tree, "test_recording", "test_recording", root);

    assert!(result.is_err());
    assert!(result.unwrap_err().message().contains("same name"));

    assert!(tree.has(&format!("{}/test_recording", root)));
}

#[test]
fn test_rename_recording_no_main_file() {
    let root = "/tmp/fermata_rename_test_no_main";
    let mut tree = Tree::new(&[
        root,
        "/tmp/fermata_rename_test_no_main/test_recording",
        "/tmp/fermata_rename_test_no_main/test_recording/metadata.json",
    ]);

    let result = rename_in(&mut tree, "test_recording", "new_recording", root);

    assert!(result.is_ok());

    assert!(!tree.has(&format!("{}/test_recording", root)));
    assert!(tree.has(&format!("{}/new_recording", root)));
    assert!(tree.has(&format!("{}/new_recording/metadata.json", root)));
}

#[test]
fn test_rename_main_recording_file() {
    let root = "/tmp/fermata_rename_file_test";
    let mut tree = Tree::new(&[
        root,
        "/tmp/fermata_rename_file_test/new_name",
        "/tmp/fermata_rename_file_test/new_name/old_name.mkv",
    ]);
    let plan = rename_recording_impl("old_name", "new_name", root, Some(EntryKind::Directory), false)
        .unwrap();

    let action = plan.rename_main_recording_file(tree.has(&plan.old_file));
    let result = match action {
        Some(RenameAction::Move { from, to }) => tree.rename(&from, &to),
        Some(other) => panic!("expected a move, got {:?}", other),
        None => Ok(()),
    };

    assert!(result.is_ok());

    assert!(!tree.has(&format!("{}/new_name/old_name.mkv", root)));
    assert!(tree.has(&format!("{}/new_name/new_name.mkv", root)));
}

#[test]
fn test_rename_main_recording_file_not_exists() {
    let root = "/tmp/fermata_rename_file_not_exists";
    let tree = Tree::new(&[
        root,
        "/tmp/fermata_rename_file_not_exists/old_name",
        "/tmp/fermata_rename_file_not_exists/new_name",
    ]);
    let plan = rename_recording_impl("old_name", "new_name", root, Some(EntryKind::Directory), false)
        .unwrap();

    let action = plan.rename_main_recording_file(tree.has(&plan.old_file));

    assert!(action.is_none());
}

#[test]
fn rename_plan_names_the_four_paths() {
    let plan =
        rename_recording_impl("old_recording", "new_recording", "/recs", Some(EntryKind::Directory), false)
            .unwrap();
    assert_eq!(plan.old_dir, "/recs/old_recording");
    assert_eq!(plan.new_dir, "/recs/new_recording");
    assert_eq!(plan.old_file, "/recs/new_recording/old_recording.mkv");
    assert_eq!(plan.new_file, "/recs/new_recording/new_recording.mkv");
}

#[test]
fn rename_refusals_come_in_order() {
    let dir = Some(EntryKind::Directory);
    assert_eq!(rename_recording_impl("", "", "/r", None, true).unwrap_err(), RenameError::EmptyName);
    assert_eq!(
        rename_recording_impl("a", "", "/r", None, true).unwrap_err(),
        RenameError::EmptyNewName
    );
    assert_eq!(rename_recording_impl("a", "a", "/r", None, true).unwrap_err(), RenameError::SameName);
    assert_eq!(
        rename_recording_impl("a", "b", "/r", None, true).unwrap_err(),
        RenameError::NotFound("a".to_string())
    );
    assert_eq!(
        rename_recording_impl("a", "b", "/r", Some(EntryKind::File), true).unwrap_err(),
        RenameError::NotADirectory("a".to_string())
    );
    assert_eq!(
        rename_recording_impl("a", "b", "/r", dir, true).unwrap_err(),
        RenameError::TargetExists("b".to_string())
    );
    assert!(rename_recording_impl("a", "b", "/r", dir, false).is_ok());
}

#[test]
fn rename_error_messages() {
    assert_eq!(RenameError::EmptyName.message(), "Recording name cannot be empty");
    assert_eq!(RenameError::EmptyNewName.message(), "New recording name cannot be empty");
    assert_eq!(RenameError::SameName.message(), "Cannot rename to the same name");
    assert_eq!(RenameError::NotFound("a".to_string()).message(), "Recording 'a' not found");
    assert_eq!(
        RenameError::NotADirectory("a".to_string()).message(),
        "Recording 'a' is not a directory"
    );
    assert_eq!(
        RenameError::TargetExists("b".to_string()).message(),
        "Recording with name 'b' already exists"
    );
    assert_eq!(
        RenameError::DirectoryRenameFailed("busy".to_string()).message(),
        "Failed to rename recording directory: busy"
    );
    assert_eq!(
        RenameError::FileRenameFailed { reason: "busy".to_string(), rollback: None }.message(),
        "Failed to rename recording file: busy"
    );
    assert_eq!(
        RenameError::FileRenameFailed {
            reason: "busy".to_string(),
            rollback: Some("gone".to_string())
        }
        .message(),
        "Failed to rename recording file: busy (rollback also failed: gone)"
    );
    assert_eq!(RenameError::OutOfOrder.message(), "Rename steps were reported out of order");
}

#[test]
fn rename_round_trip_restores_the_files() {
    let root = "/recs";
    let mut tree = tree_with(root, &["a"]);
    let before = tree.paths.clone();

    rename_in(&mut tree, "a", "b", root).unwrap();
    assert!(tree.has("/recs/b/b.mkv"));
    assert!(!tree.has("/recs/a"));
    assert_ne!(tree.paths, before);

    rename_in(&mut tree, "b", "a", root).unwrap();
    assert_eq!(tree.paths, before);
    assert!(tree.has("/recs/a/a.mkv"));
}

#[test]
fn failed_file_move_rolls_the_directory_back() {
    let root = "/recs";
    let mut tree = tree_with(root, &["a"]);
    let before = tree.paths.clone();
    tree.failing.push("/recs/b/a.mkv".to_string());

    let error = rename_in(&mut tree, "a", "b", root).unwrap_err();
    assert_eq!(
        error,
        RenameError::FileRenameFailed {
            reason: "Failed to rename recording file from '/recs/b/a.mkv' to '/recs/b/b.mkv': permission denied".to_string(),
            rollback: None,
        }
    );
    assert_eq!(tree.paths, before);
}

#[test]
fn failed_rollback_leaves_the_new_name_and_says_so() {
    let root = "/recs";
    let mut tree = tree_with(root, &["a"]);
    tree.failing.push("/recs/b/a.mkv".to_string());
    tree.failing.push("/recs/b".to_string());

    let error = rename_in(&mut tree, "a", "b", root).unwrap_err();
    match &error {
        RenameError::FileRenameFailed { rollback, .. } => {
            assert_eq!(rollback, &Some("permission denied".to_string()))
        }
        other => panic!("expected a failed file rename, got {:?}", other),
    }
    assert!(error.message().contains("(rollback also failed: permission denied)"));
    assert!(tree.has("/recs/b/a.mkv"));
    assert!(!tree.has("/recs/a"));
}

#[test]
fn failed_directory_move_ends_the_rename() {
    let root = "/recs";
    let mut tree = tree_with(root, &["a"]);
    let before = tree.paths.clone();
    tree.failing.push("/recs/a".to_string());

    let error = rename_in(&mut tree, "a", "b", root).unwrap_err();
    assert_eq!(error, RenameError::DirectoryRenameFailed("permission denied".to_string()));
    assert_eq!(tree.paths, before);
}

#[test]
fn events_out_of_order_fail_the_rename() {
    let plan = rename_recording_impl("a", "b", "/r", Some(EntryKind::Directory), false).unwrap();
    let (state, action) = plan.advance(RenameState::Start, RenameEvent::Moved);
    assert!(matches!(state, RenameState::Finished));
    assert!(matches!(action, RenameAction::Fail(RenameError::OutOfOrder)));
    let (_, action) = plan.advance(RenameState::Finished, RenameEvent::Begin);
    assert!(matches!(action, RenameAction::Fail(RenameError::OutOfOrder)));
    let (_, action) = plan.advance(RenameState::CheckingFile, RenameEvent::Moved);
    assert!(matches!(action, RenameAction::Fail(RenameError::OutOfOrder)));
}

#[test]
fn rename_below_the_configured_root() {
    let config = AppConfig {
        recordings_path: "/data/recs".to_string(),
        cli_paths: CliPaths { uv_path: "uv".to_string(), workspace_root: "/ws".to_string() },
        main_audio_file: String::new(),
    };
    let plan = rename_recording("a", "b", &config, Some(EntryKind::Directory), false).unwrap();
    assert_eq!(plan.old_dir, "/data/recs/a");
    assert_eq!(plan.new_dir, "/data/recs/b");
    assert_eq!(plan.old_file, "/data/recs/b/a.mkv");
    assert_eq!(plan.new_file, "/data/recs/b/b.mkv");
    assert_eq!(
        rename_recording("a", "b", &config, None, false).unwrap_err(),
        RenameError::NotFound("a".to_string())
    );
}
