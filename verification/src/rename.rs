//! Renaming a recording: the directory is moved, then the main video file
//! in it, where there is one; and the directory is moved back where the
//! file cannot be. The moves themselves are made elsewhere.

use crate::config::AppConfig;
use crate::paths::{join_path, joined};
use crate::snapshot::EntryKind;
use crate::text::str_eq;
use vstd::prelude::*;
use vstd::string::*;

verus! {

/// Why a recording was not renamed.
#[derive(Debug, PartialEq, Eq)]
pub enum RenameError {
    EmptyName,
    EmptyNewName,
    SameName,
    /// No recording of the old name.
    NotFound(String),
    /// What has the old name is no directory.
    NotADirectory(String),
    /// Something has the new name already.
    TargetExists(String),
    /// The directory could not be moved, for the reason kept.
    DirectoryRenameFailed(String),
    /// The main file could not be moved, for the reason kept. The directory
    /// has its old name again, unless moving it back failed too: then
    /// `rollback` keeps why, and the directory is left under its new name.
    FileRenameFailed { reason: String, rollback: Option<String> },
    /// The moves were reported in an order in which they are not made.
    OutOfOrder,
}

pub enum RenameErrorView {
    EmptyName,
    EmptyNewName,
    SameName,
    NotFound(Seq<char>),
    NotADirectory(Seq<char>),
    TargetExists(Seq<char>),
    DirectoryRenameFailed(Seq<char>),
    FileRenameFailed { reason: Seq<char>, rollback: Option<Seq<char>> },
    OutOfOrder,
}

impl View for RenameError {
    type V = RenameErrorView;

    open spec fn view(&self) -> RenameErrorView {
        match self {
            RenameError::EmptyName => RenameErrorView::EmptyName,
            RenameError::EmptyNewName => RenameErrorView::EmptyNewName,
            RenameError::SameName => RenameErrorView::SameName,
            RenameError::NotFound(name) => RenameErrorView::NotFound(name@),
            RenameError::NotADirectory(name) => RenameErrorView::NotADirectory(name@),
            RenameError::TargetExists(name) => RenameErrorView::TargetExists(name@),
            RenameError::DirectoryRenameFailed(reason) => RenameErrorView::DirectoryRenameFailed(
                reason@,
            ),
            RenameError::FileRenameFailed { reason, rollback } => RenameErrorView::FileRenameFailed {
                reason: reason@,
                rollback: match rollback {
                    Some(why) => Some(why@),
                    None => None,
                },
            },
            RenameError::OutOfOrder => RenameErrorView::OutOfOrder,
        }
    }
}

impl RenameErrorView {
    pub open spec fn text(self) -> Seq<char> {
        match self {
            RenameErrorView::EmptyName => "Recording name cannot be empty"@,
            RenameErrorView::EmptyNewName => "New recording name cannot be empty"@,
            RenameErrorView::SameName => "Cannot rename to the same name"@,
            RenameErrorView::NotFound(name) => "Recording '"@ + name + "' not found"@,
            RenameErrorView::NotADirectory(name) => "Recording '"@ + name
                + "' is not a directory"@,
            RenameErrorView::TargetExists(name) => "Recording with name '"@ + name
                + "' already exists"@,
            RenameErrorView::DirectoryRenameFailed(reason) =>
                "Failed to rename recording directory: "@ + reason,
            RenameErrorView::FileRenameFailed { reason, rollback } => match rollback {
                None => "Failed to rename recording file: "@ + reason,
                Some(why) => "Failed to rename recording file: "@ + reason
                    + " (rollback also failed: "@ + why + ")"@,
            },
            RenameErrorView::OutOfOrder => "Rename steps were reported out of order"@,
        }
    }
}

impl RenameError {
    /// The error in words.
    pub fn message(&self) -> (r: String)
        ensures
            r@ == self@.text(),
    {
        match self {
            RenameError::EmptyName => String::from_str("Recording name cannot be empty"),
            RenameError::EmptyNewName => String::from_str("New recording name cannot be empty"),
            RenameError::SameName => String::from_str("Cannot rename to the same name"),
            RenameError::NotFound(name) => String::from_str("Recording '").concat(
                name.as_str(),
            ).concat("' not found"),
            RenameError::NotADirectory(name) => String::from_str("Recording '").concat(
                name.as_str(),
            ).concat("' is not a directory"),
            RenameError::TargetExists(name) => String::from_str("Recording with name '").concat(
                name.as_str(),
            ).concat("' already exists"),
            RenameError::DirectoryRenameFailed(reason) => String::from_str(
                "Failed to rename recording directory: ",
            ).concat(reason.as_str()),
            RenameError::FileRenameFailed { reason, rollback } => {
                let start = String::from_str("Failed to rename recording file: ").concat(
                    reason.as_str(),
                );
                match rollback {
                    None => start,
                    Some(why) => start.concat(" (rollback also failed: ").concat(
                        why.as_str(),
                    ).concat(")"),
                }
            },
            RenameError::OutOfOrder => String::from_str("Rename steps were reported out of order"),
        }
    }
}

/// The paths that a rename moves.
#[derive(Debug)]
pub struct RenamePlan {
    /// The recording's directory before the rename.
    pub old_dir: String,
    /// The recording's directory after it.
    pub new_dir: String,
    /// The main video file under its old name, in the directory that has
    /// been moved.
    pub old_file: String,
    /// The main video file under its new name.
    pub new_file: String,
}

pub struct RenamePlanView {
    pub old_dir: Seq<char>,
    pub new_dir: Seq<char>,
    pub old_file: Seq<char>,
    pub new_file: Seq<char>,
}

impl View for RenamePlan {
    type V = RenamePlanView;

    open spec fn view(&self) -> RenamePlanView {
        RenamePlanView {
            old_dir: self.old_dir@,
            new_dir: self.new_dir@,
            old_file: self.old_file@,
            new_file: self.new_file@,
        }
    }
}

/// The name of the main video file of a recording.
pub open spec fn main_file_name(recording_name: Seq<char>) -> Seq<char> {
    recording_name + ".mkv"@
}

/// The moves that rename a recording, or why it is not renamed: both names
/// have to be given and differ, the old one has to be a directory below the
/// recordings root, and nothing may have the new one.
pub open spec fn rename_plan(
    old_name: Seq<char>,
    new_name: Seq<char>,
    recordings_path: Seq<char>,
    old_found: Option<EntryKind>,
    new_exists: bool,
) -> Result<RenamePlanView, RenameErrorView> {
    if old_name.len() == 0 {
        Err(RenameErrorView::EmptyName)
    } else if new_name.len() == 0 {
        Err(RenameErrorView::EmptyNewName)
    } else if old_name == new_name {
        Err(RenameErrorView::SameName)
    } else if old_found is None {
        Err(RenameErrorView::NotFound(old_name))
    } else if old_found != Some(EntryKind::Directory) {
        Err(RenameErrorView::NotADirectory(old_name))
    } else if new_exists {
        Err(RenameErrorView::TargetExists(new_name))
    } else {
        Ok(
            RenamePlanView {
                old_dir: joined(recordings_path, old_name),
                new_dir: joined(recordings_path, new_name),
                old_file: joined(joined(recordings_path, new_name), main_file_name(old_name)),
                new_file: joined(joined(recordings_path, new_name), main_file_name(new_name)),
            },
        )
    }
}

pub open spec fn plan_result_view(r: Result<RenamePlan, RenameError>) -> Result<
    RenamePlanView,
    RenameErrorView,
> {
    match r {
        Ok(plan) => Ok(plan@),
        Err(e) => Err(e@),
    }
}

/// The moves that rename the recording `old_name` below `recordings_path`
/// to `new_name`. `old_found` is what stands at the old directory's path,
/// and `new_exists` says whether anything stands at the new one's.
pub fn rename_recording_impl(
    old_name: &str,
    new_name: &str,
    recordings_path: &str,
    old_found: Option<EntryKind>,
    new_exists: bool,
) -> (r: Result<RenamePlan, RenameError>)
    ensures
        plan_result_view(r) == rename_plan(
            old_name@,
            new_name@,
            recordings_path@,
            old_found,
            new_exists,
        ),
{
    if old_name.unicode_len() == 0 {
        return Err(RenameError::EmptyName);
    }
    if new_name.unicode_len() == 0 {
        return Err(RenameError::EmptyNewName);
    }
    if str_eq(old_name, new_name) {
        return Err(RenameError::SameName);
    }
    match old_found {
        None => {
            return Err(RenameError::NotFound(String::from_str(old_name)));
        },
        Some(EntryKind::Directory) => {},
        Some(_) => {
            return Err(RenameError::NotADirectory(String::from_str(old_name)));
        },
    }
    if new_exists {
        return Err(RenameError::TargetExists(String::from_str(new_name)));
    }
    let old_dir = join_path(recordings_path, old_name);
    let new_dir = join_path(recordings_path, new_name);
    let old_file_name = String::from_str(old_name).concat(".mkv");
    let new_file_name = String::from_str(new_name).concat(".mkv");
    let old_file = join_path(new_dir.as_str(), old_file_name.as_str());
    let new_file = join_path(new_dir.as_str(), new_file_name.as_str());
    Ok(RenamePlan { old_dir, new_dir, old_file, new_file })
}

/// The moves that rename the recording `old_name` to `new_name` below
/// the configured recordings root.
pub fn rename_recording(
    old_name: &str,
    new_name: &str,
    config: &AppConfig,
    old_found: Option<EntryKind>,
    new_exists: bool,
) -> (r: Result<RenamePlan, RenameError>)
    ensures
        plan_result_view(r) == rename_plan(
            old_name@,
            new_name@,
            config@.recordings_path,
            old_found,
            new_exists,
        ),
{
    rename_recording_impl(
        old_name,
        new_name,
        config.recordings_path.as_str(),
        old_found,
        new_exists,
    )
}

/// How far a rename has come.
#[derive(Debug)]
pub enum RenameState {
    Start,
    MovingDirectory,
    CheckingFile,
    MovingFile,
    /// The main file could not be moved, for the reason kept, and the
    /// directory is being moved back.
    RollingBack(String),
    Finished,
}

pub enum RenameStateView {
    Start,
    MovingDirectory,
    CheckingFile,
    MovingFile,
    RollingBack(Seq<char>),
    Finished,
}

impl View for RenameState {
    type V = RenameStateView;

    open spec fn view(&self) -> RenameStateView {
        match self {
            RenameState::Start => RenameStateView::Start,
            RenameState::MovingDirectory => RenameStateView::MovingDirectory,
            RenameState::CheckingFile => RenameStateView::CheckingFile,
            RenameState::MovingFile => RenameStateView::MovingFile,
            RenameState::RollingBack(reason) => RenameStateView::RollingBack(reason@),
            RenameState::Finished => RenameStateView::Finished,
        }
    }
}

/// What was found out since the last action.
#[derive(Debug)]
pub enum RenameEvent {
    /// Nothing yet: the rename begins.
    Begin,
    /// The move that was asked for has been made.
    Moved,
    /// The move that was asked for failed, for the reason given.
    MoveFailed(String),
    /// The main file under its old name is there.
    FileFound,
    /// No such file is there.
    FileMissing,
}

pub enum RenameEventView {
    Begin,
    Moved,
    MoveFailed(Seq<char>),
    FileFound,
    FileMissing,
}

impl View for RenameEvent {
    type V = RenameEventView;

    open spec fn view(&self) -> RenameEventView {
        match self {
            RenameEvent::Begin => RenameEventView::Begin,
            RenameEvent::Moved => RenameEventView::Moved,
            RenameEvent::MoveFailed(reason) => RenameEventView::MoveFailed(reason@),
            RenameEvent::FileFound => RenameEventView::FileFound,
            RenameEvent::FileMissing => RenameEventView::FileMissing,
        }
    }
}

/// What to do next.
#[derive(Debug)]
pub enum RenameAction {
    /// Move `from` to `to`, and report whether that succeeded.
    Move { from: String, to: String },
    /// Look whether a file stands at the path, and report it.
    CheckFile(String),
    /// The recording is renamed.
    Succeed,
    /// The recording is not renamed.
    Fail(RenameError),
}

pub enum RenameActionView {
    Move { from: Seq<char>, to: Seq<char> },
    CheckFile(Seq<char>),
    Succeed,
    Fail(RenameErrorView),
}

impl View for RenameAction {
    type V = RenameActionView;

    open spec fn view(&self) -> RenameActionView {
        match self {
            RenameAction::Move { from, to } => RenameActionView::Move { from: from@, to: to@ },
            RenameAction::CheckFile(path) => RenameActionView::CheckFile(path@),
            RenameAction::Succeed => RenameActionView::Succeed,
            RenameAction::Fail(e) => RenameActionView::Fail(e@),
        }
    }
}

/// Why the main file could not be moved, in words.
pub open spec fn file_failure(plan: RenamePlanView, reason: Seq<char>) -> Seq<char> {
    "Failed to rename recording file from '"@ + plan.old_file + "' to '"@ + plan.new_file
        + "': "@ + reason
}

/// The state and the action that follow a state and an event. The
/// directory is moved first. Then the main file is looked for, and moved
/// where it is there. Where that move fails the directory is moved back,
/// and the rename has failed whether or not that succeeds.
pub open spec fn next(plan: RenamePlanView, state: RenameStateView, event: RenameEventView) -> (
    RenameStateView,
    RenameActionView,
) {
    match (state, event) {
        (RenameStateView::Start, RenameEventView::Begin) => (
            RenameStateView::MovingDirectory,
            RenameActionView::Move { from: plan.old_dir, to: plan.new_dir },
        ),
        (RenameStateView::MovingDirectory, RenameEventView::Moved) => (
            RenameStateView::CheckingFile,
            RenameActionView::CheckFile(plan.old_file),
        ),
        (RenameStateView::MovingDirectory, RenameEventView::MoveFailed(reason)) => (
            RenameStateView::Finished,
            RenameActionView::Fail(RenameErrorView::DirectoryRenameFailed(reason)),
        ),
        (RenameStateView::CheckingFile, RenameEventView::FileFound) => (
            RenameStateView::MovingFile,
            RenameActionView::Move { from: plan.old_file, to: plan.new_file },
        ),
        (RenameStateView::CheckingFile, RenameEventView::FileMissing) => (
            RenameStateView::Finished,
            RenameActionView::Succeed,
        ),
        (RenameStateView::MovingFile, RenameEventView::Moved) => (
            RenameStateView::Finished,
            RenameActionView::Succeed,
        ),
        (RenameStateView::MovingFile, RenameEventView::MoveFailed(reason)) => (
            RenameStateView::RollingBack(file_failure(plan, reason)),
            RenameActionView::Move { from: plan.new_dir, to: plan.old_dir },
        ),
        (RenameStateView::RollingBack(reason), RenameEventView::Moved) => (
            RenameStateView::Finished,
            RenameActionView::Fail(RenameErrorView::FileRenameFailed { reason, rollback: None }),
        ),
        (RenameStateView::RollingBack(reason), RenameEventView::MoveFailed(why)) => (
            RenameStateView::Finished,
            RenameActionView::Fail(
                RenameErrorView::FileRenameFailed { reason, rollback: Some(why) },
            ),
        ),
        _ => (RenameStateView::Finished, RenameActionView::Fail(RenameErrorView::OutOfOrder)),
    }
}

impl RenamePlan {
    /// The state and the action that follow `state` and `event`.
    pub fn advance(&self, state: RenameState, event: RenameEvent) -> (r: (
        RenameState,
        RenameAction,
    ))
        ensures
            (r.0@, r.1@) == next(self@, state@, event@),
    {
        match (state, event) {
            (RenameState::Start, RenameEvent::Begin) => (
                RenameState::MovingDirectory,
                RenameAction::Move { from: self.old_dir.clone(), to: self.new_dir.clone() },
            ),
            (RenameState::MovingDirectory, RenameEvent::Moved) => (
                RenameState::CheckingFile,
                RenameAction::CheckFile(self.old_file.clone()),
            ),
            (RenameState::MovingDirectory, RenameEvent::MoveFailed(reason)) => (
                RenameState::Finished,
                RenameAction::Fail(RenameError::DirectoryRenameFailed(reason)),
            ),
            (RenameState::CheckingFile, RenameEvent::FileFound) => (
                RenameState::MovingFile,
                RenameAction::Move { from: self.old_file.clone(), to: self.new_file.clone() },
            ),
            (RenameState::CheckingFile, RenameEvent::FileMissing) => (
                RenameState::Finished,
                RenameAction::Succeed,
            ),
            (RenameState::MovingFile, RenameEvent::Moved) => (
                RenameState::Finished,
                RenameAction::Succeed,
            ),
            (RenameState::MovingFile, RenameEvent::MoveFailed(reason)) => {
                let text = String::from_str("Failed to rename recording file from '").concat(
                    self.old_file.as_str(),
                ).concat("' to '").concat(self.new_file.as_str()).concat("': ").concat(
                    reason.as_str(),
                );
                (
                    RenameState::RollingBack(text),
                    RenameAction::Move { from: self.new_dir.clone(), to: self.old_dir.clone() },
                )
            },
            (RenameState::RollingBack(reason), RenameEvent::Moved) => (
                RenameState::Finished,
                RenameAction::Fail(RenameError::FileRenameFailed { reason, rollback: None }),
            ),
            (RenameState::RollingBack(reason), RenameEvent::MoveFailed(why)) => (
                RenameState::Finished,
                RenameAction::Fail(
                    RenameError::FileRenameFailed { reason, rollback: Some(why) },
                ),
            ),
            _ => (RenameState::Finished, RenameAction::Fail(RenameError::OutOfOrder)),
        }
    }

    /// The move of the main file that the rename of the directory is
    /// followed by: none where no file of the old name is there.
    pub fn rename_main_recording_file(&self, old_file_exists: bool) -> (r: Option<RenameAction>)
        ensures
            r is Some <==> old_file_exists,
            r is Some ==> r->0@ == (RenameActionView::Move {
                from: self@.old_file,
                to: self@.new_file,
            }),
    {
        if old_file_exists {
            Some(RenameAction::Move { from: self.old_file.clone(), to: self.new_file.clone() })
        } else {
            None
        }
    }
}

/// The names at the top of a recording's directory once the recording has
/// been renamed: the main file has the new name, where there was one, and
/// every other name is as it was.
pub open spec fn renamed_files(
    files: Set<Seq<char>>,
    old_name: Seq<char>,
    new_name: Seq<char>,
) -> Set<Seq<char>> {
    if files.contains(main_file_name(old_name)) {
        files.remove(main_file_name(old_name)).insert(main_file_name(new_name))
    } else {
        files
    }
}

/// The names at the top of the recording's directory after the moves
/// that `next` asks for, where every move succeeds, together with the
/// action that the rename ends in. `names` are the names before. The
/// directory is moved, then the main file is looked for under its old name,
/// and where it is there it is moved to its new name in the same directory.
pub open spec fn names_after_moves(
    plan: RenamePlanView,
    old_name: Seq<char>,
    new_name: Seq<char>,
    names: Set<Seq<char>>,
) -> (RenameActionView, Set<Seq<char>>) {
    let moving = next(plan, RenameStateView::Start, RenameEventView::Begin);
    let checking = next(plan, moving.0, RenameEventView::Moved);
    let found = if names.contains(main_file_name(old_name)) {
        RenameEventView::FileFound
    } else {
        RenameEventView::FileMissing
    };
    let third = next(plan, checking.0, found);
    if third.1 == (RenameActionView::Move {
        from: joined(plan.new_dir, main_file_name(old_name)),
        to: joined(plan.new_dir, main_file_name(new_name)),
    }) {
        (
            next(plan, third.0, RenameEventView::Moved).1,
            names.remove(main_file_name(old_name)).insert(main_file_name(new_name)),
        )
    } else {
        (third.1, names)
    }
}

/// The moves of a planned rename, where none of them fails, end in success
/// and leave the names in the recording's directory as `renamed_files`
/// says: the directory is moved first, the main file is looked for in the
/// moved directory under its old name, and it alone is moved, to its new
/// name.
pub proof fn moves_realise_renamed_files(
    old_name: Seq<char>,
    new_name: Seq<char>,
    recordings_path: Seq<char>,
    old_found: Option<EntryKind>,
    new_exists: bool,
    names: Set<Seq<char>>,
)
    requires
        rename_plan(old_name, new_name, recordings_path, old_found, new_exists) is Ok,
    ensures
        ({
            let plan = rename_plan(old_name, new_name, recordings_path, old_found, new_exists)->Ok_0;
            &&& next(plan, RenameStateView::Start, RenameEventView::Begin).1 == (
            RenameActionView::Move { from: plan.old_dir, to: plan.new_dir })
            &&& next(plan, RenameStateView::MovingDirectory, RenameEventView::Moved).1
                == RenameActionView::CheckFile(joined(plan.new_dir, main_file_name(old_name)))
            &&& names_after_moves(plan, old_name, new_name, names) == (
                RenameActionView::Succeed,
                renamed_files(names, old_name, new_name),
            )
        }),
{
}

/// Renaming a recording and renaming it back, by the moves that the two
/// plans ask for, leaves the names in its directory as they were, provided
/// that no file in the directory has the name that the main file takes in
/// between.
pub proof fn moves_round_trip(
    a: Seq<char>,
    b: Seq<char>,
    recordings_path: Seq<char>,
    names: Set<Seq<char>>,
)
    requires
        rename_plan(a, b, recordings_path, Some(EntryKind::Directory), false) is Ok,
        rename_plan(b, a, recordings_path, Some(EntryKind::Directory), false) is Ok,
        !names.contains(main_file_name(b)),
    ensures
        ({
            let there = rename_plan(a, b, recordings_path, Some(EntryKind::Directory), false)->Ok_0;
            let back = rename_plan(b, a, recordings_path, Some(EntryKind::Directory), false)->Ok_0;
            let between = names_after_moves(there, a, b, names);
            &&& between.0 == RenameActionView::Succeed
            &&& names_after_moves(back, b, a, between.1) == (RenameActionView::Succeed, names)
        }),
{
    let directory = Some(EntryKind::Directory);
    moves_realise_renamed_files(a, b, recordings_path, directory, false, names);
    moves_realise_renamed_files(
        b,
        a,
        recordings_path,
        directory,
        false,
        renamed_files(names, a, b),
    );
    rename_round_trip(names, a, b);
}

proof fn lemma_main_file_names_differ(a: Seq<char>, b: Seq<char>)
    requires
        a != b,
    ensures
        main_file_name(a) != main_file_name(b),
{
    if main_file_name(a) == main_file_name(b) {
        let s = ".mkv"@;
        assert((a + s).len() == a.len() + s.len());
        assert((b + s).len() == b.len() + s.len());
        assert(a.len() == b.len());
        assert((a + s).subrange(0, a.len() as int) =~= a);
        assert((b + s).subrange(0, b.len() as int) =~= b);
        assert(false);
    }
}

/// Renaming a recording and then renaming it back leaves the names in its
/// directory as they were, the main file's among them, provided that no
/// file in the directory has the name that the main file takes in between.
pub proof fn rename_round_trip(files: Set<Seq<char>>, a: Seq<char>, b: Seq<char>)
    requires
        a != b,
        !files.contains(main_file_name(b)),
    ensures
        renamed_files(renamed_files(files, a, b), b, a) == files,
{
    lemma_main_file_names_differ(a, b);
    assert(renamed_files(renamed_files(files, a, b), b, a) =~= files);
}

/// A rename that is planned moves the directory to the new name and the
/// main file from its old name to its new one, both in the moved directory.
pub proof fn plan_moves_main_file(
    old_name: Seq<char>,
    new_name: Seq<char>,
    recordings_path: Seq<char>,
    old_found: Option<EntryKind>,
    new_exists: bool,
)
    requires
        rename_plan(old_name, new_name, recordings_path, old_found, new_exists) is Ok,
    ensures
        old_name != new_name,
        old_found == Some(EntryKind::Directory),
        !new_exists,
        ({
            let plan = rename_plan(old_name, new_name, recordings_path, old_found, new_exists)->Ok_0;
            &&& plan.new_dir == joined(recordings_path, new_name)
            &&& plan.old_file == joined(plan.new_dir, main_file_name(old_name))
            &&& plan.new_file == joined(plan.new_dir, main_file_name(new_name))
        }),
{
}

/// The directory is moved back exactly after the main file could not be
/// moved, and the rename then fails whatever becomes of the move back.
pub proof fn failed_file_move_is_rolled_back(
    plan: RenamePlanView,
    reason: Seq<char>,
    back: RenameEventView,
)
    ensures
        next(plan, RenameStateView::MovingFile, RenameEventView::MoveFailed(reason)).1 == (
        RenameActionView::Move { from: plan.new_dir, to: plan.old_dir }),
        next(
            plan,
            next(plan, RenameStateView::MovingFile, RenameEventView::MoveFailed(reason)).0,
            back,
        ).1 is Fail,
{
}

} // verus!
