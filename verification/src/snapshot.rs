//! What one look at a recording's directory found: the entries below it and
//! the text of its two failure markers. The pipeline's decisions are made on
//! such a snapshot, never on the disk itself.

use crate::paths::{entry_name_in, extension, has_extension, name_in};
use crate::text::{str_eq, texts};
use vstd::prelude::*;
use vstd::string::*;

verus! {

#[derive(Debug, Clone, Copy, PartialEq, Eq, Structural)]
pub enum EntryKind {
    /// A regular file.
    File,
    Directory,
    /// Anything else that has a name in a directory.
    Other,
}

/// One entry below the recording's directory.
#[derive(Debug)]
pub struct Entry {
    /// The path relative to the recording's directory, components separated
    /// by `/`.
    pub path: String,
    pub kind: EntryKind,
    /// The length in bytes, for a regular file.
    pub size: u64,
}

pub struct EntryView {
    pub path: Seq<char>,
    pub kind: EntryKind,
    pub size: u64,
}

impl View for Entry {
    type V = EntryView;

    open spec fn view(&self) -> EntryView {
        EntryView { path: self.path@, kind: self.kind, size: self.size }
    }
}

impl Clone for Entry {
    fn clone(&self) -> (r: Self)
        ensures
            r@ == self@,
    {
        Entry { path: self.path.clone(), kind: self.kind, size: self.size }
    }
}

/// A file whose presence or text marks a failure.
#[derive(Debug)]
pub enum MarkerFile {
    Absent,
    /// The file is there and its text could not be read.
    Unreadable,
    Content(String),
}

pub enum MarkerView {
    Absent,
    Unreadable,
    Content(Seq<char>),
}

impl View for MarkerFile {
    type V = MarkerView;

    open spec fn view(&self) -> MarkerView {
        match self {
            MarkerFile::Absent => MarkerView::Absent,
            MarkerFile::Unreadable => MarkerView::Unreadable,
            MarkerFile::Content(text) => MarkerView::Content(text@),
        }
    }
}

/// A recording's directory as it was found.
#[derive(Debug)]
pub struct DirSnapshot {
    /// What stands at the directory's own path; `None` where nothing does.
    pub root: Option<EntryKind>,
    /// Everything below the directory, at any depth, in the order in which
    /// the directories were read.
    pub entries: Vec<Entry>,
    /// The file `error.log` at the top of the directory.
    pub error_log: MarkerFile,
    /// The file `.failed` at the top of the directory.
    pub failed_marker: MarkerFile,
}

pub struct SnapshotView {
    pub root: Option<EntryKind>,
    pub entries: Seq<EntryView>,
    pub error_log: MarkerView,
    pub failed_marker: MarkerView,
}

/// The views of a list of entries.
pub open spec fn entry_views(entries: Seq<Entry>) -> Seq<EntryView> {
    entries.map_values(|e: Entry| e@)
}

impl View for DirSnapshot {
    type V = SnapshotView;

    open spec fn view(&self) -> SnapshotView {
        SnapshotView {
            root: self.root,
            entries: entry_views(self.entries@),
            error_log: self.error_log@,
            failed_marker: self.failed_marker@,
        }
    }
}

/// Something stands at `path`.
pub open spec fn listed(entries: Seq<EntryView>, path: Seq<char>) -> bool {
    exists|i: int| 0 <= i < entries.len() && #[trigger] entries[i].path == path
}

/// A directory stands at `path`.
pub open spec fn listed_dir(entries: Seq<EntryView>, path: Seq<char>) -> bool {
    exists|i: int|
        0 <= i < entries.len() && #[trigger] entries[i].path == path && entries[i].kind
            == EntryKind::Directory
}

/// The entry is a regular file directly in `dir` whose name has the
/// extension `ext`.
pub open spec fn is_file_in(e: EntryView, dir: Seq<char>, ext: Seq<char>) -> bool {
    &&& e.kind == EntryKind::File
    &&& name_in(e.path, dir) is Some
    &&& extension(name_in(e.path, dir)->0) == Some(ext)
}

/// The directory `dir` holds a regular file with the extension `ext`.
pub open spec fn holds_file(entries: Seq<EntryView>, dir: Seq<char>, ext: Seq<char>) -> bool {
    exists|i: int| 0 <= i < entries.len() && #[trigger] is_file_in(entries[i], dir, ext)
}

/// The names of the regular files with the extension `ext` directly in
/// `dir`, in the order of the entries.
pub open spec fn file_names(entries: Seq<EntryView>, dir: Seq<char>, ext: Seq<char>) -> Seq<
    Seq<char>,
>
    decreases entries.len(),
{
    if entries.len() == 0 {
        Seq::empty()
    } else {
        let before = file_names(entries.drop_last(), dir, ext);
        if is_file_in(entries.last(), dir, ext) {
            before.push(name_in(entries.last().path, dir)->0)
        } else {
            before
        }
    }
}

/// The names of all regular files directly in `dir`, in the order of the
/// entries.
pub open spec fn all_file_names(entries: Seq<EntryView>, dir: Seq<char>) -> Seq<Seq<char>>
    decreases entries.len(),
{
    if entries.len() == 0 {
        Seq::empty()
    } else {
        let before = all_file_names(entries.drop_last(), dir);
        let e = entries.last();
        if e.kind == EntryKind::File && name_in(e.path, dir) is Some {
            before.push(name_in(e.path, dir)->0)
        } else {
            before
        }
    }
}

/// A directory holds a file with an extension exactly where the list of such
/// files is not empty.
pub proof fn file_names_nonempty_iff_holds(
    entries: Seq<EntryView>,
    dir: Seq<char>,
    ext: Seq<char>,
)
    ensures
        file_names(entries, dir, ext).len() > 0 <==> holds_file(entries, dir, ext),
    decreases entries.len(),
{
    if entries.len() > 0 {
        let before = entries.drop_last();
        file_names_nonempty_iff_holds(before, dir, ext);
        if holds_file(entries, dir, ext) {
            let i = choose|i: int| 0 <= i < entries.len() && is_file_in(entries[i], dir, ext);
            if i < entries.len() - 1 {
                assert(is_file_in(before[i], dir, ext));
            }
        }
        if holds_file(before, dir, ext) {
            let i = choose|i: int| 0 <= i < before.len() && is_file_in(before[i], dir, ext);
            assert(is_file_in(entries[i], dir, ext));
        }
        if is_file_in(entries.last(), dir, ext) {
            assert(is_file_in(entries[entries.len() - 1], dir, ext));
        }
    }
}

impl DirSnapshot {
    /// Something stands at `path`, relative to the directory.
    pub fn contains_path(&self, path: &str) -> (r: bool)
        ensures
            r == listed(self@.entries, path@),
    {
        let mut i: usize = 0;
        while i < self.entries.len()
            invariant
                i <= self.entries.len(),
                forall|j: int| 0 <= j < i ==> self@.entries[j].path != path@,
            decreases self.entries.len() - i,
        {
            if str_eq(self.entries[i].path.as_str(), path) {
                assert(self@.entries[i as int].path == path@);
                return true;
            }
            i = i + 1;
        }
        false
    }

    /// A directory stands at `path`, relative to the directory.
    pub fn is_dir(&self, path: &str) -> (r: bool)
        ensures
            r == listed_dir(self@.entries, path@),
    {
        let mut i: usize = 0;
        while i < self.entries.len()
            invariant
                i <= self.entries.len(),
                forall|j: int|
                    0 <= j < i ==> !(self@.entries[j].path == path@ && self@.entries[j].kind
                        == EntryKind::Directory),
            decreases self.entries.len() - i,
        {
            if self.entries[i].kind == EntryKind::Directory && str_eq(
                self.entries[i].path.as_str(),
                path,
            ) {
                assert(self@.entries[i as int].path == path@);
                return true;
            }
            i = i + 1;
        }
        false
    }

    /// The name of the entry at `index`, where it is a regular file directly
    /// in `dir` with the extension `ext`.
    fn file_name_at(&self, index: usize, dir: &str, ext: &str) -> (r: Option<String>)
        requires
            index < self.entries.len(),
        ensures
            r is Some <==> is_file_in(self@.entries[index as int], dir@, ext@),
            r is Some ==> r->0@ == name_in(self@.entries[index as int].path, dir@)->0,
    {
        let entry = &self.entries[index];
        if entry.kind != EntryKind::File {
            return None;
        }
        match entry_name_in(entry.path.as_str(), dir) {
            None => None,
            Some(name) => {
                if has_extension(name.as_str(), ext) {
                    Some(name)
                } else {
                    None
                }
            },
        }
    }

    /// The directory `dir` holds a regular file with the extension `ext`.
    pub fn has_file_with_extension(&self, dir: &str, ext: &str) -> (r: bool)
        ensures
            r == holds_file(self@.entries, dir@, ext@),
    {
        let mut i: usize = 0;
        while i < self.entries.len()
            invariant
                i <= self.entries.len(),
                forall|j: int| 0 <= j < i ==> !is_file_in(self@.entries[j], dir@, ext@),
            decreases self.entries.len() - i,
        {
            if self.file_name_at(i, dir, ext).is_some() {
                return true;
            }
            i = i + 1;
        }
        false
    }

    /// The names of the regular files with the extension `ext` directly in
    /// `dir`, in the order of the entries.
    pub fn files_with_extension(&self, dir: &str, ext: &str) -> (r: Vec<String>)
        ensures
            texts(r@) == file_names(self@.entries, dir@, ext@),
    {
        let mut names: Vec<String> = Vec::new();
        let mut i: usize = 0;
        while i < self.entries.len()
            invariant
                i <= self.entries.len(),
                texts(names@) == file_names(
                    self@.entries.subrange(0, i as int),
                    dir@,
                    ext@,
                ),
            decreases self.entries.len() - i,
        {
            let ghost before = names@;
            assert(self@.entries.subrange(0, i + 1).drop_last() =~= self@.entries.subrange(
                0,
                i as int,
            ));
            match self.file_name_at(i, dir, ext) {
                Some(name) => {
                    names.push(name);
                    assert(texts(names@) =~= texts(before).push(name@));
                },
                None => {},
            }
            i = i + 1;
        }
        assert(self@.entries.subrange(0, i as int) =~= self@.entries);
        names
    }

    /// The names of all regular files directly in `dir`, in the order of the
    /// entries.
    pub fn files_in(&self, dir: &str) -> (r: Vec<String>)
        ensures
            texts(r@) == all_file_names(self@.entries, dir@),
    {
        let mut names: Vec<String> = Vec::new();
        let mut i: usize = 0;
        while i < self.entries.len()
            invariant
                i <= self.entries.len(),
                texts(names@) == all_file_names(self@.entries.subrange(0, i as int), dir@),
            decreases self.entries.len() - i,
        {
            let ghost before = names@;
            assert(self@.entries.subrange(0, i + 1).drop_last() =~= self@.entries.subrange(
                0,
                i as int,
            ));
            if self.entries[i].kind == EntryKind::File {
                match entry_name_in(self.entries[i].path.as_str(), dir) {
                    Some(name) => {
                        names.push(name);
                        assert(texts(names@) =~= texts(before).push(name@));
                    },
                    None => {},
                }
            }
            i = i + 1;
        }
        assert(self@.entries.subrange(0, i as int) =~= self@.entries);
        names
    }
}

} // verus!
