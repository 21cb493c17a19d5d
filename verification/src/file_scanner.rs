//! The recordings below a root directory, newest first, and selections
//! from them.

use crate::models::{fresh_recording, Recording, RecordingStatus, RecordingView, StatusView};
use crate::paths::{file_name, file_name_of};
use crate::snapshot::{DirSnapshot, EntryKind, SnapshotView};
use crate::status_detector::{
    file_sizes_of, status_of, structure_of, update_recording_status, StatusDetector,
};
use crate::text::{lowercase_of, str_eq, to_lowercase};
use vstd::prelude::*;
use vstd::string::*;

verus! {

/// One directory directly below the recordings root, as it was found.
#[derive(Debug)]
pub struct Candidate {
    /// The directory's path, as text with `/` between the components.
    pub path: String,
    /// When the directory was last modified, in seconds since the epoch;
    /// `None` where that could not be read.
    pub modified: Option<u64>,
    pub snapshot: DirSnapshot,
}

pub struct CandidateView {
    pub path: Seq<char>,
    pub modified: Option<u64>,
    pub snapshot: SnapshotView,
}

impl View for Candidate {
    type V = CandidateView;

    open spec fn view(&self) -> CandidateView {
        CandidateView { path: self.path@, modified: self.modified, snapshot: self.snapshot@ }
    }
}

/// The recordings root as it was found.
#[derive(Debug)]
pub struct RootSnapshot {
    /// What stands at the root's own path; `None` where nothing does.
    pub root: Option<EntryKind>,
    /// The entries directly below the root, in the order in which the root
    /// was read.
    pub children: Vec<Candidate>,
}

pub open spec fn candidate_views(children: Seq<Candidate>) -> Seq<CandidateView> {
    children.map_values(|c: Candidate| c@)
}

pub open spec fn recording_views(recordings: Seq<Recording>) -> Seq<RecordingView> {
    recordings.map_values(|r: Recording| r@)
}

/// The recording that a directory below the root gives: none where the
/// directory is no recording or cannot be made one; else the recording by
/// its path, with the status and file sizes that its contents show.
pub open spec fn scanned(c: CandidateView) -> Option<RecordingView> {
    if structure_of(c.snapshot) is Ok && fresh_recording(c.path, c.modified) is Ok {
        Some(
            RecordingView {
                status: status_of(c.snapshot),
                file_sizes: file_sizes_of(c.snapshot.entries),
                ..fresh_recording(c.path, c.modified)->Ok_0
            },
        )
    } else {
        None
    }
}

/// The recordings below the root in the order in which the root was read.
pub open spec fn found_recordings(children: Seq<CandidateView>) -> Seq<RecordingView>
    decreases children.len(),
{
    if children.len() == 0 {
        Seq::empty()
    } else {
        let before = found_recordings(children.drop_last());
        match scanned(children.last()) {
            Some(r) => before.push(r),
            None => before,
        }
    }
}

/// No recording stands before one that was modified later.
pub open spec fn newest_first(rs: Seq<RecordingView>) -> bool {
    forall|i: int, j: int| 0 <= i < j < rs.len() ==> rs[i].last_updated >= rs[j].last_updated
}

/// The recordings that were last modified at `t`, in their order.
pub open spec fn modified_at(rs: Seq<RecordingView>, t: u64) -> Seq<RecordingView> {
    rs.filter(|r: RecordingView| r.last_updated == t)
}

/// Whether a status goes by a lower-case label. A label that names no
/// status goes for every status.
pub open spec fn label_matches(status: StatusView, label: Seq<char>) -> bool {
    if label == "recorded"@ {
        status is Recorded
    } else if label == "extracted"@ {
        status is Extracted
    } else if label == "analyzed"@ {
        status is Analyzed
    } else if label == "setuprendered"@ {
        status is SetupRendered
    } else if label == "rendered"@ {
        status is Rendered
    } else if label == "uploaded"@ {
        status is Uploaded
    } else if label == "failed"@ {
        status is Failed
    } else {
        true
    }
}

/// The recordings whose status goes by the lower-case label, in their
/// order.
pub open spec fn with_label(rs: Seq<RecordingView>, label: Seq<char>) -> Seq<RecordingView> {
    rs.filter(|r: RecordingView| label_matches(r.status, label))
}

/// The recordings that are not uploaded yet, in their order.
pub open spec fn unfinished(rs: Seq<RecordingView>) -> Seq<RecordingView> {
    rs.filter(|r: RecordingView| !(r.status is Uploaded))
}

proof fn lemma_filter_push<A>(s: Seq<A>, x: A, pred: spec_fn(A) -> bool)
    ensures
        s.push(x).filter(pred) == if pred(x) {
            s.filter(pred).push(x)
        } else {
            s.filter(pred)
        },
{
    reveal(Seq::filter);
    assert(s.push(x).drop_last() =~= s);
}

proof fn lemma_filter_none<A>(s: Seq<A>, pred: spec_fn(A) -> bool)
    requires
        forall|i: int| 0 <= i < s.len() ==> !pred(s[i]),
    ensures
        s.filter(pred) == Seq::<A>::empty(),
    decreases s.len(),
{
    reveal(Seq::filter);
    if s.len() > 0 {
        lemma_filter_none(s.drop_last(), pred);
    }
}

proof fn lemma_modified_at_push(rs: Seq<RecordingView>, x: RecordingView, t: u64)
    ensures
        modified_at(rs.push(x), t) == if x.last_updated == t {
            modified_at(rs, t).push(x)
        } else {
            modified_at(rs, t)
        },
{
    lemma_filter_push(rs, x, |r: RecordingView| r.last_updated == t);
}

/// Putting a recording after every one that is as new or newer, and before
/// every older one, keeps the order and adds the recording behind those of
/// its own time.
proof fn lemma_insert_by_time(rs: Seq<RecordingView>, i: int, x: RecordingView, t: u64)
    requires
        newest_first(rs),
        0 <= i <= rs.len(),
        forall|j: int| 0 <= j < i ==> rs[j].last_updated >= x.last_updated,
        forall|j: int| i <= j < rs.len() ==> rs[j].last_updated < x.last_updated,
    ensures
        newest_first(rs.insert(i, x)),
        modified_at(rs.insert(i, x), t) == modified_at(rs.push(x), t),
{
    let pred = |r: RecordingView| r.last_updated == t;
    let head = rs.subrange(0, i);
    let tail = rs.subrange(i, rs.len() as int);
    let out = rs.insert(i, x);
    assert(out =~= head.push(x) + tail);
    assert(rs =~= head + tail);
    Seq::filter_distributes_over_add(head.push(x), tail, pred);
    Seq::filter_distributes_over_add(head, tail, pred);
    lemma_filter_push(head, x, pred);
    lemma_filter_push(rs, x, pred);
    if x.last_updated == t {
        lemma_filter_none(tail, pred);
        assert(head.filter(pred).push(x) + Seq::<RecordingView>::empty() =~= head.filter(
            pred,
        ).push(x));
        assert(head.filter(pred) + Seq::<RecordingView>::empty() =~= head.filter(pred));
    }
    assert forall|a: int, b: int| 0 <= a < b < out.len() implies out[a].last_updated
        >= out[b].last_updated by {
        if b < i {
            assert(out[a] == rs[a] && out[b] == rs[b]);
        } else if b == i {
            assert(out[a] == rs[a]);
        } else if a < i {
            assert(out[a] == rs[a] && out[b] == rs[b - 1]);
        } else if a == i {
            assert(out[b] == rs[b - 1]);
        } else {
            assert(out[a] == rs[a - 1] && out[b] == rs[b - 1]);
        }
    }
}

pub struct FileScanner;

impl FileScanner {
    /// The recordings directly below the root, the most recently modified
    /// first; recordings of one modification time stand in the order in which
    /// the root was read. A root that is missing or no directory has none,
    /// and a directory that is no recording, or cannot be made one, is left
    /// out.
    pub fn scan_recordings(root: &RootSnapshot) -> (r: Vec<Recording>)
        ensures
            root.root != Some(EntryKind::Directory) ==> r@.len() == 0,
            root.root == Some(EntryKind::Directory) ==> {
                &&& newest_first(recording_views(r@))
                &&& r@.len() == found_recordings(candidate_views(root.children@)).len()
                &&& forall|t: u64|
                    modified_at(recording_views(r@), t) == modified_at(
                        found_recordings(candidate_views(root.children@)),
                        t,
                    )
            },
    {
        let mut recordings: Vec<Recording> = Vec::new();
        match root.root {
            Some(EntryKind::Directory) => {},
            _ => {
                return recordings;
            },
        }
        let ghost all = candidate_views(root.children@);
        let mut k: usize = 0;
        assert(recording_views(recordings@) =~= Seq::<RecordingView>::empty());
        while k < root.children.len()
            invariant
                k <= root.children.len(),
                all == candidate_views(root.children@),
                newest_first(recording_views(recordings@)),
                recordings@.len() == found_recordings(all.subrange(0, k as int)).len(),
                forall|t: u64|
                    modified_at(recording_views(recordings@), t) == modified_at(
                        found_recordings(all.subrange(0, k as int)),
                        t,
                    ),
            decreases root.children.len() - k,
        {
            let child = &root.children[k];
            assert(all.subrange(0, k + 1).drop_last() =~= all.subrange(0, k as int));
            assert(all.subrange(0, k + 1).last() == child@);
            if Self::is_valid_recording_dir(&child.snapshot) {
                match Recording::from_path(child.path.as_str(), child.modified) {
                    Ok(made) => {
                        let mut recording = made;
                        update_recording_status(&mut recording, &child.snapshot);
                        assert(scanned(child@) == Some(recording@));
                        let ghost before = recording_views(recordings@);
                        let ghost found = found_recordings(all.subrange(0, k as int));
                        let mut i: usize = 0;
                        while i < recordings.len() && recordings[i].last_updated
                            >= recording.last_updated
                            invariant
                                i <= recordings.len(),
                                forall|j: int|
                                    0 <= j < i ==> recordings@[j].last_updated
                                        >= recording.last_updated,
                            decreases recordings.len() - i,
                        {
                            i = i + 1;
                        }
                        proof {
                            assert forall|j: int| i <= j < before.len() implies before[j].last_updated
                                < recording.last_updated by {
                                assert(before[i as int].last_updated < recording.last_updated);
                                if j > i {
                                    assert(before[i as int].last_updated
                                        >= before[j].last_updated);
                                }
                            }
                            assert forall|t: u64|
                                modified_at(before.insert(i as int, recording@), t) == modified_at(
                                    found.push(recording@),
                                    t,
                                ) by {
                                lemma_insert_by_time(before, i as int, recording@, t);
                                lemma_modified_at_push(before, recording@, t);
                                lemma_modified_at_push(found, recording@, t);
                                assert(modified_at(before, t) == modified_at(found, t));
                            }
                            lemma_insert_by_time(before, i as int, recording@, 0);
                        }
                        let ghost view = recording@;
                        recordings.insert(i, recording);
                        assert(recording_views(recordings@) =~= before.insert(i as int, view));
                    },
                    Err(_) => {},
                }
            }
            k = k + 1;
        }
        assert(all.subrange(0, k as int) =~= all);
        recordings
    }

    /// Whether the directory is a recording.
    pub fn is_valid_recording_dir(snapshot: &DirSnapshot) -> (r: bool)
        ensures
            r == (structure_of(snapshot@) is Ok),
    {
        StatusDetector::validate_recording_structure(snapshot).is_ok()
    }

    /// The name of the recording at `path`: the path's final component, or
    /// `unknown` where it has none. The components of `path` are separated
    /// by `/`.
    pub fn get_recording_name(path: &str) -> (r: String)
        ensures
            r@ == (match file_name(path@) {
                Some(name) => name,
                None => "unknown"@,
            }),
    {
        match file_name_of(path) {
            Some(name) => name,
            None => String::from_str("unknown"),
        }
    }

    /// Whether the status goes by the label, which is in lower case
    /// already.
    pub fn status_has_label(status: &RecordingStatus, label: &str) -> (r: bool)
        ensures
            r == label_matches(status@, label@),
    {
        if str_eq(label, "recorded") {
            matches!(status, RecordingStatus::Recorded)
        } else if str_eq(label, "extracted") {
            matches!(status, RecordingStatus::Extracted)
        } else if str_eq(label, "analyzed") {
            matches!(status, RecordingStatus::Analyzed)
        } else if str_eq(label, "setuprendered") {
            matches!(status, RecordingStatus::SetupRendered)
        } else if str_eq(label, "rendered") {
            matches!(status, RecordingStatus::Rendered)
        } else if str_eq(label, "uploaded") {
            matches!(status, RecordingStatus::Uploaded)
        } else if str_eq(label, "failed") {
            matches!(status, RecordingStatus::Failed(_))
        } else {
            true
        }
    }

    /// The recordings whose status goes by the label, which is in lower case
    /// already, in their order.
    pub fn filter_by_label(recordings: &[Recording], label: &str) -> (r: Vec<Recording>)
        ensures
            recording_views(r@) == with_label(recording_views(recordings@), label@),
    {
        let ghost all = recording_views(recordings@);
        let ghost pred = |r: RecordingView| label_matches(r.status, label@);
        let mut out: Vec<Recording> = Vec::new();
        let mut i: usize = 0;
        proof {
            lemma_filter_none(all.subrange(0, 0), pred);
        }
        assert(recording_views(out@) =~= Seq::<RecordingView>::empty());
        while i < recordings.len()
            invariant
                i <= recordings.len(),
                all == recording_views(recordings@),
                pred == (|r: RecordingView| label_matches(r.status, label@)),
                recording_views(out@) == all.subrange(0, i as int).filter(pred),
            decreases recordings.len() - i,
        {
            let ghost before = recording_views(out@);
            proof {
                lemma_filter_push(all.subrange(0, i as int), all[i as int], pred);
                assert(all.subrange(0, i + 1) =~= all.subrange(0, i as int).push(all[i as int]));
            }
            if Self::status_has_label(&recordings[i].status, label) {
                out.push(recordings[i].clone());
                assert(recording_views(out@) =~= before.push(all[i as int]));
            }
            i = i + 1;
        }
        assert(all.subrange(0, i as int) =~= all);
        out
    }

    /// The recordings whose status goes by the label, in their order. Upper
    /// and lower case are not told apart, and a label that names no status
    /// selects every recording.
    pub fn filter_by_status(recordings: &[Recording], status_filter: &str) -> (r: Vec<Recording>)
        ensures
            recording_views(r@) == with_label(
                recording_views(recordings@),
                lowercase_of(status_filter@),
            ),
    {
        let label = to_lowercase(status_filter);
        Self::filter_by_label(recordings, label.as_str())
    }

    /// The recordings that are not uploaded yet: the failed ones and those at
    /// any earlier stage, in their order.
    pub fn get_recordings_needing_attention(recordings: &[Recording]) -> (r: Vec<Recording>)
        ensures
            recording_views(r@) == unfinished(recording_views(recordings@)),
    {
        let ghost all = recording_views(recordings@);
        let ghost pred = |r: RecordingView| !(r.status is Uploaded);
        let mut out: Vec<Recording> = Vec::new();
        let mut i: usize = 0;
        proof {
            lemma_filter_none(all.subrange(0, 0), pred);
        }
        assert(recording_views(out@) =~= Seq::<RecordingView>::empty());
        while i < recordings.len()
            invariant
                i <= recordings.len(),
                all == recording_views(recordings@),
                pred == (|r: RecordingView| !(r.status is Uploaded)),
                recording_views(out@) == all.subrange(0, i as int).filter(pred),
            decreases recordings.len() - i,
        {
            let ghost before = recording_views(out@);
            proof {
                lemma_filter_push(all.subrange(0, i as int), all[i as int], pred);
                assert(all.subrange(0, i + 1) =~= all.subrange(0, i as int).push(all[i as int]));
            }
            let uploaded = matches!(&recordings[i].status, RecordingStatus::Uploaded);
            if !uploaded {
                out.push(recordings[i].clone());
                assert(recording_views(out@) =~= before.push(all[i as int]));
            }
            i = i + 1;
        }
        assert(all.subrange(0, i as int) =~= all);
        out
    }
}

/// The recordings that need attention are those that are not uploaded, and
/// no others.
pub proof fn unfinished_is_all_but_uploaded(rs: Seq<RecordingView>, r: RecordingView)
    ensures
        unfinished(rs).contains(r) <==> rs.contains(r) && !(r.status is Uploaded),
{
    let pred = |x: RecordingView| !(x.status is Uploaded);
    broadcast use vstd::seq_lib::group_filter_ensures;

    if unfinished(rs).contains(r) {
        rs.lemma_filter_contains_rev(pred, r);
    }
    if rs.contains(r) && !(r.status is Uploaded) {
        let i = choose|i: int| 0 <= i < rs.len() && rs[i] == r;
        assert(pred(rs[i]));
        assert(rs.filter(pred).contains(rs[i]));
    }
}

/// Every recording that a scan finds stands in its result, and nothing
/// else does.
pub proof fn scan_keeps_what_it_finds(
    result: Seq<RecordingView>,
    found: Seq<RecordingView>,
    r: RecordingView,
)
    requires
        forall|t: u64| modified_at(result, t) == modified_at(found, t),
    ensures
        result.contains(r) <==> found.contains(r),
{
    let t = r.last_updated;
    let pred = |x: RecordingView| x.last_updated == t;
    broadcast use vstd::seq_lib::group_filter_ensures;

    assert(modified_at(result, t) == modified_at(found, t));
    if result.contains(r) {
        let i = choose|i: int| 0 <= i < result.len() && result[i] == r;
        assert(pred(result[i]));
        assert(result.filter(pred).contains(result[i]));
        found.lemma_filter_contains_rev(pred, r);
    }
    if found.contains(r) {
        let i = choose|i: int| 0 <= i < found.len() && found[i] == r;
        assert(pred(found[i]));
        assert(found.filter(pred).contains(found[i]));
        result.lemma_filter_contains_rev(pred, r);
    }
}

} // verus!
