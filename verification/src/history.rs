//! Undo/redo history of reversible edit records.
//!
//! Each [`HistoryEntry`] is self-contained: undoing it restores the state
//! before the edit and redoing it reapplies the edit. The same value moves
//! between the undo and redo stacks.

use vstd::prelude::*;

use crate::error::EditorError;
use crate::ids::{ClipId, MediaAssetId, TrackId};
use crate::project::{Project, ProjectV};
use crate::selection::Selection;
use crate::time::{SourceOffset, TimelineDuration, TimelinePosition, TimelineRange};
use crate::timeline::{
    clip_index, find_clip_spec, insert_on_track, lemma_reinsert_on_track, remove_from_track,
    scan_on_track, track_index, Clip, ClipV, Track, TrackV,
};

verus! {

/// Timeline placement and source window of a clip.
#[derive(Debug, Clone, Copy, PartialEq, Eq, Structural)]
pub struct ClipTiming {
    pub start: TimelinePosition,
    pub source_offset: SourceOffset,
    pub duration: TimelineDuration,
}

/// Abstract timing in microseconds.
pub struct TimingV {
    pub start: u64,
    pub offset: u64,
    pub dur: u64,
}

impl View for ClipTiming {
    type V = TimingV;

    open spec fn view(&self) -> TimingV {
        TimingV { start: self.start@, offset: self.source_offset@, dur: self.duration@ }
    }
}

impl TimingV {
    pub open spec fn of(c: ClipV) -> TimingV {
        TimingV { start: c.start, offset: c.offset, dur: c.dur }
    }
}

/// `c` with the timing `t`.
pub open spec fn timed(c: ClipV, t: TimingV) -> ClipV {
    c.with_timing(t.start, t.offset, t.dur)
}

/// Self-contained reversible record. The same value is moved between undo/redo stacks.
#[derive(Debug, PartialEq, Eq)]
pub enum HistoryEntry {
    RegisterAsset { id: MediaAssetId, selection_before: Selection },
    UnregisterAsset { id: MediaAssetId, selection_before: Selection },
    AddTrack { index: usize, track: Track, selection_before: Selection },
    RemoveTrack { index: usize, track: Track, selection_before: Selection },
    InsertClip { track_id: TrackId, clip: Clip, selection_before: Selection },
    DeleteClip { track_id: TrackId, clip: Clip, selection_before: Selection },
    MoveClip {
        id: ClipId,
        from_track: TrackId,
        to_track: TrackId,
        from: ClipTiming,
        to: ClipTiming,
        selection_before: Selection,
    },
    TrimClip {
        id: ClipId,
        track_id: TrackId,
        before: ClipTiming,
        after: ClipTiming,
        selection_before: Selection,
    },
    SplitClip {
        track_id: TrackId,
        left_id: ClipId,
        left_before: ClipTiming,
        left_after: ClipTiming,
        right: Clip,
        selection_before: Selection,
    },
}

/// Abstract contents of a history entry.
pub enum EntryV {
    RegisterAsset { id: MediaAssetId, selection_before: Selection },
    UnregisterAsset { id: MediaAssetId, selection_before: Selection },
    AddTrack { index: nat, track: TrackV, selection_before: Selection },
    RemoveTrack { index: nat, track: TrackV, selection_before: Selection },
    InsertClip { track_id: TrackId, clip: ClipV, selection_before: Selection },
    DeleteClip { track_id: TrackId, clip: ClipV, selection_before: Selection },
    MoveClip {
        id: ClipId,
        from_track: TrackId,
        to_track: TrackId,
        from: TimingV,
        to: TimingV,
        selection_before: Selection,
    },
    TrimClip {
        id: ClipId,
        track_id: TrackId,
        before: TimingV,
        after: TimingV,
        selection_before: Selection,
    },
    SplitClip {
        track_id: TrackId,
        left_id: ClipId,
        left_before: TimingV,
        left_after: TimingV,
        right: ClipV,
        selection_before: Selection,
    },
}

impl View for HistoryEntry {
    type V = EntryV;

    open spec fn view(&self) -> EntryV {
        match self {
            HistoryEntry::RegisterAsset { id, selection_before } => EntryV::RegisterAsset {
                id: *id,
                selection_before: *selection_before,
            },
            HistoryEntry::UnregisterAsset { id, selection_before } => EntryV::UnregisterAsset {
                id: *id,
                selection_before: *selection_before,
            },
            HistoryEntry::AddTrack { index, track, selection_before } => EntryV::AddTrack {
                index: *index as nat,
                track: track@,
                selection_before: *selection_before,
            },
            HistoryEntry::RemoveTrack { index, track, selection_before } => EntryV::RemoveTrack {
                index: *index as nat,
                track: track@,
                selection_before: *selection_before,
            },
            HistoryEntry::InsertClip { track_id, clip, selection_before } => EntryV::InsertClip {
                track_id: *track_id,
                clip: clip@,
                selection_before: *selection_before,
            },
            HistoryEntry::DeleteClip { track_id, clip, selection_before } => EntryV::DeleteClip {
                track_id: *track_id,
                clip: clip@,
                selection_before: *selection_before,
            },
            HistoryEntry::MoveClip { id, from_track, to_track, from, to, selection_before } =>
                EntryV::MoveClip {
                id: *id,
                from_track: *from_track,
                to_track: *to_track,
                from: from@,
                to: to@,
                selection_before: *selection_before,
            },
            HistoryEntry::TrimClip { id, track_id, before, after, selection_before } =>
                EntryV::TrimClip {
                id: *id,
                track_id: *track_id,
                before: before@,
                after: after@,
                selection_before: *selection_before,
            },
            HistoryEntry::SplitClip {
                track_id,
                left_id,
                left_before,
                left_after,
                right,
                selection_before,
            } => EntryV::SplitClip {
                track_id: *track_id,
                left_id: *left_id,
                left_before: left_before@,
                left_after: left_after@,
                right: right@,
                selection_before: *selection_before,
            },
        }
    }
}

impl EntryV {
    /// Values that every executable entry satisfies: positive durations and
    /// well-formed recorded tracks.
    pub open spec fn wf(self) -> bool {
        match self {
            EntryV::AddTrack { track, .. } => track.wf(),
            EntryV::RemoveTrack { track, .. } => track.wf(),
            EntryV::InsertClip { clip, .. } => clip.dur > 0,
            EntryV::DeleteClip { clip, .. } => clip.dur > 0,
            EntryV::MoveClip { from, to, .. } => from.dur > 0 && to.dur > 0,
            EntryV::TrimClip { before, after, .. } => before.dur > 0 && after.dur > 0,
            EntryV::SplitClip { left_before, left_after, right, .. } => left_before.dur > 0
                && left_after.dur > 0 && right.dur > 0,
            _ => true,
        }
    }

    /// Undoing or redoing the entry cannot panic in `p`: a recorded track
    /// index is within bounds where the entry reinserts a track.
    pub open spec fn insert_index_ok(self, undo: bool, p: ProjectV) -> bool {
        match self {
            EntryV::RemoveTrack { index, .. } => undo ==> index <= p.tracks.len(),
            EntryV::AddTrack { index, .. } => !undo ==> index <= p.tracks.len(),
            _ => true,
        }
    }
}

// ---------------------------------------------------------------------------
// Semantics of the timeline operations shared by undo and redo.

/// Gives the first clip named `id` on the first track named `track_id` the
/// timing `t`, after checking it clashes with no other clip there.
pub open spec fn retime_on_track(ts: Seq<TrackV>, track_id: TrackId, id: ClipId, t: TimingV) -> Result<
    Seq<TrackV>,
    EditorError,
> {
    match scan_on_track(ts, track_id, t.start, t.dur, Some(id)) {
        Err(e) => Err(e),
        Ok(_) => match remove_from_track(ts, track_id, id) {
            Err(e) => Err(e),
            Ok((c, rest)) => insert_on_track(rest, track_id, timed(c, t)),
        },
    }
}

/// Moves the first clip named `id` from track `from` to track `to` with timing `t`.
pub open spec fn move_between_tracks(
    ts: Seq<TrackV>,
    id: ClipId,
    from: TrackId,
    to: TrackId,
    t: TimingV,
) -> Result<Seq<TrackV>, EditorError> {
    if track_index(ts, from) is None || track_index(ts, to) is None {
        Err(EditorError::TrackNotFound)
    } else {
        let check = if from == to {
            scan_on_track(ts, from, t.start, t.dur, Some(id))
        } else {
            scan_on_track(ts, to, t.start, t.dur, None)
        };
        match check {
            Err(e) => Err(e),
            Ok(_) => match remove_from_track(ts, from, id) {
                Err(e) => Err(e),
                Ok((c, rest)) => insert_on_track(rest, to, timed(c, t)),
            },
        }
    }
}

/// Removes the right half of a split and restores the left clip's timing.
pub open spec fn unsplit(
    ts: Seq<TrackV>,
    track_id: TrackId,
    left_id: ClipId,
    left_before: TimingV,
    right: ClipV,
) -> Result<Seq<TrackV>, EditorError> {
    match remove_from_track(ts, track_id, right.id) {
        Err(e) => Err(e),
        Ok((_, rest)) => retime_on_track(rest, track_id, left_id, left_before),
    }
}

/// Reapplies a split: shortens the left clip and inserts the right one. When
/// the right clip cannot be inserted, the left clip gets back the timing the
/// first clip named `left_id` had; the state after that is reported too.
pub open spec fn resplit(
    ts: Seq<TrackV>,
    track_id: TrackId,
    left_id: ClipId,
    left_after: TimingV,
    right: ClipV,
) -> (Result<(), EditorError>, Seq<TrackV>) {
    match scan_on_track(ts, track_id, left_after.start, left_after.dur, Some(left_id)) {
        Err(e) => (Err(e), ts),
        Ok(_) => match scan_on_track(ts, track_id, right.start, right.dur, Some(left_id)) {
            Err(e) => (Err(e), ts),
            Ok(_) => match find_clip_spec(ts, left_id) {
                None => (Err(EditorError::ClipNotFound), ts),
                Some((_, left)) => match retime_on_track(ts, track_id, left_id, left_after) {
                    Err(e) => (Err(e), ts),
                    Ok(ts1) => match insert_on_track(ts1, track_id, right) {
                        Ok(ts2) => (Ok(()), ts2),
                        Err(e) => match retime_on_track(ts1, track_id, left_id, TimingV::of(left)) {
                            Ok(ts3) => (Err(e), ts3),
                            Err(e2) => (Err(e2), ts1),
                        },
                    },
                },
            },
        },
    }
}

/// `p` with its selection cleared when `clear` holds.
pub open spec fn clear_if(p: ProjectV, clear: bool) -> ProjectV {
    if clear {
        p.with_selection(Selection::Nothing)
    } else {
        p
    }
}

/// Whether removing `track` drops the selected object.
pub open spec fn selection_in_track(s: Selection, track: TrackV) -> bool {
    match s {
        Selection::Track(tid) => tid == track.id,
        Selection::Clip(cid) => clip_index(track.clips, cid) is Some,
        _ => false,
    }
}

/// State after undoing `e` in `p`; an error leaves `p` unchanged.
pub open spec fn undo_spec(e: EntryV, p: ProjectV) -> Result<ProjectV, EditorError> {
    match e {
        EntryV::RegisterAsset { id, selection_before } => if p.pool.contains(id) {
            Ok(p.with_pool(p.pool.remove(id)).with_selection(selection_before))
        } else {
            Err(EditorError::AssetNotFound)
        },
        EntryV::UnregisterAsset { id, selection_before } => if p.pool.contains(id) {
            Err(EditorError::DuplicateId)
        } else {
            Ok(p.with_pool(p.pool.insert(id)).with_selection(selection_before))
        },
        EntryV::AddTrack { track, selection_before, .. } => match track_index(p.tracks, track.id) {
            None => Err(EditorError::TrackNotFound),
            Some(k) => Ok(p.with_tracks(p.tracks.remove(k)).with_selection(selection_before)),
        },
        EntryV::RemoveTrack { index, track, selection_before } => Ok(
            p.with_tracks(p.tracks.insert(index as int, track)).with_selection(selection_before),
        ),
        EntryV::InsertClip { track_id, clip, selection_before } => match remove_from_track(
            p.tracks,
            track_id,
            clip.id,
        ) {
            Err(e) => Err(e),
            Ok((_, ts)) => Ok(p.with_tracks(ts).with_selection(selection_before)),
        },
        EntryV::DeleteClip { track_id, clip, selection_before } => match insert_on_track(
            p.tracks,
            track_id,
            clip,
        ) {
            Err(e) => Err(e),
            Ok(ts) => Ok(p.with_tracks(ts).with_selection(selection_before)),
        },
        EntryV::MoveClip { id, from_track, to_track, from, selection_before, .. } => match
            move_between_tracks(p.tracks, id, to_track, from_track, from) {
            Err(e) => Err(e),
            Ok(ts) => Ok(p.with_tracks(ts).with_selection(selection_before)),
        },
        EntryV::TrimClip { id, track_id, before, selection_before, .. } => match retime_on_track(
            p.tracks,
            track_id,
            id,
            before,
        ) {
            Err(e) => Err(e),
            Ok(ts) => Ok(p.with_tracks(ts).with_selection(selection_before)),
        },
        EntryV::SplitClip { track_id, left_id, left_before, right, selection_before, .. } => match
            unsplit(p.tracks, track_id, left_id, left_before, right) {
            Err(e) => Err(e),
            Ok(ts) => Ok(p.with_tracks(ts).with_selection(selection_before)),
        },
    }
}

/// Result and state after redoing `e` in `p`. Only a failed split can leave
/// a changed state behind.
pub open spec fn redo_spec(e: EntryV, p: ProjectV) -> (Result<(), EditorError>, ProjectV) {
    match e {
        EntryV::RegisterAsset { id, selection_before } => if p.pool.contains(id) {
            (Err(EditorError::DuplicateId), p)
        } else {
            (Ok(()), p.with_pool(p.pool.insert(id)).with_selection(selection_before))
        },
        EntryV::UnregisterAsset { id, .. } => if p.pool.contains(id) {
            (
                Ok(()),
                clear_if(
                    p.with_pool(p.pool.remove(id)),
                    p.selection == Selection::MediaAsset(id),
                ),
            )
        } else {
            (Err(EditorError::AssetNotFound), p)
        },
        EntryV::AddTrack { index, track, selection_before } => (
            Ok(()),
            p.with_tracks(p.tracks.insert(index as int, track)).with_selection(selection_before),
        ),
        EntryV::RemoveTrack { track, .. } => match track_index(p.tracks, track.id) {
            None => (Err(EditorError::TrackNotFound), p),
            Some(k) => (
                Ok(()),
                clear_if(
                    p.with_tracks(p.tracks.remove(k)),
                    selection_in_track(p.selection, p.tracks[k]),
                ),
            ),
        },
        EntryV::InsertClip { track_id, clip, selection_before } => match insert_on_track(
            p.tracks,
            track_id,
            clip,
        ) {
            Err(e) => (Err(e), p),
            Ok(ts) => (Ok(()), p.with_tracks(ts).with_selection(selection_before)),
        },
        EntryV::DeleteClip { track_id, clip, .. } => match remove_from_track(
            p.tracks,
            track_id,
            clip.id,
        ) {
            Err(e) => (Err(e), p),
            Ok((_, ts)) => (
                Ok(()),
                clear_if(p.with_tracks(ts), p.selection == Selection::Clip(clip.id)),
            ),
        },
        EntryV::MoveClip { id, from_track, to_track, to, selection_before, .. } => match
            move_between_tracks(p.tracks, id, from_track, to_track, to) {
            Err(e) => (Err(e), p),
            Ok(ts) => (Ok(()), p.with_tracks(ts).with_selection(selection_before)),
        },
        EntryV::TrimClip { id, track_id, after, selection_before, .. } => match retime_on_track(
            p.tracks,
            track_id,
            id,
            after,
        ) {
            Err(e) => (Err(e), p),
            Ok(ts) => (Ok(()), p.with_tracks(ts).with_selection(selection_before)),
        },
        EntryV::SplitClip { track_id, left_id, left_after, right, selection_before, .. } => {
            let (r, ts) = resplit(p.tracks, track_id, left_id, left_after, right);
            match r {
                Err(e) => (Err(e), p.with_tracks(ts)),
                Ok(_) => (Ok(()), p.with_tracks(ts).with_selection(selection_before)),
            }
        },
    }
}

// ---------------------------------------------------------------------------
// Executable undo and redo.

/// Timing of `clip` as recorded in history entries.
fn timing_of(clip: &Clip) -> (t: ClipTiming)
    ensures
        t@ == TimingV::of(clip@),
{
    ClipTiming {
        start: clip.start(),
        source_offset: clip.source_offset(),
        duration: clip.duration(),
    }
}

/// Gives clip `id` on track `track_id` the timing `timing` (see [`retime_on_track`]).
/// A failure leaves the project unchanged.
pub fn set_clip_timing(
    project: &mut Project,
    track_id: TrackId,
    id: ClipId,
    timing: ClipTiming,
) -> (r: Result<(), EditorError>)
    requires
        old(project)@.wf(),
    ensures
        final(project)@.wf(),
        match retime_on_track(old(project)@.tracks, track_id, id, timing@) {
            Ok(ts) => r is Ok && final(project)@ == old(project)@.with_tracks(ts),
            Err(e) => r == Err::<(), EditorError>(e) && final(project)@ == old(project)@,
        },
{
    let ghost p0 = project@;
    let candidate = TimelineRange::new(timing.start, timing.duration);
    project.timeline().ensure_no_overlap_on(track_id, candidate, Some(id))?;
    let mut clip = project.timeline_mut().remove_clip_from(track_id, id)?;
    proof {
        lemma_reinsert_on_track(p0.tracks, track_id, id);
    }
    let original = timing_of(&clip);
    clip.set_timing(timing.start, timing.source_offset, timing.duration);
    match project.timeline_mut().insert_clip_on(track_id, clip) {
        Ok(()) => Ok(()),
        Err(err) => {
            clip.set_timing(original.start, original.source_offset, original.duration);
            match project.timeline_mut().insert_clip_on(track_id, clip) {
                Ok(()) => Err(err),
                Err(restore_err) => Err(restore_err),
            }
        },
    }
}

/// Moves clip `id` from `from_track` to `to_track` with timing `timing`
/// (see [`move_between_tracks`]). A failure leaves the project unchanged.
pub fn move_clip(
    project: &mut Project,
    id: ClipId,
    from_track: TrackId,
    to_track: TrackId,
    timing: ClipTiming,
) -> (r: Result<(), EditorError>)
    requires
        old(project)@.wf(),
    ensures
        final(project)@.wf(),
        match move_between_tracks(old(project)@.tracks, id, from_track, to_track, timing@) {
            Ok(ts) => r is Ok && final(project)@ == old(project)@.with_tracks(ts),
            Err(e) => r == Err::<(), EditorError>(e) && final(project)@ == old(project)@,
        },
{
    let ghost p0 = project@;
    let _ = project.timeline().track(from_track)?;
    let _ = project.timeline().track(to_track)?;
    let candidate = TimelineRange::new(timing.start, timing.duration);
    if from_track == to_track {
        project.timeline().ensure_no_overlap_on(from_track, candidate, Some(id))?;
    } else {
        project.timeline().ensure_no_overlap_on(to_track, candidate, None)?;
    }
    let mut clip = project.timeline_mut().remove_clip_from(from_track, id)?;
    proof {
        lemma_reinsert_on_track(p0.tracks, from_track, id);
    }
    let original = timing_of(&clip);
    clip.set_timing(timing.start, timing.source_offset, timing.duration);
    match project.timeline_mut().insert_clip_on(to_track, clip) {
        Ok(()) => Ok(()),
        Err(err) => {
            clip.set_timing(original.start, original.source_offset, original.duration);
            match project.timeline_mut().insert_clip_on(from_track, clip) {
                Ok(()) => Err(err),
                Err(restore_err) => Err(restore_err),
            }
        },
    }
}

/// Removes the right half of a split and restores the left clip's timing
/// (see [`unsplit`]). A failure leaves the project unchanged.
pub fn undo_split(
    project: &mut Project,
    track_id: TrackId,
    left_id: ClipId,
    left_before: ClipTiming,
    right: &Clip,
) -> (r: Result<(), EditorError>)
    requires
        old(project)@.wf(),
    ensures
        final(project)@.wf(),
        match unsplit(old(project)@.tracks, track_id, left_id, left_before@, right@) {
            Ok(ts) => r is Ok && final(project)@ == old(project)@.with_tracks(ts),
            Err(e) => r == Err::<(), EditorError>(e) && final(project)@ == old(project)@,
        },
{
    let ghost p0 = project@;
    let right_id = right.id();
    let removed_right = project.timeline_mut().remove_clip_from(track_id, right_id)?;
    proof {
        lemma_reinsert_on_track(p0.tracks, track_id, right_id);
    }
    match set_clip_timing(project, track_id, left_id, left_before) {
        Ok(()) => Ok(()),
        Err(err) => match project.timeline_mut().insert_clip_on(track_id, removed_right) {
            Ok(()) => Err(err),
            Err(restore_err) => Err(restore_err),
        },
    }
}

/// Reapplies a split (see [`resplit`]).
pub fn redo_split(
    project: &mut Project,
    track_id: TrackId,
    left_id: ClipId,
    left_after: ClipTiming,
    right: &Clip,
) -> (r: Result<(), EditorError>)
    requires
        old(project)@.wf(),
    ensures
        final(project)@.wf(),
        r == resplit(old(project)@.tracks, track_id, left_id, left_after@, right@).0,
        final(project)@ == old(project)@.with_tracks(
            resplit(old(project)@.tracks, track_id, left_id, left_after@, right@).1,
        ),
{
    let ghost p0 = project@;
    assert(p0.with_tracks(p0.tracks) == p0);
    let left_range = TimelineRange::new(left_after.start, left_after.duration);
    let right_range = right.range();
    project.timeline().ensure_no_overlap_on(track_id, left_range, Some(left_id))?;
    project.timeline().ensure_no_overlap_on(track_id, right_range, Some(left_id))?;
    let left = match project.timeline().find_clip(left_id) {
        Some((_, c)) => *c,
        None => return Err(EditorError::ClipNotFound),
    };
    let left_before = timing_of(&left);
    set_clip_timing(project, track_id, left_id, left_after)?;
    match project.timeline_mut().insert_clip_on(track_id, *right) {
        Ok(()) => Ok(()),
        Err(err) => match set_clip_timing(project, track_id, left_id, left_before) {
            Ok(()) => Err(err),
            Err(restore_err) => Err(restore_err),
        },
    }
}

impl HistoryEntry {
    /// Restores the state before the recorded edit (see [`undo_spec`]).
    /// A failure leaves the project unchanged.
    pub fn undo(&self, project: &mut Project) -> (r: Result<(), EditorError>)
        requires
            old(project)@.wf(),
            self@.wf(),
            self@.insert_index_ok(true, old(project)@),
        ensures
            final(project)@.wf(),
            match undo_spec(self@, old(project)@) {
                Ok(p) => r is Ok && final(project)@ == p,
                Err(e) => r == Err::<(), EditorError>(e) && final(project)@ == old(project)@,
            },
    {
        let ghost p0 = project@;
        match self {
            HistoryEntry::RegisterAsset { id, selection_before } => {
                project.media_pool_mut().unregister(*id)?;
                let id = *id;
                let sel = project.selection();
                project.clear_selection_if(sel == Selection::MediaAsset(id));
                project.set_selection_raw(*selection_before);
            },
            HistoryEntry::UnregisterAsset { id, selection_before } => {
                project.media_pool_mut().register(*id)?;
                project.set_selection_raw(*selection_before);
            },
            HistoryEntry::AddTrack { track, selection_before, .. } => {
                let id = track.id();
                let (_, removed) = project.timeline_mut().remove_track(id)?;
                proof {
                    crate::timeline::lemma_track_index(p0.tracks, id);
                }
                let sel = project.selection();
                let drop = match sel {
                    Selection::Track(tid) => tid == id,
                    Selection::Clip(cid) => removed.find_clip(cid).is_some(),
                    _ => false,
                };
                assert(drop == selection_in_track(sel, removed@));
                project.clear_selection_if(drop);
                project.set_selection_raw(*selection_before);
            },
            HistoryEntry::RemoveTrack { index, track, selection_before } => {
                project.timeline_mut().insert_track_at(*index, track.clone());
                project.set_selection_raw(*selection_before);
            },
            HistoryEntry::InsertClip { track_id, clip, selection_before } => {
                let id = clip.id();
                project.timeline_mut().remove_clip_from(*track_id, id)?;
                let sel = project.selection();
                project.clear_selection_if(sel == Selection::Clip(id));
                project.set_selection_raw(*selection_before);
            },
            HistoryEntry::DeleteClip { track_id, clip, selection_before } => {
                project.timeline_mut().insert_clip_on(*track_id, *clip)?;
                project.set_selection_raw(*selection_before);
            },
            HistoryEntry::MoveClip { id, from_track, to_track, from, selection_before, .. } => {
                move_clip(project, *id, *to_track, *from_track, *from)?;
                project.set_selection_raw(*selection_before);
            },
            HistoryEntry::TrimClip { id, track_id, before, selection_before, .. } => {
                set_clip_timing(project, *track_id, *id, *before)?;
                project.set_selection_raw(*selection_before);
            },
            HistoryEntry::SplitClip {
                track_id,
                left_id,
                left_before,
                right,
                selection_before,
                ..
            } => {
                undo_split(project, *track_id, *left_id, *left_before, right)?;
                let right_id = right.id();
                let left_id = *left_id;
                let sel = project.selection();
                project.clear_selection_if(sel == Selection::Clip(right_id) || sel == Selection::Clip(left_id));
                project.set_selection_raw(*selection_before);
            },
        }
        Ok(())
    }

    /// Reapplies the recorded edit (see [`redo_spec`]).
    pub fn redo(&self, project: &mut Project) -> (r: Result<(), EditorError>)
        requires
            old(project)@.wf(),
            self@.wf(),
            self@.insert_index_ok(false, old(project)@),
        ensures
            final(project)@.wf(),
            r == redo_spec(self@, old(project)@).0,
            final(project)@ == redo_spec(self@, old(project)@).1,
    {
        let ghost p0 = project@;
        match self {
            HistoryEntry::RegisterAsset { id, selection_before } => {
                project.media_pool_mut().register(*id)?;
                project.set_selection_raw(*selection_before);
            },
            HistoryEntry::UnregisterAsset { id, .. } => {
                project.media_pool_mut().unregister(*id)?;
                let id = *id;
                let sel = project.selection();
                project.clear_selection_if(sel == Selection::MediaAsset(id));
            },
            HistoryEntry::AddTrack { index, track, selection_before } => {
                project.timeline_mut().insert_track_at(*index, track.clone());
                project.set_selection_raw(*selection_before);
            },
            HistoryEntry::RemoveTrack { track, .. } => {
                let id = track.id();
                let (_, removed) = project.timeline_mut().remove_track(id)?;
                proof {
                    crate::timeline::lemma_track_index(p0.tracks, id);
                }
                let sel = project.selection();
                let drop = match sel {
                    Selection::Track(tid) => tid == id,
                    Selection::Clip(cid) => removed.find_clip(cid).is_some(),
                    _ => false,
                };
                assert(drop == selection_in_track(sel, removed@));
                project.clear_selection_if(drop);
            },
            HistoryEntry::InsertClip { track_id, clip, selection_before } => {
                project.timeline_mut().insert_clip_on(*track_id, *clip)?;
                project.set_selection_raw(*selection_before);
            },
            HistoryEntry::DeleteClip { track_id, clip, .. } => {
                let id = clip.id();
                project.timeline_mut().remove_clip_from(*track_id, id)?;
                let sel = project.selection();
                project.clear_selection_if(sel == Selection::Clip(id));
            },
            HistoryEntry::MoveClip { id, from_track, to_track, to, selection_before, .. } => {
                move_clip(project, *id, *from_track, *to_track, *to)?;
                project.set_selection_raw(*selection_before);
            },
            HistoryEntry::TrimClip { id, track_id, after, selection_before, .. } => {
                set_clip_timing(project, *track_id, *id, *after)?;
                project.set_selection_raw(*selection_before);
            },
            HistoryEntry::SplitClip {
                track_id,
                left_id,
                left_after,
                right,
                selection_before,
                ..
            } => {
                redo_split(project, *track_id, *left_id, *left_after, right)?;
                project.set_selection_raw(*selection_before);
            },
        }
        Ok(())
    }
}

pub open spec fn entry_views(v: Seq<HistoryEntry>) -> Seq<EntryV> {
    v.map_values(|e: HistoryEntry| e@)
}

/// Abstract contents of the history: both stacks, top last.
pub struct HistoryV {
    pub undo: Seq<EntryV>,
    pub redo: Seq<EntryV>,
}

/// Undo/redo stacks for the editor session (not persisted with the project).
#[derive(Debug, PartialEq, Eq)]
pub struct History {
    undo: Vec<HistoryEntry>,
    redo: Vec<HistoryEntry>,
}

impl View for History {
    type V = HistoryV;

    closed spec fn view(&self) -> HistoryV {
        HistoryV { undo: entry_views(self.undo@), redo: entry_views(self.redo@) }
    }
}

impl Clone for HistoryEntry {
    fn clone(&self) -> (r: Self)
        ensures
            r@ == self@,
    {
        match self {
            HistoryEntry::RegisterAsset { id, selection_before } => HistoryEntry::RegisterAsset {
                id: *id,
                selection_before: *selection_before,
            },
            HistoryEntry::UnregisterAsset { id, selection_before } => HistoryEntry::UnregisterAsset {
                id: *id,
                selection_before: *selection_before,
            },
            HistoryEntry::AddTrack { index, track, selection_before } => HistoryEntry::AddTrack {
                index: *index,
                track: track.clone(),
                selection_before: *selection_before,
            },
            HistoryEntry::RemoveTrack { index, track, selection_before } => {
                HistoryEntry::RemoveTrack {
                    index: *index,
                    track: track.clone(),
                    selection_before: *selection_before,
                }
            },
            HistoryEntry::InsertClip { track_id, clip, selection_before } => {
                HistoryEntry::InsertClip {
                    track_id: *track_id,
                    clip: *clip,
                    selection_before: *selection_before,
                }
            },
            HistoryEntry::DeleteClip { track_id, clip, selection_before } => {
                HistoryEntry::DeleteClip {
                    track_id: *track_id,
                    clip: *clip,
                    selection_before: *selection_before,
                }
            },
            HistoryEntry::MoveClip { id, from_track, to_track, from, to, selection_before } => {
                HistoryEntry::MoveClip {
                    id: *id,
                    from_track: *from_track,
                    to_track: *to_track,
                    from: *from,
                    to: *to,
                    selection_before: *selection_before,
                }
            },
            HistoryEntry::TrimClip { id, track_id, before, after, selection_before } => {
                HistoryEntry::TrimClip {
                    id: *id,
                    track_id: *track_id,
                    before: *before,
                    after: *after,
                    selection_before: *selection_before,
                }
            },
            HistoryEntry::SplitClip {
                track_id,
                left_id,
                left_before,
                left_after,
                right,
                selection_before,
            } => HistoryEntry::SplitClip {
                track_id: *track_id,
                left_id: *left_id,
                left_before: *left_before,
                left_after: *left_after,
                right: *right,
                selection_before: *selection_before,
            },
        }
    }
}

/// A copy of a stack of entries.
fn clone_entries(v: &Vec<HistoryEntry>) -> (r: Vec<HistoryEntry>)
    ensures
        entry_views(r@) == entry_views(v@),
{
    let mut r: Vec<HistoryEntry> = Vec::new();
    let mut i: usize = 0;
    while i < v.len()
        invariant
            i <= v.len(),
            entry_views(r@) == entry_views(v@.take(i as int)),
        decreases v.len() - i,
    {
        let e = v[i].clone();
        let ghost before = r@;
        r.push(e);
        assert(entry_views(r@) =~= entry_views(before).push(e@));
        assert(v@.take(i + 1) =~= v@.take(i as int).push(v@[i as int]));
        assert(entry_views(v@.take(i + 1)) =~= entry_views(v@.take(i as int)).push(v@[i as int]@));
        i += 1;
    }
    assert(v@.take(v.len() as int) =~= v@);
    r
}

impl Clone for History {
    fn clone(&self) -> (r: Self)
        ensures
            r@ == self@,
    {
        History { undo: clone_entries(&self.undo), redo: clone_entries(&self.redo) }
    }
}

impl Default for History {
    fn default() -> (h: Self)
        ensures
            h@.undo.len() == 0 && h@.redo.len() == 0,
    {
        History::new()
    }
}

impl History {
    /// Creates empty stacks.
    pub fn new() -> (h: Self)
        ensures
            h@.undo == Seq::<EntryV>::empty(),
            h@.redo == Seq::<EntryV>::empty(),
    {
        let h = History { undo: Vec::new(), redo: Vec::new() };
        assert(h@.undo =~= Seq::<EntryV>::empty());
        assert(h@.redo =~= Seq::<EntryV>::empty());
        h
    }

    /// Records a new edit: it goes on the undo stack and the redo stack empties.
    pub(crate) fn push(&mut self, entry: HistoryEntry)
        ensures
            final(self)@.undo == old(self)@.undo.push(entry@),
            final(self)@.redo == Seq::<EntryV>::empty(),
    {
        let ghost before = self@;
        self.undo.push(entry);
        self.redo.clear();
        assert(self@.undo =~= before.undo.push(entry@));
        assert(self@.redo =~= Seq::<EntryV>::empty());
    }

    /// Takes the most recent undo entry.
    pub(crate) fn pop_undo(&mut self) -> (r: Result<HistoryEntry, EditorError>)
        ensures
            old(self)@.undo.len() == 0 ==> r == Err::<HistoryEntry, EditorError>(
                EditorError::NothingToUndo,
            ) && final(self)@ == old(self)@,
            old(self)@.undo.len() > 0 ==> (r matches Ok(e) && e@ == old(self)@.undo.last()
                && final(self)@.undo == old(self)@.undo.drop_last() && final(self)@.redo == old(
                self,
            )@.redo),
    {
        let ghost before = self@;
        match self.undo.pop() {
            Some(e) => {
                assert(self@.undo =~= before.undo.drop_last());
                Ok(e)
            },
            None => Err(EditorError::NothingToUndo),
        }
    }

    /// Takes the most recent redo entry.
    pub(crate) fn pop_redo(&mut self) -> (r: Result<HistoryEntry, EditorError>)
        ensures
            old(self)@.redo.len() == 0 ==> r == Err::<HistoryEntry, EditorError>(
                EditorError::NothingToRedo,
            ) && final(self)@ == old(self)@,
            old(self)@.redo.len() > 0 ==> (r matches Ok(e) && e@ == old(self)@.redo.last()
                && final(self)@.redo == old(self)@.redo.drop_last() && final(self)@.undo == old(
                self,
            )@.undo),
    {
        let ghost before = self@;
        match self.redo.pop() {
            Some(e) => {
                assert(self@.redo =~= before.redo.drop_last());
                Ok(e)
            },
            None => Err(EditorError::NothingToRedo),
        }
    }

    /// Moves an undone entry onto the redo stack.
    pub(crate) fn push_redo(&mut self, entry: HistoryEntry)
        ensures
            final(self)@.redo == old(self)@.redo.push(entry@),
            final(self)@.undo == old(self)@.undo,
    {
        let ghost before = self@;
        self.redo.push(entry);
        assert(self@.redo =~= before.redo.push(entry@));
    }

    /// Moves a redone entry back onto the undo stack, keeping the redo stack.
    pub(crate) fn push_undo_keep_redo(&mut self, entry: HistoryEntry)
        ensures
            final(self)@.undo == old(self)@.undo.push(entry@),
            final(self)@.redo == old(self)@.redo,
    {
        let ghost before = self@;
        self.undo.push(entry);
        assert(self@.undo =~= before.undo.push(entry@));
    }

    /// Puts back an entry whose undo failed.
    pub(crate) fn restore_undo(&mut self, entry: HistoryEntry)
        ensures
            final(self)@.undo == old(self)@.undo.push(entry@),
            final(self)@.redo == old(self)@.redo,
    {
        let ghost before = self@;
        self.undo.push(entry);
        assert(self@.undo =~= before.undo.push(entry@));
    }

    /// Puts back an entry whose redo failed.
    pub(crate) fn restore_redo(&mut self, entry: HistoryEntry)
        ensures
            final(self)@.redo == old(self)@.redo.push(entry@),
            final(self)@.undo == old(self)@.undo,
    {
        let ghost before = self@;
        self.redo.push(entry);
        assert(self@.redo =~= before.redo.push(entry@));
    }

    /// Places an arbitrary entry on the undo stack (test hook).
    pub fn inject_undo_for_test(&mut self, entry: HistoryEntry)
        ensures
            final(self)@.undo == old(self)@.undo.push(entry@),
            final(self)@.redo == old(self)@.redo,
    {
        let ghost before = self@;
        self.undo.push(entry);
        assert(self@.undo =~= before.undo.push(entry@));
    }

    /// Places an arbitrary entry on the redo stack (test hook).
    pub fn inject_redo_for_test(&mut self, entry: HistoryEntry)
        ensures
            final(self)@.redo == old(self)@.redo.push(entry@),
            final(self)@.undo == old(self)@.undo,
    {
        let ghost before = self@;
        self.redo.push(entry);
        assert(self@.redo =~= before.redo.push(entry@));
    }

    /// Number of undo entries.
    pub fn undo_len(&self) -> (n: usize)
        ensures
            n == self@.undo.len(),
    {
        self.undo.len()
    }

    /// Number of redo entries.
    pub fn redo_len(&self) -> (n: usize)
        ensures
            n == self@.redo.len(),
    {
        self.redo.len()
    }

    /// Whether undo is available.
    pub fn can_undo(&self) -> (r: bool)
        ensures
            r == (self@.undo.len() > 0),
    {
        !self.undo.is_empty()
    }

    /// Whether redo is available.
    pub fn can_redo(&self) -> (r: bool)
        ensures
            r == (self@.redo.len() > 0),
    {
        !self.redo.is_empty()
    }
}

} // verus!
