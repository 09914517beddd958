//! Editor session: commands, selection, undo, and redo.

use vstd::prelude::*;

use crate::error::EditorError;
use crate::history::{
    clear_if, selection_in_track, timed, EntryV, History, HistoryEntry, HistoryV, ClipTiming,
    TimingV, undo_spec, redo_spec, move_between_tracks, retime_on_track,
};
use crate::ids::{ClipId, MediaAssetId, TrackId};
use crate::laws::{
    law_failed_redo_changes_nothing, law_recorded_exactly_when_changed,
    law_rejected_command_is_atomic,
};
use crate::project::{Project, ProjectV};
use crate::selection::Selection;
use crate::session::{
    consistent, consistent_from, lemma_no_start_without_consistency, lemma_consistent_apply, lemma_consistent_new, lemma_consistent_redo,
    lemma_consistent_select, lemma_consistent_undo, sound,
};
use crate::time::{end_fits, SourceOffset, TimelineDuration, TimelinePosition, TimelineRange};
use crate::timeline::{
    find_clip_spec, has_track, ids_unique, insert_on_track, remove_from_track, scan_on_track,
    timeline_has_clip,
    timeline_uses_asset, track_index, Clip, ClipV, Track, TrackKind, TrackV,
};

verus! {

broadcast use {
    TimelinePosition::lemma_view_injective,
    TimelineDuration::lemma_view_injective,
    SourceOffset::lemma_view_injective,
};

/// Explicit edit command. Callers supply all identity values.
#[derive(Debug, Clone, PartialEq, Eq)]
pub enum EditCommand {
    /// Register a media asset identity in the pool.
    RegisterAsset {
        /// Asset identity allocated by the caller.
        id: MediaAssetId,
    },
    /// Remove an unused media asset from the pool.
    UnregisterAsset {
        /// Asset to remove.
        id: MediaAssetId,
    },
    /// Append a track to the timeline.
    AddTrack {
        /// Track identity allocated by the caller.
        id: TrackId,
        /// Non-empty display name.
        name: String,
        /// Track kind.
        kind: TrackKind,
    },
    /// Remove a track and all of its clips.
    RemoveTrack {
        /// Track to remove.
        id: TrackId,
    },
    /// Insert a clip onto a track.
    InsertClip {
        /// Clip identity allocated by the caller.
        id: ClipId,
        /// Destination track.
        track_id: TrackId,
        /// Registered media asset.
        asset_id: MediaAssetId,
        /// Timeline start.
        start: TimelinePosition,
        /// Media source offset.
        source_offset: SourceOffset,
        /// Positive duration.
        duration: TimelineDuration,
    },
    /// Move a clip in time and optionally to another track of the same kind.
    MoveClip {
        /// Clip to move.
        id: ClipId,
        /// Destination track (may equal the current track).
        track_id: TrackId,
        /// New timeline start.
        start: TimelinePosition,
    },
    /// Change a clip's timeline placement and source window.
    TrimClip {
        /// Clip to trim.
        id: ClipId,
        /// New timeline start.
        start: TimelinePosition,
        /// New media source offset.
        source_offset: SourceOffset,
        /// New positive duration.
        duration: TimelineDuration,
    },
    /// Split a clip at an interior timeline position.
    SplitClip {
        /// Existing clip (becomes the left segment).
        id: ClipId,
        /// Strictly interior cut position.
        at: TimelinePosition,
        /// Identity for the new right segment.
        right_id: ClipId,
    },
    /// Delete a clip.
    DeleteClip {
        /// Clip to delete.
        id: ClipId,
    },
}

/// Abstract contents of a command.
pub enum CommandV {
    RegisterAsset { id: MediaAssetId },
    UnregisterAsset { id: MediaAssetId },
    AddTrack { id: TrackId, name: Seq<char>, kind: TrackKind },
    RemoveTrack { id: TrackId },
    InsertClip {
        id: ClipId,
        track_id: TrackId,
        asset_id: MediaAssetId,
        start: u64,
        offset: u64,
        dur: u64,
    },
    MoveClip { id: ClipId, track_id: TrackId, start: u64 },
    TrimClip { id: ClipId, start: u64, offset: u64, dur: u64 },
    SplitClip { id: ClipId, at: u64, right_id: ClipId },
    DeleteClip { id: ClipId },
}

impl View for EditCommand {
    type V = CommandV;

    open spec fn view(&self) -> CommandV {
        match self {
            EditCommand::RegisterAsset { id } => CommandV::RegisterAsset { id: *id },
            EditCommand::UnregisterAsset { id } => CommandV::UnregisterAsset { id: *id },
            EditCommand::AddTrack { id, name, kind } => CommandV::AddTrack {
                id: *id,
                name: name@,
                kind: *kind,
            },
            EditCommand::RemoveTrack { id } => CommandV::RemoveTrack { id: *id },
            EditCommand::InsertClip { id, track_id, asset_id, start, source_offset, duration } =>
                CommandV::InsertClip {
                id: *id,
                track_id: *track_id,
                asset_id: *asset_id,
                start: start@,
                offset: source_offset@,
                dur: duration@,
            },
            EditCommand::MoveClip { id, track_id, start } => CommandV::MoveClip {
                id: *id,
                track_id: *track_id,
                start: start@,
            },
            EditCommand::TrimClip { id, start, source_offset, duration } => CommandV::TrimClip {
                id: *id,
                start: start@,
                offset: source_offset@,
                dur: duration@,
            },
            EditCommand::SplitClip { id, at, right_id } => CommandV::SplitClip {
                id: *id,
                at: at@,
                right_id: *right_id,
            },
            EditCommand::DeleteClip { id } => CommandV::DeleteClip { id: *id },
        }
    }
}

/// Splitting the first clip named `id` on track `track_id` into `left_after`
/// and `right`. A failed left insertion restores the clip with `left_before`;
/// a failed right insertion shortens the first clip named `id` back to
/// `left_before`. The result and the state reached are both reported.
pub open spec fn split_on_track(
    ts: Seq<TrackV>,
    track_id: TrackId,
    id: ClipId,
    left_after: TimingV,
    left_before: TimingV,
    right: ClipV,
) -> (Result<(), EditorError>, Seq<TrackV>) {
    match remove_from_track(ts, track_id, id) {
        Err(e) => (Err(e), ts),
        Ok((left, ts1)) => match insert_on_track(ts1, track_id, timed(left, left_after)) {
            Err(e) => match insert_on_track(ts1, track_id, timed(left, left_before)) {
                Ok(ts_back) => (Err(e), ts_back),
                Err(e2) => (Err(e2), ts1),
            },
            Ok(ts2) => match insert_on_track(ts2, track_id, right) {
                Ok(ts3) => (Ok(()), ts3),
                Err(e) => match remove_from_track(ts2, track_id, id) {
                    Err(e2) => (Err(e2), ts2),
                    Ok((short, ts4)) => match insert_on_track(ts4, track_id, timed(short, left_before)) {
                        Ok(ts5) => (Err(e), ts5),
                        Err(e3) => (Err(e3), ts4),
                    },
                },
            },
        },
    }
}

/// Outcome of applying `c` to `p`: the history entry recorded (none when the
/// command changes nothing) or the error, and the state reached.
pub open spec fn apply_spec(p: ProjectV, c: CommandV) -> (
    Result<Option<EntryV>, EditorError>,
    ProjectV,
) {
    let sb = p.selection;
    let ts = p.tracks;
    match c {
        CommandV::RegisterAsset { id } => if p.pool.contains(id) {
            (Err(EditorError::DuplicateId), p)
        } else {
            (
                Ok(Some(EntryV::RegisterAsset { id, selection_before: sb })),
                p.with_pool(p.pool.insert(id)),
            )
        },
        CommandV::UnregisterAsset { id } => if !p.pool.contains(id) {
            (Err(EditorError::AssetNotFound), p)
        } else if timeline_uses_asset(ts, id) {
            (Err(EditorError::AssetInUse), p)
        } else {
            (
                Ok(Some(EntryV::UnregisterAsset { id, selection_before: sb })),
                clear_if(p.with_pool(p.pool.remove(id)), sb == Selection::MediaAsset(id)),
            )
        },
        CommandV::AddTrack { id, name, kind } => if name.len() == 0 {
            (Err(EditorError::EmptyName), p)
        } else if has_track(ts, id) {
            (Err(EditorError::DuplicateId), p)
        } else {
            let t = TrackV { id, name, kind, clips: Seq::empty() };
            (
                Ok(Some(EntryV::AddTrack { index: ts.len(), track: t, selection_before: sb })),
                p.with_tracks(ts.push(t)),
            )
        },
        CommandV::RemoveTrack { id } => match track_index(ts, id) {
            None => (Err(EditorError::TrackNotFound), p),
            Some(k) => (
                Ok(
                    Some(
                        EntryV::RemoveTrack { index: k as nat, track: ts[k], selection_before: sb },
                    ),
                ),
                clear_if(p.with_tracks(ts.remove(k)), selection_in_track(sb, ts[k])),
            ),
        },
        CommandV::InsertClip { id, track_id, asset_id, start, offset, dur } => if timeline_has_clip(
            ts,
            id,
        ) {
            (Err(EditorError::DuplicateId), p)
        } else if !p.pool.contains(asset_id) {
            (Err(EditorError::AssetNotFound), p)
        } else {
            let c = ClipV { id, asset: asset_id, start, offset, dur };
            match insert_on_track(ts, track_id, c) {
                Err(e) => (Err(e), p),
                Ok(ts2) => (
                    Ok(Some(EntryV::InsertClip { track_id, clip: c, selection_before: sb })),
                    p.with_tracks(ts2),
                ),
            }
        },
        CommandV::MoveClip { id, track_id: to, start } => match find_clip_spec(ts, id) {
            None => (Err(EditorError::ClipNotFound), p),
            Some((from, c)) => match track_index(ts, from) {
                None => (Err(EditorError::TrackNotFound), p),
                Some(kf) => match track_index(ts, to) {
                    None => (Err(EditorError::TrackNotFound), p),
                    Some(kt) => if ts[kf].kind != ts[kt].kind {
                        (Err(EditorError::IncompatibleTrackKind), p)
                    } else {
                        let ft = TimingV::of(c);
                        let tt = TimingV { start, offset: c.offset, dur: c.dur };
                        if from == to && ft == tt {
                            (Ok(None), p)
                        } else {
                            match move_between_tracks(ts, id, from, to, tt) {
                                Err(e) => (Err(e), p),
                                Ok(ts2) => (
                                    Ok(
                                        Some(
                                            EntryV::MoveClip {
                                                id,
                                                from_track: from,
                                                to_track: to,
                                                from: ft,
                                                to: tt,
                                                selection_before: sb,
                                            },
                                        ),
                                    ),
                                    p.with_tracks(ts2),
                                ),
                            }
                        }
                    },
                },
            },
        },
        CommandV::TrimClip { id, start, offset, dur } => match find_clip_spec(ts, id) {
            None => (Err(EditorError::ClipNotFound), p),
            Some((track_id, c)) => {
                let before = TimingV::of(c);
                let after = TimingV { start, offset, dur };
                if before == after {
                    (Ok(None), p)
                } else {
                    match retime_on_track(ts, track_id, id, after) {
                        Err(e) => (Err(e), p),
                        Ok(ts2) => (
                            Ok(
                                Some(
                                    EntryV::TrimClip {
                                        id,
                                        track_id,
                                        before,
                                        after,
                                        selection_before: sb,
                                    },
                                ),
                            ),
                            p.with_tracks(ts2),
                        ),
                    }
                }
            },
        },
        CommandV::SplitClip { id, at, right_id } => if timeline_has_clip(ts, right_id) {
            (Err(EditorError::DuplicateId), p)
        } else {
            match find_clip_spec(ts, id) {
                None => (Err(EditorError::ClipNotFound), p),
                Some((track_id, c)) => if !end_fits(c.start, c.dur) {
                    (Err(EditorError::TimeOverflow), p)
                } else if at <= c.start || at >= c.end() {
                    (Err(EditorError::SplitNotInterior), p)
                } else if !end_fits(c.offset, (at - c.start) as u64) {
                    (Err(EditorError::TimeOverflow), p)
                } else {
                    let ld = (at - c.start) as u64;
                    let right = ClipV {
                        id: right_id,
                        asset: c.asset,
                        start: at,
                        offset: (c.offset + ld) as u64,
                        dur: (c.end() - at) as u64,
                    };
                    let lb = TimingV::of(c);
                    let la = TimingV { start: c.start, offset: c.offset, dur: ld };
                    match scan_on_track(ts, track_id, la.start, la.dur, Some(id)) {
                        Err(e) => (Err(e), p),
                        Ok(_) => match scan_on_track(ts, track_id, right.start, right.dur, Some(id)) {
                            Err(e) => (Err(e), p),
                            Ok(_) => {
                                let (r, ts2) = split_on_track(ts, track_id, id, la, lb, right);
                                match r {
                                    Err(e) => (Err(e), p.with_tracks(ts2)),
                                    Ok(_) => (
                                        Ok(
                                            Some(
                                                EntryV::SplitClip {
                                                    track_id,
                                                    left_id: id,
                                                    left_before: lb,
                                                    left_after: la,
                                                    right,
                                                    selection_before: sb,
                                                },
                                            ),
                                        ),
                                        p.with_tracks(ts2),
                                    ),
                                }
                            },
                        },
                    }
                },
            }
        },
        CommandV::DeleteClip { id } => match find_clip_spec(ts, id) {
            None => (Err(EditorError::ClipNotFound), p),
            Some((track_id, _)) => match remove_from_track(ts, track_id, id) {
                Err(e) => (Err(e), p),
                Ok((c, ts2)) => (
                    Ok(Some(EntryV::DeleteClip { track_id, clip: c, selection_before: sb })),
                    clear_if(p.with_tracks(ts2), sb == Selection::Clip(id)),
                ),
            },
        },
    }
}

/// Abstract contents of an editor session.
pub struct EditorV {
    pub project: ProjectV,
    pub undo: Seq<EntryV>,
    pub redo: Seq<EntryV>,
}

impl EditorV {
    /// The project is well formed and every recorded entry holds executable values.
    pub open spec fn wf(self) -> bool {
        &&& self.project.wf()
        &&& forall|i: int| 0 <= i < self.undo.len() ==> (#[trigger] self.undo[i]).wf()
        &&& forall|i: int| 0 <= i < self.redo.len() ==> (#[trigger] self.redo[i]).wf()
    }
}

/// Pure editor controller over a [`Project`] with undo/redo history.
#[derive(Debug, PartialEq, Eq)]
pub struct Editor {
    project: Project,
    history: History,
}

impl View for Editor {
    type V = EditorV;

    closed spec fn view(&self) -> EditorV {
        EditorV { project: self.project@, undo: self.history@.undo, redo: self.history@.redo }
    }
}

impl Clone for Editor {
    fn clone(&self) -> (r: Self)
        ensures
            r@ == self@,
    {
        Editor { project: self.project.clone(), history: self.history.clone() }
    }
}

/// What running `cmd` from `old` must achieve: the state and result of
/// [`apply_spec`], with the history untouched.
pub open spec fn execute_post(
    old: EditorV,
    cmd: CommandV,
    new: EditorV,
    r: Result<Option<HistoryEntry>, EditorError>,
) -> bool {
    &&& new.project.wf()
    &&& new.project == apply_spec(old.project, cmd).1
    &&& new.undo == old.undo
    &&& new.redo == old.redo
    &&& match apply_spec(old.project, cmd).0 {
        Err(e) => r == Err::<Option<HistoryEntry>, EditorError>(e),
        Ok(None) => r == Ok::<Option<HistoryEntry>, EditorError>(None),
        Ok(Some(ev)) => r matches Ok(Some(e)) && e@ == ev && ev.wf(),
    }
}

/// Timing of `clip` as recorded in history entries.
fn clip_timing(clip: &Clip) -> (t: ClipTiming)
    ensures
        t@ == TimingV::of(clip@),
        t@.dur > 0,
{
    ClipTiming {
        start: clip.start(),
        source_offset: clip.source_offset(),
        duration: clip.duration(),
    }
}

impl Editor {
    /// Creates an editor session for `project` with empty history.
    pub fn new(project: Project) -> (e: Self)
        requires
            project@.wf(),
        ensures
            e@ == (EditorV {
                project: project@,
                undo: Seq::<EntryV>::empty(),
                redo: Seq::<EntryV>::empty(),
            }),
            e@.wf(),
            sound(project@) ==> consistent(e@) && consistent_from(e@, project@),
    {
        let e = Editor { project, history: History::new() };
        proof {
            if sound(e@.project) {
                lemma_consistent_new(e@.project);
                assert(e@ == EditorV {
                    project: e@.project,
                    undo: Seq::<EntryV>::empty(),
                    redo: Seq::<EntryV>::empty(),
                });
            }
        }
        e
    }

    /// Immutable project view.
    pub fn project(&self) -> (r: &Project)
        ensures
            r@ == self@.project,
    {
        &self.project
    }

    /// Undo/redo stacks (not part of persisted project state).
    pub fn history(&self) -> (r: &History)
        ensures
            r@ == (HistoryV { undo: self@.undo, redo: self@.redo }),
    {
        &self.history
    }

    /// Sets selection after validating the target exists.
    pub fn set_selection(&mut self, selection: Selection) -> (r: Result<(), EditorError>)
        ensures
            old(self)@.project.selection_valid(selection) ==> r is Ok && final(self)@ == (EditorV {
                project: old(self)@.project.with_selection(selection),
                ..old(self)@
            }),
            !old(self)@.project.selection_valid(selection) ==> r == Err::<(), EditorError>(
                EditorError::InvalidSelection,
            ) && final(self)@ == old(self)@,
            consistent(old(self)@) ==> consistent(final(self)@),
            forall|start: ProjectV| consistent_from(old(self)@, start) ==> #[trigger] consistent_from(final(self)@, start),
    {
        let ghost before = self@;
        proof {
            lemma_no_start_without_consistency(before);
        }
        self.project.ensure_selection_valid(selection)?;
        self.project.set_selection_raw(selection);
        proof {
            if consistent(before) {
                lemma_consistent_select(before, selection);
            }
        }
        Ok(())
    }

    /// Applies `command`, recording history when project state changes.
    ///
    /// The project becomes the state given by [`apply_spec`]. A recorded edit
    /// goes on the undo stack and empties the redo stack; a rejected or empty
    /// command leaves both stacks as they were.
    pub fn apply(&mut self, command: EditCommand) -> (r: Result<(), EditorError>)
        requires
            old(self)@.wf(),
        ensures
            final(self)@.wf(),
            final(self)@.project == apply_spec(old(self)@.project, command@).1,
            match apply_spec(old(self)@.project, command@).0 {
                Err(e) => r == Err::<(), EditorError>(e) && final(self)@.undo == old(self)@.undo
                    && final(self)@.redo == old(self)@.redo,
                Ok(None) => r is Ok && final(self)@.undo == old(self)@.undo && final(self)@.redo
                    == old(self)@.redo,
                Ok(Some(ev)) => r is Ok && final(self)@.undo == old(self)@.undo.push(ev)
                    && final(self)@.redo == Seq::<EntryV>::empty(),
            },
            ids_unique(old(self)@.project.tracks) && r is Err ==> final(self)@ == old(self)@,
            ids_unique(old(self)@.project.tracks) && r is Ok ==> (final(self)@.undo.len()
                == old(self)@.undo.len() + 1 <==> final(self)@.project != old(self)@.project),
            consistent(old(self)@) ==> consistent(final(self)@),
            forall|start: ProjectV| consistent_from(old(self)@, start) ==> #[trigger] consistent_from(final(self)@, start),
    {
        let selection_before = self.project.selection();
        let ghost before = self@;
        proof {
            lemma_no_start_without_consistency(before);
            if ids_unique(before.project.tracks) {
                if apply_spec(before.project, command@).0 is Err {
                    law_rejected_command_is_atomic(before.project, command@);
                } else {
                    law_recorded_exactly_when_changed(before.project, command@);
                }
            }
        }
        let executed = self.execute(command, selection_before);
        match executed {
            Err(e) => {
                proof {
                    if consistent(before) {
                        lemma_consistent_apply(before, command@, self@);
                    }
                }
                Err(e)
            },
            Ok(recorded) => {
                if let Some(entry) = recorded {
                    self.history.push(entry);
                    assert forall|i: int| 0 <= i < self@.undo.len() implies (
                    #[trigger] self@.undo[i]).wf() by {
                        if i < before.undo.len() {
                            assert(self@.undo[i] == before.undo[i]);
                        }
                    }
                }
                proof {
                    if consistent(before) {
                        lemma_consistent_apply(before, command@, self@);
                    }
                }
                Ok(())
            },
        }
    }

    /// Restores the previous editorial state.
    ///
    /// The most recent entry is undone as [`undo_spec`] says and moves to the
    /// redo stack; when undoing fails, the entry and the project stay as they were.
    pub fn undo(&mut self) -> (r: Result<(), EditorError>)
        requires
            old(self)@.wf(),
            old(self)@.undo.len() > 0 ==> old(self)@.undo.last().insert_index_ok(
                true,
                old(self)@.project,
            ),
        ensures
            final(self)@.wf(),
            old(self)@.undo.len() == 0 ==> r == Err::<(), EditorError>(EditorError::NothingToUndo)
                && final(self)@ == old(self)@,
            old(self)@.undo.len() > 0 ==> match undo_spec(old(self)@.undo.last(), old(self)@.project) {
                Ok(p) => r is Ok && final(self)@ == (EditorV {
                    project: p,
                    undo: old(self)@.undo.drop_last(),
                    redo: old(self)@.redo.push(old(self)@.undo.last()),
                }),
                Err(e) => r == Err::<(), EditorError>(e) && final(self)@ == old(self)@,
            },
            consistent(old(self)@) ==> consistent(final(self)@) && (old(self)@.undo.len() > 0
                ==> r is Ok),
            forall|start: ProjectV| consistent_from(old(self)@, start) ==> #[trigger] consistent_from(final(self)@, start),
    {
        let ghost before = self@;
        proof {
            lemma_no_start_without_consistency(before);
        }
        proof {
            if consistent(before) && before.undo.len() > 0 {
                lemma_consistent_undo(before);
            }
        }
        let entry = self.history.pop_undo()?;
        assert(before.undo.last().wf()) by {
            assert(before.undo[before.undo.len() - 1].wf());
        }
        match entry.undo(&mut self.project) {
            Ok(()) => {
                self.history.push_redo(entry);
                assert forall|i: int| 0 <= i < self@.redo.len() implies (#[trigger] self@.redo[i]).wf() by {
                    if i < before.redo.len() {
                        assert(self@.redo[i] == before.redo[i]);
                    }
                }
                assert forall|i: int| 0 <= i < self@.undo.len() implies (#[trigger] self@.undo[i]).wf() by {
                    assert(self@.undo[i] == before.undo[i]);
                }
                Ok(())
            },
            Err(err) => {
                self.history.restore_undo(entry);
                assert(self@.undo =~= before.undo);
                Err(err)
            },
        }
    }

    /// Reapplies the last undone operation.
    ///
    /// The most recent redo entry is redone as [`redo_spec`] says and moves
    /// back to the undo stack; when redoing fails, the entry stays on the redo
    /// stack.
    #[verifier::spinoff_prover]
    #[verifier::rlimit(40)]
    pub fn redo(&mut self) -> (r: Result<(), EditorError>)
        requires
            old(self)@.wf(),
            old(self)@.redo.len() > 0 ==> old(self)@.redo.last().insert_index_ok(
                false,
                old(self)@.project,
            ),
        ensures
            final(self)@.wf(),
            old(self)@.redo.len() == 0 ==> r == Err::<(), EditorError>(EditorError::NothingToRedo)
                && final(self)@ == old(self)@,
            old(self)@.redo.len() > 0 ==> ({
                let (res, p) = redo_spec(old(self)@.redo.last(), old(self)@.project);
                &&& r == res
                &&& final(self)@.project == p
                &&& res is Ok ==> final(self)@.undo == old(self)@.undo.push(old(self)@.redo.last())
                    && final(self)@.redo == old(self)@.redo.drop_last()
                &&& res is Err ==> final(self)@.undo == old(self)@.undo && final(self)@.redo
                    == old(self)@.redo
            }),
            ids_unique(old(self)@.project.tracks) && r is Err ==> final(self)@ == old(self)@,
            consistent(old(self)@) ==> consistent(final(self)@) && (old(self)@.redo.len() > 0
                ==> r is Ok),
            forall|start: ProjectV| consistent_from(old(self)@, start) ==> #[trigger] consistent_from(final(self)@, start),
    {
        let ghost before = self@;
        proof {
            lemma_no_start_without_consistency(before);
        }
        proof {
            if consistent(before) && before.redo.len() > 0 {
                lemma_consistent_redo(before);
            }
            assert(ids_unique(before.project.tracks) && before.redo.len() > 0 && redo_spec(
                before.redo.last(),
                before.project,
            ).0 is Err ==> redo_spec(before.redo.last(), before.project).1 == before.project) by {
                if ids_unique(before.project.tracks) && before.redo.len() > 0 {
                    assert(before.redo[before.redo.len() - 1].wf());
                    if redo_spec(before.redo.last(), before.project).0 is Err {
                        law_failed_redo_changes_nothing(before.redo.last(), before.project);
                    }
                }
            }
        }
        let entry = self.history.pop_redo()?;
        assert(before.redo.last().wf()) by {
            assert(before.redo[before.redo.len() - 1].wf());
        }
        match entry.redo(&mut self.project) {
            Ok(()) => {
                self.history.push_undo_keep_redo(entry);
                assert forall|i: int| 0 <= i < self@.undo.len() implies (#[trigger] self@.undo[i]).wf() by {
                    if i < before.undo.len() {
                        assert(self@.undo[i] == before.undo[i]);
                    }
                }
                assert forall|i: int| 0 <= i < self@.redo.len() implies (#[trigger] self@.redo[i]).wf() by {
                    assert(self@.redo[i] == before.redo[i]);
                }
                Ok(())
            },
            Err(err) => {
                self.history.restore_redo(entry);
                assert(self@.redo =~= before.redo);
                assert(self@.undo == before.undo);
                assert(self@.project.wf());
                Err(err)
            },
        }
    }

    /// Places an arbitrary entry on the undo stack (test hook).
    pub fn inject_undo_entry_for_test(&mut self, entry: HistoryEntry)
        requires
            old(self)@.wf(),
            entry@.wf(),
        ensures
            final(self)@.wf(),
            final(self)@ == (EditorV { undo: old(self)@.undo.push(entry@), ..old(self)@ }),
    {
        let ghost before = self@;
        self.history.inject_undo_for_test(entry);
        assert forall|i: int| 0 <= i < self@.undo.len() implies (#[trigger] self@.undo[i]).wf() by {
            if i < before.undo.len() {
                assert(self@.undo[i] == before.undo[i]);
            }
        }
    }

    /// Places an arbitrary entry on the redo stack (test hook).
    pub fn inject_redo_entry_for_test(&mut self, entry: HistoryEntry)
        requires
            old(self)@.wf(),
            entry@.wf(),
        ensures
            final(self)@.wf(),
            final(self)@ == (EditorV { redo: old(self)@.redo.push(entry@), ..old(self)@ }),
    {
        let ghost before = self@;
        self.history.inject_redo_for_test(entry);
        assert forall|i: int| 0 <= i < self@.redo.len() implies (#[trigger] self@.redo[i]).wf() by {
            if i < before.redo.len() {
                assert(self@.redo[i] == before.redo[i]);
            }
        }
    }

    /// Runs `command` on the project; returns the entry to record, if any.
    fn execute(&mut self, command: EditCommand, selection_before: Selection) -> (r: Result<
        Option<HistoryEntry>,
        EditorError,
    >)
        requires
            old(self)@.project.wf(),
            selection_before == old(self)@.project.selection,
        ensures
            execute_post(old(self)@, command@, final(self)@, r),
    {
        match command {
            EditCommand::RegisterAsset { id } => self.execute_register_asset(id, selection_before),
            EditCommand::UnregisterAsset { id } => {
                self.execute_unregister_asset(id, selection_before)
            },
            EditCommand::AddTrack { id, name, kind } => {
                self.execute_add_track(id, name, kind, selection_before)
            },
            EditCommand::RemoveTrack { id } => self.execute_remove_track(id, selection_before),
            EditCommand::InsertClip { id, track_id, asset_id, start, source_offset, duration } => {
                self.execute_insert_clip(
                    id,
                    track_id,
                    asset_id,
                    start,
                    source_offset,
                    duration,
                    selection_before,
                )
            },
            EditCommand::MoveClip { id, track_id: to_track, start } => {
                self.execute_move_clip(id, to_track, start, selection_before)
            },
            EditCommand::TrimClip { id, start, source_offset, duration } => {
                self.execute_trim_clip(id, start, source_offset, duration, selection_before)
            },
            EditCommand::SplitClip { id, at, right_id } => {
                self.execute_split_clip(id, at, right_id, selection_before)
            },
            EditCommand::DeleteClip { id } => self.execute_delete_clip(id, selection_before),
        }
    }

    fn execute_register_asset(
        &mut self,
        id: MediaAssetId,
        selection_before: Selection,
    ) -> (r: Result<
        Option<HistoryEntry>,
        EditorError,
    >)
        requires
            old(self)@.project.wf(),
            selection_before == old(self)@.project.selection,
        ensures
            execute_post(old(self)@, CommandV::RegisterAsset { id }, final(self)@, r),
    {
        let ghost p0 = self.project@;
        self.project.media_pool_mut().register(id)?;
        Ok(Some(HistoryEntry::RegisterAsset { id, selection_before }))
    }

    fn execute_unregister_asset(
        &mut self,
        id: MediaAssetId,
        selection_before: Selection,
    ) -> (r: Result<
        Option<HistoryEntry>,
        EditorError,
    >)
        requires
            old(self)@.project.wf(),
            selection_before == old(self)@.project.selection,
        ensures
            execute_post(old(self)@, CommandV::UnregisterAsset { id }, final(self)@, r),
    {
        let ghost p0 = self.project@;
        if !self.project.media_pool().contains(id) {
            return Err(EditorError::AssetNotFound);
        }
        if self.project.timeline().asset_in_use(id) {
            return Err(EditorError::AssetInUse);
        }
        self.project.media_pool_mut().unregister(id)?;
        let sel = self.project.selection();
        self.project.clear_selection_if(sel == Selection::MediaAsset(id));
        Ok(Some(HistoryEntry::UnregisterAsset { id, selection_before }))
    }

    fn execute_add_track(
        &mut self,
        id: TrackId,
        name: String,
        kind: TrackKind,
        selection_before: Selection,
    ) -> (r: Result<
        Option<HistoryEntry>,
        EditorError,
    >)
        requires
            old(self)@.project.wf(),
            selection_before == old(self)@.project.selection,
        ensures
            execute_post(old(self)@, CommandV::AddTrack { id, name: name@, kind }, final(self)@, r),
    {
        let ghost p0 = self.project@;
        let track = Track::new(id, name, kind)?;
        let index = self.project.timeline().tracks().len();
        self.project.timeline_mut().add_track(track.clone())?;
        Ok(Some(HistoryEntry::AddTrack { index, track, selection_before }))
    }

    fn execute_remove_track(&mut self, id: TrackId, selection_before: Selection) -> (r: Result<
        Option<HistoryEntry>,
        EditorError,
    >)
        requires
            old(self)@.project.wf(),
            selection_before == old(self)@.project.selection,
        ensures
            execute_post(old(self)@, CommandV::RemoveTrack { id }, final(self)@, r),
    {
        let ghost p0 = self.project@;
        proof {
            crate::timeline::lemma_track_index(p0.tracks, id);
        }
        let (index, track) = self.project.timeline_mut().remove_track(id)?;
        let sel = self.project.selection();
        let drop = match sel {
            Selection::Track(tid) => tid == id,
            Selection::Clip(cid) => track.find_clip(cid).is_some(),
            _ => false,
        };
        assert(drop == selection_in_track(sel, track@));
        self.project.clear_selection_if(drop);
        Ok(Some(HistoryEntry::RemoveTrack { index, track, selection_before }))
    }

    fn execute_insert_clip(
        &mut self,
        id: ClipId,
        track_id: TrackId,
        asset_id: MediaAssetId,
        start: TimelinePosition,
        source_offset: SourceOffset,
        duration: TimelineDuration,
        selection_before: Selection,
    ) -> (r: Result<
        Option<HistoryEntry>,
        EditorError,
    >)
        requires
            old(self)@.project.wf(),
            selection_before == old(self)@.project.selection,
        ensures
            execute_post(
                old(self)@,
                CommandV::InsertClip {
                    id,
                    track_id,
                    asset_id,
                    start: start@,
                    offset: source_offset@,
                    dur: duration@,
                },
                final(self)@,
                r,
            ),
    {
        let ghost p0 = self.project@;
        if self.project.timeline().contains_clip_id(id) {
            return Err(EditorError::DuplicateId);
        }
        if !self.project.media_pool().contains(asset_id) {
            return Err(EditorError::AssetNotFound);
        }
        let clip = Clip::new(id, asset_id, start, source_offset, duration);
        self.project.timeline_mut().insert_clip_on(track_id, clip)?;
        Ok(Some(HistoryEntry::InsertClip { track_id, clip, selection_before }))
    }

    fn execute_move_clip(
        &mut self,
        id: ClipId,
        to_track: TrackId,
        start: TimelinePosition,
        selection_before: Selection,
    ) -> (r: Result<
        Option<HistoryEntry>,
        EditorError,
    >)
        requires
            old(self)@.project.wf(),
            selection_before == old(self)@.project.selection,
        ensures
            execute_post(
                old(self)@,
                CommandV::MoveClip { id, track_id: to_track, start: start@ },
                final(self)@,
                r,
            ),
    {
        let ghost p0 = self.project@;
        let from_track = self.project.timeline().clip_track_id(id)?;
        let from_kind = self.project.timeline().track(from_track)?.kind();
        let to_kind = self.project.timeline().track(to_track)?.kind();
        if from_kind != to_kind {
            return Err(EditorError::IncompatibleTrackKind);
        }
        let clip = match self.project.timeline().find_clip(id) {
            Some((_, c)) => *c,
            None => return Err(EditorError::ClipNotFound),
        };
        let from = clip_timing(&clip);
        let to = ClipTiming {
            start,
            source_offset: clip.source_offset(),
            duration: clip.duration(),
        };
        if from_track == to_track && from == to {
            return Ok(None);
        }
        let candidate = TimelineRange::new(to.start, to.duration);
        if from_track == to_track {
            self.project.timeline().ensure_no_overlap_on(from_track, candidate, Some(id))?;
        } else {
            self.project.timeline().ensure_no_overlap_on(to_track, candidate, None)?;
        }
        let mut moved = self.project.timeline_mut().remove_clip_from(from_track, id)?;
        proof {
            crate::timeline::lemma_found_clip_is_removed(p0.tracks, id);
            crate::timeline::lemma_reinsert_on_track(p0.tracks, from_track, id);
        }
        moved.set_timing(to.start, to.source_offset, to.duration);
        match self.project.timeline_mut().insert_clip_on(to_track, moved) {
            Ok(()) => Ok(
                Some(
                    HistoryEntry::MoveClip {
                        id,
                        from_track,
                        to_track,
                        from,
                        to,
                        selection_before,
                    },
                ),
            ),
            Err(err) => {
                moved.set_timing(from.start, from.source_offset, from.duration);
                self.project.timeline_mut().insert_clip_on(from_track, moved)?;
                Err(err)
            },
        }
    }

    fn execute_trim_clip(
        &mut self,
        id: ClipId,
        start: TimelinePosition,
        source_offset: SourceOffset,
        duration: TimelineDuration,
        selection_before: Selection,
    ) -> (r: Result<
        Option<HistoryEntry>,
        EditorError,
    >)
        requires
            old(self)@.project.wf(),
            selection_before == old(self)@.project.selection,
        ensures
            execute_post(
                old(self)@,
                CommandV::TrimClip { id, start: start@, offset: source_offset@, dur: duration@ },
                final(self)@,
                r,
            ),
    {
        let ghost p0 = self.project@;
        let track_id = self.project.timeline().clip_track_id(id)?;
        let clip = match self.project.timeline().find_clip(id) {
            Some((_, c)) => *c,
            None => return Err(EditorError::ClipNotFound),
        };
        let before = clip_timing(&clip);
        let after = ClipTiming { start, source_offset, duration };
        if before == after {
            return Ok(None);
        }
        let candidate = TimelineRange::new(after.start, after.duration);
        self.project.timeline().ensure_no_overlap_on(track_id, candidate, Some(id))?;
        let mut trimmed = self.project.timeline_mut().remove_clip_from(track_id, id)?;
        proof {
            crate::timeline::lemma_found_clip_is_removed(p0.tracks, id);
            crate::timeline::lemma_reinsert_on_track(p0.tracks, track_id, id);
        }
        trimmed.set_timing(after.start, after.source_offset, after.duration);
        match self.project.timeline_mut().insert_clip_on(track_id, trimmed) {
            Ok(()) => Ok(
                Some(HistoryEntry::TrimClip { id, track_id, before, after, selection_before }),
            ),
            Err(err) => {
                trimmed.set_timing(before.start, before.source_offset, before.duration);
                self.project.timeline_mut().insert_clip_on(track_id, trimmed)?;
                Err(err)
            },
        }
    }

    fn execute_split_clip(
        &mut self,
        id: ClipId,
        at: TimelinePosition,
        right_id: ClipId,
        selection_before: Selection,
    ) -> (r: Result<
        Option<HistoryEntry>,
        EditorError,
    >)
        requires
            old(self)@.project.wf(),
            selection_before == old(self)@.project.selection,
        ensures
            execute_post(old(self)@, CommandV::SplitClip { id, at: at@, right_id }, final(self)@, r),
    {
        let ghost p0 = self.project@;
        if self.project.timeline().contains_clip_id(right_id) {
            return Err(EditorError::DuplicateId);
        }
        let track_id = self.project.timeline().clip_track_id(id)?;
        let clip = match self.project.timeline().find_clip(id) {
            Some((_, c)) => *c,
            None => return Err(EditorError::ClipNotFound),
        };
        let start = clip.start();
        let end = clip.end()?;
        if at.as_micros() <= start.as_micros() || at.as_micros() >= end.as_micros() {
            return Err(EditorError::SplitNotInterior);
        }
        let left_duration = start.checked_duration_until(at)?;
        let right_duration = at.checked_duration_until(end)?;
        let right_offset = clip.source_offset().checked_add(left_duration)?;
        let left_before = clip_timing(&clip);
        let left_after = ClipTiming {
            start,
            source_offset: clip.source_offset(),
            duration: left_duration,
        };
        let right = Clip::new(right_id, clip.asset_id(), at, right_offset, right_duration);
        let left_range = TimelineRange::new(left_after.start, left_after.duration);
        let right_range = right.range();
        self.project.timeline().ensure_no_overlap_on(track_id, left_range, Some(id))?;
        self.project.timeline().ensure_no_overlap_on(track_id, right_range, Some(id))?;
        let mut left = self.project.timeline_mut().remove_clip_from(track_id, id)?;
        left.set_timing(left_after.start, left_after.source_offset, left_after.duration);
        match self.project.timeline_mut().insert_clip_on(track_id, left) {
            Ok(()) => match self.project.timeline_mut().insert_clip_on(track_id, right) {
                Ok(()) => Ok(
                    Some(
                        HistoryEntry::SplitClip {
                            track_id,
                            left_id: id,
                            left_before,
                            left_after,
                            right,
                            selection_before,
                        },
                    ),
                ),
                Err(err) => match self.project.timeline_mut().remove_clip_from(
                    track_id,
                    id,
                ) {
                    Ok(mut shortened) => {
                        shortened.set_timing(
                            left_before.start,
                            left_before.source_offset,
                            left_before.duration,
                        );
                        match self.project.timeline_mut().insert_clip_on(
                            track_id,
                            shortened,
                        ) {
                            Ok(()) => Err(err),
                            Err(restore_err) => Err(restore_err),
                        }
                    },
                    Err(remove_err) => Err(remove_err),
                },
            },
            Err(err) => {
                left.set_timing(
                    left_before.start,
                    left_before.source_offset,
                    left_before.duration,
                );
                match self.project.timeline_mut().insert_clip_on(track_id, left) {
                    Ok(()) => Err(err),
                    Err(restore_err) => Err(restore_err),
                }
            },
        }
    }

    fn execute_delete_clip(&mut self, id: ClipId, selection_before: Selection) -> (r: Result<
        Option<HistoryEntry>,
        EditorError,
    >)
        requires
            old(self)@.project.wf(),
            selection_before == old(self)@.project.selection,
        ensures
            execute_post(old(self)@, CommandV::DeleteClip { id }, final(self)@, r),
    {
        let ghost p0 = self.project@;
        let track_id = self.project.timeline().clip_track_id(id)?;
        let clip = self.project.timeline_mut().remove_clip_from(track_id, id)?;
        proof {
            crate::timeline::lemma_remove_from_track_wf(p0.tracks, track_id, id);
        }
        let sel = self.project.selection();
        self.project.clear_selection_if(sel == Selection::Clip(id));
        Ok(Some(HistoryEntry::DeleteClip { track_id, clip, selection_before }))
    }

}

} // verus!
