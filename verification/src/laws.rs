//! Laws of the editor: what undo and redo give back after an edit.
//!
//! The laws hold for projects whose track identities and clip identities are
//! unique, which every edit keeps (see the `session` module).

use vstd::prelude::*;

use crate::editor::{apply_spec, split_on_track, CommandV};
use crate::error::EditorError;
use crate::history::{
    clear_if, move_between_tracks, redo_spec, resplit, retime_on_track, selection_in_track, timed,
    undo_spec, unsplit, EntryV, TimingV,
};
use crate::ids::{ClipId, MediaAssetId, TrackId};
use crate::project::ProjectV;
use crate::selection::Selection;
use crate::session::{lemma_insert_on_track_inventory, lemma_remove_from_track_inventory};
use crate::time::{end_fits, overlap_check};
use crate::timeline::{
    clip_index, clip_track, clips_wf, find_clip_spec, fits_among, has_clip, has_track,
    ids_unique, insert_on_track, insert_result, insertion_index, lemma_clip_index,
    lemma_clip_track, lemma_fits_ignoring_unique, lemma_found_clip_is_removed,
    lemma_insert_on_track_wf, lemma_reinsert_on_track, lemma_reinsert_removed,
    lemma_remove_from_track_wf, lemma_remove_wf, lemma_scan_fits, lemma_sorted_insert_elements,
    lemma_sorted_insert_fresh, lemma_sorted_insert_wf, lemma_track_index, lemma_track_index_is,
    lemma_track_index_update, overlap_scan, remove_from_track, scan_on_track, sorted_insert,
    timeline_has_clip, track_ids_unique, track_index, tracks_wf, ClipV, TrackV, clip_ids_unique,
};

verus! {

/// A track is found at its own index when track identities are unique.
pub proof fn lemma_unique_track_index(ts: Seq<TrackV>, k: int)
    requires
        track_ids_unique(ts),
        0 <= k < ts.len(),
    ensures
        track_index(ts, ts[k].id) == Some(k),
{
    assert forall|j: int| 0 <= j < k implies (#[trigger] ts[j]).id != ts[k].id by {
        assert(ts[j].id != ts[k].id);
    }
    lemma_track_index_is(ts, ts[k].id, k);
}

/// Where the clip named `id` is, when identities are unique: on track `t`
/// at index `j`, the only clip with that identity.
pub open spec fn located_at(ts: Seq<TrackV>, id: ClipId, t: int, j: int) -> bool {
    &&& 0 <= t < ts.len()
    &&& 0 <= j < ts[t].clips.len()
    &&& ts[t].clips[j].id == id
    &&& forall|t2: int, i2: int|
        0 <= t2 < ts.len() && 0 <= i2 < ts[t2].clips.len() && (t2 != t || i2 != j) ==> (
        #[trigger] ts[t2].clips[i2]).id != id
}

/// The clip found by identity is the only one with it; its track is found by
/// its identity and removing it takes it out of that track.
pub proof fn lemma_locate(ts: Seq<TrackV>, id: ClipId)
    requires
        ids_unique(ts),
        find_clip_spec(ts, id) is Some,
    ensures
        ({
            let t = clip_track(ts, id).unwrap();
            let j = clip_index(ts[t].clips, id).unwrap();
            let (tid, c) = find_clip_spec(ts, id).unwrap();
            &&& located_at(ts, id, t, j)
            &&& tid == ts[t].id
            &&& c == ts[t].clips[j]
            &&& track_index(ts, tid) == Some(t)
            &&& remove_from_track(ts, tid, id) == Ok::<(ClipV, Seq<TrackV>), EditorError>(
                (c, ts.update(t, ts[t].with_clips(ts[t].clips.remove(j)))),
            )
        }),
{
    lemma_clip_track(ts, id);
    let t = clip_track(ts, id).unwrap();
    lemma_clip_index(ts[t].clips, id);
    let j = clip_index(ts[t].clips, id).unwrap();
    lemma_unique_track_index(ts, t);
    assert forall|t2: int, i2: int|
        0 <= t2 < ts.len() && 0 <= i2 < ts[t2].clips.len() && (t2 != t || i2 != j) implies (
        #[trigger] ts[t2].clips[i2]).id != id by {
        assert(ts[t2].clips[i2].id != ts[t].clips[j].id);
    }
}

/// A clip re-timed on the track it came from: the new sequence holds it only
/// once, taking it out again gives the track without it, and the old timing
/// still fits there, so putting the old clip back restores the track.
pub proof fn lemma_retimed_round_trip(s: Seq<ClipV>, j: int, c2: ClipV)
    requires
        clips_wf(s),
        0 <= j < s.len(),
        forall|i: int| 0 <= i < s.len() && i != j ==> (#[trigger] s[i]).id != s[j].id,
        c2.id == s[j].id,
        c2.dur > 0,
        fits_among(s.remove(j), c2.start, c2.dur, None),
    ensures
        clips_wf(s.remove(j)),
        !has_clip(s.remove(j), s[j].id),
        clips_wf(sorted_insert(s.remove(j), c2)),
        clip_index(sorted_insert(s.remove(j), c2), c2.id) == Some(
            insertion_index(s.remove(j), c2.start),
        ),
        sorted_insert(s.remove(j), c2).remove(insertion_index(s.remove(j), c2.start)) == s.remove(j),
        fits_among(sorted_insert(s.remove(j), c2), s[j].start, s[j].dur, Some(c2.id)),
        insert_result(s.remove(j), s[j]) == Ok::<Seq<ClipV>, EditorError>(s),
{
    let t = s.remove(j);
    lemma_remove_wf(s, j);
    assert(!has_clip(t, s[j].id)) by {
        if has_clip(t, s[j].id) {
            let i = choose|i: int| 0 <= i < t.len() && (#[trigger] t[i]).id == s[j].id;
            let si = if i < j { i } else { i + 1 };
            assert(t[i] == s[si]);
        }
    }
    lemma_sorted_insert_wf(t, c2);
    lemma_sorted_insert_fresh(t, c2);
    lemma_sorted_insert_elements(t, c2);
    let p = insertion_index(t, c2.start);
    let r = sorted_insert(t, c2);
    lemma_fits_ignoring_unique(r, p, s[j].start, s[j].dur);
    lemma_reinsert_removed(s, j);
    lemma_scan_fits(t, s[j].start, s[j].dur, None);
}

// ---------------------------------------------------------------------------
// Undo after apply, per command.

proof fn lemma_register(p: ProjectV, id: MediaAssetId)
    requires
        apply_spec(p, CommandV::RegisterAsset { id }).0 matches Ok(Some(_)),
    ensures
        ({
            let (r, p2) = apply_spec(p, CommandV::RegisterAsset { id });
            let e = r.unwrap().unwrap();
            &&& undo_spec(e, p2) == Ok::<ProjectV, EditorError>(p)
            &&& redo_spec(e, p) == (Ok::<(), EditorError>(()), p2)
        }),
{
    let p2 = apply_spec(p, CommandV::RegisterAsset { id }).1;
    assert(p2.pool.remove(id) =~= p.pool);
    assert(p2.with_pool(p2.pool.remove(id)).with_selection(p.selection) == p);
}

proof fn lemma_unregister(p: ProjectV, id: MediaAssetId)
    requires
        apply_spec(p, CommandV::UnregisterAsset { id }).0 matches Ok(Some(_)),
    ensures
        ({
            let (r, p2) = apply_spec(p, CommandV::UnregisterAsset { id });
            let e = r.unwrap().unwrap();
            &&& undo_spec(e, p2) == Ok::<ProjectV, EditorError>(p)
            &&& redo_spec(e, p) == (Ok::<(), EditorError>(()), p2)
        }),
{
    let p2 = apply_spec(p, CommandV::UnregisterAsset { id }).1;
    assert(p2.pool.insert(id) =~= p.pool);
    assert(p2.with_pool(p2.pool.insert(id)).with_selection(p.selection) == p);
}

proof fn lemma_add_track(p: ProjectV, id: TrackId, name: Seq<char>, kind: crate::timeline::TrackKind)
    requires
        apply_spec(p, CommandV::AddTrack { id, name, kind }).0 matches Ok(Some(_)),
    ensures
        ({
            let (r, p2) = apply_spec(p, CommandV::AddTrack { id, name, kind });
            let e = r.unwrap().unwrap();
            &&& e.insert_index_ok(false, p)
            &&& undo_spec(e, p2) == Ok::<ProjectV, EditorError>(p)
            &&& redo_spec(e, p) == (Ok::<(), EditorError>(()), p2)
        }),
{
    let ts = p.tracks;
    let t = TrackV { id, name, kind, clips: Seq::empty() };
    let ts2 = ts.push(t);
    lemma_track_index(ts, id);
    assert forall|j: int| 0 <= j < ts.len() implies (#[trigger] ts2[j]).id != id by {
        assert(ts2[j] == ts[j]);
    }
    lemma_track_index_is(ts2, id, ts.len() as int);
    assert(ts2.remove(ts.len() as int) =~= ts);
    assert(ts.insert(ts.len() as int, t) =~= ts2);
}

proof fn lemma_remove_track(p: ProjectV, id: TrackId)
    requires
        apply_spec(p, CommandV::RemoveTrack { id }).0 matches Ok(Some(_)),
    ensures
        ({
            let (r, p2) = apply_spec(p, CommandV::RemoveTrack { id });
            let e = r.unwrap().unwrap();
            &&& e.insert_index_ok(true, p2)
            &&& undo_spec(e, p2) == Ok::<ProjectV, EditorError>(p)
            &&& redo_spec(e, p) == (Ok::<(), EditorError>(()), p2)
        }),
{
    let ts = p.tracks;
    lemma_track_index(ts, id);
    let k = track_index(ts, id).unwrap();
    assert(ts.remove(k).insert(k, ts[k]) =~= ts);
}

proof fn lemma_insert_clip(
    p: ProjectV,
    id: ClipId,
    track_id: TrackId,
    asset_id: MediaAssetId,
    start: u64,
    offset: u64,
    dur: u64,
)
    requires
        p.wf(),
        apply_spec(p, CommandV::InsertClip { id, track_id, asset_id, start, offset, dur }).0 matches Ok(
            Some(_),
        ),
    ensures
        ({
            let (r, p2) = apply_spec(p, CommandV::InsertClip { id, track_id, asset_id, start, offset, dur });
            let e = r.unwrap().unwrap();
            &&& undo_spec(e, p2) == Ok::<ProjectV, EditorError>(p)
            &&& redo_spec(e, p) == (Ok::<(), EditorError>(()), p2)
        }),
{
    let ts = p.tracks;
    let c = ClipV { id, asset: asset_id, start, offset, dur };
    lemma_track_index(ts, track_id);
    let k = track_index(ts, track_id).unwrap();
    let s = ts[k].clips;
    assert(!has_clip(s, id)) by {
        if has_clip(s, id) {
            assert(timeline_has_clip(ts, id));
        }
    }
    lemma_sorted_insert_fresh(s, c);
    lemma_sorted_insert_elements(s, c);
    let ts2 = ts.update(k, ts[k].with_clips(sorted_insert(s, c)));
    lemma_track_index_update(ts, k, ts[k].with_clips(sorted_insert(s, c)), track_id);
    assert(ts2.update(k, ts2[k].with_clips(sorted_insert(s, c).remove(insertion_index(s, start))))
        =~= ts);
}

proof fn lemma_delete_clip(p: ProjectV, id: ClipId)
    requires
        p.wf(),
        apply_spec(p, CommandV::DeleteClip { id }).0 matches Ok(Some(_)),
    ensures
        ({
            let (r, p2) = apply_spec(p, CommandV::DeleteClip { id });
            let e = r.unwrap().unwrap();
            &&& undo_spec(e, p2) == Ok::<ProjectV, EditorError>(p)
            &&& redo_spec(e, p) == (Ok::<(), EditorError>(()), p2)
        }),
{
    let (tid, _) = find_clip_spec(p.tracks, id).unwrap();
    lemma_reinsert_on_track(p.tracks, tid, id);
    lemma_track_index(p.tracks, tid);
    let k = track_index(p.tracks, tid).unwrap();
    lemma_clip_index(p.tracks[k].clips, id);
    let (c, ts2) = remove_from_track(p.tracks, tid, id).unwrap();
    assert(c.id == id);
    let p2 = clear_if(p.with_tracks(ts2), p.selection == Selection::Clip(id));
    assert(p2.with_tracks(p.tracks).with_selection(p.selection) == p);
}

/// A span fitting among a track and beside one more clip fits after that
/// clip is inserted.
pub proof fn lemma_fits_after_insert(t: Seq<ClipV>, c: ClipV, start: u64, dur: u64)
    requires
        clips_wf(t),
        fits_among(t, start, dur, None),
        overlap_check(c.start, c.dur, start, dur) == Ok::<bool, EditorError>(false),
    ensures
        fits_among(sorted_insert(t, c), start, dur, None),
{
    lemma_sorted_insert_elements(t, c);
    let p = insertion_index(t, c.start);
    let r = sorted_insert(t, c);
    assert forall|i: int| 0 <= i < r.len() && None::<ClipId> != Some((#[trigger] r[i]).id) implies overlap_check(
        r[i].start,
        r[i].dur,
        start,
        dur,
    ) == Ok::<bool, EditorError>(false) by {
        if i < p {
            assert(r[i] == t[i]);
        } else if i > p {
            assert(r[i] == t[i - 1]);
        }
    }
}

proof fn lemma_trim_clip(p: ProjectV, id: ClipId, start: u64, offset: u64, dur: u64)
    requires
        p.wf(),
        ids_unique(p.tracks),
        apply_spec(p, CommandV::TrimClip { id, start, offset, dur }).0 matches Ok(Some(e)) && e.wf(),
    ensures
        ({
            let (r, p2) = apply_spec(p, CommandV::TrimClip { id, start, offset, dur });
            let e = r.unwrap().unwrap();
            &&& undo_spec(e, p2) == Ok::<ProjectV, EditorError>(p)
            &&& redo_spec(e, p) == (Ok::<(), EditorError>(()), p2)
        }),
{
    let ts = p.tracks;
    lemma_locate(ts, id);
    let t = clip_track(ts, id).unwrap();
    let j = clip_index(ts[t].clips, id).unwrap();
    let (tid, c) = find_clip_spec(ts, id).unwrap();
    let s = ts[t].clips;
    let after = TimingV { start, offset, dur };
    let c2 = timed(c, after);
    assert(forall|i: int| 0 <= i < s.len() && i != j ==> (#[trigger] s[i]).id != s[j].id);
    lemma_scan_fits(s, start, dur, Some(id));
    lemma_fits_ignoring_unique(s, j, start, dur);
    lemma_retimed_round_trip(s, j, c2);
    let rest = ts.update(t, ts[t].with_clips(s.remove(j)));
    lemma_track_index_update(ts, t, ts[t].with_clips(s.remove(j)), tid);
    lemma_scan_fits(s.remove(j), start, dur, None);
    let r1 = sorted_insert(s.remove(j), c2);
    let ts2 = rest.update(t, rest[t].with_clips(r1));
    lemma_track_index_update(rest, t, rest[t].with_clips(r1), tid);
    assert(retime_on_track(ts, tid, id, after) == Ok::<Seq<TrackV>, EditorError>(ts2));
    // undo
    lemma_sorted_insert_elements(s.remove(j), c2);
    lemma_scan_fits(r1, c.start, c.dur, Some(id));
    let q = insertion_index(s.remove(j), start);
    assert(ts2.update(t, ts2[t].with_clips(r1.remove(q))) =~= rest);
    assert(remove_from_track(ts2, tid, id) == Ok::<(ClipV, Seq<TrackV>), EditorError>((c2, rest)));
    assert(timed(c2, TimingV::of(c)) == c);
    lemma_reinsert_on_track(ts, tid, id);
    assert(insert_on_track(rest, tid, c) == Ok::<Seq<TrackV>, EditorError>(ts));
    assert(retime_on_track(ts2, tid, id, TimingV::of(c)) == Ok::<Seq<TrackV>, EditorError>(ts));
}

proof fn lemma_move_clip(p: ProjectV, id: ClipId, to: TrackId, start: u64)
    requires
        p.wf(),
        ids_unique(p.tracks),
        apply_spec(p, CommandV::MoveClip { id, track_id: to, start }).0 matches Ok(Some(e)) && e.wf(),
    ensures
        ({
            let (r, p2) = apply_spec(p, CommandV::MoveClip { id, track_id: to, start });
            let e = r.unwrap().unwrap();
            &&& undo_spec(e, p2) == Ok::<ProjectV, EditorError>(p)
            &&& redo_spec(e, p) == (Ok::<(), EditorError>(()), p2)
        }),
{
    let ts = p.tracks;
    lemma_locate(ts, id);
    let t0 = clip_track(ts, id).unwrap();
    let j = clip_index(ts[t0].clips, id).unwrap();
    let (from, c) = find_clip_spec(ts, id).unwrap();
    let s = ts[t0].clips;
    lemma_track_index(ts, to);
    let kt = track_index(ts, to).unwrap();
    let tt = TimingV { start, offset: c.offset, dur: c.dur };
    let ft = TimingV::of(c);
    let c2 = timed(c, tt);
    assert(c.dur > 0);
    assert(forall|i: int| 0 <= i < s.len() && i != j ==> (#[trigger] s[i]).id != s[j].id);
    let rest = ts.update(t0, ts[t0].with_clips(s.remove(j)));
    lemma_track_index_update(ts, t0, ts[t0].with_clips(s.remove(j)), from);
    lemma_track_index_update(ts, t0, ts[t0].with_clips(s.remove(j)), to);
    lemma_remove_wf(s, j);
    assert(timed(c2, ft) == c);
    lemma_reinsert_on_track(ts, from, id);
    if from == to {
        assert(kt == t0);
        lemma_scan_fits(s, start, c.dur, Some(id));
        lemma_fits_ignoring_unique(s, j, start, c.dur);
        lemma_retimed_round_trip(s, j, c2);
        lemma_scan_fits(s.remove(j), start, c.dur, None);
        let r1 = sorted_insert(s.remove(j), c2);
        let ts2 = rest.update(t0, rest[t0].with_clips(r1));
        assert(move_between_tracks(ts, id, from, to, tt) == Ok::<Seq<TrackV>, EditorError>(ts2));
        lemma_track_index_update(rest, t0, rest[t0].with_clips(r1), from);
        lemma_sorted_insert_elements(s.remove(j), c2);
        lemma_scan_fits(r1, c.start, c.dur, Some(id));
        let q = insertion_index(s.remove(j), start);
        assert(ts2.update(t0, ts2[t0].with_clips(r1.remove(q))) =~= rest);
        assert(remove_from_track(ts2, to, id) == Ok::<(ClipV, Seq<TrackV>), EditorError>((c2, rest)));
        assert(move_between_tracks(ts2, id, to, from, ft) == Ok::<Seq<TrackV>, EditorError>(ts));
    } else {
        assert(kt != t0);
        let u = ts[kt].clips;
        assert(rest[kt] == ts[kt]);
        lemma_scan_fits(u, start, c.dur, None);
        assert(!has_clip(u, id)) by {
            if has_clip(u, id) {
                let i = choose|i: int| 0 <= i < u.len() && (#[trigger] u[i]).id == id;
                assert(ts[kt].clips[i].id != id);
            }
        }
        lemma_sorted_insert_fresh(u, c2);
        lemma_sorted_insert_elements(u, c2);
        let r1 = sorted_insert(u, c2);
        let ts2 = rest.update(kt, ts[kt].with_clips(r1));
        assert(move_between_tracks(ts, id, from, to, tt) == Ok::<Seq<TrackV>, EditorError>(ts2));
        lemma_track_index_update(rest, kt, ts[kt].with_clips(r1), from);
        lemma_track_index_update(rest, kt, ts[kt].with_clips(r1), to);
        assert(ts2[t0] == rest[t0]);
        lemma_reinsert_removed(s, j);
        lemma_scan_fits(s.remove(j), c.start, c.dur, None);
        let q = insertion_index(u, start);
        assert(ts2.update(kt, ts2[kt].with_clips(r1.remove(q))) =~= rest);
        assert(remove_from_track(ts2, to, id) == Ok::<(ClipV, Seq<TrackV>), EditorError>((c2, rest)));
        assert(scan_on_track(ts2, from, c.start, c.dur, None) is Ok);
        assert(move_between_tracks(ts2, id, to, from, ft) == Ok::<Seq<TrackV>, EditorError>(ts));
    }
}

/// A split passes every check before the track is edited.
pub open spec fn split_checks_pass(p: ProjectV, id: ClipId, at: u64, right_id: ClipId) -> bool {
    let ts = p.tracks;
    &&& !timeline_has_clip(ts, right_id)
    &&& find_clip_spec(ts, id) is Some
    &&& ({
        let (tid, c) = find_clip_spec(ts, id).unwrap();
        let ld = (at - c.start) as u64;
        let rd = (c.end() - at) as u64;
        &&& end_fits(c.start, c.dur)
        &&& c.start < at < c.end()
        &&& end_fits(c.offset, ld)
        &&& scan_on_track(ts, tid, c.start, ld, Some(id)) is Ok
        &&& scan_on_track(ts, tid, at, rd, Some(id)) is Ok
    })
}

proof fn lemma_split_clip(p: ProjectV, id: ClipId, at: u64, right_id: ClipId)
    requires
        p.wf(),
        ids_unique(p.tracks),
        split_checks_pass(p, id, at, right_id),
    ensures
        apply_spec(p, CommandV::SplitClip { id, at, right_id }).0 matches Ok(Some(_)),
        ({
            let (r, p2) = apply_spec(p, CommandV::SplitClip { id, at, right_id });
            let e = r.unwrap().unwrap();
            &&& undo_spec(e, p2) == Ok::<ProjectV, EditorError>(p)
            &&& redo_spec(e, p) == (Ok::<(), EditorError>(()), p2)
        }),
{
    let ts = p.tracks;
    lemma_locate(ts, id);
    let t0 = clip_track(ts, id).unwrap();
    let j = clip_index(ts[t0].clips, id).unwrap();
    let (tid, c) = find_clip_spec(ts, id).unwrap();
    let s = ts[t0].clips;
    let ld = (at - c.start) as u64;
    let right = ClipV {
        id: right_id,
        asset: c.asset,
        start: at,
        offset: (c.offset + ld) as u64,
        dur: (c.end() - at) as u64,
    };
    let lb = TimingV::of(c);
    let la = TimingV { start: c.start, offset: c.offset, dur: ld };
    let left = timed(c, la);
    assert(id != right_id) by {
        assert(timeline_has_clip(ts, id)) by {
            assert(has_clip(ts[t0].clips, id));
        }
    }
    assert(forall|i: int| 0 <= i < s.len() && i != j ==> (#[trigger] s[i]).id != s[j].id);
    lemma_scan_fits(s, la.start, la.dur, Some(id));
    lemma_fits_ignoring_unique(s, j, la.start, la.dur);
    lemma_scan_fits(s, right.start, right.dur, Some(id));
    lemma_fits_ignoring_unique(s, j, right.start, right.dur);
    lemma_retimed_round_trip(s, j, left);
    let t = s.remove(j);
    let rest = ts.update(t0, ts[t0].with_clips(t));
    lemma_track_index_update(ts, t0, ts[t0].with_clips(t), tid);
    lemma_scan_fits(t, la.start, la.dur, None);
    let r1 = sorted_insert(t, left);
    let ts1 = rest.update(t0, rest[t0].with_clips(r1));
    lemma_track_index_update(rest, t0, rest[t0].with_clips(r1), tid);
    lemma_fits_after_insert(t, left, right.start, right.dur);
    lemma_scan_fits(r1, right.start, right.dur, None);
    assert(!has_clip(r1, right_id)) by {
        lemma_sorted_insert_elements(t, left);
        if has_clip(r1, right_id) {
            let i = choose|i: int| 0 <= i < r1.len() && (#[trigger] r1[i]).id == right_id;
            let p1 = insertion_index(t, left.start);
            if i < p1 {
                assert(r1[i] == t[i] && t[i] == s[i]);
                assert(has_clip(ts[t0].clips, right_id));
            } else if i > p1 {
                assert(r1[i] == t[i - 1]);
                let si = if i - 1 < j { i - 1 } else { i };
                assert(t[i - 1] == s[si]);
                assert(has_clip(ts[t0].clips, right_id));
            }
            assert(timeline_has_clip(ts, right_id));
        }
    }
    lemma_sorted_insert_fresh(r1, right);
    lemma_sorted_insert_elements(r1, right);
    let r2 = sorted_insert(r1, right);
    let ts3 = ts1.update(t0, ts1[t0].with_clips(r2));
    lemma_track_index_update(ts1, t0, ts1[t0].with_clips(r2), tid);
    assert(split_on_track(ts, tid, id, la, lb, right) == (Ok::<(), EditorError>(()), ts3));
    // undo: take the right part out, then give the left clip its old timing back
    let q2 = insertion_index(r1, right.start);
    assert(ts3.update(t0, ts3[t0].with_clips(r2.remove(q2))) =~= ts1);
    assert(remove_from_track(ts3, tid, right_id) == Ok::<(ClipV, Seq<TrackV>), EditorError>(
        (right, ts1),
    ));
    lemma_scan_fits(r1, c.start, c.dur, Some(id));
    lemma_sorted_insert_elements(t, left);
    let q1 = insertion_index(t, left.start);
    assert(ts1.update(t0, ts1[t0].with_clips(r1.remove(q1))) =~= rest);
    assert(remove_from_track(ts1, tid, id) == Ok::<(ClipV, Seq<TrackV>), EditorError>((left, rest)));
    assert(timed(left, lb) == c);
    lemma_reinsert_on_track(ts, tid, id);
    assert(insert_on_track(rest, tid, c) == Ok::<Seq<TrackV>, EditorError>(ts));
    assert(retime_on_track(ts1, tid, id, lb) == Ok::<Seq<TrackV>, EditorError>(ts));
    assert(unsplit(ts3, tid, id, lb, right) == Ok::<Seq<TrackV>, EditorError>(ts));
    // redo replays the same steps
    assert(retime_on_track(ts, tid, id, la) == Ok::<Seq<TrackV>, EditorError>(ts1));
    assert(resplit(ts, tid, id, la, right) == (Ok::<(), EditorError>(()), ts3));
}

/// Whether the edit recorded by applying `c` to `p` holds executable values.
pub open spec fn recorded_entry_wf(p: ProjectV, c: CommandV) -> bool {
    apply_spec(p, c).0 matches Ok(Some(e)) && e.wf()
}

proof fn lemma_round_trip(p: ProjectV, c: CommandV)
    requires
        p.wf(),
        ids_unique(p.tracks),
        recorded_entry_wf(p, c),
    ensures
        ({
            let (r, p2) = apply_spec(p, c);
            let e = r.unwrap().unwrap();
            &&& e.insert_index_ok(true, p2)
            &&& e.insert_index_ok(false, p)
            &&& undo_spec(e, p2) == Ok::<ProjectV, EditorError>(p)
            &&& redo_spec(e, p) == (Ok::<(), EditorError>(()), p2)
        }),
{
    match c {
        CommandV::RegisterAsset { id } => lemma_register(p, id),
        CommandV::UnregisterAsset { id } => lemma_unregister(p, id),
        CommandV::AddTrack { id, name, kind } => lemma_add_track(p, id, name, kind),
        CommandV::RemoveTrack { id } => lemma_remove_track(p, id),
        CommandV::InsertClip { id, track_id, asset_id, start, offset, dur } => lemma_insert_clip(
            p,
            id,
            track_id,
            asset_id,
            start,
            offset,
            dur,
        ),
        CommandV::MoveClip { id, track_id, start } => lemma_move_clip(p, id, track_id, start),
        CommandV::TrimClip { id, start, offset, dur } => lemma_trim_clip(p, id, start, offset, dur),
        CommandV::SplitClip { id, at, right_id } => lemma_split_clip(p, id, at, right_id),
        CommandV::DeleteClip { id } => lemma_delete_clip(p, id),
    }
}

/// Undoing an edit right after applying it gives back the project exactly as
/// it was before the edit, selection included; the undo cannot fail.
pub proof fn law_undo_restores(p: ProjectV, c: CommandV)
    requires
        p.wf(),
        ids_unique(p.tracks),
        recorded_entry_wf(p, c),
    ensures
        apply_spec(p, c).0.unwrap().unwrap().insert_index_ok(true, apply_spec(p, c).1),
        undo_spec(apply_spec(p, c).0.unwrap().unwrap(), apply_spec(p, c).1) == Ok::<
            ProjectV,
            EditorError,
        >(p),
{
    lemma_round_trip(p, c);
}

/// Redoing an edit after undoing it reproduces exactly the project the edit
/// produced; the redo cannot fail.
pub proof fn law_redo_reapplies(p: ProjectV, c: CommandV)
    requires
        p.wf(),
        ids_unique(p.tracks),
        recorded_entry_wf(p, c),
    ensures
        apply_spec(p, c).0.unwrap().unwrap().insert_index_ok(false, p),
        redo_spec(apply_spec(p, c).0.unwrap().unwrap(), p) == (
            Ok::<(), EditorError>(()),
            apply_spec(p, c).1,
        ),
{
    lemma_round_trip(p, c);
}

/// A rejected command leaves the project unchanged.
pub proof fn law_rejected_command_is_atomic(p: ProjectV, c: CommandV)
    requires
        p.wf(),
        ids_unique(p.tracks),
        apply_spec(p, c).0 is Err,
    ensures
        apply_spec(p, c).1 == p,
{
    if let CommandV::SplitClip { id, at, right_id } = c {
        if split_checks_pass(p, id, at, right_id) {
            lemma_split_clip(p, id, at, right_id);
        }
    }
}

/// A command that changes nothing records nothing and leaves the project as it was.
pub proof fn law_empty_command_changes_nothing(p: ProjectV, c: CommandV)
    requires
        apply_spec(p, c).0 == Ok::<Option<EntryV>, EditorError>(None),
    ensures
        apply_spec(p, c).1 == p,
{
}

// ---------------------------------------------------------------------------
// Unique identities are kept by every edit.

/// Taking one clip out keeps identities unique, and that identity is then gone.
pub proof fn lemma_remove_keeps_unique(ts: Seq<TrackV>, k: int, j: int)
    requires
        ids_unique(ts),
        0 <= k < ts.len(),
        0 <= j < ts[k].clips.len(),
    ensures
        ({
            let ts2 = ts.update(k, ts[k].with_clips(ts[k].clips.remove(j)));
            &&& ids_unique(ts2)
            &&& !timeline_has_clip(ts2, ts[k].clips[j].id)
        }),
{
    let s = ts[k].clips;
    let ts2 = ts.update(k, ts[k].with_clips(s.remove(j)));
    assert forall|t1: int, i1: int, t2: int, i2: int|
        0 <= t1 < ts2.len() && 0 <= t2 < ts2.len() && 0 <= i1 < ts2[t1].clips.len() && 0 <= i2
            < ts2[t2].clips.len() && (t1 != t2 || i1 != i2) implies (#[trigger] ts2[t1].clips[i1]).id
        != (#[trigger] ts2[t2].clips[i2]).id by {
        let o1 = if t1 == k && i1 >= j { i1 + 1 } else { i1 };
        let o2 = if t2 == k && i2 >= j { i2 + 1 } else { i2 };
        assert(ts2[t1].clips[i1] == ts[t1].clips[o1]);
        assert(ts2[t2].clips[i2] == ts[t2].clips[o2]);
    }
    assert forall|i: int, l: int| 0 <= i < l < ts2.len() implies (#[trigger] ts2[i]).id != (
    #[trigger] ts2[l]).id by {
        assert(ts2[i].id == ts[i].id && ts2[l].id == ts[l].id);
    }
    if timeline_has_clip(ts2, s[j].id) {
        let t = choose|t: int| 0 <= t < ts2.len() && has_clip(#[trigger] ts2[t].clips, s[j].id);
        let i = choose|i: int| 0 <= i < ts2[t].clips.len() && (#[trigger] ts2[t].clips[i]).id == s[j].id;
        let o = if t == k && i >= j { i + 1 } else { i };
        assert(ts2[t].clips[i] == ts[t].clips[o]);
    }
}

/// Inserting a clip with a fresh identity keeps identities unique.
pub proof fn lemma_insert_keeps_unique(ts: Seq<TrackV>, k: int, c: ClipV)
    requires
        ids_unique(ts),
        0 <= k < ts.len(),
        clips_wf(ts[k].clips),
        !timeline_has_clip(ts, c.id),
    ensures
        ids_unique(ts.update(k, ts[k].with_clips(sorted_insert(ts[k].clips, c)))),
{
    let s = ts[k].clips;
    lemma_sorted_insert_elements(s, c);
    let p = insertion_index(s, c.start);
    let ts2 = ts.update(k, ts[k].with_clips(sorted_insert(s, c)));
    assert forall|t1: int, i1: int, t2: int, i2: int|
        0 <= t1 < ts2.len() && 0 <= t2 < ts2.len() && 0 <= i1 < ts2[t1].clips.len() && 0 <= i2
            < ts2[t2].clips.len() && (t1 != t2 || i1 != i2) implies (#[trigger] ts2[t1].clips[i1]).id
        != (#[trigger] ts2[t2].clips[i2]).id by {
        if t1 == k && i1 == p {
            let o2 = if t2 == k && i2 > p { i2 - 1 } else { i2 };
            assert(ts2[t2].clips[i2] == ts[t2].clips[o2]);
            assert(has_clip(ts[t2].clips, ts[t2].clips[o2].id));
        } else if t2 == k && i2 == p {
            let o1 = if t1 == k && i1 > p { i1 - 1 } else { i1 };
            assert(ts2[t1].clips[i1] == ts[t1].clips[o1]);
            assert(has_clip(ts[t1].clips, ts[t1].clips[o1].id));
        } else {
            let o1 = if t1 == k && i1 > p { i1 - 1 } else { i1 };
            let o2 = if t2 == k && i2 > p { i2 - 1 } else { i2 };
            assert(ts2[t1].clips[i1] == ts[t1].clips[o1]);
            assert(ts2[t2].clips[i2] == ts[t2].clips[o2]);
        }
    }
    assert forall|i: int, l: int| 0 <= i < l < ts2.len() implies (#[trigger] ts2[i]).id != (
    #[trigger] ts2[l]).id by {
        assert(ts2[i].id == ts[i].id && ts2[l].id == ts[l].id);
    }
}

/// Re-timing a clip and then giving it back its old timing restores the
/// tracks exactly; the clip re-timed is the one found by its identity.
pub proof fn lemma_retime_round_trip(ts: Seq<TrackV>, tid: TrackId, id: ClipId, t: TimingV)
    requires
        tracks_wf(ts),
        ids_unique(ts),
        t.dur > 0,
        retime_on_track(ts, tid, id, t) is Ok,
    ensures
        ({
            let c = remove_from_track(ts, tid, id).unwrap().0;
            let ts2 = retime_on_track(ts, tid, id, t).unwrap();
            &&& find_clip_spec(ts, id) == Some((tid, c))
            &&& retime_on_track(ts2, tid, id, TimingV::of(c)) == Ok::<Seq<TrackV>, EditorError>(ts)
        }),
{
    lemma_track_index(ts, tid);
    let k = track_index(ts, tid).unwrap();
    lemma_clip_index(ts[k].clips, id);
    let j = clip_index(ts[k].clips, id).unwrap();
    assert(has_clip(ts[k].clips, id));
    assert(timeline_has_clip(ts, id));
    lemma_clip_track(ts, id);
    lemma_locate(ts, id);
    let tt = clip_track(ts, id).unwrap();
    let jj = clip_index(ts[tt].clips, id).unwrap();
    if tt != k || jj != j {
        assert(ts[k].clips[j].id != id);
    }
    let (tid2, c) = find_clip_spec(ts, id).unwrap();
    assert(tid2 == tid);
    let s = ts[k].clips;
    assert(ts[k].wf());
    let c2 = timed(c, t);
    assert(forall|i: int| 0 <= i < s.len() && i != j ==> (#[trigger] s[i]).id != s[j].id);
    lemma_scan_fits(s, t.start, t.dur, Some(id));
    lemma_fits_ignoring_unique(s, j, t.start, t.dur);
    lemma_retimed_round_trip(s, j, c2);
    let rest = ts.update(k, ts[k].with_clips(s.remove(j)));
    lemma_track_index_update(ts, k, ts[k].with_clips(s.remove(j)), tid);
    lemma_scan_fits(s.remove(j), t.start, t.dur, None);
    let r1 = sorted_insert(s.remove(j), c2);
    let ts2 = rest.update(k, rest[k].with_clips(r1));
    lemma_track_index_update(rest, k, rest[k].with_clips(r1), tid);
    assert(retime_on_track(ts, tid, id, t) == Ok::<Seq<TrackV>, EditorError>(ts2));
    lemma_sorted_insert_elements(s.remove(j), c2);
    lemma_scan_fits(r1, c.start, c.dur, Some(id));
    let q = insertion_index(s.remove(j), t.start);
    assert(ts2.update(k, ts2[k].with_clips(r1.remove(q))) =~= rest);
    assert(remove_from_track(ts2, tid, id) == Ok::<(ClipV, Seq<TrackV>), EditorError>((c2, rest)));
    assert(timed(c2, TimingV::of(c)) == c);
    lemma_reinsert_on_track(ts, tid, id);
    assert(insert_on_track(rest, tid, c) == Ok::<Seq<TrackV>, EditorError>(ts));
}

/// A redo that fails leaves the project exactly as it was, whatever the entry
/// (a split whose right part cannot be inserted gives the left clip its old
/// timing back).
pub proof fn law_failed_redo_changes_nothing(e: EntryV, p: ProjectV)
    requires
        p.wf(),
        ids_unique(p.tracks),
        e.wf(),
        redo_spec(e, p).0 is Err,
    ensures
        redo_spec(e, p).1 == p,
{
    if let EntryV::SplitClip { track_id, left_id, left_after, right, selection_before, .. } = e {
        let ts = p.tracks;
        if retime_on_track(ts, track_id, left_id, left_after) is Ok {
            lemma_retime_round_trip(ts, track_id, left_id, left_after);
        }
        assert(resplit(ts, track_id, left_id, left_after, right).1 == ts);
        assert(p.with_tracks(ts) == p);
    }
}

/// Where a clip ends up after being taken off one track and put on another
/// (or the same) with timing `t`, and where it was before.
proof fn lemma_relocated_positions(ts: Seq<TrackV>, from: TrackId, to: TrackId, id: ClipId, t: TimingV)
    requires
        tracks_wf(ts),
        remove_from_track(ts, from, id) is Ok,
        insert_on_track(
            remove_from_track(ts, from, id).unwrap().1,
            to,
            timed(remove_from_track(ts, from, id).unwrap().0, t),
        ) is Ok,
    ensures
        ({
            let (c, rest) = remove_from_track(ts, from, id).unwrap();
            let ts2 = insert_on_track(rest, to, timed(c, t)).unwrap();
            &&& ts2.len() == ts.len()
            &&& exists|kf: int, j: int|
                0 <= kf < ts.len() && 0 <= j < ts[kf].clips.len() && ts[kf].id == from
                    && #[trigger] ts[kf].clips[j] == c
            &&& exists|kt: int, q: int|
                0 <= kt < ts2.len() && 0 <= q < ts2[kt].clips.len() && ts2[kt].id == to
                    && #[trigger] ts2[kt].clips[q] == timed(c, t)
        }),
{
    lemma_track_index(ts, from);
    let kf = track_index(ts, from).unwrap();
    lemma_clip_index(ts[kf].clips, id);
    let j = clip_index(ts[kf].clips, id).unwrap();
    let (c, rest) = remove_from_track(ts, from, id).unwrap();
    assert(ts[kf].clips[j] == c);
    lemma_track_index(rest, to);
    let kt = track_index(rest, to).unwrap();
    assert(rest[kt].wf()) by {
        lemma_remove_from_track_wf(ts, from, id);
    }
    lemma_sorted_insert_elements(rest[kt].clips, timed(c, t));
    let q = insertion_index(rest[kt].clips, timed(c, t).start);
    let ts2 = insert_on_track(rest, to, timed(c, t)).unwrap();
    assert(ts2[kt].clips[q] == timed(c, t));
}

/// An accepted command records an entry exactly when it changes the project:
/// a recorded edit always leaves a different project behind, and a command
/// that records nothing leaves it as it was.
pub proof fn law_recorded_exactly_when_changed(p: ProjectV, c: CommandV)
    requires
        p.wf(),
        ids_unique(p.tracks),
        apply_spec(p, c).0 is Ok,
    ensures
        apply_spec(p, c).0 is Ok && apply_spec(p, c).0.unwrap() is Some <==> apply_spec(p, c).1 != p,
{
    let ts = p.tracks;
    let (r, p2) = apply_spec(p, c);
    if r.unwrap() is Some {
        match c {
            CommandV::RegisterAsset { id } => {
                assert(p2.pool.contains(id) && !p.pool.contains(id));
            },
            CommandV::UnregisterAsset { id } => {
                assert(!p2.pool.contains(id) && p.pool.contains(id));
            },
            CommandV::AddTrack { .. } => {
                assert(p2.tracks.len() == ts.len() + 1);
            },
            CommandV::RemoveTrack { id } => {
                lemma_track_index(ts, id);
                assert(p2.tracks.len() == ts.len() - 1);
            },
            CommandV::InsertClip { id, track_id, asset_id, start, offset, dur } => {
                let cl = ClipV { id, asset: asset_id, start, offset, dur };
                lemma_insert_on_track_inventory(ts, track_id, cl, p.pool);
                assert(timeline_has_clip(p2.tracks, id) && !timeline_has_clip(ts, id));
            },
            CommandV::DeleteClip { id } => {
                let (tid, _) = find_clip_spec(ts, id).unwrap();
                lemma_remove_from_track_inventory(ts, tid, id, p.pool);
                assert(!timeline_has_clip(p2.tracks, id) && timeline_has_clip(ts, id));
            },
            CommandV::SplitClip { id, at, right_id } => {
                let (tid, cl) = find_clip_spec(ts, id).unwrap();
                let ld = (at - cl.start) as u64;
                let la = TimingV { start: cl.start, offset: cl.offset, dur: ld };
                let right = ClipV {
                    id: right_id,
                    asset: cl.asset,
                    start: at,
                    offset: (cl.offset + ld) as u64,
                    dur: (cl.end() - at) as u64,
                };
                let (left, ts1) = remove_from_track(ts, tid, id).unwrap();
                lemma_remove_from_track_wf(ts, tid, id);
                lemma_insert_on_track_wf(ts1, tid, timed(left, la));
                let ts2 = insert_on_track(ts1, tid, timed(left, la)).unwrap();
                lemma_insert_on_track_inventory(ts2, tid, right, p.pool);
                assert(timeline_has_clip(p2.tracks, right_id) && !timeline_has_clip(ts, right_id));
            },
            CommandV::MoveClip { id, track_id: to, start } => {
                let (from, cl) = find_clip_spec(ts, id).unwrap();
                let tt = TimingV { start, offset: cl.offset, dur: cl.dur };
                lemma_locate(ts, id);
                lemma_relocated_positions(ts, from, to, id, tt);
                lemma_track_index(ts, to);
                if p2 == p {
                    let (c0, _) = remove_from_track(ts, from, id).unwrap();
                    let (kt, q) = choose|kt: int, q: int|
                        0 <= kt < p2.tracks.len() && 0 <= q < p2.tracks[kt].clips.len()
                            && p2.tracks[kt].id == to && #[trigger] p2.tracks[kt].clips[q] == timed(c0, tt);
                    let t = clip_track(ts, id).unwrap();
                    let j = clip_index(ts[t].clips, id).unwrap();
                    if kt != t || q != j {
                        assert(ts[kt].clips[q].id != id);
                    }
                    assert(false);
                }
            },
            CommandV::TrimClip { id, start, offset, dur } => {
                let (tid, cl) = find_clip_spec(ts, id).unwrap();
                let after = TimingV { start, offset, dur };
                lemma_locate(ts, id);
                lemma_relocated_positions(ts, tid, tid, id, after);
                if p2 == p {
                    let (c0, _) = remove_from_track(ts, tid, id).unwrap();
                    let (kt, q) = choose|kt: int, q: int|
                        0 <= kt < p2.tracks.len() && 0 <= q < p2.tracks[kt].clips.len()
                            && p2.tracks[kt].id == tid && #[trigger] p2.tracks[kt].clips[q] == timed(c0, after);
                    let t = clip_track(ts, id).unwrap();
                    let j = clip_index(ts[t].clips, id).unwrap();
                    if kt != t || q != j {
                        assert(ts[kt].clips[q].id != id);
                    }
                    assert(false);
                }
            },
        }
    }
}

} // verus!
