//! Laws of a whole editor session: what every edit, undo and redo keeps, and
//! that undo and redo of a session's own history always succeed.

use vstd::prelude::*;

use crate::editor::{apply_spec, CommandV, EditorV};
use crate::laws::{law_redo_reapplies, law_undo_restores, recorded_entry_wf};
use crate::error::EditorError;
use crate::history::{
    clear_if, redo_spec, selection_in_track, timed, undo_spec, EntryV, TimingV,
};
use crate::ids::{ClipId, MediaAssetId, TrackId};
use crate::laws::{
    law_rejected_command_is_atomic, lemma_insert_keeps_unique, lemma_remove_keeps_unique,
};
use crate::project::ProjectV;
use crate::selection::Selection;
use crate::timeline::{
    clip_ids_unique, find_clip_spec, lemma_found_clip_is_removed, track_ids_unique, lemma_insert_on_track_wf,
    lemma_remove_from_track_wf, timeline_uses_asset, uses_asset,
    clip_index, has_clip, has_track, ids_unique, insert_on_track, insert_result, insertion_index,
    lemma_clip_index, lemma_scan_fits, lemma_sorted_insert_elements, lemma_track_index,
    overlap_scan, remove_from_track, sorted_insert, timeline_has_clip, track_index, tracks_wf,
    ClipV, TrackV,
};

verus! {

/// Every clip on the tracks refers to an asset of `pool`.
pub open spec fn assets_within(ts: Seq<TrackV>, pool: Set<MediaAssetId>) -> bool {
    forall|t: int, i: int|
        0 <= t < ts.len() && 0 <= i < ts[t].clips.len() ==> pool.contains(
            (#[trigger] ts[t].clips[i]).asset,
        )
}

/// Two track sequences with the same track identities, index by index.
pub open spec fn same_track_ids(ts: Seq<TrackV>, us: Seq<TrackV>) -> bool {
    &&& ts.len() == us.len()
    &&& forall|i: int| 0 <= i < ts.len() ==> (#[trigger] us[i]).id == ts[i].id
}

/// Tracks with the same identities hold the same track identities.
pub proof fn lemma_same_track_ids(ts: Seq<TrackV>, us: Seq<TrackV>)
    requires
        same_track_ids(ts, us),
    ensures
        forall|x: TrackId| has_track(us, x) <==> has_track(ts, x),
{
    assert forall|x: TrackId| has_track(us, x) <==> has_track(ts, x) by {
        if has_track(us, x) {
            let t = choose|t: int| 0 <= t < us.len() && (#[trigger] us[t]).id == x;
            assert(ts[t].id == x);
        }
        if has_track(ts, x) {
            let t = choose|t: int| 0 <= t < ts.len() && (#[trigger] ts[t]).id == x;
            assert(us[t].id == x);
        }
    }
}

/// What inserting a clip onto a track does to the timeline's inventory.
#[verifier::spinoff_prover]
#[verifier::rlimit(40)]
pub proof fn lemma_insert_on_track_inventory(
    ts: Seq<TrackV>,
    tid: TrackId,
    c: ClipV,
    pool: Set<MediaAssetId>,
)
    requires
        tracks_wf(ts),
    ensures
        insert_on_track(ts, tid, c) matches Ok(ts2) ==> {
            &&& same_track_ids(ts, ts2)
            &&& forall|x: ClipId| #[trigger]
                timeline_has_clip(ts2, x) <==> (timeline_has_clip(ts, x) || x == c.id)
            &&& (assets_within(ts, pool) && pool.contains(c.asset)) ==> assets_within(ts2, pool)
            &&& (ids_unique(ts) && !timeline_has_clip(ts, c.id)) ==> ids_unique(ts2)
        },
{
    lemma_track_index(ts, tid);
    if let Some(k) = track_index(ts, tid) {
        let s = ts[k].clips;
        assert(ts[k].wf());
        lemma_scan_fits(s, c.start, c.dur, None);
        if overlap_scan(s, c.start, c.dur, None) is Ok {
            lemma_sorted_insert_elements(s, c);
            let p = insertion_index(s, c.start);
            let r = sorted_insert(s, c);
            let ts2 = ts.update(k, ts[k].with_clips(r));
            assert(insert_on_track(ts, tid, c) == Ok::<Seq<TrackV>, crate::error::EditorError>(ts2));
            assert forall|i: int| 0 <= i < ts.len() implies (#[trigger] ts2[i]).id == ts[i].id by {}
            assert forall|x: ClipId| #[trigger]
                timeline_has_clip(ts2, x) <==> (timeline_has_clip(ts, x) || x == c.id) by {
                if timeline_has_clip(ts2, x) {
                    let t = choose|t: int| 0 <= t < ts2.len() && has_clip(#[trigger] ts2[t].clips, x);
                    let i = choose|i: int| 0 <= i < ts2[t].clips.len() && (#[trigger] ts2[t].clips[i]).id == x;
                    if t != k {
                        assert(ts2[t] == ts[t]);
                        assert(has_clip(ts[t].clips, x));
                    } else if i < p {
                        assert(r[i] == s[i]);
                        assert(has_clip(ts[k].clips, x));
                    } else if i > p {
                        assert(r[i] == s[i - 1]);
                        assert(has_clip(ts[k].clips, x));
                    }
                }
                if timeline_has_clip(ts, x) {
                    let t = choose|t: int| 0 <= t < ts.len() && has_clip(#[trigger] ts[t].clips, x);
                    let i = choose|i: int| 0 <= i < ts[t].clips.len() && (#[trigger] ts[t].clips[i]).id == x;
                    if t != k {
                        assert(ts2[t] == ts[t]);
                        assert(has_clip(ts2[t].clips, x));
                    } else if i < p {
                        assert(r[i] == s[i]);
                        assert(has_clip(ts2[k].clips, x));
                    } else {
                        assert(r[i + 1] == s[i]);
                        assert(has_clip(ts2[k].clips, x));
                    }
                }
                if x == c.id {
                    assert(r[p] == c);
                    assert(has_clip(ts2[k].clips, x));
                }
            }
            if assets_within(ts, pool) && pool.contains(c.asset) {
                assert forall|t: int, i: int|
                    0 <= t < ts2.len() && 0 <= i < ts2[t].clips.len() implies pool.contains(
                    (#[trigger] ts2[t].clips[i]).asset,
                ) by {
                    if t != k {
                        assert(ts2[t] == ts[t]);
                    } else if i < p {
                        assert(r[i] == s[i]);
                    } else if i > p {
                        assert(r[i] == s[i - 1]);
                    }
                }
            }
            if ids_unique(ts) && !timeline_has_clip(ts, c.id) {
                lemma_insert_keeps_unique(ts, k, c);
            }
        }
    }
}

/// What removing a clip from a track does to the timeline's inventory.
#[verifier::spinoff_prover]
#[verifier::rlimit(40)]
pub proof fn lemma_remove_from_track_inventory(
    ts: Seq<TrackV>,
    tid: TrackId,
    id: ClipId,
    pool: Set<MediaAssetId>,
)
    ensures
        remove_from_track(ts, tid, id) matches Ok((c, ts2)) ==> {
            &&& c.id == id
            &&& same_track_ids(ts, ts2)
            &&& timeline_has_clip(ts, id)
            &&& forall|x: ClipId| #[trigger] timeline_has_clip(ts2, x) ==> timeline_has_clip(ts, x)
            &&& assets_within(ts, pool) ==> assets_within(ts2, pool) && pool.contains(c.asset)
            &&& ids_unique(ts) ==> ids_unique(ts2) && forall|x: ClipId| #[trigger]
                timeline_has_clip(ts2, x) <==> (timeline_has_clip(ts, x) && x != id)
        },
{
    lemma_track_index(ts, tid);
    if let Some(k) = track_index(ts, tid) {
        let s = ts[k].clips;
        lemma_clip_index(s, id);
        if let Some(j) = clip_index(s, id) {
            let r = s.remove(j);
            let ts2 = ts.update(k, ts[k].with_clips(r));
            assert(has_clip(ts[k].clips, id));
            assert forall|i: int| 0 <= i < ts.len() implies (#[trigger] ts2[i]).id == ts[i].id by {}
            assert forall|x: ClipId| #[trigger] timeline_has_clip(ts2, x) implies timeline_has_clip(
                ts,
                x,
            ) by {
                let t = choose|t: int| 0 <= t < ts2.len() && has_clip(#[trigger] ts2[t].clips, x);
                let i = choose|i: int| 0 <= i < ts2[t].clips.len() && (#[trigger] ts2[t].clips[i]).id == x;
                if t != k {
                    assert(ts2[t] == ts[t]);
                    assert(has_clip(ts[t].clips, x));
                } else if i < j {
                    assert(r[i] == s[i]);
                    assert(has_clip(ts[k].clips, x));
                } else {
                    assert(r[i] == s[i + 1]);
                    assert(has_clip(ts[k].clips, x));
                }
            }
            if assets_within(ts, pool) {
                assert forall|t: int, i: int|
                    0 <= t < ts2.len() && 0 <= i < ts2[t].clips.len() implies pool.contains(
                    (#[trigger] ts2[t].clips[i]).asset,
                ) by {
                    if t != k {
                        assert(ts2[t] == ts[t]);
                    } else if i < j {
                        assert(r[i] == s[i]);
                    } else {
                        assert(r[i] == s[i + 1]);
                    }
                }
                assert(pool.contains(ts[k].clips[j].asset));
            }
            if ids_unique(ts) {
                lemma_remove_keeps_unique(ts, k, j);
                assert forall|x: ClipId| #[trigger]
                    timeline_has_clip(ts2, x) <==> (timeline_has_clip(ts, x) && x != id) by {
                    if timeline_has_clip(ts, x) && x != id {
                        let t = choose|t: int| 0 <= t < ts.len() && has_clip(#[trigger] ts[t].clips, x);
                        let i = choose|i: int| 0 <= i < ts[t].clips.len() && (#[trigger] ts[t].clips[i]).id == x;
                        if t != k {
                            assert(ts2[t] == ts[t]);
                            assert(has_clip(ts2[t].clips, x));
                        } else if i < j {
                            assert(r[i] == s[i]);
                            assert(has_clip(ts2[k].clips, x));
                        } else {
                            assert(i != j);
                            assert(r[i - 1] == s[i]);
                            assert(has_clip(ts2[k].clips, x));
                        }
                    }
                }
            }
        }
    }
}


/// Taking one clip off a track and putting it back (on the same or another
/// track) with a new timing keeps the timeline's inventory.
pub proof fn lemma_relocate_inventory(
    ts: Seq<TrackV>,
    from: TrackId,
    to: TrackId,
    id: ClipId,
    t: TimingV,
    pool: Set<MediaAssetId>,
)
    requires
        tracks_wf(ts),
        ids_unique(ts),
        assets_within(ts, pool),
    ensures
        remove_from_track(ts, from, id) matches Ok((c, rest)) ==> (insert_on_track(
            rest,
            to,
            timed(c, t),
        ) matches Ok(ts2) ==> {
            &&& same_track_ids(ts, ts2)
            &&& ids_unique(ts2)
            &&& assets_within(ts2, pool)
            &&& forall|x: ClipId| #[trigger] timeline_has_clip(ts2, x) <==> timeline_has_clip(ts, x)
        }),
{
    lemma_remove_from_track_inventory(ts, from, id, pool);
    lemma_remove_from_track_wf(ts, from, id);
    if let Ok((c, rest)) = remove_from_track(ts, from, id) {
        let m = timed(c, t);
        lemma_insert_on_track_inventory(rest, to, m, pool);
        if let Ok(ts2) = insert_on_track(rest, to, m) {
            assert(!timeline_has_clip(rest, id));
            assert forall|x: ClipId| #[trigger] timeline_has_clip(ts2, x) <==> timeline_has_clip(
                ts,
                x,
            ) by {
                assert(timeline_has_clip(ts2, x) == (timeline_has_clip(rest, x) || x == id));
                assert(timeline_has_clip(rest, x) == (timeline_has_clip(ts, x) && x != id));
            }
            assert forall|i: int| 0 <= i < ts.len() implies (#[trigger] ts2[i]).id == ts[i].id by {
                assert(rest[i].id == ts[i].id);
            }
        }
    }
}

/// What removing the track at index `k` does to the timeline's inventory.
pub proof fn lemma_remove_track_inventory(ts: Seq<TrackV>, k: int, pool: Set<MediaAssetId>)
    requires
        0 <= k < ts.len(),
    ensures
        tracks_wf(ts) ==> tracks_wf(ts.remove(k)),
        ids_unique(ts) ==> ids_unique(ts.remove(k)),
        assets_within(ts, pool) ==> assets_within(ts.remove(k), pool),
        forall|x: TrackId| #[trigger]
            has_track(ts, x) && x != ts[k].id ==> has_track(ts.remove(k), x),
        forall|x: ClipId| #[trigger]
            timeline_has_clip(ts, x) && !has_clip(ts[k].clips, x) ==> timeline_has_clip(
                ts.remove(k),
                x,
            ),
{
    let us = ts.remove(k);
    assert forall|i: int| 0 <= i < us.len() implies #[trigger] us[i] == ts[if i < k {
        i
    } else {
        i + 1
    }] by {}
    if tracks_wf(ts) {
        assert forall|t: int| 0 <= t < us.len() implies (#[trigger] us[t]).wf() by {
            assert(us[t] == ts[if t < k { t } else { t + 1 }]);
        }
    }
    if ids_unique(ts) {
        assert forall|i: int, l: int| 0 <= i < l < us.len() implies (#[trigger] us[i]).id != (
        #[trigger] us[l]).id by {
            let oi = if i < k { i } else { i + 1 };
            let ol = if l < k { l } else { l + 1 };
            assert(us[i] == ts[oi] && us[l] == ts[ol]);
        }
        assert forall|t1: int, i1: int, t2: int, i2: int|
            0 <= t1 < us.len() && 0 <= t2 < us.len() && 0 <= i1 < us[t1].clips.len() && 0 <= i2
                < us[t2].clips.len() && (t1 != t2 || i1 != i2) implies (
        #[trigger] us[t1].clips[i1]).id != (#[trigger] us[t2].clips[i2]).id by {
            let o1 = if t1 < k { t1 } else { t1 + 1 };
            let o2 = if t2 < k { t2 } else { t2 + 1 };
            assert(us[t1] == ts[o1] && us[t2] == ts[o2]);
            assert(ts[o1].clips[i1] == us[t1].clips[i1]);
            assert(ts[o2].clips[i2] == us[t2].clips[i2]);
        }
    }
    if assets_within(ts, pool) {
        assert forall|t: int, i: int|
            0 <= t < us.len() && 0 <= i < us[t].clips.len() implies pool.contains(
            (#[trigger] us[t].clips[i]).asset,
        ) by {
            let o = if t < k { t } else { t + 1 };
            assert(us[t] == ts[o]);
            assert(ts[o].clips[i] == us[t].clips[i]);
        }
    }
    assert forall|x: TrackId| #[trigger] has_track(ts, x) && x != ts[k].id implies has_track(us, x) by {
        let t = choose|t: int| 0 <= t < ts.len() && (#[trigger] ts[t]).id == x;
        let o = if t < k { t } else { t - 1 };
        assert(us[o] == ts[t]);
    }
    assert forall|x: ClipId| #[trigger]
        timeline_has_clip(ts, x) && !has_clip(ts[k].clips, x) implies timeline_has_clip(us, x) by {
        let t = choose|t: int| 0 <= t < ts.len() && has_clip(#[trigger] ts[t].clips, x);
        let o = if t < k { t } else { t - 1 };
        assert(us[o] == ts[t]);
    }
}

// ---------------------------------------------------------------------------
// Sound projects.

/// Everything of a project but its selection.
pub open spec fn content(p: ProjectV) -> ProjectV {
    p.with_selection(Selection::Nothing)
}

/// The invariants of a project's contents: ordered, non-overlapping tracks,
/// unique identities, and clips referring to registered assets only.
pub open spec fn content_sound(p: ProjectV) -> bool {
    &&& p.wf()
    &&& ids_unique(p.tracks)
    &&& assets_within(p.tracks, p.pool)
}

/// A sound project: sound contents and a selection that refers to an object
/// present in the project.
pub open spec fn sound(p: ProjectV) -> bool {
    &&& content_sound(p)
    &&& p.selection_valid(p.selection)
}


/// A selection valid in `p` stays valid in `q` when `q` keeps every asset,
/// track and clip identity of `p`.
pub proof fn lemma_selection_survives(p: ProjectV, q: ProjectV, s: Selection)
    requires
        p.selection_valid(s),
        p.pool.subset_of(q.pool),
        forall|x: TrackId| #[trigger] has_track(p.tracks, x) ==> has_track(q.tracks, x),
        forall|x: ClipId| #[trigger] timeline_has_clip(p.tracks, x) ==> timeline_has_clip(q.tracks, x),
    ensures
        q.selection_valid(s),
{
}

proof fn lemma_register_sound(p: ProjectV, id: MediaAssetId)
    requires
        sound(p),
        !p.pool.contains(id),
    ensures
        sound(p.with_pool(p.pool.insert(id))),
{
    let q = p.with_pool(p.pool.insert(id));
    lemma_selection_survives(p, q, p.selection);
}

proof fn lemma_unregister_sound(p: ProjectV, id: MediaAssetId)
    requires
        sound(p),
        p.pool.contains(id),
        !timeline_uses_asset(p.tracks, id),
    ensures
        sound(clear_if(p.with_pool(p.pool.remove(id)), p.selection == Selection::MediaAsset(id))),
{
    let ts = p.tracks;
    let q = p.with_pool(p.pool.remove(id));
    assert forall|t: int, i: int|
        0 <= t < ts.len() && 0 <= i < ts[t].clips.len() implies q.pool.contains(
        (#[trigger] ts[t].clips[i]).asset,
    ) by {
        if ts[t].clips[i].asset == id {
            assert(uses_asset(ts[t].clips, id));
        }
    }
}

proof fn lemma_add_track_sound(p: ProjectV, t: TrackV)
    requires
        sound(p),
        !has_track(p.tracks, t.id),
        t.clips.len() == 0,
    ensures
        sound(p.with_tracks(p.tracks.push(t))),
{
    let ts = p.tracks;
    let us = ts.push(t);
    let q = p.with_tracks(us);
    assert forall|i: int| 0 <= i < ts.len() implies #[trigger] us[i] == ts[i] by {}
    assert forall|k: int| 0 <= k < us.len() implies (#[trigger] us[k]).wf() by {
        if k < ts.len() {
            assert(us[k] == ts[k]);
        } else {
            assert(crate::timeline::clips_wf(t.clips));
        }
    }
    assert forall|i: int, l: int| 0 <= i < l < us.len() implies (#[trigger] us[i]).id != (
    #[trigger] us[l]).id by {
        if l == ts.len() {
            assert(us[i] == ts[i]);
        } else {
            assert(us[i] == ts[i] && us[l] == ts[l]);
        }
    }
    assert forall|t1: int, i1: int, t2: int, i2: int|
        0 <= t1 < us.len() && 0 <= t2 < us.len() && 0 <= i1 < us[t1].clips.len() && 0 <= i2
            < us[t2].clips.len() && (t1 != t2 || i1 != i2) implies (
    #[trigger] us[t1].clips[i1]).id != (#[trigger] us[t2].clips[i2]).id by {
        assert(t1 < ts.len() && t2 < ts.len());
        assert(us[t1] == ts[t1] && us[t2] == ts[t2]);
    }
    assert forall|k: int, i: int|
        0 <= k < us.len() && 0 <= i < us[k].clips.len() implies q.pool.contains(
        (#[trigger] us[k].clips[i]).asset,
    ) by {
        assert(k < ts.len());
        assert(us[k] == ts[k]);
    }
    assert forall|x: TrackId| #[trigger] has_track(ts, x) implies has_track(us, x) by {
        let k = choose|k: int| 0 <= k < ts.len() && (#[trigger] ts[k]).id == x;
        assert(us[k] == ts[k]);
    }
    assert forall|x: ClipId| #[trigger] timeline_has_clip(ts, x) implies timeline_has_clip(us, x) by {
        let k = choose|k: int| 0 <= k < ts.len() && has_clip(#[trigger] ts[k].clips, x);
        assert(us[k] == ts[k]);
    }
    lemma_selection_survives(p, q, p.selection);
}

proof fn lemma_remove_track_sound(p: ProjectV, k: int)
    requires
        sound(p),
        0 <= k < p.tracks.len(),
    ensures
        sound(
            clear_if(
                p.with_tracks(p.tracks.remove(k)),
                selection_in_track(p.selection, p.tracks[k]),
            ),
        ),
{
    let ts = p.tracks;
    lemma_remove_track_inventory(ts, k, p.pool);
    if !selection_in_track(p.selection, ts[k]) {
        match p.selection {
            Selection::Clip(x) => {
                lemma_clip_index(ts[k].clips, x);
            },
            _ => {},
        }
    }
}

/// Putting a fresh clip of a registered asset onto a track keeps the project sound.
proof fn lemma_insert_clip_sound(p: ProjectV, tid: TrackId, c: ClipV)
    requires
        sound(p),
        !timeline_has_clip(p.tracks, c.id),
        p.pool.contains(c.asset),
        insert_on_track(p.tracks, tid, c) is Ok,
        p.with_tracks(insert_on_track(p.tracks, tid, c).unwrap()).wf(),
    ensures
        sound(p.with_tracks(insert_on_track(p.tracks, tid, c).unwrap())),
{
    let ts2 = insert_on_track(p.tracks, tid, c).unwrap();
    lemma_insert_on_track_inventory(p.tracks, tid, c, p.pool);
    lemma_same_track_ids(p.tracks, ts2);
    lemma_selection_survives(p, p.with_tracks(ts2), p.selection);
}

/// Moving or re-timing a clip keeps the project sound.
proof fn lemma_relocate_sound(p: ProjectV, from: TrackId, to: TrackId, id: ClipId, t: TimingV)
    requires
        sound(p),
        remove_from_track(p.tracks, from, id) matches Ok((c, rest)) && insert_on_track(
            rest,
            to,
            timed(c, t),
        ) is Ok,
    ensures
        ({
            let (c, rest) = remove_from_track(p.tracks, from, id).unwrap();
            let ts2 = insert_on_track(rest, to, timed(c, t)).unwrap();
            p.with_tracks(ts2).wf() ==> sound(p.with_tracks(ts2))
        }),
{
    let (c, rest) = remove_from_track(p.tracks, from, id).unwrap();
    let ts2 = insert_on_track(rest, to, timed(c, t)).unwrap();
    lemma_relocate_inventory(p.tracks, from, to, id, t, p.pool);
    lemma_same_track_ids(p.tracks, ts2);
    lemma_selection_survives(p, p.with_tracks(ts2), p.selection);
}

/// Deleting a clip keeps the project sound.
proof fn lemma_delete_clip_sound(p: ProjectV, tid: TrackId, id: ClipId)
    requires
        sound(p),
        remove_from_track(p.tracks, tid, id) is Ok,
    ensures
        sound(
            clear_if(
                p.with_tracks(remove_from_track(p.tracks, tid, id).unwrap().1),
                p.selection == Selection::Clip(id),
            ),
        ),
{
    let ts2 = remove_from_track(p.tracks, tid, id).unwrap().1;
    lemma_remove_from_track_inventory(p.tracks, tid, id, p.pool);
    lemma_remove_from_track_wf(p.tracks, tid, id);
    lemma_same_track_ids(p.tracks, ts2);
}


/// Splitting a clip keeps the project sound.
#[verifier::spinoff_prover]
#[verifier::rlimit(40)]
proof fn lemma_split_sound(p: ProjectV, id: ClipId, at: u64, right_id: ClipId)
    requires
        sound(p),
        apply_spec(p, CommandV::SplitClip { id, at, right_id }).0 is Ok,
        apply_spec(p, CommandV::SplitClip { id, at, right_id }).1.wf(),
    ensures
        sound(apply_spec(p, CommandV::SplitClip { id, at, right_id }).1),
{
    let ts = p.tracks;
    let (tid, c) = find_clip_spec(ts, id).unwrap();
    let ld = (at - c.start) as u64;
    let right = ClipV {
        id: right_id,
        asset: c.asset,
        start: at,
        offset: (c.offset + ld) as u64,
        dur: (c.end() - at) as u64,
    };
    let la = TimingV { start: c.start, offset: c.offset, dur: ld };
    let (left, ts1) = remove_from_track(ts, tid, id).unwrap();
    lemma_found_clip_is_removed(ts, id);
    lemma_remove_from_track_inventory(ts, tid, id, p.pool);
    lemma_remove_from_track_wf(ts, tid, id);
    lemma_relocate_inventory(ts, tid, tid, id, la, p.pool);
    let ts2 = insert_on_track(ts1, tid, timed(left, la)).unwrap();
    lemma_insert_on_track_wf(ts1, tid, timed(left, la));
    lemma_insert_on_track_inventory(ts2, tid, right, p.pool);
    let ts3 = insert_on_track(ts2, tid, right).unwrap();
    lemma_same_track_ids(ts, ts2);
    lemma_same_track_ids(ts2, ts3);
    assert(!timeline_has_clip(ts2, right_id));
    lemma_selection_survives(p, p.with_tracks(ts3), p.selection);
}

/// Every accepted edit keeps a sound project sound; a rejected or empty
/// command leaves it as it was.
#[verifier::spinoff_prover]
#[verifier::rlimit(40)]
pub proof fn lemma_apply_sound(p: ProjectV, c: CommandV)
    requires
        sound(p),
        apply_spec(p, c).1.wf(),
    ensures
        sound(apply_spec(p, c).1),
{
    let (r, q) = apply_spec(p, c);
    if r is Err {
        law_rejected_command_is_atomic(p, c);
    } else if r == Ok::<Option<EntryV>, EditorError>(None) {
    } else {
        let ts = p.tracks;
        match c {
            CommandV::RegisterAsset { id } => lemma_register_sound(p, id),
            CommandV::UnregisterAsset { id } => lemma_unregister_sound(p, id),
            CommandV::AddTrack { id, name, kind } => lemma_add_track_sound(
                p,
                TrackV { id, name, kind, clips: Seq::empty() },
            ),
            CommandV::RemoveTrack { id } => {
                lemma_track_index(ts, id);
                lemma_remove_track_sound(p, track_index(ts, id).unwrap());
            },
            CommandV::InsertClip { id, track_id, asset_id, start, offset, dur } => {
                lemma_insert_clip_sound(
                    p,
                    track_id,
                    ClipV { id, asset: asset_id, start, offset, dur },
                );
            },
            CommandV::MoveClip { id, track_id: to, start } => {
                let (from, cl) = find_clip_spec(ts, id).unwrap();
                lemma_relocate_sound(
                    p,
                    from,
                    to,
                    id,
                    TimingV { start, offset: cl.offset, dur: cl.dur },
                );
            },
            CommandV::TrimClip { id, start, offset, dur } => {
                let (tid, _) = find_clip_spec(ts, id).unwrap();
                lemma_relocate_sound(p, tid, tid, id, TimingV { start, offset, dur });
            },
            CommandV::SplitClip { id, at, right_id } => lemma_split_sound(p, id, at, right_id),
            CommandV::DeleteClip { id } => {
                let (tid, _) = find_clip_spec(ts, id).unwrap();
                lemma_delete_clip_sound(p, tid, id);
            },
        }
    }
}


// ---------------------------------------------------------------------------
// Undo and redo do not depend on the selection in force.

/// Undoing depends on a project's contents only, never on its selection.
pub proof fn lemma_undo_ignores_selection(e: EntryV, p: ProjectV, q: ProjectV)
    requires
        content(p) == content(q),
    ensures
        undo_spec(e, p) == undo_spec(e, q),
        e.insert_index_ok(true, p) == e.insert_index_ok(true, q),
        e.insert_index_ok(false, p) == e.insert_index_ok(false, q),
{
    assert(p.id == q.id && p.name == q.name && p.pool == q.pool && p.tracks == q.tracks);
}

/// Whether redoing reaches the same contents and the same result from two
/// projects depends on their contents only.
pub proof fn lemma_redo_ignores_selection(e: EntryV, p: ProjectV, q: ProjectV)
    requires
        content(p) == content(q),
    ensures
        redo_spec(e, p).0 == redo_spec(e, q).0,
        content(redo_spec(e, p).1) == content(redo_spec(e, q).1),
{
    assert(p.id == q.id && p.name == q.name && p.pool == q.pool && p.tracks == q.tracks);
}

/// Redoing `e` in `q` succeeds, reaches the contents of `after`, and leaves a
/// sound project.
pub open spec fn redo_lands(e: EntryV, q: ProjectV, after: ProjectV) -> bool {
    &&& redo_spec(e, q).0 is Ok
    &&& content(redo_spec(e, q).1) == content(after)
    &&& sound(redo_spec(e, q).1)
}

/// `e` records an edit from `before` to `after`: undoing it in `after` gives
/// back exactly `before`, and redoing it in `before`, under any selection
/// valid there, succeeds and lands on the contents of `after`.
pub open spec fn links(e: EntryV, before: ProjectV, after: ProjectV) -> bool {
    &&& sound(before)
    &&& sound(after)
    &&& e.wf()
    &&& e.insert_index_ok(true, after)
    &&& e.insert_index_ok(false, before)
    &&& undo_spec(e, after) == Ok::<ProjectV, EditorError>(before)
    &&& forall|s: Selection| #[trigger]
        before.selection_valid(s) ==> redo_lands(e, before.with_selection(s), after)
}

/// Redoing an edit recorded at `p`, under any selection valid in `p`, lands on
/// the contents the edit produced and keeps the project sound.
#[verifier::spinoff_prover]
#[verifier::rlimit(40)]
proof fn lemma_redo_lands(p: ProjectV, c: CommandV, s: Selection)
    requires
        sound(p),
        p.selection_valid(s),
        recorded_entry_wf(p, c),
        apply_spec(p, c).1.wf(),
    ensures
        redo_lands(apply_spec(p, c).0.unwrap().unwrap(), p.with_selection(s), apply_spec(p, c).1),
{
    let (r, p2) = apply_spec(p, c);
    let e = r.unwrap().unwrap();
    let ps = p.with_selection(s);
    law_redo_reapplies(p, c);
    lemma_apply_sound(p, c);
    lemma_redo_ignores_selection(e, p, ps);
    assert(sound(ps));
    match c {
        CommandV::UnregisterAsset { id } => {
            assert(apply_spec(ps, c).1 == redo_spec(e, ps).1);
            lemma_apply_sound(ps, c);
        },
        CommandV::RemoveTrack { id } => {
            lemma_track_index(p.tracks, id);
            assert(apply_spec(ps, c).1 == redo_spec(e, ps).1);
            lemma_apply_sound(ps, c);
        },
        CommandV::DeleteClip { id } => {
            let (tid, _) = find_clip_spec(p.tracks, id).unwrap();
            lemma_remove_from_track_inventory(p.tracks, tid, id, p.pool);
            assert(apply_spec(ps, c).1 == redo_spec(e, ps).1);
            lemma_apply_sound(ps, c);
        },
        _ => {
            assert(redo_spec(e, ps).1 == redo_spec(e, p).1);
        },
    }
}

/// The entry recorded by an accepted edit of a sound project links the
/// project before the edit to the project after it.
pub proof fn lemma_links_after_apply(p: ProjectV, c: CommandV)
    requires
        sound(p),
        recorded_entry_wf(p, c),
        apply_spec(p, c).1.wf(),
    ensures
        links(apply_spec(p, c).0.unwrap().unwrap(), p, apply_spec(p, c).1),
{
    let e = apply_spec(p, c).0.unwrap().unwrap();
    law_undo_restores(p, c);
    law_redo_reapplies(p, c);
    lemma_apply_sound(p, c);
    assert forall|s: Selection| #[trigger]
        p.selection_valid(s) implies redo_lands(e, p.with_selection(s), apply_spec(p, c).1) by {
        lemma_redo_lands(p, c, s);
    }
}


/// A link stays valid when the state after the edit is replaced by a sound
/// state with the same contents.
proof fn lemma_links_replace_after(e: EntryV, b: ProjectV, a: ProjectV, a2: ProjectV)
    requires
        links(e, b, a),
        content(a) == content(a2),
        sound(a2),
    ensures
        links(e, b, a2),
{
    lemma_undo_ignores_selection(e, a, a2);
    assert forall|s: Selection| #[trigger]
        b.selection_valid(s) implies redo_lands(e, b.with_selection(s), a2) by {
        assert(redo_lands(e, b.with_selection(s), a));
    }
}

// ---------------------------------------------------------------------------
// Consistent sessions.

/// `hist` holds the states a session can move between by undo and redo: the
/// state before each undoable edit, then a state with the contents of the
/// current project, then the states the pending redos reach. Each history
/// entry links the two states around it.
pub open spec fn chain(ev: EditorV, hist: Seq<ProjectV>) -> bool {
    let u = ev.undo.len() as int;
    let r = ev.redo.len() as int;
    &&& hist.len() == u + r + 1
    &&& sound(ev.project)
    &&& content(hist[u]) == content(ev.project)
    &&& forall|i: int| 0 <= i < u ==> links(#[trigger] ev.undo[i], hist[i], hist[i + 1])
    &&& forall|j: int|
        0 <= j < r ==> links(#[trigger] ev.redo[j], hist[u + r - 1 - j], hist[u + r - j])
}

/// A session whose history is its own: the project is sound and every entry
/// links the states the session moves between.
pub open spec fn consistent(ev: EditorV) -> bool {
    exists|hist: Seq<ProjectV>| chain(ev, hist)
}

/// A consistent session whose first state has the contents of `start`:
/// undoing every edit leads back to the contents of `start`.
pub open spec fn consistent_from(ev: EditorV, start: ProjectV) -> bool {
    exists|hist: Seq<ProjectV>| chain(ev, hist) && content(hist[0]) == content(start)
}

/// A fresh session over a sound project is consistent, and starts from it.
pub proof fn lemma_consistent_new(p: ProjectV)
    requires
        sound(p),
    ensures
        consistent(
            EditorV { project: p, undo: Seq::<EntryV>::empty(), redo: Seq::<EntryV>::empty() },
        ),
        consistent_from(
            EditorV { project: p, undo: Seq::<EntryV>::empty(), redo: Seq::<EntryV>::empty() },
            p,
        ),
{
    let ev = EditorV { project: p, undo: Seq::<EntryV>::empty(), redo: Seq::<EntryV>::empty() };
    assert(chain(ev, seq![p]));
}

proof fn chain_select(ev: EditorV, s: Selection, hist: Seq<ProjectV>)
    requires
        chain(ev, hist),
        ev.project.selection_valid(s),
    ensures
        chain(EditorV { project: ev.project.with_selection(s), ..ev }, hist),
{
    let ev2 = EditorV { project: ev.project.with_selection(s), ..ev };
    assert(chain(ev2, hist));
}

#[verifier::spinoff_prover]
#[verifier::rlimit(40)]
proof fn chain_push(ev: EditorV, e: EntryV, p2: ProjectV, hist: Seq<ProjectV>) -> (hist2: Seq<
    ProjectV,
>)
    requires
        chain(ev, hist),
        links(e, ev.project, p2),
    ensures
        chain(EditorV { project: p2, undo: ev.undo.push(e), redo: Seq::<EntryV>::empty() }, hist2),
        content(hist2[0]) == content(hist[0]),
{
    let p = ev.project;
    let u = ev.undo.len() as int;
    let ev2 = EditorV { project: p2, undo: ev.undo.push(e), redo: Seq::<EntryV>::empty() };
    let hist2 = hist.take(u).push(p).push(p2);
    if u > 0 {
        assert(links(ev.undo[u - 1], hist[u - 1], hist[u]));
        lemma_links_replace_after(ev.undo[u - 1], hist[u - 1], hist[u], p);
    }
    assert forall|i: int| 0 <= i < ev2.undo.len() implies links(
        #[trigger] ev2.undo[i],
        hist2[i],
        hist2[i + 1],
    ) by {
        if i < u - 1 {
            assert(ev2.undo[i] == ev.undo[i]);
            assert(links(ev.undo[i], hist[i], hist[i + 1]));
        } else if i == u - 1 {
            assert(ev2.undo[i] == ev.undo[i]);
        }
    }
    assert(chain(ev2, hist2));
    hist2
}

#[verifier::spinoff_prover]
#[verifier::rlimit(40)]
proof fn chain_apply(ev: EditorV, c: CommandV, ev2: EditorV, hist: Seq<ProjectV>) -> (hist2: Seq<
    ProjectV,
>)
    requires
        chain(ev, hist),
        ev2.wf(),
        ev2.project == apply_spec(ev.project, c).1,
        match apply_spec(ev.project, c).0 {
            Err(_) => ev2.undo == ev.undo && ev2.redo == ev.redo,
            Ok(None) => ev2.undo == ev.undo && ev2.redo == ev.redo,
            Ok(Some(e)) => ev2.undo == ev.undo.push(e) && ev2.redo == Seq::<EntryV>::empty(),
        },
    ensures
        chain(ev2, hist2),
        content(hist2[0]) == content(hist[0]),
{
    let p = ev.project;
    let u = ev.undo.len() as int;
    let r = apply_spec(p, c).0;
    if r is Err {
        law_rejected_command_is_atomic(p, c);
        assert(ev2 == ev);
        hist
    } else if r == Ok::<Option<EntryV>, EditorError>(None) {
        assert(ev2 == ev);
        hist
    } else {
        let e = r.unwrap().unwrap();
        assert(ev2.undo[u] == e);
        assert(recorded_entry_wf(p, c));
        lemma_links_after_apply(p, c);
        let hist2 = chain_push(ev, e, apply_spec(p, c).1, hist);
        assert(ev2 == EditorV {
            project: apply_spec(p, c).1,
            undo: ev.undo.push(e),
            redo: Seq::<EntryV>::empty(),
        });
        hist2
    }
}

#[verifier::spinoff_prover]
#[verifier::rlimit(40)]
proof fn chain_undo(ev: EditorV, hist: Seq<ProjectV>)
    requires
        chain(ev, hist),
        ev.undo.len() > 0,
    ensures
        ev.undo.last().insert_index_ok(true, ev.project),
        undo_spec(ev.undo.last(), ev.project) is Ok,
        chain(
            EditorV {
                project: undo_spec(ev.undo.last(), ev.project).unwrap(),
                undo: ev.undo.drop_last(),
                redo: ev.redo.push(ev.undo.last()),
            },
            hist,
        ),
{
    let u = ev.undo.len() as int;
    let r = ev.redo.len() as int;
    let e = ev.undo.last();
    assert(links(ev.undo[u - 1], hist[u - 1], hist[u]));
    lemma_undo_ignores_selection(e, hist[u], ev.project);
    let ev2 = EditorV {
        project: undo_spec(e, ev.project).unwrap(),
        undo: ev.undo.drop_last(),
        redo: ev.redo.push(e),
    };
    assert forall|i: int| 0 <= i < ev2.undo.len() implies links(
        #[trigger] ev2.undo[i],
        hist[i],
        hist[i + 1],
    ) by {
        assert(ev2.undo[i] == ev.undo[i]);
    }
    assert forall|j: int| 0 <= j < ev2.redo.len() implies links(
        #[trigger] ev2.redo[j],
        hist[(u - 1) + (r + 1) - 1 - j],
        hist[(u - 1) + (r + 1) - j],
    ) by {
        if j < r {
            assert(ev2.redo[j] == ev.redo[j]);
        }
    }
    assert(chain(ev2, hist));
}

#[verifier::spinoff_prover]
#[verifier::rlimit(40)]
proof fn chain_redo(ev: EditorV, hist: Seq<ProjectV>)
    requires
        chain(ev, hist),
        ev.redo.len() > 0,
    ensures
        ev.redo.last().insert_index_ok(false, ev.project),
        redo_spec(ev.redo.last(), ev.project).0 is Ok,
        chain(
            EditorV {
                project: redo_spec(ev.redo.last(), ev.project).1,
                undo: ev.undo.push(ev.redo.last()),
                redo: ev.redo.drop_last(),
            },
            hist,
        ),
{
    let u = ev.undo.len() as int;
    let r = ev.redo.len() as int;
    let e = ev.redo.last();
    let q = ev.project;
    assert(links(ev.redo[r - 1], hist[u], hist[u + 1]));
    let b = hist[u];
    lemma_undo_ignores_selection(e, b, q);
    assert(q == b.with_selection(q.selection));
    assert(b.selection_valid(q.selection));
    assert(redo_lands(e, b.with_selection(q.selection), hist[u + 1]));
    let ev2 = EditorV {
        project: redo_spec(e, q).1,
        undo: ev.undo.push(e),
        redo: ev.redo.drop_last(),
    };
    assert forall|i: int| 0 <= i < ev2.undo.len() implies links(
        #[trigger] ev2.undo[i],
        hist[i],
        hist[i + 1],
    ) by {
        if i < u {
            assert(ev2.undo[i] == ev.undo[i]);
        }
    }
    assert forall|j: int| 0 <= j < ev2.redo.len() implies links(
        #[trigger] ev2.redo[j],
        hist[(u + 1) + (r - 1) - 1 - j],
        hist[(u + 1) + (r - 1) - j],
    ) by {
        assert(ev2.redo[j] == ev.redo[j]);
    }
    assert(chain(ev2, hist));
}


/// Selecting an object present in the project keeps a session consistent,
/// with the same start.
pub proof fn lemma_consistent_select(ev: EditorV, s: Selection)
    requires
        consistent(ev),
        ev.project.selection_valid(s),
    ensures
        consistent(EditorV { project: ev.project.with_selection(s), ..ev }),
        forall|start: ProjectV|
            consistent_from(ev, start) ==> #[trigger] consistent_from(
                EditorV { project: ev.project.with_selection(s), ..ev },
                start,
            ),
{
    let hist = choose|hist: Seq<ProjectV>| chain(ev, hist);
    chain_select(ev, s, hist);
    assert forall|start: ProjectV|
        consistent_from(ev, start) implies #[trigger] consistent_from(
        EditorV { project: ev.project.with_selection(s), ..ev },
        start,
    ) by {
        let h = choose|h: Seq<ProjectV>| chain(ev, h) && content(h[0]) == content(start);
        chain_select(ev, s, h);
    }
}

/// Applying a command keeps a session consistent, with the same start.
pub proof fn lemma_consistent_apply(ev: EditorV, c: CommandV, ev2: EditorV)
    requires
        consistent(ev),
        ev2.wf(),
        ev2.project == apply_spec(ev.project, c).1,
        match apply_spec(ev.project, c).0 {
            Err(_) => ev2.undo == ev.undo && ev2.redo == ev.redo,
            Ok(None) => ev2.undo == ev.undo && ev2.redo == ev.redo,
            Ok(Some(e)) => ev2.undo == ev.undo.push(e) && ev2.redo == Seq::<EntryV>::empty(),
        },
    ensures
        consistent(ev2),
        forall|start: ProjectV| consistent_from(ev, start) ==> #[trigger] consistent_from(ev2, start),
{
    let hist = choose|hist: Seq<ProjectV>| chain(ev, hist);
    let h2 = chain_apply(ev, c, ev2, hist);
    assert(chain(ev2, h2));
    assert forall|start: ProjectV| consistent_from(ev, start) implies #[trigger] consistent_from(
        ev2,
        start,
    ) by {
        let h = choose|h: Seq<ProjectV>| chain(ev, h) && content(h[0]) == content(start);
        let h3 = chain_apply(ev, c, ev2, h);
        assert(chain(ev2, h3) && content(h3[0]) == content(start));
    }
}

/// In a consistent session, undoing succeeds and keeps the session
/// consistent, with the same start.
pub proof fn lemma_consistent_undo(ev: EditorV)
    requires
        consistent(ev),
        ev.undo.len() > 0,
    ensures
        ev.undo.last().insert_index_ok(true, ev.project),
        undo_spec(ev.undo.last(), ev.project) is Ok,
        consistent(
            EditorV {
                project: undo_spec(ev.undo.last(), ev.project).unwrap(),
                undo: ev.undo.drop_last(),
                redo: ev.redo.push(ev.undo.last()),
            },
        ),
        forall|start: ProjectV|
            consistent_from(ev, start) ==> #[trigger] consistent_from(
                EditorV {
                    project: undo_spec(ev.undo.last(), ev.project).unwrap(),
                    undo: ev.undo.drop_last(),
                    redo: ev.redo.push(ev.undo.last()),
                },
                start,
            ),
{
    let hist = choose|hist: Seq<ProjectV>| chain(ev, hist);
    chain_undo(ev, hist);
    assert forall|start: ProjectV|
        consistent_from(ev, start) implies #[trigger] consistent_from(
        EditorV {
            project: undo_spec(ev.undo.last(), ev.project).unwrap(),
            undo: ev.undo.drop_last(),
            redo: ev.redo.push(ev.undo.last()),
        },
        start,
    ) by {
        let h = choose|h: Seq<ProjectV>| chain(ev, h) && content(h[0]) == content(start);
        chain_undo(ev, h);
    }
}

/// In a consistent session, redoing succeeds and keeps the session
/// consistent, with the same start.
pub proof fn lemma_consistent_redo(ev: EditorV)
    requires
        consistent(ev),
        ev.redo.len() > 0,
    ensures
        ev.redo.last().insert_index_ok(false, ev.project),
        redo_spec(ev.redo.last(), ev.project).0 is Ok,
        consistent(
            EditorV {
                project: redo_spec(ev.redo.last(), ev.project).1,
                undo: ev.undo.push(ev.redo.last()),
                redo: ev.redo.drop_last(),
            },
        ),
        forall|start: ProjectV|
            consistent_from(ev, start) ==> #[trigger] consistent_from(
                EditorV {
                    project: redo_spec(ev.redo.last(), ev.project).1,
                    undo: ev.undo.push(ev.redo.last()),
                    redo: ev.redo.drop_last(),
                },
                start,
            ),
{
    let hist = choose|hist: Seq<ProjectV>| chain(ev, hist);
    chain_redo(ev, hist);
    assert forall|start: ProjectV|
        consistent_from(ev, start) implies #[trigger] consistent_from(
        EditorV {
            project: redo_spec(ev.redo.last(), ev.project).1,
            undo: ev.undo.push(ev.redo.last()),
            redo: ev.redo.drop_last(),
        },
        start,
    ) by {
        let h = choose|h: Seq<ProjectV>| chain(ev, h) && content(h[0]) == content(start);
        chain_redo(ev, h);
    }
}

/// Once every edit of a session started from `start` is undone, the project
/// has the contents of `start` again: same pool, same tracks and clips.
pub proof fn law_undo_all_returns_to_start(ev: EditorV, start: ProjectV)
    requires
        consistent_from(ev, start),
        ev.undo.len() == 0,
    ensures
        content(ev.project) == content(start),
{
}

/// The project of a consistent session is sound: track identities are
/// distinct, clip identities are distinct across all tracks, every clip's
/// asset is registered, and the selection names nothing absent.
pub proof fn law_session_project_is_sound(ev: EditorV)
    requires
        consistent(ev),
    ensures
        sound(ev.project),
        track_ids_unique(ev.project.tracks),
        clip_ids_unique(ev.project.tracks),
        assets_within(ev.project.tracks, ev.project.pool),
        ev.project.selection_valid(ev.project.selection),
{
}

/// In a consistent session, undoing an edit right after it was recorded gives
/// back exactly the project before the edit, and redoing it then gives back
/// exactly the project the edit produced.
pub proof fn law_undo_after_apply(ev: EditorV, c: CommandV)
    requires
        consistent(ev),
        apply_spec(ev.project, c).0 matches Ok(Some(e)) && e.wf(),
    ensures
        ({
            let (r, p2) = apply_spec(ev.project, c);
            let e = r.unwrap().unwrap();
            &&& e.insert_index_ok(true, p2)
            &&& undo_spec(e, p2) == Ok::<ProjectV, EditorError>(ev.project)
            &&& e.insert_index_ok(false, ev.project)
            &&& redo_spec(e, ev.project) == (Ok::<(), EditorError>(()), p2)
        }),
{
    law_session_project_is_sound(ev);
    law_undo_restores(ev.project, c);
    law_redo_reapplies(ev.project, c);
}

/// A session that is not consistent is consistent from no start.
pub proof fn lemma_no_start_without_consistency(ev: EditorV)
    ensures
        !consistent(ev) ==> forall|start: ProjectV| !#[trigger] consistent_from(ev, start),
{
    if !consistent(ev) {
        assert forall|start: ProjectV| !#[trigger] consistent_from(ev, start) by {
            if consistent_from(ev, start) {
                let h = choose|h: Seq<ProjectV>| chain(ev, h) && content(h[0]) == content(start);
                assert(chain(ev, h));
            }
        }
    }
}

/// A session consistent from some start is consistent.
pub proof fn lemma_consistent_from_is_consistent(ev: EditorV, start: ProjectV)
    requires
        consistent_from(ev, start),
    ensures
        consistent(ev),
{
}

/// In a consistent session, redoing right after an undo succeeds and gives
/// back the contents the project had before the undo.
#[verifier::spinoff_prover]
#[verifier::rlimit(40)]
pub proof fn law_redo_after_undo(ev: EditorV)
    requires
        consistent(ev),
        ev.undo.len() > 0,
    ensures
        ({
            let e = ev.undo.last();
            let p1 = undo_spec(e, ev.project).unwrap();
            &&& undo_spec(e, ev.project) is Ok
            &&& redo_spec(e, p1).0 is Ok
            &&& content(redo_spec(e, p1).1) == content(ev.project)
        }),
{
    let hist = choose|hist: Seq<ProjectV>| chain(ev, hist);
    let u = ev.undo.len() as int;
    let e = ev.undo.last();
    assert(links(ev.undo[u - 1], hist[u - 1], hist[u]));
    lemma_undo_ignores_selection(e, hist[u], ev.project);
    let b = hist[u - 1];
    assert(b.with_selection(b.selection) == b);
    assert(redo_lands(e, b.with_selection(b.selection), hist[u]));
}

/// In a consistent session, undoing right after a redo succeeds and gives back
/// the contents the project had before the redo.
#[verifier::spinoff_prover]
#[verifier::rlimit(40)]
pub proof fn law_undo_after_redo(ev: EditorV)
    requires
        consistent(ev),
        ev.redo.len() > 0,
    ensures
        ({
            let e = ev.redo.last();
            let p1 = redo_spec(e, ev.project).1;
            &&& redo_spec(e, ev.project).0 is Ok
            &&& undo_spec(e, p1) is Ok
            &&& content(undo_spec(e, p1).unwrap()) == content(ev.project)
        }),
{
    let hist = choose|hist: Seq<ProjectV>| chain(ev, hist);
    let u = ev.undo.len() as int;
    let r = ev.redo.len() as int;
    let e = ev.redo.last();
    let q = ev.project;
    assert(links(ev.redo[r - 1], hist[u], hist[u + 1]));
    let b = hist[u];
    assert(q == b.with_selection(q.selection));
    assert(b.selection_valid(q.selection));
    assert(redo_lands(e, b.with_selection(q.selection), hist[u + 1]));
    lemma_undo_ignores_selection(e, hist[u + 1], redo_spec(e, q).1);
}

} // verus!
