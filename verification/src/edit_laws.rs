//! What each clip edit leaves on the timeline, stated over the command's
//! own values and the clip it acts on: where the clip ends up and with which
//! start, source offset and duration.
//!
//! The laws hold for projects whose track and clip identities are unique,
//! which every edit keeps (see the `session` module).

use vstd::prelude::*;

use crate::editor::{apply_spec, CommandV};
use crate::ids::{ClipId, MediaAssetId, TrackId};
use crate::laws::lemma_locate;
use crate::project::ProjectV;
use crate::selection::Selection;
use crate::session::{lemma_insert_on_track_inventory, lemma_remove_from_track_inventory};
use crate::timeline::{
    clip_index, clip_track, find_clip_spec, has_clip, ids_unique, insert_on_track, insertion_index,
    lemma_clip_index, lemma_clip_track, lemma_insert_on_track_wf, lemma_remove_from_track_wf,
    lemma_sorted_insert_elements, lemma_track_index, remove_from_track, sorted_insert,
    timeline_has_clip, track_index, tracks_wf, ClipV, TrackV,
};

verus! {

/// With unique identities, looking a clip up by its identity finds it where
/// it is, together with its track's identity.
pub proof fn lemma_found_where_it_is(ts: Seq<TrackV>, k: int, i: int)
    requires
        ids_unique(ts),
        0 <= k < ts.len(),
        0 <= i < ts[k].clips.len(),
    ensures
        find_clip_spec(ts, ts[k].clips[i].id) == Some((ts[k].id, ts[k].clips[i])),
{
    let id = ts[k].clips[i].id;
    lemma_clip_track(ts, id);
    assert(has_clip(ts[k].clips, id));
    assert(timeline_has_clip(ts, id));
    let t = clip_track(ts, id).unwrap();
    lemma_clip_index(ts[t].clips, id);
    let j = clip_index(ts[t].clips, id).unwrap();
    if t != k || j != i {
        assert(ts[t].clips[j].id != ts[k].clips[i].id);
    }
}

/// Inserting a clip whose identity the timeline does not hold yet: it is
/// then found on the track it was put on, exactly as given, and every clip
/// found before is still found where it was.
pub proof fn lemma_found_after_insert(ts: Seq<TrackV>, tid: TrackId, c: ClipV)
    requires
        tracks_wf(ts),
        ids_unique(ts),
        !timeline_has_clip(ts, c.id),
        insert_on_track(ts, tid, c) is Ok,
    ensures
        ids_unique(insert_on_track(ts, tid, c).unwrap()),
        find_clip_spec(insert_on_track(ts, tid, c).unwrap(), c.id) == Some((tid, c)),
        forall|x: ClipId| #[trigger]
            timeline_has_clip(insert_on_track(ts, tid, c).unwrap(), x) <==> (timeline_has_clip(
                ts,
                x,
            ) || x == c.id),
        forall|x: ClipId|
            #[trigger] find_clip_spec(ts, x) is Some ==> find_clip_spec(
                insert_on_track(ts, tid, c).unwrap(),
                x,
            ) == find_clip_spec(ts, x),
{
    let ts2 = insert_on_track(ts, tid, c).unwrap();
    lemma_insert_on_track_inventory(ts, tid, c, Set::empty());
    lemma_track_index(ts, tid);
    let k = track_index(ts, tid).unwrap();
    let s = ts[k].clips;
    lemma_sorted_insert_elements(s, c);
    let p = insertion_index(s, c.start);
    assert(ts2[k].clips == sorted_insert(s, c));
    assert(ts2[k].clips[p] == c);
    lemma_found_where_it_is(ts2, k, p);
    assert forall|x: ClipId| #[trigger] find_clip_spec(ts, x) is Some implies find_clip_spec(
        ts2,
        x,
    ) == find_clip_spec(ts, x) by {
        lemma_locate(ts, x);
        let t = clip_track(ts, x).unwrap();
        let j = clip_index(ts[t].clips, x).unwrap();
        if t != k {
            assert(ts2[t] == ts[t]);
            lemma_found_where_it_is(ts2, t, j);
        } else if j < p {
            assert(ts2[k].clips[j] == s[j]);
            lemma_found_where_it_is(ts2, k, j);
        } else {
            assert(ts2[k].clips[j + 1] == s[j]);
            lemma_found_where_it_is(ts2, k, j + 1);
        }
    }
}

/// Taking the clip named `id` off its track, with unique identities: what is
/// left keeps unique identities and holds no clip named `id`.
pub proof fn lemma_taken_off(ts: Seq<TrackV>, tid: TrackId, id: ClipId)
    requires
        tracks_wf(ts),
        ids_unique(ts),
        remove_from_track(ts, tid, id) is Ok,
    ensures
        tracks_wf(remove_from_track(ts, tid, id).unwrap().1),
        ids_unique(remove_from_track(ts, tid, id).unwrap().1),
        !timeline_has_clip(remove_from_track(ts, tid, id).unwrap().1, id),
        forall|x: ClipId| #[trigger]
            timeline_has_clip(remove_from_track(ts, tid, id).unwrap().1, x) <==> (timeline_has_clip(
                ts,
                x,
            ) && x != id),
        forall|x: ClipId|
            x != id && #[trigger] find_clip_spec(ts, x) is Some ==> find_clip_spec(
                remove_from_track(ts, tid, id).unwrap().1,
                x,
            ) == find_clip_spec(ts, x),
{
    lemma_remove_from_track_inventory(ts, tid, id, Set::empty());
    lemma_remove_from_track_wf(ts, tid, id);
    let rest = remove_from_track(ts, tid, id).unwrap().1;
    lemma_track_index(ts, tid);
    let k = track_index(ts, tid).unwrap();
    lemma_clip_index(ts[k].clips, id);
    let jd = clip_index(ts[k].clips, id).unwrap();
    assert forall|x: ClipId| x != id && #[trigger] find_clip_spec(ts, x) is Some implies find_clip_spec(
        rest,
        x,
    ) == find_clip_spec(ts, x) by {
        lemma_locate(ts, x);
        let t = clip_track(ts, x).unwrap();
        let j = clip_index(ts[t].clips, x).unwrap();
        if t != k {
            assert(rest[t] == ts[t]);
            lemma_found_where_it_is(rest, t, j);
        } else if j < jd {
            assert(rest[k].clips[j] == ts[k].clips[j]);
            lemma_found_where_it_is(rest, k, j);
        } else {
            assert(j != jd);
            assert(rest[k].clips[j - 1] == ts[k].clips[j]);
            lemma_found_where_it_is(rest, k, j - 1);
        }
    }
}

/// Taking the clip named `id` off track `from` and putting `moved` (with the
/// same identity) onto track `to`: the same clip identities are on the
/// timeline, and every other clip is still found where it was.
pub proof fn lemma_kept_through_relocation(
    ts: Seq<TrackV>,
    from: TrackId,
    to: TrackId,
    id: ClipId,
    moved: ClipV,
)
    requires
        tracks_wf(ts),
        ids_unique(ts),
        remove_from_track(ts, from, id) is Ok,
        moved.id == id,
        insert_on_track(remove_from_track(ts, from, id).unwrap().1, to, moved) is Ok,
    ensures
        ({
            let ts2 = insert_on_track(remove_from_track(ts, from, id).unwrap().1, to, moved).unwrap();
            &&& forall|x: ClipId| #[trigger]
                timeline_has_clip(ts2, x) <==> timeline_has_clip(ts, x)
            &&& forall|x: ClipId|
                x != id && #[trigger] find_clip_spec(ts, x) is Some ==> find_clip_spec(ts2, x)
                    == find_clip_spec(ts, x)
        }),
{
    lemma_taken_off(ts, from, id);
    let rest = remove_from_track(ts, from, id).unwrap().1;
    lemma_found_after_insert(rest, to, moved);
    let ts2 = insert_on_track(rest, to, moved).unwrap();
    lemma_remove_from_track_inventory(ts, from, id, Set::empty());
    assert forall|x: ClipId| #[trigger] timeline_has_clip(ts2, x) <==> timeline_has_clip(ts, x) by {
        assert(timeline_has_clip(ts2, x) <==> (timeline_has_clip(rest, x) || x == id));
        assert(timeline_has_clip(rest, x) <==> (timeline_has_clip(ts, x) && x != id));
    }
    assert forall|x: ClipId|
        x != id && #[trigger] find_clip_spec(ts, x) is Some implies find_clip_spec(ts2, x)
        == find_clip_spec(ts, x) by {
        assert(find_clip_spec(rest, x) == find_clip_spec(ts, x));
        assert(find_clip_spec(rest, x) is Some);
    }
}

/// An accepted clip insertion puts a clip on the command's track with
/// exactly the command's identity, asset, start, source offset and duration.
pub proof fn law_insert_places_the_given_clip(
    p: ProjectV,
    id: ClipId,
    track_id: TrackId,
    asset_id: MediaAssetId,
    start: u64,
    offset: u64,
    dur: u64,
)
    requires
        p.wf(),
        ids_unique(p.tracks),
        apply_spec(p, CommandV::InsertClip { id, track_id, asset_id, start, offset, dur }).0 is Ok,
    ensures
        ({
            let q = apply_spec(
                p,
                CommandV::InsertClip { id, track_id, asset_id, start, offset, dur },
            ).1;
            &&& find_clip_spec(q.tracks, id) matches Some((t, placed)) && t == track_id
                && placed.id == id && placed.asset == asset_id && placed.start == start
                && placed.offset == offset && placed.dur == dur
            &&& forall|x: ClipId| #[trigger]
                timeline_has_clip(q.tracks, x) <==> (timeline_has_clip(p.tracks, x) || x == id)
            &&& forall|x: ClipId| #[trigger]
                find_clip_spec(p.tracks, x) is Some ==> find_clip_spec(q.tracks, x)
                    == find_clip_spec(p.tracks, x)
            &&& q.pool == p.pool && q.selection == p.selection
        }),
{
    let placed = ClipV { id, asset: asset_id, start, offset, dur };
    lemma_found_after_insert(p.tracks, track_id, placed);
}

/// An accepted move changes only where the clip starts and on which track it
/// lies: it keeps its identity, asset, source offset and duration, and ends
/// up on the command's track at the command's start.
pub proof fn law_move_keeps_the_media(p: ProjectV, id: ClipId, to: TrackId, start: u64)
    requires
        p.wf(),
        ids_unique(p.tracks),
        apply_spec(p, CommandV::MoveClip { id, track_id: to, start }).0 is Ok,
    ensures
        find_clip_spec(p.tracks, id) is Some,
        ({
            let before = find_clip_spec(p.tracks, id).unwrap().1;
            let q = apply_spec(p, CommandV::MoveClip { id, track_id: to, start }).1;
            &&& find_clip_spec(q.tracks, id) matches Some((t, moved)) && t == to && moved.id == id
                && moved.asset == before.asset && moved.start == start && moved.offset
                == before.offset && moved.dur == before.dur
            &&& forall|x: ClipId| #[trigger]
                timeline_has_clip(q.tracks, x) <==> timeline_has_clip(p.tracks, x)
            &&& forall|x: ClipId|
                x != id && #[trigger] find_clip_spec(p.tracks, x) is Some ==> find_clip_spec(
                    q.tracks,
                    x,
                ) == find_clip_spec(p.tracks, x)
            &&& q.pool == p.pool && q.selection == p.selection
        }),
{
    let ts = p.tracks;
    lemma_locate(ts, id);
    let (from, c) = find_clip_spec(ts, id).unwrap();
    let (r, q) = apply_spec(p, CommandV::MoveClip { id, track_id: to, start });
    if r is Ok && r.unwrap() is Some {
        lemma_taken_off(ts, from, id);
        let rest = remove_from_track(ts, from, id).unwrap().1;
        let moved = c.with_timing(start, c.offset, c.dur);
        lemma_found_after_insert(rest, to, moved);
        lemma_kept_through_relocation(ts, from, to, id, moved);
    }
}

/// An accepted trim gives the clip exactly the command's start, source
/// offset and duration, on the track it was on, keeping its identity and asset.
pub proof fn law_trim_sets_the_given_timing(
    p: ProjectV,
    id: ClipId,
    start: u64,
    offset: u64,
    dur: u64,
)
    requires
        p.wf(),
        ids_unique(p.tracks),
        apply_spec(p, CommandV::TrimClip { id, start, offset, dur }).0 is Ok,
    ensures
        find_clip_spec(p.tracks, id) is Some,
        ({
            let (track, before) = find_clip_spec(p.tracks, id).unwrap();
            let q = apply_spec(p, CommandV::TrimClip { id, start, offset, dur }).1;
            &&& find_clip_spec(q.tracks, id) matches Some((t, trimmed)) && t == track
                && trimmed.id == id && trimmed.asset == before.asset && trimmed.start == start
                && trimmed.offset == offset && trimmed.dur == dur
            &&& forall|x: ClipId| #[trigger]
                timeline_has_clip(q.tracks, x) <==> timeline_has_clip(p.tracks, x)
            &&& forall|x: ClipId|
                x != id && #[trigger] find_clip_spec(p.tracks, x) is Some ==> find_clip_spec(
                    q.tracks,
                    x,
                ) == find_clip_spec(p.tracks, x)
            &&& q.pool == p.pool && q.selection == p.selection
        }),
{
    let ts = p.tracks;
    lemma_locate(ts, id);
    let (tid, c) = find_clip_spec(ts, id).unwrap();
    let (r, q) = apply_spec(p, CommandV::TrimClip { id, start, offset, dur });
    if r is Ok && r.unwrap() is Some {
        lemma_taken_off(ts, tid, id);
        let rest = remove_from_track(ts, tid, id).unwrap().1;
        let trimmed = c.with_timing(start, offset, dur);
        lemma_found_after_insert(rest, tid, trimmed);
        lemma_kept_through_relocation(ts, tid, tid, id, trimmed);
    }
}

/// An accepted split at `at` leaves two clips on the clip's track: the left
/// one keeps the clip's identity, asset, start and source offset and ends at
/// `at`; the right one, named `right_id`, has the same asset, starts at `at`,
/// ends where the clip ended, and plays the media from where the left part
/// stops: its source offset is the clip's source offset plus the left part's
/// duration.
pub proof fn law_split_continues_the_media(p: ProjectV, id: ClipId, at: u64, right_id: ClipId)
    requires
        p.wf(),
        ids_unique(p.tracks),
        apply_spec(p, CommandV::SplitClip { id, at, right_id }).0 is Ok,
    ensures
        find_clip_spec(p.tracks, id) is Some,
        ({
            let (track, whole) = find_clip_spec(p.tracks, id).unwrap();
            let q = apply_spec(p, CommandV::SplitClip { id, at, right_id }).1;
            &&& find_clip_spec(q.tracks, id) matches Some((t, left)) && t == track && left.id == id
                && left.asset == whole.asset && left.start == whole.start && left.offset
                == whole.offset && left.start + left.dur == at
            &&& find_clip_spec(q.tracks, right_id) matches Some((t, right)) && t == track
                && right.id == right_id && right.asset == whole.asset && right.start == at
                && right.offset == whole.offset + (at - whole.start) && right.start + right.dur
                == whole.start + whole.dur
            &&& forall|x: ClipId| #[trigger]
                timeline_has_clip(q.tracks, x) <==> (timeline_has_clip(p.tracks, x) || x == right_id)
            &&& forall|x: ClipId|
                x != id && #[trigger] find_clip_spec(p.tracks, x) is Some ==> find_clip_spec(
                    q.tracks,
                    x,
                ) == find_clip_spec(p.tracks, x)
            &&& q.pool == p.pool && q.selection == p.selection
        }),
{
    let ts = p.tracks;
    lemma_locate(ts, id);
    let (tid, c) = find_clip_spec(ts, id).unwrap();
    let t0 = clip_track(ts, id).unwrap();
    assert(timeline_has_clip(ts, id)) by {
        assert(has_clip(ts[t0].clips, id));
    }
    let ld = (at - c.start) as u64;
    lemma_taken_off(ts, tid, id);
    let ts1 = remove_from_track(ts, tid, id).unwrap().1;
    let left = c.with_timing(c.start, c.offset, ld);
    lemma_insert_on_track_wf(ts1, tid, left);
    lemma_found_after_insert(ts1, tid, left);
    let ts2 = insert_on_track(ts1, tid, left).unwrap();
    let right = ClipV {
        id: right_id,
        asset: c.asset,
        start: at,
        offset: (c.offset + ld) as u64,
        dur: (c.end() - at) as u64,
    };
    lemma_insert_on_track_inventory(ts1, tid, left, Set::empty());
    assert(!timeline_has_clip(ts2, right_id));
    lemma_found_after_insert(ts2, tid, right);
    lemma_kept_through_relocation(ts, tid, tid, id, left);
    let ts3 = insert_on_track(ts2, tid, right).unwrap();
    assert forall|x: ClipId|
        x != id && #[trigger] find_clip_spec(ts, x) is Some implies find_clip_spec(ts3, x)
        == find_clip_spec(ts, x) by {
        assert(find_clip_spec(ts2, x) == find_clip_spec(ts, x));
        assert(find_clip_spec(ts2, x) is Some);
    }
}

/// An accepted deletion takes the clip named `id` off the timeline and
/// leaves every other clip where it was; the selection is cleared exactly
/// when it named that clip.
pub proof fn law_delete_removes_only_that_clip(p: ProjectV, id: ClipId)
    requires
        p.wf(),
        ids_unique(p.tracks),
        apply_spec(p, CommandV::DeleteClip { id }).0 is Ok,
    ensures
        ({
            let q = apply_spec(p, CommandV::DeleteClip { id }).1;
            &&& timeline_has_clip(p.tracks, id)
            &&& forall|x: ClipId| #[trigger]
                timeline_has_clip(q.tracks, x) <==> (timeline_has_clip(p.tracks, x) && x != id)
            &&& forall|x: ClipId|
                x != id && #[trigger] find_clip_spec(p.tracks, x) is Some ==> find_clip_spec(
                    q.tracks,
                    x,
                ) == find_clip_spec(p.tracks, x)
            &&& q.pool == p.pool
            &&& q.selection == (if p.selection == Selection::Clip(id) {
                Selection::Nothing
            } else {
                p.selection
            })
        }),
{
    let ts = p.tracks;
    lemma_locate(ts, id);
    let (tid, c) = find_clip_spec(ts, id).unwrap();
    lemma_taken_off(ts, tid, id);
}

} // verus!
