//! Timeline, tracks, and clips.
//!
//! A track keeps its clips ordered by start; clips on one track never share
//! a timeline sample. The specification works on [`ClipV`] and [`TrackV`]
//! values, the abstract contents of [`Clip`] and [`Track`].

use vstd::prelude::*;

use crate::error::EditorError;
use crate::ids::{ClipId, MediaAssetId, TrackId};
use crate::time::{
    end_fits, overlap_check, spans_overlap, SourceOffset, TimelineDuration, TimelinePosition,
    TimelineRange,
};

verus! {

/// Kind of timeline track.
#[derive(Debug, Clone, Copy, PartialEq, Eq, Hash, Structural)]
pub enum TrackKind {
    /// Picture track.
    Video,
    /// Sound track.
    Audio,
}

/// Abstract contents of a clip: identity, asset and timing in microseconds.
pub struct ClipV {
    pub id: ClipId,
    pub asset: MediaAssetId,
    pub start: u64,
    pub offset: u64,
    pub dur: u64,
}

impl ClipV {
    /// Exclusive end on the timeline (may exceed `u64::MAX`).
    pub open spec fn end(self) -> int {
        self.start + self.dur
    }

    /// The same clip with new timing.
    pub open spec fn with_timing(self, start: u64, offset: u64, dur: u64) -> ClipV {
        ClipV { start, offset, dur, ..self }
    }
}

/// Abstract contents of a track.
pub struct TrackV {
    pub id: TrackId,
    pub name: Seq<char>,
    pub kind: TrackKind,
    pub clips: Seq<ClipV>,
}

impl TrackV {
    pub open spec fn wf(self) -> bool {
        clips_wf(self.clips)
    }

    pub open spec fn with_clips(self, clips: Seq<ClipV>) -> TrackV {
        TrackV { clips, ..self }
    }
}

/// Well-formed clip sequence: positive durations, each clip ends no later than
/// the next one starts (so starts strictly increase and clips never overlap),
/// and an end beyond `u64::MAX` is only possible for a clip alone on its track.
pub open spec fn clips_wf(s: Seq<ClipV>) -> bool {
    &&& forall|i: int| 0 <= i < s.len() ==> (#[trigger] s[i]).dur > 0
    &&& forall|i: int, j: int| 0 <= i < j < s.len() ==> #[trigger] s[i].end() <= #[trigger] s[j].start
    &&& s.len() >= 2 ==> forall|i: int| 0 <= i < s.len() ==> end_fits((#[trigger] s[i]).start, s[i].dur)
}

/// Result of checking a candidate span against the clips of a track, in order,
/// skipping clips whose identity is `ignore`: the first clip whose end or the
/// candidate's end overflows gives `TimeOverflow`, the first overlapping clip
/// gives `Overlap`.
pub open spec fn overlap_scan_from(
    s: Seq<ClipV>,
    i: int,
    start: u64,
    dur: u64,
    ignore: Option<ClipId>,
) -> Result<(), EditorError>
    decreases s.len() - i,
{
    if i < 0 || i >= s.len() {
        Ok(())
    } else if ignore == Some(s[i].id) {
        overlap_scan_from(s, i + 1, start, dur, ignore)
    } else {
        match overlap_check(s[i].start, s[i].dur, start, dur) {
            Err(e) => Err(e),
            Ok(true) => Err(EditorError::Overlap),
            Ok(false) => overlap_scan_from(s, i + 1, start, dur, ignore),
        }
    }
}

pub open spec fn overlap_scan(s: Seq<ClipV>, start: u64, dur: u64, ignore: Option<ClipId>) -> Result<
    (),
    EditorError,
> {
    overlap_scan_from(s, 0, start, dur, ignore)
}

/// The candidate clashes with no clip of `s` other than those named `ignore`.
pub open spec fn fits_among(s: Seq<ClipV>, start: u64, dur: u64, ignore: Option<ClipId>) -> bool {
    forall|i: int|
        0 <= i < s.len() && ignore != Some((#[trigger] s[i]).id) ==> overlap_check(
            s[i].start,
            s[i].dur,
            start,
            dur,
        ) == Ok::<bool, EditorError>(false)
}

/// Index of the first clip starting strictly after `start`, from index `i` on.
pub open spec fn insertion_index_from(s: Seq<ClipV>, start: u64, i: int) -> int
    decreases s.len() - i,
{
    if i < 0 || i >= s.len() {
        s.len() as int
    } else if s[i].start > start {
        i
    } else {
        insertion_index_from(s, start, i + 1)
    }
}

pub open spec fn insertion_index(s: Seq<ClipV>, start: u64) -> int {
    insertion_index_from(s, start, 0)
}

/// `c` placed before the first clip that starts after it.
pub open spec fn sorted_insert(s: Seq<ClipV>, c: ClipV) -> Seq<ClipV> {
    s.insert(insertion_index(s, c.start), c)
}

/// Index of the first clip named `id`, from index `i` on.
pub open spec fn clip_index_from(s: Seq<ClipV>, id: ClipId, i: int) -> Option<int>
    decreases s.len() - i,
{
    if i < 0 || i >= s.len() {
        None
    } else if s[i].id == id {
        Some(i)
    } else {
        clip_index_from(s, id, i + 1)
    }
}

pub open spec fn clip_index(s: Seq<ClipV>, id: ClipId) -> Option<int> {
    clip_index_from(s, id, 0)
}

pub open spec fn has_clip(s: Seq<ClipV>, id: ClipId) -> bool {
    exists|i: int| 0 <= i < s.len() && (#[trigger] s[i]).id == id
}

pub open spec fn uses_asset(s: Seq<ClipV>, asset: MediaAssetId) -> bool {
    exists|i: int| 0 <= i < s.len() && (#[trigger] s[i]).asset == asset
}

/// Result of inserting `c` into a track the way a clip insertion does.
pub open spec fn insert_result(s: Seq<ClipV>, c: ClipV) -> Result<Seq<ClipV>, EditorError> {
    match overlap_scan(s, c.start, c.dur, None) {
        Err(e) => Err(e),
        Ok(()) => Ok(sorted_insert(s, c)),
    }
}

// ---------------------------------------------------------------------------
// Tracks inside a timeline.

/// Index of the first track named `id`, from index `i` on.
pub open spec fn track_index_from(ts: Seq<TrackV>, id: TrackId, i: int) -> Option<int>
    decreases ts.len() - i,
{
    if i < 0 || i >= ts.len() {
        None
    } else if ts[i].id == id {
        Some(i)
    } else {
        track_index_from(ts, id, i + 1)
    }
}

pub open spec fn track_index(ts: Seq<TrackV>, id: TrackId) -> Option<int> {
    track_index_from(ts, id, 0)
}

/// Index of the first track (from `i` on) holding a clip named `id`.
pub open spec fn clip_track_from(ts: Seq<TrackV>, id: ClipId, i: int) -> Option<int>
    decreases ts.len() - i,
{
    if i < 0 || i >= ts.len() {
        None
    } else if clip_index(ts[i].clips, id) is Some {
        Some(i)
    } else {
        clip_track_from(ts, id, i + 1)
    }
}

pub open spec fn clip_track(ts: Seq<TrackV>, id: ClipId) -> Option<int> {
    clip_track_from(ts, id, 0)
}

/// First clip named `id` on the timeline, with the track that holds it.
pub open spec fn find_clip_spec(ts: Seq<TrackV>, id: ClipId) -> Option<(TrackId, ClipV)> {
    match clip_track(ts, id) {
        None => None,
        Some(t) => Some((ts[t].id, ts[t].clips[clip_index(ts[t].clips, id).unwrap()])),
    }
}

pub open spec fn timeline_has_clip(ts: Seq<TrackV>, id: ClipId) -> bool {
    exists|t: int| 0 <= t < ts.len() && has_clip(#[trigger] ts[t].clips, id)
}

pub open spec fn timeline_uses_asset(ts: Seq<TrackV>, asset: MediaAssetId) -> bool {
    exists|t: int| 0 <= t < ts.len() && uses_asset(#[trigger] ts[t].clips, asset)
}

pub open spec fn tracks_wf(ts: Seq<TrackV>) -> bool {
    forall|t: int| 0 <= t < ts.len() ==> (#[trigger] ts[t]).wf()
}

pub open spec fn has_track(ts: Seq<TrackV>, id: TrackId) -> bool {
    exists|t: int| 0 <= t < ts.len() && (#[trigger] ts[t]).id == id
}

// ---------------------------------------------------------------------------
// Lemmas on clip sequences.

pub proof fn lemma_overlap_scan_ok(s: Seq<ClipV>, start: u64, dur: u64, ignore: Option<ClipId>, i: int)
    requires
        0 <= i <= s.len(),
    ensures
        overlap_scan_from(s, i, start, dur, ignore) is Ok <==> (forall|j: int|
            i <= j < s.len() && ignore != Some(#[trigger] s[j].id) ==> overlap_check(
                s[j].start,
                s[j].dur,
                start,
                dur,
            ) == Ok::<bool, EditorError>(false)),
    decreases s.len() - i,
{
    if i < s.len() {
        lemma_overlap_scan_ok(s, start, dur, ignore, i + 1);
    }
}

/// The scan succeeds exactly when the candidate fits among the clips.
pub proof fn lemma_scan_fits(s: Seq<ClipV>, start: u64, dur: u64, ignore: Option<ClipId>)
    ensures
        overlap_scan(s, start, dur, ignore) is Ok <==> fits_among(s, start, dur, ignore),
{
    lemma_overlap_scan_ok(s, start, dur, ignore, 0);
}

pub proof fn lemma_insertion_index_bounds(s: Seq<ClipV>, x: u64, i: int)
    requires
        0 <= i <= s.len(),
    ensures
        i <= insertion_index_from(s, x, i) <= s.len(),
        forall|j: int| i <= j < insertion_index_from(s, x, i) ==> (#[trigger] s[j]).start <= x,
        insertion_index_from(s, x, i) < s.len() ==> s[insertion_index_from(s, x, i)].start > x,
    decreases s.len() - i,
{
    if i < s.len() {
        lemma_insertion_index_bounds(s, x, i + 1);
    }
}

/// In a well-formed track, every clip before the insertion index starts at or
/// before `x` and every clip from it on starts after `x`.
pub proof fn lemma_insertion_index(s: Seq<ClipV>, x: u64)
    requires
        clips_wf(s),
    ensures
        0 <= insertion_index(s, x) <= s.len(),
        forall|j: int| 0 <= j < insertion_index(s, x) ==> (#[trigger] s[j]).start <= x,
        forall|j: int| insertion_index(s, x) <= j < s.len() ==> (#[trigger] s[j]).start > x,
{
    lemma_insertion_index_bounds(s, x, 0);
    let p = insertion_index(s, x);
    assert forall|j: int| p <= j < s.len() implies (#[trigger] s[j]).start > x by {
        if j > p {
            assert(s[p].end() <= s[j].start);
        }
    }
}

/// Any index splitting a well-formed track at `x` is the insertion index.
pub proof fn lemma_insertion_index_unique(s: Seq<ClipV>, x: u64, k: int)
    requires
        clips_wf(s),
        0 <= k <= s.len(),
        forall|j: int| 0 <= j < k ==> (#[trigger] s[j]).start <= x,
        forall|j: int| k <= j < s.len() ==> (#[trigger] s[j]).start > x,
    ensures
        insertion_index(s, x) == k,
{
    lemma_insertion_index(s, x);
    let p = insertion_index(s, x);
    if p < k {
        assert(s[p].start > x);
    } else if p > k {
        assert(s[k].start > x);
    }
}

pub proof fn lemma_clip_index_from(s: Seq<ClipV>, id: ClipId, i: int)
    requires
        0 <= i <= s.len(),
    ensures
        clip_index_from(s, id, i) matches Some(k) ==> i <= k < s.len() && s[k].id == id && (forall|
            j: int,
        | i <= j < k ==> (#[trigger] s[j]).id != id),
        clip_index_from(s, id, i) is None ==> forall|j: int| i <= j < s.len() ==> (#[trigger] s[j]).id != id,
    decreases s.len() - i,
{
    if i < s.len() {
        lemma_clip_index_from(s, id, i + 1);
    }
}

/// `clip_index` finds the first clip with the identity, if any.
pub proof fn lemma_clip_index(s: Seq<ClipV>, id: ClipId)
    ensures
        clip_index(s, id) matches Some(k) ==> 0 <= k < s.len() && s[k].id == id && (forall|j: int|
            0 <= j < k ==> (#[trigger] s[j]).id != id),
        clip_index(s, id) is None <==> !has_clip(s, id),
{
    lemma_clip_index_from(s, id, 0);
}

/// The first index holding `id` is `k` when no earlier clip has it.
pub proof fn lemma_clip_index_is(s: Seq<ClipV>, id: ClipId, k: int)
    requires
        0 <= k < s.len(),
        s[k].id == id,
        forall|j: int| 0 <= j < k ==> (#[trigger] s[j]).id != id,
    ensures
        clip_index(s, id) == Some(k),
{
    lemma_clip_index(s, id);
    if let Some(p) = clip_index(s, id) {
        if p > k {
            assert(s[k].id == id);
        }
    }
}

/// Removing a clip keeps a track well formed.
pub proof fn lemma_remove_wf(s: Seq<ClipV>, k: int)
    requires
        clips_wf(s),
        0 <= k < s.len(),
    ensures
        clips_wf(s.remove(k)),
{
    let t = s.remove(k);
    assert forall|i: int, j: int| 0 <= i < j < t.len() implies #[trigger] t[i].end() <= #[trigger] t[j].start by {
        let si = if i < k { i } else { i + 1 };
        let sj = if j < k { j } else { j + 1 };
        assert(t[i] == s[si] && t[j] == s[sj]);
    }
    assert forall|i: int| 0 <= i < t.len() implies (#[trigger] t[i]).dur > 0 by {
        let si = if i < k { i } else { i + 1 };
        assert(t[i] == s[si]);
    }
    if t.len() >= 2 {
        assert forall|i: int| 0 <= i < t.len() implies end_fits((#[trigger] t[i]).start, t[i].dur) by {
            let si = if i < k { i } else { i + 1 };
            assert(t[i] == s[si]);
        }
    }
}

/// A clip that fits among the clips of a well-formed track can be inserted in
/// order and the track stays well formed.
pub proof fn lemma_sorted_insert_wf(s: Seq<ClipV>, c: ClipV)
    requires
        clips_wf(s),
        c.dur > 0,
        fits_among(s, c.start, c.dur, None),
    ensures
        clips_wf(sorted_insert(s, c)),
        sorted_insert(s, c).len() == s.len() + 1,
{
    lemma_insertion_index(s, c.start);
    let p = insertion_index(s, c.start);
    let r = sorted_insert(s, c);
    assert(r.len() == s.len() + 1);
    // clips before `p` end at or before `c` starts; clips from `p` on start at or after `c` ends
    assert forall|i: int| 0 <= i < p implies (#[trigger] s[i]).end() <= c.start by {
        assert(s[i] == s[i]);
        assert(overlap_check(s[i].start, s[i].dur, c.start, c.dur) == Ok::<bool, EditorError>(false));
    }
    assert forall|i: int| p <= i < s.len() implies c.end() <= (#[trigger] s[i]).start by {
        assert(overlap_check(s[i].start, s[i].dur, c.start, c.dur) == Ok::<bool, EditorError>(false));
    }
    assert forall|i: int, j: int| 0 <= i < j < r.len() implies #[trigger] r[i].end() <= #[trigger] r[j].start by {
        if j < p {
            assert(r[i] == s[i] && r[j] == s[j]);
        } else if j == p {
            assert(r[i] == s[i] && r[j] == c);
        } else if i < p {
            assert(r[i] == s[i] && r[j] == s[j - 1]);
            assert(s[i].end() <= c.start);
            assert(c.end() <= s[j - 1].start);
        } else if i == p {
            assert(r[i] == c && r[j] == s[j - 1]);
        } else {
            assert(r[i] == s[i - 1] && r[j] == s[j - 1]);
        }
    }
    assert forall|i: int| 0 <= i < r.len() implies (#[trigger] r[i]).dur > 0 by {
        if i < p {
            assert(r[i] == s[i]);
        } else if i > p {
            assert(r[i] == s[i - 1]);
        }
    }
    if r.len() >= 2 {
        assert forall|i: int| 0 <= i < r.len() implies end_fits((#[trigger] r[i]).start, r[i].dur) by {
            assert(overlap_check(s[0].start, s[0].dur, c.start, c.dur) == Ok::<bool, EditorError>(false));
            if i < p {
                assert(r[i] == s[i]);
                assert(overlap_check(s[i].start, s[i].dur, c.start, c.dur) == Ok::<bool, EditorError>(false));
            } else if i > p {
                assert(r[i] == s[i - 1]);
                assert(overlap_check(s[i - 1].start, s[i - 1].dur, c.start, c.dur) == Ok::<bool, EditorError>(false));
            }
        }
    }
}

/// A clip of a well-formed track fits among the others, and putting it back
/// after removing it restores the track.
pub proof fn lemma_reinsert_removed(s: Seq<ClipV>, k: int)
    requires
        clips_wf(s),
        0 <= k < s.len(),
    ensures
        fits_among(s.remove(k), s[k].start, s[k].dur, None),
        sorted_insert(s.remove(k), s[k]) == s,
{
    lemma_replace_in_place(s, k, s[k]);
    assert(s.update(k, s[k]) == s);
}

/// A clip of a well-formed track may be given new timing that still lies
/// between its neighbours: it then fits among the others and an ordered
/// insertion puts it back in the same place.
pub proof fn lemma_replace_in_place(s: Seq<ClipV>, k: int, c: ClipV)
    requires
        clips_wf(s),
        0 <= k < s.len(),
        c.dur > 0,
        k > 0 ==> s[k - 1].end() <= c.start,
        k + 1 < s.len() ==> c.end() <= s[k + 1].start,
        s.len() >= 2 ==> end_fits(c.start, c.dur),
    ensures
        fits_among(s.remove(k), c.start, c.dur, None),
        sorted_insert(s.remove(k), c) == s.update(k, c),
        clips_wf(s.update(k, c)),
{
    let t = s.remove(k);
    lemma_remove_wf(s, k);
    assert forall|i: int| 0 <= i < t.len() && None::<ClipId> != Some((#[trigger] t[i]).id) implies overlap_check(
        t[i].start,
        t[i].dur,
        c.start,
        c.dur,
    ) == Ok::<bool, EditorError>(false) by {
        if i < k {
            assert(t[i] == s[i]);
            if i < k - 1 {
                assert(s[i].end() <= s[k - 1].start);
            }
            assert(s[k - 1].start < s[k - 1].end());
        } else {
            assert(t[i] == s[i + 1]);
            if i + 1 > k + 1 {
                assert(s[k + 1].end() <= s[i + 1].start);
            }
            assert(s[k + 1].start < s[k + 1].end());
        }
    }
    assert forall|j: int| 0 <= j < k implies (#[trigger] t[j]).start <= c.start by {
        assert(t[j] == s[j]);
        if j < k - 1 {
            assert(s[j].end() <= s[k - 1].start);
        }
    }
    assert forall|j: int| k <= j < t.len() implies (#[trigger] t[j]).start > c.start by {
        assert(t[j] == s[j + 1]);
        if j + 1 > k + 1 {
            assert(s[k + 1].end() <= s[j + 1].start);
        }
    }
    lemma_insertion_index_unique(t, c.start, k);
    assert(sorted_insert(t, c) =~= s.update(k, c));
    lemma_sorted_insert_wf(t, c);
}

// ---------------------------------------------------------------------------
// Lemmas on track sequences.

pub proof fn lemma_track_index_from(ts: Seq<TrackV>, id: TrackId, i: int)
    requires
        0 <= i <= ts.len(),
    ensures
        track_index_from(ts, id, i) matches Some(k) ==> i <= k < ts.len() && ts[k].id == id && (
        forall|j: int| i <= j < k ==> (#[trigger] ts[j]).id != id),
        track_index_from(ts, id, i) is None ==> forall|j: int|
            i <= j < ts.len() ==> (#[trigger] ts[j]).id != id,
    decreases ts.len() - i,
{
    if i < ts.len() {
        lemma_track_index_from(ts, id, i + 1);
    }
}

/// `track_index` finds the first track with the identity, if any.
pub proof fn lemma_track_index(ts: Seq<TrackV>, id: TrackId)
    ensures
        track_index(ts, id) matches Some(k) ==> 0 <= k < ts.len() && ts[k].id == id && (forall|
            j: int,
        | 0 <= j < k ==> (#[trigger] ts[j]).id != id),
        track_index(ts, id) is None <==> !has_track(ts, id),
{
    lemma_track_index_from(ts, id, 0);
}

pub proof fn lemma_track_index_is(ts: Seq<TrackV>, id: TrackId, k: int)
    requires
        0 <= k < ts.len(),
        ts[k].id == id,
        forall|j: int| 0 <= j < k ==> (#[trigger] ts[j]).id != id,
    ensures
        track_index(ts, id) == Some(k),
{
    lemma_track_index(ts, id);
    if let Some(p) = track_index(ts, id) {
        if p > k {
            assert(ts[k].id == id);
        }
    }
}

pub proof fn lemma_clip_track_from(ts: Seq<TrackV>, id: ClipId, i: int)
    requires
        0 <= i <= ts.len(),
    ensures
        clip_track_from(ts, id, i) matches Some(k) ==> i <= k < ts.len() && has_clip(ts[k].clips, id)
            && (forall|j: int| i <= j < k ==> !has_clip((#[trigger] ts[j]).clips, id)),
        clip_track_from(ts, id, i) is None ==> forall|j: int|
            i <= j < ts.len() ==> !has_clip((#[trigger] ts[j]).clips, id),
    decreases ts.len() - i,
{
    if i < ts.len() {
        lemma_clip_index(ts[i].clips, id);
        lemma_clip_track_from(ts, id, i + 1);
    }
}

/// `clip_track` finds the first track holding the clip, if any.
pub proof fn lemma_clip_track(ts: Seq<TrackV>, id: ClipId)
    ensures
        clip_track(ts, id) matches Some(k) ==> 0 <= k < ts.len() && has_clip(ts[k].clips, id) && (
        forall|j: int| 0 <= j < k ==> !has_clip((#[trigger] ts[j]).clips, id)),
        clip_track(ts, id) is None <==> !timeline_has_clip(ts, id),
{
    lemma_clip_track_from(ts, id, 0);
    if clip_track(ts, id) is None {
        assert forall|t: int| 0 <= t < ts.len() implies !has_clip(#[trigger] ts[t].clips, id) by {}
    }
}

/// Replacing a track by one with the same identity keeps track lookups.
pub proof fn lemma_track_index_update(ts: Seq<TrackV>, k: int, t: TrackV, id: TrackId)
    requires
        0 <= k < ts.len(),
        t.id == ts[k].id,
    ensures
        track_index(ts.update(k, t), id) == track_index(ts, id),
{
    let us = ts.update(k, t);
    lemma_track_index(ts, id);
    lemma_track_index(us, id);
    match track_index(ts, id) {
        Some(j) => {
            assert(us[j].id == id);
            assert forall|i: int| 0 <= i < j implies (#[trigger] us[i]).id != id by {
                assert(ts[i].id != id);
            }
            lemma_track_index_is(us, id, j);
        },
        None => {
            if has_track(us, id) {
                let i = choose|i: int| 0 <= i < us.len() && (#[trigger] us[i]).id == id;
                assert(ts[i].id == id);
            }
        },
    }
}

/// Inserting a clip keeps every track well formed.
pub proof fn lemma_insert_on_track_wf(ts: Seq<TrackV>, track_id: TrackId, c: ClipV)
    requires
        tracks_wf(ts),
        c.dur > 0,
    ensures
        insert_on_track(ts, track_id, c) matches Ok(ts2) ==> tracks_wf(ts2) && ts2.len() == ts.len()
            && forall|i: int| 0 <= i < ts.len() ==> (#[trigger] ts2[i]).id == ts[i].id,
{
    lemma_track_index(ts, track_id);
    if let Some(k) = track_index(ts, track_id) {
        lemma_scan_fits(ts[k].clips, c.start, c.dur, None);
        if overlap_scan(ts[k].clips, c.start, c.dur, None) is Ok {
            lemma_sorted_insert_wf(ts[k].clips, c);
            let ts2 = ts.update(k, ts[k].with_clips(sorted_insert(ts[k].clips, c)));
            assert forall|i: int| 0 <= i < ts2.len() implies (#[trigger] ts2[i]).wf() by {
                if i != k {
                    assert(ts2[i] == ts[i]);
                }
            }
        }
    }
}

/// Removing a clip keeps every track well formed.
pub proof fn lemma_remove_from_track_wf(ts: Seq<TrackV>, track_id: TrackId, id: ClipId)
    requires
        tracks_wf(ts),
    ensures
        remove_from_track(ts, track_id, id) matches Ok((c, ts2)) ==> tracks_wf(ts2) && ts2.len()
            == ts.len() && c.dur > 0 && forall|i: int|
            0 <= i < ts.len() ==> (#[trigger] ts2[i]).id == ts[i].id,
{
    lemma_track_index(ts, track_id);
    if let Some(k) = track_index(ts, track_id) {
        lemma_clip_index(ts[k].clips, id);
        if let Some(j) = clip_index(ts[k].clips, id) {
            lemma_remove_wf(ts[k].clips, j);
            assert(ts[k].clips[j].dur > 0);
            let ts2 = ts.update(k, ts[k].with_clips(ts[k].clips.remove(j)));
            assert forall|i: int| 0 <= i < ts2.len() implies (#[trigger] ts2[i]).wf() by {
                if i != k {
                    assert(ts2[i] == ts[i]);
                }
            }
        }
    }
}

/// Putting back a clip just removed from a track restores the tracks.
pub proof fn lemma_reinsert_on_track(ts: Seq<TrackV>, track_id: TrackId, id: ClipId)
    requires
        tracks_wf(ts),
        remove_from_track(ts, track_id, id) is Ok,
    ensures
        ({
            let (c, rest) = remove_from_track(ts, track_id, id).unwrap();
            insert_on_track(rest, track_id, c) == Ok::<Seq<TrackV>, EditorError>(ts)
        }),
{
    lemma_track_index(ts, track_id);
    let k = track_index(ts, track_id).unwrap();
    lemma_clip_index(ts[k].clips, id);
    let j = clip_index(ts[k].clips, id).unwrap();
    let s = ts[k].clips;
    let rest = ts.update(k, ts[k].with_clips(s.remove(j)));
    lemma_track_index_update(ts, k, ts[k].with_clips(s.remove(j)), track_id);
    lemma_reinsert_removed(s, j);
    lemma_scan_fits(s.remove(j), s[j].start, s[j].dur, None);
    assert(rest[k].clips == s.remove(j));
    assert(rest.update(k, rest[k].with_clips(s)) =~= ts);
}

/// The first clip named `id` on the timeline is the one removed from the
/// first track named like the track holding it, when that removal succeeds.
pub proof fn lemma_found_clip_is_removed(ts: Seq<TrackV>, id: ClipId)
    requires
        find_clip_spec(ts, id) is Some,
        remove_from_track(ts, find_clip_spec(ts, id).unwrap().0, id) is Ok,
    ensures
        remove_from_track(ts, find_clip_spec(ts, id).unwrap().0, id).unwrap().0 == find_clip_spec(
            ts,
            id,
        ).unwrap().1,
        track_index(ts, find_clip_spec(ts, id).unwrap().0) == clip_track(ts, id),
{
    lemma_clip_track(ts, id);
    let t0 = clip_track(ts, id).unwrap();
    let tid = ts[t0].id;
    lemma_track_index(ts, tid);
    let k = track_index(ts, tid).unwrap();
    lemma_clip_index(ts[k].clips, id);
    if k < t0 {
        assert(has_clip(ts[k].clips, id)) by {
            let j = clip_index(ts[k].clips, id).unwrap();
            assert(ts[k].clips[j].id == id);
        }
    }
    if k > t0 {
        assert(ts[t0].id == tid);
    }
}

/// Identity uniqueness across the timeline: no two tracks share an identity
/// and no two clips (on any tracks) share an identity.
pub open spec fn track_ids_unique(ts: Seq<TrackV>) -> bool {
    forall|i: int, j: int| 0 <= i < j < ts.len() ==> (#[trigger] ts[i]).id != (#[trigger] ts[j]).id
}

pub open spec fn clip_ids_unique(ts: Seq<TrackV>) -> bool {
    forall|t1: int, i1: int, t2: int, i2: int|
        0 <= t1 < ts.len() && 0 <= t2 < ts.len() && 0 <= i1 < ts[t1].clips.len() && 0 <= i2
            < ts[t2].clips.len() && (t1 != t2 || i1 != i2) ==> (#[trigger] ts[t1].clips[i1]).id
            != (#[trigger] ts[t2].clips[i2]).id
}

pub open spec fn ids_unique(ts: Seq<TrackV>) -> bool {
    track_ids_unique(ts) && clip_ids_unique(ts)
}

/// Ignoring the one clip named `id` is the same as checking against the
/// track without it.
pub proof fn lemma_fits_ignoring_unique(s: Seq<ClipV>, j: int, start: u64, dur: u64)
    requires
        0 <= j < s.len(),
        forall|i: int| 0 <= i < s.len() && i != j ==> (#[trigger] s[i]).id != s[j].id,
    ensures
        fits_among(s, start, dur, Some(s[j].id)) == fits_among(s.remove(j), start, dur, None),
{
    let t = s.remove(j);
    if fits_among(s, start, dur, Some(s[j].id)) {
        assert forall|i: int| 0 <= i < t.len() && None::<ClipId> != Some((#[trigger] t[i]).id) implies overlap_check(
            t[i].start,
            t[i].dur,
            start,
            dur,
        ) == Ok::<bool, EditorError>(false) by {
            let si = if i < j { i } else { i + 1 };
            assert(t[i] == s[si]);
        }
    }
    if fits_among(t, start, dur, None) {
        assert forall|i: int| 0 <= i < s.len() && Some(s[j].id) != Some((#[trigger] s[i]).id) implies overlap_check(
            s[i].start,
            s[i].dur,
            start,
            dur,
        ) == Ok::<bool, EditorError>(false) by {
            if i < j {
                assert(t[i] == s[i]);
            } else {
                assert(i != j);
                assert(t[i - 1] == s[i]);
            }
        }
    }
}

/// Elements of an ordered insertion.
pub proof fn lemma_sorted_insert_elements(t: Seq<ClipV>, c: ClipV)
    requires
        clips_wf(t),
    ensures
        ({
            let p = insertion_index(t, c.start);
            let r = sorted_insert(t, c);
            &&& 0 <= p <= t.len()
            &&& r.len() == t.len() + 1
            &&& r[p] == c
            &&& forall|i: int| 0 <= i < p ==> #[trigger] r[i] == t[i]
            &&& forall|i: int| p < i < r.len() ==> #[trigger] r[i] == t[i - 1]
            &&& r.remove(p) == t
        }),
{
    lemma_insertion_index(t, c.start);
    let p = insertion_index(t, c.start);
    assert(sorted_insert(t, c).remove(p) =~= t);
}

/// A clip with a fresh identity is found where it was inserted, only there,
/// and removing it gives back the track.
pub proof fn lemma_sorted_insert_fresh(t: Seq<ClipV>, c: ClipV)
    requires
        clips_wf(t),
        !has_clip(t, c.id),
    ensures
        clip_index(sorted_insert(t, c), c.id) == Some(insertion_index(t, c.start)),
        forall|i: int|
            0 <= i < sorted_insert(t, c).len() && i != insertion_index(t, c.start) ==> (
            #[trigger] sorted_insert(t, c)[i]).id != c.id,
{
    lemma_sorted_insert_elements(t, c);
    let p = insertion_index(t, c.start);
    let r = sorted_insert(t, c);
    assert forall|i: int| 0 <= i < r.len() && i != p implies (#[trigger] r[i]).id != c.id by {
        if i < p {
            assert(r[i] == t[i]);
        } else {
            assert(r[i] == t[i - 1]);
        }
    }
    lemma_clip_index_is(r, c.id, p);
}

// ---------------------------------------------------------------------------
// Executable clips, tracks and timeline.

pub open spec fn clip_views(v: Seq<Clip>) -> Seq<ClipV> {
    v.map_values(|c: Clip| c@)
}

pub open spec fn track_views(v: Seq<Track>) -> Seq<TrackV> {
    v.map_values(|t: Track| t@)
}

/// Editorial clip placed on a track.
#[derive(Debug, Clone, Copy, PartialEq, Eq)]
pub struct Clip {
    id: ClipId,
    asset_id: MediaAssetId,
    start: u64,
    source_offset: u64,
    duration: u64,
}

impl View for Clip {
    type V = ClipV;

    closed spec fn view(&self) -> ClipV {
        ClipV {
            id: self.id,
            asset: self.asset_id,
            start: self.start,
            offset: self.source_offset,
            dur: self.duration,
        }
    }
}

impl Clip {
    #[verifier::type_invariant]
    spec fn positive_duration(self) -> bool {
        self.duration > 0
    }

    /// Creates a clip with explicit identity and timing.
    pub fn new(
        id: ClipId,
        asset_id: MediaAssetId,
        start: TimelinePosition,
        source_offset: SourceOffset,
        duration: TimelineDuration,
    ) -> (c: Self)
        ensures
            c@ == (ClipV {
                id,
                asset: asset_id,
                start: start@,
                offset: source_offset@,
                dur: duration@,
            }),
            c@.dur > 0,
    {
        Clip {
            id,
            asset_id,
            start: start.as_micros(),
            source_offset: source_offset.as_micros(),
            duration: duration.as_micros(),
        }
    }

    /// Clip identity.
    pub fn id(&self) -> (r: ClipId)
        ensures
            r == self@.id,
    {
        self.id
    }

    /// Referenced media asset.
    pub fn asset_id(&self) -> (r: MediaAssetId)
        ensures
            r == self@.asset,
    {
        self.asset_id
    }

    /// Timeline start position.
    pub fn start(&self) -> (r: TimelinePosition)
        ensures
            r@ == self@.start,
    {
        TimelinePosition::from_micros(self.start)
    }

    /// Offset into the media source.
    pub fn source_offset(&self) -> (r: SourceOffset)
        ensures
            r@ == self@.offset,
    {
        SourceOffset::from_micros(self.source_offset)
    }

    /// Clip duration on the timeline; it is never zero.
    pub fn duration(&self) -> (r: TimelineDuration)
        ensures
            r@ == self@.dur,
            self@.dur > 0,
    {
        proof {
            use_type_invariant(self);
        }
        TimelineDuration::from_positive(self.duration)
    }

    /// Half-open timeline range occupied by this clip.
    pub fn range(&self) -> (r: TimelineRange)
        ensures
            r@ == (self@.start, self@.dur),
    {
        TimelineRange::new(self.start(), self.duration())
    }

    /// Exclusive end position.
    pub fn end(&self) -> (r: Result<TimelinePosition, EditorError>)
        ensures
            end_fits(self@.start, self@.dur) <==> r is Ok,
            r matches Ok(p) ==> p@ == self@.end(),
            r matches Err(e) ==> e == EditorError::TimeOverflow,
    {
        self.range().end()
    }

    /// Replaces the clip's timeline placement and source window.
    pub(crate) fn set_timing(
        &mut self,
        start: TimelinePosition,
        source_offset: SourceOffset,
        duration: TimelineDuration,
    )
        ensures
            final(self)@ == old(self)@.with_timing(start@, source_offset@, duration@),
            final(self)@.dur > 0,
    {
        *self = Clip {
            id: self.id,
            asset_id: self.asset_id,
            start: start.as_micros(),
            source_offset: source_offset.as_micros(),
            duration: duration.as_micros(),
        };
    }
}

/// Ordered track containing non-overlapping clips.
#[derive(Debug, PartialEq, Eq)]
pub struct Track {
    id: TrackId,
    name: String,
    kind: TrackKind,
    clips: Vec<Clip>,
}

impl View for Track {
    type V = TrackV;

    closed spec fn view(&self) -> TrackV {
        TrackV { id: self.id, name: self.name@, kind: self.kind, clips: clip_views(self.clips@) }
    }
}

impl Clone for Track {
    fn clone(&self) -> (r: Self)
        ensures
            r@ == self@,
    {
        let mut clips: Vec<Clip> = Vec::new();
        let mut i: usize = 0;
        while i < self.clips.len()
            invariant
                i <= self.clips@.len(),
                clips@ =~= self.clips@.subrange(0, i as int),
            decreases self.clips@.len() - i,
        {
            clips.push(self.clips[i]);
            i += 1;
        }
        assert(self.clips@.subrange(0, i as int) =~= self.clips@);
        assert(clip_views(clips@) =~= clip_views(self.clips@));
        Track { id: self.id, name: self.name.clone(), kind: self.kind, clips }
    }
}

impl Track {
    /// Creates an empty track with a non-empty name.
    pub fn new(id: TrackId, name: String, kind: TrackKind) -> (r: Result<Self, EditorError>)
        ensures
            name@.len() > 0 <==> r is Ok,
            r matches Err(e) ==> e == EditorError::EmptyName,
            r matches Ok(t) ==> t@ == (TrackV { id, name: name@, kind, clips: Seq::empty() }),
    {
        if name.as_str().is_empty() {
            return Err(EditorError::EmptyName);
        }
        let r = Track { id, name, kind, clips: Vec::new() };
        assert(r@.clips =~= Seq::<ClipV>::empty());
        Ok(r)
    }

    /// Track identity.
    pub fn id(&self) -> (r: TrackId)
        ensures
            r == self@.id,
    {
        self.id
    }

    /// Track display name.
    pub fn name(&self) -> (r: &str)
        ensures
            r@ == self@.name,
    {
        self.name.as_str()
    }

    /// Track kind.
    pub fn kind(&self) -> (r: TrackKind)
        ensures
            r == self@.kind,
    {
        self.kind
    }

    /// Clips in ascending start order.
    pub fn clips(&self) -> (r: &[Clip])
        ensures
            clip_views(r@) == self@.clips,
    {
        self.clips.as_slice()
    }

    /// Index of the first clip starting strictly after `start`, or the length.
    fn insertion_position(&self, start: u64) -> (idx: usize)
        ensures
            idx as int == insertion_index(self@.clips, start),
            idx <= self@.clips.len(),
    {
        let mut idx: usize = 0;
        while idx < self.clips.len()
            invariant
                idx <= self@.clips.len(),
                insertion_index(self@.clips, start) == insertion_index_from(
                    self@.clips,
                    start,
                    idx as int,
                ),
            decreases self@.clips.len() - idx,
        {
            if self.clips[idx].start > start {
                return idx;
            }
            idx += 1;
        }
        idx
    }

    /// Index of the first clip named `id`.
    fn position_of(&self, id: ClipId) -> (r: Option<usize>)
        ensures
            r matches Some(i) ==> clip_index(self@.clips, id) == Some(i as int) && i < self@.clips.len(),
            r is None ==> clip_index(self@.clips, id) is None,
    {
        let mut i: usize = 0;
        while i < self.clips.len()
            invariant
                i <= self.clips@.len(),
                clip_index(self@.clips, id) == clip_index_from(self@.clips, id, i as int),
            decreases self.clips@.len() - i,
        {
            if self.clips[i].id == id {
                return Some(i);
            }
            i += 1;
        }
        None
    }

    /// First clip named `id`, if any.
    pub(crate) fn find_clip(&self, id: ClipId) -> (r: Option<&Clip>)
        ensures
            clip_index(self@.clips, id) is None <==> r is None,
            r matches Some(c) ==> c@ == self@.clips[clip_index(self@.clips, id).unwrap()],
    {
        let mut i: usize = 0;
        while i < self.clips.len()
            invariant
                i <= self.clips@.len(),
                clip_index(self@.clips, id) == clip_index_from(self@.clips, id, i as int),
            decreases self.clips@.len() - i,
        {
            if self.clips[i].id == id {
                return Some(&self.clips[i]);
            }
            i += 1;
        }
        None
    }

    /// Whether any clip of the track references `asset`.
    pub(crate) fn contains_asset(&self, asset: MediaAssetId) -> (r: bool)
        ensures
            r == uses_asset(self@.clips, asset),
    {
        let mut i: usize = 0;
        while i < self.clips.len()
            invariant
                i <= self.clips@.len(),
                forall|j: int| 0 <= j < i ==> (#[trigger] self@.clips[j]).asset != asset,
            decreases self.clips@.len() - i,
        {
            if self.clips[i].asset_id == asset {
                assert(self@.clips[i as int].asset == asset);
                return true;
            }
            i += 1;
        }
        false
    }

    /// Checks `candidate` against every clip except those named `ignore`.
    pub(crate) fn ensure_no_overlap(
        &self,
        candidate: TimelineRange,
        ignore: Option<ClipId>,
    ) -> (r: Result<(), EditorError>)
        ensures
            r == overlap_scan(self@.clips, candidate@.0, candidate@.1, ignore),
    {
        let mut i: usize = 0;
        while i < self.clips.len()
            invariant
                i <= self.clips@.len(),
                overlap_scan(self@.clips, candidate@.0, candidate@.1, ignore) == overlap_scan_from(
                    self@.clips,
                    i as int,
                    candidate@.0,
                    candidate@.1,
                    ignore,
                ),
            decreases self.clips@.len() - i,
        {
            let existing = &self.clips[i];
            if ignore == Some(existing.id()) {
                i += 1;
                continue;
            }
            if existing.range().overlaps(candidate)? {
                return Err(EditorError::Overlap);
            }
            i += 1;
        }
        Ok(())
    }

    /// Inserts `clip` in start order unless it clashes with an existing clip.
    pub(crate) fn insert_clip(&mut self, clip: Clip) -> (r: Result<(), EditorError>)
        requires
            old(self)@.wf(),
        ensures
            final(self)@.wf(),
            match insert_result(old(self)@.clips, clip@) {
                Ok(s) => r is Ok && final(self)@ == old(self)@.with_clips(s),
                Err(e) => r == Err::<(), EditorError>(e) && final(self)@ == old(self)@,
            },
    {
        proof {
            use_type_invariant(&clip);
            lemma_scan_fits(self@.clips, clip@.start, clip@.dur, None);
        }
        let range = clip.range();
        let scan = self.ensure_no_overlap(range, None);
        if scan.is_err() {
            return scan;
        }
        let idx = self.insertion_position(clip.start);
        proof {
            lemma_sorted_insert_wf(self@.clips, clip@);
        }
        let ghost before = self@;
        self.clips.insert(idx, clip);
        assert(self@.clips =~= sorted_insert(before.clips, clip@));
        Ok(())
    }

    /// Removes the first clip named `id` and returns it.
    pub(crate) fn remove_clip(&mut self, id: ClipId) -> (r: Result<Clip, EditorError>)
        requires
            old(self)@.wf(),
        ensures
            final(self)@.wf(),
            match clip_index(old(self)@.clips, id) {
                None => r == Err::<Clip, EditorError>(EditorError::ClipNotFound) && final(self)@
                    == old(self)@,
                Some(k) => r matches Ok(c) && c@ == old(self)@.clips[k] && final(self)@ == old(
                    self,
                )@.with_clips(old(self)@.clips.remove(k)),
            },
    {
        match self.position_of(id) {
            None => Err(EditorError::ClipNotFound),
            Some(i) => {
                proof {
                    lemma_remove_wf(self@.clips, i as int);
                }
                let ghost before = self@;
                let c = self.clips.remove(i);
                assert(self@.clips =~= before.clips.remove(i as int));
                Ok(c)
            }
        }
    }

    /// Puts a clip back in start order; same checks as [`Track::insert_clip`].
    pub(crate) fn reinsert_sorted(&mut self, clip: Clip) -> (r: Result<(), EditorError>)
        requires
            old(self)@.wf(),
        ensures
            final(self)@.wf(),
            match insert_result(old(self)@.clips, clip@) {
                Ok(s) => r is Ok && final(self)@ == old(self)@.with_clips(s),
                Err(e) => r == Err::<(), EditorError>(e) && final(self)@ == old(self)@,
            },
    {
        self.insert_clip(clip)
    }
}

/// Result of inserting a clip onto the first track named `track_id`.
pub open spec fn insert_on_track(ts: Seq<TrackV>, track_id: TrackId, c: ClipV) -> Result<
    Seq<TrackV>,
    EditorError,
> {
    match track_index(ts, track_id) {
        None => Err(EditorError::TrackNotFound),
        Some(k) => match insert_result(ts[k].clips, c) {
            Err(e) => Err(e),
            Ok(s) => Ok(ts.update(k, ts[k].with_clips(s))),
        },
    }
}

/// Result of removing the first clip named `id` from the first track named
/// `track_id`: the removed clip and the new tracks.
pub open spec fn remove_from_track(ts: Seq<TrackV>, track_id: TrackId, id: ClipId) -> Result<
    (ClipV, Seq<TrackV>),
    EditorError,
> {
    match track_index(ts, track_id) {
        None => Err(EditorError::TrackNotFound),
        Some(k) => match clip_index(ts[k].clips, id) {
            None => Err(EditorError::ClipNotFound),
            Some(j) => Ok(
                (ts[k].clips[j], ts.update(k, ts[k].with_clips(ts[k].clips.remove(j)))),
            ),
        },
    }
}

/// Result of checking a candidate span on the first track named `track_id`.
pub open spec fn scan_on_track(
    ts: Seq<TrackV>,
    track_id: TrackId,
    start: u64,
    dur: u64,
    ignore: Option<ClipId>,
) -> Result<(), EditorError> {
    match track_index(ts, track_id) {
        None => Err(EditorError::TrackNotFound),
        Some(k) => overlap_scan(ts[k].clips, start, dur, ignore),
    }
}

/// Project timeline: ordered tracks.
#[derive(Debug, PartialEq, Eq)]
pub struct Timeline {
    tracks: Vec<Track>,
}

impl View for Timeline {
    type V = Seq<TrackV>;

    closed spec fn view(&self) -> Seq<TrackV> {
        track_views(self.tracks@)
    }
}

impl Clone for Timeline {
    fn clone(&self) -> (r: Self)
        ensures
            r@ == self@,
    {
        let mut tracks: Vec<Track> = Vec::new();
        let mut i: usize = 0;
        while i < self.tracks.len()
            invariant
                i <= self.tracks@.len(),
                tracks@.len() == i,
                forall|j: int| 0 <= j < i ==> (#[trigger] tracks@[j])@ == self.tracks@[j]@,
            decreases self.tracks@.len() - i,
        {
            let t = self.tracks[i].clone();
            tracks.push(t);
            i += 1;
        }
        assert(track_views(tracks@) =~= track_views(self.tracks@));
        Timeline { tracks }
    }
}

impl Timeline {
    /// Creates an empty timeline.
    pub fn new() -> (t: Self)
        ensures
            t@ == Seq::<TrackV>::empty(),
    {
        let t = Timeline { tracks: Vec::new() };
        assert(t@ =~= Seq::<TrackV>::empty());
        t
    }

    /// Tracks in insertion order.
    pub fn tracks(&self) -> (r: &[Track])
        ensures
            track_views(r@) == self@,
    {
        self.tracks.as_slice()
    }

    /// Index of the first track named `id`.
    pub(crate) fn track_index(&self, id: TrackId) -> (r: Result<usize, EditorError>)
        ensures
            r matches Ok(i) ==> track_index(self@, id) == Some(i as int) && i < self@.len(),
            r matches Err(e) ==> e == EditorError::TrackNotFound && track_index(self@, id) is None,
    {
        let mut i: usize = 0;
        while i < self.tracks.len()
            invariant
                i <= self.tracks@.len(),
                track_index(self@, id) == track_index_from(self@, id, i as int),
            decreases self.tracks@.len() - i,
        {
            if self.tracks[i].id() == id {
                return Ok(i);
            }
            i += 1;
        }
        Err(EditorError::TrackNotFound)
    }

    /// First track named `id`.
    pub(crate) fn track(&self, id: TrackId) -> (r: Result<&Track, EditorError>)
        ensures
            match track_index(self@, id) {
                None => r == Err::<&Track, EditorError>(EditorError::TrackNotFound),
                Some(k) => r matches Ok(t) && t@ == self@[k],
            },
    {
        match self.track_index(id) {
            Ok(idx) => Ok(&self.tracks[idx]),
            Err(e) => Err(e),
        }
    }

    /// Appends a track whose identity is not used yet.
    pub(crate) fn add_track(&mut self, track: Track) -> (r: Result<(), EditorError>)
        ensures
            has_track(old(self)@, track@.id) ==> r == Err::<(), EditorError>(EditorError::DuplicateId)
                && final(self)@ == old(self)@,
            !has_track(old(self)@, track@.id) ==> r is Ok && final(self)@ == old(self)@.push(track@),
    {
        proof {
            lemma_track_index(self@, track@.id);
        }
        if self.track_index(track.id()).is_ok() {
            return Err(EditorError::DuplicateId);
        }
        let ghost before = self@;
        self.tracks.push(track);
        assert(self@ =~= before.push(track@));
        Ok(())
    }

    /// Removes the first track named `id`, returning its index and contents.
    pub(crate) fn remove_track(&mut self, id: TrackId) -> (r: Result<(usize, Track), EditorError>)
        ensures
            match track_index(old(self)@, id) {
                None => r matches Err(e) && e == EditorError::TrackNotFound && final(self)@ == old(
                    self,
                )@,
                Some(k) => r matches Ok((i, t)) && i == k && t@ == old(self)@[k] && final(self)@
                    == old(self)@.remove(k),
            },
    {
        let idx = match self.track_index(id) {
            Ok(idx) => idx,
            Err(e) => return Err(e),
        };
        let ghost before = self@;
        let t = self.tracks.remove(idx);
        assert(self@ =~= before.remove(idx as int));
        Ok((idx, t))
    }

    /// Inserts a track at `index`.
    pub(crate) fn insert_track_at(&mut self, index: usize, track: Track)
        requires
            index <= old(self)@.len(),
        ensures
            final(self)@ == old(self)@.insert(index as int, track@),
    {
        let ghost before = self@;
        self.tracks.insert(index, track);
        assert(self@ =~= before.insert(index as int, track@));
    }

    /// First clip named `id`, with the identity of the track holding it.
    pub(crate) fn find_clip(&self, id: ClipId) -> (r: Option<(TrackId, &Clip)>)
        ensures
            find_clip_spec(self@, id) is None <==> r is None,
            r matches Some((t, c)) ==> find_clip_spec(self@, id) == Some((t, c@)),
    {
        let mut i: usize = 0;
        while i < self.tracks.len()
            invariant
                i <= self.tracks@.len(),
                clip_track(self@, id) == clip_track_from(self@, id, i as int),
            decreases self.tracks@.len() - i,
        {
            let track = &self.tracks[i];
            if let Some(clip) = track.find_clip(id) {
                return Some((track.id(), clip));
            }
            i += 1;
        }
        None
    }

    /// Whether any track holds a clip named `id`.
    pub(crate) fn contains_clip_id(&self, id: ClipId) -> (r: bool)
        ensures
            r == timeline_has_clip(self@, id),
            r == find_clip_spec(self@, id) is Some,
    {
        proof {
            lemma_clip_track(self@, id);
        }
        self.find_clip(id).is_some()
    }

    /// Whether any clip references `asset`.
    pub(crate) fn asset_in_use(&self, asset: MediaAssetId) -> (r: bool)
        ensures
            r == timeline_uses_asset(self@, asset),
    {
        let mut i: usize = 0;
        while i < self.tracks.len()
            invariant
                i <= self.tracks@.len(),
                forall|t: int| 0 <= t < i ==> !uses_asset(#[trigger] self@[t].clips, asset),
            decreases self.tracks@.len() - i,
        {
            if self.tracks[i].contains_asset(asset) {
                assert(uses_asset(self@[i as int].clips, asset));
                return true;
            }
            i += 1;
        }
        false
    }

    /// Identity of the first track holding a clip named `clip_id`.
    pub(crate) fn clip_track_id(&self, clip_id: ClipId) -> (r: Result<TrackId, EditorError>)
        ensures
            match find_clip_spec(self@, clip_id) {
                None => r == Err::<TrackId, EditorError>(EditorError::ClipNotFound),
                Some((t, _)) => r == Ok::<TrackId, EditorError>(t),
            },
    {
        match self.find_clip(clip_id) {
            Some((tid, _)) => Ok(tid),
            None => Err(EditorError::ClipNotFound),
        }
    }

    /// Checks a candidate span on the first track named `track_id`.
    pub(crate) fn ensure_no_overlap_on(
        &self,
        track_id: TrackId,
        candidate: TimelineRange,
        ignore: Option<ClipId>,
    ) -> (r: Result<(), EditorError>)
        ensures
            r == scan_on_track(self@, track_id, candidate@.0, candidate@.1, ignore),
    {
        self.track(track_id)?.ensure_no_overlap(candidate, ignore)
    }

    /// Inserts a clip in order onto the first track named `track_id`.
    pub(crate) fn insert_clip_on(&mut self, track_id: TrackId, clip: Clip) -> (r: Result<
        (),
        EditorError,
    >)
        requires
            tracks_wf(old(self)@),
        ensures
            tracks_wf(final(self)@),
            match insert_on_track(old(self)@, track_id, clip@) {
                Ok(ts) => r is Ok && final(self)@ == ts,
                Err(e) => r == Err::<(), EditorError>(e) && final(self)@ == old(self)@,
            },
    {
        let idx = match self.track_index(track_id) {
            Ok(idx) => idx,
            Err(e) => return Err(e),
        };
        assert(self@[idx as int].wf());
        let ghost before = self@;
        let r = self.tracks[idx].insert_clip(clip);
        assert(self@ =~= before.update(idx as int, self.tracks@[idx as int]@));
        if r.is_ok() {
            assert(self@ =~= before.update(idx as int, before[idx as int].with_clips(
                insert_result(before[idx as int].clips, clip@).unwrap(),
            )));
        } else {
            assert(self@ =~= before);
        }
        proof {
            assert forall|t: int| 0 <= t < self@.len() implies (#[trigger] self@[t]).wf() by {
                if t != idx {
                    assert(self@[t] == before[t]);
                }
            }
        }
        r
    }

    /// Removes the first clip named `id` from the first track named `track_id`.
    pub(crate) fn remove_clip_from(&mut self, track_id: TrackId, id: ClipId) -> (r: Result<
        Clip,
        EditorError,
    >)
        requires
            tracks_wf(old(self)@),
        ensures
            tracks_wf(final(self)@),
            match remove_from_track(old(self)@, track_id, id) {
                Ok((c, ts)) => r matches Ok(rc) && rc@ == c && final(self)@ == ts,
                Err(e) => r == Err::<Clip, EditorError>(e) && final(self)@ == old(self)@,
            },
    {
        let idx = match self.track_index(track_id) {
            Ok(idx) => idx,
            Err(e) => return Err(e),
        };
        assert(self@[idx as int].wf());
        let ghost before = self@;
        let r = self.tracks[idx].remove_clip(id);
        assert(self@ =~= before.update(idx as int, self.tracks@[idx as int]@));
        if r.is_err() {
            assert(self@ =~= before);
        }
        proof {
            assert forall|t: int| 0 <= t < self@.len() implies (#[trigger] self@[t]).wf() by {
                if t != idx {
                    assert(self@[t] == before[t]);
                }
            }
        }
        r
    }
}

} // verus!
