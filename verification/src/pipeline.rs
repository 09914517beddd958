//! Playback decisions of the video pipeline, apart from the decoder, clock,
//! scheduler and GPU bridge they steer.
//!
//! The host owns those components. It reports what they say as plain values
//! (the scheduler's verdict on a frame, whether the clock runs, whether a
//! frame is held) and carries out what these functions decide.

use vstd::prelude::*;

use crate::app_error::{AppError, AppErrorV};

verus! {

/// The scheduler's verdict on a frame at the current clock reading.
#[derive(Debug, Clone, Copy, PartialEq, Eq, Structural)]
pub enum ScheduleVerdict {
    /// Too early: present at the given media target (microseconds).
    WaitUntil { target_us: i64 },
    /// Due: present now, this late (microseconds).
    PresentNow { lateness_us: i64 },
    /// Too late to show: drop it.
    DropLate { lateness_us: i64 },
    /// The frame's timestamp cannot be scheduled.
    RejectTimestamp,
}

/// What is known about the prepared frame when a step is evaluated.
#[derive(Debug, Clone, Copy, PartialEq, Eq, Structural)]
pub enum PreparedFrameCheck {
    /// No frame is prepared.
    NoneHeld,
    /// A frame is prepared but the playback clock gives no elapsed time.
    ClockNotRunning,
    /// A frame is prepared and the scheduler judged it.
    Verdict(ScheduleVerdict),
}

/// The next playback step.
#[derive(Debug, Clone, Copy, PartialEq, Eq, Structural)]
pub enum PlaybackStep {
    /// Playback has not started.
    Idle,
    /// Nothing to present yet.
    Waiting,
    /// Present the prepared frame now.
    Present { lateness_us: i64 },
    /// The stream has ended and nothing is left to present.
    Finished,
    /// Decode and prepare the next frame.
    DecodeNext,
}

/// What happens to a freshly decoded frame.
#[derive(Debug, Clone, Copy, PartialEq, Eq, Structural)]
pub enum FrameDisposition {
    /// The scheduler could not plan it: count it as rejected and decode on.
    Unplanned,
    /// The scheduler judged its timestamp unusable: count it as scheduled
    /// and rejected, note the verdict, and decode on.
    Rejected,
    /// It is already late: count it as dropped and decode on.
    DroppedLate,
    /// Prepare it for presentation and stop decoding.
    Prepare,
}

/// Evaluates the next playback step. Returns the step and whether an early
/// wait is to be counted in the metrics.
pub fn evaluate_playback_step(
    playback_started: bool,
    window_width: u32,
    window_height: u32,
    prepared: PreparedFrameCheck,
    eof: bool,
) -> (r: (PlaybackStep, bool))
    ensures
        r == (if !playback_started {
            (PlaybackStep::Idle, false)
        } else if window_width == 0 || window_height == 0 {
            (PlaybackStep::Waiting, false)
        } else {
            match prepared {
                PreparedFrameCheck::ClockNotRunning => (PlaybackStep::Waiting, false),
                PreparedFrameCheck::Verdict(ScheduleVerdict::WaitUntil { .. }) => (
                    PlaybackStep::Waiting,
                    true,
                ),
                PreparedFrameCheck::Verdict(ScheduleVerdict::PresentNow { lateness_us }) => (
                    PlaybackStep::Present { lateness_us },
                    false,
                ),
                PreparedFrameCheck::Verdict(_) => (PlaybackStep::Waiting, false),
                PreparedFrameCheck::NoneHeld => if eof {
                    (PlaybackStep::Finished, false)
                } else {
                    (PlaybackStep::DecodeNext, false)
                },
            }
        }),
{
    if !playback_started {
        return (PlaybackStep::Idle, false);
    }
    if window_width == 0 || window_height == 0 {
        return (PlaybackStep::Waiting, false);
    }
    match prepared {
        PreparedFrameCheck::ClockNotRunning => (PlaybackStep::Waiting, false),
        PreparedFrameCheck::Verdict(verdict) => match verdict {
            ScheduleVerdict::WaitUntil { .. } => (PlaybackStep::Waiting, true),
            ScheduleVerdict::PresentNow { lateness_us } => (
                PlaybackStep::Present { lateness_us },
                false,
            ),
            ScheduleVerdict::DropLate { .. } | ScheduleVerdict::RejectTimestamp => (
                PlaybackStep::Waiting,
                false,
            ),
        },
        PreparedFrameCheck::NoneHeld => if eof {
            (PlaybackStep::Finished, false)
        } else {
            (PlaybackStep::DecodeNext, false)
        },
    }
}

/// What to do with a decoded frame given the scheduler's verdict, or `None`
/// when the scheduler could not plan it.
pub fn classify_decoded_frame(verdict: Option<ScheduleVerdict>) -> (r: FrameDisposition)
    ensures
        r == match verdict {
            None => FrameDisposition::Unplanned,
            Some(ScheduleVerdict::RejectTimestamp) => FrameDisposition::Rejected,
            Some(ScheduleVerdict::DropLate { .. }) => FrameDisposition::DroppedLate,
            Some(_) => FrameDisposition::Prepare,
        },
{
    match verdict {
        None => FrameDisposition::Unplanned,
        Some(ScheduleVerdict::RejectTimestamp) => FrameDisposition::Rejected,
        Some(ScheduleVerdict::DropLate { .. }) => FrameDisposition::DroppedLate,
        Some(_) => FrameDisposition::Prepare,
    }
}

/// The playback metrics' recordings a decoded frame calls for, and whether
/// its classification is noted among the diagnostic notes.
#[derive(Debug, Clone, Copy, PartialEq, Eq, Structural)]
pub struct FrameAccounting {
    /// Count the frame as decoded.
    pub decoded: bool,
    /// Count the frame as scheduled (the scheduler planned and judged it).
    pub scheduled: bool,
    /// Count the frame as having an unusable timestamp.
    pub rejected_timestamp: bool,
    /// Count the frame as dropped for being late.
    pub dropped_late: bool,
    /// Write a "frame_classified" note for it.
    pub classified_note: bool,
    /// Write a "frame_prepared" note for it.
    pub prepared_note: bool,
}

/// What each disposition records: every frame counts as decoded; only a
/// frame the scheduler planned counts as scheduled and gets a classification
/// note; an unplanned frame and a rejected verdict both count as a rejected
/// timestamp; a prepared frame also gets a "frame_prepared" note.
pub open spec fn accounting_of(d: FrameDisposition) -> FrameAccounting {
    let planned = !(d is Unplanned);
    FrameAccounting {
        decoded: true,
        scheduled: planned,
        rejected_timestamp: d is Unplanned || d is Rejected,
        dropped_late: d is DroppedLate,
        classified_note: planned,
        prepared_note: d is Prepare,
    }
}

/// Returns the metric recordings and notes a decoded frame with disposition
/// `d` calls for.
pub fn frame_accounting(d: FrameDisposition) -> (r: FrameAccounting)
    ensures
        r == accounting_of(d),
{
    match d {
        FrameDisposition::Unplanned => FrameAccounting {
            decoded: true,
            scheduled: false,
            rejected_timestamp: true,
            dropped_late: false,
            classified_note: false,
            prepared_note: false,
        },
        FrameDisposition::Rejected => FrameAccounting {
            decoded: true,
            scheduled: true,
            rejected_timestamp: true,
            dropped_late: false,
            classified_note: true,
            prepared_note: false,
        },
        FrameDisposition::DroppedLate => FrameAccounting {
            decoded: true,
            scheduled: true,
            rejected_timestamp: false,
            dropped_late: true,
            classified_note: true,
            prepared_note: false,
        },
        FrameDisposition::Prepare => FrameAccounting {
            decoded: true,
            scheduled: true,
            rejected_timestamp: false,
            dropped_late: false,
            classified_note: true,
            prepared_note: true,
        },
    }
}

/// Whether the prepared frame still waits for its presentation time.
pub fn is_waiting_for_prepared_present(prepared: PreparedFrameCheck) -> (r: bool)
    ensures
        r == (prepared matches PreparedFrameCheck::Verdict(ScheduleVerdict::WaitUntil { .. })),
{
    match prepared {
        PreparedFrameCheck::Verdict(ScheduleVerdict::WaitUntil { .. }) => true,
        _ => false,
    }
}

/// Whether the prepared frame is due at `now`: its wakeup deadline has been
/// reached, or, without a deadline, it is not waiting.
pub fn is_playback_frame_due(wakeup_deadline: Option<u64>, now: u64, waiting: bool) -> (r: bool)
    ensures
        r == match wakeup_deadline {
            Some(d) => now >= d,
            None => !waiting,
        },
{
    match wakeup_deadline {
        Some(d) => now >= d,
        None => !waiting,
    }
}

/// Label of the interop bridge's state for diagnostics.
pub open spec fn bridge_state(
    has_prepared: bool,
    prepared_frame_ok: bool,
    eof: bool,
    consumed_display_ok: bool,
) -> Seq<char> {
    if has_prepared {
        if prepared_frame_ok {
            "prepared"@
        } else {
            "prepared_metadata_only"@
        }
    } else if eof {
        if consumed_display_ok {
            "consumed_display"@
        } else {
            "eof_no_display"@
        }
    } else {
        "idle"@
    }
}

/// Returns the label of the interop bridge's state for diagnostics.
pub fn diagnostic_bridge_state(
    has_prepared: bool,
    prepared_frame_ok: bool,
    eof: bool,
    consumed_display_ok: bool,
) -> (r: String)
    ensures
        r@ == bridge_state(has_prepared, prepared_frame_ok, eof, consumed_display_ok),
{
    if has_prepared {
        if prepared_frame_ok {
            "prepared".to_owned()
        } else {
            "prepared_metadata_only".to_owned()
        }
    } else if eof {
        if consumed_display_ok {
            "consumed_display".to_owned()
        } else {
            "eof_no_display".to_owned()
        }
    } else {
        "idle".to_owned()
    }
}

/// Most diagnostic notes kept between two reads.
pub const MAX_DIAGNOSTIC_NOTES: usize = 32;

/// A diagnostic note: its kind and free text.
#[derive(Debug, Clone, PartialEq, Eq)]
pub struct DiagnosticNote {
    pub kind: String,
    pub extra: String,
}

pub open spec fn note_views(v: Seq<DiagnosticNote>) -> Seq<(Seq<char>, Seq<char>)> {
    v.map_values(|n: DiagnosticNote| (n.kind@, n.extra@))
}

/// Appends `more` to `notes`, dropping what does not fit under the bound.
pub fn extend_diagnostic_notes(notes: &mut Vec<DiagnosticNote>, more: Vec<DiagnosticNote>)
    requires
        old(notes).len() <= MAX_DIAGNOSTIC_NOTES,
    ensures
        ({
            let room = (MAX_DIAGNOSTIC_NOTES - old(notes).len()) as int;
            let kept = if more.len() <= room {
                more.len() as int
            } else {
                room
            };
            note_views(final(notes)@) == note_views(old(notes)@) + note_views(
                more@.take(kept),
            )
        }),
        final(notes).len() <= MAX_DIAGNOSTIC_NOTES,
{
    let ghost start = note_views(notes@);
    let mut i: usize = 0;
    while i < more.len() && notes.len() < MAX_DIAGNOSTIC_NOTES
        invariant
            i <= more.len(),
            notes.len() == old(notes).len() + i,
            notes.len() <= MAX_DIAGNOSTIC_NOTES,
            start == note_views(old(notes)@),
            note_views(notes@) == start + note_views(more@.take(i as int)),
        decreases more.len() - i,
    {
        let ghost before = notes@;
        let note = DiagnosticNote {
            kind: more[i].kind.clone(),
            extra: more[i].extra.clone(),
        };
        notes.push(note);
        proof {
            assert(notes@ == before.push(note));
            assert(note_views(notes@) =~= note_views(before).push((note.kind@, note.extra@)));
            assert(more@.take(i + 1) =~= more@.take(i as int).push(more@[i as int]));
            assert(note_views(more@.take(i + 1)) =~= note_views(more@.take(i as int)).push(
                (more@[i as int].kind@, more@[i as int].extra@),
            ));
        }
        i += 1;
    }
}

/// Starting playback: refused once started, and without a first timestamp;
/// otherwise the clock starts at the first timestamp.
pub fn start_playback_check(playback_started: bool, first_pts: Option<i64>) -> (r: Result<
    i64,
    AppError,
>)
    ensures
        playback_started ==> r == Err::<i64, AppError>(AppError::InvalidState),
        !playback_started ==> match first_pts {
            Some(t) => r == Ok::<i64, AppError>(t),
            None => r matches Err(e) && e@ == AppErrorV::Playback("missing timestamp"@),
        },
{
    if playback_started {
        return Err(AppError::InvalidState);
    }
    match first_pts {
        Some(t) => Ok(t),
        None => Err(AppError::Playback("missing timestamp".to_owned())),
    }
}

/// Decoding after the end of the stream: the request is refused and counted.
/// Returns whether to decode, and the new count of requests made after the end.
pub fn decode_gate(eof: bool, calls_after_eof: u64) -> (r: (bool, u64))
    requires
        eof ==> calls_after_eof < u64::MAX,
    ensures
        r == if eof {
            (false, (calls_after_eof + 1) as u64)
        } else {
            (true, calls_after_eof)
        },
{
    if eof {
        (false, calls_after_eof + 1)
    } else {
        (true, calls_after_eof)
    }
}

} // verus!
