use dvs_studio::pipeline::{
    classify_decoded_frame, diagnostic_bridge_state, evaluate_playback_step,
    extend_diagnostic_notes, frame_accounting, FrameAccounting, is_playback_frame_due, is_waiting_for_prepared_present,
    start_playback_check, DiagnosticNote, FrameDisposition, PlaybackStep, PreparedFrameCheck,
    ScheduleVerdict, MAX_DIAGNOSTIC_NOTES,
};
use dvs_studio::AppError;

fn note(kind: &str, n: usize) -> DiagnosticNote {
    DiagnosticNote {
        kind: kind.to_string(),
        extra: format!("frame_id={n}"),
    }
}

#[test]
fn playback_steps() {
    let held = PreparedFrameCheck::Verdict(ScheduleVerdict::PresentNow { lateness_us: 250 });
    assert_eq!(
        evaluate_playback_step(false, 100, 100, held, false),
        (PlaybackStep::Idle, false)
    );
    assert_eq!(
        evaluate_playback_step(true, 0, 100, held, false),
        (PlaybackStep::Waiting, false)
    );
    assert_eq!(
        evaluate_playback_step(true, 100, 100, held, false),
        (PlaybackStep::Present { lateness_us: 250 }, false)
    );
    assert_eq!(
        evaluate_playback_step(
            true,
            100,
            100,
            PreparedFrameCheck::Verdict(ScheduleVerdict::WaitUntil { target_us: 9 }),
            false
        ),
        (PlaybackStep::Waiting, true)
    );
    assert_eq!(
        evaluate_playback_step(true, 100, 100, PreparedFrameCheck::ClockNotRunning, false),
        (PlaybackStep::Waiting, false)
    );
    assert_eq!(
        evaluate_playback_step(
            true,
            100,
            100,
            PreparedFrameCheck::Verdict(ScheduleVerdict::RejectTimestamp),
            false
        ),
        (PlaybackStep::Waiting, false)
    );
    assert_eq!(
        evaluate_playback_step(true, 100, 100, PreparedFrameCheck::NoneHeld, true),
        (PlaybackStep::Finished, false)
    );
    assert_eq!(
        evaluate_playback_step(true, 100, 100, PreparedFrameCheck::NoneHeld, false),
        (PlaybackStep::DecodeNext, false)
    );
}

#[test]
fn decoded_frames_are_classified() {
    assert_eq!(classify_decoded_frame(None), FrameDisposition::Unplanned);
    assert_eq!(
        classify_decoded_frame(Some(ScheduleVerdict::RejectTimestamp)),
        FrameDisposition::Rejected
    );
    assert_eq!(
        classify_decoded_frame(Some(ScheduleVerdict::DropLate { lateness_us: 40_000 })),
        FrameDisposition::DroppedLate
    );
    assert_eq!(
        classify_decoded_frame(Some(ScheduleVerdict::WaitUntil { target_us: 33_366 })),
        FrameDisposition::Prepare
    );
    assert_eq!(
        classify_decoded_frame(Some(ScheduleVerdict::PresentNow { lateness_us: 0 })),
        FrameDisposition::Prepare
    );
}

#[test]
fn unplanned_and_rejected_frames_are_counted_apart() {
    let unplanned = frame_accounting(classify_decoded_frame(None));
    assert_eq!(
        unplanned,
        FrameAccounting {
            decoded: true,
            scheduled: false,
            rejected_timestamp: true,
            dropped_late: false,
            classified_note: false,
            prepared_note: false,
        }
    );
    let rejected = frame_accounting(classify_decoded_frame(Some(ScheduleVerdict::RejectTimestamp)));
    assert!(rejected.scheduled && rejected.rejected_timestamp && rejected.classified_note);
    assert!(!rejected.dropped_late && !rejected.prepared_note);
    let late = frame_accounting(FrameDisposition::DroppedLate);
    assert!(late.scheduled && late.dropped_late && late.classified_note && !late.rejected_timestamp);
    let prepared = frame_accounting(FrameDisposition::Prepare);
    assert!(prepared.scheduled && prepared.classified_note && prepared.prepared_note);
    assert!(!prepared.rejected_timestamp && !prepared.dropped_late);
}

#[test]
fn due_and_waiting() {
    let waiting = PreparedFrameCheck::Verdict(ScheduleVerdict::WaitUntil { target_us: 1 });
    assert!(is_waiting_for_prepared_present(waiting));
    assert!(!is_waiting_for_prepared_present(PreparedFrameCheck::NoneHeld));
    assert!(is_playback_frame_due(Some(10), 10, true));
    assert!(!is_playback_frame_due(Some(11), 10, true));
    assert!(is_playback_frame_due(None, 10, false));
    assert!(!is_playback_frame_due(None, 10, true));
}

#[test]
fn bridge_state_labels() {
    assert_eq!(diagnostic_bridge_state(true, true, false, false), "prepared");
    assert_eq!(
        diagnostic_bridge_state(true, false, true, true),
        "prepared_metadata_only"
    );
    assert_eq!(diagnostic_bridge_state(false, false, true, true), "consumed_display");
    assert_eq!(diagnostic_bridge_state(false, false, true, false), "eof_no_display");
    assert_eq!(diagnostic_bridge_state(false, true, false, true), "idle");
}

#[test]
fn diagnostic_notes_are_bounded() {
    let mut notes = Vec::new();
    extend_diagnostic_notes(&mut notes, (0..30).map(|n| note("frame_decoded", n)).collect());
    assert_eq!(notes.len(), 30);
    extend_diagnostic_notes(&mut notes, (30..40).map(|n| note("frame_prepared", n)).collect());
    assert_eq!(notes.len(), MAX_DIAGNOSTIC_NOTES);
    assert_eq!(notes[31], note("frame_prepared", 31));
    extend_diagnostic_notes(&mut notes, vec![note("late", 99)]);
    assert_eq!(notes.len(), MAX_DIAGNOSTIC_NOTES);
}

#[test]
fn playback_starts_once_with_a_first_timestamp() {
    assert_eq!(start_playback_check(false, Some(1_001)), Ok(1_001));
    assert_eq!(start_playback_check(true, Some(1_001)), Err(AppError::InvalidState));
    assert_eq!(
        start_playback_check(false, None),
        Err(AppError::Playback("missing timestamp".to_string()))
    );
}
