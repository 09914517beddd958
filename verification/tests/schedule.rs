use dvs_studio::event_loop_schedule::{
    deadline_relative_ms, egui_delay_requests_immediate_redraw, repaint_delay_from_viewport_delays,
    NEVER_REPAINT_NS,
};
use dvs_studio::{ControlFlowAction, EventLoopSchedule};

const MS: u64 = 1_000_000;
const NOW: u64 = 5_000 * MS;

#[test]
fn future_playback_deadline_waits_until() {
    let now = NOW;
    let deadline = now + 30 * MS;
    let mut schedule = EventLoopSchedule::default();
    schedule.sync_playback(Some(deadline), false, now);
    assert_eq!(
        schedule.control_flow(now),
        ControlFlowAction::WaitUntil(deadline)
    );
    assert!(!schedule.playback_due());
}

#[test]
fn expired_playback_deadline_becomes_due_now_not_wait_until() {
    let now = NOW;
    let expired = now - MS;
    let mut schedule = EventLoopSchedule::default();
    schedule.sync_playback(Some(expired), false, expired - MS);
    assert!(!schedule.playback_due());
    schedule.refresh(now);
    assert!(schedule.playback_due());
    assert_eq!(schedule.control_flow(now), ControlFlowAction::Wait);
    assert!(schedule.has_immediate_work(true));
}

#[test]
fn sync_playback_marks_due_when_pipeline_reports_frame_due() {
    let now = NOW;
    let mut schedule = EventLoopSchedule::default();
    schedule.sync_playback(None, true, now);
    assert!(schedule.playback_due());
}

#[test]
fn expired_egui_deadline_becomes_one_bounded_ui_redraw() {
    let now = NOW;
    let mut schedule = EventLoopSchedule::default();
    schedule.note_egui_repaint_delay(MS, now - 2 * MS);
    assert_eq!(schedule.egui_deadline(), Some(now - MS));
    schedule.refresh(now);
    assert!(schedule.ui_redraw_due());
    assert_eq!(schedule.egui_deadline(), None);
    assert_eq!(schedule.control_flow(now), ControlFlowAction::Wait);
}

#[test]
fn zero_egui_delay_sets_ui_redraw_due_now() {
    let now = NOW;
    let mut schedule = EventLoopSchedule::default();
    schedule.note_egui_repaint_delay(0, now);
    assert!(schedule.ui_redraw_due());
    assert_eq!(schedule.egui_deadline(), None);
}

#[test]
fn future_egui_deadline_earlier_than_playback() {
    let now = NOW;
    let mut schedule = EventLoopSchedule::default();
    schedule.sync_playback(Some(now + 30 * MS), false, now);
    schedule.note_egui_repaint_delay(10 * MS, now);
    assert_eq!(
        schedule.control_flow(now),
        ControlFlowAction::WaitUntil(now + 10 * MS)
    );
}

#[test]
fn coalesced_egui_redraw_requests() {
    let mut schedule = EventLoopSchedule::default();
    assert!(schedule.request_redraw(true));
    assert!(!schedule.request_redraw(true));
    schedule.on_redraw_requested_event();
    assert!(schedule.request_redraw(true));
}

#[test]
fn resize_redraw_is_not_coalesced() {
    let mut schedule = EventLoopSchedule::default();
    assert!(schedule.request_redraw(false));
    assert!(schedule.request_redraw(false));
}

#[test]
fn immediate_work_includes_surface_redraw() {
    let mut schedule = EventLoopSchedule::default();
    schedule.mark_surface_redraw_due();
    assert!(schedule.has_immediate_work(false));
}

#[test]
fn never_waits_until_an_instant_that_is_not_in_the_future() {
    let now = NOW;
    let mut schedule = EventLoopSchedule::default();
    schedule.sync_playback(Some(now), false, now - MS);
    schedule.note_egui_repaint_delay(MS, now - MS);
    assert_eq!(schedule.control_flow(now), ControlFlowAction::Wait);
    assert_eq!(
        schedule.control_flow(now - MS),
        ControlFlowAction::WaitUntil(now)
    );
}

#[test]
fn consuming_playback_due_and_clearing_flags() {
    let now = NOW;
    let mut schedule = EventLoopSchedule::default();
    schedule.sync_playback(Some(now), false, now);
    assert!(schedule.consume_playback_due());
    assert!(!schedule.consume_playback_due());
    assert_eq!(schedule.playback_deadline(), Some(now));
    schedule.clear_playback();
    assert_eq!(schedule.playback_deadline(), None);
    schedule.mark_surface_redraw_due();
    schedule.clear_surface_redraw_due();
    assert!(!schedule.surface_redraw_due());
    assert!(schedule.request_redraw(false));
    assert!(schedule.redraw_requested());
    schedule.clear_redraw_request();
    assert!(!schedule.redraw_requested());
    schedule.note_egui_repaint_delay(0, now);
    schedule.clear_ui_redraw_due();
    assert!(!schedule.ui_redraw_due());
    schedule.note_egui_repaint_delay(5 * MS, now);
    schedule.clear_egui_deadline();
    assert_eq!(schedule.egui_deadline(), None);
    assert!(!schedule.has_immediate_work(true));
}

#[test]
fn playback_due_counts_as_work_only_while_playing() {
    let mut schedule = EventLoopSchedule::default();
    schedule.sync_playback(None, true, NOW);
    assert!(!schedule.has_immediate_work(false));
    assert!(schedule.has_immediate_work(true));
}

#[test]
fn overflowing_egui_delay_leaves_no_deadline() {
    let mut schedule = EventLoopSchedule::default();
    schedule.note_egui_repaint_delay(u64::MAX, NOW);
    assert_eq!(schedule.egui_deadline(), None);
    assert!(!schedule.ui_redraw_due());
}

#[test]
fn relative_deadlines_in_milliseconds() {
    assert_eq!(deadline_relative_ms(Some(NOW + 30 * MS + 999), NOW), Some(30));
    assert_eq!(deadline_relative_ms(Some(NOW - 7 * MS - 5), NOW), Some(-7));
    assert_eq!(deadline_relative_ms(Some(NOW), NOW), Some(0));
    assert_eq!(deadline_relative_ms(None, NOW), None);
    let mut schedule = EventLoopSchedule::default();
    schedule.sync_playback(Some(NOW + 2 * MS), false, NOW);
    assert_eq!(
        schedule.diagnostic_fields(NOW),
        (Some(2), None, false, false, false, false, false)
    );
    assert!(egui_delay_requests_immediate_redraw(0));
    assert!(!egui_delay_requests_immediate_redraw(1));
}

#[test]
fn repaint_delay_is_the_smallest_viewport_delay() {
    assert_eq!(repaint_delay_from_viewport_delays(&[]), None);
    assert_eq!(
        repaint_delay_from_viewport_delays(&[30 * MS as u128, 5 * MS as u128, NEVER_REPAINT_NS]),
        Some(5 * MS as u128)
    );
    assert_eq!(repaint_delay_from_viewport_delays(&[NEVER_REPAINT_NS]), None);
    assert_eq!(
        std::time::Duration::MAX.as_nanos(),
        NEVER_REPAINT_NS
    );
}
