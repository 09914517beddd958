use dvs_studio::diagnostic::{
    control_flow_action_label, is_critical_kind, log_path, start_cause_label, StartCauseInfo,
};
use dvs_studio::shutdown::should_release_prepared_bridge_frame;
use dvs_studio::{should_discard_prepared_on_shutdown, ControlFlowAction, LoopMetrics, RedrawRequestSource};

#[test]
fn prepared_shutdown_decision_requires_prepared_frame() {
    assert!(should_discard_prepared_on_shutdown(true));
    assert!(!should_discard_prepared_on_shutdown(false));
}

#[test]
fn critical_kinds_are_recognized() {
    assert!(is_critical_kind("stall_snapshot_f8"));
    assert!(!is_critical_kind("about_to_wait"));
}

#[test]
fn every_listed_kind_is_critical() {
    for kind in [
        "state_transition",
        "playback_started",
        "eof_reached",
        "surface_acquire_error",
        "scheduler_fatal",
        "deadline_promoted",
        "stall_snapshot_f8",
        "initialization_complete",
        "diagnostic_startup",
        "diagnostic_cap_reached",
    ] {
        assert!(is_critical_kind(kind));
    }
    assert!(!is_critical_kind("redraw_coalesced"));
    assert!(!is_critical_kind(""));
    assert!(!is_critical_kind("state_transitions"));
}

#[test]
fn control_flow_labels() {
    let ms = 1_000_000u64;
    assert_eq!(control_flow_action_label(ControlFlowAction::Wait, 0), "Wait");
    assert_eq!(
        control_flow_action_label(ControlFlowAction::WaitUntil(1_000 * ms + 16 * ms + 3), 1_000 * ms),
        "WaitUntil(+16ms)"
    );
    assert_eq!(
        control_flow_action_label(ControlFlowAction::WaitUntil(5), 10),
        "WaitUntil(+0ms)"
    );
    assert_eq!(
        control_flow_action_label(ControlFlowAction::WaitUntil(u64::MAX), 0),
        "WaitUntil(+18446744073709ms)"
    );
    assert_eq!(log_path(), "target/dvs-resize-diagnostic.log");
}

#[test]
fn redraw_requests_are_counted_by_source() {
    let mut m = LoopMetrics::default();
    m.record_request_redraw(RedrawRequestSource::Resize);
    m.record_request_redraw(RedrawRequestSource::Resize);
    m.record_request_redraw(RedrawRequestSource::PostEof);
    assert_eq!(m.request_redraw_calls, 3);
    assert_eq!(m.request_redraw_resize, 2);
    assert_eq!(m.request_redraw_post_eof, 1);
    assert_eq!(m.request_redraw_initialization, 0);
}

#[test]
fn counters_saturate() {
    let mut m = LoopMetrics::default();
    m.total_window_events = u64::MAX;
    m.record_window_event();
    assert_eq!(m.total_window_events, u64::MAX);
    m.record_about_to_wait();
    m.record_redraw_requested_event();
    m.record_scheduler_evaluation(true);
    m.record_scheduler_evaluation(false);
    m.record_control_flow_wait_until(10, 5);
    m.record_control_flow_wait_until(5, 5);
    m.record_control_flow_wait();
    m.record_queue_submission();
    m.record_surface_present();
    m.record_egui_repaint_delay(0);
    m.record_egui_repaint_delay(3);
    assert_eq!(m.about_to_wait_calls, 1);
    assert_eq!(m.redraw_requested_events, 1);
    assert_eq!(m.scheduler_evaluations, 2);
    assert_eq!(m.scheduler_early_waits, 1);
    assert_eq!(m.control_flow_wait_until_future, 1);
    assert_eq!(m.control_flow_wait_until_expired, 1);
    assert_eq!(m.control_flow_wait, 1);
    assert_eq!(m.queue_submissions, 1);
    assert_eq!(m.surface_presents, 1);
    assert_eq!(m.zero_egui_repaint_delays, 1);
    assert_eq!(m.non_zero_egui_repaint_delays, 1);
}

#[test]
fn loop_metrics_summary_lines() {
    let mut m = LoopMetrics::default();
    m.record_window_event();
    m.record_request_redraw(RedrawRequestSource::SurfaceRetry);
    m.record_control_flow_wait();
    m.record_egui_repaint_delay(0);
    let lines = m.summary_lines();
    assert_eq!(lines.len(), 12);
    assert_eq!(lines[0], "=== Integration 8A loop metrics ===");
    assert_eq!(lines[1], "total_window_events: 1");
    assert_eq!(lines[4], "request_redraw_calls: 1");
    assert_eq!(
        lines[5],
        "request_redraw_sources: egui_event=0 egui_zero=0 resize=0 surface_retry=1 init=0 post_eof=0 smoke_resize=0"
    );
    assert_eq!(
        lines[8],
        "control_flow: wait_until_future=0 wait_until_expired=0 wait=1"
    );
    assert_eq!(lines[11], "egui_repaint_delay: zero=1 non_zero=0");
}

#[test]
fn release_without_gpu_is_noop() {
    assert!(!should_release_prepared_bridge_frame(false, false, false));
    assert!(!should_release_prepared_bridge_frame(true, true, false));
    assert!(!should_release_prepared_bridge_frame(true, false, true));
    assert!(!should_release_prepared_bridge_frame(false, true, true));
    assert!(should_release_prepared_bridge_frame(true, true, true));
}

#[test]
fn start_cause_labels() {
    assert_eq!(start_cause_label(StartCauseInfo::Poll), "Poll");
    assert_eq!(start_cause_label(StartCauseInfo::Init), "Init");
    assert_eq!(
        start_cause_label(StartCauseInfo::ResumeTimeReached {
            start_elapsed_ms: 17,
            requested_elapsed_ms: 0,
        }),
        "ResumeTimeReached(start+17ms req+0ms)"
    );
    assert_eq!(
        start_cause_label(StartCauseInfo::WaitCancelled {
            start_elapsed_ms: 3,
            resume_in_ms: Some(12),
        }),
        "WaitCancelled(start+3ms resume=12)"
    );
    assert_eq!(
        start_cause_label(StartCauseInfo::WaitCancelled {
            start_elapsed_ms: 3,
            resume_in_ms: None,
        }),
        "WaitCancelled(start+3ms resume=-)"
    );
}
