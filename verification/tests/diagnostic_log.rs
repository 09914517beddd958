use dvs_studio::diagnostic::{DiagnosticLog, LogWrite, MAX_ENTRIES};

fn line(s: &str) -> LogWrite {
    LogWrite::Line(s.to_string())
}

#[test]
fn entries_are_numbered_and_repeats_collapse() {
    let mut log = DiagnosticLog::new();
    assert_eq!(
        DiagnosticLog::startup_line(),
        "=== dvs-app resize diagnostic startup ==="
    );
    assert_eq!(
        log.log_snapshot("diagnostic_startup", "k0".to_string()),
        vec![LogWrite::Entry { seq: 1 }]
    );
    assert_eq!(
        log.log_snapshot("about_to_wait", "k1".to_string()),
        vec![LogWrite::Entry { seq: 2 }]
    );
    assert!(log.log_snapshot("about_to_wait", "k1".to_string()).is_empty());
    assert!(log.log_snapshot("about_to_wait", "k1".to_string()).is_empty());
    assert!(log.log_snapshot("about_to_wait", "k1".to_string()).is_empty());
    assert_eq!(
        log.log_snapshot("redraw", "k2".to_string()),
        vec![line("REPEATED x3"), LogWrite::Entry { seq: 3 }]
    );
    assert!(log.log_snapshot("redraw", "k2".to_string()).is_empty());
    assert_eq!(
        log.finish(),
        vec![line("=== dvs-app resize diagnostic shutdown ===")]
    );
}

#[test]
fn single_repeat_is_not_reported() {
    let mut log = DiagnosticLog::new();
    log.log_snapshot("a", "k".to_string());
    assert!(log.log_snapshot("a", "k".to_string()).is_empty());
    assert_eq!(
        log.write_stall_snapshot(),
        vec![LogWrite::Entry { seq: 2 }]
    );
}

#[test]
fn cap_keeps_only_critical_entries() {
    let mut log = DiagnosticLog::new();
    for i in 0..MAX_ENTRIES {
        let writes = log.log_snapshot("about_to_wait", format!("key{i}"));
        assert_eq!(writes, vec![LogWrite::Entry { seq: i + 1 }]);
    }
    assert_eq!(
        log.log_snapshot("about_to_wait", "over".to_string()),
        vec![
            line("=== diagnostic entry cap reached; preserving critical entries only ==="),
            line("diagnostic_cap_reached"),
        ]
    );
    assert!(log.log_snapshot("about_to_wait", "later".to_string()).is_empty());
    assert_eq!(
        log.log_snapshot("eof_reached", "end".to_string()),
        vec![LogWrite::Entry {
            seq: MAX_ENTRIES + 1
        }]
    );
}

#[test]
fn counters_and_notes() {
    let mut log = DiagnosticLog::new();
    assert_eq!(log.last_scheduler_decision(), "-");
    assert_eq!(log.last_surface_acquire(), "-");
    log.set_scheduler_decision("wait".to_string());
    log.set_surface_acquire("ok".to_string());
    log.record_queue_submit(12);
    log.record_surface_present(13);
    log.record_display_only_redraw();
    log.process_work_exit();
    log.process_work_enter();
    log.process_work_enter();
    log.process_work_exit();
    assert_eq!(log.last_scheduler_decision(), "wait");
    assert_eq!(log.last_surface_acquire(), "ok");
    assert_eq!(log.last_submit_ms(), Some(12));
    assert_eq!(log.last_present_ms(), Some(13));
    assert_eq!(log.display_only_redraw_count(), 1);
    assert_eq!(log.process_work_depth(), 1);
}
