use dvs_studio::metrics_summary::{format_metrics_summary, MetricsSummary};

fn empty_metrics() -> MetricsSummary {
    MetricsSummary {
        media_duration_us: None,
        wall_duration_us: None,
        decoded: 0,
        presented: 0,
        late_drops: 0,
        early_waits: 0,
        max_lateness_us: 0,
        average_lateness_us: 0,
        frame_id_range: None,
        eof_reached: false,
        surface_reconfigurations: 0,
    }
}

#[test]
fn metrics_summary_has_bounded_line_count() {
    let summary = format_metrics_summary(&empty_metrics(), Some("1/90000"));
    let line_count = summary.lines().count();
    assert!(line_count <= 16);
    assert!(summary.contains("decoded: 0"));
}

#[test]
fn metrics_summary_lists_every_metric() {
    let metrics = MetricsSummary {
        media_duration_us: Some(2_000_000),
        wall_duration_us: Some(2_000_150),
        decoded: 60,
        presented: 58,
        late_drops: 2,
        early_waits: 7,
        max_lateness_us: -12,
        average_lateness_us: i64::MIN,
        frame_id_range: Some((1, 60)),
        eof_reached: true,
        surface_reconfigurations: 3,
    };
    assert_eq!(
        format_metrics_summary(&metrics, None),
        "=== Do Vale Studio 4 playback summary ===\n\
         expected_media_duration_us: 2000000\n\
         measured_monotonic_duration_us: 2000150\n\
         decoded: 60\n\
         presented: 58\n\
         late_drops: 2\n\
         early_waits: 7\n\
         max_lateness_us: -12\n\
         average_lateness_us: -9223372036854775808\n\
         frame_id_range: 1..=60\n\
         eof_reached: true\n\
         surface_reconfigurations: 3"
    );
}
