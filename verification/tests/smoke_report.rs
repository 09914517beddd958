use dvs_studio::smoke_report::{format_smoke_details, FitRect, ResizeFit, SmokeDetails};

fn details() -> SmokeDetails {
    SmokeDetails {
        first_pts: Some(0),
        last_pts: Some(-1_001),
        playback_started: true,
        eof: true,
        held_display_frame: true,
        held_frame_id: Some(239),
        decode_calls_after_eof: 3,
        bridge_texture_opens: 4,
        bridge_fence_opens: 1,
        shader_modules: 1,
        render_pipelines: 1,
        bind_groups: 2,
        samplers: 1,
        post_eof_resizes: vec![
            ResizeFit {
                window_width: 800,
                window_height: 800,
                fit: FitRect {
                    x: 0,
                    y: 175,
                    width: 800,
                    height: 450,
                },
            },
            ResizeFit {
                window_width: 1600,
                window_height: 600,
                fit: FitRect {
                    x: 267,
                    y: 0,
                    width: 1066,
                    height: 600,
                },
            },
        ],
    }
}

#[test]
fn smoke_details_report_every_fact_in_order() {
    let expected = "first_pts: 0\n\
last_pts: -1001\n\
playback_started: true\n\
eof: true\n\
held_display_frame: true (frame_id=239)\n\
decode_calls_after_eof: 3\n\
bridge_handle_opens: texture=4, fence=1\n\
renderer_resources: shader_modules=1, render_pipelines=1, bind_groups=2, samplers=1\n\
post_eof_resize_0: window=800x800 viewport=(0,175 800x450) scissor=(0,175 800x450)\n\
post_eof_resize_1: window=1600x600 viewport=(267,0 1066x600) scissor=(267,0 1066x600)";
    assert_eq!(format_smoke_details(&details()), expected);
}

#[test]
fn smoke_details_without_held_metadata_report_max_id() {
    let mut d = details();
    d.first_pts = None;
    d.last_pts = None;
    d.held_display_frame = false;
    d.held_frame_id = None;
    d.post_eof_resizes = Vec::new();
    let text = format_smoke_details(&d);
    assert!(text.starts_with("playback_started: true\neof: true\n"));
    assert!(text.contains("held_display_frame: false (frame_id=18446744073709551615)"));
    assert!(text.ends_with("samplers=1"));
}
