use dvs_studio::display::editor_background_rgba8;
use dvs_studio::{can_render_display_frame, redraw_preserves_state, AppState};

#[test]
fn redraw_preserves_ready_playing_ended() {
    assert!(redraw_preserves_state(AppState::Ready));
    assert!(redraw_preserves_state(AppState::Playing));
    assert!(redraw_preserves_state(AppState::Ended));
    assert!(!redraw_preserves_state(AppState::Initializing));
}

#[test]
fn display_render_allowed_in_ready_and_ended() {
    assert!(can_render_display_frame(AppState::Ready));
    assert!(can_render_display_frame(AppState::Ended));
    assert!(!can_render_display_frame(AppState::Playing));
}

#[test]
fn editor_background_color_is_opaque() {
    let (_, _, _, a) = editor_background_rgba8();
    assert_eq!(f64::from(a) / 255.0, 1.0);
}

#[test]
fn editor_background_color_is_deep_charcoal() {
    assert_eq!(editor_background_rgba8(), (24, 26, 30, 255));
    assert!(!redraw_preserves_state(AppState::Closing));
    assert!(!can_render_display_frame(AppState::Fatal));
}
