use dvs_studio::view_model::{
    build_editor_view_model, current_time_from_metrics, map_playback_state,
    status_text_for_state, EditorPlaybackState, PipelineStatus,
};
use dvs_studio::{AppConfig, AppState};

const EXISTING: &str = "src/lib.rs";

#[test]
fn view_model_from_ready_state_without_pipeline() {
    let config = AppConfig::interactive(EXISTING.to_string()).expect("config");
    let model = build_editor_view_model(&config, AppState::Ready, None);
    assert_eq!(model.playback_state, EditorPlaybackState::Ready);
    assert_eq!(model.media_name, "lib.rs");
    assert_eq!(model.app_title, "Do Vale Studio 4");
    assert_eq!(model.status_text, "Starting…");
    assert_eq!(model.current_time_us, None);
}

#[test]
fn ended_maps_to_editor_ended() {
    let config = AppConfig::interactive(EXISTING.to_string()).expect("config");
    let model = build_editor_view_model(&config, AppState::Ended, None);
    assert_eq!(model.playback_state, EditorPlaybackState::Ended);
}

#[test]
fn closing_and_fatal_show_as_ended() {
    assert_eq!(map_playback_state(AppState::Closing), EditorPlaybackState::Ended);
    assert_eq!(map_playback_state(AppState::Fatal), EditorPlaybackState::Ended);
    assert_eq!(map_playback_state(AppState::Playing), EditorPlaybackState::Playing);
}

#[test]
fn pipeline_status_feeds_the_view_model() {
    let config = AppConfig::interactive(EXISTING.to_string()).expect("config");
    let status = PipelineStatus {
        playback_started: false,
        first_pts: Some(3_000),
        last_pts: None,
        media_duration_us: Some(90_000),
        last_presented_frame_id: Some(4),
    };
    let model = build_editor_view_model(&config, AppState::Ready, Some(&status));
    assert_eq!(model.current_time_us, Some(3_000));
    assert_eq!(model.duration_us, Some(90_000));
    assert_eq!(model.frame_id, Some(4));
    assert_eq!(model.status_text, "Press Play or SPACE to start");
    let started = PipelineStatus {
        playback_started: true,
        last_pts: Some(7_000),
        ..status
    };
    assert_eq!(current_time_from_metrics(&started), Some(7_000));
    assert_eq!(status_text_for_state(AppState::Ready, &started), "Ready");
    assert_eq!(status_text_for_state(AppState::Fatal, &started), "Error");
    let bare = PipelineStatus {
        playback_started: true,
        first_pts: None,
        last_pts: None,
        media_duration_us: Some(5),
        last_presented_frame_id: None,
    };
    assert_eq!(current_time_from_metrics(&bare), Some(5));
}
