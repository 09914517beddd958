//! The editor view-model shown by the UI, built from the application state.

use vstd::prelude::*;

use crate::app_state::AppState;
use crate::config::{input_file_name, last_segment, portable_path, AppConfig};

verus! {

/// Playback state as the editor UI shows it.
#[derive(Debug, Clone, Copy, PartialEq, Eq, Structural)]
pub enum EditorPlaybackState {
    Initializing,
    Ready,
    Playing,
    Ended,
}

/// What the editor UI reads from the video pipeline.
#[derive(Debug, Clone, Copy, PartialEq, Eq, Structural)]
pub struct PipelineStatus {
    pub playback_started: bool,
    /// Presentation timestamp of the first decoded frame.
    pub first_pts: Option<i64>,
    /// Presentation timestamp of the last presented frame.
    pub last_pts: Option<i64>,
    /// Media duration of what was played, in microseconds, once known.
    pub media_duration_us: Option<i64>,
    /// Identity of the last presented frame.
    pub last_presented_frame_id: Option<u64>,
}

/// Everything the editor UI displays.
#[derive(Debug, Clone, PartialEq, Eq)]
pub struct EditorViewModel {
    pub app_title: String,
    pub media_name: String,
    pub playback_state: EditorPlaybackState,
    pub current_time_us: Option<i64>,
    pub duration_us: Option<i64>,
    pub frame_id: Option<u64>,
    pub status_text: String,
}

/// The UI's playback state for a lifecycle state; closing and failed
/// sessions show as ended.
pub open spec fn ui_state(state: AppState) -> EditorPlaybackState {
    match state {
        AppState::Initializing => EditorPlaybackState::Initializing,
        AppState::Ready => EditorPlaybackState::Ready,
        AppState::Playing => EditorPlaybackState::Playing,
        _ => EditorPlaybackState::Ended,
    }
}

/// Returns the UI's playback state for a lifecycle state.
pub fn map_playback_state(state: AppState) -> (r: EditorPlaybackState)
    ensures
        r == ui_state(state),
{
    match state {
        AppState::Initializing => EditorPlaybackState::Initializing,
        AppState::Ready => EditorPlaybackState::Ready,
        AppState::Playing => EditorPlaybackState::Playing,
        AppState::Ended | AppState::Closing | AppState::Fatal => EditorPlaybackState::Ended,
    }
}

/// The time shown: the last presented timestamp, else the first decoded
/// one, else the media duration.
pub open spec fn shown_time(p: PipelineStatus) -> Option<i64> {
    if p.last_pts is Some {
        p.last_pts
    } else if p.first_pts is Some {
        p.first_pts
    } else {
        p.media_duration_us
    }
}

/// Returns the playback time to show.
pub fn current_time_from_metrics(p: &PipelineStatus) -> (r: Option<i64>)
    ensures
        r == shown_time(*p),
{
    if let Some(last) = p.last_pts {
        return Some(last);
    }
    if let Some(first) = p.first_pts {
        return Some(first);
    }
    p.media_duration_us
}

/// The status line for a lifecycle state.
pub open spec fn status_text(state: AppState, playback_started: bool) -> Seq<char> {
    match state {
        AppState::Initializing => "Initializing"@,
        AppState::Ready => if playback_started {
            "Ready"@
        } else {
            "Press Play or SPACE to start"@
        },
        AppState::Playing => "Playing"@,
        AppState::Ended => "Ended"@,
        AppState::Closing => "Closing"@,
        AppState::Fatal => "Error"@,
    }
}

/// Returns the status line for a lifecycle state.
pub fn status_text_for_state(state: AppState, p: &PipelineStatus) -> (r: String)
    ensures
        r@ == status_text(state, p.playback_started),
{
    match state {
        AppState::Initializing => "Initializing".to_owned(),
        AppState::Ready => if p.playback_started {
            "Ready".to_owned()
        } else {
            "Press Play or SPACE to start".to_owned()
        },
        AppState::Playing => "Playing".to_owned(),
        AppState::Ended => "Ended".to_owned(),
        AppState::Closing => "Closing".to_owned(),
        AppState::Fatal => "Error".to_owned(),
    }
}

/// Whether `m` is the view-model for `state` and the pipeline status `p`,
/// apart from the media name.
pub open spec fn shows(m: EditorViewModel, state: AppState, p: Option<PipelineStatus>) -> bool {
    &&& m.app_title@ == "Do Vale Studio 4"@
    &&& m.playback_state == ui_state(state)
    &&& match p {
        Some(s) => {
            &&& m.current_time_us == shown_time(s)
            &&& m.duration_us == s.media_duration_us
            &&& m.frame_id == s.last_presented_frame_id
            &&& m.status_text@ == status_text(state, s.playback_started)
        },
        None => {
            &&& m.current_time_us is None
            &&& m.duration_us is None
            &&& m.frame_id is None
            &&& m.status_text@ == "Starting…"@
        },
    }
}

/// Builds the view-model for a media file named `media_name`.
pub fn view_model_for(media_name: String, state: AppState, pipeline: Option<&PipelineStatus>) -> (r:
    EditorViewModel)
    ensures
        shows(
            r,
            state,
            match pipeline {
                Some(p) => Some(*p),
                None => None,
            },
        ),
        r.media_name@ == media_name@,
{
    let (current_time_us, duration_us, frame_id, status_text) = match pipeline {
        Some(p) => (
            current_time_from_metrics(p),
            p.media_duration_us,
            p.last_presented_frame_id,
            status_text_for_state(state, p),
        ),
        None => (None, None, None, "Starting…".to_owned()),
    };
    EditorViewModel {
        app_title: "Do Vale Studio 4".to_owned(),
        media_name,
        playback_state: map_playback_state(state),
        current_time_us,
        duration_us,
        frame_id,
        status_text,
    }
}

/// Builds the editor view-model from the configuration, the lifecycle state
/// and, once it exists, the pipeline's status. The media name is the input
/// file's name, or `video` when the path has none.
pub fn build_editor_view_model(
    config: &AppConfig,
    state: AppState,
    pipeline: Option<&PipelineStatus>,
) -> (r: EditorViewModel)
    ensures
        shows(
            r,
            state,
            match pipeline {
                Some(p) => Some(*p),
                None => None,
            },
        ),
        portable_path(config@.input) ==> r.media_name@ == last_segment(config@.input),
{
    let media_name = match input_file_name(config.input()) {
        Some(name) => name,
        None => "video".to_owned(),
    };
    view_model_for(media_name, state, pipeline)
}

} // verus!
