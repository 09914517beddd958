use dvs_studio::{AppError, AppState};

#[test]
fn startup_to_ready() {
    assert_eq!(
        AppState::Initializing.ready().expect("ready"),
        AppState::Ready
    );
}

#[test]
fn ready_to_playing_once() {
    assert_eq!(
        AppState::Ready.start_playback().expect("start"),
        AppState::Playing
    );
    assert!(AppState::Playing.start_playback().is_err());
    assert!(AppState::Ended.start_playback().is_err());
}

#[test]
fn playing_to_ended() {
    assert_eq!(
        AppState::Playing.eof_reached().expect("eof"),
        AppState::Ended
    );
    assert_eq!(
        AppState::Ended.eof_reached().expect("eof again"),
        AppState::Ended
    );
}

#[test]
fn resize_preserves_live_states() {
    for state in [AppState::Ready, AppState::Playing, AppState::Ended] {
        assert!(state.resize_preserves_state());
    }
    assert!(!AppState::Initializing.resize_preserves_state());
}

#[test]
fn close_from_each_live_state() {
    for state in [
        AppState::Initializing,
        AppState::Ready,
        AppState::Playing,
        AppState::Ended,
    ] {
        assert_eq!(state.begin_close(), AppState::Closing);
    }
}

#[test]
fn fatal_transition() {
    assert_eq!(AppState::Playing.mark_fatal(), AppState::Fatal);
}

#[test]
fn close_from_live_states_enters_closing() {
    for state in [
        AppState::Initializing,
        AppState::Ready,
        AppState::Playing,
        AppState::Ended,
    ] {
        assert_eq!(state.begin_close(), AppState::Closing);
    }
    assert_eq!(AppState::Fatal.begin_close(), AppState::Fatal);
    assert_eq!(AppState::Closing.begin_close(), AppState::Closing);
}

#[test]
fn invalid_transitions_report_invalid_state() {
    assert_eq!(AppState::Ready.ready(), Err(AppError::InvalidState));
    assert_eq!(AppState::Closing.start_playback(), Err(AppError::InvalidState));
    assert_eq!(AppState::Ready.eof_reached(), Err(AppError::InvalidState));
    assert_eq!(AppState::Fatal.eof_reached(), Err(AppError::InvalidState));
}

#[test]
fn liveness_and_playback_permission() {
    assert!(AppState::Initializing.is_live());
    assert!(AppState::Ended.is_live());
    assert!(!AppState::Closing.is_live());
    assert!(!AppState::Fatal.is_live());
    assert!(AppState::Playing.allows_playback());
    assert!(!AppState::Initializing.allows_playback());
    assert!(!AppState::Closing.allows_playback());
}
