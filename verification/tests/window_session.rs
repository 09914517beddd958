use dvs_studio::window_session::{
    state_transitions_line, RenderOutcome, SmokePostEofPhase, TickOutcome, WindowAction,
    WindowSession,
};
use dvs_studio::{AppError, AppState, ControlFlowAction, RunMode};

fn ready_session(mode: RunMode) -> WindowSession {
    let mut s = WindowSession::new(mode);
    assert!(s.should_initialize());
    s.on_initialized(Ok(()));
    assert!(!s.should_initialize());
    s
}

fn start(s: &mut WindowSession) {
    let next = s.playback_start_check().expect("ready to play");
    assert_eq!(s.on_playback_started(next), vec![WindowAction::DrivePlayback]);
}

#[test]
fn interactive_start_waits_for_space() {
    let mut s = WindowSession::new(RunMode::Interactive);
    assert_eq!(
        s.on_initialized(Ok(())),
        vec![WindowAction::PrintStartPrompt, WindowAction::RequestRedraw]
    );
    assert_eq!(s.state(), AppState::Ready);
    assert_eq!(s.on_space(), vec![WindowAction::StartPlayback]);
    assert_eq!(s.on_redraw_requested(), vec![WindowAction::RenderDisplayFrame]);
    start(&mut s);
    assert_eq!(s.state(), AppState::Playing);
    assert!(s.on_space().is_empty());
    assert_eq!(s.playback_start_check(), Err(AppError::InvalidState));
    assert_eq!(s.on_redraw_requested(), vec![WindowAction::DrivePlayback]);
    assert_eq!(s.on_about_to_wait(), vec![WindowAction::DrivePlayback]);
}

#[test]
fn smoke_session_starts_at_once_and_exits_after_eof() {
    let mut s = WindowSession::new(RunMode::SmokeTest {
        post_eof_resize: false,
    });
    assert_eq!(
        s.on_initialized(Ok(())),
        vec![WindowAction::StartPlayback, WindowAction::RequestRedraw]
    );
    start(&mut s);
    assert_eq!(s.on_tick(TickOutcome::Presented), (true, vec![]));
    assert_eq!(
        s.on_tick(TickOutcome::Finished),
        (
            false,
            vec![
                WindowAction::PrintSmokeSummary,
                WindowAction::ReleasePreparedResources,
                WindowAction::ExitEventLoop,
            ]
        )
    );
    assert_eq!(
        s.state_log(),
        &[
            AppState::Initializing,
            AppState::Ready,
            AppState::Playing,
            AppState::Ended,
            AppState::Closing,
        ]
    );
    assert_eq!(
        state_transitions_line(s.state_log()),
        "state_transitions: Initializing -> Ready -> Playing -> Ended -> Closing"
    );
    assert_eq!(s.fatal_error(), None);
}

#[test]
fn interactive_eof_holds_the_last_frame() {
    let mut s = ready_session(RunMode::Interactive);
    start(&mut s);
    assert_eq!(
        s.on_tick(TickOutcome::Finished),
        (
            false,
            vec![WindowAction::UpdateControlFlow, WindowAction::RequestRedraw]
        )
    );
    assert_eq!(s.state(), AppState::Ended);
    assert_eq!(s.on_redraw_requested(), vec![WindowAction::RenderDisplayFrame]);
    assert!(s.on_about_to_wait().is_empty());
}

#[test]
fn post_eof_resize_smoke_steps() {
    let mut s = ready_session(RunMode::SmokeTest {
        post_eof_resize: true,
    });
    start(&mut s);
    assert_eq!(
        s.on_tick(TickOutcome::Finished).1,
        vec![
            WindowAction::RequestInnerSize {
                width: 1000,
                height: 700
            },
            WindowAction::RequestRedraw,
        ]
    );
    assert_eq!(s.smoke_post_eof(), Some(SmokePostEofPhase::Resize1000x700));
    assert_eq!(
        s.on_surface_resized(0, 700),
        vec![
            WindowAction::RecordSurfaceReconfiguration,
            WindowAction::RequestRedraw,
        ]
    );
    assert_eq!(s.smoke_post_eof(), Some(SmokePostEofPhase::Resize1000x700));
    assert_eq!(
        s.on_surface_resized(1000, 700),
        vec![
            WindowAction::RecordSurfaceReconfiguration,
            WindowAction::RequestRedraw,
            WindowAction::RequestRedraw,
        ]
    );
    assert_eq!(s.smoke_post_eof(), Some(SmokePostEofPhase::AwaitRedraw1));
    assert_eq!(
        s.on_render_outcome(RenderOutcome::Rendered),
        vec![
            WindowAction::RecordAspectFit,
            WindowAction::RequestInnerSize {
                width: 1600,
                height: 600
            },
        ]
    );
    s.on_surface_resized(1600, 600);
    assert_eq!(s.smoke_post_eof(), Some(SmokePostEofPhase::AwaitRedraw2));
    assert_eq!(
        s.on_render_outcome(RenderOutcome::Rendered),
        vec![
            WindowAction::RecordAspectFit,
            WindowAction::PrintSmokeSummary,
            WindowAction::ReleasePreparedResources,
            WindowAction::ExitEventLoop,
        ]
    );
    assert_eq!(s.smoke_post_eof(), Some(SmokePostEofPhase::Complete));
    assert_eq!(s.state(), AppState::Closing);
    assert!(s.on_render_outcome(RenderOutcome::Rendered).is_empty());
}

#[test]
fn failures_end_the_session_once() {
    let mut s = ready_session(RunMode::Interactive);
    start(&mut s);
    assert_eq!(
        s.on_tick(TickOutcome::Fatal(AppError::Fatal("device lost".to_string()))),
        (
            false,
            vec![
                WindowAction::ReleasePreparedResources,
                WindowAction::ExitEventLoop,
            ]
        )
    );
    assert_eq!(s.state(), AppState::Fatal);
    assert_eq!(
        s.fatal_error(),
        Some(AppError::Fatal("device lost".to_string()))
    );
    assert_eq!(s.begin_shutdown(), vec![WindowAction::ExitEventLoop]);
    assert_eq!(s.state(), AppState::Fatal);
    assert!(!s.should_initialize());
}

#[test]
fn render_outcomes() {
    let mut s = ready_session(RunMode::Interactive);
    assert_eq!(
        s.on_render_outcome(RenderOutcome::SurfaceLost),
        vec![WindowAction::LogSurfaceRetry]
    );
    assert_eq!(
        s.on_render_outcome(RenderOutcome::SurfaceOutdated),
        vec![WindowAction::LogSurfaceRetry]
    );
    assert!(s.on_render_outcome(RenderOutcome::SurfaceTimeout).is_empty());
    assert!(s.on_render_outcome(RenderOutcome::Rendered).is_empty());
    assert_eq!(s.state(), AppState::Ready);
    assert_eq!(
        s.on_render_outcome(RenderOutcome::SurfaceOutOfMemory),
        vec![
            WindowAction::ReleasePreparedResources,
            WindowAction::ExitEventLoop,
        ]
    );
    assert_eq!(
        s.fatal_error(),
        Some(AppError::Fatal("surface out of memory".to_string()))
    );
}

#[test]
fn ticks_and_control_flow() {
    let mut s = ready_session(RunMode::Interactive);
    assert_eq!(s.control_flow(Some(42)), ControlFlowAction::Wait);
    start(&mut s);
    assert!(s.playback_active());
    assert_eq!(s.control_flow(Some(42)), ControlFlowAction::WaitUntil(42));
    assert_eq!(s.control_flow(None), ControlFlowAction::Wait);
    assert_eq!(
        s.on_tick(TickOutcome::Idle),
        (
            false,
            vec![WindowAction::UpdateControlFlow, WindowAction::RequestRedraw]
        )
    );
    assert_eq!(
        s.on_tick(TickOutcome::SurfaceRetry),
        (
            false,
            vec![WindowAction::LogSurfaceRetry, WindowAction::UpdateControlFlow]
        )
    );
    assert_eq!(s.state(), AppState::Playing);
}

#[test]
fn initialization_failures_are_fatal() {
    let mut s = WindowSession::new(RunMode::Interactive);
    assert_eq!(
        s.on_window_creation_failed("no display".to_string()),
        vec![
            WindowAction::ReleasePreparedResources,
            WindowAction::ExitEventLoop,
        ]
    );
    assert_eq!(s.fatal_error(), Some(AppError::Window("no display".to_string())));
    let mut t = WindowSession::new(RunMode::Interactive);
    t.on_initialized(Err(AppError::InvalidState));
    assert_eq!(t.state(), AppState::Fatal);
    assert_eq!(t.state_log(), &[AppState::Initializing, AppState::Fatal]);
}

#[test]
fn escape_or_close_shuts_down_and_releases_once() {
    let mut s = ready_session(RunMode::Interactive);
    assert_eq!(
        s.begin_shutdown(),
        vec![
            WindowAction::ReleasePreparedResources,
            WindowAction::ExitEventLoop,
        ]
    );
    assert_eq!(s.state(), AppState::Closing);
    assert_eq!(s.begin_shutdown(), vec![WindowAction::ExitEventLoop]);
    assert_eq!(
        s.exit_with_fatal(AppError::InvalidState),
        vec![WindowAction::ExitEventLoop]
    );
    assert_eq!(s.state(), AppState::Fatal);
}
