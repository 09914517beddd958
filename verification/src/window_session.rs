//! Decisions of the production video window, apart from the window, GPU and
//! decoder work they drive.
//!
//! The host owns the window, the GPU surface and the video pipeline. It feeds
//! each platform event and each outcome of outside work to a
//! [`WindowSession`], which updates the lifecycle state and answers with the
//! actions to carry out, in order.

use vstd::prelude::*;
use vstd::string::StringExecFns;

use crate::app_error::{AppError, AppErrorV};
use crate::app_state::AppState;
use crate::config::RunMode;
use crate::event_loop_schedule::ControlFlowAction;

verus! {

/// Post-EOF resize validation steps of the smoke test.
#[derive(Debug, Clone, Copy, PartialEq, Eq, Structural)]
pub enum SmokePostEofPhase {
    Resize1000x700,
    AwaitRedraw1,
    Resize1600x600,
    AwaitRedraw2,
    Complete,
}

/// Work the host carries out on behalf of the session.
#[derive(Debug, Clone, Copy, PartialEq, Eq, Structural)]
pub enum WindowAction {
    /// Ask the window, if there is one, for a redraw.
    RequestRedraw,
    /// Ask the window, if there is one, for a new inner size in physical pixels.
    RequestInnerSize { width: u32, height: u32 },
    /// Set the event loop's control flow from the pipeline's next deadline
    /// (see [`WindowSession::control_flow`]).
    UpdateControlFlow,
    /// Tell the user to press SPACE to start playback.
    PrintStartPrompt,
    /// Print the smoke-test summary.
    PrintSmokeSummary,
    /// Report that the surface must be acquired again.
    LogSurfaceRetry,
    /// Keep the window size and aspect fit of the frame just rendered.
    RecordAspectFit,
    /// Count one surface reconfiguration in the pipeline's metrics.
    RecordSurfaceReconfiguration,
    /// Release the prepared bridge frame while the GPU is still available.
    ReleasePreparedResources,
    /// Leave the event loop.
    ExitEventLoop,
    /// Start playback: [`WindowSession::playback_start_check`], then the
    /// pipeline's own start, then [`WindowSession::on_playback_started`]; a
    /// failure goes to [`WindowSession::exit_with_fatal`] and the remaining
    /// actions are dropped.
    StartPlayback,
    /// Tick the pipeline, feeding each outcome to [`WindowSession::on_tick`].
    DrivePlayback,
    /// Render the held display frame and feed the outcome to
    /// [`WindowSession::on_render_outcome`].
    RenderDisplayFrame,
}

/// Outcome of one playback tick of the video pipeline.
#[derive(Debug, Clone, PartialEq, Eq)]
pub enum TickOutcome {
    Idle,
    Waiting,
    Presented,
    SurfaceRetry,
    Finished,
    Fatal(AppError),
}

/// Outcome of rendering the held display frame.
#[derive(Debug, Clone, PartialEq, Eq)]
pub enum RenderOutcome {
    Rendered,
    SurfaceLost,
    SurfaceOutdated,
    SurfaceTimeout,
    SurfaceOutOfMemory,
    Failed(AppError),
}

/// Abstract value of a [`WindowSession`].
pub struct SessionV {
    pub mode: RunMode,
    pub state: AppState,
    pub log: Seq<AppState>,
    pub fatal: Option<AppErrorV>,
    pub smoke: Option<SmokePostEofPhase>,
    pub released: bool,
    pub window_live: bool,
}

/// Lifecycle and smoke-test bookkeeping of the production video window.
#[derive(Debug, Clone, PartialEq, Eq)]
pub struct WindowSession {
    mode: RunMode,
    state: AppState,
    log: Vec<AppState>,
    fatal: Option<AppError>,
    smoke: Option<SmokePostEofPhase>,
    released: bool,
    window_live: bool,
}

pub open spec fn opt_error_view(e: Option<AppError>) -> Option<AppErrorV> {
    match e {
        Some(x) => Some(x@),
        None => None,
    }
}

impl View for WindowSession {
    type V = SessionV;

    closed spec fn view(&self) -> SessionV {
        SessionV {
            mode: self.mode,
            state: self.state,
            log: self.log@,
            fatal: opt_error_view(self.fatal),
            smoke: self.smoke,
            released: self.released,
            window_live: self.window_live,
        }
    }
}

/// The state a shutdown request leads to.
pub open spec fn closing(s: AppState) -> AppState {
    if s == AppState::Fatal || s == AppState::Closing {
        s
    } else {
        AppState::Closing
    }
}

/// The lifecycle moved to `next`, logging it when it is a change.
pub open spec fn moved(s: SessionV, next: AppState) -> SessionV {
    if s.state != next {
        SessionV { state: next, log: s.log.push(next), ..s }
    } else {
        s
    }
}

/// Releases the prepared resources once.
pub open spec fn released(s: SessionV) -> (SessionV, Seq<WindowAction>) {
    if s.released {
        (s, Seq::empty())
    } else {
        (SessionV { released: true, ..s }, seq![WindowAction::ReleasePreparedResources])
    }
}

/// Orderly shutdown: release resources, start closing, leave the event loop.
pub open spec fn shut_down(s: SessionV) -> (SessionV, Seq<WindowAction>) {
    let (s1, a1) = released(s);
    (moved(s1, closing(s1.state)), a1.push(WindowAction::ExitEventLoop))
}

/// Fatal shutdown: record the error, release resources, leave the event loop.
pub open spec fn fatal_exit(s: SessionV, e: AppErrorV) -> (SessionV, Seq<WindowAction>) {
    let s1 = SessionV { fatal: Some(e), ..moved(s, AppState::Fatal) };
    let (s2, a2) = released(s1);
    (s2, a2.push(WindowAction::ExitEventLoop))
}

/// What reaching the end of the stream does.
pub open spec fn eof_step(s: SessionV) -> (SessionV, Seq<WindowAction>) {
    if !(s.state == AppState::Playing || s.state == AppState::Ended) {
        fatal_exit(s, AppErrorV::InvalidState)
    } else {
        let s1 = moved(s, AppState::Ended);
        if s.mode == (RunMode::SmokeTest { post_eof_resize: true }) {
            (
                SessionV { smoke: Some(SmokePostEofPhase::Resize1000x700), ..s1 },
                seq![
                    WindowAction::RequestInnerSize { width: 1000, height: 700 },
                    WindowAction::RequestRedraw,
                ],
            )
        } else if s.mode == (RunMode::SmokeTest { post_eof_resize: false }) {
            let (s2, a2) = shut_down(s1);
            (s2, seq![WindowAction::PrintSmokeSummary] + a2)
        } else {
            (s1, seq![WindowAction::UpdateControlFlow, WindowAction::RequestRedraw])
        }
    }
}

/// What a redraw completing during the post-EOF smoke steps does.
pub open spec fn smoke_advance(s: SessionV) -> (SessionV, Seq<WindowAction>) {
    match s.smoke {
        Some(SmokePostEofPhase::AwaitRedraw1) => (
            SessionV { smoke: Some(SmokePostEofPhase::Resize1600x600), ..s },
            seq![WindowAction::RequestInnerSize { width: 1600, height: 600 }],
        ),
        Some(SmokePostEofPhase::AwaitRedraw2) => {
            let (s2, a2) = shut_down(SessionV { smoke: Some(SmokePostEofPhase::Complete), ..s });
            (s2, seq![WindowAction::PrintSmokeSummary] + a2)
        },
        _ => (s, Seq::empty()),
    }
}

/// What a successful resize to `width` × `height` does to the smoke steps.
pub open spec fn smoke_resized(s: SessionV, width: u32, height: u32) -> (SessionV, Seq<WindowAction>) {
    if width == 0 || height == 0 {
        (s, Seq::empty())
    } else {
        match s.smoke {
            Some(SmokePostEofPhase::Resize1000x700) => (
                SessionV { smoke: Some(SmokePostEofPhase::AwaitRedraw1), ..s },
                seq![WindowAction::RequestRedraw],
            ),
            Some(SmokePostEofPhase::Resize1600x600) => (
                SessionV { smoke: Some(SmokePostEofPhase::AwaitRedraw2), ..s },
                seq![WindowAction::RequestRedraw],
            ),
            _ => (s, Seq::empty()),
        }
    }
}

/// A fresh session in `mode`.
pub open spec fn initial_session(mode: RunMode) -> SessionV {
    SessionV {
        mode,
        state: AppState::Initializing,
        log: seq![AppState::Initializing],
        fatal: None,
        smoke: None,
        released: false,
        window_live: false,
    }
}

/// Appends the actions of a step to the pending list.
fn push_all(actions: &mut Vec<WindowAction>, more: Vec<WindowAction>)
    ensures
        final(actions)@ == old(actions)@ + more@,
{
    let mut i: usize = 0;
    let ghost start = actions@;
    while i < more.len()
        invariant
            i <= more.len(),
            actions@ == start + more@.subrange(0, i as int),
        decreases more.len() - i,
    {
        actions.push(more[i]);
        i += 1;
        assert(more@.subrange(0, i as int) =~= more@.subrange(0, i - 1 as int).push(more@[i - 1]));
    }
    assert(more@.subrange(0, more.len() as int) =~= more@);
}

impl WindowSession {
    /// A session for a window not yet created, in the given run mode.
    pub fn new(mode: RunMode) -> (r: WindowSession)
        ensures
            r@ == initial_session(mode),
    {
        let mut log = Vec::new();
        log.push(AppState::Initializing);
        WindowSession {
            mode,
            state: AppState::Initializing,
            log,
            fatal: None,
            smoke: None,
            released: false,
            window_live: false,
        }
    }

    /// Current lifecycle state.
    pub fn state(&self) -> (r: AppState)
        ensures
            r == self@.state,
    {
        self.state
    }

    /// Every state the lifecycle went through, in order.
    pub fn state_log(&self) -> (r: &[AppState])
        ensures
            r@ == self@.log,
    {
        self.log.as_slice()
    }

    /// The error that ended the session, if any.
    pub fn fatal_error(&self) -> (r: Option<AppError>)
        ensures
            opt_error_view(r) == self@.fatal,
    {
        match &self.fatal {
            Some(e) => Some(e.clone_error()),
            None => None,
        }
    }

    /// Current post-EOF smoke step, if one is under way.
    pub fn smoke_post_eof(&self) -> (r: Option<SmokePostEofPhase>)
        ensures
            r == self@.smoke,
    {
        self.smoke
    }

    /// Whether the window and its resources still have to be created.
    pub fn should_initialize(&self) -> (r: bool)
        ensures
            r == (!self@.window_live && self@.fatal is None),
    {
        !self.window_live && self.fatal.is_none()
    }

    fn transition_to(&mut self, next: AppState)
        ensures
            final(self)@ == moved(old(self)@, next),
    {
        if self.state != next {
            self.state = next;
            self.log.push(next);
        }
    }

    fn release_prepared_if_needed(&mut self, actions: &mut Vec<WindowAction>)
        ensures
            final(self)@ == released(old(self)@).0,
            final(actions)@ == old(actions)@ + released(old(self)@).1,
    {
        if self.released {
            assert(old(actions)@ + Seq::<WindowAction>::empty() =~= old(actions)@);
            return;
        }
        actions.push(WindowAction::ReleasePreparedResources);
        self.released = true;
        assert(final(actions)@ =~= old(actions)@ + seq![WindowAction::ReleasePreparedResources]);
    }

    fn shutdown_into(&mut self, actions: &mut Vec<WindowAction>)
        ensures
            final(self)@ == shut_down(old(self)@).0,
            final(actions)@ == old(actions)@ + shut_down(old(self)@).1,
    {
        self.release_prepared_if_needed(actions);
        let next = self.state.begin_close();
        self.transition_to(next);
        actions.push(WindowAction::ExitEventLoop);
        assert(final(actions)@ =~= old(actions)@ + shut_down(old(self)@).1);
    }

    fn fatal_into(&mut self, error: AppError, actions: &mut Vec<WindowAction>)
        ensures
            final(self)@ == fatal_exit(old(self)@, error@).0,
            final(actions)@ == old(actions)@ + fatal_exit(old(self)@, error@).1,
    {
        self.transition_to(AppState::Fatal);
        self.fatal = Some(error);
        self.release_prepared_if_needed(actions);
        actions.push(WindowAction::ExitEventLoop);
        assert(final(actions)@ =~= old(actions)@ + fatal_exit(old(self)@, error@).1);
    }

    /// Orderly shutdown (close request or ESC).
    pub fn begin_shutdown(&mut self) -> (r: Vec<WindowAction>)
        ensures
            (final(self)@, r@) == shut_down(old(self)@),
    {
        let mut actions = Vec::new();
        self.shutdown_into(&mut actions);
        assert(actions@ =~= shut_down(old(self)@).1);
        actions
    }

    /// Ends the session with `error`.
    pub fn exit_with_fatal(&mut self, error: AppError) -> (r: Vec<WindowAction>)
        ensures
            (final(self)@, r@) == fatal_exit(old(self)@, error@),
    {
        let mut actions = Vec::new();
        self.fatal_into(error, &mut actions);
        assert(actions@ =~= fatal_exit(old(self)@, error@).1);
        actions
    }

    /// The window could not be created.
    pub fn on_window_creation_failed(&mut self, message: String) -> (r: Vec<WindowAction>)
        ensures
            (final(self)@, r@) == fatal_exit(old(self)@, AppErrorV::Window(message@)),
    {
        self.exit_with_fatal(AppError::Window(message))
    }

    /// The window, GPU and pipeline were set up (`Ok`) or could not be (`Err`).
    pub fn on_initialized(&mut self, result: Result<(), AppError>) -> (r: Vec<WindowAction>)
        ensures
            match result {
                Err(e) => (final(self)@, r@) == fatal_exit(old(self)@, e@),
                Ok(()) => {
                    let s1 = SessionV { window_live: true, ..old(self)@ };
                    if old(self)@.state != AppState::Initializing {
                        (final(self)@, r@) == fatal_exit(s1, AppErrorV::InvalidState)
                    } else if old(self)@.mode is SmokeTest {
                        final(self)@ == moved(s1, AppState::Ready) && r@ == seq![
                            WindowAction::StartPlayback,
                            WindowAction::RequestRedraw,
                        ]
                    } else {
                        final(self)@ == moved(s1, AppState::Ready) && r@ == seq![
                            WindowAction::PrintStartPrompt,
                            WindowAction::RequestRedraw,
                        ]
                    }
                },
            },
    {
        match result {
            Err(e) => self.exit_with_fatal(e),
            Ok(()) => {
                self.window_live = true;
                match self.state.ready() {
                    Err(e) => self.exit_with_fatal(e),
                    Ok(next) => {
                        self.transition_to(next);
                        let mut actions = Vec::new();
                        match self.mode {
                            RunMode::SmokeTest { .. } => actions.push(WindowAction::StartPlayback),
                            RunMode::Interactive => actions.push(WindowAction::PrintStartPrompt),
                        }
                        actions.push(WindowAction::RequestRedraw);
                        actions
                    },
                }
            },
        }
    }

    /// First half of starting playback: the state the lifecycle moves to, or
    /// why it cannot start.
    pub fn playback_start_check(&self) -> (r: Result<AppState, AppError>)
        ensures
            self@.state == AppState::Ready ==> r == Ok::<AppState, AppError>(AppState::Playing),
            self@.state != AppState::Ready ==> r == Err::<AppState, AppError>(AppError::InvalidState),
    {
        self.state.start_playback()
    }

    /// Second half of starting playback, once the pipeline has started.
    pub fn on_playback_started(&mut self, next: AppState) -> (r: Vec<WindowAction>)
        ensures
            final(self)@ == moved(old(self)@, next),
            r@ == seq![WindowAction::DrivePlayback],
    {
        self.transition_to(next);
        let mut actions = Vec::new();
        actions.push(WindowAction::DrivePlayback);
        actions
    }

    /// SPACE pressed: start playback from the ready state only.
    pub fn on_space(&self) -> (r: Vec<WindowAction>)
        ensures
            self@.state == AppState::Ready ==> r@ == seq![WindowAction::StartPlayback],
            self@.state != AppState::Ready ==> r@ == Seq::<WindowAction>::empty(),
    {
        let mut actions = Vec::new();
        if self.state == AppState::Ready {
            actions.push(WindowAction::StartPlayback);
        }
        actions
    }

    /// Whether the pipeline should be ticked now.
    pub fn playback_active(&self) -> (r: bool)
        ensures
            r == (self@.state == AppState::Playing),
    {
        self.state == AppState::Playing
    }

    /// The end of the stream was reached.
    pub fn handle_eof(&mut self) -> (r: Vec<WindowAction>)
        ensures
            (final(self)@, r@) == eof_step(old(self)@),
    {
        match self.state.eof_reached() {
            Err(e) => self.exit_with_fatal(e),
            Ok(next) => {
                self.transition_to(next);
                let mut actions = Vec::new();
                match self.mode {
                    RunMode::SmokeTest { post_eof_resize: true } => {
                        self.smoke = Some(SmokePostEofPhase::Resize1000x700);
                        actions.push(WindowAction::RequestInnerSize { width: 1000, height: 700 });
                        actions.push(WindowAction::RequestRedraw);
                    },
                    RunMode::SmokeTest { post_eof_resize: false } => {
                        actions.push(WindowAction::PrintSmokeSummary);
                        self.shutdown_into(&mut actions);
                    },
                    RunMode::Interactive => {
                        actions.push(WindowAction::UpdateControlFlow);
                        actions.push(WindowAction::RequestRedraw);
                    },
                }
                proof {
                    let s1 = moved(old(self)@, AppState::Ended);
                    if old(self)@.mode == (RunMode::SmokeTest { post_eof_resize: false }) {
                        assert(actions@ =~= seq![WindowAction::PrintSmokeSummary] + shut_down(
                            s1,
                        ).1);
                    }
                }
                actions
            },
        }
    }

    /// One playback tick finished with `outcome`. Returns whether to tick
    /// again at once, and the actions to carry out.
    pub fn on_tick(&mut self, outcome: TickOutcome) -> (r: (bool, Vec<WindowAction>))
        ensures
            match outcome {
                TickOutcome::Presented => r.0 && r.1@ == Seq::<WindowAction>::empty() && final(self)@ == old(self)@,
                TickOutcome::Idle | TickOutcome::Waiting => !r.0 && r.1@ == seq![
                    WindowAction::UpdateControlFlow,
                    WindowAction::RequestRedraw,
                ] && final(self)@ == old(self)@,
                TickOutcome::SurfaceRetry => !r.0 && r.1@ == seq![
                    WindowAction::LogSurfaceRetry,
                    WindowAction::UpdateControlFlow,
                ] && final(self)@ == old(self)@,
                TickOutcome::Finished => !r.0 && (final(self)@, r.1@) == eof_step(old(self)@),
                TickOutcome::Fatal(e) => !r.0 && (final(self)@, r.1@) == fatal_exit(
                    old(self)@,
                    e@,
                ),
            },
    {
        match outcome {
            TickOutcome::Presented => (true, Vec::new()),
            TickOutcome::Idle | TickOutcome::Waiting => {
                let mut actions = Vec::new();
                actions.push(WindowAction::UpdateControlFlow);
                actions.push(WindowAction::RequestRedraw);
                (false, actions)
            },
            TickOutcome::SurfaceRetry => {
                let mut actions = Vec::new();
                actions.push(WindowAction::LogSurfaceRetry);
                actions.push(WindowAction::UpdateControlFlow);
                (false, actions)
            },
            TickOutcome::Finished => (false, self.handle_eof()),
            TickOutcome::Fatal(e) => (false, self.exit_with_fatal(e)),
        }
    }

    /// Rendering the held display frame finished with `outcome`.
    pub fn on_render_outcome(&mut self, outcome: RenderOutcome) -> (r: Vec<WindowAction>)
        ensures
            match outcome {
                RenderOutcome::Rendered => {
                    let awaiting = old(self)@.smoke == Some(SmokePostEofPhase::AwaitRedraw1)
                        || old(self)@.smoke == Some(SmokePostEofPhase::AwaitRedraw2);
                    &&& awaiting ==> final(self)@ == smoke_advance(old(self)@).0 && r@ == seq![
                        WindowAction::RecordAspectFit,
                    ] + smoke_advance(old(self)@).1
                    &&& !awaiting ==> final(self)@ == old(self)@ && r@ == Seq::<WindowAction>::empty()
                },
                RenderOutcome::SurfaceLost | RenderOutcome::SurfaceOutdated => final(self)@ == old(self)@ && r@ == seq![WindowAction::LogSurfaceRetry],
                RenderOutcome::SurfaceTimeout => final(self)@ == old(self)@ && r@ == Seq::<WindowAction>::empty(),
                RenderOutcome::SurfaceOutOfMemory => (final(self)@, r@) == fatal_exit(
                    old(self)@,
                    AppErrorV::Fatal("surface out of memory"@),
                ),
                RenderOutcome::Failed(e) => (final(self)@, r@) == fatal_exit(old(self)@, e@),
            },
    {
        match outcome {
            RenderOutcome::Rendered => {
                let mut actions = Vec::new();
                match self.smoke {
                    Some(SmokePostEofPhase::AwaitRedraw1) | Some(SmokePostEofPhase::AwaitRedraw2) => {
                        actions.push(WindowAction::RecordAspectFit);
                        let more = self.advance_smoke_post_eof();
                        push_all(&mut actions, more);
                    },
                    _ => {},
                }
                actions
            },
            RenderOutcome::SurfaceLost | RenderOutcome::SurfaceOutdated => {
                let mut actions = Vec::new();
                actions.push(WindowAction::LogSurfaceRetry);
                actions
            },
            RenderOutcome::SurfaceTimeout => Vec::new(),
            RenderOutcome::SurfaceOutOfMemory => self.exit_with_fatal(
                AppError::Fatal("surface out of memory".to_owned()),
            ),
            RenderOutcome::Failed(e) => self.exit_with_fatal(e),
        }
    }

    /// A redraw completed while a post-EOF smoke step awaited it.
    pub fn advance_smoke_post_eof(&mut self) -> (r: Vec<WindowAction>)
        ensures
            (final(self)@, r@) == smoke_advance(old(self)@),
    {
        let mut actions = Vec::new();
        match self.smoke {
            Some(SmokePostEofPhase::AwaitRedraw1) => {
                self.smoke = Some(SmokePostEofPhase::Resize1600x600);
                actions.push(WindowAction::RequestInnerSize { width: 1600, height: 600 });
            },
            Some(SmokePostEofPhase::AwaitRedraw2) => {
                self.smoke = Some(SmokePostEofPhase::Complete);
                actions.push(WindowAction::PrintSmokeSummary);
                let ghost s1 = self@;
                self.shutdown_into(&mut actions);
                assert(actions@ =~= seq![WindowAction::PrintSmokeSummary] + shut_down(s1).1);
            },
            _ => {},
        }
        actions
    }

    /// The surface was resized to `width` × `height`.
    pub fn on_surface_resized(&mut self, width: u32, height: u32) -> (r: Vec<WindowAction>)
        ensures
            ({
                let (s1, a1) = smoke_resized(old(self)@, width, height);
                let redraw = s1.state == AppState::Ready || s1.state == AppState::Ended;
                &&& final(self)@ == s1
                &&& r@ == seq![WindowAction::RecordSurfaceReconfiguration] + a1 + if redraw {
                    seq![WindowAction::RequestRedraw]
                } else {
                    Seq::empty()
                }
            }),
    {
        let mut actions = Vec::new();
        actions.push(WindowAction::RecordSurfaceReconfiguration);
        let more = self.handle_smoke_resize(width, height);
        push_all(&mut actions, more);
        if self.state == AppState::Ready || self.state == AppState::Ended {
            actions.push(WindowAction::RequestRedraw);
        }
        proof {
            let (s1, a1) = smoke_resized(old(self)@, width, height);
            let redraw = s1.state == AppState::Ready || s1.state == AppState::Ended;
            assert(actions@ =~= seq![WindowAction::RecordSurfaceReconfiguration] + a1 + if redraw {
                seq![WindowAction::RequestRedraw]
            } else {
                Seq::empty()
            });
        }
        actions
    }

    /// Advances the post-EOF smoke steps after a successful resize.
    pub fn handle_smoke_resize(&mut self, width: u32, height: u32) -> (r: Vec<WindowAction>)
        ensures
            (final(self)@, r@) == smoke_resized(old(self)@, width, height),
    {
        let mut actions = Vec::new();
        if width == 0 || height == 0 {
            return actions;
        }
        match self.smoke {
            Some(SmokePostEofPhase::Resize1000x700) => {
                self.smoke = Some(SmokePostEofPhase::AwaitRedraw1);
                actions.push(WindowAction::RequestRedraw);
            },
            Some(SmokePostEofPhase::Resize1600x600) => {
                self.smoke = Some(SmokePostEofPhase::AwaitRedraw2);
                actions.push(WindowAction::RequestRedraw);
            },
            _ => {},
        }
        actions
    }

    /// The platform asks for a redraw.
    pub fn on_redraw_requested(&self) -> (r: Vec<WindowAction>)
        ensures
            self@.state == AppState::Playing ==> r@ == seq![WindowAction::DrivePlayback],
            (self@.state == AppState::Ready || self@.state == AppState::Ended) ==> r@ == seq![
                WindowAction::RenderDisplayFrame,
            ],
            !(self@.state == AppState::Playing || self@.state == AppState::Ready || self@.state
                == AppState::Ended) ==> r@ == Seq::<WindowAction>::empty(),
    {
        let mut actions = Vec::new();
        if self.state == AppState::Playing {
            actions.push(WindowAction::DrivePlayback);
        } else if self.state == AppState::Ready || self.state == AppState::Ended {
            actions.push(WindowAction::RenderDisplayFrame);
        }
        actions
    }

    /// The event loop is about to sleep.
    pub fn on_about_to_wait(&self) -> (r: Vec<WindowAction>)
        ensures
            self@.state == AppState::Playing ==> r@ == seq![WindowAction::DrivePlayback],
            self@.state != AppState::Playing ==> r@ == Seq::<WindowAction>::empty(),
    {
        let mut actions = Vec::new();
        if self.state == AppState::Playing {
            actions.push(WindowAction::DrivePlayback);
        }
        actions
    }

    /// Control flow given the pipeline's next wait deadline: sleep until it
    /// while playing, otherwise until the next event.
    pub fn control_flow(&self, deadline: Option<u64>) -> (r: ControlFlowAction)
        ensures
            (self@.state == AppState::Playing && deadline is Some) ==> r
                == ControlFlowAction::WaitUntil(deadline.unwrap()),
            !(self@.state == AppState::Playing && deadline is Some) ==> r
                == ControlFlowAction::Wait,
    {
        match deadline {
            Some(d) => if self.state == AppState::Playing {
                ControlFlowAction::WaitUntil(d)
            } else {
                ControlFlowAction::Wait
            },
            None => ControlFlowAction::Wait,
        }
    }
}

/// Prepared resources are released at most once: once a session has shut
/// down or failed, a further shutdown or failure only leaves the event loop,
/// and a failed session stays failed.
pub proof fn law_release_at_most_once(s: SessionV, e: AppErrorV, e2: AppErrorV)
    ensures
        shut_down(shut_down(s).0).1 == seq![WindowAction::ExitEventLoop],
        shut_down(fatal_exit(s, e).0).1 == seq![WindowAction::ExitEventLoop],
        fatal_exit(shut_down(s).0, e2).1 == seq![WindowAction::ExitEventLoop],
        fatal_exit(fatal_exit(s, e).0, e2).1 == seq![WindowAction::ExitEventLoop],
        shut_down(fatal_exit(s, e).0).0.state == AppState::Fatal,
{
    assert(Seq::<WindowAction>::empty().push(WindowAction::ExitEventLoop) =~= seq![
        WindowAction::ExitEventLoop,
    ]);
}

/// Resizing never changes the lifecycle: only the post-EOF smoke step moves.
pub proof fn law_resize_keeps_lifecycle(s: SessionV, width: u32, height: u32)
    ensures
        smoke_resized(s, width, height).0 == (SessionV { smoke: smoke_resized(s, width, height).0.smoke, ..s }),
{
}

/// Name of a lifecycle state as the smoke summary prints it.
pub open spec fn state_name(s: AppState) -> Seq<char> {
    match s {
        AppState::Initializing => "Initializing"@,
        AppState::Ready => "Ready"@,
        AppState::Playing => "Playing"@,
        AppState::Ended => "Ended"@,
        AppState::Closing => "Closing"@,
        AppState::Fatal => "Fatal"@,
    }
}

/// The names of the states of `log`, separated by arrows.
pub open spec fn joined_names(log: Seq<AppState>) -> Seq<char>
    decreases log.len(),
{
    if log.len() == 0 {
        Seq::empty()
    } else if log.len() == 1 {
        state_name(log[0])
    } else {
        joined_names(log.drop_last()) + " -> "@ + state_name(log.last())
    }
}

/// Returns the name of a lifecycle state.
pub fn app_state_name(s: AppState) -> (r: &'static str)
    ensures
        r@ == state_name(s),
{
    match s {
        AppState::Initializing => "Initializing",
        AppState::Ready => "Ready",
        AppState::Playing => "Playing",
        AppState::Ended => "Ended",
        AppState::Closing => "Closing",
        AppState::Fatal => "Fatal",
    }
}

/// The smoke summary's line listing the lifecycle states passed through.
pub fn state_transitions_line(log: &[AppState]) -> (r: String)
    ensures
        r@ == "state_transitions: "@ + joined_names(log@),
{
    let mut line = "state_transitions: ".to_owned();
    let ghost head = line@;
    let mut i: usize = 0;
    while i < log.len()
        invariant
            i <= log.len(),
            head == "state_transitions: "@,
            line@ == head + joined_names(log@.take(i as int)),
        decreases log.len() - i,
    {
        let ghost before = line@;
        if i > 0 {
            line.append(" -> ");
        }
        line.append(app_state_name(log[i]));
        proof {
            let t = log@.take(i + 1);
            assert(t.drop_last() =~= log@.take(i as int));
            assert(t.last() == log@[i as int]);
            if i == 0 {
                assert(t.len() == 1);
                assert(joined_names(log@.take(0)) =~= Seq::<char>::empty());
            }
        }
        i += 1;
        assert(line@ =~= head + joined_names(log@.take(i as int)));
    }
    assert(log@.take(log.len() as int) =~= log@);
    line
}

} // verus!
