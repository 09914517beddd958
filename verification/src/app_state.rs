//! Lifecycle state machine of the production video window.

use vstd::prelude::*;

use crate::app_error::AppError;

verus! {

/// High-level application lifecycle state.
#[derive(Debug, Clone, Copy, PartialEq, Eq, Hash, Structural)]
pub enum AppState {
    Initializing,
    Ready,
    Playing,
    Ended,
    Closing,
    Fatal,
}

/// States in which a frame is (or may be) on screen and playback work may run.
pub open spec fn displaying(s: AppState) -> bool {
    s == AppState::Ready || s == AppState::Playing || s == AppState::Ended
}

/// States in which the window is still live and may receive input.
pub open spec fn live(s: AppState) -> bool {
    s == AppState::Initializing || displaying(s)
}

impl AppState {
    /// Returns whether playback work may still be scheduled.
    pub fn allows_playback(self) -> (r: bool)
        ensures
            r == displaying(self),
    {
        match self {
            AppState::Ready | AppState::Playing | AppState::Ended => true,
            _ => false,
        }
    }

    /// Returns whether the application is still live and may receive input.
    pub fn is_live(self) -> (r: bool)
        ensures
            r == live(self),
    {
        match self {
            AppState::Initializing | AppState::Ready | AppState::Playing | AppState::Ended => true,
            _ => false,
        }
    }

    /// Startup completed successfully.
    pub fn ready(self) -> (r: Result<AppState, AppError>)
        ensures
            self == AppState::Initializing ==> r == Ok::<AppState, AppError>(AppState::Ready),
            self != AppState::Initializing ==> r == Err::<AppState, AppError>(AppError::InvalidState),
    {
        match self {
            AppState::Initializing => Ok(AppState::Ready),
            _ => Err(AppError::InvalidState),
        }
    }

    /// Starts PTS playback once, from the ready state only.
    pub fn start_playback(self) -> (r: Result<AppState, AppError>)
        ensures
            self == AppState::Ready ==> r == Ok::<AppState, AppError>(AppState::Playing),
            self != AppState::Ready ==> r == Err::<AppState, AppError>(AppError::InvalidState),
    {
        match self {
            AppState::Ready => Ok(AppState::Playing),
            _ => Err(AppError::InvalidState),
        }
    }

    /// Marks playback as finished while keeping the last presented frame visible.
    pub fn eof_reached(self) -> (r: Result<AppState, AppError>)
        ensures
            (self == AppState::Playing || self == AppState::Ended) ==> r == Ok::<
                AppState,
                AppError,
            >(AppState::Ended),
            !(self == AppState::Playing || self == AppState::Ended) ==> r == Err::<
                AppState,
                AppError,
            >(AppError::InvalidState),
    {
        match self {
            AppState::Playing | AppState::Ended => Ok(AppState::Ended),
            _ => Err(AppError::InvalidState),
        }
    }

    /// Returns whether resizing should preserve the current lifecycle state.
    pub fn resize_preserves_state(self) -> (r: bool)
        ensures
            r == displaying(self),
    {
        match self {
            AppState::Ready | AppState::Playing | AppState::Ended => true,
            _ => false,
        }
    }

    /// Begins shutdown; a fatal or closing state is kept as it is.
    pub fn begin_close(self) -> (r: AppState)
        ensures
            (self == AppState::Fatal || self == AppState::Closing) ==> r == self,
            !(self == AppState::Fatal || self == AppState::Closing) ==> r == AppState::Closing,
    {
        match self {
            AppState::Fatal | AppState::Closing => self,
            _ => AppState::Closing,
        }
    }

    /// Marks a fatal runtime error.
    pub fn mark_fatal(self) -> (r: AppState)
        ensures
            r == AppState::Fatal,
    {
        AppState::Fatal
    }
}

} // verus!
