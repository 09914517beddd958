//! Errors of the production application layer.

use vstd::prelude::*;
use vstd::string::StringExecFns;

verus! {

/// Error returned by the application entry points and lifecycle transitions.
#[derive(Debug, Clone, PartialEq, Eq)]
pub enum AppError {
    /// Command-line parsing or configuration validation failed.
    Config(String),
    /// The requested input path is missing or not a regular file.
    InvalidInput { path: String },
    /// The current platform is not supported for the production video path.
    UnsupportedPlatform,
    /// Window or event-loop creation failed.
    Window(String),
    /// GPU bootstrap or surface initialization failed (the GPU layer's message).
    Gpu(String),
    /// Opening the decoder or decoding failed (the decoder's message).
    Decoder(String),
    /// Rendering or surface presentation failed (the renderer's message).
    Render(String),
    /// The playback clock or scheduler rejected a timestamp (their message).
    Playback(String),
    /// An application state transition was invalid.
    InvalidState,
    /// Fatal runtime condition such as device loss or out-of-memory.
    Fatal(String),
}

/// Abstract value of an [`AppError`], with messages and paths as character sequences.
pub enum AppErrorV {
    Config(Seq<char>),
    InvalidInput { path: Seq<char> },
    UnsupportedPlatform,
    Window(Seq<char>),
    Gpu(Seq<char>),
    Decoder(Seq<char>),
    Render(Seq<char>),
    Playback(Seq<char>),
    InvalidState,
    Fatal(Seq<char>),
}

impl View for AppError {
    type V = AppErrorV;

    open spec fn view(&self) -> AppErrorV {
        match self {
            AppError::Config(m) => AppErrorV::Config(m@),
            AppError::InvalidInput { path } => AppErrorV::InvalidInput { path: path@ },
            AppError::UnsupportedPlatform => AppErrorV::UnsupportedPlatform,
            AppError::Window(m) => AppErrorV::Window(m@),
            AppError::Gpu(m) => AppErrorV::Gpu(m@),
            AppError::Decoder(m) => AppErrorV::Decoder(m@),
            AppError::Render(m) => AppErrorV::Render(m@),
            AppError::Playback(m) => AppErrorV::Playback(m@),
            AppError::InvalidState => AppErrorV::InvalidState,
            AppError::Fatal(m) => AppErrorV::Fatal(m@),
        }
    }
}

/// The text an error is reported with.
pub open spec fn error_text(e: AppErrorV) -> Seq<char> {
    match e {
        AppErrorV::Config(m) => "configuration error: "@ + m,
        AppErrorV::InvalidInput { path } => "invalid input path: "@ + path,
        AppErrorV::UnsupportedPlatform => "unsupported platform for production video playback"@,
        AppErrorV::Window(m) => "window creation failed: "@ + m,
        AppErrorV::Gpu(m) => "GPU initialization failed: "@ + m,
        AppErrorV::Decoder(m) => "decoder error: "@ + m,
        AppErrorV::Render(m) => "render error: "@ + m,
        AppErrorV::Playback(m) => "playback error: "@ + m,
        AppErrorV::InvalidState => "invalid application state transition"@,
        AppErrorV::Fatal(m) => "fatal runtime error: "@ + m,
    }
}

fn prefixed(prefix: &str, detail: &String) -> (r: String)
    ensures
        r@ == prefix@ + detail@,
{
    let mut text = prefix.to_owned();
    text.append(detail.as_str());
    text
}

impl AppError {
    /// The text this error is reported with.
    pub fn message(&self) -> (r: String)
        ensures
            r@ == error_text(self@),
    {
        match self {
            AppError::Config(m) => prefixed("configuration error: ", m),
            AppError::InvalidInput { path } => prefixed("invalid input path: ", path),
            AppError::UnsupportedPlatform => {
                "unsupported platform for production video playback".to_owned()
            },
            AppError::Window(m) => prefixed("window creation failed: ", m),
            AppError::Gpu(m) => prefixed("GPU initialization failed: ", m),
            AppError::Decoder(m) => prefixed("decoder error: ", m),
            AppError::Render(m) => prefixed("render error: ", m),
            AppError::Playback(m) => prefixed("playback error: ", m),
            AppError::InvalidState => "invalid application state transition".to_owned(),
            AppError::Fatal(m) => prefixed("fatal runtime error: ", m),
        }
    }

    /// A copy of this error.
    pub fn clone_error(&self) -> (r: AppError)
        ensures
            r@ == self@,
    {
        match self {
            AppError::Config(m) => AppError::Config(m.clone()),
            AppError::InvalidInput { path } => AppError::InvalidInput { path: path.clone() },
            AppError::UnsupportedPlatform => AppError::UnsupportedPlatform,
            AppError::Window(m) => AppError::Window(m.clone()),
            AppError::Gpu(m) => AppError::Gpu(m.clone()),
            AppError::Decoder(m) => AppError::Decoder(m.clone()),
            AppError::Render(m) => AppError::Render(m.clone()),
            AppError::Playback(m) => AppError::Playback(m.clone()),
            AppError::InvalidState => AppError::InvalidState,
            AppError::Fatal(m) => AppError::Fatal(m.clone()),
        }
    }
}

} // verus!
