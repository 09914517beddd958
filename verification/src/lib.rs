//! Verified domain layer for the Do Vale Studio 4 video editor.
//!
//! The editorial model (identities, timeline time, media pool, tracks, clips,
//! project, undo/redo history and the editor controller) and the pure
//! decision logic of the production video window (lifecycle state machine,
//! event-loop wake schedule, loop metrics, command-line parsing, diagnostic
//! log decisions) are specified and proved here. Windowing, GPU work,
//! decoding and all I/O stay outside the library.

pub mod app_error;
pub mod app_state;
pub mod color;
pub mod config;
pub mod diagnostic;
pub mod display;
pub mod edit_laws;
pub mod editor;
pub mod error;
pub mod event_loop_schedule;
pub mod frame_fields;
pub mod history;
pub mod ids;
pub mod laws;
pub mod loop_metrics;
pub mod media_pool;
pub mod metrics_summary;
pub mod pipeline;
pub mod project;
pub mod selection;
pub mod session;
pub mod shutdown;
pub mod smoke_report;
pub mod text;
pub mod time;
pub mod timeline;
pub mod view_model;
pub mod window_session;

pub use app_error::AppError;
pub use app_state::AppState;
pub use config::{event_loop_allows_any_thread, parse_args, AppConfig, RunMode};
pub use display::{can_render_display_frame, redraw_preserves_state};
pub use editor::{EditCommand, Editor};
pub use error::EditorError;
pub use event_loop_schedule::{ControlFlowAction, EventLoopSchedule};
pub use history::{ClipTiming, History, HistoryEntry};
pub use ids::{ClipId, IdError, MediaAssetId, ProjectId, TrackId};
pub use loop_metrics::{LoopMetrics, RedrawRequestSource};
pub use media_pool::MediaPool;
pub use project::{Project, ProjectError};
pub use selection::Selection;
pub use shutdown::should_discard_prepared_on_shutdown;
pub use time::{SourceOffset, TimelineDuration, TimelinePosition, TimelineRange};
pub use timeline::{Clip, Timeline, Track, TrackKind};
