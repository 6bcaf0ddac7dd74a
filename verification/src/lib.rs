//! Core of a terminal system-metrics dashboard: bounded rolling histories
//! per metric channel, a sampler that turns provider readings into immutable
//! snapshots, the event-loop state machine that interleaves input polling
//! with timed sampling, and the pure mapping from a snapshot to a
//! renderable widget description.

pub mod error;
pub mod event_loop;
pub mod history;
pub mod input;
pub mod metrics;
pub mod widgets;

pub use error::DashError;
pub use event_loop::{Directive, EventLoop, LoopEvent};
pub use history::HistoryBuffer;
pub use input::{Action, Key};
pub use metrics::{MetricsSnapshot, ProviderReading, Sampler};
pub use widgets::{Region, WidgetTree};
