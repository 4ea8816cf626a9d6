//! Supervision core for a child process run under a live terminal dashboard:
//! a bounded output buffer with a follow/scroll state machine, fixed-capacity
//! metric histories with rolling averages, clamped disk I/O deltas, and the
//! event-loop state machine that ties them together.  Terminal rendering,
//! argument collection and file I/O live outside this crate and talk to it
//! through plain values.

pub mod cli;
pub mod color;
pub mod config;
pub mod disk;
pub mod engine;
pub mod format;
pub mod history;
pub mod netfilter;
pub mod output;
pub mod scroll;
pub mod telemetry;
pub mod textwrap;

pub use cli::{Args, ArgsError};
pub use color::SerializableColor;
pub use config::{AnimationConfig, AppConfig, Config, LayoutConfig, OutputConfig, Theme};
pub use disk::{DiskSample, DiskSampler};
pub use engine::{Engine, EngineEvent, EngineStep, ExitReason, KeyInput, Snapshot, TickInput, UiInput};
pub use history::HistoryWindow;
pub use output::OutputBuffer;
pub use scroll::ScrollState;
pub use telemetry::{Telemetry, TickStats};
