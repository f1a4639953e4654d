//! A Pomodoro timer engine: alternating work and pause intervals, driven by
//! a display loop that asks for a snapshot on every frame.
//!
//! Time is counted in nanoseconds. An instant is the number of nanoseconds
//! since an origin that the caller chose once (for example when the program
//! started); a duration is a number of nanoseconds.

mod clock;
mod engine;
pub mod laws;

pub use clock::{format_duration, NANOS_PER_SEC, SECS_PER_MINUTE};
pub use engine::{EngineModel, IntervalConfig, Snapshot, TimerEngine, TimerState, MAX_MINUTES, NANOS_PER_MINUTE};

