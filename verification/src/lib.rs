//! Maximum-throughput click engine: the timing brain, the control block shared
//! with the host, the click sinks used for testing and measurement, profile
//! sanitising, and the platform-neutral widget logic of the interface.
//!
//! Everything here is platform-neutral. Reading clocks and counters,
//! injecting input, pinning threads, hotkeys, windows and rendering belong to
//! the host, which drives this library through plain values.

pub mod shared;
pub mod schedule;
pub mod clock;
pub mod wait;
pub mod sink;
pub mod probe;
pub mod engine;
pub mod input;
pub mod affinity;
pub mod widget;
pub mod render;
pub mod profile;
pub mod hotkey;
pub mod app;

pub use shared::{Button, Config, EngineState, PositionMode, SharedState};
