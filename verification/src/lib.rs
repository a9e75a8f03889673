//! A verified core for a frame-presentation engine: swapchain parameter
//! planning, frame-pacing state machine, synchronization-ring bookkeeping,
//! device selection, command-sequence recording, and payload byte layout.
//!
//! GPU handles, windowing and file I/O live outside this crate; the library
//! works on plain values (extents, counts, flags, byte vectors) and states in
//! its contracts exactly what each decision returns.

pub mod codec;
pub mod config;
pub mod device;
pub mod fps;
pub mod lifecycle;
pub mod pipeline;
pub mod recorder;
pub mod scheduler;
pub mod swapchain;
pub mod sync;
