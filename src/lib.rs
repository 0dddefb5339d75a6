//! Long-press recognition for pointers that only report left clicks.
//!
//! The library is a deterministic state machine: the caller feeds it pointer
//! events, physical-button events and watchdog ticks, each stamped with a time
//! in milliseconds, and it answers with what to do next (start a watchdog,
//! synthesize a right click, keep waiting). Threads, locks, timers and the
//! platform input hooks live with the caller.

pub mod gesture;
pub mod settings;
pub mod recognizer;
pub mod synth;
pub mod laws;
