use vstd::prelude::*;

verus! {

/// Hold time, in milliseconds, after which a press counts as a long press.
pub const DEFAULT_WAIT_MS: u64 = 500;

/// Displacement above which a press is treated as a drag.
pub const DEFAULT_DRAG_THRESHOLD: u64 = 40;

/// Interval, in milliseconds, between two polls of the watchdog.
pub const DEFAULT_POLL_MS: u64 = 50;

/// Pause, in milliseconds, between the synthetic press and release.
pub const DEFAULT_SETTLE_MS: u64 = 10;

/// The thresholds and delays of the recognizer, fixed for its lifetime.
#[derive(Clone, Copy, Debug, PartialEq, Eq, Structural)]
pub struct Settings {
    pub wait_ms: u64,
    pub drag_threshold: u64,
    pub poll_ms: u64,
    pub settle_ms: u64,
}

impl Settings {
    /// Settings with the given hold time and the default thresholds and delays.
    pub fn with_wait(wait_ms: u64) -> (s: Settings)
        ensures
            s.wait_ms == wait_ms,
            s.drag_threshold == DEFAULT_DRAG_THRESHOLD,
            s.poll_ms == DEFAULT_POLL_MS,
            s.settle_ms == DEFAULT_SETTLE_MS,
    {
        Settings {
            wait_ms,
            drag_threshold: DEFAULT_DRAG_THRESHOLD,
            poll_ms: DEFAULT_POLL_MS,
            settle_ms: DEFAULT_SETTLE_MS,
        }
    }
}

impl Default for Settings {
    fn default() -> (s: Settings)
        ensures
            s.wait_ms == DEFAULT_WAIT_MS,
            s.drag_threshold == DEFAULT_DRAG_THRESHOLD,
            s.poll_ms == DEFAULT_POLL_MS,
            s.settle_ms == DEFAULT_SETTLE_MS,
    {
        Settings::with_wait(DEFAULT_WAIT_MS)
    }
}

} // verus!
