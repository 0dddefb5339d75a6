use vstd::prelude::*;
use crate::gesture::{age, idle_state, moved, elapsed_since, GestureState, Point};
use crate::settings::Settings;

verus! {

/// A mouse button as the pointer listener reports it.
#[derive(Clone, Copy, Debug, PartialEq, Eq, Structural)]
pub enum Button {
    Left,
    Right,
    Middle,
    Unknown(u8),
}

/// A notification of the primary pointer stream.
#[derive(Clone, Copy, Debug, PartialEq, Eq, Structural)]
pub enum PointerEvent {
    Move { x: i32, y: i32 },
    ButtonPress(Button),
    ButtonRelease(Button),
    Other,
}

/// What the caller has to do after an event was handled.
#[derive(Clone, Copy, Debug, PartialEq, Eq, Structural)]
pub enum Reaction {
    Nothing,
    /// Start a watchdog that polls with this hold time.
    SpawnWatchdog { wait_ms: u64 },
    /// Emit one synthetic right click.
    SynthesizeClick,
}

/// What one poll of the watchdog decided.
#[derive(Clone, Copy, Debug, PartialEq, Eq, Structural)]
pub enum TickOutcome {
    /// Still within the hold time: poll again.
    Waiting,
    /// The press was released before a decision: the watchdog ends.
    Released,
    /// A physical click came within the hold time: the watchdog ends.
    Cancelled,
    /// The press was held long enough: the watchdog ends.
    Confirmed,
}

/// The gesture state together with the single-watchdog guard.
#[derive(Clone, Copy, Debug, PartialEq, Eq, Structural)]
pub struct Recognizer {
    pub state: GestureState,
    /// Set while a watchdog is live; at most one is started at a time.
    pub watchdog_active: bool,
    pub settings: Settings,
}

/// Effect of a left press at `now`: ignored while a watchdog is live, else a
/// new candidate gesture starts and a watchdog is requested.
pub open spec fn pressed(r: Recognizer, now: u64) -> (Recognizer, Reaction) {
    if r.watchdog_active {
        (r, Reaction::Nothing)
    } else {
        (
            Recognizer {
                state: GestureState {
                    candidate_start: Some(now),
                    max_displacement: 0,
                    last_position: None,
                    ..r.state
                },
                watchdog_active: true,
                ..r
            },
            Reaction::SpawnWatchdog { wait_ms: r.settings.wait_ms },
        )
    }
}

/// Effect of a left release: the gesture is no longer pending and the
/// confirmation is consumed; a click is owed when it was confirmed and the
/// pointer did not move beyond the drag threshold.
pub open spec fn released(r: Recognizer) -> (Recognizer, bool) {
    (
        Recognizer {
            state: GestureState { candidate_start: None, confirmed: false, ..r.state },
            ..r
        },
        r.state.confirmed && r.state.max_displacement <= r.settings.drag_threshold,
    )
}

/// Effect of a press reported by the physical button hook.
pub open spec fn physically_pressed(r: Recognizer, now: u64) -> Recognizer {
    Recognizer { state: GestureState { physical_press_at: Some(now), ..r.state }, ..r }
}

/// A physical press less than `wait` milliseconds old at `now`.
pub open spec fn recent_physical_press(s: GestureState, now: u64, wait: u64) -> bool {
    match s.physical_press_at {
        Some(p) => age(now, p) < wait,
        None => false,
    }
}

/// Effect of one watchdog poll at `now` with hold time `wait`.
pub open spec fn ticked(r: Recognizer, now: u64, wait: u64) -> (Recognizer, TickOutcome) {
    match r.state.candidate_start {
        None => (Recognizer { watchdog_active: false, ..r }, TickOutcome::Released),
        Some(start) => {
            if recent_physical_press(r.state, now, wait) {
                (
                    Recognizer {
                        state: GestureState {
                            candidate_start: None,
                            max_displacement: 0,
                            ..r.state
                        },
                        watchdog_active: false,
                        ..r
                    },
                    TickOutcome::Cancelled,
                )
            } else if age(now, start) < wait {
                (r, TickOutcome::Waiting)
            } else {
                (
                    Recognizer {
                        state: GestureState {
                            candidate_start: None,
                            physical_press_at: None,
                            confirmed: true,
                            ..r.state
                        },
                        watchdog_active: false,
                        ..r
                    },
                    TickOutcome::Confirmed,
                )
            }
        },
    }
}

/// Effect of one notification of the primary pointer stream at `now`.
pub open spec fn handled(r: Recognizer, ev: PointerEvent, now: u64) -> (Recognizer, Reaction) {
    match ev {
        PointerEvent::Move { x, y } => (
            Recognizer { state: moved(r.state, Point { x, y }), ..r },
            Reaction::Nothing,
        ),
        PointerEvent::ButtonPress(Button::Left) => pressed(r, now),
        PointerEvent::ButtonRelease(Button::Left) => {
            let (next, click) = released(r);
            (next, if click { Reaction::SynthesizeClick } else { Reaction::Nothing })
        },
        _ => (r, Reaction::Nothing),
    }
}

impl Recognizer {
    /// A recognizer with no gesture pending and no watchdog live.
    pub fn new(settings: Settings) -> (r: Recognizer)
        ensures
            r.state == idle_state(),
            !r.watchdog_active,
            r.settings == settings,
    {
        Recognizer { state: GestureState::new(), watchdog_active: false, settings }
    }

    /// Starts a candidate gesture unless a watchdog is already live.
    pub fn on_press(&mut self, now: u64) -> (reaction: Reaction)
        ensures
            (*final(self), reaction) == pressed(*old(self), now),
    {
        if self.watchdog_active {
            return Reaction::Nothing;
        }
        self.watchdog_active = true;
        self.state.candidate_start = Some(now);
        self.state.max_displacement = 0;
        self.state.last_position = None;
        Reaction::SpawnWatchdog { wait_ms: self.settings.wait_ms }
    }

    /// Resolves the pending gesture; returns whether a click is to be synthesized.
    pub fn on_release(&mut self) -> (click: bool)
        ensures
            (*final(self), click) == released(*old(self)),
    {
        self.state.candidate_start = None;
        let confirmed = self.state.confirmed;
        self.state.confirmed = false;
        if self.state.max_displacement > self.settings.drag_threshold {
            false
        } else {
            confirmed
        }
    }

    /// Records a press of the physical button at `now`.
    pub fn on_physical_press(&mut self, now: u64)
        ensures
            *final(self) == physically_pressed(*old(self), now),
    {
        self.state.physical_press_at = Some(now);
    }

    /// Records a pointer move to `(x, y)`.
    pub fn on_move(&mut self, x: i32, y: i32)
        ensures
            final(self).state == moved(old(self).state, Point { x, y }),
            final(self).watchdog_active == old(self).watchdog_active,
            final(self).settings == old(self).settings,
    {
        self.state.record_move(x, y);
    }

    /// Handles one notification of the primary pointer stream at `now`.
    pub fn handle(&mut self, ev: PointerEvent, now: u64) -> (reaction: Reaction)
        ensures
            (*final(self), reaction) == handled(*old(self), ev, now),
    {
        match ev {
            PointerEvent::Move { x, y } => {
                self.on_move(x, y);
                Reaction::Nothing
            },
            PointerEvent::ButtonPress(Button::Left) => self.on_press(now),
            PointerEvent::ButtonRelease(Button::Left) => {
                if self.on_release() {
                    Reaction::SynthesizeClick
                } else {
                    Reaction::Nothing
                }
            },
            _ => Reaction::Nothing,
        }
    }

    /// One poll of the watchdog at `now`, with the hold time it was started with.
    pub fn tick(&mut self, now: u64, wait: u64) -> (outcome: TickOutcome)
        ensures
            (*final(self), outcome) == ticked(*old(self), now, wait),
    {
        let start = match self.state.candidate_start {
            None => {
                self.watchdog_active = false;
                return TickOutcome::Released;
            },
            Some(start) => start,
        };
        let recent = match self.state.physical_press_at {
            Some(p) => elapsed_since(now, p) < wait,
            None => false,
        };
        if recent {
            self.state.candidate_start = None;
            self.state.max_displacement = 0;
            self.watchdog_active = false;
            return TickOutcome::Cancelled;
        }
        if elapsed_since(now, start) < wait {
            return TickOutcome::Waiting;
        }
        self.state.candidate_start = None;
        self.state.physical_press_at = None;
        self.state.confirmed = true;
        self.watchdog_active = false;
        TickOutcome::Confirmed
    }
}

} // verus!
