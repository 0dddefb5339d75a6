use longpress::gesture::{elapsed_since, manhattan_distance, GestureState, Point};
use longpress::recognizer::{Button, PointerEvent, Reaction, Recognizer, TickOutcome};
use longpress::settings::{
    Settings, DEFAULT_DRAG_THRESHOLD, DEFAULT_POLL_MS, DEFAULT_SETTLE_MS, DEFAULT_WAIT_MS,
};
use longpress::synth::{right_click_steps, Injection};

enum Input {
    Pointer(PointerEvent),
    Physical,
}

struct Outcome {
    clicks: usize,
    ever_confirmed: bool,
    spawns: usize,
}

/// Feeds timed inputs to a fresh recognizer, polling every `poll_ms` from each
/// watchdog start while the watchdog is live, as the runtime does.
fn drive(inputs: &[(u64, Input)]) -> Outcome {
    let settings = Settings::default();
    let mut r = Recognizer::new(settings);
    let mut next_poll: Option<(u64, u64)> = None;
    let mut out = Outcome { clicks: 0, ever_confirmed: false, spawns: 0 };
    let end = inputs.last().map(|i| i.0).unwrap_or(0) + 1000;
    let mut idx = 0;
    let mut now: u64 = 0;
    while now <= end {
        if let Some((at, wait)) = next_poll {
            if at == now {
                match r.tick(now, wait) {
                    TickOutcome::Waiting => next_poll = Some((now + settings.poll_ms, wait)),
                    TickOutcome::Confirmed => {
                        out.ever_confirmed = true;
                        next_poll = None;
                    }
                    _ => next_poll = None,
                }
            }
        }
        while idx < inputs.len() && inputs[idx].0 == now {
            match inputs[idx].1 {
                Input::Pointer(ev) => match r.handle(ev, now) {
                    Reaction::SpawnWatchdog { wait_ms } => {
                        out.spawns += 1;
                        next_poll = Some((now + settings.poll_ms, wait_ms));
                    }
                    Reaction::SynthesizeClick => out.clicks += 1,
                    Reaction::Nothing => {}
                },
                Input::Physical => r.on_physical_press(now),
            }
            idx += 1;
        }
        now += 1;
    }
    out
}

fn press() -> Input {
    Input::Pointer(PointerEvent::ButtonPress(Button::Left))
}

fn release() -> Input {
    Input::Pointer(PointerEvent::ButtonRelease(Button::Left))
}

fn mv(x: i32, y: i32) -> Input {
    Input::Pointer(PointerEvent::Move { x, y })
}

#[test]
fn short_tap_passes_through() {
    let out = drive(&[(1000, press()), (1100, release())]);
    assert_eq!(out.clicks, 0);
    assert!(!out.ever_confirmed);
}

#[test]
fn long_press_confirms_one_click() {
    let out = drive(&[(1000, press()), (1600, release())]);
    assert!(out.ever_confirmed);
    assert_eq!(out.clicks, 1);
}

#[test]
fn long_press_with_small_motion_still_clicks() {
    let out = drive(&[
        (1000, press()),
        (1010, mv(100, 100)),
        (1200, mv(120, 120)),
        (1300, mv(110, 95)),
        (1600, release()),
    ]);
    assert_eq!(out.clicks, 1);
}

#[test]
fn drag_cancels_regardless_of_duration() {
    let out = drive(&[
        (1000, press()),
        (1010, mv(100, 100)),
        (1100, mv(125, 125)),
        (1700, release()),
    ]);
    assert!(out.ever_confirmed);
    assert_eq!(out.clicks, 0);
}

#[test]
fn displacement_of_exactly_the_threshold_is_no_drag() {
    let out = drive(&[
        (1000, press()),
        (1010, mv(0, 0)),
        (1100, mv(20, -20)),
        (1600, release()),
    ]);
    assert_eq!(out.clicks, 1);
}

#[test]
fn physical_click_disqualifies() {
    let out = drive(&[(1000, press()), (1050, Input::Physical), (1600, release())]);
    assert!(!out.ever_confirmed);
    assert_eq!(out.clicks, 0);
}

#[test]
fn old_physical_click_does_not_disqualify() {
    let out = drive(&[(100, Input::Physical), (1000, press()), (1600, release())]);
    assert_eq!(out.clicks, 1);
}

#[test]
fn second_press_spawns_no_watchdog() {
    let mut r = Recognizer::new(Settings::default());
    assert_eq!(r.on_press(10), Reaction::SpawnWatchdog { wait_ms: DEFAULT_WAIT_MS });
    let after_first = r;
    assert_eq!(r.on_press(20), Reaction::Nothing);
    assert_eq!(r, after_first);
    assert!(r.watchdog_active);
    let out = drive(&[(1000, press()), (1100, press()), (1700, release())]);
    assert_eq!(out.spawns, 1);
    assert_eq!(out.clicks, 1);
}

#[test]
fn press_after_watchdog_ends_spawns_again() {
    let out = drive(&[(1000, press()), (1100, release()), (2000, press()), (2600, release())]);
    assert_eq!(out.spawns, 2);
    assert_eq!(out.clicks, 1);
}

#[test]
fn second_release_emits_nothing() {
    let mut r = Recognizer::new(Settings::default());
    r.on_press(0);
    assert_eq!(r.tick(500, 500), TickOutcome::Confirmed);
    assert!(r.on_release());
    assert!(!r.on_release());
    assert_eq!(r.tick(600, 500), TickOutcome::Released);
    assert!(!r.on_release());
}

#[test]
fn tick_after_release_ends_watchdog() {
    let mut r = Recognizer::new(Settings::default());
    r.on_press(0);
    assert_eq!(r.tick(50, 500), TickOutcome::Waiting);
    assert!(!r.on_release());
    assert!(r.watchdog_active);
    assert_eq!(r.tick(100, 500), TickOutcome::Released);
    assert!(!r.watchdog_active);
    assert!(!r.state.confirmed);
}

#[test]
fn tick_cancel_clears_candidate_and_displacement() {
    let mut r = Recognizer::new(Settings::default());
    r.on_press(0);
    r.on_move(0, 0);
    r.on_move(10, 5);
    assert_eq!(r.state.max_displacement, 15);
    r.on_physical_press(30);
    assert_eq!(r.tick(50, 500), TickOutcome::Cancelled);
    assert_eq!(r.state.candidate_start, None);
    assert_eq!(r.state.max_displacement, 0);
    assert_eq!(r.state.physical_press_at, Some(30));
    assert!(!r.watchdog_active);
}

#[test]
fn confirm_clears_physical_press() {
    let mut r = Recognizer::new(Settings::default());
    r.on_physical_press(0);
    r.on_press(1000);
    assert_eq!(r.tick(1499, 500), TickOutcome::Waiting);
    assert_eq!(r.tick(1500, 500), TickOutcome::Confirmed);
    assert_eq!(r.state.physical_press_at, None);
    assert_eq!(r.state.candidate_start, None);
    assert!(r.state.confirmed);
}

#[test]
fn displacement_is_running_maximum_from_first_position() {
    let mut r = Recognizer::new(Settings::default());
    r.on_press(0);
    r.on_move(10, 10);
    assert_eq!(r.state.last_position, Some(Point { x: 10, y: 10 }));
    assert_eq!(r.state.max_displacement, 0);
    let path = [(13, 14), (11, 10), (30, 0), (10, 10), (-5, 12)];
    let expected = [7, 7, 30, 30, 30];
    for (p, e) in path.iter().zip(expected.iter()) {
        let before = r.state.max_displacement;
        r.on_move(p.0, p.1);
        assert!(r.state.max_displacement >= before);
        assert_eq!(r.state.max_displacement, *e);
    }
    assert_eq!(r.state.last_position, Some(Point { x: 10, y: 10 }));
}

#[test]
fn moves_without_gesture_are_ignored() {
    let mut r = Recognizer::new(Settings::default());
    r.on_move(5, 5);
    r.on_move(500, 500);
    assert_eq!(r.state, GestureState::new());
}

#[test]
fn press_resets_tracking() {
    let mut r = Recognizer::new(Settings::default());
    r.on_press(0);
    r.on_move(0, 0);
    r.on_move(100, 0);
    r.on_release();
    assert_eq!(r.tick(50, 500), TickOutcome::Released);
    r.on_press(1000);
    assert_eq!(r.state.max_displacement, 0);
    assert_eq!(r.state.last_position, None);
    assert_eq!(r.state.candidate_start, Some(1000));
}

#[test]
fn other_buttons_are_ignored() {
    let mut r = Recognizer::new(Settings::default());
    for ev in [
        PointerEvent::ButtonPress(Button::Right),
        PointerEvent::ButtonRelease(Button::Middle),
        PointerEvent::ButtonPress(Button::Unknown(4)),
        PointerEvent::Other,
    ] {
        let before = r;
        assert_eq!(r.handle(ev, 7), Reaction::Nothing);
        assert_eq!(r, before);
    }
}

#[test]
fn manhattan_distance_values() {
    assert_eq!(manhattan_distance(Point { x: 0, y: 0 }, Point { x: 3, y: -4 }), 7);
    assert_eq!(manhattan_distance(Point { x: -2, y: 5 }, Point { x: -2, y: 5 }), 0);
    assert_eq!(
        manhattan_distance(Point { x: i32::MIN, y: i32::MIN }, Point { x: i32::MAX, y: i32::MAX }),
        2 * (u32::MAX as u64)
    );
}

#[test]
fn elapsed_saturates() {
    assert_eq!(elapsed_since(600, 100), 500);
    assert_eq!(elapsed_since(100, 600), 0);
}

#[test]
fn default_settings() {
    let s = Settings::default();
    assert_eq!(s.wait_ms, 500);
    assert_eq!(s.drag_threshold, 40);
    assert_eq!(s.poll_ms, 50);
    assert_eq!(s.settle_ms, 10);
    assert_eq!(Settings::with_wait(250).wait_ms, 250);
    assert_eq!(DEFAULT_DRAG_THRESHOLD, 40);
    assert_eq!(DEFAULT_POLL_MS, 50);
    assert_eq!(DEFAULT_SETTLE_MS, 10);
}

#[test]
fn custom_wait_is_used_by_watchdog() {
    let mut r = Recognizer::new(Settings::with_wait(200));
    assert_eq!(r.on_press(0), Reaction::SpawnWatchdog { wait_ms: 200 });
    assert_eq!(r.tick(150, 200), TickOutcome::Waiting);
    assert_eq!(r.tick(200, 200), TickOutcome::Confirmed);
}

#[test]
fn right_click_steps_in_order() {
    let steps = right_click_steps(&Settings::default());
    assert_eq!(
        steps,
        vec![
            Injection::Press(Button::Right),
            Injection::Pause { ms: 10 },
            Injection::Release(Button::Right),
        ]
    );
}
