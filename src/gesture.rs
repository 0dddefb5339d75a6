use vstd::prelude::*;

verus! {

/// A pointer position in screen units.
#[derive(Clone, Copy, Debug, PartialEq, Eq, Structural)]
pub struct Point {
    pub x: i32,
    pub y: i32,
}

/// Absolute value of an integer.
pub open spec fn abs_int(v: int) -> int {
    if v < 0 { -v } else { v }
}

/// Manhattan distance between two positions.
pub open spec fn manhattan(a: Point, b: Point) -> int {
    abs_int(a.x - b.x) + abs_int(a.y - b.y)
}

/// Milliseconds elapsed from `at` until `now`; zero when `at` lies in the future.
pub open spec fn age(now: u64, at: u64) -> int {
    if now >= at { now - at } else { 0 }
}

/// The record shared by the event handlers and the watchdog.
#[derive(Clone, Copy, Debug, PartialEq, Eq, Structural)]
pub struct GestureState {
    /// First position seen after the candidate gesture started.
    pub last_position: Option<Point>,
    /// Largest Manhattan distance from `last_position` seen so far.
    pub max_displacement: u64,
    /// When the press being timed started; `None` when no gesture is pending.
    pub candidate_start: Option<u64>,
    /// When the physical button hook last reported a press.
    pub physical_press_at: Option<u64>,
    /// Set by the watchdog once the press was held long enough.
    pub confirmed: bool,
}

/// The state with nothing observed yet.
pub open spec fn idle_state() -> GestureState {
    GestureState {
        last_position: None,
        max_displacement: 0,
        candidate_start: None,
        physical_press_at: None,
        confirmed: false,
    }
}

/// Effect of a pointer move to `p`: ignored unless a gesture is pending; the
/// first position becomes the baseline, later ones may raise the displacement.
pub open spec fn moved(s: GestureState, p: Point) -> GestureState {
    if s.candidate_start is None {
        s
    } else {
        match s.last_position {
            None => GestureState { last_position: Some(p), ..s },
            Some(base) => {
                if s.max_displacement < manhattan(base, p) {
                    GestureState { max_displacement: manhattan(base, p) as u64, ..s }
                } else {
                    s
                }
            },
        }
    }
}

/// Computes the Manhattan distance between two positions.
pub fn manhattan_distance(a: Point, b: Point) -> (d: u64)
    ensures
        d == manhattan(a, b),
{
    let dx: i64 = a.x as i64 - b.x as i64;
    let dy: i64 = a.y as i64 - b.y as i64;
    let ax: u64 = if dx < 0 { (-dx) as u64 } else { dx as u64 };
    let ay: u64 = if dy < 0 { (-dy) as u64 } else { dy as u64 };
    ax + ay
}

/// Milliseconds from `at` until `now`, saturating at zero.
pub fn elapsed_since(now: u64, at: u64) -> (r: u64)
    ensures
        r == age(now, at),
{
    if now >= at { now - at } else { 0 }
}

impl GestureState {
    /// A state with no gesture pending and nothing recorded.
    pub fn new() -> (s: GestureState)
        ensures
            s == idle_state(),
    {
        GestureState {
            last_position: None,
            max_displacement: 0,
            candidate_start: None,
            physical_press_at: None,
            confirmed: false,
        }
    }

    /// Records a pointer move to `(x, y)`.
    pub fn record_move(&mut self, x: i32, y: i32)
        ensures
            *final(self) == moved(*old(self), Point { x, y }),
    {
        if self.candidate_start.is_some() {
            match self.last_position {
                None => {
                    self.last_position = Some(Point { x, y });
                },
                Some(base) => {
                    let delta = manhattan_distance(base, Point { x, y });
                    if self.max_displacement < delta {
                        self.max_displacement = delta;
                    }
                },
            }
        }
    }
}

} // verus!
