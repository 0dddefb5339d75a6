use vstd::prelude::*;
use crate::gesture::{manhattan, moved, GestureState, Point};
use crate::recognizer::{
    handled, physically_pressed, pressed, ticked, Button, PointerEvent, Reaction, Recognizer,
};

verus! {

/// One input to the recognizer, with the time at which it arrives.
#[derive(Clone, Copy, Debug, PartialEq, Eq, Structural)]
pub enum Stimulus {
    Pointer { event: PointerEvent, at: u64 },
    Physical { at: u64 },
    Poll { at: u64, wait: u64 },
}

/// Effect of one stimulus: the next recognizer, the clicks it asks for and
/// the watchdogs it asks to start.
pub open spec fn step(r: Recognizer, s: Stimulus) -> (Recognizer, nat, nat) {
    match s {
        Stimulus::Pointer { event, at } => {
            let (next, reaction) = handled(r, event, at);
            (
                next,
                if reaction is SynthesizeClick { 1nat } else { 0nat },
                if reaction is SpawnWatchdog { 1nat } else { 0nat },
            )
        },
        Stimulus::Physical { at } => (physically_pressed(r, at), 0, 0),
        Stimulus::Poll { at, wait } => (ticked(r, at, wait).0, 0, 0),
    }
}

/// Effect of a sequence of stimuli: the final recognizer, the clicks asked
/// for and the watchdogs started, in total.
pub open spec fn run(r: Recognizer, ss: Seq<Stimulus>) -> (Recognizer, nat, nat)
    decreases ss.len(),
{
    if ss.len() == 0 {
        (r, 0, 0)
    } else {
        let (mid, clicks, spawns) = run(r, ss.drop_last());
        let (next, c, w) = step(mid, ss.last());
        (next, clicks + c, spawns + w)
    }
}

/// A left press, which starts a new gesture.
pub open spec fn starts_gesture(s: Stimulus) -> bool {
    s matches Stimulus::Pointer { event: PointerEvent::ButtonPress(Button::Left), .. }
}

/// No gesture pending and no confirmation left to consume.
pub open spec fn quiet(r: Recognizer) -> bool {
    !r.state.confirmed && r.state.candidate_start is None
}

/// Effect of a sequence of pointer moves on the gesture state.
pub open spec fn moves(s: GestureState, ps: Seq<Point>) -> GestureState
    decreases ps.len(),
{
    if ps.len() == 0 {
        s
    } else {
        moved(moves(s, ps.drop_last()), ps.last())
    }
}

/// Largest Manhattan distance from `base` to a position of `ps`; zero for none.
pub open spec fn max_distance(base: Point, ps: Seq<Point>) -> int
    decreases ps.len(),
{
    if ps.len() == 0 {
        0
    } else {
        let rest = max_distance(base, ps.drop_last());
        let d = manhattan(base, ps.last());
        if rest < d { d } else { rest }
    }
}

proof fn lemma_step_clicks_then_quiet(r: Recognizer, s: Stimulus)
    requires
        !starts_gesture(s),
    ensures
        step(r, s).1 <= 1,
        step(r, s).1 == 1 ==> quiet(step(r, s).0),
        quiet(r) ==> step(r, s).1 == 0 && quiet(step(r, s).0),
{
}

/// Between two left presses at most one click is synthesized: whatever
/// moves, releases, physical presses and polls arrive, a gesture yields zero
/// or one click, and once it has yielded one nothing is left to yield another.
pub proof fn lemma_at_most_one_click_per_gesture(r: Recognizer, ss: Seq<Stimulus>)
    requires
        forall|i: int| 0 <= i < ss.len() ==> !starts_gesture(#[trigger] ss[i]),
    ensures
        run(r, ss).1 <= 1,
        run(r, ss).1 == 1 ==> quiet(run(r, ss).0),
    decreases ss.len(),
{
    if ss.len() > 0 {
        let prefix = ss.drop_last();
        assert forall|i: int| 0 <= i < prefix.len() implies !starts_gesture(#[trigger] prefix[i]) by {
            assert(prefix[i] == ss[i]);
        }
        lemma_at_most_one_click_per_gesture(r, prefix);
        assert(!starts_gesture(ss[ss.len() - 1]));
        lemma_step_clicks_then_quiet(run(r, prefix).0, ss.last());
    }
}

/// While a watchdog is live and no poll has ended it, further presses start
/// no other watchdog: at most one is live at any time.
pub proof fn lemma_single_watchdog(r: Recognizer, ss: Seq<Stimulus>)
    requires
        r.watchdog_active,
        forall|i: int| 0 <= i < ss.len() ==> !(#[trigger] ss[i] is Poll),
    ensures
        run(r, ss).2 == 0,
        run(r, ss).0.watchdog_active,
    decreases ss.len(),
{
    if ss.len() > 0 {
        let prefix = ss.drop_last();
        assert forall|i: int| 0 <= i < prefix.len() implies !(#[trigger] prefix[i] is Poll) by {
            assert(prefix[i] == ss[i]);
        }
        lemma_single_watchdog(r, prefix);
        assert(!(ss[ss.len() - 1] is Poll));
    }
}

/// A second left press before the first is resolved changes nothing and
/// starts no watchdog.
pub proof fn lemma_second_press_is_ignored(r: Recognizer, first: u64, second: u64)
    ensures
        pressed(pressed(r, first).0, second) == (pressed(r, first).0, Reaction::Nothing),
{
}

/// Pointer moves never lower the recorded displacement.
pub proof fn lemma_displacement_never_decreases(s: GestureState, ps: Seq<Point>)
    ensures
        forall|k: int|
            0 <= k < ps.len() ==> #[trigger] moves(s, ps.take(k)).max_displacement
                <= moves(s, ps.take(k + 1)).max_displacement,
{
    assert forall|k: int| 0 <= k < ps.len() implies #[trigger] moves(
        s,
        ps.take(k),
    ).max_displacement <= moves(s, ps.take(k + 1)).max_displacement by {
        assert(ps.take(k + 1).drop_last() =~= ps.take(k));
    }
}

/// Within one gesture, after the moves `ps` the first of them is the baseline
/// and the recorded displacement is the largest Manhattan distance from it to
/// any of them.
pub proof fn lemma_displacement_is_maximum(s: GestureState, ps: Seq<Point>)
    requires
        s.candidate_start is Some,
        s.last_position is None,
        s.max_displacement == 0,
        ps.len() > 0,
    ensures
        moves(s, ps).last_position == Some(ps[0]),
        moves(s, ps).max_displacement == max_distance(ps[0], ps),
        moves(s, ps).candidate_start == s.candidate_start,
    decreases ps.len(),
{
    if ps.len() == 1 {
        assert(ps.drop_last() =~= Seq::<Point>::empty());
        assert(max_distance(ps[0], ps.drop_last()) == 0);
    } else {
        let prefix = ps.drop_last();
        lemma_displacement_is_maximum(s, prefix);
        assert(prefix[0] == ps[0]);
    }
}

} // verus!
