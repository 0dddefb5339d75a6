use vstd::prelude::*;
use crate::recognizer::Button;
use crate::settings::Settings;

verus! {

/// One step of a synthetic click, as handed to the input injector.
#[derive(Clone, Copy, Debug, PartialEq, Eq, Structural)]
pub enum Injection {
    Press(Button),
    /// Wait this many milliseconds before the next step.
    Pause { ms: u64 },
    Release(Button),
}

/// The steps of one synthetic right click.
pub open spec fn right_click(settle_ms: u64) -> Seq<Injection> {
    seq![
        Injection::Press(Button::Right),
        Injection::Pause { ms: settle_ms },
        Injection::Release(Button::Right),
    ]
}

/// The steps that emit one right click: press, settle delay, release. The
/// caller performs them in order and stops at the first that fails.
pub fn right_click_steps(settings: &Settings) -> (steps: Vec<Injection>)
    ensures
        steps@ == right_click(settings.settle_ms),
{
    let mut steps: Vec<Injection> = Vec::new();
    steps.push(Injection::Press(Button::Right));
    steps.push(Injection::Pause { ms: settings.settle_ms });
    steps.push(Injection::Release(Button::Right));
    assert(steps@ =~= right_click(settings.settle_ms));
    steps
}

} // verus!
