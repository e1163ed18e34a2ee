//! The failure and victory animations as action sequences.

use vstd::prelude::*;
use crate::actions::Action;
use crate::actions::wf_actions;
use crate::LED_DURATION_MS;

verus! {

/// The failure animation: a 300 ms pause, two synchronous all-lamp flashes
/// of `LED_DURATION_MS` separated by a 200 ms pause, then a 500 ms pause.
pub open spec fn failure_events() -> Seq<Action> {
    seq![
        Action::Sleep(300),
        Action::LampOn(0),
        Action::LampOn(1),
        Action::LampOn(2),
        Action::LampOn(3),
        Action::Sleep(LED_DURATION_MS),
        Action::LampOff(0),
        Action::LampOff(1),
        Action::LampOff(2),
        Action::LampOff(3),
        Action::Sleep(200),
        Action::LampOn(0),
        Action::LampOn(1),
        Action::LampOn(2),
        Action::LampOn(3),
        Action::Sleep(LED_DURATION_MS),
        Action::LampOff(0),
        Action::LampOff(1),
        Action::LampOff(2),
        Action::LampOff(3),
        Action::Sleep(500),
    ]
}

/// The victory animation: a 300 ms pause, a rising chase that leaves the
/// lamps accumulating on at 200 ms per step, the same chase dropping them
/// off in order, then a 500 ms pause.
pub open spec fn victory_events() -> Seq<Action> {
    seq![
        Action::Sleep(300),
        Action::LampOn(0),
        Action::Sleep(200),
        Action::LampOn(1),
        Action::Sleep(200),
        Action::LampOn(2),
        Action::Sleep(200),
        Action::LampOn(3),
        Action::Sleep(200),
        Action::LampOff(0),
        Action::Sleep(200),
        Action::LampOff(1),
        Action::Sleep(200),
        Action::LampOff(2),
        Action::Sleep(200),
        Action::LampOff(3),
        Action::Sleep(200),
        Action::Sleep(500),
    ]
}

/// Build the failure animation.
pub fn failure_animation() -> (r: Vec<Action>)
    ensures
        r@ == failure_events(),
{
    let mut r: Vec<Action> = Vec::new();
    r.push(Action::Sleep(300));
    r.push(Action::LampOn(0));
    r.push(Action::LampOn(1));
    r.push(Action::LampOn(2));
    r.push(Action::LampOn(3));
    r.push(Action::Sleep(LED_DURATION_MS));
    r.push(Action::LampOff(0));
    r.push(Action::LampOff(1));
    r.push(Action::LampOff(2));
    r.push(Action::LampOff(3));
    r.push(Action::Sleep(200));
    r.push(Action::LampOn(0));
    r.push(Action::LampOn(1));
    r.push(Action::LampOn(2));
    r.push(Action::LampOn(3));
    r.push(Action::Sleep(LED_DURATION_MS));
    r.push(Action::LampOff(0));
    r.push(Action::LampOff(1));
    r.push(Action::LampOff(2));
    r.push(Action::LampOff(3));
    r.push(Action::Sleep(500));
    proof {
        assert(r@ =~= failure_events());
    }
    r
}

/// Build the victory animation.
pub fn victory_animation() -> (r: Vec<Action>)
    ensures
        r@ == victory_events(),
{
    let mut r: Vec<Action> = Vec::new();
    r.push(Action::Sleep(300));
    r.push(Action::LampOn(0));
    r.push(Action::Sleep(200));
    r.push(Action::LampOn(1));
    r.push(Action::Sleep(200));
    r.push(Action::LampOn(2));
    r.push(Action::Sleep(200));
    r.push(Action::LampOn(3));
    r.push(Action::Sleep(200));
    r.push(Action::LampOff(0));
    r.push(Action::Sleep(200));
    r.push(Action::LampOff(1));
    r.push(Action::Sleep(200));
    r.push(Action::LampOff(2));
    r.push(Action::Sleep(200));
    r.push(Action::LampOff(3));
    r.push(Action::Sleep(200));
    r.push(Action::Sleep(500));
    proof {
        assert(r@ =~= victory_events());
    }
    r
}

/// The failure animation addresses only the four lamps.
pub proof fn lemma_failure_events_wf()
    ensures
        wf_actions(failure_events()),
{
}

/// The victory animation addresses only the four lamps.
pub proof fn lemma_victory_events_wf()
    ensures
        wf_actions(victory_events()),
{
}

} // verus!
