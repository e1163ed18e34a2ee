//! The input engine: from one sampled snapshot of the four buttons, the
//! acknowledgement pulses and the reported choice.  Waiting for a press is
//! the shell's business; this core is handed a snapshot with at least one
//! button high.

use vstd::prelude::*;
use crate::actions::Action;
use crate::actions::wf_actions;
use crate::actions::wf_action;
use crate::LED_DURATION_MS;

verus! {

/// Does any of the four sampled buttons read pressed?
pub open spec fn any_pressed(snap: Seq<bool>) -> bool {
    exists|i: int| 0 <= i < 4 && snap[i]
}

/// The index the engine reports from the first `n` sampled buttons: the
/// highest pressed one, or -1 when none is pressed.  With several buttons
/// high in one snapshot each is acknowledged in ascending order and the
/// last one wins the tie.
pub open spec fn chosen_of(snap: Seq<bool>, n: nat) -> int
    decreases n,
{
    if n == 0 {
        -1
    } else if snap[n - 1] {
        n - 1
    } else {
        chosen_of(snap, (n - 1) as nat)
    }
}

/// The acknowledgement pulses for the pressed buttons among the first `n`:
/// one full `LED_DURATION_MS` pulse per pressed index, ascending.
pub open spec fn ack_events(snap: Seq<bool>, n: nat) -> Seq<Action>
    decreases n,
{
    if n == 0 {
        Seq::<Action>::empty()
    } else {
        ack_events(snap, (n - 1) as nat) + if snap[n - 1] {
            seq![
                Action::LampOn((n - 1) as u8),
                Action::Sleep(LED_DURATION_MS),
                Action::LampOff((n - 1) as u8),
            ]
        } else {
            Seq::<Action>::empty()
        }
    }
}

/// When some button among the first `n` is pressed, the reported index is
/// one of them.
pub proof fn lemma_chosen_pressed(snap: Seq<bool>, n: nat)
    requires
        exists|i: int| 0 <= i < n && snap[i],
    ensures
        0 <= chosen_of(snap, n) < n,
        snap[chosen_of(snap, n)],
    decreases n,
{
    if snap[n - 1] {
    } else {
        let i = choose|i: int| 0 <= i < n && snap[i];
        assert(0 <= i < n - 1 && snap[i]);
        lemma_chosen_pressed(snap, (n - 1) as nat);
    }
}

/// Scan a snapshot with at least one pressed button: pulse each pressed
/// lamp in ascending order and report the last pressed index as the choice.
pub fn acknowledge(snap: &[bool; 4]) -> (r: (Vec<Action>, u8))
    requires
        any_pressed(snap@),
    ensures
        r.0@ == ack_events(snap@, 4),
        r.1 < 4,
        r.1 as int == chosen_of(snap@, 4),
        snap@[r.1 as int],
{
    let mut acts: Vec<Action> = Vec::new();
    let mut chosen: u8 = 0;
    let mut found = false;
    let mut i: usize = 0;
    while i < 4
        invariant
            i <= 4,
            acts@ == ack_events(snap@, i as nat),
            found == (chosen_of(snap@, i as nat) >= 0),
            found ==> chosen < 4 && chosen as int == chosen_of(snap@, i as nat),
        decreases 4 - i,
    {
        if snap[i] {
            acts.push(Action::LampOn(i as u8));
            acts.push(Action::Sleep(LED_DURATION_MS));
            acts.push(Action::LampOff(i as u8));
            chosen = i as u8;
            found = true;
        }
        i += 1;
        proof {
            assert(acts@ =~= ack_events(snap@, i as nat));
        }
    }
    proof {
        lemma_chosen_pressed(snap@, 4);
    }
    (acts, chosen)
}

/// The acknowledgement pulses address only the four lamps.
pub proof fn lemma_ack_events_wf(snap: Seq<bool>, n: nat)
    requires
        n <= 4,
    ensures
        wf_actions(ack_events(snap, n)),
    decreases n,
{
    if n == 0 {
    } else {
        lemma_ack_events_wf(snap, (n - 1) as nat);
        let head = ack_events(snap, (n - 1) as nat);
        let whole = ack_events(snap, n);
        assert forall|k: int| 0 <= k < whole.len() implies wf_action(whole[k]) by {
            if k < head.len() {
                assert(whole[k] == head[k]);
            }
        }
    }
}

} // verus!
