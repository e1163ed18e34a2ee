//! The replay engine: the lamp pulses that present the live prefix of the
//! hidden sequence, with on-times that shorten as the speed factor grows.

use vstd::prelude::*;
use crate::actions::Action;
use crate::actions::wf_actions;
use crate::actions::wf_action;
use crate::LED_DURATION_MS;
use crate::MAX_LEVELS;

verus! {

/// Milliseconds a replay pulse stays lit: `LED_DURATION_MS` divided by
/// `1 + (speed / MAX_LEVELS) * (level - 1)` under integer division, and
/// never below one millisecond.
pub open spec fn on_time(speed: int, level: int) -> int {
    let d = 1 + (speed / (MAX_LEVELS as int)) * (level - 1);
    if (LED_DURATION_MS as int) / d == 0 {
        1
    } else {
        (LED_DURATION_MS as int) / d
    }
}

/// Milliseconds of dark gap after a replay pulse: `100 / speed` under
/// integer division.
pub open spec fn off_time(speed: int) -> int {
    100int / speed
}

/// The on-time of a replay pulse at the given speed factor and level.
pub fn led_on_ms(speed: u32, level: usize) -> (r: u16)
    requires
        5 <= speed,
        1 <= level <= MAX_LEVELS,
    ensures
        r as int == on_time(speed as int, level as int),
        1 <= r <= LED_DURATION_MS,
{
    let tier = speed / (MAX_LEVELS as u32);
    let lvl = (level - 1) as u32;
    proof {
        assert(tier <= u32::MAX as int / 10);
        assert(tier * lvl <= 429496729 * 9) by (nonlinear_arith)
            requires
                tier <= 429496729,
                lvl <= 9,
        ;
    }
    let d = 1 + tier * lvl;
    let q = (LED_DURATION_MS as u32) / d;
    if q == 0 {
        1
    } else {
        q as u16
    }
}

/// The off-gap after a replay pulse at the given speed factor.
pub fn led_off_ms(speed: u32) -> (r: u16)
    requires
        5 <= speed,
    ensures
        r as int == off_time(speed as int),
        r <= 20,
{
    let q = 100 / speed;
    proof {
        assert(100int / (speed as int) <= 100int / 5) by (nonlinear_arith)
            requires
                5 <= speed,
        ;
    }
    q as u16
}

/// The pulses replaying the first `n` entries of `s`, oldest first: each
/// entry's lamp lit for `on_ms`, then dark for `off_ms`.
pub open spec fn pulse_events(s: Seq<u8>, n: nat, on_ms: u16, off_ms: u16) -> Seq<Action>
    decreases n,
{
    if n == 0 {
        Seq::<Action>::empty()
    } else {
        pulse_events(s, (n - 1) as nat, on_ms, off_ms) + seq![
            Action::LampOn(s[n - 1]),
            Action::Sleep(on_ms),
            Action::LampOff(s[n - 1]),
            Action::Sleep(off_ms),
        ]
    }
}

/// The full replay of the first `level` entries of `s`: a 200 ms all-dark
/// pre-roll, then one pulse per entry under `on_time` and `off_time`.
pub open spec fn replay_events(s: Seq<u8>, level: nat, speed: int) -> Seq<Action> {
    seq![Action::Sleep(200)] + pulse_events(
        s,
        level,
        on_time(speed, level as int) as u16,
        off_time(speed) as u16,
    )
}

/// Build the replay of the first `level` entries of `signals` as actions.
pub fn replay_actions(signals: &Vec<u8>, level: usize, speed: u32) -> (r: Vec<Action>)
    requires
        5 <= speed,
        1 <= level <= signals@.len(),
        level <= MAX_LEVELS,
    ensures
        r@ == replay_events(signals@, level as nat, speed as int),
{
    let on_ms = led_on_ms(speed, level);
    let off_ms = led_off_ms(speed);
    let mut r: Vec<Action> = Vec::new();
    r.push(Action::Sleep(200));
    proof {
        assert(r@ =~= seq![Action::Sleep(200)] + pulse_events(signals@, 0, on_ms, off_ms));
    }
    let mut i: usize = 0;
    while i < level
        invariant
            i <= level <= signals@.len(),
            r@ == seq![Action::Sleep(200)] + pulse_events(signals@, i as nat, on_ms, off_ms),
        decreases level - i,
    {
        r.push(Action::LampOn(signals[i]));
        r.push(Action::Sleep(on_ms));
        r.push(Action::LampOff(signals[i]));
        r.push(Action::Sleep(off_ms));
        i += 1;
        proof {
            assert(r@ =~= seq![Action::Sleep(200)] + pulse_events(signals@, i as nat, on_ms, off_ms));
        }
    }
    r
}

proof fn lemma_pulse_events_shape(s: Seq<u8>, n: nat, on_ms: u16, off_ms: u16)
    ensures
        pulse_events(s, n, on_ms, off_ms).len() == 4 * n,
        forall|k: int|
            0 <= k < n ==> {
                &&& pulse_events(s, n, on_ms, off_ms)[4 * k] == Action::LampOn(s[k])
                &&& pulse_events(s, n, on_ms, off_ms)[4 * k + 1] == Action::Sleep(on_ms)
                &&& pulse_events(s, n, on_ms, off_ms)[4 * k + 2] == Action::LampOff(s[k])
                &&& pulse_events(s, n, on_ms, off_ms)[4 * k + 3] == Action::Sleep(off_ms)
            },
    decreases n,
{
    if n > 0 {
        lemma_pulse_events_shape(s, (n - 1) as nat, on_ms, off_ms);
        let head = pulse_events(s, (n - 1) as nat, on_ms, off_ms);
        let whole = pulse_events(s, n, on_ms, off_ms);
        assert forall|k: int| 0 <= k < n implies {
            &&& whole[4 * k] == Action::LampOn(s[k])
            &&& whole[4 * k + 1] == Action::Sleep(on_ms)
            &&& whole[4 * k + 2] == Action::LampOff(s[k])
            &&& whole[4 * k + 3] == Action::Sleep(off_ms)
        } by {
            if k < n - 1 {
                assert(whole[4 * k] == head[4 * k]);
                assert(whole[4 * k + 1] == head[4 * k + 1]);
                assert(whole[4 * k + 2] == head[4 * k + 2]);
                assert(whole[4 * k + 3] == head[4 * k + 3]);
            }
        }
    }
}

/// Law: a replay presents exactly the live prefix, in order: after the
/// single 200 ms pre-roll, pulse `k` lights lamp `s[k]` for the on-time,
/// clears it, and waits the off-gap — and nothing else is emitted.
pub proof fn lemma_replay_events_shape(s: Seq<u8>, level: nat, speed: int)
    requires
        level <= s.len(),
    ensures
        replay_events(s, level, speed).len() == 1 + 4 * level,
        replay_events(s, level, speed)[0] == Action::Sleep(200),
        forall|k: int|
            0 <= k < level ==> {
                &&& replay_events(s, level, speed)[4 * k + 1] == Action::LampOn(s[k])
                &&& replay_events(s, level, speed)[4 * k + 2] == Action::Sleep(
                    on_time(speed, level as int) as u16,
                )
                &&& replay_events(s, level, speed)[4 * k + 3] == Action::LampOff(s[k])
                &&& replay_events(s, level, speed)[4 * k + 4] == Action::Sleep(
                    off_time(speed) as u16,
                )
            },
{
    let on_ms = on_time(speed, level as int) as u16;
    let off_ms = off_time(speed) as u16;
    lemma_pulse_events_shape(s, level, on_ms, off_ms);
    let pulses = pulse_events(s, level, on_ms, off_ms);
    let pre = seq![Action::Sleep(200u16)];
    let whole = replay_events(s, level, speed);
    assert(whole == pre + pulses);
    assert forall|k: int| 0 <= k < level implies {
        &&& whole[4 * k + 1] == Action::LampOn(s[k])
        &&& whole[4 * k + 2] == Action::Sleep(on_ms)
        &&& whole[4 * k + 3] == Action::LampOff(s[k])
        &&& whole[4 * k + 4] == Action::Sleep(off_ms)
    } by {
        assert((pre + pulses)[4 * k + 1] == pulses[4 * k]);
        assert((pre + pulses)[4 * k + 2] == pulses[4 * k + 1]);
        assert((pre + pulses)[4 * k + 3] == pulses[4 * k + 2]);
        assert((pre + pulses)[4 * k + 4] == pulses[4 * k + 3]);
    }
}

/// The pulses of a replay address only the four lamps whenever the entries
/// they present do.
pub proof fn lemma_pulse_events_wf(s: Seq<u8>, n: nat, on_ms: u16, off_ms: u16)
    requires
        n <= s.len(),
        forall|k: int| 0 <= k < s.len() ==> s[k] < 4,
    ensures
        wf_actions(pulse_events(s, n, on_ms, off_ms)),
    decreases n,
{
    if n == 0 {
    } else {
        lemma_pulse_events_wf(s, (n - 1) as nat, on_ms, off_ms);
        let head = pulse_events(s, (n - 1) as nat, on_ms, off_ms);
        let whole = pulse_events(s, n, on_ms, off_ms);
        assert(s[n - 1] < 4);
        assert forall|k: int| 0 <= k < whole.len() implies wf_action(whole[k]) by {
            if k < head.len() {
                assert(whole[k] == head[k]);
            }
        }
    }
}

/// A whole replay addresses only the four lamps whenever the sequence it
/// presents holds only lamp indices.
pub proof fn lemma_replay_events_wf(s: Seq<u8>, level: nat, speed: int)
    requires
        level <= s.len(),
        forall|k: int| 0 <= k < s.len() ==> s[k] < 4,
    ensures
        wf_actions(replay_events(s, level, speed)),
{
    let on_ms = on_time(speed, level as int) as u16;
    let off_ms = off_time(speed) as u16;
    lemma_pulse_events_wf(s, level, on_ms, off_ms);
    let pulses = pulse_events(s, level, on_ms, off_ms);
    let whole = replay_events(s, level, speed);
    assert forall|k: int| 0 <= k < whole.len() implies wf_action(whole[k]) by {
        if k >= 1 {
            assert(whole[k] == pulses[k - 1]);
        }
    }
}

} // verus!
