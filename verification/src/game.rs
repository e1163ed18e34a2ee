//! The round controller: the explicit state machine over the round
//! lifecycle, one verified transition per phase, and the laws it obeys.

use vstd::prelude::*;
use crate::actions::Action;
use crate::animations::failure_animation;
use crate::animations::failure_events;
use crate::animations::victory_animation;
use crate::animations::victory_events;
use crate::input::ack_events;
use crate::input::acknowledge;
use crate::input::any_pressed;
use crate::input::chosen_of;
use crate::replay::replay_actions;
use crate::replay::replay_events;
use crate::rng::drawn_prefix;
use crate::rng::prng_after;
use crate::rng::rand32_seeded;
use crate::rng::draw_signals;
use crate::rng::prng_seed;
use crate::rng::Prng;
use crate::MAX_LEVELS;

verus! {

/// Where the round controller stands.
#[derive(Clone, Copy, Debug, PartialEq, Eq, Structural)]
pub enum Phase {
    GeneratingSequence,
    ReplayingSequence,
    AwaitingInput,
    Judging,
    Succeeded,
    Failed,
    Won,
}

/// The game state as the contracts see it: the hidden sequence and the live
/// input prefix as sequences, the counters as unbounded integers, the PRNG
/// as its saved state.
#[verifier::ext_equal]
pub struct GameView {
    pub phase: Phase,
    pub sequence: Seq<u8>,
    pub user_input: Seq<u8>,
    pub signal_index: int,
    pub current_level: int,
    pub speed_factor: int,
    pub prng: (u64, u64),
}

/// The game's invariant: the hidden sequence full-length with entries among
/// the four lamps, the level within `1..=MAX_LEVELS`, the speed factor at
/// least 5, and the live input prefix tracking `signal_index` in the input
/// phases.  A level equal to `MAX_LEVELS` is never played: reaching it wins.
pub open spec fn view_inv(v: GameView) -> bool {
    &&& v.sequence.len() == MAX_LEVELS
    &&& (forall|k: int| 0 <= k < v.sequence.len() ==> v.sequence[k] < 4)
    &&& (forall|k: int| 0 <= k < v.user_input.len() ==> v.user_input[k] < 4)
    &&& 1 <= v.current_level <= MAX_LEVELS
    &&& 5 <= v.speed_factor
    &&& 0 <= v.signal_index
    &&& match v.phase {
        Phase::GeneratingSequence => v.current_level < MAX_LEVELS,
        Phase::ReplayingSequence => v.current_level < MAX_LEVELS,
        Phase::AwaitingInput => v.current_level < MAX_LEVELS
            && v.signal_index < v.current_level && v.user_input.len() == v.signal_index,
        Phase::Judging => v.current_level < MAX_LEVELS && v.signal_index < v.current_level
            && v.user_input.len() == v.signal_index + 1,
        Phase::Succeeded => v.current_level < MAX_LEVELS
            && v.signal_index == v.current_level,
        Phase::Failed => true,
        Phase::Won => v.current_level == MAX_LEVELS,
    }
}

/// The state a fresh boot stands in, given the seeded PRNG state: level 1,
/// speed factor 5, an all-dark sequence about to be overwritten.
pub open spec fn initial_view(p: (u64, u64)) -> GameView {
    GameView {
        phase: Phase::GeneratingSequence,
        sequence: Seq::new(MAX_LEVELS as nat, |k: int| 0u8),
        user_input: Seq::<u8>::empty(),
        signal_index: 0,
        current_level: 1,
        speed_factor: 5,
        prng: p,
    }
}

/// GeneratingSequence: every slot is redrawn from the PRNG, which advances
/// by `MAX_LEVELS` draws; the replay follows.
pub open spec fn spec_generate(v: GameView) -> GameView {
    GameView {
        phase: Phase::ReplayingSequence,
        sequence: drawn_prefix(v.prng.0, v.prng.1, MAX_LEVELS as nat),
        prng: prng_after(v.prng.0, v.prng.1, MAX_LEVELS as nat),
        ..v
    }
}

/// ReplayingSequence: control passes to the player with the first input
/// slot open and the reproduction so far empty.
pub open spec fn spec_replay(v: GameView) -> GameView {
    GameView {
        phase: Phase::AwaitingInput,
        signal_index: 0,
        user_input: Seq::<u8>::empty(),
        ..v
    }
}

/// AwaitingInput: the chosen index is stored at the live slot and judged.
pub open spec fn spec_input(v: GameView, choice: u8) -> GameView {
    GameView { phase: Phase::Judging, user_input: v.user_input.push(choice), ..v }
}

/// Judging: the stored press is compared with the hidden entry at the same
/// slot.  A match advances the slot and, at the end of the prefix, succeeds
/// the round; a mismatch fails it.
pub open spec fn spec_judge(v: GameView) -> GameView {
    if v.user_input[v.signal_index] == v.sequence[v.signal_index] {
        if v.signal_index + 1 < v.current_level {
            GameView { phase: Phase::AwaitingInput, signal_index: v.signal_index + 1, ..v }
        } else {
            GameView { phase: Phase::Succeeded, signal_index: v.signal_index + 1, ..v }
        }
    } else {
        GameView { phase: Phase::Failed, ..v }
    }
}

/// Succeeded: the prefix grows by one over the same hidden sequence;
/// reaching `MAX_LEVELS` wins the game.
pub open spec fn spec_succeeded(v: GameView) -> GameView {
    if v.current_level + 1 == MAX_LEVELS {
        GameView { phase: Phase::Won, current_level: v.current_level + 1, ..v }
    } else {
        GameView { phase: Phase::ReplayingSequence, current_level: v.current_level + 1, ..v }
    }
}

/// Failed: back to level 1; the next generation redraws the sequence.
pub open spec fn spec_failed(v: GameView) -> GameView {
    GameView { phase: Phase::GeneratingSequence, current_level: 1, ..v }
}

/// Won: back to level 1 with the speed factor raised once; the next
/// generation redraws the sequence.
pub open spec fn spec_won(v: GameView) -> GameView {
    GameView {
        phase: Phase::GeneratingSequence,
        current_level: 1,
        speed_factor: v.speed_factor + 1,
        ..v
    }
}

/// The game state a shell drives: the hidden sequence, the player's live
/// reproduction, the two counters, and the saved PRNG state.
pub struct Game {
    pub phase: Phase,
    pub sequence: Vec<u8>,
    pub user_input: Vec<u8>,
    pub signal_index: usize,
    pub current_level: usize,
    pub speed_factor: u32,
    pub prng: Prng,
}

impl View for Game {
    type V = GameView;

    open spec fn view(&self) -> GameView {
        GameView {
            phase: self.phase,
            sequence: self.sequence@,
            user_input: self.user_input@,
            signal_index: self.signal_index as int,
            current_level: self.current_level as int,
            speed_factor: self.speed_factor as int,
            prng: (self.prng.s0, self.prng.s1),
        }
    }
}

impl Game {
    /// The invariant every transition preserves.
    pub open spec fn inv(self) -> bool {
        view_inv(self@)
    }

    /// Boot: seed the PRNG once from the given entropy word and stand at
    /// sequence generation with level 1 and speed factor 5.
    pub fn new(seed: u64) -> (g: Game)
        ensures
            g@ == initial_view(rand32_seeded(seed)),
            g.inv(),
    {
        let prng = prng_seed(seed);
        let mut sequence: Vec<u8> = Vec::new();
        let mut i: usize = 0;
        while i < MAX_LEVELS
            invariant
                i <= MAX_LEVELS,
                sequence@ =~= Seq::new(i as nat, |k: int| 0u8),
            decreases MAX_LEVELS - i,
        {
            sequence.push(0);
            i += 1;
            proof {
                assert(sequence@ =~= Seq::new(i as nat, |k: int| 0u8));
            }
        }
        let g = Game {
            phase: Phase::GeneratingSequence,
            sequence,
            user_input: Vec::new(),
            signal_index: 0,
            current_level: 1,
            speed_factor: 5,
            prng,
        };
        proof {
            assert(g@ =~= initial_view(rand32_seeded(seed)));
        }
        g
    }

    /// GeneratingSequence → ReplayingSequence: redraw the whole hidden
    /// sequence from the PRNG.  Only the live prefix will be shown; the
    /// tail is harmless and regenerating it keeps the draws per round
    /// fixed.
    pub fn step_generate(&mut self)
        requires
            old(self).inv(),
            old(self).phase == Phase::GeneratingSequence,
        ensures
            final(self)@ == spec_generate(old(self)@),
            final(self).inv(),
    {
        let signals = draw_signals(&mut self.prng, MAX_LEVELS);
        self.sequence = signals;
        self.phase = Phase::ReplayingSequence;
        proof {
            assert(self@ =~= spec_generate(old(self)@));
        }
    }

    /// ReplayingSequence → AwaitingInput: emit the replay of the live
    /// prefix and open the first input slot with the reproduction cleared.
    pub fn step_replay(&mut self) -> (acts: Vec<Action>)
        requires
            old(self).inv(),
            old(self).phase == Phase::ReplayingSequence,
        ensures
            final(self)@ == spec_replay(old(self)@),
            final(self).inv(),
            acts@ == replay_events(
                old(self)@.sequence,
                old(self)@.current_level as nat,
                old(self)@.speed_factor as int,
            ),
    {
        let acts = replay_actions(&self.sequence, self.current_level, self.speed_factor);
        self.signal_index = 0;
        self.user_input = Vec::new();
        self.phase = Phase::AwaitingInput;
        proof {
            assert(self@ =~= spec_replay(old(self)@));
        }
        acts
    }

    /// AwaitingInput → Judging: acknowledge every pressed button of the
    /// snapshot with a full pulse, ascending, and store the reported choice
    /// in the live slot.
    pub fn step_input(&mut self, snap: &[bool; 4]) -> (acts: Vec<Action>)
        requires
            old(self).inv(),
            old(self).phase == Phase::AwaitingInput,
            any_pressed(snap@),
        ensures
            final(self)@ == spec_input(old(self)@, chosen_of(snap@, 4) as u8),
            final(self).inv(),
            acts@ == ack_events(snap@, 4),
    {
        let (acts, choice) = acknowledge(snap);
        self.user_input.push(choice);
        self.phase = Phase::Judging;
        proof {
            assert(self@ =~= spec_input(old(self)@, chosen_of(snap@, 4) as u8));
        }
        acts
    }

    /// Judging → AwaitingInput, Succeeded or Failed: compare the stored
    /// press with the hidden entry at the live slot.
    pub fn step_judge(&mut self)
        requires
            old(self).inv(),
            old(self).phase == Phase::Judging,
        ensures
            final(self)@ == spec_judge(old(self)@),
            final(self).inv(),
    {
        let i = self.signal_index;
        if self.user_input[i] == self.sequence[i] {
            self.signal_index = i + 1;
            if self.signal_index < self.current_level {
                self.phase = Phase::AwaitingInput;
            } else {
                self.phase = Phase::Succeeded;
            }
        } else {
            self.phase = Phase::Failed;
        }
        proof {
            assert(self@ =~= spec_judge(old(self)@));
        }
    }

    /// Succeeded → Won or ReplayingSequence: the prefix grows by one over
    /// the unchanged sequence; reaching `MAX_LEVELS` wins.
    pub fn step_succeeded(&mut self)
        requires
            old(self).inv(),
            old(self).phase == Phase::Succeeded,
        ensures
            final(self)@ == spec_succeeded(old(self)@),
            final(self).inv(),
    {
        self.current_level = self.current_level + 1;
        if self.current_level == MAX_LEVELS {
            self.phase = Phase::Won;
        } else {
            self.phase = Phase::ReplayingSequence;
        }
        proof {
            assert(self@ =~= spec_succeeded(old(self)@));
        }
    }

    /// Failed → GeneratingSequence: emit the failure animation and fall
    /// back to level 1; the next generation draws a fresh sequence.
    pub fn step_failed(&mut self) -> (acts: Vec<Action>)
        requires
            old(self).inv(),
            old(self).phase == Phase::Failed,
        ensures
            final(self)@ == spec_failed(old(self)@),
            final(self).inv(),
            acts@ == failure_events(),
    {
        self.current_level = 1;
        self.phase = Phase::GeneratingSequence;
        let acts = failure_animation();
        proof {
            assert(self@ =~= spec_failed(old(self)@));
        }
        acts
    }

    /// Won → GeneratingSequence: emit the victory animation, fall back to
    /// level 1 and raise the speed factor once.  The bound on the speed
    /// factor is a machine limit: it grows by one per full game.
    pub fn step_won(&mut self) -> (acts: Vec<Action>)
        requires
            old(self).inv(),
            old(self).phase == Phase::Won,
            old(self).speed_factor < u32::MAX,
        ensures
            final(self)@ == spec_won(old(self)@),
            final(self).inv(),
            acts@ == victory_events(),
    {
        self.current_level = 1;
        self.speed_factor = self.speed_factor + 1;
        self.phase = Phase::GeneratingSequence;
        let acts = victory_animation();
        proof {
            assert(self@ =~= spec_won(old(self)@));
        }
        acts
    }
}

/// One press handled in full: the choice stored, then judged.
pub open spec fn apply_press(v: GameView, choice: u8) -> GameView {
    spec_judge(spec_input(v, choice))
}

/// A run of presses handled in order, oldest first.
pub open spec fn apply_presses(v: GameView, presses: Seq<u8>) -> GameView
    decreases presses.len(),
{
    if presses.len() == 0 {
        v
    } else {
        apply_presses(apply_press(v, presses[0]), presses.drop_first())
    }
}

/// Pressing the next `k` hidden entries in order, from a state awaiting
/// input, walks the slot forward by `k` and touches nothing else; filling
/// the whole prefix succeeds the round.
proof fn lemma_correct_presses(v: GameView, k: nat)
    requires
        view_inv(v),
        v.phase == Phase::AwaitingInput,
        1 <= k,
        v.signal_index + k <= v.current_level,
    ensures
        ({
            let w = apply_presses(v, v.sequence.subrange(v.signal_index, v.signal_index + k));
            &&& w.sequence == v.sequence
            &&& w.current_level == v.current_level
            &&& w.speed_factor == v.speed_factor
            &&& w.prng == v.prng
            &&& w.signal_index == v.signal_index + k
            &&& view_inv(w)
            &&& w.phase == if v.signal_index + k < v.current_level {
                Phase::AwaitingInput
            } else {
                Phase::Succeeded
            }
        }),
    decreases k,
{
    let presses = v.sequence.subrange(v.signal_index, v.signal_index + k);
    assert(presses[0] == v.sequence[v.signal_index]);
    let v1 = apply_press(v, presses[0]);
    assert(spec_input(v, presses[0]).user_input[v.signal_index] == presses[0]);
    if k == 1 {
        assert(presses.drop_first().len() == 0);
        assert(apply_presses(v, presses) == v1);
    } else {
        assert(v1.phase == Phase::AwaitingInput);
        lemma_correct_presses(v1, (k - 1) as nat);
        assert(presses.drop_first() =~= v1.sequence.subrange(
            v1.signal_index,
            v1.signal_index + (k - 1),
        ));
        assert(apply_presses(v, presses) == apply_presses(v1, presses.drop_first()));
    }
}

/// Law: a press run equal to the live prefix `sequence[0..current_level]`
/// always succeeds the round and advances the level by exactly one — except
/// from level `MAX_LEVELS - 1`, where finishing the prefix wins the game:
/// the level wraps to 1 and the speed factor rises by one.
pub proof fn lemma_correct_round(v: GameView)
    requires
        view_inv(v),
        v.phase == Phase::AwaitingInput,
        v.signal_index == 0,
    ensures
        ({
            let w = apply_presses(v, v.sequence.subrange(0, v.current_level));
            &&& w.phase == Phase::Succeeded
            &&& (v.current_level < MAX_LEVELS - 1 ==> {
                let x = spec_succeeded(w);
                &&& x.phase == Phase::ReplayingSequence
                &&& x.current_level == v.current_level + 1
                &&& x.speed_factor == v.speed_factor
                &&& x.sequence == v.sequence
            })
            &&& (v.current_level == MAX_LEVELS - 1 ==> {
                let x = spec_won(spec_succeeded(w));
                &&& spec_succeeded(w).phase == Phase::Won
                &&& x.current_level == 1
                &&& x.speed_factor == v.speed_factor + 1
            })
        }),
{
    lemma_correct_presses(v, v.current_level as nat);
}

/// Law: any single wrong press collapses the round: judgement fails, the
/// level falls back to 1, and the machine stands at sequence generation,
/// whose next step redraws the whole sequence from the PRNG.
pub proof fn lemma_wrong_press_collapses(v: GameView, choice: u8)
    requires
        view_inv(v),
        v.phase == Phase::AwaitingInput,
        choice != v.sequence[v.signal_index],
    ensures
        apply_press(v, choice).phase == Phase::Failed,
        ({
            let w = spec_failed(apply_press(v, choice));
            &&& w.current_level == 1
            &&& w.phase == Phase::GeneratingSequence
            &&& spec_generate(w).sequence == drawn_prefix(v.prng.0, v.prng.1, MAX_LEVELS as nat)
        }),
{
    assert(spec_input(v, choice).user_input[v.signal_index] == choice);
}

/// Law: no transition lowers the speed factor; winning is the only one
/// that changes it, and it raises it by exactly one.
pub proof fn lemma_speed_factor_monotonic(v: GameView, choice: u8)
    ensures
        spec_generate(v).speed_factor == v.speed_factor,
        spec_replay(v).speed_factor == v.speed_factor,
        spec_input(v, choice).speed_factor == v.speed_factor,
        spec_judge(v).speed_factor == v.speed_factor,
        spec_succeeded(v).speed_factor == v.speed_factor,
        spec_failed(v).speed_factor == v.speed_factor,
        spec_won(v).speed_factor == v.speed_factor + 1,
{
}

/// Law: sequence generation is deterministic in the PRNG state: two games
/// whose generators agree draw the same sequence and leave their
/// generators equal again.  With `Game::new`, equal seeds give equal
/// generators, so equal seeds give identical sequences across runs.
pub proof fn lemma_generation_deterministic(v1: GameView, v2: GameView)
    requires
        v1.prng == v2.prng,
    ensures
        spec_generate(v1).sequence == spec_generate(v2).sequence,
        spec_generate(v1).prng == spec_generate(v2).prng,
{
}

} // verus!
