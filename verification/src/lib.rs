//! Core of a four-lamp "Simon" memory game: an explicit round state machine,
//! a replay engine whose timing scales with progress, an input engine over
//! sampled button snapshots, and a PRNG-driven sequence store.  Every effect
//! on the platform (a lamp driven high or low, a busy-wait delay) is returned
//! as a value, so the timing and output discipline is stated in contracts;
//! a thin host or firmware shell performs the effects and samples the buttons.

use vstd::prelude::*;

pub mod actions;
pub mod animations;
pub mod game;
pub mod input;
pub mod replay;
pub mod rng;

verus! {

/// Longest prefix a game can reach; also the capacity of the hidden sequence.
pub const MAX_LEVELS: usize = 10;

/// Milliseconds a lamp stays lit for an acknowledgement pulse; also the base
/// on-time of a replay pulse before the speed scaling divides it.
pub const LED_DURATION_MS: u16 = 500;

} // verus!
