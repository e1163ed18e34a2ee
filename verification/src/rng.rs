//! The pseudo-random sequence source.  The generator is oorandom's 32-bit
//! PCG; the library holds only its saved state, two plain words, so every
//! draw is a function of values the contracts can speak about.

use vstd::prelude::*;

verus! {

/// The saved state of the 32-bit PRNG: the pair `oorandom::Rand32::state`
/// returns, from which the generator can be resumed.
#[derive(Clone, Copy, Debug, PartialEq, Eq, Structural)]
pub struct Prng {
    pub s0: u64,
    pub s1: u64,
}

/// The saved state that seeding the generator with `seed` produces.
pub uninterp spec fn rand32_seeded(seed: u64) -> (u64, u64);

/// The draw over the range `0..4` made from the saved state `(s0, s1)`,
/// with the state left behind: the first component is the drawn value, the
/// other two the new state.
pub uninterp spec fn rand32_draw_mod4(s0: u64, s1: u64) -> (u32, u64, u64);

/// Relies on `oorandom::Rand32::new` (with `Rand32::state` to save the
/// result): the initial PCG state is a function of the seed alone.
#[verifier::external_body]
pub(crate) fn prng_seed(seed: u64) -> (r: Prng)
    ensures
        (r.s0, r.s1) == rand32_seeded(seed),
{
    let (s0, s1) = oorandom::Rand32::new(seed).state();
    Prng { s0, s1 }
}

/// Relies on `oorandom::Rand32::rand_range` (with `Rand32::from_state` and
/// `Rand32::state` to resume and save the generator): the draw over `0..4`
/// and the state it leaves are functions of the incoming state alone, and
/// the drawn value lies in the range, below 4.
#[verifier::external_body]
pub(crate) fn prng_draw_mod4(p: &mut Prng) -> (r: u32)
    ensures
        ({
            let (v, n0, n1) = rand32_draw_mod4(old(p).s0, old(p).s1);
            r == v && final(p).s0 == n0 && final(p).s1 == n1
        }),
        r < 4,
{
    let mut rng = oorandom::Rand32::from_state((p.s0, p.s1));
    let v = rng.rand_range(0..4);
    let (s0, s1) = rng.state();
    p.s0 = s0;
    p.s1 = s1;
    v
}

/// The PRNG state after `n` draws from `(s0, s1)`.
pub open spec fn prng_after(s0: u64, s1: u64, n: nat) -> (u64, u64)
    decreases n,
{
    if n == 0 {
        (s0, s1)
    } else {
        let p = prng_after(s0, s1, (n - 1) as nat);
        let (v, n0, n1) = rand32_draw_mod4(p.0, p.1);
        (n0, n1)
    }
}

/// Draw number `k` (counting from 0) from state `(s0, s1)`, reduced into
/// `{0,1,2,3}`.
pub open spec fn draw_at(s0: u64, s1: u64, k: nat) -> u8 {
    let p = prng_after(s0, s1, k);
    let (v, n0, n1) = rand32_draw_mod4(p.0, p.1);
    (v % 4) as u8
}

/// The first `n` draws from state `(s0, s1)`, oldest first.
pub open spec fn drawn_prefix(s0: u64, s1: u64, n: nat) -> Seq<u8> {
    Seq::new(n, |k: int| draw_at(s0, s1, k as nat))
}

/// Draw `n` values in `{0,1,2,3}`, advancing the generator: the result is
/// exactly the next `n` draws of the saved state, and the generator stands
/// after them.
pub fn draw_signals(p: &mut Prng, n: usize) -> (r: Vec<u8>)
    ensures
        r@ == drawn_prefix(old(p).s0, old(p).s1, n as nat),
        (final(p).s0, final(p).s1) == prng_after(old(p).s0, old(p).s1, n as nat),
        forall|k: int| 0 <= k < n ==> r@[k] < 4,
{
    let ghost s0 = p.s0;
    let ghost s1 = p.s1;
    let mut r: Vec<u8> = Vec::new();
    let mut i: usize = 0;
    while i < n
        invariant
            i <= n,
            r@ == drawn_prefix(s0, s1, i as nat),
            (p.s0, p.s1) == prng_after(s0, s1, i as nat),
            forall|k: int| 0 <= k < i ==> r@[k] < 4,
        decreases n - i,
    {
        let v = prng_draw_mod4(p);
        r.push(v as u8);
        i += 1;
        proof {
            assert(r@ =~= drawn_prefix(s0, s1, i as nat));
        }
    }
    r
}

} // verus!
