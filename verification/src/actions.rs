//! The observable platform effects, held as values.

use vstd::prelude::*;
use vstd::set_lib::lemma_len_subset;

verus! {

/// One effect on the platform: a lamp driven high, a lamp driven low, or a
/// blocking delay of the given milliseconds.
#[derive(Clone, Copy, Debug, PartialEq, Eq, Structural)]
pub enum Action {
    LampOn(u8),
    LampOff(u8),
    Sleep(u16),
}

/// An action is well formed when any lamp it addresses is one of the four.
pub open spec fn wf_action(a: Action) -> bool {
    match a {
        Action::LampOn(i) => i < 4,
        Action::LampOff(i) => i < 4,
        Action::Sleep(_) => true,
    }
}

/// Every action of the run addresses a real lamp.
pub open spec fn wf_actions(s: Seq<Action>) -> bool {
    forall|k: int| 0 <= k < s.len() ==> wf_action(s[k])
}

/// The set of lamps lit after the actions of `s` have run, starting dark.
pub open spec fn lit_after(s: Seq<Action>) -> Set<int>
    decreases s.len(),
{
    if s.len() == 0 {
        Set::<int>::empty()
    } else {
        let prev = lit_after(s.drop_last());
        match s.last() {
            Action::LampOn(i) => prev.insert(i as int),
            Action::LampOff(i) => prev.remove(i as int),
            Action::Sleep(_) => prev,
        }
    }
}

/// The four lamp indices.
pub open spec fn lamp_indices() -> Set<int> {
    set![0int, 1int, 2int, 3int]
}

proof fn lemma_lamp_indices_len()
    ensures
        lamp_indices().finite(),
        lamp_indices().len() == 4,
{
    let s0 = Set::<int>::empty();
    let s1 = s0.insert(0int);
    let s2 = s1.insert(1int);
    let s3 = s2.insert(2int);
    let s4 = s3.insert(3int);
    assert(s1.len() == 1);
    assert(s2.len() == 2);
    assert(s3.len() == 3);
    assert(s4.len() == 4);
    assert(lamp_indices() =~= s4);
}

/// Law: at every moment of a well-formed run the lit lamps are among the
/// four lamp indices, so at most four are lit.  Applied to a prefix of a
/// run, it bounds the lit set at that point of time.
pub proof fn lemma_lit_lamps_bounded(s: Seq<Action>)
    requires
        wf_actions(s),
    ensures
        lit_after(s).subset_of(lamp_indices()),
        lit_after(s).finite(),
        lit_after(s).len() <= 4,
    decreases s.len(),
{
    if s.len() == 0 {
    } else {
        assert(wf_actions(s.drop_last()));
        lemma_lit_lamps_bounded(s.drop_last());
        assert(wf_action(s[s.len() - 1]));
    }
    lemma_lamp_indices_len();
    lemma_len_subset(lit_after(s), lamp_indices());
}

/// Every prefix of a well-formed run is itself well formed, so the bound of
/// `lemma_lit_lamps_bounded` holds at every moment, not only at the end.
pub proof fn lemma_wf_prefix(s: Seq<Action>, t: int)
    requires
        wf_actions(s),
        0 <= t <= s.len(),
    ensures
        wf_actions(s.subrange(0, t)),
{
}

/// Well-formed runs stay well formed under concatenation, so the whole
/// history a game emits is covered once each emitted piece is.
pub proof fn lemma_wf_concat(a: Seq<Action>, b: Seq<Action>)
    requires
        wf_actions(a),
        wf_actions(b),
    ensures
        wf_actions(a + b),
{
    assert forall|k: int| 0 <= k < (a + b).len() implies wf_action((a + b)[k]) by {
        if k < a.len() {
            assert((a + b)[k] == a[k]);
        } else {
            assert((a + b)[k] == b[k - a.len()]);
        }
    }
}

} // verus!
