//! The protocol-wide guarantees, stated and proved over the spec-level
//! relations that the executable contracts use.

use vstd::prelude::*;
use crate::session::{counter_step, windows_are};
use crate::windows::{
    WindowConfig, labels, spec_identity, lemma_generations_disjoint, lemma_labels_distinct,
};

verus! {

proof fn lemma_state_at(states: Seq<nat>, obs: Seq<nat>, k: int)
    requires
        states.len() == obs.len() + 1,
        states[0] == 0,
        forall|j: int| 0 <= j < obs.len() ==> counter_step(states[j], obs[j], states[j + 1]),
        0 <= k < states.len(),
    ensures
        states[k] == k,
    decreases k,
{
    if k > 0 {
        lemma_state_at(states, obs, k - 1);
        assert(counter_step(states[k - 1], obs[k - 1], states[k]));
    }
}

/// Law: over any run of sequential reopen commands starting from counter
/// value 0, the k-th command (1-indexed) observes the counter value k,
/// and no two commands observe the same value.
pub proof fn lemma_counter_observations(states: Seq<nat>, obs: Seq<nat>)
    requires
        states.len() == obs.len() + 1,
        states[0] == 0,
        forall|j: int| 0 <= j < obs.len() ==> counter_step(states[j], obs[j], states[j + 1]),
    ensures
        forall|k: int| 0 <= k < obs.len() ==> obs[k] == k + 1,
        forall|i: int, j: int| 0 <= i < j < obs.len() ==> obs[i] != obs[j],
{
    assert forall|k: int| 0 <= k < obs.len() implies obs[k] == k + 1 by {
        lemma_state_at(states, obs, k);
        assert(counter_step(states[k], obs[k], states[k + 1]));
    }
}

/// Law: after a reopen that observed generation `g`, the open windows are
/// exactly the six of generation `g`, with pairwise distinct identities,
/// and no identity of any other (in particular, any prior) generation is
/// among them.
pub proof fn lemma_generation_exclusive(ws: Seq<WindowConfig>, g: nat, prior: nat, label: char)
    requires
        windows_are(ws, g, 6),
        prior != g,
    ensures
        ws.len() == 6,
        forall|i: int, j: int|
            0 <= i < j < 6 ==> ws[i].identity@ != ws[j].identity@,
        forall|i: int| 0 <= i < 6 ==> ws[i].identity@ != spec_identity(prior, label),
{
    assert forall|i: int, j: int|
        0 <= i < j < 6 implies ws[i].identity@ != ws[j].identity@ by {
        lemma_labels_distinct(g, labels()[i], labels()[j]);
    }
    assert forall|i: int| 0 <= i < 6 implies ws[i].identity@ != spec_identity(prior, label) by {
        lemma_generations_disjoint(g, labels()[i], prior, label);
    }
}

} // verus!
