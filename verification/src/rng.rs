//! Randomness, reached through trusted wrappers around the `rand` crate.
//!
//! Trials vary their cache footprint by shuffling index permutations and
//! sub-sampling eviction sets; nothing about the verified results depends
//! on which permutation comes out, so the contracts state only what holds
//! of every outcome.

use vstd::prelude::*;
use rand::prelude::SliceRandom;

verus! {

/// Relies on rand's `SliceRandom::shuffle`: permutes the vector in place,
/// so the contents are preserved as a multiset.
#[verifier::external_body]
pub fn shuffle<T>(v: &mut Vec<T>)
    ensures
        final(v)@.to_multiset() == old(v)@.to_multiset(),
        final(v)@.len() == old(v)@.len(),
{
    v.shuffle(&mut rand::thread_rng());
}

/// Relies on rand's `SliceRandom::choose_multiple`: samples `amount`
/// elements without repetition (all of them if the vector is shorter), in
/// random order, so every sampled value occurs in the source.
#[verifier::external_body]
pub fn choose_multiple(v: &Vec<u64>, amount: usize) -> (r: Vec<u64>)
    ensures
        r@.len() == if amount <= v@.len() {
            amount as int
        } else {
            v@.len() as int
        },
        forall|i: int| 0 <= i < r@.len() ==> v@.contains(r@[i]),
{
    v.choose_multiple(&mut rand::thread_rng(), amount).cloned().collect()
}

/// Relies on rand's `random`: draws an arbitrary boolean.
#[verifier::external_body]
pub fn coin_flip() -> bool {
    rand::random::<bool>()
}

} // verus!
