//! GREASE values drawn from the thread-local generator of `rand`, and the calls into
//! `rand` that the profiles of this module make.
use vstd::prelude::*;

use rand::seq::{IndexedRandom, SliceRandom};
use rand::Rng;

use crate::fingerprint::grease::{grease_value, grease_value_at, is_grease, lemma_grease_value_is_grease};

verus! {

/// The thread-local generator of `rand`.
#[verifier::external_type_specification]
#[verifier::external_body]
pub struct ExThreadRng(rand::rngs::ThreadRng);

/// `rand::rng()`: a handle to the thread-local generator. Nothing is said of its state.
#[verifier::external_body]
pub(crate) fn thread_rng() -> rand::rngs::ThreadRng {
    rand::rng()
}

/// `Rng::random_range` on `0..n`: an index below `n`. The range must not be empty
/// (`random_range` panics on an empty one). Which index comes is left open.
#[verifier::external_body]
pub(crate) fn random_index(rng: &mut rand::rngs::ThreadRng, n: usize) -> (i: usize)
    requires
        n > 0,
    ensures
        i < n,
{
    rng.random_range(0..n)
}

/// `Rng::random::<u8>()`: any byte.
#[verifier::external_body]
pub(crate) fn random_byte(rng: &mut rand::rngs::ThreadRng) -> u8 {
    rng.random()
}

/// `IndexedRandom::choose_multiple` on `values`, collected: `min(amount, len)` items at
/// distinct positions of `values`, so that no value comes out more often than it occurs
/// in `values`. Which ones, and in which order, is left open.
#[verifier::external_body]
pub(crate) fn choose_multiple(values: &[u16], rng: &mut rand::rngs::ThreadRng, amount: usize) -> (r: Vec<u16>)
    ensures
        r@.len() == (if amount < values@.len() { amount as int } else { values@.len() as int }),
        r@.to_multiset().subset_of(values@.to_multiset()),
{
    values.choose_multiple(rng, amount).copied().collect()
}

/// `SliceRandom::shuffle`: a permutation of `v`. Which one is left open.
#[verifier::external_body]
pub(crate) fn shuffle<T>(v: &mut Vec<T>, rng: &mut rand::rngs::ThreadRng)
    ensures
        final(v)@.to_multiset() == old(v)@.to_multiset(),
        final(v)@.len() == old(v)@.len(),
{
    v.shuffle(rng)
}

/// Picks a GREASE value from the thread-local generator.
pub fn get_grease_value(rng: &mut rand::rngs::ThreadRng) -> (v: u16)
    ensures
        is_grease(v),
        exists|i: int| 0 <= i < 16 && v == #[trigger] grease_value(i),
{
    let index = random_index(rng, 16);
    proof {
        lemma_grease_value_is_grease(index as int);
    }
    grease_value_at(index)
}

} // verus!
