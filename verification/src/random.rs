//! Randomness, behind two trusted wrappers.
//!
//! Everything random the bot does — sampling maps, drawing and shuffling
//! reaction symbols, breaking ties, picking skins — is expressed over random
//! indices, so the rest of the library is verified for every outcome the
//! generator can produce.

use vstd::prelude::*;

verus! {

use rand::Rng;
use rand::seq::index::sample;

/// Relies on rand::Rng::gen_range over `0..n`: a uniformly random index
/// below `n`.  Nothing more can be promised of a random value.
#[verifier::external_body]
pub(crate) fn random_index(n: usize) -> (i: usize)
    requires
        n > 0,
    ensures
        i < n,
{
    rand::thread_rng().gen_range(0..n)
}

/// Relies on rand::seq::index::sample: `amount` distinct indices drawn from
/// `0..length` without repetition, in random order.
#[verifier::external_body]
pub(crate) fn sample_indices(length: usize, amount: usize) -> (r: Vec<usize>)
    requires
        amount <= length,
    ensures
        r@.len() == amount,
        forall|k: int| 0 <= k < r@.len() ==> #[trigger] r@[k] < length,
        forall|k1: int, k2: int|
            0 <= k1 < r@.len() && 0 <= k2 < r@.len() && k1 != k2 ==> r@[k1] != r@[k2],
{
    sample(&mut rand::thread_rng(), length, amount).into_vec()
}

/// A random permutation of `0..n`: drawing all `n` indices without
/// repetition, in random order, is a shuffle.
pub fn shuffled_indices(n: usize) -> (r: Vec<usize>)
    ensures
        r@.len() == n,
        forall|k: int| 0 <= k < r@.len() ==> #[trigger] r@[k] < n,
        forall|k1: int, k2: int|
            0 <= k1 < r@.len() && 0 <= k2 < r@.len() && k1 != k2 ==> r@[k1] != r@[k2],
{
    sample_indices(n, n)
}

} // verus!
