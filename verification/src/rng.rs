//! The engine's sources of chance.
//!
//! The three functions here hand the work to the `rand` crate. Verus does
//! not look into them: what is stated of each holds of every outcome and is
//! taken on trust. All three draw from the thread's generator, which the
//! operating system seeds; should that source fail, `rand` panics, and no
//! argument can rule that out.

use rand::seq::SliceRandom;
use rand::Rng;
use vstd::prelude::*;
use crate::piece::Tetromino;

verus! {

/// Draws a number below `n` with `rand::Rng::gen_range` on the thread's
/// generator, `rand::thread_rng`. The contract claims that the number lies
/// in `0..n`; an empty range, on which `gen_range` panics, is ruled out.
#[verifier::external_body]
pub(crate) fn random_below(n: usize) -> (r: usize)
    requires
        n > 0,
    ensures
        r < n,
{
    rand::thread_rng().gen_range(0..n)
}

/// Shuffles in place with `rand::seq::SliceRandom::shuffle` on the thread's
/// generator. The contract claims that the items are the same as before,
/// each as often as before, in some order.
#[verifier::external_body]
pub(crate) fn shuffle<T>(items: &mut Vec<T>)
    ensures
        final(items)@.to_multiset() == old(items)@.to_multiset(),
{
    items.shuffle(&mut rand::thread_rng());
}

/// Picks one of the seven pieces with `rand::seq::SliceRandom::choose` on
/// the thread's generator. The contract claims that the piece is one of
/// those given; `choose` yields nothing only on an empty slice.
#[verifier::external_body]
pub(crate) fn choose_piece(pieces: &[Tetromino; 7]) -> (p: Tetromino)
    ensures
        pieces@.contains(p),
{
    *pieces.choose(&mut rand::thread_rng()).unwrap()
}

} // verus!
