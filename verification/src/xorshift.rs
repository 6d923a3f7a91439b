//! The xorshift transform that drives the generator.

use vstd::prelude::*;

verus! {

/// One round of the generator: `x ^= x << 13`, `x ^= x >> 7`, `x ^= x << 17`,
/// in that order, on 64-bit words.
pub open spec fn step(x: u64) -> u64 {
    let a = x ^ (x << 13);
    let b = a ^ (a >> 7);
    b ^ (b << 17)
}

/// The seed that is left after `n` rounds starting from `seed`.
pub open spec fn nth_seed(seed: u64, n: nat) -> u64
    decreases n,
{
    if n == 0 {
        seed
    } else {
        step(nth_seed(seed, (n - 1) as nat))
    }
}

/// A round maps zero to zero and nothing else to zero.
pub proof fn lemma_step_zero(x: u64)
    ensures
        step(x) == 0 <==> x == 0,
{
    assert(step(x) == 0 <==> x == 0) by (bit_vector);
}

/// A generator that starts from a seed other than zero never reaches zero,
/// so none of its words is zero and its output never locks up.
pub proof fn lemma_nonzero_seed_stays_nonzero(seed: u64, n: nat)
    requires
        seed != 0,
    ensures
        nth_seed(seed, n) != 0,
    decreases n,
{
    if n > 0 {
        lemma_nonzero_seed_stays_nonzero(seed, (n - 1) as nat);
        lemma_step_zero(nth_seed(seed, (n - 1) as nat));
    }
}

/// Rounds add up: `b` rounds after `a` rounds are `a + b` rounds.
pub proof fn lemma_nth_seed_add(seed: u64, a: nat, b: nat)
    ensures
        nth_seed(nth_seed(seed, a), b) == nth_seed(seed, a + b),
    decreases b,
{
    if b > 0 {
        lemma_nth_seed_add(seed, a, (b - 1) as nat);
    }
}

/// Computes one round of the generator.
pub fn next_seed(x: u64) -> (y: u64)
    ensures
        y == step(x),
{
    let a = x ^ (x << 13);
    let b = a ^ (a >> 7);
    b ^ (b << 17)
}

} // verus!
