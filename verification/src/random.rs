//! Seed-driven generation of random sorted inputs.
//!
//! The pseudo-random draws come from rand's standard generator, behind
//! trusted wrappers. A generator seeded from a `u64` is deterministic: the
//! wrappers name each draw as a function of the seed and the draw's position,
//! and everything downstream of the draws is verified.

use crate::search::sorted;
use crate::sorting::{lemma_sorted_multiset_unique, sort_u32};
use rand::RngExt;
use rand::SeedableRng;
use vstd::prelude::*;

verus! {

/// Exclusive upper bound for every drawn quantity: the length of the input
/// sequence, its elements, and the target. Small on purpose, to make
/// duplicates and boundary cases frequent.
pub const DRAW_BOUND: u32 = 8;

#[verifier::external_type_specification]
#[verifier::external_body]
pub struct ExStdRng(rand::rngs::StdRng);

/// The seed a standard generator was created from.
pub uninterp spec fn rng_seed(rng: rand::rngs::StdRng) -> u64;

/// How many bounded draws have been made from the generator so far.
pub uninterp spec fn rng_draws(rng: rand::rngs::StdRng) -> nat;

/// The bound below which every draw from the generator so far was made.
pub uninterp spec fn rng_bound(rng: rand::rngs::StdRng) -> u32;

/// The value of draw number `k` from a standard generator seeded with
/// `seed`, when every draw from that generator is made below `bound`.
pub uninterp spec fn nth_draw(seed: u64, k: nat, bound: u32) -> u32;

/// Relies on rand's `SeedableRng::seed_from_u64` for `StdRng`: construction
/// from a `u64` seed never fails and is a deterministic function of the seed
/// (rand documents that a seeded generator reproduces the same output
/// sequence on every run of a fixed library version).
#[verifier::external_body]
fn rng_from_seed(seed: u64) -> (rng: rand::rngs::StdRng)
    ensures
        rng_seed(rng) == seed,
        rng_draws(rng) == 0,
{
    rand::rngs::StdRng::seed_from_u64(seed)
}

/// Relies on rand's `RngExt::random_range` over `0..bound`: the draw lies
/// below `bound` (rand documents the result as uniform in the given range,
/// and panics only on an empty range, which the precondition rules out), and
/// for a seeded `StdRng` it is a deterministic function of the seed and of
/// the draws made before it. The uniform `bound` across all draws keeps that
/// history a function of the draw count alone.
#[verifier::external_body]
fn draw_below(rng: &mut rand::rngs::StdRng, bound: u32) -> (r: u32)
    requires
        bound > 0,
        rng_draws(*old(rng)) == 0 || rng_bound(*old(rng)) == bound,
    ensures
        r < bound,
        r == nth_draw(rng_seed(*old(rng)), rng_draws(*old(rng)), bound),
        rng_seed(*final(rng)) == rng_seed(*old(rng)),
        rng_draws(*final(rng)) == rng_draws(*old(rng)) + 1,
        rng_bound(*final(rng)) == bound,
{
    rng.random_range(0..bound)
}

/// The length drawn for `seed`: the first draw.
pub open spec fn gen_len(seed: u64) -> nat {
    nth_draw(seed, 0, DRAW_BOUND) as nat
}

/// The element draws for `seed`, in draw order, before sorting.
pub open spec fn raw_values(seed: u64) -> Seq<u32> {
    Seq::new(gen_len(seed), |i: int| nth_draw(seed, (i + 1) as nat, DRAW_BOUND))
}

/// The target drawn for `seed`: the draw right after the elements.
pub open spec fn gen_target(seed: u64) -> u32 {
    nth_draw(seed, gen_len(seed) + 1, DRAW_BOUND)
}

/// What generation promises: `s` is the ascending arrangement of the element
/// draws for `seed`, and `target` is the target draw for `seed`.
pub open spec fn generated(seed: u64, s: Seq<u32>, target: u32) -> bool {
    &&& sorted(s)
    &&& s.to_multiset() == raw_values(seed).to_multiset()
    &&& target == gen_target(seed)
}

/// Sequences with the same contents draw their elements from the same pool.
proof fn lemma_multiset_elements_below(a: Seq<u32>, b: Seq<u32>, bound: u32)
    requires
        a.to_multiset() == b.to_multiset(),
        forall|i: int| 0 <= i < a.len() ==> a[i] < bound,
    ensures
        forall|i: int| 0 <= i < b.len() ==> b[i] < bound,
{
    broadcast use vstd::seq_lib::group_to_multiset_ensures;
    broadcast use vstd::multiset::group_multiset_axioms;

    assert forall|i: int| 0 <= i < b.len() implies b[i] < bound by {
        assert(b.contains(b[i]));
        assert(b.to_multiset().count(b[i]) > 0);
        assert(a.contains(b[i]));
        let j = choose|j: int| 0 <= j < a.len() && a[j] == b[i];
        assert(a[j] < bound);
    }
}

/// Generates the input for one trial: a sorted sequence of fewer than
/// `DRAW_BOUND` elements, each below `DRAW_BOUND`, and a target below
/// `DRAW_BOUND`, all drawn deterministically from `seed`.
pub fn generate_random_input(seed: u64) -> (r: (Vec<u32>, u32))
    ensures
        generated(seed, r.0@, r.1),
        r.0@.len() == gen_len(seed),
        r.0@.len() < DRAW_BOUND,
        forall|i: int| 0 <= i < r.0@.len() ==> r.0@[i] < DRAW_BOUND,
        r.1 < DRAW_BOUND,
{
    let mut rng = rng_from_seed(seed);
    let len_draw = draw_below(&mut rng, DRAW_BOUND);
    let length: usize = len_draw as usize;
    let mut values: Vec<u32> = Vec::new();
    while values.len() < length
        invariant
            rng_seed(rng) == seed,
            rng_bound(rng) == DRAW_BOUND,
            rng_draws(rng) == values@.len() + 1,
            values@.len() <= length,
            length == gen_len(seed),
            forall|i: int|
                0 <= i < values@.len() ==> values@[i] == nth_draw(
                    seed,
                    (i + 1) as nat,
                    DRAW_BOUND,
                ),
            forall|i: int| 0 <= i < values@.len() ==> values@[i] < DRAW_BOUND,
        decreases length - values@.len(),
    {
        let x = draw_below(&mut rng, DRAW_BOUND);
        values.push(x);
    }
    assert(values@ =~= raw_values(seed));
    let ghost unsorted: Seq<u32> = values@;
    sort_u32(&mut values);
    proof {
        lemma_multiset_elements_below(unsorted, values@, DRAW_BOUND);
        broadcast use vstd::seq_lib::group_to_multiset_ensures;
        assert(values@.to_multiset().len() == unsorted.to_multiset().len());
        assert(values@.len() == gen_len(seed));
    }
    let target = draw_below(&mut rng, DRAW_BOUND);
    (values, target)
}

/// Determinism: one seed admits exactly one generated (sequence, target)
/// pair, so two runs of `generate_random_input` with the same seed agree.
pub proof fn lemma_generate_deterministic(
    seed: u64,
    s1: Seq<u32>,
    t1: u32,
    s2: Seq<u32>,
    t2: u32,
)
    requires
        generated(seed, s1, t1),
        generated(seed, s2, t2),
    ensures
        s1 == s2,
        t1 == t2,
{
    lemma_sorted_multiset_unique(s1, s2);
}

} // verus!
