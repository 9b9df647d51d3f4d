//! One randomized trial: generate an input from a seed, run the binary
//! search, and judge its answer against the linear-scan oracle.

use crate::random::{generate_random_input, generated, lemma_generate_deterministic};
use crate::search::{binary_search, linear_search, present, present_between};
use vstd::prelude::*;

verus! {

/// Everything one trial computes, for the caller to report.
pub struct TrialOutcome {
    /// The seed the trial ran with.
    pub seed: u64,
    /// The generated sorted input sequence.
    pub sequence: Vec<u32>,
    /// The generated target value.
    pub target: u32,
    /// The oracle's answer: the first index holding the target, if any.
    pub expected: Option<usize>,
    /// The binary search's answer.
    pub actual: Option<usize>,
    /// Whether the search's answer was accepted.
    pub pass: bool,
}

/// The acceptance rule: the search's answer is accepted when it matches the
/// oracle exactly, or when it names any in-bounds index that holds the
/// target (duplicates make several indices equally right).
pub open spec fn accepted(
    s: Seq<u32>,
    target: u32,
    expected: Option<usize>,
    actual: Option<usize>,
) -> bool {
    ||| expected == actual
    ||| (actual matches Some(i) && i < s.len() && s[i as int] == target)
}

/// What one trial promises: the input was generated from the seed, the
/// oracle found the first occurrence of the target, the search's answer is
/// sound and complete on this sorted input, and the trial passed.
pub open spec fn trial_post(seed: u64, r: TrialOutcome) -> bool {
    &&& r.seed == seed
    &&& generated(seed, r.sequence@, r.target)
    &&& (r.expected matches Some(i) ==> i < r.sequence@.len() && r.sequence@[i as int]
        == r.target && !present_between(r.sequence@, r.target, 0, i as int))
    &&& (r.expected is None <==> !present(r.sequence@, r.target))
    &&& (r.actual matches Some(i) ==> i < r.sequence@.len() && r.sequence@[i as int]
        == r.target)
    &&& (r.actual is None <==> !present(r.sequence@, r.target))
    &&& r.pass == accepted(r.sequence@, r.target, r.expected, r.actual)
    &&& r.pass
}

/// Runs the trial for `seed`. The search's verified contract makes every
/// trial pass: the outcome's `pass` field is proved true.
pub fn run_test(seed: u64) -> (r: TrialOutcome)
    ensures
        trial_post(seed, r),
{
    let (sequence, target) = generate_random_input(seed);
    let actual = binary_search(sequence.as_slice(), target);
    let expected = linear_search(sequence.as_slice(), target);
    let pass = match (expected, actual) {
        (Some(e), Some(a)) => e == a || sequence[a] == target,
        (None, None) => true,
        (None, Some(a)) => sequence[a] == target,
        (Some(_), None) => false,
    };
    TrialOutcome { seed, sequence, target, expected, actual, pass }
}

/// Idempotence: two trials run with the same seed agree on the generated
/// input, on the oracle's answer, and on the pass/fail outcome. (The exact
/// index the search returns among duplicates is the one thing left open.)
pub proof fn lemma_run_test_idempotent(seed: u64, r1: TrialOutcome, r2: TrialOutcome)
    requires
        trial_post(seed, r1),
        trial_post(seed, r2),
    ensures
        r1.sequence@ == r2.sequence@,
        r1.target == r2.target,
        r1.expected == r2.expected,
        r1.pass == r2.pass,
{
    lemma_generate_deterministic(
        seed,
        r1.sequence@,
        r1.target,
        r2.sequence@,
        r2.target,
    );
    if r1.expected is Some && r2.expected is Some {
        let i1 = r1.expected->Some_0 as int;
        let i2 = r2.expected->Some_0 as int;
        if i1 < i2 {
            assert(present_between(r2.sequence@, r2.target, 0, i2));
        }
        if i2 < i1 {
            assert(present_between(r1.sequence@, r1.target, 0, i1));
        }
    }
}

} // verus!
