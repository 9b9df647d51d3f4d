//! A verified ascending sort for `u32` vectors, used to arrange the randomly
//! drawn values, and the fact that a sorted arrangement of given contents is
//! unique.

use crate::search::sorted;
use vstd::multiset::Multiset;
use vstd::prelude::*;

verus! {

/// An index of a minimal element of `v`.
fn min_index(v: &Vec<u32>) -> (m: usize)
    requires
        v@.len() > 0,
    ensures
        m < v@.len(),
        forall|j: int| 0 <= j < v@.len() ==> v@[m as int] <= v@[j],
{
    let mut m: usize = 0;
    let mut k: usize = 1;
    while k < v.len()
        invariant
            m < k,
            k <= v@.len(),
            forall|j: int| 0 <= j < k ==> v@[m as int] <= v@[j],
        decreases v@.len() - k,
    {
        if v[k] < v[m] {
            m = k;
        }
        k = k + 1;
    }
    m
}

/// Moving one element of `rest` to the end of `taken` keeps the combined
/// contents unchanged.
proof fn lemma_move_element(taken: Seq<u32>, rest: Seq<u32>, whole: Seq<u32>, m: int)
    requires
        0 <= m < rest.len(),
        taken.to_multiset().add(rest.to_multiset()) == whole.to_multiset(),
    ensures
        taken.push(rest[m]).to_multiset().add(rest.remove(m).to_multiset())
            == whole.to_multiset(),
{
    broadcast use vstd::seq_lib::group_to_multiset_ensures;
    broadcast use vstd::multiset::group_multiset_axioms;

    let x = rest[m];
    assert(rest.contains(x));
    assert(rest.to_multiset().count(x) > 0);
    assert(rest.remove(m).to_multiset() == rest.to_multiset().remove(x));
    assert(taken.push(x).to_multiset() == taken.to_multiset().insert(x));
    assert(taken.push(x).to_multiset().add(rest.remove(m).to_multiset())
        =~= whole.to_multiset());
}

/// A sequence of length zero holds nothing.
proof fn lemma_empty_multiset(s: Seq<u32>)
    requires
        s.len() == 0,
    ensures
        s.to_multiset() == Multiset::<u32>::empty(),
{
    broadcast use vstd::seq_lib::group_to_multiset_ensures;
    broadcast use vstd::multiset::group_multiset_axioms;
    broadcast use vstd::multiset::lemma_multiset_empty_len;

    assert(s.to_multiset().len() == 0);
    assert(s.to_multiset() =~= Multiset::<u32>::empty());
}

/// Selection sort: rearranges `v` into ascending order.
///
/// The result is sorted and holds exactly the contents of the input,
/// multiplicities included.
pub fn sort_u32(v: &mut Vec<u32>)
    ensures
        sorted(final(v)@),
        final(v)@.to_multiset() == old(v)@.to_multiset(),
{
    let ghost orig: Seq<u32> = v@;
    let mut out: Vec<u32> = Vec::new();
    proof {
        lemma_empty_multiset(out@);
        broadcast use vstd::multiset::group_multiset_axioms;
        assert(out@.to_multiset().add(v@.to_multiset()) =~= orig.to_multiset());
    }
    while v.len() > 0
        invariant
            sorted(out@),
            forall|i: int, j: int|
                0 <= i < out@.len() && 0 <= j < v@.len() ==> out@[i] <= v@[j],
            out@.to_multiset().add(v@.to_multiset()) == orig.to_multiset(),
        decreases v@.len(),
    {
        let m = min_index(v);
        let ghost prev: Seq<u32> = v@;
        let ghost prev_out: Seq<u32> = out@;
        let x = v.remove(m);
        out.push(x);
        proof {
            lemma_move_element(prev_out, prev, orig, m as int);
            prev.remove_ensures(m as int);
        }
    }
    proof {
        lemma_empty_multiset(v@);
        broadcast use vstd::multiset::group_multiset_axioms;
        assert(out@.to_multiset() =~= orig.to_multiset());
    }
    *v = out;
}

/// Sorted arrangements are canonical: two ascending sequences with the same
/// contents (multiplicities included) are equal.
pub proof fn lemma_sorted_multiset_unique(a: Seq<u32>, b: Seq<u32>)
    requires
        sorted(a),
        sorted(b),
        a.to_multiset() == b.to_multiset(),
    ensures
        a == b,
{
    let leq = |x: u32, y: u32| x <= y;
    assert(vstd::relations::sorted_by(a, leq));
    assert(vstd::relations::sorted_by(b, leq));
    assert(vstd::relations::total_ordering(leq)) by {
        assert(vstd::relations::reflexive(leq));
        assert(vstd::relations::antisymmetric(leq));
        assert(vstd::relations::transitive(leq));
        assert(vstd::relations::strongly_connected(leq));
    }
    vstd::seq_lib::lemma_sorted_unique(a, b, leq);
    assert(a =~= b);
}

} // verus!
