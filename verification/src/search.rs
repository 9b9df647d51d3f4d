//! The search itself: a recursive bisection over index bounds, plus the
//! linear-scan reference that the harness compares it against.

use vstd::prelude::*;

verus! {

/// The elements of `s` are in non-decreasing order within `[lo, hi)`.
pub open spec fn sorted_between(s: Seq<u32>, lo: int, hi: int) -> bool {
    forall|i: int, j: int| lo <= i <= j < hi ==> s[i] <= s[j]
}

/// The whole sequence is sorted ascending; duplicates are allowed.
pub open spec fn sorted(s: Seq<u32>) -> bool {
    sorted_between(s, 0, s.len() as int)
}

/// Some index within `[lo, hi)` holds `value`.
pub open spec fn present_between(s: Seq<u32>, value: u32, lo: int, hi: int) -> bool {
    exists|i: int| lo <= i < hi && s[i] == value
}

/// `value` occurs somewhere in `s`.
pub open spec fn present(s: Seq<u32>, value: u32) -> bool {
    present_between(s, value, 0, s.len() as int)
}

/// Bisection over the index range `[lo, hi)` of `array`.
///
/// Probes the middle of the range; on a mismatch in a range of two or more
/// elements it recurses into the half that can still hold `value`.
fn search_between(array: &[u32], lo: usize, hi: usize, value: u32) -> (r: Option<usize>)
    requires
        lo <= hi <= array@.len(),
    ensures
        r matches Some(i) ==> lo <= i < hi && array@[i as int] == value,
        sorted_between(array@, lo as int, hi as int) && r is None ==> !present_between(
            array@,
            value,
            lo as int,
            hi as int,
        ),
    decreases hi - lo,
{
    if hi - lo == 0 {
        return None;
    }
    let mid = lo + (hi - lo) / 2;
    if array[mid] == value {
        Some(mid)
    } else if hi - lo == 1 {
        None
    } else if array[mid] > value {
        search_between(array, lo, mid, value)
    } else {
        search_between(array, mid, hi, value)
    }
}

/// Recursive binary search: an index of `value` in `array`, or `None`.
///
/// The caller is expected to pass a sorted array; sortedness is not checked
/// here. On input that is not sorted the result is still total and any
/// returned index holds `value`, but `None` may come back even when the
/// value is present.
pub fn binary_search(array: &[u32], value: u32) -> (r: Option<usize>)
    ensures
        r matches Some(i) ==> i < array@.len() && array@[i as int] == value,
        sorted(array@) ==> (r is None <==> !present(array@, value)),
{
    search_between(array, 0, array.len(), value)
}

/// The reference oracle: a linear scan for the first index holding `value`.
pub fn linear_search(array: &[u32], value: u32) -> (r: Option<usize>)
    ensures
        r matches Some(i) ==> i < array@.len() && array@[i as int] == value
            && !present_between(array@, value, 0, i as int),
        r is None <==> !present(array@, value),
{
    let mut k: usize = 0;
    while k < array.len()
        invariant
            k <= array@.len(),
            !present_between(array@, value, 0, k as int),
        decreases array@.len() - k,
    {
        if array[k] == value {
            return Some(k);
        }
        k = k + 1;
    }
    None
}

} // verus!
