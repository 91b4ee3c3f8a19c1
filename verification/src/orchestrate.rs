use vstd::prelude::*;

use crate::outcome::ComparisonOutcome;

verus! {

/// Every outcome in the sequence is a success.
pub open spec fn all_success(s: Seq<ComparisonOutcome>) -> bool {
    forall|i: int| 0 <= i < s.len() ==> s[i] is Success
}

/// `i` is the position of the first non-success outcome in launch order.
pub open spec fn is_first_failure_index(s: Seq<ComparisonOutcome>, i: int) -> bool {
    &&& 0 <= i < s.len()
    &&& !(s[i] is Success)
    &&& forall|j: int| 0 <= j < i ==> s[j] is Success
}

/// Selects the outcome to report for a whole test case: the first
/// non-success outcome in the order the comparisons were launched, or
/// success when every entry passed, in particular for an empty sequence.
pub fn first_failure(outcomes: Vec<ComparisonOutcome>) -> (r: ComparisonOutcome)
    ensures
        all_success(outcomes@) ==> r is Success,
        !all_success(outcomes@) ==> exists|i: int|
            is_first_failure_index(outcomes@, i) && r == outcomes@[i],
{
    let mut remaining = outcomes;
    let ghost s = remaining@;
    let n: usize = remaining.len();
    let mut i: usize = 0;
    while i < n
        invariant
            s == outcomes@,
            remaining@ == s,
            n == s.len(),
            i <= n,
            forall|j: int| 0 <= j < i ==> s[j] is Success,
        decreases n - i,
    {
        if !remaining[i].is_success() {
            proof {
                assert(is_first_failure_index(s, i as int));
            }
            return remaining.remove(i);
        }
        i += 1;
    }
    ComparisonOutcome::Success
}

} // verus!
