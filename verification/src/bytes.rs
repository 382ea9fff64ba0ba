//! Comparing byte strings.

use vstd::prelude::*;

verus! {

/// Whether two byte strings are the same.
pub fn same_bytes(left: &[u8], right: &[u8]) -> (same: bool)
    ensures
        same <==> left@ == right@,
{
    if left.len() != right.len() {
        return false;
    }
    let mut i: usize = 0;
    while i < left.len()
        invariant
            left.len() == right.len(),
            i <= left.len(),
            forall|j: int| 0 <= j < i ==> left@[j] == right@[j],
        decreases left.len() - i,
    {
        if left[i] != right[i] {
            return false;
        }
        i = i + 1;
    }
    assert(left@ =~= right@);
    true
}

/// `same_bytes` is equality: it holds of the same bytes, and a single byte or the
/// length makes the difference.
pub proof fn law_same_bytes(left: &[u8], right: &[u8], same: bool)
    requires
        call_ensures(same_bytes, (left, right), same),
    ensures
        same <==> left@.len() == right@.len() && forall|i: int|
            0 <= i < left@.len() ==> left@[i] == right@[i],
{
    if left@.len() == right@.len() && forall|i: int|
        0 <= i < left@.len() ==> left@[i] == right@[i] {
        assert(left@ =~= right@);
    }
}

} // verus!
