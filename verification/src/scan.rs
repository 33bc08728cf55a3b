//! What it is to be the first match in a list of flags.

use vstd::prelude::*;

verus! {

/// `i` is the first position of `flags` that is set.
pub open spec fn is_first_set(flags: Seq<bool>, i: int) -> bool {
    &&& 0 <= i < flags.len()
    &&& flags[i]
    &&& forall|j: int| 0 <= j < i ==> !flags[j]
}

/// No position of `flags` is set.
pub open spec fn none_set(flags: Seq<bool>) -> bool {
    forall|j: int| 0 <= j < flags.len() ==> !flags[j]
}

/// A list of flags has at most one first set position.
pub proof fn lemma_first_set_unique(flags: Seq<bool>, i: int, k: int)
    requires
        is_first_set(flags, i),
        is_first_set(flags, k),
    ensures
        i == k,
{
    if i < k {
        assert(!flags[i]);
    } else if k < i {
        assert(!flags[k]);
    }
}

} // verus!
