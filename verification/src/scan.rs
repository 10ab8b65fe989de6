//! The first place in a sequence at which something holds.

use vstd::prelude::*;

verus! {

/// The first index of `s` whose element is `wanted`; `s.len()` if there is none.
pub open spec fn first_index<A>(s: Seq<A>, wanted: spec_fn(A) -> bool) -> int
    decreases s.len(),
{
    if s.len() == 0 {
        0
    } else if wanted(s[0]) {
        0
    } else {
        1 + first_index(s.drop_first(), wanted)
    }
}

/// `first_index` lies within the sequence or at its end, names a wanted
/// element where it lies within, and has no wanted element before it.
pub proof fn lemma_first_index<A>(s: Seq<A>, wanted: spec_fn(A) -> bool)
    ensures
        0 <= first_index(s, wanted) <= s.len(),
        first_index(s, wanted) < s.len() ==> wanted(s[first_index(s, wanted)]),
        forall|i: int| 0 <= i < first_index(s, wanted) ==> !wanted(#[trigger] s[i]),
    decreases s.len(),
{
    if s.len() > 0 && !wanted(s[0]) {
        let rest = s.drop_first();
        lemma_first_index(rest, wanted);
        assert forall|i: int| 0 <= i < first_index(s, wanted) implies !wanted(
            #[trigger] s[i],
        ) by {
            if i > 0 {
                assert(s[i] == rest[i - 1]);
            }
        }
    }
}

/// An index with no wanted element before it, which names a wanted element or
/// is the end, is the first index.
pub proof fn lemma_first_index_is<A>(s: Seq<A>, wanted: spec_fn(A) -> bool, k: int)
    requires
        0 <= k <= s.len(),
        k < s.len() ==> wanted(s[k]),
        forall|i: int| 0 <= i < k ==> !wanted(#[trigger] s[i]),
    ensures
        first_index(s, wanted) == k,
{
    lemma_first_index(s, wanted);
    let f = first_index(s, wanted);
    if f < k {
        assert(!wanted(s[f]));
    } else if k < f {
        assert(wanted(s[k]));
    }
}

} // verus!
