//! Facts about sequences that the modules share.

use vstd::prelude::*;

verus! {

/// Filtering a sequence that ends in `last`: `last` stays at the end if it
/// passes the test, and the rest is filtered as before.
pub proof fn lemma_filter_push<A>(s: Seq<A>, last: A, keep: spec_fn(A) -> bool)
    ensures
        s.push(last).filter(keep) == if keep(last) {
            s.filter(keep).push(last)
        } else {
            s.filter(keep)
        },
{
    reveal(Seq::filter);
    assert(s.push(last).drop_last() =~= s);
}

/// Filtering the empty sequence leaves it empty.
pub proof fn lemma_filter_empty<A>(keep: spec_fn(A) -> bool)
    ensures
        Seq::<A>::empty().filter(keep) == Seq::<A>::empty(),
{
    reveal(Seq::filter);
}

} // verus!
