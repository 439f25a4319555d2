//! A small sequence fact the per-tick passes share.

use vstd::prelude::*;

verus! {

/// `filter` distributes over `push`.
pub proof fn lemma_filter_push<A>(s: Seq<A>, y: A, pr: spec_fn(A) -> bool)
    ensures
        s.push(y).filter(pr) == (if pr(y) {
            s.filter(pr).push(y)
        } else {
            s.filter(pr)
        }),
{
    reveal(Seq::filter);
    assert(s.push(y).drop_last() =~= s);
    assert(s.push(y).filter(pr) == (if pr(y) {
        s.filter(pr).push(y)
    } else {
        s.filter(pr)
    }));
}

} // verus!
