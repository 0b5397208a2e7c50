//! Counting the fully opaque pixels among a grid's alpha values.

use vstd::prelude::*;
use vstd::seq_lib::to_multiset_build;

verus! {

/// The alpha value of a fully opaque pixel. Every smaller value lets some
/// of the background through.
pub const OPAQUE: u8 = 255;

/// How many of the alpha values are fully opaque.
pub open spec fn opaque_count(alphas: Seq<u8>) -> nat
    decreases alphas.len(),
{
    if alphas.len() == 0 {
        0
    } else {
        opaque_count(alphas.drop_last()) + if alphas.last() == OPAQUE {
            1nat
        } else {
            0nat
        }
    }
}

/// One more alpha value adds one to the count if it is opaque, and nothing
/// otherwise.
pub proof fn lemma_opaque_count_step(alphas: Seq<u8>, seen: int)
    requires
        0 <= seen < alphas.len(),
    ensures
        opaque_count(alphas.take(seen + 1)) == opaque_count(alphas.take(seen)) + if alphas[seen]
            == OPAQUE {
            1nat
        } else {
            0nat
        },
{
    assert(alphas.take(seen + 1).drop_last() =~= alphas.take(seen));
}

/// The count never exceeds the number of pixels.
pub proof fn lemma_opaque_count_bounded(alphas: Seq<u8>)
    ensures
        opaque_count(alphas) <= alphas.len(),
    decreases alphas.len(),
{
    if alphas.len() > 0 {
        lemma_opaque_count_bounded(alphas.drop_last());
    }
}

/// The count is the number of times that the opaque value occurs, so it
/// does not depend on the order in which the pixels are visited.
pub proof fn lemma_opaque_count_is_multiplicity(alphas: Seq<u8>)
    ensures
        opaque_count(alphas) == alphas.to_multiset().count(OPAQUE),
    decreases alphas.len(),
{
    if alphas.len() == 0 {
        alphas.to_multiset_ensures();
        assert(alphas.to_multiset().len() == 0);
    } else {
        let front: Seq<u8> = alphas.drop_last();
        lemma_opaque_count_is_multiplicity(front);
        to_multiset_build(front, alphas.last());
        assert(front.push(alphas.last()) =~= alphas);
    }
}

/// Two grids that hold the same alpha values, in whatever order, have the
/// same count.
pub proof fn lemma_opaque_count_ignores_order(first: Seq<u8>, second: Seq<u8>)
    requires
        first.to_multiset() == second.to_multiset(),
    ensures
        opaque_count(first) == opaque_count(second),
{
    lemma_opaque_count_is_multiplicity(first);
    lemma_opaque_count_is_multiplicity(second);
}

/// Every pixel counts exactly when every pixel is fully opaque.
pub proof fn lemma_all_opaque(alphas: Seq<u8>)
    ensures
        opaque_count(alphas) == alphas.len() <==> (forall|i: int|
            0 <= i < alphas.len() ==> alphas[i] == OPAQUE),
    decreases alphas.len(),
{
    if alphas.len() > 0 {
        let front: Seq<u8> = alphas.drop_last();
        lemma_all_opaque(front);
        lemma_opaque_count_bounded(front);
        if opaque_count(alphas) == alphas.len() {
            assert forall|i: int| 0 <= i < alphas.len() implies alphas[i] == OPAQUE by {
                if i < front.len() {
                    assert(front[i] == alphas[i]);
                }
            }
        }
        if forall|i: int| 0 <= i < alphas.len() ==> alphas[i] == OPAQUE {
            assert forall|i: int| 0 <= i < front.len() implies front[i] == OPAQUE by {
                assert(front[i] == alphas[i]);
            }
        }
    }
}

/// No pixel counts exactly when no pixel is fully opaque.
pub proof fn lemma_none_opaque(alphas: Seq<u8>)
    ensures
        opaque_count(alphas) == 0 <==> (forall|i: int|
            0 <= i < alphas.len() ==> alphas[i] != OPAQUE),
    decreases alphas.len(),
{
    if alphas.len() > 0 {
        let front: Seq<u8> = alphas.drop_last();
        lemma_none_opaque(front);
        if opaque_count(alphas) == 0 {
            assert forall|i: int| 0 <= i < alphas.len() implies alphas[i] != OPAQUE by {
                if i < front.len() {
                    assert(front[i] == alphas[i]);
                }
            }
        }
        if forall|i: int| 0 <= i < alphas.len() ==> alphas[i] != OPAQUE {
            assert forall|i: int| 0 <= i < front.len() implies front[i] != OPAQUE by {
                assert(front[i] == alphas[i]);
            }
        }
    }
}

} // verus!
