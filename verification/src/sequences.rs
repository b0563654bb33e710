//! Facts about filtered sequences.
use vstd::prelude::*;

verus! {

/// What filtering does to a sequence that grows by one element.
pub proof fn filter_of_push<A>(items: Seq<A>, item: A, keep: spec_fn(A) -> bool)
    ensures
        items.push(item).filter(keep) == if keep(item) {
            items.filter(keep).push(item)
        } else {
            items.filter(keep)
        },
{
    reveal(Seq::filter);
    assert(items.push(item).drop_last() =~= items);
}

/// Filtering leaves nothing exactly if no element is to be kept.
pub proof fn filter_is_empty<A>(items: Seq<A>, keep: spec_fn(A) -> bool)
    ensures
        items.filter(keep).len() == 0 <==> forall|i: int|
            0 <= i < items.len() ==> !keep(#[trigger] items[i]),
    decreases items.len(),
{
    reveal(Seq::filter);
    if items.len() > 0 {
        let front = items.drop_last();
        filter_is_empty(front, keep);
        if items.filter(keep).len() == 0 {
            assert forall|i: int| 0 <= i < items.len() implies !keep(#[trigger] items[i]) by {
                if i < items.len() - 1 {
                    assert(front[i] == items[i]);
                }
            }
        }
        if forall|i: int| 0 <= i < items.len() ==> !keep(#[trigger] items[i]) {
            assert forall|i: int| 0 <= i < front.len() implies !keep(#[trigger] front[i]) by {
                assert(front[i] == items[i]);
            }
            assert(!keep(items.last()));
        }
    }
}

} // verus!
