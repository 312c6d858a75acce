//! What the cursors of this crate have in common. A cursor stands for the
//! items of a sequence that it has not handed out yet. It hands them out
//! in their order, each once, and when none is left it stays that way.

use vstd::prelude::*;

verus! {

/// The item that a cursor over `items` hands out next.
pub open spec fn first<A>(items: Seq<A>) -> Option<A> {
    if items.len() == 0 {
        None
    } else {
        Some(items[0])
    }
}

/// What a cursor over `items` stands for after it was asked for an item.
pub open spec fn rest<A>(items: Seq<A>) -> Seq<A> {
    if items.len() == 0 {
        items
    } else {
        items.drop_first()
    }
}

/// What a cursor over `items` stands for after it was asked `count` times.
pub open spec fn left_after<A>(items: Seq<A>, count: nat) -> Seq<A>
    decreases count,
{
    if count == 0 {
        items
    } else {
        rest(left_after(items, (count - 1) as nat))
    }
}

/// A cursor keeps the order of its items and does not start again: asked
/// for the item number `count`, counted from 0, it hands out that item of
/// the sequence, and nothing once the sequence has no such item.
pub proof fn lemma_yields_in_order<A>(items: Seq<A>, count: nat)
    ensures
        count < items.len() ==> first(left_after(items, count)) == Some(items[count as int]),
        count >= items.len() ==> first(left_after(items, count)) is None,
        left_after(items, count) == if count < items.len() {
            items.skip(count as int)
        } else {
            Seq::<A>::empty()
        },
    decreases count,
{
    if count == 0 {
        assert(items.skip(0) =~= items);
        if items.len() == 0 {
            assert(items =~= Seq::<A>::empty());
        }
    } else {
        let before = (count - 1) as nat;
        lemma_yields_in_order(items, before);
        if before < items.len() {
            assert(items.skip(before as int).drop_first() =~= items.skip(count as int));
            if count >= items.len() {
                assert(items.skip(count as int) =~= Seq::<A>::empty());
            }
        }
    }
}

} // verus!
