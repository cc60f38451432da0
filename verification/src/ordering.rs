//! Sequences arranged by a text key, where items of equal keys keep their order.

use crate::text::{
    lemma_precedes_strict, lemma_precedes_total, lemma_precedes_transitive, precedes,
};
use vstd::prelude::*;

verus! {

/// The key of the item is `k`.
pub open spec fn has_key<A>(key: spec_fn(A) -> Seq<char>, k: Seq<char>) -> spec_fn(A) -> bool {
    |item: A| key(item) == k
}

/// The items whose key is `k`, in their order.
pub open spec fn with_key<A>(items: Seq<A>, key: spec_fn(A) -> Seq<char>, k: Seq<char>) -> Seq<A> {
    items.filter(has_key(key, k))
}

/// No item has a smaller key than one before it.
pub open spec fn ascending<A>(items: Seq<A>, key: spec_fn(A) -> Seq<char>) -> bool {
    forall|i: int, j: int|
        0 <= i < j < items.len() ==> !precedes(key(#[trigger] items[j]), key(#[trigger] items[i]))
}

/// No item has a greater key than one before it.
pub open spec fn descending<A>(items: Seq<A>, key: spec_fn(A) -> Seq<char>) -> bool {
    forall|i: int, j: int|
        0 <= i < j < items.len() ==> !precedes(key(#[trigger] items[i]), key(#[trigger] items[j]))
}

/// `arranged` has the items of `items`, and those of equal keys in the same order.
pub open spec fn rearranged<A>(
    arranged: Seq<A>,
    items: Seq<A>,
    key: spec_fn(A) -> Seq<char>,
) -> bool {
    forall|k: Seq<char>| #[trigger] with_key(arranged, key, k) == with_key(items, key, k)
}

/// An item put in behind others is, among those of its key, the last one where nothing
/// after it has its key.
pub proof fn lemma_insert_rearranged<A>(
    arranged: Seq<A>,
    items: Seq<A>,
    key: spec_fn(A) -> Seq<char>,
    at: int,
    item: A,
)
    requires
        rearranged(arranged, items, key),
        0 <= at <= arranged.len(),
        forall|j: int| at <= j < arranged.len() ==> key(#[trigger] arranged[j]) != key(item),
    ensures
        rearranged(arranged.insert(at, item), items.push(item), key),
{
    let put_in = arranged.insert(at, item);
    let front = arranged.take(at);
    let back = arranged.skip(at);
    assert(arranged == front + back);
    assert(put_in == front.push(item) + back);
    assert forall|k: Seq<char>| #[trigger]
        with_key(put_in, key, k) == with_key(items.push(item), key, k) by {
        let pred = has_key(key, k);
        Seq::filter_distributes_over_add(front, back, pred);
        Seq::filter_distributes_over_add(front.push(item), back, pred);
        lemma_filter_push(front, pred, item);
        lemma_filter_push(items, pred, item);
        assert(with_key(arranged, key, k) == with_key(items, key, k));
        if key(item) == k {
            assert forall|j: int| 0 <= j < back.len() implies !pred(#[trigger] back[j]) by {
                assert(back[j] == arranged[at + j]);
            }
            lemma_filter_none(back, pred);
            assert(with_key(put_in, key, k) =~= with_key(arranged, key, k).push(item));
        } else {
            assert(with_key(put_in, key, k) =~= with_key(arranged, key, k));
        }
    }
}

/// Filtering one more item.
pub proof fn lemma_filter_push<A>(items: Seq<A>, pred: spec_fn(A) -> bool, item: A)
    ensures
        items.push(item).filter(pred) == (if pred(item) {
            items.filter(pred).push(item)
        } else {
            items.filter(pred)
        }),
{
    reveal(Seq::filter);
    assert(items.push(item).drop_last() == items);
}

/// Filtering items of which none is wanted.
pub proof fn lemma_filter_none<A>(items: Seq<A>, pred: spec_fn(A) -> bool)
    requires
        forall|j: int| 0 <= j < items.len() ==> !pred(#[trigger] items[j]),
    ensures
        items.filter(pred) == Seq::<A>::empty(),
    decreases items.len(),
{
    reveal(Seq::filter);
    if items.len() > 0 {
        assert forall|j: int| 0 <= j < items.drop_last().len() implies !pred(
            #[trigger] items.drop_last()[j],
        ) by {
            assert(items.drop_last()[j] == items[j]);
        }
        lemma_filter_none(items.drop_last(), pred);
        assert(!pred(items[items.len() - 1]));
    } else {
        assert(items.filter(pred) =~= Seq::<A>::empty());
    }
}

/// An item put in before the first one with a greater key keeps the ascending order, and
/// nothing after it has its key.
pub proof fn lemma_insert_ascending<A>(
    items: Seq<A>,
    key: spec_fn(A) -> Seq<char>,
    at: int,
    item: A,
)
    requires
        ascending(items, key),
        0 <= at <= items.len(),
        forall|i: int| 0 <= i < at ==> !precedes(key(item), key(#[trigger] items[i])),
        at < items.len() ==> precedes(key(item), key(items[at])),
    ensures
        ascending(items.insert(at, item), key),
        forall|j: int| at <= j < items.len() ==> key(#[trigger] items[j]) != key(item),
{
    let put_in = items.insert(at, item);
    assert forall|j: int| at <= j < items.len() implies precedes(
        key(item),
        key(#[trigger] items[j]),
    ) by {
        if j > at {
            lemma_precedes_total(key(items[j]), key(items[at]));
            if key(items[j]) != key(items[at]) {
                lemma_precedes_transitive(key(item), key(items[at]), key(items[j]));
            }
        }
    }
    assert forall|j: int| at <= j < items.len() implies key(#[trigger] items[j]) != key(item) by {
        lemma_precedes_strict(key(item), key(items[j]));
    }
    assert forall|i: int, j: int| 0 <= i < j < put_in.len() implies !precedes(
        key(#[trigger] put_in[j]),
        key(#[trigger] put_in[i]),
    ) by {
        let before = if i < at {
            i
        } else {
            i - 1
        };
        let after = if j < at {
            j
        } else {
            j - 1
        };
        if i == at {
            assert(put_in[j] == items[after]);
            lemma_precedes_strict(key(item), key(items[after]));
        } else if j == at {
            assert(put_in[i] == items[before]);
        } else {
            assert(put_in[i] == items[before]);
            assert(put_in[j] == items[after]);
        }
    }
}

/// An item put in before the first one with a smaller key keeps the descending order, and
/// nothing after it has its key.
pub proof fn lemma_insert_descending<A>(
    items: Seq<A>,
    key: spec_fn(A) -> Seq<char>,
    at: int,
    item: A,
)
    requires
        descending(items, key),
        0 <= at <= items.len(),
        forall|i: int| 0 <= i < at ==> !precedes(key(#[trigger] items[i]), key(item)),
        at < items.len() ==> precedes(key(items[at]), key(item)),
    ensures
        descending(items.insert(at, item), key),
        forall|j: int| at <= j < items.len() ==> key(#[trigger] items[j]) != key(item),
{
    let put_in = items.insert(at, item);
    assert forall|j: int| at <= j < items.len() implies precedes(
        key(#[trigger] items[j]),
        key(item),
    ) by {
        if j > at {
            lemma_precedes_total(key(items[j]), key(items[at]));
            if key(items[j]) != key(items[at]) {
                lemma_precedes_transitive(key(items[j]), key(items[at]), key(item));
            }
        }
    }
    assert forall|j: int| at <= j < items.len() implies key(#[trigger] items[j]) != key(item) by {
        lemma_precedes_strict(key(item), key(items[j]));
    }
    assert forall|i: int, j: int| 0 <= i < j < put_in.len() implies !precedes(
        key(#[trigger] put_in[i]),
        key(#[trigger] put_in[j]),
    ) by {
        let before = if i < at {
            i
        } else {
            i - 1
        };
        let after = if j < at {
            j
        } else {
            j - 1
        };
        if i == at {
            assert(put_in[j] == items[after]);
            lemma_precedes_strict(key(item), key(items[after]));
        } else if j == at {
            assert(put_in[i] == items[before]);
        } else {
            assert(put_in[i] == items[before]);
            assert(put_in[j] == items[after]);
        }
    }
}

/// Rearranging adds and loses nothing: every item is there as often as before.
pub proof fn law_rearranging_loses_nothing<A>(
    arranged: Seq<A>,
    items: Seq<A>,
    key: spec_fn(A) -> Seq<char>,
)
    requires
        rearranged(arranged, items, key),
    ensures
        arranged.to_multiset() == items.to_multiset(),
{
    assert forall|item: A| #[trigger]
        arranged.to_multiset().count(item) == items.to_multiset().count(item) by {
        let k = key(item);
        lemma_count_with_key(arranged, key, item);
        lemma_count_with_key(items, key, item);
        assert(with_key(arranged, key, k) == with_key(items, key, k));
    }
    assert(arranged.to_multiset() =~= items.to_multiset());
}

proof fn lemma_count_with_key<A>(items: Seq<A>, key: spec_fn(A) -> Seq<char>, item: A)
    ensures
        with_key(items, key, key(item)).to_multiset().count(item) == items.to_multiset().count(
            item,
        ),
    decreases items.len(),
{
    broadcast use vstd::seq_lib::group_to_multiset_ensures;

    let pred = has_key(key, key(item));
    reveal(Seq::filter);
    if items.len() > 0 {
        let front = items.drop_last();
        lemma_count_with_key(front, key, item);
        assert(items == front.push(items.last()));
        lemma_filter_push(front, pred, items.last());
    } else {
        assert(items.filter(pred) =~= items);
    }
}

} // verus!
