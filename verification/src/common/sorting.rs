//! Sorting records by a text key.
//!
//! The order is that of [`text_lt`]. Records with equal keys keep the order
//! in which they came.

use vstd::prelude::*;
use crate::common::text::{str_lt, text_lt, texts};

verus! {

/// Where a record with the key `key` is placed among records with the
/// ascending keys `keys`: behind the last one whose key is not greater.
pub open spec fn place_of(keys: Seq<Seq<char>>, key: Seq<char>) -> int
    decreases keys.len(),
{
    if keys.len() == 0 {
        0
    } else if text_lt(key, keys.last()) {
        place_of(keys.drop_last(), key)
    } else {
        keys.len() as int
    }
}

/// The records in ascending order of their keys, with the keys in the same
/// order. `keys` holds the key of each record, by position.
pub open spec fn sorted_with_keys<T>(items: Seq<T>, keys: Seq<Seq<char>>) -> (Seq<T>, Seq<
    Seq<char>,
>)
    decreases items.len(),
{
    if items.len() == 0 || keys.len() != items.len() {
        (Seq::empty(), Seq::empty())
    } else {
        let (sorted, sorted_keys) = sorted_with_keys(items.drop_last(), keys.drop_last());
        let at = place_of(sorted_keys, keys.last());
        (sorted.insert(at, items.last()), sorted_keys.insert(at, keys.last()))
    }
}

/// The records in ascending order of their keys.
pub open spec fn sorted_by_keys<T>(items: Seq<T>, keys: Seq<Seq<char>>) -> Seq<T> {
    sorted_with_keys(items, keys).0
}

/// No key is before the one that precedes it.
pub open spec fn ascending(keys: Seq<Seq<char>>) -> bool {
    forall|i: int| 0 <= i < keys.len() - 1 ==> !text_lt(#[trigger] keys[i + 1], keys[i])
}

/// A text that comes before another does not come after it.
pub proof fn lemma_text_order_asymmetric(a: Seq<char>, b: Seq<char>)
    requires
        text_lt(a, b),
    ensures
        !text_lt(b, a),
    decreases a.len(),
{
    if a.len() > 0 && b.len() > 0 && a[0] == b[0] {
        lemma_text_order_asymmetric(a.drop_first(), b.drop_first());
    }
}

/// The place of a key lies within the list; every key behind it is greater,
/// and the key just before it is not.
pub proof fn lemma_place_of(keys: Seq<Seq<char>>, key: Seq<char>)
    ensures
        0 <= place_of(keys, key) <= keys.len(),
        forall|i: int| place_of(keys, key) <= i < keys.len() ==> text_lt(key, #[trigger] keys[i]),
        place_of(keys, key) > 0 ==> !text_lt(key, keys[place_of(keys, key) - 1]),
    decreases keys.len(),
{
    if keys.len() > 0 && text_lt(key, keys.last()) {
        lemma_place_of(keys.drop_last(), key);
        assert forall|i: int| place_of(keys, key) <= i < keys.len() implies text_lt(
            key,
            #[trigger] keys[i],
        ) by {
            if i < keys.len() - 1 {
                assert(keys.drop_last()[i] == keys[i]);
            }
        }
    }
}

/// Sorting keeps every record with its key, keeps their number, and puts
/// the keys in ascending order.
pub proof fn lemma_sorted_is_ascending<T>(items: Seq<T>, keys: Seq<Seq<char>>)
    requires
        keys.len() == items.len(),
    ensures
        sorted_with_keys(items, keys).0.len() == items.len(),
        sorted_with_keys(items, keys).1.len() == items.len(),
        ascending(sorted_with_keys(items, keys).1),
    decreases items.len(),
{
    if items.len() > 0 {
        lemma_sorted_is_ascending(items.drop_last(), keys.drop_last());
        let (sorted, sorted_keys) = sorted_with_keys(items.drop_last(), keys.drop_last());
        let key = keys.last();
        let at = place_of(sorted_keys, key);
        lemma_place_of(sorted_keys, key);
        let after = sorted_keys.insert(at, key);
        assert forall|i: int| 0 <= i < after.len() - 1 implies !text_lt(
            #[trigger] after[i + 1],
            after[i],
        ) by {
            if i + 1 < at {
                assert(after[i] == sorted_keys[i] && after[i + 1] == sorted_keys[i + 1]);
            } else if i + 1 == at {
                assert(after[i] == sorted_keys[at - 1]);
            } else if i == at {
                assert(after[i + 1] == sorted_keys[at]);
                lemma_text_order_asymmetric(key, sorted_keys[at]);
            } else {
                assert(after[i] == sorted_keys[i - 1] && after[i + 1] == sorted_keys[i]);
                assert(!text_lt(sorted_keys[i - 1 + 1], sorted_keys[i - 1]));
            }
        }
    }
}

/// Sorting neither loses nor invents a record.
pub proof fn lemma_sorted_is_permutation<T>(items: Seq<T>, keys: Seq<Seq<char>>)
    requires
        keys.len() == items.len(),
    ensures
        sorted_by_keys(items, keys).to_multiset() == items.to_multiset(),
    decreases items.len(),
{
    if items.len() > 0 {
        lemma_sorted_is_permutation(items.drop_last(), keys.drop_last());
        lemma_sorted_is_ascending(items.drop_last(), keys.drop_last());
        let (sorted, sorted_keys) = sorted_with_keys(items.drop_last(), keys.drop_last());
        let at = place_of(sorted_keys, keys.last());
        lemma_place_of(sorted_keys, keys.last());
        vstd::seq_lib::to_multiset_insert(sorted, at, items.last());
        assert(items =~= items.drop_last().push(items.last()));
        vstd::seq_lib::to_multiset_insert(items.drop_last(), items.len() - 1, items.last());
        assert(items.drop_last().insert(items.len() - 1, items.last()) =~= items);
    } else {
        assert(sorted_by_keys(items, keys) =~= items);
    }
}

/// Sorts `items` by `keys`, which holds the key of each record, by
/// position.
pub fn sort_by_keys<T>(items: Vec<T>, keys: &Vec<String>) -> (sorted: Vec<T>)
    requires
        keys@.len() == items@.len(),
    ensures
        sorted@ == sorted_by_keys(items@, texts(keys@)),
{
    let mut sorted: Vec<T> = Vec::new();
    let mut order: Vec<usize> = Vec::new();
    let ghost all = items@;
    let ghost all_keys = texts(keys@);
    let mut n: usize = 0;
    let total = keys.len();
    assert(all.subrange(0, 0) =~= Seq::empty());
    assert(all_keys.subrange(0, 0) =~= Seq::<Seq<char>>::empty());
    for item in it: items
        invariant
            it.seq() == all,
            all.len() == total,
            all_keys == texts(keys@),
            keys@.len() == all.len(),
            n == it.index(),
            order@.len() == sorted@.len(),
            sorted@.len() == n,
            forall|j: int| 0 <= j < order@.len() ==> (#[trigger] order@[j]) < keys@.len(),
            sorted_with_keys(all.subrange(0, n as int), all_keys.subrange(0, n as int)) == (
                sorted@,
                Seq::new(order@.len(), |j: int| keys@[order@[j] as int]@),
            ),
    {
        let ghost placed = Seq::new(order@.len(), |j: int| keys@[order@[j] as int]@);
        let mut at: usize = order.len();
        assert(n < all.len());
        assert(placed.subrange(0, at as int) =~= placed);
        while at > 0 && str_lt(keys[n].as_str(), keys[order[at - 1]].as_str())
            invariant
                at <= order@.len(),
                n < keys@.len(),
                placed == Seq::new(order@.len(), |j: int| keys@[order@[j] as int]@),
                forall|j: int| 0 <= j < order@.len() ==> (#[trigger] order@[j]) < keys@.len(),
                place_of(placed, keys@[n as int]@) == place_of(
                    placed.subrange(0, at as int),
                    keys@[n as int]@,
                ),
            decreases at,
        {
            assert(placed.subrange(0, at as int).last() == placed[at - 1]);
            assert(placed.subrange(0, at as int).drop_last() =~= placed.subrange(0, at - 1));
            at = at - 1;
        }
        proof {
            if at > 0 {
                assert(placed.subrange(0, at as int).last() == placed[at - 1]);
            }
            assert(placed.subrange(0, order@.len() as int) =~= placed);
            assert(all.subrange(0, n + 1).drop_last() =~= all.subrange(0, n as int));
            assert(all_keys.subrange(0, n + 1).drop_last() =~= all_keys.subrange(0, n as int));
            assert(all_keys.subrange(0, n + 1).last() == keys@[n as int]@);
            assert(all.subrange(0, n + 1).last() == item);
        }
        sorted.insert(at, item);
        order.insert(at, n);
        assert(Seq::new(order@.len(), |j: int| keys@[order@[j] as int]@) =~= placed.insert(
            at as int,
            keys@[n as int]@,
        ));
        n = n + 1;
    }
    assert(all.subrange(0, all.len() as int) =~= all);
    assert(all_keys.subrange(0, all.len() as int) =~= all_keys);
    sorted
}

/// The records whose flag is set, in order. `flags` holds the flag of each
/// record, by position.
pub open spec fn flagged<T>(items: Seq<T>, flags: Seq<bool>) -> Seq<T>
    decreases items.len(),
{
    if items.len() == 0 || flags.len() != items.len() {
        Seq::empty()
    } else if flags.last() {
        flagged(items.drop_last(), flags.drop_last()).push(items.last())
    } else {
        flagged(items.drop_last(), flags.drop_last())
    }
}

/// The last `count` records, or all if there are fewer.
pub open spec fn last_of<T>(items: Seq<T>, count: nat) -> Seq<T> {
    if count >= items.len() {
        items
    } else {
        items.subrange(items.len() - count, items.len() as int)
    }
}

/// Keeps the records whose flag is set.
pub fn keep_flagged<T>(items: Vec<T>, flags: &Vec<bool>) -> (kept: Vec<T>)
    requires
        flags@.len() == items@.len(),
    ensures
        kept@ == flagged(items@, flags@),
{
    let mut kept: Vec<T> = Vec::new();
    let ghost all = items@;
    let total = flags.len();
    let mut n: usize = 0;
    assert(all.subrange(0, 0) =~= Seq::empty());
    assert(flags@.subrange(0, 0) =~= Seq::empty());
    for item in it: items
        invariant
            it.seq() == all,
            all.len() == total,
            flags@.len() == total,
            n == it.index(),
            kept@ == flagged(all.subrange(0, n as int), flags@.subrange(0, n as int)),
    {
        assert(n < all.len());
        assert(all.subrange(0, n + 1).drop_last() =~= all.subrange(0, n as int));
        assert(flags@.subrange(0, n + 1).drop_last() =~= flags@.subrange(0, n as int));
        assert(all.subrange(0, n + 1).last() == item);
        assert(flags@.subrange(0, n + 1).last() == flags@[n as int]);
        if flags[n] {
            kept.push(item);
        }
        n = n + 1;
    }
    assert(all.subrange(0, all.len() as int) =~= all);
    assert(flags@.subrange(0, total as int) =~= flags@);
    kept
}

/// Keeps the last `count` records, or all if there are fewer.
pub fn keep_last<T>(items: Vec<T>, count: usize) -> (kept: Vec<T>)
    ensures
        kept@ == last_of(items@, count as nat),
{
    let mut items = items;
    if count >= items.len() {
        items
    } else {
        let from = items.len() - count;
        items.split_off(from)
    }
}

} // verus!
