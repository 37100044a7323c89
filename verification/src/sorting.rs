//! Stable insertion ordering by an integer key, as a specification and for
//! the two orders the game rules use: quest statuses by quest id and item
//! stacks by storage position.
use vstd::prelude::*;
use crate::inventory::{CharacterInventoryItem, INVENTORY_SLOT_BAG_0};
use crate::quest::CharacterQuestStatus;

verus! {

/// `s` with `x` inserted after every trailing element whose key exceeds
/// `key(x)` has been passed over from the back: for a key-sorted `s`, the
/// stable sorted insertion.
pub open spec fn insert_by_key<T>(s: Seq<T>, x: T, key: spec_fn(T) -> int) -> Seq<T>
    decreases s.len(),
{
    if s.len() == 0 {
        seq![x]
    } else if key(s.last()) <= key(x) {
        s.push(x)
    } else {
        insert_by_key(s.drop_last(), x, key).push(s.last())
    }
}

/// Stable insertion sort of `s` by `key`.
pub open spec fn sort_by_key<T>(s: Seq<T>, key: spec_fn(T) -> int) -> Seq<T>
    decreases s.len(),
{
    if s.len() == 0 {
        Seq::empty()
    } else {
        insert_by_key(sort_by_key(s.drop_last(), key), s.last(), key)
    }
}

pub open spec fn sorted_by_key<T>(s: Seq<T>, key: spec_fn(T) -> int) -> bool {
    forall|i: int, j: int| 0 <= i < j < s.len() ==> key(#[trigger] s[i]) <= key(#[trigger] s[j])
}

/// Inserting at the position found by scanning back from the end is
/// `insert_by_key`.
pub proof fn lemma_insert_by_key_at<T>(s: Seq<T>, x: T, key: spec_fn(T) -> int, p: int)
    requires
        0 <= p <= s.len(),
        forall|j: int| p <= j < s.len() ==> key(#[trigger] s[j]) > key(x),
        p == 0 || key(s[p - 1]) <= key(x),
    ensures
        insert_by_key(s, x, key) == s.insert(p, x),
    decreases s.len(),
{
    if s.len() == 0 {
        assert(s.insert(p, x) =~= seq![x]);
    } else if p == s.len() {
        assert(s.insert(p, x) =~= s.push(x));
    } else {
        lemma_insert_by_key_at(s.drop_last(), x, key, p);
        assert(s.drop_last().insert(p, x).push(s.last()) =~= s.insert(p, x));
    }
}

/// Sorted insertion keeps a sequence sorted and adds exactly one copy of `x`.
pub proof fn lemma_insert_by_key_sorted<T>(s: Seq<T>, x: T, key: spec_fn(T) -> int)
    requires
        sorted_by_key(s, key),
    ensures
        sorted_by_key(insert_by_key(s, x, key), key),
        insert_by_key(s, x, key).to_multiset() == s.to_multiset().insert(x),
    decreases s.len(),
{
    broadcast use vstd::seq_lib::group_seq_properties;
    broadcast use vstd::multiset::group_multiset_axioms;
    if s.len() == 0 {
        assert(seq![x] =~= Seq::<T>::empty().push(x));
    } else if key(s.last()) <= key(x) {
    } else {
        let r = insert_by_key(s.drop_last(), x, key);
        lemma_insert_by_key_sorted(s.drop_last(), x, key);
        assert(s.drop_last().push(s.last()) =~= s);
        assert forall|i: int| 0 <= i < r.len() implies key(#[trigger] r[i]) <= key(s.last()) by {
            assert(r.to_multiset().count(r[i]) > 0);
            assert(s.drop_last().to_multiset().insert(x).count(r[i]) > 0);
            if r[i] != x {
                assert(s.drop_last().to_multiset().count(r[i]) > 0);
                assert(s.drop_last().contains(r[i]));
                let k = choose|k: int| 0 <= k < s.drop_last().len() && s.drop_last()[k] == r[i];
                assert(s[k] == r[i]);
            }
        }
        assert(sorted_by_key(r.push(s.last()), key)) by {
            assert forall|i: int, j: int| 0 <= i < j < r.push(s.last()).len() implies
                key(#[trigger] r.push(s.last())[i]) <= key(#[trigger] r.push(s.last())[j]) by {
                if j == r.len() as int {
                    assert(r.push(s.last())[i] == r[i]);
                } else {
                    assert(r.push(s.last())[i] == r[i]);
                    assert(r.push(s.last())[j] == r[j]);
                }
            }
        }
    }
}

/// The stable sort is sorted and a permutation of its input.
pub proof fn lemma_sort_by_key_sorted<T>(s: Seq<T>, key: spec_fn(T) -> int)
    ensures
        sorted_by_key(sort_by_key(s, key), key),
        sort_by_key(s, key).to_multiset() == s.to_multiset(),
    decreases s.len(),
{
    broadcast use vstd::seq_lib::group_seq_properties;
    if s.len() == 0 {
    } else {
        lemma_sort_by_key_sorted(s.drop_last(), key);
        lemma_insert_by_key_sorted(sort_by_key(s.drop_last(), key), s.last(), key);
        assert(s.drop_last().push(s.last()) =~= s);
    }
}

/// The order quest statuses are listed in: by quest id.
pub open spec fn status_key() -> spec_fn(CharacterQuestStatus) -> int {
    |s: CharacterQuestStatus| s.quest as int
}

/// The order item stacks are drawn from: backpack first, then bags by id,
/// then by slot.
pub open spec fn storage_key() -> spec_fn(CharacterInventoryItem) -> int {
    |item: CharacterInventoryItem| (if item.bag == INVENTORY_SLOT_BAG_0 as u32 { 0int } else { 1int }) * 0x100_0000_0000
        + item.bag as int * 0x100 + item.slot as int
}

/// Inserts `x` into `v` at its stable position by quest id.
pub fn insert_status_by_quest(v: &mut Vec<CharacterQuestStatus>, x: CharacterQuestStatus)
    ensures
        final(v)@ == insert_by_key(old(v)@, x, status_key()),
{
    let mut p = v.len();
    while p > 0 && v[p - 1].quest > x.quest
        invariant
            p <= v.len(),
            forall|j: int| p <= j < v@.len() ==> (status_key())(#[trigger] v@[j]) > (status_key())(x),
        decreases p,
    {
        p -= 1;
    }
    proof { lemma_insert_by_key_at(v@, x, status_key(), p as int); }
    v.insert(p, x);
}

/// The storage order of an item as one number.
pub fn storage_order_key(item: &CharacterInventoryItem) -> (key: u64)
    ensures
        key as int == (storage_key())(*item),
{
    (if item.bag == INVENTORY_SLOT_BAG_0 as u32 { 0u64 } else { 1u64 }) * 0x100_0000_0000u64
        + item.bag as u64 * 0x100u64 + item.slot as u64
}

/// Inserts `x` into `v` at its stable position in storage order.
pub fn insert_item_by_storage_order(v: &mut Vec<CharacterInventoryItem>, x: CharacterInventoryItem)
    ensures
        final(v)@ == insert_by_key(old(v)@, x, storage_key()),
{
    let mut p = v.len();
    let xk = storage_order_key(&x);
    while p > 0 && storage_order_key(&v[p - 1]) > xk
        invariant
            p <= v.len(),
            xk == (storage_key())(x),
            forall|j: int| p <= j < v@.len() ==> (storage_key())(#[trigger] v@[j]) > (storage_key())(x),
        decreases p,
    {
        p -= 1;
    }
    proof { lemma_insert_by_key_at(v@, x, storage_key(), p as int); }
    v.insert(p, x);
}

} // verus!
