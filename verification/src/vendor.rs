//! Vendor stock with timed restocking, buy-in-slot planning, selling rules,
//! and the twelve-slot buyback ring.
use vstd::prelude::*;
use crate::guid::{ObjectGuid, player_guid};
use crate::trade::{BUY_ERR_CANT_FIND_ITEM, BUY_ERR_NOT_ENOUGHT_MONEY};
use crate::inventory::{
    plan_spec, plan_store_item,
    CharacterInventoryItem, EquippedBagInfo, ItemTemplateQuery, StoreSlot, INVENTORY_SLOT_BAG_0, bag_accepts_item,
    bag_accepts_item_spec, is_backpack_item_slot, is_bag_slot, storage_position_exists, storage_position_exists_spec,
    template_max_stack,
};

verus! {

pub const BUYBACK_SLOT_START: u8 = 69;
pub const BUYBACK_SLOT_END: u8 = 81;
/// Timestamp given to the first buyback entry of a session.
pub const BUYBACK_DURATION_SECS: u32 = 108000;

/// The fields of a vendor's item row that stock and listing rules read.
#[derive(Clone, Copy, Debug, PartialEq, Eq, Structural)]
pub struct VendorItemQuery {
    pub item: u32,
    pub max_count: u32,
    pub incr_time: u32,
    pub buy_count: u32,
    pub buy_price: u32,
    pub display_id: u32,
    pub max_durability: u32,
    pub container_slots: u32,
}

#[derive(Clone, Copy, Debug, PartialEq, Eq, Structural)]
pub struct VendorStockKey {
    pub vendor_guid_raw: u64,
    pub item: u32,
}

#[derive(Clone, Copy, Debug, PartialEq, Eq, Structural)]
pub struct VendorStockEntry {
    pub count: u32,
    pub last_increment_time: u64,
}

#[derive(Clone, Copy, Debug, PartialEq, Eq, Structural)]
pub struct VendorStockCount {
    pub count: u32,
    /// The stock entry to keep afterwards; `None` means none is kept (full stock).
    pub updated_entry: Option<VendorStockEntry>,
}

impl VendorStockKey {
    pub fn new(vendor_guid: ObjectGuid, item: u32) -> (key: Self)
        ensures
            key == (VendorStockKey { vendor_guid_raw: vendor_guid.raw, item }),
    {
        VendorStockKey { vendor_guid_raw: vendor_guid.raw, item }
    }
}

pub open spec fn sat_add_u32(a: u32, b: u32) -> u32 {
    if a + b > u32::MAX { u32::MAX } else { (a + b) as u32 }
}

pub open spec fn sat_add_u64(a: u64, b: u64) -> u64 {
    if a + b > u64::MAX { u64::MAX } else { (a + b) as u64 }
}

pub open spec fn sat_mul_u32(a: u32, b: u32) -> u32 {
    if a * b > u32::MAX { u32::MAX } else { (a * b) as u32 }
}

/// The stock after restocking `buy_count` (at least 1) per elapsed
/// `incr_time`, when at least one interval has passed since the last increment.
pub open spec fn replenished_count_spec(vendor_item: VendorItemQuery, entry: VendorStockEntry, now_secs: u64) -> Option<u32> {
    if vendor_item.incr_time == 0 || sat_add_u64(entry.last_increment_time, vendor_item.incr_time as u64) > now_secs {
        None
    } else {
        let intervals = ((now_secs - entry.last_increment_time) / (vendor_item.incr_time as int)) as u64;
        let step: u32 = if vendor_item.buy_count > 1 { vendor_item.buy_count } else { 1 };
        Some(sat_add_u32(entry.count, sat_mul_u32(intervals as u32, step)))
    }
}

pub fn vendor_item_replenished_count(vendor_item: &VendorItemQuery, entry: VendorStockEntry, now_secs: u64) -> (count: Option<u32>)
    ensures
        count == replenished_count_spec(*vendor_item, entry, now_secs),
{
    if vendor_item.incr_time == 0 || entry.last_increment_time.saturating_add(vendor_item.incr_time as u64) > now_secs {
        return None;
    }
    let intervals: u64 = (now_secs - entry.last_increment_time) / vendor_item.incr_time as u64;
    let step: u32 = if vendor_item.buy_count > 1 { vendor_item.buy_count } else { 1 };
    let added: u32 = match (intervals as u32).checked_mul(step) {
        Some(product) => product,
        None => u32::MAX,
    };
    Some(entry.count.saturating_add(added))
}

/// The stock a limited item shows now: unlimited items show 0 and keep no
/// entry; with no entry the stock is full; restocking that reaches the
/// maximum drops the entry.
pub open spec fn current_count_spec(vendor_item: VendorItemQuery, entry: Option<VendorStockEntry>, now_secs: u64) -> VendorStockCount {
    if vendor_item.max_count == 0 {
        VendorStockCount { count: 0, updated_entry: None }
    } else {
        match entry {
            None => VendorStockCount { count: vendor_item.max_count, updated_entry: None },
            Some(e) => match replenished_count_spec(vendor_item, e, now_secs) {
                Some(r) => if r >= vendor_item.max_count {
                    VendorStockCount { count: vendor_item.max_count, updated_entry: None }
                } else {
                    VendorStockCount { count: r, updated_entry: Some(VendorStockEntry { count: r, last_increment_time: now_secs }) }
                },
                None => VendorStockCount { count: e.count, updated_entry: Some(e) },
            },
        }
    }
}

pub fn vendor_item_current_count(vendor_item: &VendorItemQuery, entry: Option<VendorStockEntry>, now_secs: u64) -> (current: VendorStockCount)
    ensures
        current == current_count_spec(*vendor_item, entry, now_secs),
{
    if vendor_item.max_count == 0 {
        return VendorStockCount { count: 0, updated_entry: None };
    }
    let mut entry = match entry {
        None => { return VendorStockCount { count: vendor_item.max_count, updated_entry: None }; },
        Some(e) => e,
    };
    if let Some(replenished) = vendor_item_replenished_count(vendor_item, entry, now_secs) {
        if replenished >= vendor_item.max_count {
            return VendorStockCount { count: vendor_item.max_count, updated_entry: None };
        }
        entry.count = replenished;
        entry.last_increment_time = now_secs;
    }
    VendorStockCount { count: entry.count, updated_entry: Some(entry) }
}

/// Buying `used_count` of a limited item: refused when the current stock is
/// smaller; otherwise the stock drops by `used_count`, stamped `now_secs`.
pub open spec fn consume_count_spec(
    vendor_item: VendorItemQuery,
    entry: Option<VendorStockEntry>,
    used_count: u32,
    now_secs: u64,
) -> Option<VendorStockCount> {
    if vendor_item.max_count == 0 {
        Some(VendorStockCount { count: 0, updated_entry: None })
    } else {
        let current = current_count_spec(vendor_item, entry, now_secs);
        if current.count < used_count {
            None
        } else {
            let new_count = (current.count - used_count) as u32;
            Some(VendorStockCount {
                count: new_count,
                updated_entry: Some(VendorStockEntry { count: new_count, last_increment_time: now_secs }),
            })
        }
    }
}

pub fn vendor_item_consume_count(
    vendor_item: &VendorItemQuery,
    entry: Option<VendorStockEntry>,
    used_count: u32,
    now_secs: u64,
) -> (outcome: Option<VendorStockCount>)
    ensures
        outcome == consume_count_spec(*vendor_item, entry, used_count, now_secs),
{
    if vendor_item.max_count == 0 {
        return Some(VendorStockCount { count: 0, updated_entry: None });
    }
    let mut current = vendor_item_current_count(vendor_item, entry, now_secs);
    if current.count < used_count {
        return None;
    }
    let new_count = current.count - used_count;
    current.updated_entry = Some(VendorStockEntry { count: new_count, last_increment_time: now_secs });
    current.count = new_count;
    Some(current)
}

/// Stock entries of all vendors, keyed by vendor and item.
pub struct VendorStockState {
    entries: Vec<(VendorStockKey, VendorStockEntry)>,
}

/// The entry stored for `key`: the first with that key.
pub open spec fn stock_lookup(entries: Seq<(VendorStockKey, VendorStockEntry)>, key: VendorStockKey) -> Option<VendorStockEntry>
    decreases entries.len(),
{
    if entries.len() == 0 {
        None
    } else {
        match stock_lookup(entries.drop_last(), key) {
            Some(e) => Some(e),
            None => if entries.last().0 == key { Some(entries.last().1) } else { None },
        }
    }
}

pub open spec fn keys_distinct(entries: Seq<(VendorStockKey, VendorStockEntry)>) -> bool {
    forall|i: int, j: int| 0 <= i < j < entries.len() ==> (#[trigger] entries[i]).0 != (#[trigger] entries[j]).0
}

proof fn lemma_lookup_index(entries: Seq<(VendorStockKey, VendorStockEntry)>, key: VendorStockKey)
    requires
        keys_distinct(entries),
    ensures
        forall|i: int| 0 <= i < entries.len() && (#[trigger] entries[i]).0 == key ==> stock_lookup(entries, key) == Some(entries[i].1),
        (forall|i: int| 0 <= i < entries.len() ==> (#[trigger] entries[i]).0 != key) ==> stock_lookup(entries, key) is None,
    decreases entries.len(),
{
    if entries.len() > 0 {
        let prefix = entries.drop_last();
        assert(keys_distinct(prefix));
        lemma_lookup_index(prefix, key);
        assert forall|i: int| 0 <= i < prefix.len() implies prefix[i] == #[trigger] entries[i] by {}
    }
}

impl VendorStockState {
    pub closed spec fn view(&self) -> Seq<(VendorStockKey, VendorStockEntry)> {
        self.entries@
    }

    /// Entries have distinct keys.
    pub closed spec fn wf(&self) -> bool {
        keys_distinct(self.entries@)
    }

    pub open spec fn lookup(&self, key: VendorStockKey) -> Option<VendorStockEntry> {
        stock_lookup(self.view(), key)
    }

    pub fn new() -> (state: Self)
        ensures
            state.wf(),
            forall|key: VendorStockKey| #[trigger] state.lookup(key) is None,
    {
        VendorStockState { entries: Vec::new() }
    }

    pub fn get(&self, key: VendorStockKey) -> (entry: Option<VendorStockEntry>)
        requires
            self.wf(),
        ensures
            entry == self.lookup(key),
    {
        proof { lemma_lookup_index(self.entries@, key); }
        let mut i: usize = 0;
        while i < self.entries.len()
            invariant
                i <= self.entries.len(),
                keys_distinct(self.entries@),
                forall|j: int| 0 <= j < i ==> (#[trigger] self.entries@[j]).0 != key,
            decreases self.entries.len() - i,
        {
            if self.entries[i].0 == key {
                proof { lemma_lookup_index(self.entries@, key); }
                return Some(self.entries[i].1);
            }
            i += 1;
        }
        None
    }
}

/// Stores `entry` for `key`, or forgets `key` when `entry` is `None`.
pub fn update_vendor_stock_entry(state: &mut VendorStockState, key: VendorStockKey, entry: Option<VendorStockEntry>)
    requires
        old(state).wf(),
    ensures
        final(state).wf(),
        forall|k: VendorStockKey| #[trigger] final(state).lookup(k) == if k == key { entry } else { old(state).lookup(k) },
{
    let mut i: usize = 0;
    while i < state.entries.len() && state.entries[i].0 != key
        invariant
            i <= state.entries.len(),
            forall|j: int| 0 <= j < i ==> (#[trigger] state.entries@[j]).0 != key,
        decreases state.entries.len() - i,
    {
        i += 1;
    }
    let ghost before = state.entries@;
    if i < state.entries.len() {
        match entry {
            Some(e) => {
                state.entries.set(i, (key, e));
                proof { lemma_lookup_set(before, i as int, e); }
            },
            None => {
                state.entries.remove(i);
                proof { lemma_lookup_remove(before, i as int); }
            },
        }
    } else {
        if let Some(e) = entry {
            state.entries.push((key, e));
            proof { lemma_lookup_push(before, key, e); }
        } else {
            proof {
                assert forall|k: VendorStockKey| #[trigger] stock_lookup(before, k) == if k == key { entry } else { stock_lookup(before, k) } by {
                    lemma_lookup_index(before, k);
                }
            }
        }
    }
}

proof fn lemma_lookup_set(s: Seq<(VendorStockKey, VendorStockEntry)>, i: int, e: VendorStockEntry)
    requires
        keys_distinct(s),
        0 <= i < s.len(),
    ensures
        keys_distinct(s.update(i, (s[i].0, e))),
        forall|k: VendorStockKey| #[trigger] stock_lookup(s.update(i, (s[i].0, e)), k)
            == if k == s[i].0 { Some(e) } else { stock_lookup(s, k) },
{
    let t = s.update(i, (s[i].0, e));
    assert forall|a: int, b: int| 0 <= a < b < t.len() implies (#[trigger] t[a]).0 != (#[trigger] t[b]).0 by {
        assert(s[a].0 != s[b].0);
    }
    assert forall|k: VendorStockKey| #[trigger] stock_lookup(t, k) == if k == s[i].0 { Some(e) } else { stock_lookup(s, k) } by {
        lemma_lookup_index(s, k);
        lemma_lookup_index(t, k);
        if k == s[i].0 {
            assert(t[i].0 == k);
        } else if exists|j: int| 0 <= j < s.len() && (#[trigger] s[j]).0 == k {
            let j = choose|j: int| 0 <= j < s.len() && (#[trigger] s[j]).0 == k;
            assert(t[j] == s[j]);
        } else {
            assert forall|j: int| 0 <= j < t.len() implies (#[trigger] t[j]).0 != k by {
                if j != i {
                    assert(t[j] == s[j]);
                }
            }
        }
    }
}

proof fn lemma_lookup_remove(s: Seq<(VendorStockKey, VendorStockEntry)>, i: int)
    requires
        keys_distinct(s),
        0 <= i < s.len(),
    ensures
        keys_distinct(s.remove(i)),
        forall|k: VendorStockKey| #[trigger] stock_lookup(s.remove(i), k)
            == if k == s[i].0 { None } else { stock_lookup(s, k) },
{
    let t = s.remove(i);
    assert forall|j: int| 0 <= j < t.len() implies #[trigger] t[j] == if j < i { s[j] } else { s[j + 1] } by {}
    assert forall|a: int, b: int| 0 <= a < b < t.len() implies (#[trigger] t[a]).0 != (#[trigger] t[b]).0 by {
        let a0 = if a < i { a } else { a + 1 };
        let b0 = if b < i { b } else { b + 1 };
        assert(t[a] == s[a0]);
        assert(t[b] == s[b0]);
    }
    assert forall|k: VendorStockKey| #[trigger] stock_lookup(t, k) == if k == s[i].0 { None } else { stock_lookup(s, k) } by {
        lemma_lookup_index(s, k);
        lemma_lookup_index(t, k);
        if k == s[i].0 {
            assert forall|j: int| 0 <= j < t.len() implies (#[trigger] t[j]).0 != k by {
                let j0 = if j < i { j } else { j + 1 };
                assert(t[j] == s[j0]);
            }
        } else if exists|j: int| 0 <= j < s.len() && (#[trigger] s[j]).0 == k {
            let j = choose|j: int| 0 <= j < s.len() && (#[trigger] s[j]).0 == k;
            let j2 = if j < i { j } else { j - 1 };
            assert(t[j2] == s[j]);
        } else {
            assert forall|j: int| 0 <= j < t.len() implies (#[trigger] t[j]).0 != k by {
                let j0 = if j < i { j } else { j + 1 };
                assert(t[j] == s[j0]);
            }
        }
    }
}

proof fn lemma_lookup_push(s: Seq<(VendorStockKey, VendorStockEntry)>, key: VendorStockKey, e: VendorStockEntry)
    requires
        keys_distinct(s),
        forall|j: int| 0 <= j < s.len() ==> (#[trigger] s[j]).0 != key,
    ensures
        keys_distinct(s.push((key, e))),
        forall|k: VendorStockKey| #[trigger] stock_lookup(s.push((key, e)), k)
            == if k == key { Some(e) } else { stock_lookup(s, k) },
{
    let t = s.push((key, e));
    assert forall|a: int, b: int| 0 <= a < b < t.len() implies (#[trigger] t[a]).0 != (#[trigger] t[b]).0 by {
        assert(t[a] == s[a]);
        if b < s.len() {
            assert(t[b] == s[b]);
        }
    }
    assert forall|k: VendorStockKey| #[trigger] stock_lookup(t, k) == if k == key { Some(e) } else { stock_lookup(s, k) } by {
        lemma_lookup_index(s, k);
        lemma_lookup_index(t, k);
        if k == key {
            assert(t[s.len() as int].0 == key);
        } else if exists|j: int| 0 <= j < s.len() && (#[trigger] s[j]).0 == k {
            let j = choose|j: int| 0 <= j < s.len() && (#[trigger] s[j]).0 == k;
            assert(t[j] == s[j]);
        } else {
            assert forall|j: int| 0 <= j < t.len() implies (#[trigger] t[j]).0 != k by {
                if j < s.len() {
                    assert(t[j] == s[j]);
                }
            }
        }
    }
}

/// A vendor list row with the stock it shows.
#[derive(Clone, Copy, Debug, PartialEq, Eq, Structural)]
pub struct VendorListItem {
    pub item: u32,
    pub display: u32,
    pub max_count: u32,
    pub price: u32,
    pub durability: u32,
    pub buy_count: u32,
}

impl VendorListItem {
    pub fn from_vendor_item(item: &VendorItemQuery, count: u32) -> (row: Self)
        ensures
            row == (VendorListItem {
                item: item.item,
                display: item.display_id,
                max_count: count,
                price: item.buy_price,
                durability: item.max_durability,
                buy_count: item.buy_count,
            }),
    {
        VendorListItem {
            item: item.item,
            display: item.display_id,
            max_count: count,
            price: item.buy_price,
            durability: item.max_durability,
            buy_count: item.buy_count,
        }
    }
}

impl VendorStockState {
    /// The current stock of an item; the stored entry is brought up to date.
    pub fn current_count(&mut self, vendor_guid: ObjectGuid, vendor_item: &VendorItemQuery, now_secs: u64) -> (count: u32)
        requires
            old(self).wf(),
        ensures
            final(self).wf(),
            count == current_count_spec(*vendor_item, old(self).lookup(VendorStockKey { vendor_guid_raw: vendor_guid.raw, item: vendor_item.item }), now_secs).count,
            forall|k: VendorStockKey| #[trigger] final(self).lookup(k) == if k == (VendorStockKey { vendor_guid_raw: vendor_guid.raw, item: vendor_item.item }) {
                current_count_spec(*vendor_item, old(self).lookup(k), now_secs).updated_entry
            } else {
                old(self).lookup(k)
            },
    {
        let key = VendorStockKey::new(vendor_guid, vendor_item.item);
        let current = vendor_item_current_count(vendor_item, self.get(key), now_secs);
        update_vendor_stock_entry(self, key, current.updated_entry);
        current.count
    }

    /// Takes `used_count` of an item from stock; `None` (stock unchanged)
    /// when there is not enough.
    pub fn consume_item(&mut self, vendor_guid: ObjectGuid, vendor_item: &VendorItemQuery, used_count: u32, now_secs: u64) -> (left: Option<u32>)
        requires
            old(self).wf(),
        ensures
            final(self).wf(),
            match consume_count_spec(*vendor_item, old(self).lookup(VendorStockKey { vendor_guid_raw: vendor_guid.raw, item: vendor_item.item }), used_count, now_secs) {
                None => left is None && final(self).view() == old(self).view(),
                Some(outcome) => left == Some(outcome.count) && forall|k: VendorStockKey| #[trigger] final(self).lookup(k)
                    == if k == (VendorStockKey { vendor_guid_raw: vendor_guid.raw, item: vendor_item.item }) {
                    outcome.updated_entry
                } else {
                    old(self).lookup(k)
                },
            },
    {
        let key = VendorStockKey::new(vendor_guid, vendor_item.item);
        let outcome = match vendor_item_consume_count(vendor_item, self.get(key), used_count, now_secs) {
            Some(o) => o,
            None => { return None; },
        };
        update_vendor_stock_entry(self, key, outcome.updated_entry);
        Some(outcome.count)
    }
}

// ---------------------------------------------------------------------------
// Buying and selling

#[derive(Clone, Copy, Debug, PartialEq, Eq, Structural)]
pub struct BuyItemInSlotRequest {
    pub vendor_guid: ObjectGuid,
    pub item: u32,
    pub bag_guid: ObjectGuid,
    pub bag_slot: u8,
    pub count: u8,
}

/// The bag whose contents go with a sold container: its own bag slot, when
/// the sold item is a bag equipped in a bag slot.
pub fn sell_item_container_contents_bag(source_item: &CharacterInventoryItem, template: &ItemTemplateQuery) -> (bag: Option<u8>)
    ensures
        bag == if template.container_slots != 0 && source_item.bag == INVENTORY_SLOT_BAG_0 as u32 && is_bag_slot(source_item.slot) {
            Some(source_item.slot)
        } else {
            None
        },
{
    if template.container_slots == 0 {
        return None;
    }
    if source_item.bag == INVENTORY_SLOT_BAG_0 as u32 && is_bag_slot(source_item.slot) {
        Some(source_item.slot)
    } else {
        None
    }
}

/// Selling an equipped bag that still holds items.
pub fn sell_item_is_non_empty_container(
    inventory: &[CharacterInventoryItem],
    source_item: &CharacterInventoryItem,
    template: &ItemTemplateQuery,
) -> (non_empty: bool)
    ensures
        non_empty == (template.container_slots != 0 && source_item.bag == INVENTORY_SLOT_BAG_0 as u32
            && is_bag_slot(source_item.slot)
            && exists|i: int| 0 <= i < inventory@.len() && #[trigger] inventory@[i].bag == source_item.slot as u32),
{
    match sell_item_container_contents_bag(source_item, template) {
        None => false,
        Some(bag) => {
            let mut i: usize = 0;
            while i < inventory.len()
                invariant
                    i <= inventory.len(),
                    bag == source_item.slot,
                    template.container_slots != 0 && source_item.bag == INVENTORY_SLOT_BAG_0 as u32 && is_bag_slot(source_item.slot),
                    forall|j: int| 0 <= j < i ==> #[trigger] inventory@[j].bag != bag as u32,
                decreases inventory.len() - i,
            {
                if inventory[i].bag == bag as u32 {
                    return true;
                }
                i += 1;
            }
            false
        },
    }
}

/// The first equipped bag (in a bag slot) whose instance is `counter`.
pub open spec fn equipped_bag_with_counter(inventory: Seq<CharacterInventoryItem>, counter: u32) -> Option<u8>
    decreases inventory.len(),
{
    if inventory.len() == 0 {
        None
    } else {
        match equipped_bag_with_counter(inventory.drop_last(), counter) {
            Some(s) => Some(s),
            None => {
                let item = inventory.last();
                if item.item == counter && item.bag == INVENTORY_SLOT_BAG_0 as u32 && is_bag_slot(item.slot) {
                    Some(item.slot)
                } else {
                    None
                }
            },
        }
    }
}

/// Where a buy-into-slot lands: a backpack slot when the bag is the player,
/// else the given slot of the player's equipped bag with that GUID.
pub fn resolve_buy_item_in_slot_destination(
    character_guid: u32,
    request: BuyItemInSlotRequest,
    inventory: &[CharacterInventoryItem],
) -> (dest: Option<(u8, u8)>)
    ensures
        dest == if request.bag_guid.raw == character_guid as u64 {
            if is_backpack_item_slot(request.bag_slot) { Some((INVENTORY_SLOT_BAG_0, request.bag_slot)) } else { None }
        } else {
            match equipped_bag_with_counter(inventory@, request.bag_guid.counter()) {
                Some(bag) => Some((bag, request.bag_slot)),
                None => None,
            }
        },
{
    let player = player_guid(character_guid);
    if request.bag_guid.raw == player.raw {
        return if is_backpack_item_slot(request.bag_slot) {
            Some((INVENTORY_SLOT_BAG_0, request.bag_slot))
        } else {
            None
        };
    }
    let counter = request.bag_guid.counter();
    let mut i: usize = 0;
    while i < inventory.len()
        invariant
            i <= inventory.len(),
            counter == request.bag_guid.counter(),
            request.bag_guid.raw != character_guid as u64,
            equipped_bag_with_counter(inventory@.take(i as int), counter) is None,
        decreases inventory.len() - i,
    {
        assert(inventory@.take(i + 1).drop_last() =~= inventory@.take(i as int));
        let item = inventory[i];
        if item.item == counter && item.bag == INVENTORY_SLOT_BAG_0 as u32 && is_bag_slot(item.slot) {
            proof { lemma_equipped_bag_prefix(inventory@, counter, (i + 1) as int); }
            return Some((item.slot, request.bag_slot));
        }
        i += 1;
    }
    assert(inventory@.take(inventory@.len() as int) =~= inventory@);
    None
}

proof fn lemma_equipped_bag_prefix(inventory: Seq<CharacterInventoryItem>, counter: u32, n: int)
    requires
        0 <= n <= inventory.len(),
        equipped_bag_with_counter(inventory.take(n), counter) is Some,
    ensures
        equipped_bag_with_counter(inventory, counter) == equipped_bag_with_counter(inventory.take(n), counter),
    decreases inventory.len() - n,
{
    if n < inventory.len() {
        assert(inventory.take(n + 1).drop_last() =~= inventory.take(n));
        lemma_equipped_bag_prefix(inventory, counter, n + 1);
    } else {
        assert(inventory.take(n) =~= inventory);
    }
}

/// The first item at `(bag, slot)`.
pub open spec fn item_at(inventory: Seq<CharacterInventoryItem>, bag: u8, slot: u8) -> Option<CharacterInventoryItem>
    decreases inventory.len(),
{
    if inventory.len() == 0 {
        None
    } else {
        match item_at(inventory.drop_last(), bag, slot) {
            Some(found) => Some(found),
            None => if inventory.last().bag == bag as u32 && inventory.last().slot == slot { Some(inventory.last()) } else { None },
        }
    }
}

proof fn lemma_item_at_prefix(inventory: Seq<CharacterInventoryItem>, bag: u8, slot: u8, n: int)
    requires
        0 <= n <= inventory.len(),
        item_at(inventory.take(n), bag, slot) is Some,
    ensures
        item_at(inventory, bag, slot) == item_at(inventory.take(n), bag, slot),
    decreases inventory.len() - n,
{
    if n < inventory.len() {
        assert(inventory.take(n + 1).drop_last() =~= inventory.take(n));
        lemma_item_at_prefix(inventory, bag, slot, n + 1);
    } else {
        assert(inventory.take(n) =~= inventory);
    }
}

/// The first item at `(bag, slot)`.
pub fn find_item_at(inventory: &[CharacterInventoryItem], bag: u8, slot: u8) -> (found: Option<CharacterInventoryItem>)
    ensures
        found == item_at(inventory@, bag, slot),
{
    let mut i: usize = 0;
    while i < inventory.len()
        invariant
            i <= inventory.len(),
            item_at(inventory@.take(i as int), bag, slot) is None,
        decreases inventory.len() - i,
    {
        assert(inventory@.take(i + 1).drop_last() =~= inventory@.take(i as int));
        if inventory[i].bag == bag as u32 && inventory[i].slot == slot {
            proof { lemma_item_at_prefix(inventory@, bag, slot, (i + 1) as int); }
            return Some(inventory[i]);
        }
        i += 1;
    }
    assert(inventory@.take(inventory@.len() as int) =~= inventory@);
    None
}

/// Buying `count` into one chosen carried slot: it must exist and take the
/// item; an existing stack there must be the same item with room for all of
/// them, an empty slot must hold them in one stack.
pub open spec fn vendor_slot_plan_spec(
    inventory: Seq<CharacterInventoryItem>,
    template: ItemTemplateQuery,
    count: u32,
    bags: Seq<EquippedBagInfo>,
    dst_bag: u8,
    dst_slot: u8,
) -> Option<Seq<StoreSlot>> {
    let max_stack = template_max_stack(template);
    if count == 0 || !storage_position_exists_spec(dst_bag, dst_slot, bags) || !bag_accepts_item_spec(dst_bag, template, bags) {
        None
    } else {
        match item_at(inventory, dst_bag, dst_slot) {
            Some(existing) => if existing.item_template != template.entry || existing.count >= max_stack
                || count > max_stack - existing.count {
                None
            } else {
                Some(seq![StoreSlot { bag: dst_bag, slot: dst_slot, count, existing_item: Some(existing.item) }])
            },
            None => if count > max_stack {
                None
            } else {
                Some(seq![StoreSlot { bag: dst_bag, slot: dst_slot, count, existing_item: None }])
            },
        }
    }
}

pub fn plan_store_vendor_item_in_slot(
    inventory: &[CharacterInventoryItem],
    template: &ItemTemplateQuery,
    count: u32,
    equipped_bags: &[EquippedBagInfo],
    dst_bag: u8,
    dst_slot: u8,
) -> (plan: Option<Vec<StoreSlot>>)
    ensures
        match plan {
            Some(p) => vendor_slot_plan_spec(inventory@, *template, count, equipped_bags@, dst_bag, dst_slot) == Some(p@),
            None => vendor_slot_plan_spec(inventory@, *template, count, equipped_bags@, dst_bag, dst_slot) is None,
        },
{
    if count == 0 || !storage_position_exists(dst_bag, dst_slot, equipped_bags)
        || !bag_accepts_item(dst_bag, template, equipped_bags) {
        return None;
    }
    let max_stack = if template.stackable > 1 { template.stackable } else { 1 };
    match find_item_at(inventory, dst_bag, dst_slot) {
        Some(existing) => {
            if existing.item_template != template.entry || existing.count >= max_stack {
                return None;
            }
            let free = max_stack - existing.count;
            if count > free {
                return None;
            }
            let plan = vec![StoreSlot { bag: dst_bag, slot: dst_slot, count, existing_item: Some(existing.item) }];
            assert(plan@ =~= seq![StoreSlot { bag: dst_bag, slot: dst_slot, count, existing_item: Some(existing.item) }]);
            Some(plan)
        },
        None => {
            if count > max_stack {
                return None;
            }
            let plan = vec![StoreSlot { bag: dst_bag, slot: dst_slot, count, existing_item: None }];
            assert(plan@ =~= seq![StoreSlot { bag: dst_bag, slot: dst_slot, count, existing_item: None }]);
            Some(plan)
        },
    }
}

// ---------------------------------------------------------------------------
// Buyback

#[derive(Clone, Copy, Debug, PartialEq, Eq, Structural)]
pub struct BuybackItem {
    pub slot: u8,
    pub item: u32,
    pub price: u32,
    pub timestamp: u32,
}

/// The session's buyback entries and the slot the next sale goes to.
#[derive(Clone, Debug)]
pub struct BuybackState {
    pub buyback_items: Vec<BuybackItem>,
    pub next_buyback_slot: u8,
}

#[verifier::allow_in_spec]
pub fn is_buyback_slot(slot: u8) -> bool
    returns
        BUYBACK_SLOT_START <= slot < BUYBACK_SLOT_END,
{
    BUYBACK_SLOT_START <= slot && slot < BUYBACK_SLOT_END
}

/// The 0-based index of a buyback slot.
pub fn vendor_buyback_slot_index(slot: u8) -> (index: Option<usize>)
    ensures
        index == if is_buyback_slot(slot) { Some((slot - BUYBACK_SLOT_START) as usize) } else { None },
{
    if is_buyback_slot(slot) {
        Some((slot - BUYBACK_SLOT_START) as usize)
    } else {
        None
    }
}

#[verifier::allow_in_spec]
pub fn normalized_buyback_cursor(state: &BuybackState) -> u8
    returns
        (if is_buyback_slot(state.next_buyback_slot) { state.next_buyback_slot } else { BUYBACK_SLOT_START }),
{
    if is_buyback_slot(state.next_buyback_slot) {
        state.next_buyback_slot
    } else {
        BUYBACK_SLOT_START
    }
}

pub open spec fn slot_taken(items: Seq<BuybackItem>, slot: u8) -> bool {
    exists|i: int| 0 <= i < items.len() && #[trigger] items[i].slot == slot
}

pub fn buyback_slot_occupied(state: &BuybackState, slot: u8) -> (occupied: bool)
    ensures
        occupied == slot_taken(state.buyback_items@, slot),
{
    let mut i: usize = 0;
    while i < state.buyback_items.len()
        invariant
            i <= state.buyback_items.len(),
            forall|j: int| 0 <= j < i ==> #[trigger] state.buyback_items@[j].slot != slot,
        decreases state.buyback_items.len() - i,
    {
        if state.buyback_items[i].slot == slot {
            return true;
        }
        i += 1;
    }
    false
}

/// The first free buyback slot at or after `from`.
pub open spec fn first_free_buyback_slot(items: Seq<BuybackItem>, from: int) -> Option<u8>
    decreases BUYBACK_SLOT_END - from,
{
    if from >= BUYBACK_SLOT_END {
        None
    } else if !slot_taken(items, from as u8) {
        Some(from as u8)
    } else {
        first_free_buyback_slot(items, from + 1)
    }
}

/// The entry with the smallest timestamp (the first such).
pub open spec fn oldest_entry_index(items: Seq<BuybackItem>) -> int
    decreases items.len(),
{
    if items.len() <= 1 {
        0
    } else {
        let prev = oldest_entry_index(items.drop_last());
        if items.last().timestamp < items[prev].timestamp { items.len() - 1 } else { prev }
    }
}

/// The slot a sale goes to: the cursor if free, else the first free slot,
/// else the slot of the oldest entry.
pub open spec fn next_buyback_slot_spec(state: BuybackState) -> u8 {
    let items = state.buyback_items@;
    let cursor = normalized_buyback_cursor(&state);
    if !slot_taken(items, cursor) {
        cursor
    } else {
        match first_free_buyback_slot(items, BUYBACK_SLOT_START as int) {
            Some(slot) => slot,
            None => if items.len() == 0 { BUYBACK_SLOT_START } else { items[oldest_entry_index(items)].slot },
        }
    }
}

proof fn lemma_oldest_bounds(items: Seq<BuybackItem>)
    ensures
        items.len() > 0 ==> 0 <= oldest_entry_index(items) < items.len(),
    decreases items.len(),
{
    if items.len() > 1 {
        lemma_oldest_bounds(items.drop_last());
    }
}

pub fn next_buyback_slot(state: &BuybackState) -> (slot: u8)
    ensures
        slot == next_buyback_slot_spec(*state),
{
    let cursor = normalized_buyback_cursor(state);
    if !buyback_slot_occupied(state, cursor) {
        return cursor;
    }
    let mut slot = BUYBACK_SLOT_START;
    while slot < BUYBACK_SLOT_END
        invariant
            BUYBACK_SLOT_START <= slot <= BUYBACK_SLOT_END,
            slot_taken(state.buyback_items@, normalized_buyback_cursor(state)),
            first_free_buyback_slot(state.buyback_items@, BUYBACK_SLOT_START as int)
                == first_free_buyback_slot(state.buyback_items@, slot as int),
        decreases BUYBACK_SLOT_END - slot,
    {
        if !buyback_slot_occupied(state, slot) {
            return slot;
        }
        slot += 1;
    }
    if state.buyback_items.len() == 0 {
        return BUYBACK_SLOT_START;
    }
    let mut best: usize = 0;
    let mut i: usize = 1;
    while i < state.buyback_items.len()
        invariant
            1 <= i <= state.buyback_items.len(),
            best < i,
            best as int == oldest_entry_index(state.buyback_items@.take(i as int)),
        decreases state.buyback_items.len() - i,
    {
        proof {
            let t = state.buyback_items@.take(i + 1);
            assert(t.drop_last() =~= state.buyback_items@.take(i as int));
            assert(t[best as int] == state.buyback_items@[best as int]);
        }
        if state.buyback_items[i].timestamp < state.buyback_items[best].timestamp {
            best = i;
        }
        i += 1;
    }
    assert(state.buyback_items@.take(state.buyback_items@.len() as int) =~= state.buyback_items@);
    state.buyback_items[best].slot
}

/// After a sale into `used_slot`, the cursor moves to the next slot (staying
/// on the last).
pub fn advance_buyback_slot(state: &mut BuybackState, used_slot: u8)
    ensures
        final(state).buyback_items@ == old(state).buyback_items@,
        final(state).next_buyback_slot == if used_slot < BUYBACK_SLOT_END - 1 { (used_slot + 1) as u8 } else { (BUYBACK_SLOT_END - 1) as u8 },
{
    state.next_buyback_slot = if used_slot < BUYBACK_SLOT_END - 1 { used_slot + 1 } else { BUYBACK_SLOT_END - 1 };
}

/// The entries not in `slot`, in order.
pub open spec fn without_slot(items: Seq<BuybackItem>, slot: u8) -> Seq<BuybackItem>
    decreases items.len(),
{
    if items.len() == 0 {
        Seq::empty()
    } else {
        without_slot(items.drop_last(), slot) + if items.last().slot != slot { seq![items.last()] } else { Seq::empty() }
    }
}

fn retain_other_slots(items: &mut Vec<BuybackItem>, slot: u8)
    ensures
        final(items)@ == without_slot(old(items)@, slot),
{
    let ghost start = items@;
    let mut kept: Vec<BuybackItem> = Vec::new();
    let mut i: usize = 0;
    while i < items.len()
        invariant
            i <= items.len(),
            items@ == start,
            kept@ == without_slot(start.take(i as int), slot),
        decreases items.len() - i,
    {
        assert(start.take(i + 1).drop_last() =~= start.take(i as int));
        if items[i].slot != slot {
            kept.push(items[i]);
        }
        i += 1;
    }
    assert(start.take(start.len() as int) =~= start);
    *items = kept;
}

/// After a slot is cleared: if the cursor points at a taken slot, it moves to
/// the cleared one.
pub fn refresh_buyback_cursor_after_slot_cleared(state: &mut BuybackState, slot: u8)
    ensures
        final(state).buyback_items@ == old(state).buyback_items@,
        final(state).next_buyback_slot == if slot_taken(old(state).buyback_items@, normalized_buyback_cursor(&*old(state))) {
            slot
        } else {
            old(state).next_buyback_slot
        },
{
    let cursor = normalized_buyback_cursor(state);
    if buyback_slot_occupied(state, cursor) {
        state.next_buyback_slot = slot;
    }
}

/// Drops the entry in `slot` and refreshes the cursor.
pub fn remove_buyback_entry_from_session(state: &mut BuybackState, slot: u8)
    ensures
        final(state).buyback_items@ == without_slot(old(state).buyback_items@, slot),
        final(state).next_buyback_slot == if slot_taken(without_slot(old(state).buyback_items@, slot),
            if is_buyback_slot(old(state).next_buyback_slot) { old(state).next_buyback_slot } else { BUYBACK_SLOT_START }) {
            slot
        } else {
            old(state).next_buyback_slot
        },
{
    retain_other_slots(&mut state.buyback_items, slot);
    refresh_buyback_cursor_after_slot_cleared(state, slot);
}

/// The largest timestamp of the entries.
pub open spec fn max_timestamp(items: Seq<BuybackItem>) -> u32
    decreases items.len(),
{
    if items.len() == 0 {
        0
    } else {
        let prev = max_timestamp(items.drop_last());
        if items.len() == 1 || items.last().timestamp > prev { items.last().timestamp } else { prev }
    }
}

/// One past the newest timestamp (saturating), or `BUYBACK_DURATION_SECS`
/// for an empty buyback list.
pub open spec fn next_buyback_timestamp_spec(items: Seq<BuybackItem>) -> u32 {
    if items.len() == 0 {
        BUYBACK_DURATION_SECS
    } else {
        sat_add_u32(max_timestamp(items), 1)
    }
}

pub fn next_buyback_timestamp(state: &BuybackState) -> (timestamp: u32)
    ensures
        timestamp == next_buyback_timestamp_spec(state.buyback_items@),
{
    if state.buyback_items.len() == 0 {
        return BUYBACK_DURATION_SECS;
    }
    let mut best: u32 = state.buyback_items[0].timestamp;
    let mut i: usize = 1;
    assert(state.buyback_items@.take(1).drop_last() =~= Seq::<BuybackItem>::empty());
    while i < state.buyback_items.len()
        invariant
            1 <= i <= state.buyback_items.len(),
            best == max_timestamp(state.buyback_items@.take(i as int)),
        decreases state.buyback_items.len() - i,
    {
        assert(state.buyback_items@.take(i + 1).drop_last() =~= state.buyback_items@.take(i as int));
        if state.buyback_items[i].timestamp > best {
            best = state.buyback_items[i].timestamp;
        }
        i += 1;
    }
    assert(state.buyback_items@.take(state.buyback_items@.len() as int) =~= state.buyback_items@);
    best.saturating_add(1)
}

/// Records a sale in `slot` (replacing what was there) with the next
/// timestamp, and moves the cursor on.
pub fn push_buyback_entry(state: &mut BuybackState, slot: u8, item: u32, price: u32) -> (entry: BuybackItem)
    ensures
        entry == (BuybackItem { slot, item, price, timestamp: next_buyback_timestamp_spec(old(state).buyback_items@) }),
        final(state).buyback_items@ == without_slot(old(state).buyback_items@, slot).push(entry),
        final(state).next_buyback_slot == if slot < BUYBACK_SLOT_END - 1 { (slot + 1) as u8 } else { (BUYBACK_SLOT_END - 1) as u8 },
{
    let timestamp = next_buyback_timestamp(state);
    retain_other_slots(&mut state.buyback_items, slot);
    let entry = BuybackItem { slot, item, price, timestamp };
    state.buyback_items.push(entry);
    advance_buyback_slot(state, slot);
    entry
}

// ---------------------------------------------------------------------------
// Buying an item back

/// The first buyback entry kept in `slot`.
pub open spec fn buyback_entry_at(items: Seq<BuybackItem>, slot: u8) -> Option<BuybackItem>
    decreases items.len(),
{
    if items.len() == 0 {
        None
    } else {
        match buyback_entry_at(items.drop_last(), slot) {
            Some(found) => Some(found),
            None => if items.last().slot == slot { Some(items.last()) } else { None },
        }
    }
}

proof fn lemma_buyback_entry_prefix(items: Seq<BuybackItem>, slot: u8, n: int)
    requires
        0 <= n <= items.len(),
        buyback_entry_at(items.take(n), slot) is Some,
    ensures
        buyback_entry_at(items, slot) == buyback_entry_at(items.take(n), slot),
    decreases items.len() - n,
{
    if n < items.len() {
        assert(items.take(n + 1).drop_last() =~= items.take(n));
        lemma_buyback_entry_prefix(items, slot, n + 1);
    } else {
        assert(items.take(n) =~= items);
    }
}

fn find_buyback_entry(items: &[BuybackItem], slot: u8) -> (found: Option<BuybackItem>)
    ensures
        found == buyback_entry_at(items@, slot),
{
    let mut i: usize = 0;
    while i < items.len()
        invariant
            i <= items.len(),
            buyback_entry_at(items@.take(i as int), slot) is None,
        decreases items.len() - i,
    {
        assert(items@.take(i + 1).drop_last() =~= items@.take(i as int));
        if items[i].slot == slot {
            proof { lemma_buyback_entry_prefix(items@, slot, (i + 1) as int); }
            return Some(items[i]);
        }
        i += 1;
    }
    assert(items@.take(items@.len() as int) =~= items@);
    None
}

/// The first carried item that is instance `item` in backpack slot `slot`:
/// the item a buyback entry stands for.
pub open spec fn buyback_source_at(inventory: Seq<CharacterInventoryItem>, item: u32, slot: u8) -> Option<CharacterInventoryItem>
    decreases inventory.len(),
{
    if inventory.len() == 0 {
        None
    } else {
        match buyback_source_at(inventory.drop_last(), item, slot) {
            Some(found) => Some(found),
            None => {
                let last = inventory.last();
                if last.item == item && last.bag == INVENTORY_SLOT_BAG_0 as u32 && last.slot == slot {
                    Some(last)
                } else {
                    None
                }
            },
        }
    }
}

proof fn lemma_buyback_source_prefix(inventory: Seq<CharacterInventoryItem>, item: u32, slot: u8, n: int)
    requires
        0 <= n <= inventory.len(),
        buyback_source_at(inventory.take(n), item, slot) is Some,
    ensures
        buyback_source_at(inventory, item, slot) == buyback_source_at(inventory.take(n), item, slot),
    decreases inventory.len() - n,
{
    if n < inventory.len() {
        assert(inventory.take(n + 1).drop_last() =~= inventory.take(n));
        lemma_buyback_source_prefix(inventory, item, slot, n + 1);
    } else {
        assert(inventory.take(n) =~= inventory);
    }
}

fn find_buyback_source(inventory: &[CharacterInventoryItem], item: u32, slot: u8) -> (found: Option<CharacterInventoryItem>)
    ensures
        found == buyback_source_at(inventory@, item, slot),
{
    let mut i: usize = 0;
    while i < inventory.len()
        invariant
            i <= inventory.len(),
            buyback_source_at(inventory@.take(i as int), item, slot) is None,
        decreases inventory.len() - i,
    {
        assert(inventory@.take(i + 1).drop_last() =~= inventory@.take(i as int));
        if inventory[i].item == item && inventory[i].bag == INVENTORY_SLOT_BAG_0 as u32 && inventory[i].slot == slot {
            proof { lemma_buyback_source_prefix(inventory@, item, slot, (i + 1) as int); }
            return Some(inventory[i]);
        }
        i += 1;
    }
    assert(inventory@.take(inventory@.len() as int) =~= inventory@);
    None
}

/// How far a buyback has come.
#[derive(Clone, Debug)]
pub enum BuybackStage {
    /// The request arrived; whether the vendor sells anything is being looked up.
    CheckingVendor,
    /// The entry and the item it stands for are found; the item's template
    /// is being loaded.
    LoadingTemplate { entry: BuybackItem, source: CharacterInventoryItem },
    /// The item fits the bags along `plan`; the price is being charged.
    Charging { entry: BuybackItem, source: CharacterInventoryItem, plan: Vec<StoreSlot> },
}

/// What the outside world answered.
#[derive(Clone, Debug)]
pub enum BuybackEvent {
    /// Whether the vendor's list holds any item.
    VendorChecked { listed: bool },
    /// The item's template, if it exists, and the character's equipped bags.
    TemplateLoaded { template: Option<ItemTemplateQuery>, equipped_bags: Vec<EquippedBagInfo> },
    /// The character's money after the price was taken, or none when it
    /// could not be paid.
    MoneySpent { money: Option<u32> },
}

/// What to do next.
#[derive(Clone, Debug)]
pub enum BuybackAction {
    /// Answer that the vendor cannot be found.
    CantFindVendor,
    /// Answer a failed buy for `item_template` with `error`; first drop the
    /// buyback entry of the slot when `drop_entry`.
    BuyFailed { item_template: u32, error: u8, drop_entry: bool },
    /// Answer that the inventory is full, naming item instance `item`.
    InventoryFull { item: u32 },
    /// Load template `item_template` and the equipped bags.
    LoadTemplate { item_template: u32 },
    /// Take `price` from the character's money.
    ChargeMoney { price: u32 },
    /// Move item instance `item` along `plan`, drop the slot's buyback entry
    /// and report `money` as the character's money.
    Store { item: u32, plan: Vec<StoreSlot>, money: u32 },
    /// The event does not belong to this stage: nothing happens.
    Ignore,
}

/// One step of buying back the item of buyback slot `slot` from
/// `vendor_guid`: the checks come in the order vendor, buyback entry, the
/// item in the slot, its template, room in the bags, money. The step returns
/// the next stage (none when the buyback has ended) and the action to take.
pub fn buyback_step(
    vendor_guid: ObjectGuid,
    slot: u8,
    buyback_items: &[BuybackItem],
    inventory: &[CharacterInventoryItem],
    stage: BuybackStage,
    event: BuybackEvent,
) -> (step: (Option<BuybackStage>, BuybackAction))
    ensures
        match (stage, event) {
            (BuybackStage::CheckingVendor, BuybackEvent::VendorChecked { listed }) =>
                if !(vendor_guid.is_creature() && listed) {
                    step.0 is None && step.1 is CantFindVendor
                } else {
                    match buyback_entry_at(buyback_items@, slot) {
                        None => step.0 is None && (step.1 matches BuybackAction::BuyFailed { item_template, error, drop_entry }
                            && item_template == 0 && error == BUY_ERR_CANT_FIND_ITEM && !drop_entry),
                        Some(entry) => match buyback_source_at(inventory@, entry.item, slot) {
                            None => step.0 is None && (step.1 matches BuybackAction::BuyFailed { item_template, error, drop_entry }
                                && item_template == 0 && error == BUY_ERR_CANT_FIND_ITEM && drop_entry),
                            Some(source) => step.0 == Some(BuybackStage::LoadingTemplate { entry, source })
                                && (step.1 matches BuybackAction::LoadTemplate { item_template }
                                && item_template == source.item_template),
                        },
                    }
                },
            (BuybackStage::LoadingTemplate { entry, source }, BuybackEvent::TemplateLoaded { template, equipped_bags }) =>
                match template {
                    None => step.0 is None && (step.1 matches BuybackAction::BuyFailed { item_template, error, drop_entry }
                        && item_template == source.item_template && error == BUY_ERR_CANT_FIND_ITEM && !drop_entry),
                    Some(t) => match plan_spec(inventory@, t, source.count, equipped_bags@, None, Some(source.item), None) {
                        None => step.0 is None && (step.1 matches BuybackAction::InventoryFull { item } && item == source.item),
                        Some(p) => (step.0 matches Some(BuybackStage::Charging { entry: e, source: s, plan })
                            && e == entry && s == source && plan@ == p)
                            && (step.1 matches BuybackAction::ChargeMoney { price } && price == entry.price),
                    },
                },
            (BuybackStage::Charging { entry, source, plan }, BuybackEvent::MoneySpent { money }) =>
                match money {
                    None => step.0 is None && (step.1 matches BuybackAction::BuyFailed { item_template, error, drop_entry }
                        && item_template == source.item_template && error == BUY_ERR_NOT_ENOUGHT_MONEY && !drop_entry),
                    Some(m) => step.0 is None && (step.1 matches BuybackAction::Store { item, plan: stored, money: left }
                        && item == source.item && stored@ == plan@ && left == m),
                },
            (other, _) => step.0 == Some(other) && step.1 is Ignore,
        },
{
    match (stage, event) {
        (BuybackStage::CheckingVendor, BuybackEvent::VendorChecked { listed }) => {
            if !(vendor_guid.is_creature() && listed) {
                return (None, BuybackAction::CantFindVendor);
            }
            match find_buyback_entry(buyback_items, slot) {
                None => (None, BuybackAction::BuyFailed { item_template: 0, error: BUY_ERR_CANT_FIND_ITEM, drop_entry: false }),
                Some(entry) => match find_buyback_source(inventory, entry.item, slot) {
                    None => (None, BuybackAction::BuyFailed { item_template: 0, error: BUY_ERR_CANT_FIND_ITEM, drop_entry: true }),
                    Some(source) => (
                        Some(BuybackStage::LoadingTemplate { entry, source }),
                        BuybackAction::LoadTemplate { item_template: source.item_template },
                    ),
                },
            }
        },
        (BuybackStage::LoadingTemplate { entry, source }, BuybackEvent::TemplateLoaded { template, equipped_bags }) => {
            match template {
                None => (
                    None,
                    BuybackAction::BuyFailed { item_template: source.item_template, error: BUY_ERR_CANT_FIND_ITEM, drop_entry: false },
                ),
                Some(t) => match plan_store_item(inventory, &t, source.count, &equipped_bags, None, Some(source.item)) {
                    None => (None, BuybackAction::InventoryFull { item: source.item }),
                    Some(plan) => (
                        Some(BuybackStage::Charging { entry, source, plan }),
                        BuybackAction::ChargeMoney { price: entry.price },
                    ),
                },
            }
        },
        (BuybackStage::Charging { entry, source, plan }, BuybackEvent::MoneySpent { money }) => {
            match money {
                None => (
                    None,
                    BuybackAction::BuyFailed {
                        item_template: source.item_template,
                        error: BUY_ERR_NOT_ENOUGHT_MONEY,
                        drop_entry: false,
                    },
                ),
                Some(m) => (None, BuybackAction::Store { item: source.item, plan, money: m }),
            }
        },
        (other, _) => (Some(other), BuybackAction::Ignore),
    }
}

} // verus!
