//! Buying from and selling to vendors: which vendor row a purchase names,
//! how much it costs, when stock or the item refuses the trade, and the
//! packets that answer it.
use vstd::prelude::*;
use crate::equipment::EQUIP_ERR_CANT_EQUIP_LEVEL_I;
use crate::guid::ObjectGuid;
use crate::inventory::{CharacterInventoryItem, ItemTemplateQuery};
use crate::vendor::{
    current_count_spec, VendorItemQuery, VendorListItem, VendorStockKey, VendorStockState, sell_item_is_non_empty_container,
};
use crate::wire::{le_u32, le_u64, push_u32, push_u64, push_u8};

verus! {

pub const BUY_ERR_CANT_FIND_ITEM: u8 = 0;
pub const BUY_ERR_ITEM_ALREADY_SOLD: u8 = 1;
pub const BUY_ERR_NOT_ENOUGHT_MONEY: u8 = 2;
pub const SELL_ERR_CANT_FIND_ITEM: u8 = 1;
pub const SELL_ERR_CANT_SELL_ITEM: u8 = 2;
pub const SELL_ERR_CANT_FIND_VENDOR: u8 = 3;

/// The vendor row a purchase names.
#[derive(Clone, Copy, Debug, PartialEq, Eq, Structural)]
pub struct VendorBuyItem {
    /// The row's 1-based position in the vendor's list.
    pub slot: u32,
    pub container_slots: u32,
    pub buy_count: u32,
    pub price: u32,
    pub query: VendorItemQuery,
}

/// The index of the first vendor row selling `item`.
pub open spec fn vendor_row_for(items: Seq<VendorItemQuery>, item: u32) -> Option<int>
    decreases items.len(),
{
    if items.len() == 0 {
        None
    } else {
        match vendor_row_for(items.drop_last(), item) {
            Some(i) => Some(i),
            None => if items.last().item == item { Some(items.len() - 1) } else { None },
        }
    }
}

proof fn lemma_vendor_row_prefix(items: Seq<VendorItemQuery>, item: u32, n: int)
    requires
        0 <= n <= items.len(),
        vendor_row_for(items.take(n), item) is Some,
    ensures
        vendor_row_for(items, item) == vendor_row_for(items.take(n), item),
    decreases items.len() - n,
{
    if n < items.len() {
        assert(items.take(n + 1).drop_last() =~= items.take(n));
        lemma_vendor_row_prefix(items, item, n + 1);
    } else {
        assert(items.take(n) =~= items);
    }
}

/// The row a creature vendor sells `item` from (none for anything but a
/// creature, or an item it does not sell); the row's 1-based position is
/// kept to 32 bits.
pub fn vendor_buy_item(vendor_guid: ObjectGuid, vendor_items: &[VendorItemQuery], item: u32) -> (row: Option<VendorBuyItem>)
    ensures
        row == if !vendor_guid.is_creature() {
            None
        } else {
            match vendor_row_for(vendor_items@, item) {
                Some(i) => Some(VendorBuyItem {
                    slot: (i + 1) as u32,
                    container_slots: vendor_items@[i].container_slots,
                    buy_count: vendor_items@[i].buy_count,
                    price: vendor_items@[i].buy_price,
                    query: vendor_items@[i],
                }),
                None => None,
            }
        },
{
    if !vendor_guid.is_creature() {
        return None;
    }
    let mut i: usize = 0;
    while i < vendor_items.len()
        invariant
            i <= vendor_items.len(),
            vendor_guid.is_creature(),
            vendor_row_for(vendor_items@.take(i as int), item) is None,
        decreases vendor_items.len() - i,
    {
        assert(vendor_items@.take(i + 1).drop_last() =~= vendor_items@.take(i as int));
        if vendor_items[i].item == item {
            proof {
                assert(vendor_row_for(vendor_items@.take(i + 1), item) == Some(i as int));
                lemma_vendor_row_prefix(vendor_items@, item, (i + 1) as int);
            }
            let row = vendor_items[i];
            let position: usize = i + 1;
            let found = VendorBuyItem {
                slot: #[verifier::truncate] (position as u32),
                container_slots: row.container_slots,
                buy_count: row.buy_count,
                price: row.buy_price,
                query: row,
            };
            return Some(found);
        }
        i += 1;
    }
    assert(vendor_items@.take(vendor_items@.len() as int) =~= vendor_items@);
    None
}

/// What a purchase of `count` bundles comes to.
#[derive(Clone, Copy, Debug, PartialEq, Eq, Structural)]
pub struct VendorPurchase {
    /// Bundles bought: at least one.
    pub count: u8,
    /// Items received: the bundle size (at least one) times the bundles,
    /// saturating.
    pub total_count: u32,
    /// Money paid: the bundle price times the bundles, saturating.
    pub price: u32,
}

pub open spec fn saturating_product(a: u32, b: u32) -> u32 {
    if a * b > u32::MAX { u32::MAX } else { (a * b) as u32 }
}

fn saturating_mul(a: u32, b: u32) -> (product: u32)
    ensures
        product == saturating_product(a, b),
{
    assert(a as u64 * b as u64 <= 0xFFFF_FFFF * 0xFFFF_FFFF) by (nonlinear_arith)
        requires a <= 0xFFFF_FFFFu32, b <= 0xFFFF_FFFFu32;
    let p = a as u64 * b as u64;
    if p > u32::MAX as u64 { u32::MAX } else { p as u32 }
}

pub fn vendor_purchase(row: &VendorBuyItem, requested: u8) -> (purchase: VendorPurchase)
    ensures
        purchase.count == if requested > 1 { requested } else { 1 },
        purchase.total_count == saturating_product(if row.buy_count > 1 { row.buy_count } else { 1 }, purchase.count as u32),
        purchase.price == saturating_product(row.price, purchase.count as u32),
{
    let count: u8 = if requested > 1 { requested } else { 1 };
    let bundle: u32 = if row.buy_count > 1 { row.buy_count } else { 1 };
    VendorPurchase {
        count,
        total_count: saturating_mul(bundle, count as u32),
        price: saturating_mul(row.price, count as u32),
    }
}

/// A limited item can be bought only while its current stock covers the
/// purchase.
pub fn vendor_stock_covers(max_count: u32, current_count: u32, total_count: u32) -> (covers: bool)
    ensures
        covers == (max_count == 0 || current_count >= total_count),
{
    max_count == 0 || current_count >= total_count
}

/// The rows a vendor lists, each with its current stock; stored stock
/// entries are brought up to date along the way.
pub fn list_vendor_items(
    state: &mut VendorStockState,
    vendor_guid: ObjectGuid,
    vendor_items: &[VendorItemQuery],
    now_secs: u64,
) -> (rows: Vec<VendorListItem>)
    requires
        old(state).wf(),
    ensures
        final(state).wf(),
        rows@.len() == vendor_items@.len(),
        forall|i: int| 0 <= i < rows@.len() ==> (#[trigger] rows@[i]).item == vendor_items@[i].item && rows@[i].display
            == vendor_items@[i].display_id && rows@[i].price == vendor_items@[i].buy_price && rows@[i].durability
            == vendor_items@[i].max_durability && rows@[i].buy_count == vendor_items@[i].buy_count,
        forall|i: int| 0 <= i < rows@.len() && (forall|j: int| 0 <= j < i ==> (#[trigger] vendor_items@[j]).item != vendor_items@[i].item)
            ==> (#[trigger] rows@[i]).max_count == current_count_spec(
            vendor_items@[i],
            old(state).lookup(VendorStockKey { vendor_guid_raw: vendor_guid.raw, item: vendor_items@[i].item }),
            now_secs,
        ).count,
{
    let mut rows: Vec<VendorListItem> = Vec::new();
    let mut i: usize = 0;
    while i < vendor_items.len()
        invariant
            i <= vendor_items.len(),
            state.wf(),
            rows@.len() == i,
            forall|k: int| 0 <= k < rows@.len() ==> (#[trigger] rows@[k]).item == vendor_items@[k].item && rows@[k].display
                == vendor_items@[k].display_id && rows@[k].price == vendor_items@[k].buy_price && rows@[k].durability
                == vendor_items@[k].max_durability && rows@[k].buy_count == vendor_items@[k].buy_count,
            forall|k: int| 0 <= k < rows@.len() && (forall|j: int| 0 <= j < k ==> (#[trigger] vendor_items@[j]).item != vendor_items@[k].item)
                ==> (#[trigger] rows@[k]).max_count == current_count_spec(
                vendor_items@[k],
                old(state).lookup(VendorStockKey { vendor_guid_raw: vendor_guid.raw, item: vendor_items@[k].item }),
                now_secs,
            ).count,
            forall|key: VendorStockKey| (forall|j: int| 0 <= j < i ==> key != (VendorStockKey { vendor_guid_raw: vendor_guid.raw, item: #[trigger] vendor_items@[j].item }))
                ==> #[trigger] state.lookup(key) == old(state).lookup(key),
        decreases vendor_items.len() - i,
    {
        let item = &vendor_items[i];
        let ghost before = *state;
        let count = state.current_count(vendor_guid, item, now_secs);
        let row = VendorListItem::from_vendor_item(item, count);
        proof {
            let key = VendorStockKey { vendor_guid_raw: vendor_guid.raw, item: vendor_items@[i as int].item };
            if forall|j: int| 0 <= j < i ==> (#[trigger] vendor_items@[j]).item != vendor_items@[i as int].item {
                assert(before.lookup(key) == old(state).lookup(key));
            }
            assert forall|k: VendorStockKey| (forall|j: int| 0 <= j < i + 1 ==> k != (VendorStockKey { vendor_guid_raw: vendor_guid.raw, item: #[trigger] vendor_items@[j].item }))
                implies #[trigger] state.lookup(k) == old(state).lookup(k) by {
                assert(k != (VendorStockKey { vendor_guid_raw: vendor_guid.raw, item: vendor_items@[i as int].item }));
                assert(state.lookup(k) == before.lookup(k));
            }
        }
        rows.push(row);
        i += 1;
    }
    rows
}

/// Why a sale is refused, if it is: the count sold (the whole stack for
/// 0) must be positive and at most the stack, the item must have a sell
/// price, and a bag must be empty.
pub open spec fn sell_refusal_spec(
    requested: u8,
    source: CharacterInventoryItem,
    template: ItemTemplateQuery,
    non_empty_container: bool,
) -> Option<u8> {
    let count: u32 = if requested == 0 { source.count } else { requested as u32 };
    if count == 0 || count > source.count || template.sell_price == 0 || non_empty_container {
        Some(SELL_ERR_CANT_SELL_ITEM)
    } else {
        None
    }
}

/// What a sale comes to.
#[derive(Clone, Copy, Debug, PartialEq, Eq, Structural)]
pub struct VendorSale {
    pub count: u32,
    /// Whether part of the stack stays with the character.
    pub splits_stack: bool,
    /// The money paid, saturating.
    pub money: u32,
}

/// The sale of `requested` items of `source` (the whole stack for 0), or
/// the refusal.
pub fn vendor_sale(
    requested: u8,
    source: &CharacterInventoryItem,
    template: &ItemTemplateQuery,
    inventory: &[CharacterInventoryItem],
) -> (sale: Result<VendorSale, u8>)
    ensures
        ({
            let count: u32 = if requested == 0 { source.count } else { requested as u32 };
            let non_empty = template.container_slots != 0 && source.bag == crate::inventory::INVENTORY_SLOT_BAG_0 as u32
                && crate::inventory::is_bag_slot(source.slot) && exists|i: int| 0 <= i < inventory@.len()
                && #[trigger] inventory@[i].bag == source.slot as u32;
            match sale {
                Ok(s) => sell_refusal_spec(requested, *source, *template, non_empty) is None && s.count == count
                    && s.splits_stack == (count < source.count) && s.money == saturating_product(template.sell_price, count),
                Err(e) => sell_refusal_spec(requested, *source, *template, non_empty) == Some(e),
            }
        }),
{
    let count: u32 = if requested == 0 { source.count } else { requested as u32 };
    if count == 0 || count > source.count || template.sell_price == 0 || sell_item_is_non_empty_container(
        inventory,
        source,
        template,
    ) {
        return Err(SELL_ERR_CANT_SELL_ITEM);
    }
    Ok(VendorSale { count, splits_stack: count < source.count, money: saturating_mul(template.sell_price, count) })
}

// ---------------------------------------------------------------------------
// Answers

/// SMSG_BUY_FAILED: vendor, item and reason.
pub fn build_buy_failed_body(vendor_guid: ObjectGuid, item: u32, result: u8) -> (body: Vec<u8>)
    ensures
        body@ == le_u64(vendor_guid.raw) + le_u32(item) + seq![result],
{
    let mut body: Vec<u8> = Vec::new();
    push_u64(&mut body, vendor_guid.raw);
    push_u32(&mut body, item);
    push_u8(&mut body, result);
    assert(body@ =~= le_u64(vendor_guid.raw) + le_u32(item) + seq![result]);
    body
}

/// SMSG_SELL_ITEM: vendor, item and reason.
pub fn build_sell_item_error_body(vendor_guid: ObjectGuid, item_guid: ObjectGuid, result: u8) -> (body: Vec<u8>)
    ensures
        body@ == le_u64(vendor_guid.raw) + le_u64(item_guid.raw) + seq![result],
{
    let mut body: Vec<u8> = Vec::new();
    push_u64(&mut body, vendor_guid.raw);
    push_u64(&mut body, item_guid.raw);
    push_u8(&mut body, result);
    assert(body@ =~= le_u64(vendor_guid.raw) + le_u64(item_guid.raw) + seq![result]);
    body
}

pub open spec fn guid_or_zero(guid: Option<ObjectGuid>) -> u64 {
    match guid {
        Some(g) => g.raw,
        None => 0,
    }
}

/// SMSG_INVENTORY_CHANGE_FAILURE: the error; for an error, the required
/// level (too-low-level only), both item GUIDs (zero when absent) and a
/// zero byte.
pub fn build_inventory_change_failure_body(
    result: u8,
    item: Option<ObjectGuid>,
    item2: Option<ObjectGuid>,
    required_level: Option<u32>,
) -> (body: Vec<u8>)
    ensures
        body@ == if result == 0 {
            seq![result]
        } else {
            seq![result] + (if result == EQUIP_ERR_CANT_EQUIP_LEVEL_I {
                le_u32(match required_level {
                    Some(l) => l,
                    None => 0,
                })
            } else {
                Seq::empty()
            }) + le_u64(guid_or_zero(item)) + le_u64(guid_or_zero(item2)) + seq![0u8]
        },
{
    let mut body: Vec<u8> = Vec::new();
    push_u8(&mut body, result);
    if result == 0 {
        assert(body@ =~= seq![result]);
        return body;
    }
    let ghost head = body@;
    if result == EQUIP_ERR_CANT_EQUIP_LEVEL_I {
        push_u32(&mut body, match required_level {
            Some(l) => l,
            None => 0,
        });
    }
    let ghost with_level = body@;
    push_u64(&mut body, match item {
        Some(g) => g.raw,
        None => 0,
    });
    push_u64(&mut body, match item2 {
        Some(g) => g.raw,
        None => 0,
    });
    push_u8(&mut body, 0);
    assert(body@ =~= seq![result] + (if result == EQUIP_ERR_CANT_EQUIP_LEVEL_I {
        le_u32(match required_level {
            Some(l) => l,
            None => 0,
        })
    } else {
        Seq::empty()
    }) + le_u64(guid_or_zero(item)) + le_u64(guid_or_zero(item2)) + seq![0u8]);
    body
}

} // verus!
