//! The bank: who may open it, buying bank bag slots, and where an item
//! sent to or from the bank goes.
use vstd::prelude::*;
use crate::guid::{player_guid, ObjectGuid};
use crate::inventory::{
    first_autostore_destination, is_bank_position, plan_bank_item, plan_spec, with_bank_bag_slot_count,
    CharacterInventoryItem, EquippedBagInfo, ItemTemplateQuery, INVENTORY_SLOT_BAG_0,
};

verus! {

pub const ERR_BANKSLOT_FAILED_TOO_MANY: u32 = 0;
pub const ERR_BANKSLOT_INSUFFICIENT_FUNDS: u32 = 1;
pub const ERR_BANKSLOT_NOTBANKER: u32 = 2;
pub const ERR_BANKSLOT_OK: u32 = 3;
pub const UNIT_NPC_FLAG_BANKER: u32 = 0x0000_0100;

/// A banker as the character finds it: its npc flags and whether it
/// stands within interaction reach.
#[derive(Clone, Copy, Debug, PartialEq, Eq, Structural)]
pub struct BankerView {
    pub npc_flags: u32,
    pub within_reach: bool,
}

pub open spec fn banker_access_spec(character_guid: u32, gm_mode: bool, banker: ObjectGuid, creature: Option<BankerView>) -> bool {
    if banker.raw == character_guid as u64 {
        gm_mode
    } else if !banker.is_creature() {
        false
    } else {
        match creature {
            None => false,
            Some(c) => c.npc_flags & UNIT_NPC_FLAG_BANKER != 0 && c.within_reach,
        }
    }
}

/// Whether the character may use the bank through `banker`: a game master
/// in GM mode through themself, anyone through a creature flagged as a
/// banker within reach (`creature` is what the map knows of it).
pub fn check_banker_access(character_guid: u32, gm_mode: bool, banker: ObjectGuid, creature: Option<BankerView>) -> (ok: bool)
    ensures
        ok == banker_access_spec(character_guid, gm_mode, banker, creature),
{
    if banker == player_guid(character_guid) {
        return gm_mode;
    }
    if !banker.is_creature() {
        return false;
    }
    match creature {
        None => false,
        Some(c) => c.npc_flags & UNIT_NPC_FLAG_BANKER != 0 && c.within_reach,
    }
}

/// The price of bank bag slot `slot` (numbered from 1): the first entry
/// for it.
pub open spec fn slot_price(prices: Seq<(u32, u32)>, slot: u32) -> Option<u32>
    decreases prices.len(),
{
    if prices.len() == 0 {
        None
    } else if prices[0].0 == slot {
        Some(prices[0].1)
    } else {
        slot_price(prices.skip(1), slot)
    }
}

fn find_slot_price(prices: &[(u32, u32)], slot: u32) -> (price: Option<u32>)
    ensures
        price == slot_price(prices@, slot),
{
    assert(prices@.skip(0) =~= prices@);
    let mut i: usize = 0;
    while i < prices.len()
        invariant
            i <= prices@.len(),
            slot_price(prices@, slot) == slot_price(prices@.skip(i as int), slot),
        decreases prices@.len() - i,
    {
        assert(prices@.skip(i as int)[0] == prices@[i as int]);
        assert(prices@.skip(i as int).skip(1) =~= prices@.skip(i + 1));
        if prices[i].0 == slot {
            return Some(prices[i].1);
        }
        i += 1;
    }
    None
}

/// A bank bag slot purchase to charge: its price and the new visual bytes
/// that record one more purchased slot.
#[derive(Clone, Copy, Debug, PartialEq, Eq, Structural)]
pub struct BankSlotPurchase {
    pub price: u32,
    pub player_bytes2: u32,
}

pub open spec fn bank_slot_purchase_spec(
    has_access: bool,
    current_count: u8,
    prices: Seq<(u32, u32)>,
    player_bytes2: u32,
) -> Result<BankSlotPurchase, u32> {
    if !has_access {
        Err(ERR_BANKSLOT_NOTBANKER)
    } else {
        match slot_price(prices, (current_count + 1) as u32) {
            None => Err(ERR_BANKSLOT_FAILED_TOO_MANY),
            Some(price) => Ok(BankSlotPurchase {
                price,
                player_bytes2: (player_bytes2 & !(0xFFu32 << 16u32)) | (((current_count + 1) as u8 as u32) << 16u32),
            }),
        }
    }
}

/// Buying the next bank bag slot: refused without a banker, refused when
/// no price is known for the next slot (all are bought); else its price
/// and the visual bytes with the count raised by one. Whether the money
/// suffices is the store's to say.
pub fn bank_slot_purchase(
    has_access: bool,
    current_count: u8,
    prices: &[(u32, u32)],
    player_bytes2: u32,
) -> (purchase: Result<BankSlotPurchase, u32>)
    requires
        current_count < 255 || slot_price(prices@, 256) is None,
    ensures
        purchase == bank_slot_purchase_spec(has_access, current_count, prices@, player_bytes2),
{
    if !has_access {
        return Err(ERR_BANKSLOT_NOTBANKER);
    }
    let next_slot = current_count as u32 + 1;
    let price = match find_slot_price(prices, next_slot) {
        None => return Err(ERR_BANKSLOT_FAILED_TOO_MANY),
        Some(p) => p,
    };
    Ok(BankSlotPurchase { price, player_bytes2: with_bank_bag_slot_count(player_bytes2, current_count + 1) })
}

pub open spec fn single_destination(plan: Option<Seq<crate::inventory::StoreSlot>>) -> Option<(u8, u8)> {
    match plan {
        Some(p) => if p.len() == 1 { Some((p[0].bag, p[0].slot)) } else { None },
        None => None,
    }
}

/// Where the whole stack `source` goes when sent to the bank, if one bank
/// position takes it all.
pub fn first_auto_bank_destination(
    inventory: &[CharacterInventoryItem],
    source: &CharacterInventoryItem,
    template: &ItemTemplateQuery,
    bank_bags: &[EquippedBagInfo],
    bank_bag_slot_count: u8,
) -> (dest: Option<(u8, u8)>)
    ensures
        dest == single_destination(
            plan_spec(inventory@, *template, source.count, bank_bags@, None, Some(source.item), Some(bank_bag_slot_count)),
        ),
{
    match plan_bank_item(inventory, template, source.count, bank_bags, bank_bag_slot_count, None, Some(source.item)) {
        Some(plan) => if plan.len() == 1 {
            Some((plan[0].bag, plan[0].slot))
        } else {
            None
        },
        None => None,
    }
}

/// Where a stack goes on an auto-store from or to the bank: out of the
/// bank into the backpack-rooted storage when it lies in the bank, into
/// the bank otherwise.
pub fn first_auto_store_bank_destination(
    inventory: &[CharacterInventoryItem],
    source: &CharacterInventoryItem,
    template: &ItemTemplateQuery,
    equipped_bags: &[EquippedBagInfo],
    bank_bags: &[EquippedBagInfo],
    bank_bag_slot_count: u8,
) -> (dest: Option<(u8, u8)>)
    ensures
        dest == if is_bank_position(source.bag as u8, source.slot) {
            single_destination(
                plan_spec(inventory@, *template, source.count, equipped_bags@, Some(INVENTORY_SLOT_BAG_0), Some(source.item), None),
            )
        } else {
            single_destination(
                plan_spec(inventory@, *template, source.count, bank_bags@, None, Some(source.item), Some(bank_bag_slot_count)),
            )
        },
{
    if !is_bank_position(source.bag as u8, source.slot) {
        return first_auto_bank_destination(inventory, source, template, bank_bags, bank_bag_slot_count);
    }
    first_autostore_destination(inventory, source, template, equipped_bags, INVENTORY_SLOT_BAG_0)
}

} // verus!
