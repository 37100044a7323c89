//! Inventory layout: slot numbering, bag acceptance rules, storage planning.
use vstd::prelude::*;

verus! {

/// Bag id of the character's own slots (equipment, backpack, bank) as stored.
pub const INVENTORY_SLOT_BAG_0: u8 = 0;
/// Bag id the client sends for the character's own slots.
pub const CLIENT_INVENTORY_SLOT_BAG_0: u8 = 255;
pub const EQUIPMENT_SLOT_END: u8 = 19;
pub const INVENTORY_SLOT_BAG_START: u8 = 19;
pub const INVENTORY_SLOT_BAG_END: u8 = 23;
pub const INVENTORY_SLOT_ITEM_START: u8 = 23;
pub const INVENTORY_SLOT_ITEM_END: u8 = 39;
pub const BANK_SLOT_ITEM_START: u8 = 39;
pub const BANK_SLOT_ITEM_END: u8 = 63;
pub const BANK_SLOT_BAG_START: u8 = 63;
pub const BANK_SLOT_BAG_END: u8 = 69;
pub const MAX_BAG_SIZE: u8 = 36;

pub const INVTYPE_BAG: u32 = 18;
pub const INVTYPE_AMMO: u32 = 24;
pub const INVTYPE_THROWN: u32 = 25;
pub const ITEM_CLASS_WEAPON: u32 = 2;
pub const ITEM_CLASS_ARMOR: u32 = 4;
pub const ITEM_CLASS_CONTAINER: u32 = 1;
pub const ITEM_CLASS_PROJECTILE: u32 = 6;
pub const ITEM_CLASS_QUIVER: u32 = 11;
pub const ITEM_SUBCLASS_CONTAINER: u32 = 0;
pub const ITEM_SUBCLASS_SOUL_CONTAINER: u32 = 1;
pub const ITEM_SUBCLASS_HERB_CONTAINER: u32 = 2;
pub const ITEM_SUBCLASS_ENCHANTING_CONTAINER: u32 = 3;
pub const ITEM_SUBCLASS_ENGINEERING_CONTAINER: u32 = 4;
pub const ITEM_SUBCLASS_QUIVER: u32 = 2;
pub const ITEM_SUBCLASS_AMMO_POUCH: u32 = 3;
pub const ITEM_SUBCLASS_ARROW: u32 = 2;
pub const ITEM_SUBCLASS_BULLET: u32 = 3;
pub const BAG_FAMILY_ARROWS: i32 = 1;
pub const BAG_FAMILY_BULLETS: i32 = 2;
pub const BAG_FAMILY_SOUL_SHARDS: i32 = 3;
pub const BAG_FAMILY_HERBS: i32 = 6;
pub const BAG_FAMILY_ENCHANTING_SUPP: i32 = 7;
pub const BAG_FAMILY_ENGINEERING_SUPP: i32 = 8;

/// One stored item instance of a character.
#[derive(Clone, Copy, Debug, PartialEq, Eq, Structural)]
pub struct CharacterInventoryItem {
    pub bag: u32,
    pub slot: u8,
    /// Item instance id (low part of the item GUID).
    pub item: u32,
    pub item_template: u32,
    pub count: u32,
    pub random_property_id: i32,
    pub durability: u32,
}

/// The fields of an item template that inventory, vendor and quest rules read.
#[derive(Clone, Copy, Debug, PartialEq, Eq, Structural)]
pub struct ItemTemplateQuery {
    pub entry: u32,
    pub class: u32,
    pub subclass: u32,
    pub quality: u32,
    pub flags: u32,
    pub sell_price: u32,
    pub inventory_type: u32,
    pub allowable_class: i32,
    pub allowable_race: i32,
    pub required_level: u32,
    pub required_skill: u32,
    pub required_skill_rank: u32,
    pub required_spell: u32,
    pub required_honor_rank: u32,
    pub required_city_rank: u32,
    pub required_reputation_faction: u32,
    pub required_reputation_rank: u32,
    pub stackable: u32,
    pub container_slots: u32,
    pub max_durability: u32,
    pub bag_family: i32,
}

/// A bag equipped in a bag slot (inventory or bank), with its capacity and kind.
#[derive(Clone, Copy, Debug, PartialEq, Eq, Structural)]
pub struct EquippedBagInfo {
    pub slot: u8,
    pub container_slots: u8,
    pub class: u32,
    pub subclass: u32,
}

/// One destination of a storage plan: `count` items go to `(bag, slot)`,
/// either onto the existing stack `existing_item` or into an empty slot.
#[derive(Clone, Copy, Debug, PartialEq, Eq, Structural)]
pub struct StoreSlot {
    pub bag: u8,
    pub slot: u8,
    pub count: u32,
    pub existing_item: Option<u32>,
}

/// A move of one item position to another, with bags already normalized.
#[derive(Clone, Copy, Debug, PartialEq, Eq, Structural)]
pub struct InventoryMoveRequest {
    pub src_bag: u8,
    pub src_slot: u8,
    pub dst_bag: u8,
    pub dst_slot: u8,
}

#[derive(Clone, Copy, Debug, PartialEq, Eq, Structural)]
pub struct DestroyItemRequest {
    pub bag: u8,
    pub slot: u8,
    pub count: u8,
}

#[derive(Clone, Copy, Debug, PartialEq, Eq, Structural)]
pub struct SplitItemRequest {
    pub src_bag: u8,
    pub src_slot: u8,
    pub dst_bag: u8,
    pub dst_slot: u8,
    pub count: u8,
}

// ---------------------------------------------------------------------------
// Slot numbering

#[verifier::allow_in_spec]
pub fn normalize_client_bag(bag: u8) -> u8
    returns
        (if bag == CLIENT_INVENTORY_SLOT_BAG_0 { INVENTORY_SLOT_BAG_0 } else { bag }),
{
    if bag == CLIENT_INVENTORY_SLOT_BAG_0 {
        INVENTORY_SLOT_BAG_0
    } else {
        bag
    }
}

#[verifier::allow_in_spec]
pub fn client_bag_id(bag: u8) -> u8
    returns
        (if bag == INVENTORY_SLOT_BAG_0 { CLIENT_INVENTORY_SLOT_BAG_0 } else { bag }),
{
    if bag == INVENTORY_SLOT_BAG_0 {
        CLIENT_INVENTORY_SLOT_BAG_0
    } else {
        bag
    }
}

#[verifier::allow_in_spec]
pub fn is_backpack_item_slot(slot: u8) -> bool
    returns
        INVENTORY_SLOT_ITEM_START <= slot < INVENTORY_SLOT_ITEM_END,
{
    INVENTORY_SLOT_ITEM_START <= slot && slot < INVENTORY_SLOT_ITEM_END
}

#[verifier::allow_in_spec]
pub fn is_inventory_bag_slot(slot: u8) -> bool
    returns
        INVENTORY_SLOT_BAG_START <= slot < INVENTORY_SLOT_BAG_END,
{
    INVENTORY_SLOT_BAG_START <= slot && slot < INVENTORY_SLOT_BAG_END
}

#[verifier::allow_in_spec]
pub fn is_bank_item_slot(slot: u8) -> bool
    returns
        BANK_SLOT_ITEM_START <= slot < BANK_SLOT_ITEM_END,
{
    BANK_SLOT_ITEM_START <= slot && slot < BANK_SLOT_ITEM_END
}

#[verifier::allow_in_spec]
pub fn is_bank_bag_slot(slot: u8) -> bool
    returns
        BANK_SLOT_BAG_START <= slot < BANK_SLOT_BAG_END,
{
    BANK_SLOT_BAG_START <= slot && slot < BANK_SLOT_BAG_END
}

#[verifier::allow_in_spec]
pub fn is_bag_slot(slot: u8) -> bool
    returns
        is_inventory_bag_slot(slot) || is_bank_bag_slot(slot),
{
    is_inventory_bag_slot(slot) || is_bank_bag_slot(slot)
}

#[verifier::allow_in_spec]
pub fn is_bank_position(bag: u8, slot: u8) -> bool
    returns
        (bag == INVENTORY_SLOT_BAG_0 && (is_bank_item_slot(slot) || is_bank_bag_slot(slot)))
            || is_bank_bag_slot(bag),
{
    (bag == INVENTORY_SLOT_BAG_0 && (is_bank_item_slot(slot) || is_bank_bag_slot(slot)))
        || is_bank_bag_slot(bag)
}

/// The purchased-bank-bag count kept in bits 16..24 of `PLAYER_BYTES_2`;
/// 0 when the character has no visual data.
pub fn bank_bag_slot_count(player_bytes2: Option<u32>) -> (count: u8)
    ensures
        count == match player_bytes2 {
            Some(bytes) => ((bytes >> 16u32) & 0xFFu32) as u8,
            None => 0u8,
        },
{
    match player_bytes2 {
        Some(bytes) => ((bytes >> 16u32) & 0xFFu32) as u8,
        None => 0,
    }
}

/// `player_bytes2` with its purchased-bank-bag count replaced by `count`.
pub fn with_bank_bag_slot_count(player_bytes2: u32, count: u8) -> (bytes: u32)
    ensures
        bytes == (player_bytes2 & !(0xFFu32 << 16u32)) | ((count as u32) << 16u32),
{
    (player_bytes2 & !(0xFFu32 << 16u32)) | ((count as u32) << 16u32)
}

#[verifier::allow_in_spec]
pub fn purchased_bank_bag_slot_index(slot: u8) -> Option<u8>
    returns
        (if is_bank_bag_slot(slot) { Some((slot - BANK_SLOT_BAG_START) as u8) } else { None }),
{
    if is_bank_bag_slot(slot) {
        Some(slot - BANK_SLOT_BAG_START)
    } else {
        None
    }
}

/// A bank bag slot with an index beyond `bank_bag_slot_count` has not been bought.
#[verifier::allow_in_spec]
pub fn unpurchased_bank_bag_slot(bag: u8, slot: u8, bank_bag_slot_count: u8) -> bool
    returns
        (if bag == INVENTORY_SLOT_BAG_0 {
            is_bank_bag_slot(slot) && slot - BANK_SLOT_BAG_START >= bank_bag_slot_count
        } else {
            is_bank_bag_slot(bag) && bag - BANK_SLOT_BAG_START >= bank_bag_slot_count
        }),
{
    if bag == INVENTORY_SLOT_BAG_0 {
        return match purchased_bank_bag_slot_index(slot) {
            Some(index) => index >= bank_bag_slot_count,
            None => false,
        };
    }
    match purchased_bank_bag_slot_index(bag) {
        Some(index) => index >= bank_bag_slot_count,
        None => false,
    }
}

#[verifier::allow_in_spec]
pub fn is_supported_storage_position(bag: u8, slot: u8) -> bool
    returns
        (bag == INVENTORY_SLOT_BAG_0 && (slot < INVENTORY_SLOT_ITEM_END || is_bank_item_slot(slot)))
            || (is_bag_slot(bag) && slot < MAX_BAG_SIZE),
{
    (bag == INVENTORY_SLOT_BAG_0 && (slot < INVENTORY_SLOT_ITEM_END || is_bank_item_slot(slot)))
        || (is_bag_slot(bag) && slot < MAX_BAG_SIZE)
}

#[verifier::allow_in_spec]
pub fn is_supported_move_position(bag: u8, slot: u8) -> bool
    returns
        (bag == INVENTORY_SLOT_BAG_0 && (slot < EQUIPMENT_SLOT_END || is_bag_slot(slot)
            || is_backpack_item_slot(slot) || is_bank_item_slot(slot)))
            || (is_bag_slot(bag) && slot < MAX_BAG_SIZE),
{
    (bag == INVENTORY_SLOT_BAG_0 && (slot < EQUIPMENT_SLOT_END || is_bag_slot(slot)
        || is_backpack_item_slot(slot) || is_bank_item_slot(slot)))
        || (is_bag_slot(bag) && slot < MAX_BAG_SIZE)
}


// ---------------------------------------------------------------------------
// Bags

/// Some bag in `bags` sits in bag slot `bag` and has more than `slot` slots.
pub open spec fn bags_have_slot(bags: Seq<EquippedBagInfo>, bag: u8, slot: u8) -> bool {
    exists|i: int| 0 <= i < bags.len() && #[trigger] bags[i].slot == bag && slot < bags[i].container_slots
}

/// The first bag of `bags` that sits in bag slot `bag`.
pub open spec fn first_bag_in_slot(bags: Seq<EquippedBagInfo>, bag: u8) -> Option<EquippedBagInfo>
    decreases bags.len(),
{
    if bags.len() == 0 {
        None
    } else {
        match first_bag_in_slot(bags.drop_last(), bag) {
            Some(found) => Some(found),
            None => if bags.last().slot == bag { Some(bags.last()) } else { None },
        }
    }
}

fn bags_contain_slot(bags: &[EquippedBagInfo], bag: u8, slot: u8) -> (found: bool)
    ensures
        found == bags_have_slot(bags@, bag, slot),
{
    let mut i: usize = 0;
    while i < bags.len()
        invariant
            i <= bags.len(),
            forall|j: int| 0 <= j < i ==> !(#[trigger] bags@[j].slot == bag && slot < bags@[j].container_slots),
        decreases bags.len() - i,
    {
        if bags[i].slot == bag && slot < bags[i].container_slots {
            return true;
        }
        i += 1;
    }
    false
}

fn find_bag_in_slot(bags: &[EquippedBagInfo], bag: u8) -> (found: Option<EquippedBagInfo>)
    ensures
        found == first_bag_in_slot(bags@, bag),
{
    let mut i: usize = 0;
    while i < bags.len()
        invariant
            i <= bags.len(),
            first_bag_in_slot(bags@.take(i as int), bag) is None,
        decreases bags.len() - i,
    {
        assert(bags@.take(i + 1).drop_last() =~= bags@.take(i as int));
        if bags[i].slot == bag {
            proof { lemma_first_bag_prefix(bags@, bag, (i + 1) as int); }
            return Some(bags[i]);
        }
        i += 1;
    }
    assert(bags@.take(bags@.len() as int) =~= bags@);
    None
}

proof fn lemma_first_bag_prefix(bags: Seq<EquippedBagInfo>, bag: u8, n: int)
    requires
        0 <= n <= bags.len(),
        first_bag_in_slot(bags.take(n), bag) is Some,
    ensures
        first_bag_in_slot(bags, bag) == first_bag_in_slot(bags.take(n), bag),
    decreases bags.len() - n,
{
    if n < bags.len() {
        assert(bags.take(n + 1).drop_last() =~= bags.take(n));
        lemma_first_bag_prefix(bags, bag, n + 1);
    } else {
        assert(bags.take(n) =~= bags);
    }
}

/// Whether an item may be placed in a bag of the given kind.
#[verifier::allow_in_spec]
pub fn item_can_go_into_bag(item: &ItemTemplateQuery, bag: &EquippedBagInfo) -> bool
    returns
        (if bag.class == ITEM_CLASS_CONTAINER {
            if bag.subclass == ITEM_SUBCLASS_CONTAINER {
                true
            } else if bag.subclass == ITEM_SUBCLASS_SOUL_CONTAINER {
                item.bag_family == BAG_FAMILY_SOUL_SHARDS
            } else if bag.subclass == ITEM_SUBCLASS_HERB_CONTAINER {
                item.bag_family == BAG_FAMILY_HERBS
            } else if bag.subclass == ITEM_SUBCLASS_ENCHANTING_CONTAINER {
                item.bag_family == BAG_FAMILY_ENCHANTING_SUPP
            } else if bag.subclass == ITEM_SUBCLASS_ENGINEERING_CONTAINER {
                item.bag_family == BAG_FAMILY_ENGINEERING_SUPP
            } else {
                false
            }
        } else if bag.class == ITEM_CLASS_QUIVER {
            if bag.subclass == ITEM_SUBCLASS_QUIVER {
                item.bag_family == BAG_FAMILY_ARROWS
            } else if bag.subclass == ITEM_SUBCLASS_AMMO_POUCH {
                item.bag_family == BAG_FAMILY_BULLETS
            } else {
                false
            }
        } else {
            false
        }),
{
    if bag.class == ITEM_CLASS_CONTAINER {
        if bag.subclass == ITEM_SUBCLASS_CONTAINER {
            true
        } else if bag.subclass == ITEM_SUBCLASS_SOUL_CONTAINER {
            item.bag_family == BAG_FAMILY_SOUL_SHARDS
        } else if bag.subclass == ITEM_SUBCLASS_HERB_CONTAINER {
            item.bag_family == BAG_FAMILY_HERBS
        } else if bag.subclass == ITEM_SUBCLASS_ENCHANTING_CONTAINER {
            item.bag_family == BAG_FAMILY_ENCHANTING_SUPP
        } else if bag.subclass == ITEM_SUBCLASS_ENGINEERING_CONTAINER {
            item.bag_family == BAG_FAMILY_ENGINEERING_SUPP
        } else {
            false
        }
    } else if bag.class == ITEM_CLASS_QUIVER {
        if bag.subclass == ITEM_SUBCLASS_QUIVER {
            item.bag_family == BAG_FAMILY_ARROWS
        } else if bag.subclass == ITEM_SUBCLASS_AMMO_POUCH {
            item.bag_family == BAG_FAMILY_BULLETS
        } else {
            false
        }
    } else {
        false
    }
}

#[verifier::allow_in_spec]
pub fn is_normal_container_bag(bag: &EquippedBagInfo) -> bool
    returns
        bag.class == ITEM_CLASS_CONTAINER && bag.subclass == ITEM_SUBCLASS_CONTAINER,
{
    bag.class == ITEM_CLASS_CONTAINER && bag.subclass == ITEM_SUBCLASS_CONTAINER
}

pub open spec fn bag_accepts_item_spec(bag: u8, template: ItemTemplateQuery, bags: Seq<EquippedBagInfo>) -> bool {
    bag == INVENTORY_SLOT_BAG_0 || match first_bag_in_slot(bags, bag) {
        Some(found) => item_can_go_into_bag(&template, &found),
        None => false,
    }
}

/// The backpack takes anything; another bag takes what its kind allows.
pub fn bag_accepts_item(bag: u8, template: &ItemTemplateQuery, equipped_bags: &[EquippedBagInfo]) -> (accepts: bool)
    ensures
        accepts == bag_accepts_item_spec(bag, *template, equipped_bags@),
{
    if bag == INVENTORY_SLOT_BAG_0 {
        return true;
    }
    match find_bag_in_slot(equipped_bags, bag) {
        Some(found) => item_can_go_into_bag(template, &found),
        None => false,
    }
}

pub open spec fn storage_position_exists_spec(bag: u8, slot: u8, bags: Seq<EquippedBagInfo>) -> bool {
    if bag == INVENTORY_SLOT_BAG_0 {
        is_backpack_item_slot(slot)
    } else {
        bags_have_slot(bags, bag, slot)
    }
}

/// A carried storage position: a backpack slot or a slot of an equipped bag.
pub fn storage_position_exists(bag: u8, slot: u8, equipped_bags: &[EquippedBagInfo]) -> (exists: bool)
    ensures
        exists == storage_position_exists_spec(bag, slot, equipped_bags@),
{
    if bag == INVENTORY_SLOT_BAG_0 {
        return is_backpack_item_slot(slot);
    }
    bags_contain_slot(equipped_bags, bag, slot)
}

pub open spec fn purchased_bank_bag_slot(slot: u8, bank_bag_slot_count: u8) -> bool {
    is_bank_bag_slot(slot) && slot - BANK_SLOT_BAG_START < bank_bag_slot_count
}

pub open spec fn bank_storage_position_exists_spec(
    bag: u8,
    slot: u8,
    bank_bags: Seq<EquippedBagInfo>,
    bank_bag_slot_count: u8,
) -> bool {
    if bag == INVENTORY_SLOT_BAG_0 {
        is_bank_item_slot(slot) || purchased_bank_bag_slot(slot, bank_bag_slot_count)
    } else {
        bags_have_slot(bank_bags, bag, slot)
    }
}

/// A bank storage position: a bank item slot, a purchased bank bag slot, or
/// a slot of a bank bag.
pub fn bank_storage_position_exists(
    bag: u8,
    slot: u8,
    bank_bags: &[EquippedBagInfo],
    bank_bag_slot_count: u8,
) -> (exists: bool)
    ensures
        exists == bank_storage_position_exists_spec(bag, slot, bank_bags@, bank_bag_slot_count),
{
    if bag == INVENTORY_SLOT_BAG_0 {
        return is_bank_item_slot(slot) || match purchased_bank_bag_slot_index(slot) {
            Some(index) => index < bank_bag_slot_count,
            None => false,
        };
    }
    bags_contain_slot(bank_bags, bag, slot)
}

pub open spec fn move_position_exists_spec(
    bag: u8,
    slot: u8,
    equipped_bags: Seq<EquippedBagInfo>,
    bank_bags: Seq<EquippedBagInfo>,
    bank_bag_slot_count: u8,
) -> bool {
    if bag == INVENTORY_SLOT_BAG_0 {
        slot < EQUIPMENT_SLOT_END || is_inventory_bag_slot(slot) || is_backpack_item_slot(slot)
            || is_bank_item_slot(slot) || purchased_bank_bag_slot(slot, bank_bag_slot_count)
    } else {
        bags_have_slot(equipped_bags, bag, slot) || bags_have_slot(bank_bags, bag, slot)
    }
}

/// Any position an item can be moved from or to: equipment, bag slots,
/// backpack, bank, purchased bank bag slots, or a slot of any equipped bag.
pub fn move_position_exists(
    bag: u8,
    slot: u8,
    equipped_bags: &[EquippedBagInfo],
    bank_bags: &[EquippedBagInfo],
    bank_bag_slot_count: u8,
) -> (exists: bool)
    ensures
        exists == move_position_exists_spec(bag, slot, equipped_bags@, bank_bags@, bank_bag_slot_count),
{
    if bag == INVENTORY_SLOT_BAG_0 {
        return slot < EQUIPMENT_SLOT_END || is_inventory_bag_slot(slot) || is_backpack_item_slot(slot)
            || is_bank_item_slot(slot) || match purchased_bank_bag_slot_index(slot) {
            Some(index) => index < bank_bag_slot_count,
            None => false,
        };
    }
    bags_contain_slot(equipped_bags, bag, slot) || bags_contain_slot(bank_bags, bag, slot)
}

pub open spec fn storage_slot_range_spec(bag: u8, bags: Seq<EquippedBagInfo>) -> Option<(u8, u8)> {
    if bag == INVENTORY_SLOT_BAG_0 {
        Some((INVENTORY_SLOT_ITEM_START, INVENTORY_SLOT_ITEM_END))
    } else {
        match first_bag_in_slot(bags, bag) {
            Some(found) => Some((0u8, found.container_slots)),
            None => None,
        }
    }
}

/// The slots `start..end` of a carried bag.
pub fn storage_slot_range(bag: u8, equipped_bags: &[EquippedBagInfo]) -> (range: Option<(u8, u8)>)
    ensures
        range == storage_slot_range_spec(bag, equipped_bags@),
{
    if bag == INVENTORY_SLOT_BAG_0 {
        return Some((INVENTORY_SLOT_ITEM_START, INVENTORY_SLOT_ITEM_END));
    }
    match find_bag_in_slot(equipped_bags, bag) {
        Some(found) => Some((0, found.container_slots)),
        None => None,
    }
}

pub open spec fn bank_slot_range_spec(bag: u8, bank_bags: Seq<EquippedBagInfo>, bank_bag_slot_count: u8) -> Option<(u8, u8)> {
    if bag == INVENTORY_SLOT_BAG_0 {
        Some((BANK_SLOT_ITEM_START, BANK_SLOT_ITEM_END))
    } else if purchased_bank_bag_slot(bag, bank_bag_slot_count) {
        match first_bag_in_slot(bank_bags, bag) {
            Some(found) => Some((0u8, found.container_slots)),
            None => None,
        }
    } else {
        None
    }
}

/// The slots `start..end` of the bank or of a purchased bank bag.
pub fn bank_slot_range(bag: u8, bank_bags: &[EquippedBagInfo], bank_bag_slot_count: u8) -> (range: Option<(u8, u8)>)
    ensures
        range == bank_slot_range_spec(bag, bank_bags@, bank_bag_slot_count),
{
    if bag == INVENTORY_SLOT_BAG_0 {
        return Some((BANK_SLOT_ITEM_START, BANK_SLOT_ITEM_END));
    }
    let purchased = match purchased_bank_bag_slot_index(bag) {
        Some(index) => index < bank_bag_slot_count,
        None => false,
    };
    if !purchased {
        return None;
    }
    match find_bag_in_slot(bank_bags, bag) {
        Some(found) => Some((0, found.container_slots)),
        None => None,
    }
}


// ---------------------------------------------------------------------------
// Storage planning

/// Slots of the bags in `bags` that take `template` and are (or are not)
/// ordinary containers, in `bags` order.
pub open spec fn accepting_bag_slots(bags: Seq<EquippedBagInfo>, template: ItemTemplateQuery, normal: bool) -> Seq<u8>
    decreases bags.len(),
{
    if bags.len() == 0 {
        Seq::empty()
    } else {
        let last = bags.last();
        accepting_bag_slots(bags.drop_last(), template, normal) + if is_normal_container_bag(&last) == normal
            && item_can_go_into_bag(&template, &last) {
            seq![last.slot]
        } else {
            Seq::empty()
        }
    }
}

/// The bags tried when storing `template`: only `specific_bag` if given (when
/// it takes the item), else the backpack, then special bags for items with a
/// bag family, then ordinary bags.
pub open spec fn store_bag_order_spec(
    template: ItemTemplateQuery,
    bags: Seq<EquippedBagInfo>,
    specific_bag: Option<u8>,
) -> Seq<u8> {
    match specific_bag {
        Some(bag) => if bag_accepts_item_spec(bag, template, bags) { seq![bag] } else { Seq::empty() },
        None => seq![INVENTORY_SLOT_BAG_0] + (if template.bag_family != 0 {
            accepting_bag_slots(bags, template, false)
        } else {
            Seq::empty()
        }) + accepting_bag_slots(bags, template, true),
    }
}

fn push_accepting_bag_slots(out: &mut Vec<u8>, bags: &[EquippedBagInfo], template: &ItemTemplateQuery, normal: bool)
    ensures
        final(out)@ == old(out)@ + accepting_bag_slots(bags@, *template, normal),
{
    let ghost start = out@;
    let mut i: usize = 0;
    while i < bags.len()
        invariant
            i <= bags.len(),
            out@ == start + accepting_bag_slots(bags@.take(i as int), *template, normal),
        decreases bags.len() - i,
    {
        assert(bags@.take(i + 1).drop_last() =~= bags@.take(i as int));
        if is_normal_container_bag(&bags[i]) == normal && item_can_go_into_bag(template, &bags[i]) {
            out.push(bags[i].slot);
        }
        i += 1;
    }
    assert(bags@.take(bags@.len() as int) =~= bags@);
}

fn store_bag_order(template: &ItemTemplateQuery, bags: &[EquippedBagInfo], specific_bag: Option<u8>) -> (order: Vec<u8>)
    ensures
        order@ == store_bag_order_spec(*template, bags@, specific_bag),
{
    if let Some(bag) = specific_bag {
        return if bag_accepts_item(bag, template, bags) {
            vec![bag]
        } else {
            Vec::new()
        };
    }
    let mut order = vec![INVENTORY_SLOT_BAG_0];
    if template.bag_family != 0 {
        push_accepting_bag_slots(&mut order, bags, template, false);
    }
    push_accepting_bag_slots(&mut order, bags, template, true);
    order
}

/// The bags tried, in order, when storing `template` in the carried inventory.
pub fn inventory_store_bag_order(
    template: &ItemTemplateQuery,
    equipped_bags: &[EquippedBagInfo],
    specific_bag: Option<u8>,
) -> (order: Vec<u8>)
    ensures
        order@ == store_bag_order_spec(*template, equipped_bags@, specific_bag),
{
    store_bag_order(template, equipped_bags, specific_bag)
}

/// The bags tried, in order, when storing `template` in the bank.
pub fn bank_store_bag_order(
    template: &ItemTemplateQuery,
    bank_bags: &[EquippedBagInfo],
    specific_bag: Option<u8>,
) -> (order: Vec<u8>)
    ensures
        order@ == store_bag_order_spec(*template, bank_bags@, specific_bag),
{
    store_bag_order(template, bank_bags, specific_bag)
}

/// Where a plan may put items: the carried inventory (`None`) or the bank
/// with the given number of purchased bank bag slots.
pub open spec fn scope_position_exists(
    bank: Option<u8>,
    bag: u8,
    slot: u8,
    bags: Seq<EquippedBagInfo>,
) -> bool {
    match bank {
        None => storage_position_exists_spec(bag, slot, bags),
        Some(count) => bank_storage_position_exists_spec(bag, slot, bags, count),
    }
}

pub open spec fn scope_slot_range(bank: Option<u8>, bag: u8, bags: Seq<EquippedBagInfo>) -> Option<(u8, u8)> {
    match bank {
        None => storage_slot_range_spec(bag, bags),
        Some(count) => bank_slot_range_spec(bag, bags, count),
    }
}

/// Stacks of `template` in `bag` that still have room, as candidate
/// destinations whose `count` is the room left, in inventory order.
pub open spec fn stack_candidates_in_bag(
    inventory: Seq<CharacterInventoryItem>,
    bag: u8,
    template: ItemTemplateQuery,
    max_stack: u32,
    skip_item: Option<u32>,
    bank: Option<u8>,
    bags: Seq<EquippedBagInfo>,
) -> Seq<StoreSlot>
    decreases inventory.len(),
{
    if inventory.len() == 0 {
        Seq::empty()
    } else {
        let item = inventory.last();
        stack_candidates_in_bag(inventory.drop_last(), bag, template, max_stack, skip_item, bank, bags)
            + if item.bag == bag as u32 && item.item_template == template.entry && Some(item.item) != skip_item
            && item.count < max_stack && scope_position_exists(bank, bag, item.slot, bags) {
            seq![StoreSlot { bag, slot: item.slot, count: (max_stack - item.count) as u32, existing_item: Some(item.item) }]
        } else {
            Seq::empty()
        }
    }
}

pub open spec fn stack_candidates(
    inventory: Seq<CharacterInventoryItem>,
    order: Seq<u8>,
    template: ItemTemplateQuery,
    max_stack: u32,
    skip_item: Option<u32>,
    bank: Option<u8>,
    bags: Seq<EquippedBagInfo>,
) -> Seq<StoreSlot>
    decreases order.len(),
{
    if order.len() == 0 {
        Seq::empty()
    } else {
        stack_candidates(inventory, order.drop_last(), template, max_stack, skip_item, bank, bags)
            + stack_candidates_in_bag(inventory, order.last(), template, max_stack, skip_item, bank, bags)
    }
}

/// Some item other than `skip_item` occupies `(bag, slot)`.
pub open spec fn slot_occupied(inventory: Seq<CharacterInventoryItem>, bag: u8, slot: u8, skip_item: Option<u32>) -> bool {
    exists|i: int| 0 <= i < inventory.len() && #[trigger] inventory[i].bag == bag as u32
        && inventory[i].slot == slot && Some(inventory[i].item) != skip_item
}

/// Empty slots `start..end` of `bag` as candidates holding a full stack each.
pub open spec fn free_candidates_in_range(
    inventory: Seq<CharacterInventoryItem>,
    bag: u8,
    start: int,
    end: int,
    max_stack: u32,
    skip_item: Option<u32>,
) -> Seq<StoreSlot>
    decreases end - start,
{
    if end <= start {
        Seq::empty()
    } else {
        free_candidates_in_range(inventory, bag, start, end - 1, max_stack, skip_item)
            + if !slot_occupied(inventory, bag, (end - 1) as u8, skip_item) {
            seq![StoreSlot { bag, slot: (end - 1) as u8, count: max_stack, existing_item: None }]
        } else {
            Seq::empty()
        }
    }
}

pub open spec fn free_candidates(
    inventory: Seq<CharacterInventoryItem>,
    order: Seq<u8>,
    max_stack: u32,
    skip_item: Option<u32>,
    bank: Option<u8>,
    bags: Seq<EquippedBagInfo>,
) -> Seq<StoreSlot>
    decreases order.len(),
{
    if order.len() == 0 {
        Seq::empty()
    } else {
        free_candidates(inventory, order.drop_last(), max_stack, skip_item, bank, bags)
            + match scope_slot_range(bank, order.last(), bags) {
            Some(range) => free_candidates_in_range(inventory, order.last(), range.0 as int, range.1 as int, max_stack, skip_item),
            None => Seq::empty(),
        }
    }
}

/// Fill candidates front to back, each with as much as it holds, until
/// `remaining` items are placed; `None` when they do not all fit.
pub open spec fn greedy_fill(candidates: Seq<StoreSlot>, remaining: nat) -> Option<Seq<StoreSlot>>
    decreases candidates.len(),
{
    if remaining == 0 {
        Some(Seq::empty())
    } else if candidates.len() == 0 {
        None
    } else {
        let first = candidates[0];
        let take: nat = if remaining < first.count { remaining } else { first.count as nat };
        match greedy_fill(candidates.drop_first(), (remaining - take) as nat) {
            Some(rest) => Some(seq![StoreSlot { count: take as u32, ..first }] + rest),
            None => None,
        }
    }
}

/// The largest stack size of a template; templates that claim 0 stack as 1.
pub open spec fn template_max_stack(template: ItemTemplateQuery) -> u32 {
    if template.stackable > 1 { template.stackable } else { 1 }
}

/// All candidate destinations of a plan, in the order they are filled:
/// existing stacks with room (for stackable items), then empty slots.
pub open spec fn plan_candidates(
    inventory: Seq<CharacterInventoryItem>,
    template: ItemTemplateQuery,
    bags: Seq<EquippedBagInfo>,
    specific_bag: Option<u8>,
    skip_item: Option<u32>,
    bank: Option<u8>,
) -> Seq<StoreSlot> {
    let max_stack = template_max_stack(template);
    let order = store_bag_order_spec(template, bags, specific_bag);
    (if max_stack > 1 {
        stack_candidates(inventory, order, template, max_stack, skip_item, bank, bags)
    } else {
        Seq::empty()
    }) + free_candidates(inventory, order, max_stack, skip_item, bank, bags)
}

pub open spec fn plan_spec(
    inventory: Seq<CharacterInventoryItem>,
    template: ItemTemplateQuery,
    count: u32,
    bags: Seq<EquippedBagInfo>,
    specific_bag: Option<u8>,
    skip_item: Option<u32>,
    bank: Option<u8>,
) -> Option<Seq<StoreSlot>> {
    greedy_fill(plan_candidates(inventory, template, bags, specific_bag, skip_item, bank), count as nat)
}

fn scope_position_exists_exec(bank: Option<u8>, bag: u8, slot: u8, bags: &[EquippedBagInfo]) -> (exists: bool)
    ensures
        exists == scope_position_exists(bank, bag, slot, bags@),
{
    match bank {
        None => storage_position_exists(bag, slot, bags),
        Some(count) => bank_storage_position_exists(bag, slot, bags, count),
    }
}

fn push_stack_candidates(
    out: &mut Vec<StoreSlot>,
    inventory: &[CharacterInventoryItem],
    order: &Vec<u8>,
    template: &ItemTemplateQuery,
    max_stack: u32,
    skip_item: Option<u32>,
    bank: Option<u8>,
    bags: &[EquippedBagInfo],
)
    ensures
        final(out)@ == old(out)@ + stack_candidates(inventory@, order@, *template, max_stack, skip_item, bank, bags@),
{
    let ghost start = out@;
    let mut b: usize = 0;
    while b < order.len()
        invariant
            b <= order.len(),
            out@ == start + stack_candidates(inventory@, order@.take(b as int), *template, max_stack, skip_item, bank, bags@),
        decreases order.len() - b,
    {
        let bag = order[b];
        let ghost before = out@;
        let mut i: usize = 0;
        while i < inventory.len()
            invariant
                b < order.len(),
                bag == order@[b as int],
                i <= inventory.len(),
                out@ == before + stack_candidates_in_bag(inventory@.take(i as int), bag, *template, max_stack, skip_item, bank, bags@),
            decreases inventory.len() - i,
        {
            assert(inventory@.take(i + 1).drop_last() =~= inventory@.take(i as int));
            let item = inventory[i];
            let skipped = match skip_item {
                Some(skip) => item.item == skip,
                None => false,
            };
            if item.bag == bag as u32 && item.item_template == template.entry && !skipped
                && item.count < max_stack && scope_position_exists_exec(bank, bag, item.slot, bags) {
                out.push(StoreSlot { bag, slot: item.slot, count: max_stack - item.count, existing_item: Some(item.item) });
            }
            i += 1;
        }
        assert(inventory@.take(inventory@.len() as int) =~= inventory@);
        assert(order@.take(b + 1).drop_last() =~= order@.take(b as int));
        b += 1;
    }
    assert(order@.take(order@.len() as int) =~= order@);
}

fn slot_is_occupied(inventory: &[CharacterInventoryItem], bag: u8, slot: u8, skip_item: Option<u32>) -> (occupied: bool)
    ensures
        occupied == slot_occupied(inventory@, bag, slot, skip_item),
{
    let mut i: usize = 0;
    while i < inventory.len()
        invariant
            i <= inventory.len(),
            forall|j: int| 0 <= j < i ==> !(#[trigger] inventory@[j].bag == bag as u32
                && inventory@[j].slot == slot && Some(inventory@[j].item) != skip_item),
        decreases inventory.len() - i,
    {
        let item = inventory[i];
        let skipped = match skip_item {
            Some(skip) => item.item == skip,
            None => false,
        };
        if item.bag == bag as u32 && item.slot == slot && !skipped {
            return true;
        }
        i += 1;
    }
    false
}

fn scope_slot_range_exec(bank: Option<u8>, bag: u8, bags: &[EquippedBagInfo]) -> (range: Option<(u8, u8)>)
    ensures
        range == scope_slot_range(bank, bag, bags@),
{
    match bank {
        None => storage_slot_range(bag, bags),
        Some(count) => bank_slot_range(bag, bags, count),
    }
}

fn push_free_candidates(
    out: &mut Vec<StoreSlot>,
    inventory: &[CharacterInventoryItem],
    order: &Vec<u8>,
    max_stack: u32,
    skip_item: Option<u32>,
    bank: Option<u8>,
    bags: &[EquippedBagInfo],
)
    ensures
        final(out)@ == old(out)@ + free_candidates(inventory@, order@, max_stack, skip_item, bank, bags@),
{
    let ghost start = out@;
    let mut b: usize = 0;
    while b < order.len()
        invariant
            b <= order.len(),
            out@ == start + free_candidates(inventory@, order@.take(b as int), max_stack, skip_item, bank, bags@),
        decreases order.len() - b,
    {
        let bag = order[b];
        assert(order@.take(b + 1).drop_last() =~= order@.take(b as int));
        if let Some((first, end)) = scope_slot_range_exec(bank, bag, bags) {
            let ghost before = out@;
            let mut slot: u8 = first;
            if slot > end {
                slot = end;
            }
            assert(free_candidates_in_range(inventory@, bag, first as int, slot as int, max_stack, skip_item) =~= Seq::empty());
            while slot < end
                invariant
                    slot <= end,
                    first <= slot || slot == end,
                    out@ == before + free_candidates_in_range(inventory@, bag, first as int, slot as int, max_stack, skip_item),
                decreases end - slot,
            {
                if !slot_is_occupied(inventory, bag, slot, skip_item) {
                    out.push(StoreSlot { bag, slot, count: max_stack, existing_item: None });
                }
                slot += 1;
            }
            if first > end {
                assert(free_candidates_in_range(inventory@, bag, first as int, end as int, max_stack, skip_item) =~= Seq::empty());
            }
        }
        b += 1;
    }
    assert(order@.take(order@.len() as int) =~= order@);
}

/// Fill the candidates greedily; see `greedy_fill`.
fn fill_candidates(candidates: &Vec<StoreSlot>, count: u32) -> (plan: Option<Vec<StoreSlot>>)
    ensures
        match plan {
            Some(p) => greedy_fill(candidates@, count as nat) == Some(p@),
            None => greedy_fill(candidates@, count as nat) is None,
        },
{
    let mut dest: Vec<StoreSlot> = Vec::new();
    let mut remaining: u32 = count;
    let mut i: usize = 0;
    proof {
        assert(candidates@.skip(0) =~= candidates@);
        match greedy_fill(candidates@, count as nat) {
            Some(r) => { assert(dest@ + r =~= r); },
            None => {},
        }
    }
    while i < candidates.len() && remaining > 0
        invariant
            i <= candidates.len(),
            greedy_fill(candidates@, count as nat) == match greedy_fill(candidates@.skip(i as int), remaining as nat) {
                Some(rest) => Some(dest@ + rest),
                None => None::<Seq<StoreSlot>>,
            },
        decreases candidates.len() - i,
    {
        let candidate = candidates[i];
        let take = if remaining < candidate.count { remaining } else { candidate.count };
        proof {
            assert(candidates@.skip(i as int).drop_first() =~= candidates@.skip(i + 1));
            assert(candidates@.skip(i as int)[0] == candidate);
            let ghost rest = greedy_fill(candidates@.skip(i + 1), (remaining - take) as nat);
            match rest {
                Some(r) => {
                    assert(dest@.push(StoreSlot { count: take, ..candidate }) + r
                        =~= dest@ + (seq![StoreSlot { count: take, ..candidate }] + r));
                },
                None => {},
            }
        }
        dest.push(StoreSlot { count: take, ..candidate });
        remaining = remaining - take;
        i += 1;
    }
    if remaining == 0 {
        assert(dest@ + Seq::<StoreSlot>::empty() =~= dest@);
        Some(dest)
    } else {
        assert(candidates@.skip(i as int).len() == 0);
        None
    }
}

fn plan_storage(
    inventory: &[CharacterInventoryItem],
    template: &ItemTemplateQuery,
    count: u32,
    bags: &[EquippedBagInfo],
    specific_bag: Option<u8>,
    skip_item: Option<u32>,
    bank: Option<u8>,
) -> (plan: Option<Vec<StoreSlot>>)
    ensures
        match plan {
            Some(p) => plan_spec(inventory@, *template, count, bags@, specific_bag, skip_item, bank) == Some(p@),
            None => plan_spec(inventory@, *template, count, bags@, specific_bag, skip_item, bank) is None,
        },
{
    if count == 0 {
        return Some(Vec::new());
    }
    let max_stack = if template.stackable > 1 { template.stackable } else { 1 };
    let order = store_bag_order(template, bags, specific_bag);
    let mut candidates: Vec<StoreSlot> = Vec::new();
    if max_stack > 1 {
        push_stack_candidates(&mut candidates, inventory, &order, template, max_stack, skip_item, bank, bags);
    }
    push_free_candidates(&mut candidates, inventory, &order, max_stack, skip_item, bank, bags);
    proof {
        assert(candidates@ =~= plan_candidates(inventory@, *template, bags@, specific_bag, skip_item, bank));
    }
    fill_candidates(&candidates, count)
}

/// Plans where `count` items of `template` go in the carried inventory:
/// first onto existing stacks with room (bags in `inventory_store_bag_order`),
/// then into empty slots; `None` when they do not all fit. `skip_item` is
/// treated as absent (the item being moved).
pub fn plan_store_item(
    inventory: &[CharacterInventoryItem],
    template: &ItemTemplateQuery,
    count: u32,
    equipped_bags: &[EquippedBagInfo],
    specific_bag: Option<u8>,
    skip_item: Option<u32>,
) -> (plan: Option<Vec<StoreSlot>>)
    ensures
        match plan {
            Some(p) => plan_spec(inventory@, *template, count, equipped_bags@, specific_bag, skip_item, None) == Some(p@),
            None => plan_spec(inventory@, *template, count, equipped_bags@, specific_bag, skip_item, None) is None,
        },
{
    plan_storage(inventory, template, count, equipped_bags, specific_bag, skip_item, None)
}

/// Plans where `count` items of `template` go in the bank, like
/// `plan_store_item` but over bank slots and purchased bank bags.
pub fn plan_bank_item(
    inventory: &[CharacterInventoryItem],
    template: &ItemTemplateQuery,
    count: u32,
    bank_bags: &[EquippedBagInfo],
    bank_bag_slot_count: u8,
    specific_bag: Option<u8>,
    skip_item: Option<u32>,
) -> (plan: Option<Vec<StoreSlot>>)
    ensures
        match plan {
            Some(p) => plan_spec(inventory@, *template, count, bank_bags@, specific_bag, skip_item, Some(bank_bag_slot_count)) == Some(p@),
            None => plan_spec(inventory@, *template, count, bank_bags@, specific_bag, skip_item, Some(bank_bag_slot_count)) is None,
        },
{
    plan_storage(inventory, template, count, bank_bags, specific_bag, skip_item, Some(bank_bag_slot_count))
}


// ---------------------------------------------------------------------------
// Requests

pub const CMSG_AUTOEQUIP_ITEM: u32 = 0x10A;
pub const CMSG_AUTOSTORE_BAG_ITEM: u32 = 0x10B;
pub const CMSG_SWAP_ITEM: u32 = 0x10C;
pub const CMSG_SWAP_INV_ITEM: u32 = 0x10D;
pub const CMSG_SPLIT_ITEM: u32 = 0x10E;
pub const CMSG_DESTROYITEM: u32 = 0x111;

/// An inventory move as the client sends it (bags not yet normalized).
#[derive(Clone, Copy, Debug, PartialEq, Eq, Structural)]
pub enum InventoryMoveClientRequest {
    AutoEquip { src_bag: u8, src_slot: u8 },
    AutoStoreBag { src_bag: u8, src_slot: u8, dst_bag: u8 },
    SwapItem { dst_bag: u8, dst_slot: u8, src_bag: u8, src_slot: u8 },
    SwapInvItem { src_slot: u8, dst_slot: u8 },
}

/// Why a client move request cannot be turned into a move by itself.
#[derive(Clone, Copy, Debug, PartialEq, Eq, Structural)]
pub enum InventoryMoveError {
    /// Auto-equip and auto-store requests need the item template and the
    /// current inventory to find their destination.
    NeedsSlotResolution,
}

/// The client opcode each request kind arrives with.
pub fn inventory_move_client_request_opcode(request: InventoryMoveClientRequest) -> (opcode: u32)
    ensures
        opcode == match request {
            InventoryMoveClientRequest::AutoEquip { .. } => CMSG_AUTOEQUIP_ITEM,
            InventoryMoveClientRequest::AutoStoreBag { .. } => CMSG_AUTOSTORE_BAG_ITEM,
            InventoryMoveClientRequest::SwapItem { .. } => CMSG_SWAP_ITEM,
            InventoryMoveClientRequest::SwapInvItem { .. } => CMSG_SWAP_INV_ITEM,
        },
{
    match request {
        InventoryMoveClientRequest::AutoEquip { .. } => CMSG_AUTOEQUIP_ITEM,
        InventoryMoveClientRequest::AutoStoreBag { .. } => CMSG_AUTOSTORE_BAG_ITEM,
        InventoryMoveClientRequest::SwapItem { .. } => CMSG_SWAP_ITEM,
        InventoryMoveClientRequest::SwapInvItem { .. } => CMSG_SWAP_INV_ITEM,
    }
}

/// The name of an inventory opcode, for diagnostics.
pub fn inventory_opcode_name(opcode: u32) -> (name: &'static str)
    ensures
        opcode == CMSG_AUTOEQUIP_ITEM ==> name@ == "CMSG_AUTOEQUIP_ITEM"@,
        opcode == CMSG_AUTOSTORE_BAG_ITEM ==> name@ == "CMSG_AUTOSTORE_BAG_ITEM"@,
        opcode == CMSG_SWAP_INV_ITEM ==> name@ == "CMSG_SWAP_INV_ITEM"@,
        opcode == CMSG_SWAP_ITEM ==> name@ == "CMSG_SWAP_ITEM"@,
        opcode == CMSG_SPLIT_ITEM ==> name@ == "CMSG_SPLIT_ITEM"@,
        opcode == CMSG_DESTROYITEM ==> name@ == "CMSG_DESTROYITEM"@,
        opcode != CMSG_AUTOEQUIP_ITEM && opcode != CMSG_AUTOSTORE_BAG_ITEM && opcode != CMSG_SWAP_INV_ITEM
            && opcode != CMSG_SWAP_ITEM && opcode != CMSG_SPLIT_ITEM && opcode != CMSG_DESTROYITEM
            ==> name@ == "UNKNOWN_INVENTORY_OPCODE"@,
{
    if opcode == CMSG_AUTOEQUIP_ITEM {
        "CMSG_AUTOEQUIP_ITEM"
    } else if opcode == CMSG_AUTOSTORE_BAG_ITEM {
        "CMSG_AUTOSTORE_BAG_ITEM"
    } else if opcode == CMSG_SWAP_INV_ITEM {
        "CMSG_SWAP_INV_ITEM"
    } else if opcode == CMSG_SWAP_ITEM {
        "CMSG_SWAP_ITEM"
    } else if opcode == CMSG_SPLIT_ITEM {
        "CMSG_SPLIT_ITEM"
    } else if opcode == CMSG_DESTROYITEM {
        "CMSG_DESTROYITEM"
    } else {
        "UNKNOWN_INVENTORY_OPCODE"
    }
}

impl InventoryMoveRequest {
    /// A swap request with its bags normalized; auto requests are refused.
    pub fn from_client_request(request: InventoryMoveClientRequest) -> (result: Result<Self, InventoryMoveError>)
        ensures
            result == match request {
                InventoryMoveClientRequest::SwapInvItem { src_slot, dst_slot } => Ok(InventoryMoveRequest {
                    src_bag: INVENTORY_SLOT_BAG_0,
                    src_slot,
                    dst_bag: INVENTORY_SLOT_BAG_0,
                    dst_slot,
                }),
                InventoryMoveClientRequest::SwapItem { dst_bag, dst_slot, src_bag, src_slot } => Ok(InventoryMoveRequest {
                    src_bag: normalize_client_bag(src_bag),
                    src_slot,
                    dst_bag: normalize_client_bag(dst_bag),
                    dst_slot,
                }),
                _ => Err(InventoryMoveError::NeedsSlotResolution),
            },
    {
        match request {
            InventoryMoveClientRequest::SwapInvItem { src_slot, dst_slot } => Ok(InventoryMoveRequest {
                src_bag: INVENTORY_SLOT_BAG_0,
                src_slot,
                dst_bag: INVENTORY_SLOT_BAG_0,
                dst_slot,
            }),
            InventoryMoveClientRequest::SwapItem { dst_bag, dst_slot, src_bag, src_slot } => Ok(InventoryMoveRequest {
                src_bag: normalize_client_bag(src_bag),
                src_slot,
                dst_bag: normalize_client_bag(dst_bag),
                dst_slot,
            }),
            _ => Err(InventoryMoveError::NeedsSlotResolution),
        }
    }

    #[verifier::allow_in_spec]
    pub fn is_supported_inventory_move(&self) -> bool
        returns
            is_supported_move_position(self.src_bag, self.src_slot) && is_supported_move_position(self.dst_bag, self.dst_slot),
    {
        is_supported_move_position(self.src_bag, self.src_slot) && is_supported_move_position(self.dst_bag, self.dst_slot)
    }

    /// Both ends of the move exist in the character's current storage.
    pub fn uses_existing_storage(
        &self,
        equipped_bags: &[EquippedBagInfo],
        bank_bags: &[EquippedBagInfo],
        bank_bag_slot_count: u8,
    ) -> (exists: bool)
        ensures
            exists == (move_position_exists_spec(self.src_bag, self.src_slot, equipped_bags@, bank_bags@, bank_bag_slot_count)
                && move_position_exists_spec(self.dst_bag, self.dst_slot, equipped_bags@, bank_bags@, bank_bag_slot_count)),
    {
        move_position_exists(self.src_bag, self.src_slot, equipped_bags, bank_bags, bank_bag_slot_count)
            && move_position_exists(self.dst_bag, self.dst_slot, equipped_bags, bank_bags, bank_bag_slot_count)
    }

    #[verifier::allow_in_spec]
    pub fn references_bank_storage(&self) -> bool
        returns
            is_bank_position(self.src_bag, self.src_slot) || is_bank_position(self.dst_bag, self.dst_slot),
    {
        is_bank_position(self.src_bag, self.src_slot) || is_bank_position(self.dst_bag, self.dst_slot)
    }

    #[verifier::allow_in_spec]
    pub fn references_unpurchased_bank_bag_slot(&self, bank_bag_slot_count: u8) -> bool
        returns
            unpurchased_bank_bag_slot(self.src_bag, self.src_slot, bank_bag_slot_count)
                || unpurchased_bank_bag_slot(self.dst_bag, self.dst_slot, bank_bag_slot_count),
    {
        unpurchased_bank_bag_slot(self.src_bag, self.src_slot, bank_bag_slot_count)
            || unpurchased_bank_bag_slot(self.dst_bag, self.dst_slot, bank_bag_slot_count)
    }

    /// Moving an equipped bag into one of its own slots.
    #[verifier::allow_in_spec]
    pub fn moves_equipped_bag_into_itself(&self) -> bool
        returns
            (self.src_bag == INVENTORY_SLOT_BAG_0 && is_bag_slot(self.src_slot) && self.dst_bag == self.src_slot)
                || (self.dst_bag == INVENTORY_SLOT_BAG_0 && is_bag_slot(self.dst_slot) && self.src_bag == self.dst_slot),
    {
        (self.src_bag == INVENTORY_SLOT_BAG_0 && is_bag_slot(self.src_slot) && self.dst_bag == self.src_slot)
            || (self.dst_bag == INVENTORY_SLOT_BAG_0 && is_bag_slot(self.dst_slot) && self.src_bag == self.dst_slot)
    }
}

impl DestroyItemRequest {
    /// A destroy request from client values, with the bag normalized.
    pub fn from_client(bag: u8, slot: u8, count: u8) -> (request: Self)
        ensures
            request == (DestroyItemRequest { bag: normalize_client_bag(bag), slot, count }),
    {
        DestroyItemRequest { bag: normalize_client_bag(bag), slot, count }
    }

    #[verifier::allow_in_spec]
    pub fn is_supported_destroy(&self) -> bool
        returns
            is_supported_storage_position(self.bag, self.slot),
    {
        is_supported_storage_position(self.bag, self.slot)
    }
}

impl SplitItemRequest {
    /// A split request from client values, with both bags normalized.
    pub fn from_client(src_bag: u8, src_slot: u8, dst_bag: u8, dst_slot: u8, count: u8) -> (request: Self)
        ensures
            request == (SplitItemRequest {
                src_bag: normalize_client_bag(src_bag),
                src_slot,
                dst_bag: normalize_client_bag(dst_bag),
                dst_slot,
                count,
            }),
    {
        SplitItemRequest {
            src_bag: normalize_client_bag(src_bag),
            src_slot,
            dst_bag: normalize_client_bag(dst_bag),
            dst_slot,
            count,
        }
    }

    #[verifier::allow_in_spec]
    pub fn is_supported_split(&self) -> bool
        returns
            self.count != 0 && is_supported_storage_position(self.src_bag, self.src_slot)
                && is_supported_storage_position(self.dst_bag, self.dst_slot),
    {
        self.count != 0 && is_supported_storage_position(self.src_bag, self.src_slot)
            && is_supported_storage_position(self.dst_bag, self.dst_slot)
    }
}

/// The character-slot (bag 0) positions a move touches, source first, each once.
pub fn bag0_changed_slots(request: &InventoryMoveRequest) -> (slots: Vec<u8>)
    ensures
        slots@ == (if request.src_bag == INVENTORY_SLOT_BAG_0 { seq![request.src_slot] } else { Seq::<u8>::empty() })
            + (if request.dst_bag == INVENTORY_SLOT_BAG_0 && request.dst_slot != request.src_slot {
                seq![request.dst_slot]
            } else {
                Seq::<u8>::empty()
            }),
{
    let mut slots = Vec::new();
    if request.src_bag == INVENTORY_SLOT_BAG_0 {
        slots.push(request.src_slot);
    }
    if request.dst_bag == INVENTORY_SLOT_BAG_0 && request.dst_slot != request.src_slot {
        slots.push(request.dst_slot);
    }
    assert(slots@ =~= (if request.src_bag == INVENTORY_SLOT_BAG_0 { seq![request.src_slot] } else { Seq::<u8>::empty() })
        + (if request.dst_bag == INVENTORY_SLOT_BAG_0 && request.dst_slot != request.src_slot {
            seq![request.dst_slot]
        } else {
            Seq::<u8>::empty()
        }));
    slots
}

/// Every destination lies in bag `bag`.
pub open spec fn all_in_bag(slots: Seq<StoreSlot>, bag: u8) -> bool {
    forall|k: int| 0 <= k < slots.len() ==> #[trigger] slots[k].bag == bag
}

proof fn lemma_all_in_bag_append(a: Seq<StoreSlot>, b: Seq<StoreSlot>, bag: u8)
    requires
        all_in_bag(a, bag),
        all_in_bag(b, bag),
    ensures
        all_in_bag(a + b, bag),
{
    assert forall|k: int| 0 <= k < (a + b).len() implies #[trigger] (a + b)[k].bag == bag by {
        if k < a.len() {
            assert((a + b)[k] == a[k]);
        } else {
            assert((a + b)[k] == b[k - a.len()]);
        }
    }
}

proof fn lemma_stack_candidates_in_bag_stay(
    inventory: Seq<CharacterInventoryItem>,
    bag: u8,
    template: ItemTemplateQuery,
    max_stack: u32,
    skip_item: Option<u32>,
    bank: Option<u8>,
    bags: Seq<EquippedBagInfo>,
)
    ensures
        all_in_bag(stack_candidates_in_bag(inventory, bag, template, max_stack, skip_item, bank, bags), bag),
    decreases inventory.len(),
{
    if inventory.len() > 0 {
        let item = inventory.last();
        lemma_stack_candidates_in_bag_stay(inventory.drop_last(), bag, template, max_stack, skip_item, bank, bags);
        let tail: Seq<StoreSlot> = if item.bag == bag as u32 && item.item_template == template.entry
            && Some(item.item) != skip_item && item.count < max_stack && scope_position_exists(bank, bag, item.slot, bags) {
            seq![StoreSlot { bag, slot: item.slot, count: (max_stack - item.count) as u32, existing_item: Some(item.item) }]
        } else {
            Seq::empty()
        };
        assert(all_in_bag(tail, bag));
        lemma_all_in_bag_append(
            stack_candidates_in_bag(inventory.drop_last(), bag, template, max_stack, skip_item, bank, bags),
            tail,
            bag,
        );
    }
}

proof fn lemma_free_candidates_in_range_stay(
    inventory: Seq<CharacterInventoryItem>,
    bag: u8,
    start: int,
    end: int,
    max_stack: u32,
    skip_item: Option<u32>,
)
    ensures
        all_in_bag(free_candidates_in_range(inventory, bag, start, end, max_stack, skip_item), bag),
    decreases end - start,
{
    if end > start {
        lemma_free_candidates_in_range_stay(inventory, bag, start, end - 1, max_stack, skip_item);
        let tail: Seq<StoreSlot> = if !slot_occupied(inventory, bag, (end - 1) as u8, skip_item) {
            seq![StoreSlot { bag, slot: (end - 1) as u8, count: max_stack, existing_item: None }]
        } else {
            Seq::empty()
        };
        assert(all_in_bag(tail, bag));
        lemma_all_in_bag_append(free_candidates_in_range(inventory, bag, start, end - 1, max_stack, skip_item), tail, bag);
    }
}

proof fn lemma_greedy_fill_stays(candidates: Seq<StoreSlot>, remaining: nat, bag: u8)
    requires
        all_in_bag(candidates, bag),
    ensures
        greedy_fill(candidates, remaining) matches Some(plan) ==> all_in_bag(plan, bag),
    decreases candidates.len(),
{
    if remaining > 0 && candidates.len() > 0 {
        let first = candidates[0];
        let take: nat = if remaining < first.count { remaining } else { first.count as nat };
        let rest = candidates.drop_first();
        assert(all_in_bag(rest, bag)) by {
            assert forall|k: int| 0 <= k < rest.len() implies #[trigger] rest[k].bag == bag by {
                assert(rest[k] == candidates[k + 1]);
            }
        }
        lemma_greedy_fill_stays(rest, (remaining - take) as nat, bag);
        match greedy_fill(rest, (remaining - take) as nat) {
            Some(tail) => {
                let head = StoreSlot { count: take as u32, ..first };
                assert(all_in_bag(seq![head], bag));
                lemma_all_in_bag_append(seq![head], tail, bag);
            },
            None => {},
        }
    }
}

/// A plan asked to store into one bag puts every item into that bag.
pub proof fn law_plan_for_one_bag_stays_in_it(
    inventory: Seq<CharacterInventoryItem>,
    template: ItemTemplateQuery,
    count: u32,
    bags: Seq<EquippedBagInfo>,
    bag: u8,
    skip_item: Option<u32>,
    bank: Option<u8>,
)
    ensures
        plan_spec(inventory, template, count, bags, Some(bag), skip_item, bank) matches Some(plan) ==> all_in_bag(plan, bag),
{
    let max_stack = template_max_stack(template);
    let order = store_bag_order_spec(template, bags, Some(bag));
    let empty = Seq::<u8>::empty();
    assert(stack_candidates(inventory, empty, template, max_stack, skip_item, bank, bags) =~= Seq::<StoreSlot>::empty());
    assert(free_candidates(inventory, empty, max_stack, skip_item, bank, bags) =~= Seq::<StoreSlot>::empty());
    assert(all_in_bag(Seq::<StoreSlot>::empty(), bag));
    let stacks = if max_stack > 1 {
        stack_candidates(inventory, order, template, max_stack, skip_item, bank, bags)
    } else {
        Seq::empty()
    };
    let free = free_candidates(inventory, order, max_stack, skip_item, bank, bags);
    if order.len() == 1 {
        assert(order.drop_last() =~= empty);
        assert(order.last() == bag);
        lemma_stack_candidates_in_bag_stay(inventory, bag, template, max_stack, skip_item, bank, bags);
        lemma_all_in_bag_append(
            Seq::<StoreSlot>::empty(),
            stack_candidates_in_bag(inventory, bag, template, max_stack, skip_item, bank, bags),
            bag,
        );
        assert(Seq::<StoreSlot>::empty() + stack_candidates_in_bag(inventory, bag, template, max_stack, skip_item, bank, bags)
            =~= stack_candidates_in_bag(inventory, bag, template, max_stack, skip_item, bank, bags));
        match scope_slot_range(bank, bag, bags) {
            Some(range) => {
                lemma_free_candidates_in_range_stay(inventory, bag, range.0 as int, range.1 as int, max_stack, skip_item);
                let r = free_candidates_in_range(inventory, bag, range.0 as int, range.1 as int, max_stack, skip_item);
                assert(Seq::<StoreSlot>::empty() + r =~= r);
            },
            None => {
                assert(Seq::<StoreSlot>::empty() + Seq::<StoreSlot>::empty() =~= Seq::<StoreSlot>::empty());
            },
        }
    } else {
        assert(order =~= empty);
    }
    assert(all_in_bag(stacks, bag));
    assert(all_in_bag(free, bag));
    lemma_all_in_bag_append(stacks, free, bag);
    lemma_greedy_fill_stays(stacks + free, count as nat, bag);
}

/// The one destination of a single-slot auto-store into `dst_bag`, if the
/// whole source stack fits in one place.
pub fn first_autostore_destination(
    inventory: &[CharacterInventoryItem],
    source: &CharacterInventoryItem,
    template: &ItemTemplateQuery,
    equipped_bags: &[EquippedBagInfo],
    dst_bag: u8,
) -> (dest: Option<(u8, u8)>)
    ensures
        dest == match plan_spec(inventory@, *template, source.count, equipped_bags@, Some(dst_bag), Some(source.item), None) {
            Some(p) => if p.len() == 1 { Some((p[0].bag, p[0].slot)) } else { None },
            None => None,
        },
        dest matches Some(d) ==> d.0 == dst_bag,
{
    proof {
        law_plan_for_one_bag_stays_in_it(inventory@, *template, source.count, equipped_bags@, dst_bag, Some(source.item), None);
    }
    match plan_store_item(inventory, template, source.count, equipped_bags, Some(dst_bag), Some(source.item)) {
        Some(plan) => if plan.len() == 1 {
            Some((plan[0].bag, plan[0].slot))
        } else {
            None
        },
        None => None,
    }
}

} // verus!
