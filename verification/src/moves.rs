//! The checks an inventory move passes before the store swaps or merges
//! the two positions, and the error the client is shown when it fails.
use vstd::prelude::*;
use crate::character::{ActiveCharacter, CharacterReputation, CharacterSkill};
use crate::equipment::{
    can_equip_spec, can_use_item_spec, character_can_equip_item_template, character_can_use_item_template,
    is_selectable_ammo_template, EQUIP_ERR_ITEM_CANT_BE_EQUIPPED, EQUIP_ERR_ITEM_NOT_FOUND, item_fits_equipment_slot, EQUIP_ERR_CANT_EQUIP_LEVEL_I,
    EQUIP_ERR_CAN_ONLY_DO_WITH_EMPTY_BAGS, EQUIP_ERR_ITEM_DOESNT_GO_TO_SLOT, EQUIP_ERR_MUST_PURCHASE_THAT_BAG_SLOT,
    EQUIP_ERR_NONEMPTY_BAG_OVER_OTHER_BAG, EQUIP_ERR_TOO_FAR_AWAY_FROM_BANK,
};
use crate::inventory::{
    is_bag_slot, move_position_exists_spec, unpurchased_bank_bag_slot, is_bank_position, CharacterInventoryItem,
    EquippedBagInfo, InventoryMoveRequest, ItemTemplateQuery, EQUIPMENT_SLOT_END, INVENTORY_SLOT_BAG_0,
};
use crate::vendor::{find_item_at, item_at};
use crate::equipment::{first_free_bag_slot, preferred_equipment_slot, preferred_equipment_slot_for_inventory};
use crate::inventory::{
    DestroyItemRequest, first_autostore_destination, normalize_client_bag, plan_spec, INVENTORY_SLOT_BAG_START, INVTYPE_BAG,
};

verus! {

/// A refused move: the error and the instance ids of the items it names.
#[derive(Clone, Copy, Debug, PartialEq, Eq, Structural)]
pub struct InventoryMoveFailure {
    pub error: u8,
    pub item: Option<u32>,
    pub other_item: Option<u32>,
    /// The level the item needs, for the too-low-level error.
    pub required_level: Option<u32>,
}

/// How a move request fares against the character's storage.
#[derive(Clone, Copy, Debug, PartialEq, Eq, Structural)]
pub enum InventoryMoveCheck {
    /// Dropped without an answer.
    Ignore,
    /// Refused with an inventory error.
    Fail(InventoryMoveFailure),
    /// Goes on with the items at both ends.
    Proceed { source: CharacterInventoryItem, destination: Option<CharacterInventoryItem> },
}

pub open spec fn storage_failure_error(request: InventoryMoveRequest, bank_bag_slot_count: u8) -> u8 {
    if unpurchased_bank_bag_slot(request.src_bag, request.src_slot, bank_bag_slot_count) || unpurchased_bank_bag_slot(
        request.dst_bag,
        request.dst_slot,
        bank_bag_slot_count,
    ) {
        EQUIP_ERR_MUST_PURCHASE_THAT_BAG_SLOT
    } else if is_bank_position(request.src_bag, request.src_slot) || is_bank_position(request.dst_bag, request.dst_slot) {
        EQUIP_ERR_TOO_FAR_AWAY_FROM_BANK
    } else {
        EQUIP_ERR_ITEM_DOESNT_GO_TO_SLOT
    }
}

pub open spec fn move_check_spec(
    request: InventoryMoveRequest,
    inventory: Seq<CharacterInventoryItem>,
    equipped_bags: Seq<EquippedBagInfo>,
    bank_bags: Seq<EquippedBagInfo>,
    bank_bag_slot_count: u8,
) -> InventoryMoveCheck {
    if !request.is_supported_inventory_move() {
        InventoryMoveCheck::Ignore
    } else if !(move_position_exists_spec(request.src_bag, request.src_slot, equipped_bags, bank_bags, bank_bag_slot_count)
        && move_position_exists_spec(request.dst_bag, request.dst_slot, equipped_bags, bank_bags, bank_bag_slot_count)) {
        InventoryMoveCheck::Fail(InventoryMoveFailure {
            error: storage_failure_error(request, bank_bag_slot_count),
            item: None,
            other_item: None,
            required_level: None,
        })
    } else if request.src_bag == request.dst_bag && request.src_slot == request.dst_slot {
        InventoryMoveCheck::Ignore
    } else {
        match item_at(inventory, request.src_bag, request.src_slot) {
            None => InventoryMoveCheck::Ignore,
            Some(source) => {
                let destination = item_at(inventory, request.dst_bag, request.dst_slot);
                if request.moves_equipped_bag_into_itself() {
                    InventoryMoveCheck::Fail(InventoryMoveFailure {
                        error: EQUIP_ERR_NONEMPTY_BAG_OVER_OTHER_BAG,
                        item: Some(source.item),
                        other_item: match destination {
                            Some(d) => Some(d.item),
                            None => None,
                        },
                        required_level: None,
                    })
                } else {
                    InventoryMoveCheck::Proceed { source, destination }
                }
            },
        }
    }
}

/// The checks before anything is looked up: both positions are supported
/// and exist (an unpurchased bank bag slot, or a bank position, explains a
/// missing one), the move goes somewhere, there is an item to move, and an
/// equipped bag does not go into itself.
pub fn check_inventory_move(
    request: &InventoryMoveRequest,
    inventory: &[CharacterInventoryItem],
    equipped_bags: &[EquippedBagInfo],
    bank_bags: &[EquippedBagInfo],
    bank_bag_slot_count: u8,
) -> (check: InventoryMoveCheck)
    ensures
        check == move_check_spec(*request, inventory@, equipped_bags@, bank_bags@, bank_bag_slot_count),
{
    if !request.is_supported_inventory_move() {
        return InventoryMoveCheck::Ignore;
    }
    if !request.uses_existing_storage(equipped_bags, bank_bags, bank_bag_slot_count) {
        let error = if request.references_unpurchased_bank_bag_slot(bank_bag_slot_count) {
            EQUIP_ERR_MUST_PURCHASE_THAT_BAG_SLOT
        } else if request.references_bank_storage() {
            EQUIP_ERR_TOO_FAR_AWAY_FROM_BANK
        } else {
            EQUIP_ERR_ITEM_DOESNT_GO_TO_SLOT
        };
        return InventoryMoveCheck::Fail(InventoryMoveFailure { error, item: None, other_item: None, required_level: None });
    }
    if request.src_bag == request.dst_bag && request.src_slot == request.dst_slot {
        return InventoryMoveCheck::Ignore;
    }
    let source = match find_item_at(inventory, request.src_bag, request.src_slot) {
        None => return InventoryMoveCheck::Ignore,
        Some(s) => s,
    };
    let destination = find_item_at(inventory, request.dst_bag, request.dst_slot);
    if request.moves_equipped_bag_into_itself() {
        return InventoryMoveCheck::Fail(InventoryMoveFailure {
            error: EQUIP_ERR_NONEMPTY_BAG_OVER_OTHER_BAG,
            item: Some(source.item),
            other_item: match destination {
                Some(d) => Some(d.item),
                None => None,
            },
            required_level: None,
        });
    }
    InventoryMoveCheck::Proceed { source, destination }
}

/// A move into an equipment or bag slot of the character needs the moved
/// item's template.
pub fn move_needs_item_template(request: &InventoryMoveRequest) -> (needs: bool)
    ensures
        needs == (request.dst_bag == INVENTORY_SLOT_BAG_0 && (request.dst_slot < EQUIPMENT_SLOT_END || is_bag_slot(
            request.dst_slot,
        ))),
{
    request.dst_bag == INVENTORY_SLOT_BAG_0 && (request.dst_slot < EQUIPMENT_SLOT_END || is_bag_slot(request.dst_slot))
}

/// Whether some item sits inside the bag in `bag_slot`.
pub open spec fn bag_has_contents(inventory: Seq<CharacterInventoryItem>, bag_slot: u8) -> bool {
    exists|i: int| 0 <= i < inventory.len() && #[trigger] inventory[i].bag == bag_slot as u32
}

fn bag_contents_exist(inventory: &[CharacterInventoryItem], bag_slot: u8) -> (found: bool)
    ensures
        found == bag_has_contents(inventory@, bag_slot),
{
    let mut i: usize = 0;
    while i < inventory.len()
        invariant
            i <= inventory.len(),
            forall|j: int| 0 <= j < i ==> #[trigger] inventory@[j].bag != bag_slot as u32,
        decreases inventory.len() - i,
    {
        if inventory[i].bag == bag_slot as u32 {
            assert(inventory@[i as int].bag == bag_slot as u32);
            return true;
        }
        i += 1;
    }
    false
}

pub open spec fn destination_check_spec(
    request: InventoryMoveRequest,
    source: CharacterInventoryItem,
    destination: Option<CharacterInventoryItem>,
    template: Option<ItemTemplateQuery>,
    inventory: Seq<CharacterInventoryItem>,
    character: ActiveCharacter,
    skills: Seq<CharacterSkill>,
    active_spells: Seq<u32>,
    reputations: Seq<CharacterReputation>,
) -> InventoryMoveCheck {
    let into_equipment = request.dst_bag == INVENTORY_SLOT_BAG_0 && (request.dst_slot < EQUIPMENT_SLOT_END || is_bag_slot(
        request.dst_slot,
    ));
    let other = match destination {
        Some(d) => Some(d.item),
        None => None,
    };
    let bag_emptied = request.src_bag == INVENTORY_SLOT_BAG_0 && is_bag_slot(request.src_slot) && !is_bag_slot(
        request.dst_slot,
    ) && bag_has_contents(inventory, request.src_slot);
    if into_equipment && template is None {
        InventoryMoveCheck::Ignore
    } else if into_equipment && !(if request.dst_slot < EQUIPMENT_SLOT_END {
        item_fits_equipment_slot(template->0.inventory_type, request.dst_slot)
    } else {
        template->0.container_slots > 0
    }) {
        InventoryMoveCheck::Fail(InventoryMoveFailure {
            error: EQUIP_ERR_ITEM_DOESNT_GO_TO_SLOT,
            item: Some(source.item),
            other_item: None,
            required_level: None,
        })
    } else if into_equipment && request.dst_slot < EQUIPMENT_SLOT_END && can_equip_spec(
        character.level,
        character.race,
        character.class,
        template->0,
        skills,
        active_spells,
        reputations,
    ) != 0 {
        let error = can_equip_spec(
            character.level,
            character.race,
            character.class,
            template->0,
            skills,
            active_spells,
            reputations,
        );
        InventoryMoveCheck::Fail(InventoryMoveFailure {
            error,
            item: Some(source.item),
            other_item: None,
            required_level: if error == EQUIP_ERR_CANT_EQUIP_LEVEL_I { Some(template->0.required_level) } else { None },
        })
    } else if bag_emptied {
        InventoryMoveCheck::Fail(InventoryMoveFailure {
            error: EQUIP_ERR_CAN_ONLY_DO_WITH_EMPTY_BAGS,
            item: Some(source.item),
            other_item: other,
            required_level: None,
        })
    } else {
        InventoryMoveCheck::Proceed { source, destination }
    }
}

/// The checks once the moved item's template is known (`template` is
/// `None` when it could not be found; it is only read for equipment and
/// bag slots): the item must fit the slot, the character must be able to
/// equip it, and an equipped bag leaving the bag slots must be empty.
pub fn check_inventory_move_destination(
    request: &InventoryMoveRequest,
    source: CharacterInventoryItem,
    destination: Option<CharacterInventoryItem>,
    template: Option<&ItemTemplateQuery>,
    inventory: &[CharacterInventoryItem],
    character: &ActiveCharacter,
    skills: &[CharacterSkill],
    active_spells: &[u32],
    reputations: &[CharacterReputation],
) -> (check: InventoryMoveCheck)
    ensures
        check == destination_check_spec(
            *request,
            source,
            destination,
            match template {
                Some(t) => Some(*t),
                None => None,
            },
            inventory@,
            *character,
            skills@,
            active_spells@,
            reputations@,
        ),
{
    if move_needs_item_template(request) {
        let t = match template {
            None => return InventoryMoveCheck::Ignore,
            Some(t) => t,
        };
        let fits = if request.dst_slot < EQUIPMENT_SLOT_END {
            item_fits_equipment_slot(t.inventory_type, request.dst_slot)
        } else {
            t.container_slots > 0
        };
        if !fits {
            return InventoryMoveCheck::Fail(InventoryMoveFailure {
                error: EQUIP_ERR_ITEM_DOESNT_GO_TO_SLOT,
                item: Some(source.item),
                other_item: None,
                required_level: None,
            });
        }
        if request.dst_slot < EQUIPMENT_SLOT_END {
            let error = character_can_equip_item_template(
                character.level,
                character.race,
                character.class,
                t,
                skills,
                active_spells,
                reputations,
            );
            if error != 0 {
                return InventoryMoveCheck::Fail(InventoryMoveFailure {
                    error,
                    item: Some(source.item),
                    other_item: None,
                    required_level: if error == EQUIP_ERR_CANT_EQUIP_LEVEL_I { Some(t.required_level) } else { None },
                });
            }
        }
    }
    if request.src_bag == INVENTORY_SLOT_BAG_0 && is_bag_slot(request.src_slot) && !is_bag_slot(request.dst_slot)
        && bag_contents_exist(inventory, request.src_slot) {
        return InventoryMoveCheck::Fail(InventoryMoveFailure {
            error: EQUIP_ERR_CAN_ONLY_DO_WITH_EMPTY_BAGS,
            item: Some(source.item),
            other_item: match destination {
                Some(d) => Some(d.item),
                None => None,
            },
            required_level: None,
        });
    }
    InventoryMoveCheck::Proceed { source, destination }
}

/// Stacks merge only onto another instance of the same item: then the
/// store needs the item's stack size.
pub fn move_merges_stacks(source: &CharacterInventoryItem, destination: Option<CharacterInventoryItem>) -> (merges: bool)
    ensures
        merges == (destination matches Some(d) && d.item_template == source.item_template && d.item != source.item),
{
    match destination {
        Some(d) => d.item_template == source.item_template && d.item != source.item,
        None => false,
    }
}

// ---------------------------------------------------------------------------
// Ammunition

pub const EQUIP_ERR_YOU_ARE_DEAD: u8 = 38;

/// The first stack of template `item_template` that holds any items.
pub open spec fn first_held_stack(inventory: Seq<CharacterInventoryItem>, item_template: u32) -> Option<CharacterInventoryItem>
    decreases inventory.len(),
{
    if inventory.len() == 0 {
        None
    } else if inventory[0].item_template == item_template && inventory[0].count > 0 {
        Some(inventory[0])
    } else {
        first_held_stack(inventory.skip(1), item_template)
    }
}

fn find_held_stack(inventory: &[CharacterInventoryItem], item_template: u32) -> (stack: Option<CharacterInventoryItem>)
    ensures
        stack == first_held_stack(inventory@, item_template),
{
    assert(inventory@.skip(0) =~= inventory@);
    let mut i: usize = 0;
    while i < inventory.len()
        invariant
            i <= inventory@.len(),
            first_held_stack(inventory@, item_template) == first_held_stack(inventory@.skip(i as int), item_template),
        decreases inventory@.len() - i,
    {
        assert(inventory@.skip(i as int)[0] == inventory@[i as int]);
        assert(inventory@.skip(i as int).skip(1) =~= inventory@.skip(i + 1));
        if inventory[i].item_template == item_template && inventory[i].count > 0 {
            return Some(inventory[i]);
        }
        i += 1;
    }
    None
}

pub open spec fn plain_failure(error: u8, item: Option<u32>) -> InventoryMoveFailure {
    InventoryMoveFailure { error, item, other_item: None, required_level: None }
}

pub open spec fn ammo_selection_spec(
    alive: bool,
    item: u32,
    template: Option<ItemTemplateQuery>,
    inventory: Seq<CharacterInventoryItem>,
    character: ActiveCharacter,
    skills: Seq<CharacterSkill>,
    active_spells: Seq<u32>,
    reputations: Seq<CharacterReputation>,
) -> Result<u32, InventoryMoveFailure> {
    if !alive {
        Err(plain_failure(EQUIP_ERR_YOU_ARE_DEAD, None))
    } else if item == 0 {
        Ok(0)
    } else {
        match template {
            None => Err(plain_failure(EQUIP_ERR_ITEM_NOT_FOUND, None)),
            Some(t) => match first_held_stack(inventory, item) {
                None => Err(plain_failure(EQUIP_ERR_ITEM_NOT_FOUND, None)),
                Some(source) => if !is_selectable_ammo_template(&t) {
                    Err(plain_failure(EQUIP_ERR_ITEM_CANT_BE_EQUIPPED, Some(source.item)))
                } else {
                    let error = can_use_item_spec(character.level, character.race, character.class, t, skills, active_spells, reputations);
                    if error != 0 {
                        Err(InventoryMoveFailure {
                            error,
                            item: Some(source.item),
                            other_item: None,
                            required_level: if error == EQUIP_ERR_CANT_EQUIP_LEVEL_I { Some(t.required_level) } else { None },
                        })
                    } else {
                        Ok(t.entry)
                    }
                },
            },
        }
    }
}

/// The ammunition a character selects by template `item` (0 clears the
/// selection), or the error it is refused with: the character must be
/// alive, the template known and held, an arrow or bullet, and usable by
/// the character. `template` is the template of `item` when it is known.
pub fn check_ammo_selection(
    alive: bool,
    item: u32,
    template: Option<&ItemTemplateQuery>,
    inventory: &[CharacterInventoryItem],
    character: &ActiveCharacter,
    skills: &[CharacterSkill],
    active_spells: &[u32],
    reputations: &[CharacterReputation],
) -> (selection: Result<u32, InventoryMoveFailure>)
    ensures
        selection == ammo_selection_spec(
            alive,
            item,
            match template {
                Some(t) => Some(*t),
                None => None,
            },
            inventory@,
            *character,
            skills@,
            active_spells@,
            reputations@,
        ),
{
    if !alive {
        return Err(InventoryMoveFailure { error: EQUIP_ERR_YOU_ARE_DEAD, item: None, other_item: None, required_level: None });
    }
    if item == 0 {
        return Ok(0);
    }
    let t = match template {
        None => return Err(InventoryMoveFailure { error: EQUIP_ERR_ITEM_NOT_FOUND, item: None, other_item: None, required_level: None }),
        Some(t) => t,
    };
    let source = match find_held_stack(inventory, item) {
        None => return Err(InventoryMoveFailure { error: EQUIP_ERR_ITEM_NOT_FOUND, item: None, other_item: None, required_level: None }),
        Some(s) => s,
    };
    if !is_selectable_ammo_template(t) {
        return Err(InventoryMoveFailure {
            error: EQUIP_ERR_ITEM_CANT_BE_EQUIPPED,
            item: Some(source.item),
            other_item: None,
            required_level: None,
        });
    }
    let error = character_can_use_item_template(
        character.level,
        character.race,
        character.class,
        t,
        skills,
        active_spells,
        reputations,
    );
    if error != 0 {
        return Err(InventoryMoveFailure {
            error,
            item: Some(source.item),
            other_item: None,
            required_level: if error == EQUIP_ERR_CANT_EQUIP_LEVEL_I { Some(t.required_level) } else { None },
        });
    }
    Ok(t.entry)
}

// ---------------------------------------------------------------------------
// Automatic moves

pub open spec fn auto_equip_slot_spec(template: ItemTemplateQuery, inventory: Seq<CharacterInventoryItem>) -> Option<u8> {
    if template.inventory_type == INVTYPE_BAG && template.container_slots > 0 {
        first_free_bag_slot(inventory, INVENTORY_SLOT_BAG_START as int)
    } else {
        preferred_equipment_slot(template.inventory_type)
    }
}

impl InventoryMoveRequest {
    /// The move an auto-equip of the item at `(src_bag, src_slot)` (in the
    /// client's numbering) makes: into its equipment slot, or the first
    /// free bag slot for a bag. `template` is the template of that item
    /// when it is known; none when there is no item, no template or no
    /// slot.
    pub fn read_auto_equip(
        src_bag: u8,
        src_slot: u8,
        template: Option<&ItemTemplateQuery>,
        inventory: &[CharacterInventoryItem],
    ) -> (request: Option<InventoryMoveRequest>)
        ensures
            request == match (item_at(inventory@, normalize_client_bag(src_bag), src_slot), template) {
                (Some(_), Some(t)) => match auto_equip_slot_spec(*t, inventory@) {
                    Some(dst_slot) => Some(
                        InventoryMoveRequest {
                            src_bag: normalize_client_bag(src_bag),
                            src_slot,
                            dst_bag: INVENTORY_SLOT_BAG_0,
                            dst_slot,
                        },
                    ),
                    None => None,
                },
                _ => None,
            },
    {
        let bag = normalize_client_bag(src_bag);
        if find_item_at(inventory, bag, src_slot).is_none() {
            return None;
        }
        let t = match template {
            None => return None,
            Some(t) => t,
        };
        match preferred_equipment_slot_for_inventory(t, inventory) {
            Some(dst_slot) => Some(InventoryMoveRequest { src_bag: bag, src_slot, dst_bag: INVENTORY_SLOT_BAG_0, dst_slot }),
            None => None,
        }
    }

    /// The move an auto-store of the item at `(src_bag, src_slot)` into bag
    /// `dst_bag` (both in the client's numbering) makes: to the one place
    /// in that bag that takes the whole stack. `template` is the template
    /// of that item when it is known.
    pub fn read_auto_store_bag(
        src_bag: u8,
        src_slot: u8,
        dst_bag: u8,
        template: Option<&ItemTemplateQuery>,
        inventory: &[CharacterInventoryItem],
        equipped_bags: &[EquippedBagInfo],
    ) -> (request: Option<InventoryMoveRequest>)
        ensures
            request == match (item_at(inventory@, normalize_client_bag(src_bag), src_slot), template) {
                (Some(source), Some(t)) => match plan_spec(
                    inventory@,
                    *t,
                    source.count,
                    equipped_bags@,
                    Some(normalize_client_bag(dst_bag)),
                    Some(source.item),
                    None,
                ) {
                    Some(p) => if p.len() == 1 {
                        Some(
                            InventoryMoveRequest {
                                src_bag: normalize_client_bag(src_bag),
                                src_slot,
                                dst_bag: p[0].bag,
                                dst_slot: p[0].slot,
                            },
                        )
                    } else {
                        None
                    },
                    None => None,
                },
                _ => None,
            },
    {
        let bag = normalize_client_bag(src_bag);
        let target_bag = normalize_client_bag(dst_bag);
        let source = match find_item_at(inventory, bag, src_slot) {
            None => return None,
            Some(s) => s,
        };
        let t = match template {
            None => return None,
            Some(t) => t,
        };
        match first_autostore_destination(inventory, &source, t, equipped_bags, target_bag) {
            Some((b, sl)) => Some(InventoryMoveRequest { src_bag: bag, src_slot, dst_bag: b, dst_slot: sl }),
            None => None,
        }
    }
}

/// The error an auto-equip that found no move answers, when the source
/// item exists: the item cannot be equipped, or its template is unknown;
/// with the item's instance id.
pub fn auto_equip_failure(
    src_bag: u8,
    src_slot: u8,
    template_known: bool,
    inventory: &[CharacterInventoryItem],
) -> (failure: Option<InventoryMoveFailure>)
    ensures
        failure == match item_at(inventory@, normalize_client_bag(src_bag), src_slot) {
            None => None,
            Some(source) => Some(
                plain_failure(
                    if template_known { EQUIP_ERR_ITEM_CANT_BE_EQUIPPED } else { EQUIP_ERR_ITEM_NOT_FOUND },
                    Some(source.item),
                ),
            ),
        },
{
    let source = match find_item_at(inventory, normalize_client_bag(src_bag), src_slot) {
        None => return None,
        Some(s) => s,
    };
    let error = if template_known { EQUIP_ERR_ITEM_CANT_BE_EQUIPPED } else { EQUIP_ERR_ITEM_NOT_FOUND };
    Some(InventoryMoveFailure { error, item: Some(source.item), other_item: None, required_level: None })
}

// ---------------------------------------------------------------------------
// Destroying items

pub const ITEM_FLAG_NO_USER_DESTROY: u32 = 0x0000_0020;
pub const EQUIP_ERR_CANT_DROP_SOULBOUND: u8 = 24;

/// How a request to destroy items fares before the store removes them.
#[derive(Clone, Copy, Debug, PartialEq, Eq, Structural)]
pub enum DestroyItemCheck {
    /// Dropped without an answer.
    Ignore,
    /// Refused with an inventory error.
    Fail(u8),
    /// Goes on with the stack at the position.
    Proceed(CharacterInventoryItem),
}

pub open spec fn destroy_check_spec(
    request: DestroyItemRequest,
    inventory: Seq<CharacterInventoryItem>,
    template: Option<ItemTemplateQuery>,
) -> DestroyItemCheck {
    if !request.is_supported_destroy() {
        DestroyItemCheck::Ignore
    } else {
        match item_at(inventory, request.bag, request.slot) {
            None => DestroyItemCheck::Ignore,
            Some(source) => match template {
                None => DestroyItemCheck::Ignore,
                Some(t) => if t.flags & ITEM_FLAG_NO_USER_DESTROY != 0 {
                    DestroyItemCheck::Fail(EQUIP_ERR_CANT_DROP_SOULBOUND)
                } else {
                    DestroyItemCheck::Proceed(source)
                },
            },
        }
    }
}

/// Whether items may be destroyed: the position must be supported and
/// hold an item whose template (`template`, when known) allows players to
/// destroy it.
pub fn check_destroy_item(
    request: &DestroyItemRequest,
    inventory: &[CharacterInventoryItem],
    template: Option<&ItemTemplateQuery>,
) -> (check: DestroyItemCheck)
    ensures
        check == destroy_check_spec(
            *request,
            inventory@,
            match template {
                Some(t) => Some(*t),
                None => None,
            },
        ),
{
    if !request.is_supported_destroy() {
        return DestroyItemCheck::Ignore;
    }
    let source = match find_item_at(inventory, request.bag, request.slot) {
        None => return DestroyItemCheck::Ignore,
        Some(s) => s,
    };
    match template {
        None => DestroyItemCheck::Ignore,
        Some(t) => if t.flags & ITEM_FLAG_NO_USER_DESTROY != 0 {
            DestroyItemCheck::Fail(EQUIP_ERR_CANT_DROP_SOULBOUND)
        } else {
            DestroyItemCheck::Proceed(source)
        },
    }
}

} // verus!
