//! Equipment slots and the checks that decide whether a character may use or
//! equip an item.
use vstd::prelude::*;
use crate::character::{
    CharacterReputation, CharacterSkill, first_skill_value, first_standing, find_skill_value, find_standing,
    quest_race_or_class_mask, reputation_rank_from_standing,
};
use crate::inventory::{
    CharacterInventoryItem, ItemTemplateQuery, INVENTORY_SLOT_BAG_0, INVENTORY_SLOT_BAG_START, INVENTORY_SLOT_BAG_END,
    INVTYPE_AMMO, INVTYPE_BAG, ITEM_CLASS_ARMOR, ITEM_CLASS_PROJECTILE, ITEM_CLASS_WEAPON, ITEM_SUBCLASS_ARROW,
    ITEM_SUBCLASS_BULLET,
};

verus! {

pub const EQUIP_ERR_OK: u8 = 0;
pub const EQUIP_ERR_CANT_EQUIP_LEVEL_I: u8 = 1;
pub const EQUIP_ERR_CANT_EQUIP_SKILL: u8 = 2;
pub const EQUIP_ERR_NO_REQUIRED_PROFICIENCY: u8 = 8;
pub const EQUIP_ERR_YOU_CAN_NEVER_USE_THAT_ITEM: u8 = 10;
pub const EQUIP_ERR_ITEM_DOESNT_GO_TO_SLOT: u8 = 3;
pub const EQUIP_ERR_NONEMPTY_BAG_OVER_OTHER_BAG: u8 = 5;
pub const EQUIP_ERR_ITEM_CANT_BE_EQUIPPED: u8 = 20;
pub const EQUIP_ERR_CAN_ONLY_DO_WITH_EMPTY_BAGS: u8 = 31;
pub const EQUIP_ERR_MUST_PURCHASE_THAT_BAG_SLOT: u8 = 34;
pub const EQUIP_ERR_TOO_FAR_AWAY_FROM_BANK: u8 = 35;
pub const EQUIP_ERR_INVENTORY_FULL: u8 = 50;
pub const EQUIP_ERR_ITEM_NOT_FOUND: u8 = 23;
pub const EQUIP_ERR_CANT_EQUIP_RANK: u8 = 63;
pub const EQUIP_ERR_CANT_EQUIP_REPUTATION: u8 = 64;

/// The equipment slot an inventory type goes to by default.
#[verifier::allow_in_spec]
pub fn preferred_equipment_slot(inventory_type: u32) -> Option<u8>
    returns
        (match inventory_type {
            1 => Some(0u8),
            2 => Some(1u8),
            3 => Some(2u8),
            4 => Some(3u8),
            5 | 20 => Some(4u8),
            6 => Some(5u8),
            7 => Some(6u8),
            8 => Some(7u8),
            9 => Some(8u8),
            10 => Some(9u8),
            11 => Some(10u8),
            12 => Some(12u8),
            13 | 17 | 21 => Some(15u8),
            14 | 22 | 23 => Some(16u8),
            15 | 25 | 26 => Some(17u8),
            18 => Some(19u8),
            16 => Some(14u8),
            19 => Some(18u8),
            _ => None,
        }),
{
    match inventory_type {
        1 => Some(0),
        2 => Some(1),
        3 => Some(2),
        4 => Some(3),
        5 | 20 => Some(4),
        6 => Some(5),
        7 => Some(6),
        8 => Some(7),
        9 => Some(8),
        10 => Some(9),
        11 => Some(10),
        12 => Some(12),
        13 | 17 | 21 => Some(15),
        14 | 22 | 23 => Some(16),
        15 | 25 | 26 => Some(17),
        18 => Some(19),
        16 => Some(14),
        19 => Some(18),
        _ => None,
    }
}

/// Whether an item of `inventory_type` may sit in equipment or bag slot `slot`.
#[verifier::allow_in_spec]
pub fn item_fits_equipment_slot(inventory_type: u32, slot: u8) -> bool
    returns
        (match slot {
            0 => inventory_type == 1,
            1 => inventory_type == 2,
            2 => inventory_type == 3,
            3 => inventory_type == 4,
            4 => inventory_type == 5 || inventory_type == 20,
            5 => inventory_type == 6,
            6 => inventory_type == 7,
            7 => inventory_type == 8,
            8 => inventory_type == 9,
            9 => inventory_type == 10,
            10 | 11 => inventory_type == 11,
            12 | 13 => inventory_type == 12,
            14 => inventory_type == 16,
            15 => inventory_type == 13 || inventory_type == 17 || inventory_type == 21,
            16 => inventory_type == 14 || inventory_type == 22 || inventory_type == 23,
            17 => inventory_type == 15 || inventory_type == 25 || inventory_type == 26,
            18 => inventory_type == 19,
            19 | 20 | 21 | 22 => inventory_type == INVTYPE_BAG,
            _ => false,
        }),
{
    match slot {
        0 => inventory_type == 1,
        1 => inventory_type == 2,
        2 => inventory_type == 3,
        3 => inventory_type == 4,
        4 => inventory_type == 5 || inventory_type == 20,
        5 => inventory_type == 6,
        6 => inventory_type == 7,
        7 => inventory_type == 8,
        8 => inventory_type == 9,
        9 => inventory_type == 10,
        10 | 11 => inventory_type == 11,
        12 | 13 => inventory_type == 12,
        14 => inventory_type == 16,
        15 => inventory_type == 13 || inventory_type == 17 || inventory_type == 21,
        16 => inventory_type == 14 || inventory_type == 22 || inventory_type == 23,
        17 => inventory_type == 15 || inventory_type == 25 || inventory_type == 26,
        18 => inventory_type == 19,
        19 | 20 | 21 | 22 => inventory_type == INVTYPE_BAG,
        _ => false,
    }
}

/// The first bag slot `INVENTORY_SLOT_BAG_START..END` no item occupies.
pub open spec fn first_free_bag_slot(inventory: Seq<CharacterInventoryItem>, from: int) -> Option<u8>
    decreases INVENTORY_SLOT_BAG_END - from,
{
    if from >= INVENTORY_SLOT_BAG_END {
        None
    } else if forall|i: int| 0 <= i < inventory.len() ==> !(#[trigger] inventory[i].bag == INVENTORY_SLOT_BAG_0 as u32
        && inventory[i].slot == from) {
        Some(from as u8)
    } else {
        first_free_bag_slot(inventory, from + 1)
    }
}

fn character_slot_is_free(inventory: &[CharacterInventoryItem], slot: u8) -> (free: bool)
    ensures
        free == forall|i: int| 0 <= i < inventory@.len() ==> !(#[trigger] inventory@[i].bag == INVENTORY_SLOT_BAG_0 as u32
            && inventory@[i].slot == slot),
{
    let mut i: usize = 0;
    while i < inventory.len()
        invariant
            i <= inventory.len(),
            forall|j: int| 0 <= j < i ==> !(#[trigger] inventory@[j].bag == INVENTORY_SLOT_BAG_0 as u32
                && inventory@[j].slot == slot),
        decreases inventory.len() - i,
    {
        if inventory[i].bag == INVENTORY_SLOT_BAG_0 as u32 && inventory[i].slot == slot {
            return false;
        }
        i += 1;
    }
    true
}

/// Where auto-equip puts an item: the first free bag slot for a bag,
/// otherwise the inventory type's default slot.
pub fn preferred_equipment_slot_for_inventory(
    template: &ItemTemplateQuery,
    inventory: &[CharacterInventoryItem],
) -> (slot: Option<u8>)
    ensures
        slot == if template.inventory_type == INVTYPE_BAG && template.container_slots > 0 {
            first_free_bag_slot(inventory@, INVENTORY_SLOT_BAG_START as int)
        } else {
            preferred_equipment_slot(template.inventory_type)
        },
{
    if template.inventory_type == INVTYPE_BAG && template.container_slots > 0 {
        let mut slot = INVENTORY_SLOT_BAG_START;
        while slot < INVENTORY_SLOT_BAG_END
            invariant
                INVENTORY_SLOT_BAG_START <= slot <= INVENTORY_SLOT_BAG_END,
                template.inventory_type == INVTYPE_BAG && template.container_slots > 0,
                first_free_bag_slot(inventory@, INVENTORY_SLOT_BAG_START as int) == first_free_bag_slot(inventory@, slot as int),
            decreases INVENTORY_SLOT_BAG_END - slot,
        {
            let free = character_slot_is_free(inventory, slot);
            proof {
                reveal_with_fuel(first_free_bag_slot, 1);
                if free {
                    assert(first_free_bag_slot(inventory@, slot as int) == Some(slot));
                } else {
                    let k = choose|i: int| 0 <= i < inventory@.len() && #[trigger] inventory@[i].bag == INVENTORY_SLOT_BAG_0 as u32
                        && inventory@[i].slot == slot;
                    assert(inventory@[k].slot == slot as int);
                    assert(first_free_bag_slot(inventory@, slot as int) == first_free_bag_slot(inventory@, slot + 1));
                }
            }
            if free {
                return Some(slot);
            }
            slot += 1;
        }
        return None;
    }
    preferred_equipment_slot(template.inventory_type)
}

/// Ammunition a character may select: arrows and bullets.
#[verifier::allow_in_spec]
pub fn is_selectable_ammo_template(template: &ItemTemplateQuery) -> bool
    returns
        template.class == ITEM_CLASS_PROJECTILE && template.inventory_type == INVTYPE_AMMO
            && (template.subclass == ITEM_SUBCLASS_ARROW || template.subclass == ITEM_SUBCLASS_BULLET),
{
    template.class == ITEM_CLASS_PROJECTILE && template.inventory_type == INVTYPE_AMMO
        && (template.subclass == ITEM_SUBCLASS_ARROW || template.subclass == ITEM_SUBCLASS_BULLET)
}

/// The weapon or armor skill an item needs, by class and subclass.
#[verifier::allow_in_spec]
pub fn item_proficiency_skill(template: &ItemTemplateQuery) -> Option<u32>
    returns
        (if template.class == ITEM_CLASS_ARMOR {
            match template.subclass {
                1 => Some(415u32),
                2 => Some(414u32),
                3 => Some(413u32),
                4 => Some(293u32),
                6 => Some(433u32),
                _ => None,
            }
        } else if template.class == ITEM_CLASS_WEAPON {
            match template.subclass {
                0 => Some(44u32),
                1 => Some(172u32),
                2 => Some(45u32),
                3 => Some(46u32),
                4 => Some(54u32),
                5 => Some(160u32),
                6 => Some(229u32),
                7 => Some(43u32),
                8 => Some(55u32),
                10 => Some(136u32),
                13 => Some(473u32),
                15 => Some(173u32),
                16 => Some(176u32),
                17 => Some(253u32),
                18 => Some(226u32),
                19 => Some(228u32),
                20 => Some(356u32),
                _ => None,
            }
        } else {
            None
        }),
{
    if template.class == ITEM_CLASS_ARMOR {
        match template.subclass {
            1 => Some(415),
            2 => Some(414),
            3 => Some(413),
            4 => Some(293),
            6 => Some(433),
            _ => None,
        }
    } else if template.class == ITEM_CLASS_WEAPON {
        match template.subclass {
            0 => Some(44),
            1 => Some(172),
            2 => Some(45),
            3 => Some(46),
            4 => Some(54),
            5 => Some(160),
            6 => Some(229),
            7 => Some(43),
            8 => Some(55),
            10 => Some(136),
            13 => Some(473),
            15 => Some(173),
            16 => Some(176),
            17 => Some(253),
            18 => Some(226),
            19 => Some(228),
            20 => Some(356),
            _ => None,
        }
    } else {
        None
    }
}

/// The error code for using an item, or `EQUIP_ERR_OK`: class and race
/// restrictions, required skill and rank, required spell, honor/city rank,
/// level, and required reputation rank (neutral when unrecorded), in that order.
pub open spec fn can_use_item_spec(
    level: u8,
    race: u8,
    class: u8,
    template: ItemTemplateQuery,
    skills: Seq<CharacterSkill>,
    active_spells: Seq<u32>,
    reputations: Seq<CharacterReputation>,
) -> u8 {
    let class_mask = quest_race_or_class_mask(class);
    let race_mask = quest_race_or_class_mask(race);
    let skill_value: u32 = match first_skill_value(skills, template.required_skill) {
        Some(v) => v as u32,
        None => 0,
    };
    let rank: u32 = match first_standing(reputations, template.required_reputation_faction) {
        Some(s) => reputation_rank_from_standing(s),
        None => 3,
    };
    if template.allowable_class != -1 && (class_mask == 0 || (template.allowable_class as u32 & class_mask) == 0) {
        EQUIP_ERR_YOU_CAN_NEVER_USE_THAT_ITEM
    } else if template.allowable_race != -1 && (race_mask == 0 || (template.allowable_race as u32 & race_mask) == 0) {
        EQUIP_ERR_YOU_CAN_NEVER_USE_THAT_ITEM
    } else if template.required_skill != 0 && skill_value == 0 {
        EQUIP_ERR_NO_REQUIRED_PROFICIENCY
    } else if template.required_skill != 0 && skill_value < template.required_skill_rank {
        EQUIP_ERR_CANT_EQUIP_SKILL
    } else if template.required_spell != 0 && !active_spells.contains(template.required_spell) {
        EQUIP_ERR_NO_REQUIRED_PROFICIENCY
    } else if template.required_honor_rank != 0 || template.required_city_rank != 0 {
        EQUIP_ERR_CANT_EQUIP_RANK
    } else if (level as u32) < template.required_level {
        EQUIP_ERR_CANT_EQUIP_LEVEL_I
    } else if template.required_reputation_faction != 0 && rank < template.required_reputation_rank {
        EQUIP_ERR_CANT_EQUIP_REPUTATION
    } else {
        EQUIP_ERR_OK
    }
}

fn spells_contain(active_spells: &[u32], spell: u32) -> (found: bool)
    ensures
        found == active_spells@.contains(spell),
{
    let mut i: usize = 0;
    while i < active_spells.len()
        invariant
            i <= active_spells.len(),
            forall|j: int| 0 <= j < i ==> active_spells@[j] != spell,
        decreases active_spells.len() - i,
    {
        if active_spells[i] == spell {
            assert(active_spells@[i as int] == spell);
            return true;
        }
        i += 1;
    }
    false
}

/// Whether the character may use an item at all; see `can_use_item_spec`.
pub fn character_can_use_item_template(
    level: u8,
    race: u8,
    class: u8,
    template: &ItemTemplateQuery,
    skills: &[CharacterSkill],
    active_spells: &[u32],
    reputations: &[CharacterReputation],
) -> (result: u8)
    ensures
        result == can_use_item_spec(level, race, class, *template, skills@, active_spells@, reputations@),
{
    if template.allowable_class != -1 {
        let class_mask = quest_race_or_class_mask(class);
        if class_mask == 0 || (template.allowable_class as u32 & class_mask) == 0 {
            return EQUIP_ERR_YOU_CAN_NEVER_USE_THAT_ITEM;
        }
    }
    if template.allowable_race != -1 {
        let race_mask = quest_race_or_class_mask(race);
        if race_mask == 0 || (template.allowable_race as u32 & race_mask) == 0 {
            return EQUIP_ERR_YOU_CAN_NEVER_USE_THAT_ITEM;
        }
    }
    if template.required_skill != 0 {
        let skill_value: u32 = match find_skill_value(skills, template.required_skill) {
            Some(v) => v as u32,
            None => 0,
        };
        if skill_value == 0 {
            return EQUIP_ERR_NO_REQUIRED_PROFICIENCY;
        }
        if skill_value < template.required_skill_rank {
            return EQUIP_ERR_CANT_EQUIP_SKILL;
        }
    }
    if template.required_spell != 0 && !spells_contain(active_spells, template.required_spell) {
        return EQUIP_ERR_NO_REQUIRED_PROFICIENCY;
    }
    if template.required_honor_rank != 0 || template.required_city_rank != 0 {
        return EQUIP_ERR_CANT_EQUIP_RANK;
    }
    if (level as u32) < template.required_level {
        return EQUIP_ERR_CANT_EQUIP_LEVEL_I;
    }
    if template.required_reputation_faction != 0 {
        let rank: u32 = match find_standing(reputations, template.required_reputation_faction) {
            Some(s) => reputation_rank_from_standing(s),
            None => 3,
        };
        if rank < template.required_reputation_rank {
            return EQUIP_ERR_CANT_EQUIP_REPUTATION;
        }
    }
    EQUIP_ERR_OK
}

/// The character knows a skill with this id at a positive value.
pub open spec fn has_positive_skill(skills: Seq<CharacterSkill>, skill: u32) -> bool {
    exists|i: int| 0 <= i < skills.len() && #[trigger] skills[i].skill as u32 == skill && skills[i].value > 0
}

/// The error code for equipping an item, or `EQUIP_ERR_OK`.
pub open spec fn can_equip_spec(
    level: u8,
    race: u8,
    class: u8,
    template: ItemTemplateQuery,
    skills: Seq<CharacterSkill>,
    active_spells: Seq<u32>,
    reputations: Seq<CharacterReputation>,
) -> u8 {
    if template.inventory_type == 0 {
        EQUIP_ERR_ITEM_CANT_BE_EQUIPPED
    } else if can_use_item_spec(level, race, class, template, skills, active_spells, reputations) != 0 {
        can_use_item_spec(level, race, class, template, skills, active_spells, reputations)
    } else if item_proficiency_skill(&template) matches Some(skill) && !has_positive_skill(skills, skill) {
        EQUIP_ERR_NO_REQUIRED_PROFICIENCY
    } else {
        EQUIP_ERR_OK
    }
}

/// Whether the character may equip an item: it must be equippable, usable,
/// and the character must have its proficiency skill.
pub fn character_can_equip_item_template(
    level: u8,
    race: u8,
    class: u8,
    template: &ItemTemplateQuery,
    skills: &[CharacterSkill],
    active_spells: &[u32],
    reputations: &[CharacterReputation],
) -> (result: u8)
    ensures
        result == can_equip_spec(level, race, class, *template, skills@, active_spells@, reputations@),
{
    if template.inventory_type == 0 {
        return EQUIP_ERR_ITEM_CANT_BE_EQUIPPED;
    }
    let use_result = character_can_use_item_template(level, race, class, template, skills, active_spells, reputations);
    if use_result != 0 {
        return use_result;
    }
    if let Some(skill) = item_proficiency_skill(template) {
        let mut i: usize = 0;
        let mut known = false;
        while i < skills.len()
            invariant
                i <= skills.len(),
                known == exists|j: int| 0 <= j < i && #[trigger] skills@[j].skill as u32 == skill && skills@[j].value > 0,
            decreases skills.len() - i,
        {
            if skills[i].skill as u32 == skill && skills[i].value > 0 {
                known = true;
            }
            i += 1;
        }
        if !known {
            return EQUIP_ERR_NO_REQUIRED_PROFICIENCY;
        }
    }
    EQUIP_ERR_OK
}

} // verus!
