use wow_network::character::{is_alliance_race, quest_race_or_class_mask, reputation_rank_from_standing, CharacterReputation};
use wow_network::equipment::{item_fits_equipment_slot, preferred_equipment_slot};
use wow_network::reputation::{
    apply_reputation_gain_bonus, build_set_faction_visible_body, reputation_faction_name, reputation_gain_system_message,
    CharacterReputationChange,
};

#[test]
fn ranks_follow_standing_thresholds() {
    assert_eq!(reputation_rank_from_standing(-42_000), 0);
    assert_eq!(reputation_rank_from_standing(-6_000), 1);
    assert_eq!(reputation_rank_from_standing(-1), 2);
    assert_eq!(reputation_rank_from_standing(0), 3);
    assert_eq!(reputation_rank_from_standing(3_000), 4);
    assert_eq!(reputation_rank_from_standing(42_000), 7);
    let mut last = 0;
    for standing in (-50_000..50_000).step_by(97) {
        let rank = reputation_rank_from_standing(standing);
        assert!(rank >= last);
        last = rank;
    }
}

#[test]
fn masks_and_sides() {
    assert_eq!(quest_race_or_class_mask(0), 0);
    assert_eq!(quest_race_or_class_mask(1), 1);
    assert_eq!(quest_race_or_class_mask(4), 8);
    assert!(is_alliance_race(7));
    assert!(!is_alliance_race(8));
}

#[test]
fn preferred_slots_fit() {
    for inventory_type in 0..30 {
        if let Some(slot) = preferred_equipment_slot(inventory_type) {
            assert!(item_fits_equipment_slot(inventory_type, slot));
        }
    }
    assert_eq!(preferred_equipment_slot(20), Some(4));
    assert_eq!(preferred_equipment_slot(24), None);
}

#[test]
fn reputation_bonus_scales_toward_zero() {
    assert_eq!(apply_reputation_gain_bonus(250, 0), 250);
    assert_eq!(apply_reputation_gain_bonus(250, 10), 275);
    assert_eq!(apply_reputation_gain_bonus(-25, 10), -27);
    assert_eq!(apply_reputation_gain_bonus(25, -100), 0);
    assert_eq!(apply_reputation_gain_bonus(i32::MAX, 100), i32::MAX);
    assert_eq!(apply_reputation_gain_bonus(i32::MIN, 100), i32::MIN);
}

#[test]
fn reputation_messages_name_the_faction() {
    let change = |faction: u32, delta: i32| CharacterReputationChange {
        reputation: CharacterReputation { faction, standing: 0 },
        delta,
    };
    assert_eq!(reputation_faction_name(72), Some("Stormwind"));
    assert_eq!(
        reputation_gain_system_message(&change(72, 25)).as_deref(),
        Some("Reputation with Stormwind increased by 25.")
    );
    assert_eq!(
        reputation_gain_system_message(&change(72, -1000)).as_deref(),
        Some("Reputation with Stormwind decreased by 1000.")
    );
    assert_eq!(reputation_gain_system_message(&change(72, 0)), None);
    assert_eq!(reputation_gain_system_message(&change(1, 5)), None);
    assert!(build_set_faction_visible_body(1).is_none());
}
