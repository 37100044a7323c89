use wow_network::guid::ObjectGuid;
use wow_network::inventory::{CharacterInventoryItem, StoreSlot};
use wow_network::loot::{
    clamp_loot_count, creature_loot_take_decision, loot_store_writes, pick_equal_chance_row, roll_loot_count,
    valid_master_loot_assignment, CreatureLootItem, CreatureLootMethod,
    CreatureLootTake, CreatureRuntime, LootStoreWrite, LOOT_METHOD_GROUP_LOOT, LOOT_METHOD_MASTER_LOOT,
};

fn creature(method: Option<u8>, released: Vec<u8>) -> CreatureRuntime {
    CreatureRuntime {
        npc_flags: 0,
        faction: 0,
        loot_method: method.map(|method| CreatureLootMethod { method, threshold: 2, master_looter: 9 }),
        loot_current_looter: Some(4),
        loot_current_looter_pass_slots: vec![],
        loot_roll_released_slots: released,
        loot_allowed_players: vec![4, 9, 11],
    }
}

fn loot(slot: u8, quality: u8) -> CreatureLootItem {
    CreatureLootItem { slot, item: 100, count: 1, quality, quest_drop: false, free_for_all: false }
}

#[test]
fn group_loot_holds_good_items_for_a_roll() {
    let group = creature(Some(LOOT_METHOD_GROUP_LOOT), vec![]);
    assert_eq!(creature_loot_take_decision(4, &group, &loot(1, 1), 1), CreatureLootTake::Store);
    assert_eq!(creature_loot_take_decision(6, &group, &loot(1, 1), 1), CreatureLootTake::Refuse);
    assert_eq!(creature_loot_take_decision(4, &group, &loot(1, 3), 1), CreatureLootTake::Refuse);
    let released = creature(Some(LOOT_METHOD_GROUP_LOOT), vec![1]);
    assert_eq!(creature_loot_take_decision(6, &released, &loot(1, 3), 1), CreatureLootTake::Store);
}

#[test]
fn master_loot_keeps_good_items_for_the_master() {
    let master = creature(Some(LOOT_METHOD_MASTER_LOOT), vec![1]);
    assert_eq!(creature_loot_take_decision(4, &master, &loot(1, 1), 1), CreatureLootTake::Store);
    assert_eq!(creature_loot_take_decision(4, &master, &loot(1, 3), 1), CreatureLootTake::Refuse);
    assert_eq!(creature_loot_take_decision(4, &creature(None, vec![]), &loot(1, 3), 1), CreatureLootTake::Store);
}

#[test]
fn master_assignments_go_to_allowed_players() {
    let master = creature(Some(LOOT_METHOD_MASTER_LOOT), vec![]);
    let corpse = ObjectGuid::from_raw(0xF130_0000_0100_0005);
    let target = ObjectGuid::from_raw(11);
    assert!(valid_master_loot_assignment(9, corpse, corpse.raw, &master, &loot(1, 3), target));
    assert!(!valid_master_loot_assignment(4, corpse, corpse.raw, &master, &loot(1, 3), target));
    assert!(!valid_master_loot_assignment(9, corpse, corpse.raw, &master, &loot(1, 1), target));
    assert!(!valid_master_loot_assignment(9, corpse, corpse.raw + 1, &master, &loot(1, 3), target));
    assert!(!valid_master_loot_assignment(9, corpse, corpse.raw, &master, &loot(1, 3), ObjectGuid::from_raw(12)));
    assert!(!valid_master_loot_assignment(9, corpse, corpse.raw, &master, &loot(1, 3), corpse));
    let group = creature(Some(LOOT_METHOD_GROUP_LOOT), vec![]);
    assert!(!valid_master_loot_assignment(9, corpse, corpse.raw, &group, &loot(1, 3), target));
}

#[test]
fn store_writes_raise_stacks_and_add_new_ones() {
    let inventory = vec![CharacterInventoryItem { bag: 0, slot: 23, item: 7, item_template: 100, count: 4, random_property_id: 0, durability: 0 }];
    let plan = vec![
        StoreSlot { bag: 0, slot: 23, count: 6, existing_item: Some(7) },
        StoreSlot { bag: 0, slot: 24, count: 2, existing_item: None },
        StoreSlot { bag: 0, slot: 25, count: 2, existing_item: Some(99) },
    ];
    assert_eq!(
        loot_store_writes(&inventory, &plan),
        vec![
            LootStoreWrite::SetCount { item: 7, count: 10 },
            LootStoreWrite::Add { bag: 0, slot: 24, count: 2 },
            LootStoreWrite::SetCount { item: 99, count: 2 },
        ]
    );
    let full = vec![CharacterInventoryItem { count: u32::MAX - 1, ..inventory[0] }];
    assert_eq!(loot_store_writes(&full, &plan[..1]), vec![LootStoreWrite::SetCount { item: 7, count: u32::MAX }]);
}

#[test]
fn drop_counts_stay_between_the_fewest_and_most() {
    assert_eq!(clamp_loot_count(0, 0, 0), 1);
    assert_eq!(clamp_loot_count(2, 5, 9), 5);
    assert_eq!(clamp_loot_count(2, 5, 3), 3);
    assert_eq!(clamp_loot_count(4, 1, 0), 4);
    for _ in 0..200 {
        let count = roll_loot_count(2, 5);
        assert!((2..=5).contains(&count));
        assert_eq!(roll_loot_count(3, 0), 3);
        assert!(pick_equal_chance_row(4) < 4);
        assert_eq!(pick_equal_chance_row(1), 0);
    }
}
