use wow_network::loot::{
    can_autostore_shared_creature_loot, creature_loot_money_recipients, creature_loot_money_share,
    db_creature_loot_method_tuple, should_block_master_loot, should_use_group_loot_roll, CreatureLootItem,
    CreatureLootMethod, CreatureRuntime, LootItemReleaseState, LOOT_METHOD_FREE_FOR_ALL, LOOT_METHOD_GROUP_LOOT,
    LOOT_METHOD_MASTER_LOOT, LOOT_METHOD_ROUND_ROBIN,
};

fn creature(method: Option<u8>, players: Vec<u32>) -> CreatureRuntime {
    CreatureRuntime {
        npc_flags: 0,
        faction: 0,
        loot_method: method.map(|method| CreatureLootMethod { method, threshold: 2, master_looter: 9 }),
        loot_current_looter: Some(4),
        loot_current_looter_pass_slots: vec![3],
        loot_roll_released_slots: vec![5],
        loot_allowed_players: players,
    }
}

fn loot(slot: u8, quality: u8) -> CreatureLootItem {
    CreatureLootItem { slot, item: 100, count: 1, quality, quest_drop: false, free_for_all: false }
}

#[test]
fn money_is_split_evenly_among_distinct_recipients() {
    let grouped = creature(Some(LOOT_METHOD_GROUP_LOOT), vec![7, 3, 7, 5]);
    assert_eq!(creature_loot_money_recipients(&grouped, 1), vec![3, 5, 7]);
    assert_eq!(creature_loot_money_share(&grouped, 103), 25);
    assert!(creature_loot_money_share(&grouped, 103) * 3 <= 103);
    let alone = creature(None, vec![7, 3]);
    assert_eq!(creature_loot_money_recipients(&alone, 1), vec![1]);
    assert_eq!(creature_loot_money_share(&alone, 103), 103);
    let empty = creature(Some(LOOT_METHOD_GROUP_LOOT), vec![]);
    assert_eq!(creature_loot_money_recipients(&empty, 6), vec![6]);
    assert_eq!(creature_loot_money_share(&empty, 103), 103);
}

#[test]
fn loot_rules_by_method() {
    let group = creature(Some(LOOT_METHOD_GROUP_LOOT), vec![4, 6]);
    assert!(should_use_group_loot_roll(&group, &loot(1, 2)));
    assert!(!should_use_group_loot_roll(&group, &loot(1, 1)));
    assert!(!should_use_group_loot_roll(&creature(None, vec![]), &loot(1, 4)));
    assert!(can_autostore_shared_creature_loot(4, &group, &loot(1, 1)));
    assert!(!can_autostore_shared_creature_loot(6, &group, &loot(1, 1)));
    assert!(!can_autostore_shared_creature_loot(4, &group, &loot(1, 3)));
    assert!(can_autostore_shared_creature_loot(6, &group, &loot(5, 3)));
    let robin = creature(Some(LOOT_METHOD_ROUND_ROBIN), vec![]);
    assert!(can_autostore_shared_creature_loot(6, &robin, &loot(1, 3)));
    assert!(!can_autostore_shared_creature_loot(6, &robin, &loot(1, 1)));
    assert!(can_autostore_shared_creature_loot(6, &robin, &loot(3, 1)));
    let master = creature(Some(LOOT_METHOD_MASTER_LOOT), vec![]);
    assert!(!can_autostore_shared_creature_loot(4, &master, &loot(1, 3)));
    assert!(can_autostore_shared_creature_loot(4, &master, &loot(1, 1)));
    assert!(should_block_master_loot(&master, 4, &loot(1, 3)));
    assert!(!should_block_master_loot(&master, 9, &loot(1, 3)));
    assert!(can_autostore_shared_creature_loot(6, &creature(Some(LOOT_METHOD_FREE_FOR_ALL), vec![]), &loot(1, 5)));
    let mut ffa = loot(1, 5);
    ffa.free_for_all = true;
    assert!(can_autostore_shared_creature_loot(6, &master, &ffa));
}

#[test]
fn release_state_and_stored_method() {
    let group = creature(Some(LOOT_METHOD_GROUP_LOOT), vec![]);
    let state = LootItemReleaseState::from_creature(&group, 5);
    assert!(state.roll_released);
    assert!(!state.current_looter_pass);
    assert!(LootItemReleaseState::from_creature(&group, 3).current_looter_pass);
    assert_eq!(db_creature_loot_method_tuple(group.loot_method), Some((3, 2, 9)));
    assert_eq!(db_creature_loot_method_tuple(None), None);
}
