use wow_network::character::{ActiveCharacter, CharacterReputation, CharacterSkill};
use wow_network::inventory::CharacterInventoryItem;
use wow_network::loot::player_needs_quest_loot_item;
use wow_network::quest::{
    active_quest_statuses_sorted, assign_quest_log_slot, can_quest_be_started_from_status, can_see_start_quest,
    can_take_start_quest, clear_quest_log_slot, quest_status_can_complete, quest_status_can_reward_from_inventory, quest_log_slot_for_quest, quest_log_slots_from_statuses,
    satisfies_prev_quest_requirements, selected_quest_reward_items, start_quest_dialog_status, CharacterQuestStatus,
    PrevQuestInfo, PrevQuestTemplate, QuestLog, QuestRewardItem, QuestStartFacts, QuestTemplateQuery,
    QUEST_STATUS_COMPLETE, QUEST_STATUS_INCOMPLETE,
};

fn quest(entry: u32) -> QuestTemplateQuery {
    QuestTemplateQuery {
        entry,
        quest_level: 5,
        min_level: 1,
        max_level: 0,
        required_classes: 0,
        required_races: 0,
        required_skill: 0,
        required_skill_value: 0,
        required_min_rep_faction: 0,
        required_min_rep_value: 0,
        required_max_rep_faction: 0,
        required_max_rep_value: 0,
        exclusive_group: 0,
        prev_quest_id: 0,
        next_quest_in_chain: 0,
        required_condition: 0,
        special_flags: 0,
        repeatable: false,
        rep_objective_faction: 0,
        src_item_id: 0,
        src_item_count: 0,
        request_items_text: String::new(),
        req_item_id: [0; 4],
        req_item_count: [0; 4],
        req_source_id: [0; 4],
        req_source_count: [0; 4],
        req_creature_or_go_id: [0; 4],
        req_creature_or_go_count: [0; 4],
        rew_choice_item_id: [0; 6],
        rew_choice_item_count: [0; 6],
        rew_item_id: [0; 4],
        rew_item_count: [0; 4],
        rew_rep_faction: [0; 5],
        rew_rep_value: [0; 5],
    }
}

fn status(quest: u32, status: u32, rewarded: u8) -> CharacterQuestStatus {
    CharacterQuestStatus { quest, status, rewarded, mobcount1: 0, mobcount2: 0, mobcount3: 0, mobcount4: 0 }
}

fn facts() -> QuestStartFacts {
    QuestStartFacts { condition_satisfied: true, prev_quests: vec![], prev_chain_quests: vec![], exclusive_group_quests: vec![] }
}

fn hero(level: u8) -> ActiveCharacter {
    ActiveCharacter { guid: 1, level, race: 1, class: 1 }
}

#[test]
fn quest_log_assign_find_and_clear() {
    let mut log = QuestLog { quest_log_slots: [0; 20] };
    log.quest_log_slots[0] = 5;
    assert_eq!(assign_quest_log_slot(&mut log, 9), Some(1));
    assert_eq!(quest_log_slot_for_quest(&log, 9), Some(1));
    assert_eq!(assign_quest_log_slot(&mut log, 9), Some(1));
    assert_eq!(clear_quest_log_slot(&mut log, 9), Some(1));
    assert_eq!(quest_log_slot_for_quest(&log, 9), None);
    assert_eq!(log.quest_log_slots[1], 0);
    let mut full = QuestLog { quest_log_slots: [3; 20] };
    assert_eq!(assign_quest_log_slot(&mut full, 4), None);
    assert_eq!(full.quest_log_slots, [3; 20]);
}

#[test]
fn current_quests_fill_the_log_in_id_order() {
    let statuses = vec![
        status(30, QUEST_STATUS_INCOMPLETE, 0),
        status(10, QUEST_STATUS_COMPLETE, 0),
        status(20, QUEST_STATUS_COMPLETE, 1),
        status(15, 0, 0),
    ];
    let sorted: Vec<_> = active_quest_statuses_sorted(&statuses).iter().map(|s| s.quest).collect();
    assert_eq!(sorted, vec![10, 30]);
    let slots = quest_log_slots_from_statuses(&statuses);
    assert_eq!(&slots[..3], &[10, 30, 0]);
}

#[test]
fn start_status_and_dialog_marks() {
    let q = quest(1);
    assert!(can_quest_be_started_from_status(&q, None));
    assert!(!can_quest_be_started_from_status(&q, Some(&status(1, QUEST_STATUS_COMPLETE, 1))));
    let mut repeatable = quest(1);
    repeatable.repeatable = true;
    assert!(can_quest_be_started_from_status(&repeatable, Some(&status(1, QUEST_STATUS_COMPLETE, 1))));
    assert_eq!(start_quest_dialog_status(true, false), Some(5));
    assert_eq!(start_quest_dialog_status(false, true), Some(1));
    assert_eq!(start_quest_dialog_status(false, false), None);
}

#[test]
fn previous_quests_gate_a_quest() {
    let q = quest(2);
    assert!(satisfies_prev_quest_requirements(&q, &[], &[]));
    let prev = |id: i32, group: i32| PrevQuestInfo {
        prev_quest_id: id,
        template: Some(PrevQuestTemplate { exclusive_group: group, next_quest_id: 0 }),
        exclusive_group_quests: vec![1, 3],
    };
    assert!(satisfies_prev_quest_requirements(&q, &[status(1, QUEST_STATUS_COMPLETE, 1)], &[prev(1, 0)]));
    assert!(!satisfies_prev_quest_requirements(&q, &[status(1, QUEST_STATUS_COMPLETE, 0)], &[prev(1, 0)]));
    assert!(!satisfies_prev_quest_requirements(&q, &[], &[prev(1, 0)]));
    assert!(satisfies_prev_quest_requirements(&q, &[status(1, QUEST_STATUS_INCOMPLETE, 0)], &[prev(-1, 0)]));
    let statuses = [status(1, QUEST_STATUS_COMPLETE, 1)];
    assert!(!satisfies_prev_quest_requirements(&q, &statuses, &[prev(1, -5)]));
    let statuses = [status(1, QUEST_STATUS_COMPLETE, 1), status(3, QUEST_STATUS_COMPLETE, 1)];
    assert!(satisfies_prev_quest_requirements(&q, &statuses, &[prev(1, -5)]));
    let no_template = PrevQuestInfo { prev_quest_id: 1, template: None, exclusive_group_quests: vec![] };
    assert!(satisfies_prev_quest_requirements(&q, &statuses, &[no_template, prev(3, 0)]));
}

#[test]
fn taking_and_seeing_start_quests() {
    let mut q = quest(7);
    q.min_level = 10;
    let none: [CharacterSkill; 0] = [];
    let reps: [CharacterReputation; 0] = [];
    assert!(!can_take_start_quest(&q, &hero(5), &none, &reps, &[], &facts()));
    assert!(can_see_start_quest(&q, &hero(5), &none, &reps, &[], &facts()));
    assert!(!can_see_start_quest(&q, &hero(2), &none, &reps, &[], &facts()));
    assert!(can_take_start_quest(&q, &hero(10), &none, &reps, &[], &facts()));
    let mut blocked = facts();
    blocked.condition_satisfied = false;
    assert!(!can_take_start_quest(&q, &hero(10), &none, &reps, &[], &blocked));
    let mut chain = facts();
    chain.prev_chain_quests = vec![4];
    assert!(!can_take_start_quest(&q, &hero(10), &none, &reps, &[status(4, QUEST_STATUS_INCOMPLETE, 0)], &chain));
    q.exclusive_group = 3;
    let mut group = facts();
    group.exclusive_group_quests = vec![7, 8];
    assert!(!can_take_start_quest(&q, &hero(10), &none, &reps, &[status(8, QUEST_STATUS_INCOMPLETE, 0)], &group));
    assert!(can_take_start_quest(&q, &hero(10), &none, &reps, &[status(8, QUEST_STATUS_COMPLETE, 1)], &group));
}

#[test]
fn reward_choice_must_name_an_offered_item() {
    let mut q = quest(1);
    q.rew_item_id = [100, 0, 0, 0];
    q.rew_item_count = [2, 0, 0, 0];
    assert_eq!(selected_quest_reward_items(&q, 9), Some(vec![QuestRewardItem { item: 100, count: 2 }]));
    q.rew_choice_item_id = [0, 200, 0, 0, 0, 0];
    q.rew_choice_item_count = [0, 1, 0, 0, 0, 0];
    assert_eq!(selected_quest_reward_items(&q, 0), None);
    assert_eq!(
        selected_quest_reward_items(&q, 1),
        Some(vec![QuestRewardItem { item: 200, count: 1 }, QuestRewardItem { item: 100, count: 2 }])
    );
}

#[test]
fn quest_drops_are_needed_until_enough_are_carried() {
    let mut q = quest(5);
    q.req_item_id = [2589, 0, 0, 0];
    q.req_item_count = [3, 0, 0, 0];
    q.req_source_id = [0, 750, 0, 0];
    let statuses = [status(5, QUEST_STATUS_INCOMPLETE, 0)];
    let carry = |count: u32| {
        vec![CharacterInventoryItem { bag: 0, slot: 23, item: 1, item_template: 2589, count, random_property_id: 0, durability: 0 }]
    };
    let quests = [q];
    assert!(player_needs_quest_loot_item(2589, &quests, &statuses, &carry(2), &[]));
    assert!(!player_needs_quest_loot_item(2589, &quests, &statuses, &carry(3), &[]));
    assert!(!player_needs_quest_loot_item(2589, &quests, &[status(5, QUEST_STATUS_COMPLETE, 0)], &carry(0), &[]));
    assert!(!player_needs_quest_loot_item(750, &quests, &statuses, &[], &[]));
    assert!(player_needs_quest_loot_item(750, &quests, &statuses, &[], &[(750, 1)]));
    assert!(!player_needs_quest_loot_item(2589, &[], &statuses, &[], &[]));
}

#[test]
fn more_items_never_create_a_quest_need() {
    let mut q = quest(5);
    q.req_item_id = [2589, 0, 0, 0];
    q.req_item_count = [3, 0, 0, 0];
    let statuses = [status(5, QUEST_STATUS_INCOMPLETE, 0)];
    let held = |slot: u8, count: u32| CharacterInventoryItem {
        bag: 0, slot, item: slot as u32, item_template: 2589, count, random_property_id: 0, durability: 0,
    };
    let quests = [q];
    let before = vec![held(23, 1)];
    let after = vec![held(23, 1), held(24, 2)];
    assert!(player_needs_quest_loot_item(2589, &quests, &statuses, &before, &[]));
    assert!(!player_needs_quest_loot_item(2589, &quests, &statuses, &after, &[]));
    // Only an incomplete, unrewarded quest listing the item needs it.
    assert!(!player_needs_quest_loot_item(2589, &quests, &[status(5, QUEST_STATUS_INCOMPLETE, 1)], &before, &[]));
    assert!(!player_needs_quest_loot_item(4000, &quests, &statuses, &before, &[]));
}

#[test]
fn completable_quests_can_be_rewarded() {
    let mut q = quest(5);
    q.req_item_id = [2589, 0, 0, 0];
    q.req_item_count = [2, 0, 0, 0];
    let bags = vec![CharacterInventoryItem {
        bag: 0, slot: 23, item: 1, item_template: 2589, count: 2, random_property_id: 0, durability: 0,
    }];
    let open = status(5, QUEST_STATUS_INCOMPLETE, 0);
    assert!(quest_status_can_complete(&open, &q, &bags));
    assert!(quest_status_can_reward_from_inventory(&open, &q, &bags));
    let done = status(5, QUEST_STATUS_COMPLETE, 0);
    assert!(!quest_status_can_complete(&done, &q, &bags));
    assert!(quest_status_can_reward_from_inventory(&done, &q, &bags));
    assert!(!quest_status_can_reward_from_inventory(&status(5, QUEST_STATUS_COMPLETE, 1), &q, &bags));
    assert!(!quest_status_can_reward_from_inventory(&done, &q, &bags[..0]));
}
