use wow_network::character::ActiveCharacter;
use wow_network::guid::ObjectGuid;
use wow_network::inventory::CharacterInventoryItem;
use wow_network::quest::{
    apply_quest_abandon, quest_to_abandon, CharacterQuestStatus, QuestLog, QuestSourceItemStorage, QuestStartFacts, QuestTemplateQuery, QUEST_STATUS_COMPLETE,
    QUEST_STATUS_INCOMPLETE,
};
use wow_network::quest_progress::{creature_kill_credits, quest_kill_credit, quests_completed_by_inventory, quests_reopened_by_inventory, KillCredit};
use wow_network::questgiver::{
    check_quest_accept, check_quest_reward, check_request_reward, quest_completion_ready, RequestRewardCheck, quest_start_dialog_status, questgiver_completed_turnin_quest, QuestAcceptCheck,
    QuestRewardCheck, questgiver_dialog_status, questgiver_has_quest_relation,
    questgiver_visible_quests, QuestCharacter, QuestListChoice, DIALOG_STATUS_INCOMPLETE, DIALOG_STATUS_NONE,
    DIALOG_STATUS_REWARD2,
};

const CREATURE: u64 = 0xF130_0000_0100_0007;
const GAME_OBJECT: u64 = 0xF110_0000_0200_0001;

fn quest(entry: u32) -> QuestTemplateQuery {
    QuestTemplateQuery {
        entry,
        quest_level: 5,
        min_level: 1,
        max_level: 0,
        required_classes: 0,
        required_races: 0,
        required_skill: 0,
        required_skill_value: 0,
        required_min_rep_faction: 0,
        required_min_rep_value: 0,
        required_max_rep_faction: 0,
        required_max_rep_value: 0,
        exclusive_group: 0,
        prev_quest_id: 0,
        next_quest_in_chain: 0,
        required_condition: 0,
        special_flags: 0,
        repeatable: false,
        rep_objective_faction: 0,
        src_item_id: 0,
        src_item_count: 0,
        request_items_text: String::new(),
        req_item_id: [0; 4],
        req_item_count: [0; 4],
        req_source_id: [0; 4],
        req_source_count: [0; 4],
        req_creature_or_go_id: [0; 4],
        req_creature_or_go_count: [0; 4],
        rew_choice_item_id: [0; 6],
        rew_choice_item_count: [0; 6],
        rew_item_id: [0; 4],
        rew_item_count: [0; 4],
        rew_rep_faction: [0; 5],
        rew_rep_value: [0; 5],
    }
}

fn kill_quest(entry: u32, creature: i32, count: u32) -> QuestTemplateQuery {
    let mut q = quest(entry);
    q.req_creature_or_go_id[1] = creature;
    q.req_creature_or_go_count[1] = count;
    q
}

fn item_quest(entry: u32, item: u32, count: u32) -> QuestTemplateQuery {
    let mut q = quest(entry);
    q.req_item_id[0] = item;
    q.req_item_count[0] = count;
    q
}

fn status(quest: u32, status: u32, rewarded: u8) -> CharacterQuestStatus {
    CharacterQuestStatus { quest, status, rewarded, mobcount1: 0, mobcount2: 0, mobcount3: 0, mobcount4: 0 }
}

fn facts() -> QuestStartFacts {
    QuestStartFacts { condition_satisfied: true, prev_quests: vec![], prev_chain_quests: vec![], exclusive_group_quests: vec![] }
}

fn stack(item_template: u32, count: u32) -> CharacterInventoryItem {
    CharacterInventoryItem { bag: 0, slot: 23, item: 50, item_template, count, random_property_id: 0, durability: 0 }
}

fn who(level: u8, statuses: Vec<CharacterQuestStatus>, inventory: Vec<CharacterInventoryItem>) -> QuestCharacter {
    QuestCharacter {
        character: ActiveCharacter { guid: 1, level, race: 1, class: 1 },
        skills: vec![],
        reputations: vec![],
        statuses,
        inventory,
    }
}

#[test]
fn giver_mark_prefers_a_quest_ready_to_hand_in() {
    let giver = ObjectGuid::from_raw(CREATURE);
    let complete = vec![quest(10), quest(11)];
    let character = who(10, vec![status(10, QUEST_STATUS_INCOMPLETE, 0), status(11, QUEST_STATUS_COMPLETE, 0)], vec![]);
    assert_eq!(questgiver_dialog_status(giver, &complete, &[], &[], &character), DIALOG_STATUS_REWARD2);
}

#[test]
fn giver_mark_for_quests_in_progress_and_to_start() {
    let giver = ObjectGuid::from_raw(CREATURE);
    let complete = vec![kill_quest(10, 99, 3)];
    let character = who(10, vec![status(10, QUEST_STATUS_INCOMPLETE, 0)], vec![]);
    assert_eq!(questgiver_dialog_status(giver, &complete, &[], &[], &character), DIALOG_STATUS_INCOMPLETE);
    let start = vec![quest(20)];
    assert_eq!(questgiver_dialog_status(giver, &complete, &start, &[facts()], &character), 5);
    let mut hard = quest(21);
    hard.min_level = 15;
    assert_eq!(quest_start_dialog_status(&hard, &character, &facts()), Some(1));
    hard.min_level = 30;
    assert_eq!(quest_start_dialog_status(&hard, &character, &facts()), None);
}

#[test]
fn only_creatures_and_objects_have_marks() {
    let character = who(10, vec![status(11, QUEST_STATUS_COMPLETE, 0)], vec![]);
    let complete = vec![quest(11)];
    assert_eq!(questgiver_dialog_status(ObjectGuid::from_raw(3), &complete, &[], &[], &character), DIALOG_STATUS_NONE);
    assert_eq!(
        questgiver_dialog_status(ObjectGuid::from_raw(GAME_OBJECT), &complete, &[], &[], &character),
        DIALOG_STATUS_REWARD2
    );
    assert!(questgiver_has_quest_relation(ObjectGuid::from_raw(GAME_OBJECT), &[], &complete));
    assert!(!questgiver_has_quest_relation(ObjectGuid::from_raw(GAME_OBJECT), &[], &[]));
    assert!(!questgiver_has_quest_relation(ObjectGuid::from_raw(3), &complete, &complete));
}

#[test]
fn rewarded_quests_leave_no_mark() {
    let giver = ObjectGuid::from_raw(CREATURE);
    let character = who(10, vec![status(11, QUEST_STATUS_COMPLETE, 1)], vec![]);
    assert_eq!(questgiver_dialog_status(giver, &[quest(11)], &[], &[], &character), DIALOG_STATUS_NONE);
}

#[test]
fn visible_quests_list_turn_ins_then_new_quests() {
    let giver = ObjectGuid::from_raw(CREATURE);
    let complete = vec![quest(10), quest(11)];
    let start = vec![quest(10), quest(30)];
    let character = who(10, vec![status(10, QUEST_STATUS_COMPLETE, 0)], vec![]);
    let visible = questgiver_visible_quests(giver, &complete, &start, &[facts(), facts()], &character);
    assert_eq!(
        visible,
        vec![
            QuestListChoice { from_complete: true, index: 0, dialog_status: DIALOG_STATUS_REWARD2 },
            QuestListChoice { from_complete: false, index: 1, dialog_status: 5 },
        ]
    );
    assert!(questgiver_visible_quests(ObjectGuid::from_raw(3), &complete, &start, &[facts(), facts()], &character).is_empty());
}

#[test]
fn turn_in_takes_the_lowest_ready_quest() {
    let giver = ObjectGuid::from_raw(CREATURE);
    let complete = vec![quest(40), kill_quest(12, 99, 2), quest(30)];
    let character = who(
        10,
        vec![status(40, QUEST_STATUS_COMPLETE, 0), status(12, QUEST_STATUS_INCOMPLETE, 0), status(30, QUEST_STATUS_COMPLETE, 0)],
        vec![],
    );
    assert_eq!(questgiver_completed_turnin_quest(giver, &complete, &character), Some(2));
    assert_eq!(questgiver_completed_turnin_quest(ObjectGuid::from_raw(3), &complete, &character), None);
}

#[test]
fn kills_count_towards_the_matching_objective() {
    let q = kill_quest(10, 99, 2);
    let s = status(10, QUEST_STATUS_INCOMPLETE, 0);
    assert_eq!(quest_kill_credit(&s, &q, 99, &[]), Some(KillCredit { quest: 10, index: 1, new_count: 1, complete: false }));
    let mut almost = s;
    almost.mobcount2 = 1;
    assert_eq!(quest_kill_credit(&almost, &q, 99, &[]), Some(KillCredit { quest: 10, index: 1, new_count: 2, complete: true }));
    let mut done = s;
    done.mobcount2 = 2;
    assert_eq!(quest_kill_credit(&done, &q, 99, &[]), None);
    assert_eq!(quest_kill_credit(&s, &q, 98, &[]), None);
    let object_objective = kill_quest(11, -99, 2);
    assert_eq!(quest_kill_credit(&s, &object_objective, 99, &[]), None);
}

#[test]
fn kill_credits_only_reach_open_quests() {
    let quests = vec![kill_quest(10, 99, 2), kill_quest(11, 99, 1)];
    let statuses = vec![status(10, QUEST_STATUS_INCOMPLETE, 0), status(11, QUEST_STATUS_COMPLETE, 0), status(12, QUEST_STATUS_INCOMPLETE, 0)];
    let credits = creature_kill_credits(&statuses, &quests, 99, &[]);
    assert_eq!(credits, vec![KillCredit { quest: 10, index: 1, new_count: 1, complete: false }]);
}

#[test]
fn inventory_completes_and_reopens_item_quests() {
    let quests = vec![item_quest(10, 500, 3), item_quest(11, 501, 1)];
    let open = vec![status(10, QUEST_STATUS_INCOMPLETE, 0), status(11, QUEST_STATUS_COMPLETE, 0)];
    assert_eq!(quests_completed_by_inventory(&open, &quests, &[stack(500, 3)]), vec![10]);
    assert_eq!(quests_completed_by_inventory(&open, &quests, &[stack(500, 2)]), Vec::<u32>::new());
    assert_eq!(quests_reopened_by_inventory(&open, &quests, &[stack(500, 3)]), vec![11]);
    assert_eq!(quests_reopened_by_inventory(&open, &quests, &[stack(501, 1)]), Vec::<u32>::new());
}

#[test]
fn accepting_a_quest() {
    let q = quest(20);
    let character = who(10, vec![], vec![]);
    let free = QuestLog { quest_log_slots: [0; 20] };
    let full = QuestLog { quest_log_slots: [7; 20] };
    let none = QuestSourceItemStorage::NoGrantNeeded;
    assert_eq!(check_quest_accept(true, &q, &character, &facts(), &free, &none), QuestAcceptCheck::Accept);
    assert_eq!(check_quest_accept(false, &q, &character, &facts(), &free, &none), QuestAcceptCheck::Ignore);
    assert_eq!(check_quest_accept(true, &q, &character, &facts(), &full, &none), QuestAcceptCheck::LogFull);
    assert_eq!(
        check_quest_accept(true, &q, &character, &facts(), &free, &QuestSourceItemStorage::NoSpace),
        QuestAcceptCheck::NoSpace
    );
    let taken = who(10, vec![status(20, QUEST_STATUS_INCOMPLETE, 0)], vec![]);
    assert_eq!(check_quest_accept(true, &q, &taken, &facts(), &free, &none), QuestAcceptCheck::Ignore);
}

#[test]
fn handing_a_quest_in() {
    let q = item_quest(10, 500, 2);
    let complete = Some(status(10, QUEST_STATUS_COMPLETE, 0));
    let in_progress = Some(status(10, QUEST_STATUS_INCOMPLETE, 0));
    assert_eq!(check_quest_reward(0, true, &q, complete, &[stack(500, 2)]), QuestRewardCheck::Ready { mark_complete: false });
    assert_eq!(check_quest_reward(0, true, &q, in_progress, &[stack(500, 2)]), QuestRewardCheck::Ready { mark_complete: true });
    assert_eq!(check_quest_reward(0, true, &q, complete, &[stack(500, 1)]), QuestRewardCheck::NotReady { reopen: true });
    assert_eq!(check_quest_reward(0, true, &q, in_progress, &[]), QuestRewardCheck::NotReady { reopen: false });
    assert_eq!(check_quest_reward(6, true, &q, complete, &[stack(500, 2)]), QuestRewardCheck::Ignore);
    assert_eq!(check_quest_reward(0, false, &q, complete, &[stack(500, 2)]), QuestRewardCheck::Ignore);
    assert_eq!(check_quest_reward(0, true, &q, None, &[stack(500, 2)]), QuestRewardCheck::Ignore);
    let mut choice = quest(11);
    choice.rew_choice_item_id[0] = 900;
    choice.rew_choice_item_count[0] = 1;
    let done = Some(status(11, QUEST_STATUS_COMPLETE, 0));
    assert_eq!(check_quest_reward(0, true, &choice, done, &[]), QuestRewardCheck::Ready { mark_complete: false });
    assert_eq!(check_quest_reward(3, true, &choice, done, &[]), QuestRewardCheck::Ignore);
}

#[test]
fn abandoning_a_quest_wipes_it() {
    let mut log = QuestLog { quest_log_slots: [0; 20] };
    log.quest_log_slots[2] = 10;
    let mut statuses = vec![status(9, QUEST_STATUS_COMPLETE, 0), {
        let mut s = status(10, QUEST_STATUS_INCOMPLETE, 0);
        s.mobcount1 = 3;
        s
    }];
    assert_eq!(quest_to_abandon(&log, 2, &statuses), Some(10));
    assert_eq!(quest_to_abandon(&log, 3, &statuses), None);
    assert_eq!(quest_to_abandon(&log, 25, &statuses), None);
    assert_eq!(quest_to_abandon(&log, 2, &[]), None);
    apply_quest_abandon(&mut log, &mut statuses, 2, 10);
    assert_eq!(log.quest_log_slots, [0; 20]);
    assert_eq!(statuses[1], status(10, 0, 0));
    assert_eq!(statuses[0], status(9, QUEST_STATUS_COMPLETE, 0));
}

#[test]
fn reward_offers_follow_completion() {
    let q = item_quest(10, 500, 2);
    let in_progress = Some(status(10, QUEST_STATUS_INCOMPLETE, 0));
    let complete = Some(status(10, QUEST_STATUS_COMPLETE, 0));
    assert_eq!(check_request_reward(true, &q, in_progress, &[stack(500, 2)]), RequestRewardCheck::Offer { mark_complete: true });
    assert_eq!(check_request_reward(true, &q, in_progress, &[stack(500, 1)]), RequestRewardCheck::Ignore);
    assert_eq!(check_request_reward(true, &q, complete, &[stack(500, 2)]), RequestRewardCheck::Offer { mark_complete: false });
    assert_eq!(check_request_reward(true, &q, complete, &[]), RequestRewardCheck::Ignore);
    assert_eq!(check_request_reward(false, &q, complete, &[stack(500, 2)]), RequestRewardCheck::Ignore);
    assert_eq!(check_request_reward(true, &q, None, &[stack(500, 2)]), RequestRewardCheck::Ignore);
    assert!(quest_completion_ready(&status(10, QUEST_STATUS_COMPLETE, 0), &q, &[stack(500, 2)]));
    assert!(!quest_completion_ready(&status(10, QUEST_STATUS_INCOMPLETE, 0), &q, &[]));
    assert!(!quest_completion_ready(&status(10, QUEST_STATUS_COMPLETE, 1), &q, &[stack(500, 2)]));
}
