//! Quest eligibility, completion, rewards and quest log bookkeeping.
use vstd::prelude::*;
use crate::character::{
    ActiveCharacter, CharacterReputation, CharacterSkill, first_skill_value, first_standing, find_skill_value,
    find_standing, quest_race_or_class_mask,
};
use crate::inventory::{
    CharacterInventoryItem, EquippedBagInfo, ItemTemplateQuery, StoreSlot, INVENTORY_SLOT_BAG_0, INVENTORY_SLOT_ITEM_END,
    INVENTORY_SLOT_ITEM_START, plan_spec, plan_store_item,
};
use crate::sorting::{insert_item_by_storage_order, insert_status_by_quest, sort_by_key, status_key, storage_key};

verus! {

pub const QUEST_STATUS_NONE: u32 = 0;
pub const QUEST_STATUS_COMPLETE: u32 = 1;
pub const QUEST_STATUS_INCOMPLETE: u32 = 3;
pub const DIALOG_STATUS_UNAVAILABLE: u32 = 1;
pub const DIALOG_STATUS_AVAILABLE: u32 = 5;
pub const MAX_QUEST_LOG_SIZE: usize = 20;
/// Quests whose minimum level exceeds the character's by more than this are hidden.
pub const QUEST_HIGH_LEVEL_HIDE_DIFF: u8 = 7;
pub const QUEST_SPECIAL_FLAG_EXPLORATION_OR_EVENT: u32 = 0x002;

/// The fields of a quest template that the quest rules read.
#[derive(Clone, Debug)]
pub struct QuestTemplateQuery {
    pub entry: u32,
    pub quest_level: u32,
    pub min_level: u8,
    pub max_level: u8,
    pub required_classes: u32,
    pub required_races: u32,
    pub required_skill: u32,
    pub required_skill_value: u32,
    pub required_min_rep_faction: u32,
    pub required_min_rep_value: i32,
    pub required_max_rep_faction: u32,
    pub required_max_rep_value: i32,
    pub exclusive_group: i32,
    pub prev_quest_id: i32,
    pub next_quest_in_chain: u32,
    pub required_condition: u32,
    pub special_flags: u32,
    /// Whether the quest can be taken again once rewarded.
    pub repeatable: bool,
    pub rep_objective_faction: u32,
    pub src_item_id: u32,
    pub src_item_count: u32,
    pub request_items_text: String,
    pub req_item_id: [u32; 4],
    pub req_item_count: [u32; 4],
    pub req_source_id: [u32; 4],
    pub req_source_count: [u32; 4],
    pub req_creature_or_go_id: [i32; 4],
    pub req_creature_or_go_count: [u32; 4],
    pub rew_choice_item_id: [u32; 6],
    pub rew_choice_item_count: [u32; 6],
    pub rew_item_id: [u32; 4],
    pub rew_item_count: [u32; 4],
    pub rew_rep_faction: [u32; 5],
    pub rew_rep_value: [i32; 5],
}

/// A character's progress on one quest.
#[derive(Clone, Copy, Debug, PartialEq, Eq, Structural)]
pub struct CharacterQuestStatus {
    pub quest: u32,
    pub status: u32,
    pub rewarded: u8,
    pub mobcount1: u32,
    pub mobcount2: u32,
    pub mobcount3: u32,
    pub mobcount4: u32,
}

/// The status recorded for `quest`: the first entry for it.
pub open spec fn status_for(statuses: Seq<CharacterQuestStatus>, quest: u32) -> Option<CharacterQuestStatus>
    decreases statuses.len(),
{
    if statuses.len() == 0 {
        None
    } else {
        match status_for(statuses.drop_last(), quest) {
            Some(found) => Some(found),
            None => if statuses.last().quest == quest { Some(statuses.last()) } else { None },
        }
    }
}

proof fn lemma_status_for_prefix(statuses: Seq<CharacterQuestStatus>, quest: u32, n: int)
    requires
        0 <= n <= statuses.len(),
        status_for(statuses.take(n), quest) is Some,
    ensures
        status_for(statuses, quest) == status_for(statuses.take(n), quest),
    decreases statuses.len() - n,
{
    if n < statuses.len() {
        assert(statuses.take(n + 1).drop_last() =~= statuses.take(n));
        lemma_status_for_prefix(statuses, quest, n + 1);
    } else {
        assert(statuses.take(n) =~= statuses);
    }
}

/// Looks up the status recorded for `quest`.
pub fn find_quest_status(statuses: &[CharacterQuestStatus], quest: u32) -> (found: Option<CharacterQuestStatus>)
    ensures
        found == status_for(statuses@, quest),
{
    let mut i: usize = 0;
    while i < statuses.len()
        invariant
            i <= statuses.len(),
            status_for(statuses@.take(i as int), quest) is None,
        decreases statuses.len() - i,
    {
        assert(statuses@.take(i + 1).drop_last() =~= statuses@.take(i as int));
        if statuses[i].quest == quest {
            proof { lemma_status_for_prefix(statuses@, quest, (i + 1) as int); }
            return Some(statuses[i]);
        }
        i += 1;
    }
    assert(statuses@.take(statuses@.len() as int) =~= statuses@);
    None
}

/// A quest in progress or completed but not yet rewarded.
#[verifier::allow_in_spec]
pub fn quest_status_is_current(status: &CharacterQuestStatus) -> bool
    returns
        status.rewarded == 0 && (status.status == QUEST_STATUS_INCOMPLETE || status.status == QUEST_STATUS_COMPLETE),
{
    status.rewarded == 0 && (status.status == QUEST_STATUS_INCOMPLETE || status.status == QUEST_STATUS_COMPLETE)
}

pub open spec fn quest_is_current_spec(statuses: Seq<CharacterQuestStatus>, quest: u32) -> bool {
    match status_for(statuses, quest) {
        Some(status) => quest_status_is_current(&status),
        None => false,
    }
}

pub fn quest_is_current(quest_statuses: &[CharacterQuestStatus], quest: u32) -> (current: bool)
    ensures
        current == quest_is_current_spec(quest_statuses@, quest),
{
    match find_quest_status(quest_statuses, quest) {
        Some(status) => quest_status_is_current(&status),
        None => false,
    }
}

/// The current statuses, in the order given.
pub open spec fn current_statuses(statuses: Seq<CharacterQuestStatus>) -> Seq<CharacterQuestStatus>
    decreases statuses.len(),
{
    if statuses.len() == 0 {
        Seq::empty()
    } else {
        current_statuses(statuses.drop_last()) + if quest_status_is_current(&statuses.last()) {
            seq![statuses.last()]
        } else {
            Seq::empty()
        }
    }
}

/// The current quests ordered by quest id: the quest log order.
pub open spec fn quest_log_order(statuses: Seq<CharacterQuestStatus>) -> Seq<CharacterQuestStatus> {
    sort_by_key(current_statuses(statuses), status_key())
}

/// The current quest statuses sorted by quest id.
pub fn active_quest_statuses_sorted(quest_statuses: &[CharacterQuestStatus]) -> (sorted: Vec<CharacterQuestStatus>)
    ensures
        sorted@ == quest_log_order(quest_statuses@),
{
    let mut sorted: Vec<CharacterQuestStatus> = Vec::new();
    let ghost mut current: Seq<CharacterQuestStatus> = Seq::empty();
    let mut i: usize = 0;
    while i < quest_statuses.len()
        invariant
            i <= quest_statuses.len(),
            current == current_statuses(quest_statuses@.take(i as int)),
            sorted@ == sort_by_key(current, status_key()),
        decreases quest_statuses.len() - i,
    {
        assert(quest_statuses@.take(i + 1).drop_last() =~= quest_statuses@.take(i as int));
        let status = quest_statuses[i];
        if quest_status_is_current(&status) {
            insert_status_by_quest(&mut sorted, status);
            proof {
                assert(current.push(status).drop_last() =~= current);
                current = current.push(status);
            }
        }
        proof {
            assert(current =~= current_statuses(quest_statuses@.take(i + 1)));
        }
        i += 1;
    }
    assert(quest_statuses@.take(quest_statuses@.len() as int) =~= quest_statuses@);
    sorted
}

// ---------------------------------------------------------------------------
// Quest log

/// The quest log: quest ids per slot, 0 for a free slot.
#[derive(Clone, Copy, Debug)]
pub struct QuestLog {
    pub quest_log_slots: [u32; 20],
}

/// The first slot holding `quest`.
pub open spec fn slot_of(slots: Seq<u32>, quest: u32) -> Option<usize>
    decreases slots.len(),
{
    if slots.len() == 0 {
        None
    } else {
        match slot_of(slots.drop_last(), quest) {
            Some(i) => Some(i),
            None => if slots.last() == quest { Some((slots.len() - 1) as usize) } else { None },
        }
    }
}

proof fn lemma_slot_of_prefix(slots: Seq<u32>, quest: u32, n: int)
    requires
        0 <= n <= slots.len(),
        slot_of(slots.take(n), quest) is Some,
    ensures
        slot_of(slots, quest) == slot_of(slots.take(n), quest),
    decreases slots.len() - n,
{
    if n < slots.len() {
        assert(slots.take(n + 1).drop_last() =~= slots.take(n));
        lemma_slot_of_prefix(slots, quest, n + 1);
    } else {
        assert(slots.take(n) =~= slots);
    }
}

/// `slot_of` finds the first occurrence.
pub proof fn lemma_slot_of(slots: Seq<u32>, quest: u32)
    requires
        slots.len() <= usize::MAX,
    ensures
        match slot_of(slots, quest) {
            Some(i) => i < slots.len() && slots[i as int] == quest && forall|j: int| 0 <= j < i ==> slots[j] != quest,
            None => forall|j: int| 0 <= j < slots.len() ==> slots[j] != quest,
        },
    decreases slots.len(),
{
    if slots.len() > 0 {
        let prefix = slots.drop_last();
        lemma_slot_of(prefix, quest);
        assert forall|j: int| 0 <= j < prefix.len() implies prefix[j] == slots[j] by {}
        match slot_of(prefix, quest) {
            Some(i) => {},
            None => {
                assert forall|j: int| 0 <= j < prefix.len() implies slots[j] != quest by {
                    assert(prefix[j] == slots[j]);
                }
            },
        }
    }
}

fn position_in_slots(slots: &[u32; 20], quest: u32) -> (slot: Option<usize>)
    ensures
        slot == slot_of(slots@, quest),
{
    let mut i: usize = 0;
    while i < 20
        invariant
            i <= 20,
            slots@.len() == 20,
            slot_of(slots@.take(i as int), quest) is None,
        decreases 20 - i,
    {
        assert(slots@.take(i + 1).drop_last() =~= slots@.take(i as int));
        if slots[i] == quest {
            proof { lemma_slot_of_prefix(slots@, quest, (i + 1) as int); }
            return Some(i);
        }
        i += 1;
    }
    assert(slots@.take(20) =~= slots@);
    None
}

/// The quest log slot that holds `quest`.
pub fn quest_log_slot_for_quest(log: &QuestLog, quest: u32) -> (slot: Option<usize>)
    ensures
        slot == slot_of(log.quest_log_slots@, quest),
{
    position_in_slots(&log.quest_log_slots, quest)
}

/// Whether some quest log slot is free.
pub fn quest_log_has_free_slot(log: &QuestLog) -> (free: bool)
    ensures
        free == log.quest_log_slots@.contains(0),
{
    let found = position_in_slots(&log.quest_log_slots, 0);
    proof { lemma_slot_of(log.quest_log_slots@, 0); }
    match found {
        Some(_) => true,
        None => false,
    }
}

/// Puts `quest` into the log: its existing slot if it has one, else the
/// first free slot; `None` (log unchanged) when the log is full.
pub fn assign_quest_log_slot(log: &mut QuestLog, quest: u32) -> (slot: Option<usize>)
    ensures
        match slot_of(old(log).quest_log_slots@, quest) {
            Some(existing) => slot == Some(existing) && final(log).quest_log_slots@ == old(log).quest_log_slots@,
            None => match slot_of(old(log).quest_log_slots@, 0) {
                Some(free) => slot == Some(free)
                    && final(log).quest_log_slots@ == old(log).quest_log_slots@.update(free as int, quest),
                None => slot is None && final(log).quest_log_slots@ == old(log).quest_log_slots@,
            },
        },
{
    if let Some(slot) = quest_log_slot_for_quest(log, quest) {
        return Some(slot);
    }
    let free = position_in_slots(&log.quest_log_slots, 0);
    match free {
        Some(slot) => {
            proof { lemma_slot_of(log.quest_log_slots@, 0); }
            log.quest_log_slots[slot] = quest;
            Some(slot)
        },
        None => None,
    }
}

/// Frees the slot holding `quest`, returning it.
pub fn clear_quest_log_slot(log: &mut QuestLog, quest: u32) -> (slot: Option<usize>)
    ensures
        slot == slot_of(old(log).quest_log_slots@, quest),
        match slot {
            Some(s) => final(log).quest_log_slots@ == old(log).quest_log_slots@.update(s as int, 0),
            None => final(log).quest_log_slots@ == old(log).quest_log_slots@,
        },
{
    let slot = quest_log_slot_for_quest(log, quest);
    if let Some(s) = slot {
        proof { lemma_slot_of(log.quest_log_slots@, quest); }
        log.quest_log_slots[s] = 0;
    }
    slot
}

/// The quest a character abandons from log slot `slot`: the quest in that
/// slot, when the slot exists, holds one and the character has a status
/// for it.
pub fn quest_to_abandon(log: &QuestLog, slot: u8, statuses: &[CharacterQuestStatus]) -> (quest: Option<u32>)
    ensures
        quest == if (slot as int) < MAX_QUEST_LOG_SIZE && log.quest_log_slots@[slot as int] != 0 && status_for(
            statuses@,
            log.quest_log_slots@[slot as int],
        ) is Some {
            Some(log.quest_log_slots@[slot as int])
        } else {
            None
        },
{
    let index = slot as usize;
    if index >= MAX_QUEST_LOG_SIZE {
        return None;
    }
    let quest = log.quest_log_slots[index];
    if quest == 0 {
        return None;
    }
    match find_quest_status(statuses, quest) {
        Some(_) => Some(quest),
        None => None,
    }
}

/// A status with its progress wiped: not taken, not rewarded, no kills.
pub open spec fn abandoned_status(status: CharacterQuestStatus) -> CharacterQuestStatus {
    CharacterQuestStatus {
        quest: status.quest,
        status: QUEST_STATUS_NONE,
        rewarded: 0,
        mobcount1: 0,
        mobcount2: 0,
        mobcount3: 0,
        mobcount4: 0,
    }
}

/// The position of the first status recorded for `quest`.
pub open spec fn status_index(statuses: Seq<CharacterQuestStatus>, quest: u32) -> Option<int>
    decreases statuses.len(),
{
    if statuses.len() == 0 {
        None
    } else {
        match status_index(statuses.drop_last(), quest) {
            Some(i) => Some(i),
            None => if statuses.last().quest == quest { Some(statuses.len() - 1) } else { None },
        }
    }
}

pub proof fn lemma_status_index(statuses: Seq<CharacterQuestStatus>, quest: u32)
    ensures
        match status_index(statuses, quest) {
            Some(i) => 0 <= i < statuses.len() && statuses[i].quest == quest && status_for(statuses, quest) == Some(statuses[i])
                && forall|j: int| 0 <= j < i ==> #[trigger] statuses[j].quest != quest,
            None => status_for(statuses, quest) is None && forall|j: int| 0 <= j < statuses.len() ==> #[trigger] statuses[j].quest != quest,
        },
    decreases statuses.len(),
{
    if statuses.len() > 0 {
        let prefix = statuses.drop_last();
        lemma_status_index(prefix, quest);
        assert forall|j: int| 0 <= j < prefix.len() implies prefix[j] == statuses[j] by {}
    }
}

fn find_status_index(statuses: &[CharacterQuestStatus], quest: u32) -> (index: Option<usize>)
    ensures
        match index {
            Some(i) => status_index(statuses@, quest) == Some(i as int),
            None => status_index(statuses@, quest) is None,
        },
{
    proof { lemma_status_index(statuses@, quest); }
    let mut i: usize = 0;
    while i < statuses.len()
        invariant
            i <= statuses@.len(),
            forall|j: int| 0 <= j < i ==> #[trigger] statuses@[j].quest != quest,
            match status_index(statuses@, quest) {
                Some(k) => 0 <= k < statuses@.len() && statuses@[k].quest == quest && forall|j: int|
                    0 <= j < k ==> #[trigger] statuses@[j].quest != quest,
                None => forall|j: int| 0 <= j < statuses@.len() ==> #[trigger] statuses@[j].quest != quest,
            },
        decreases statuses@.len() - i,
    {
        if statuses[i].quest == quest {
            return Some(i);
        }
        i += 1;
    }
    None
}

/// Records an abandoned quest: its first status is wiped and the log slot
/// `slot` freed.
pub fn apply_quest_abandon(log: &mut QuestLog, statuses: &mut Vec<CharacterQuestStatus>, slot: u8, quest: u32)
    requires
        (slot as int) < MAX_QUEST_LOG_SIZE,
    ensures
        final(log).quest_log_slots@ == old(log).quest_log_slots@.update(slot as int, 0),
        final(statuses)@ == match status_index(old(statuses)@, quest) {
            Some(i) => old(statuses)@.update(i, abandoned_status(old(statuses)@[i])),
            None => old(statuses)@,
        },
{
    proof { lemma_status_index(statuses@, quest); }
    match find_status_index(statuses.as_slice(), quest) {
        Some(i) => {
            let wiped = CharacterQuestStatus {
                quest: statuses[i].quest,
                status: QUEST_STATUS_NONE,
                rewarded: 0,
                mobcount1: 0,
                mobcount2: 0,
                mobcount3: 0,
                mobcount4: 0,
            };
            statuses.set(i, wiped);
        },
        None => {},
    }
    log.quest_log_slots[slot as usize] = 0;
}

/// The log slot a quest takes when the log is rebuilt from statuses: its
/// position among the first `MAX_QUEST_LOG_SIZE` current quests by id.
pub open spec fn slot_for_statuses_spec(statuses: Seq<CharacterQuestStatus>, quest: u32) -> Option<usize> {
    slot_of(quest_log_ids(statuses), quest)
}

/// The ids of the quests that fit in the log, in log order.
pub open spec fn quest_log_ids(statuses: Seq<CharacterQuestStatus>) -> Seq<u32> {
    let order = quest_log_order(statuses);
    let n = if order.len() < MAX_QUEST_LOG_SIZE { order.len() as int } else { MAX_QUEST_LOG_SIZE as int };
    Seq::new(n as nat, |i: int| order[i].quest)
}

pub fn quest_log_slot_for_statuses(statuses: &[CharacterQuestStatus], quest: u32) -> (slot: Option<usize>)
    ensures
        slot == slot_for_statuses_spec(statuses@, quest),
{
    let sorted = active_quest_statuses_sorted(statuses);
    let ghost ids = quest_log_ids(statuses@);
    let mut i: usize = 0;
    while i < sorted.len() && i < MAX_QUEST_LOG_SIZE
        invariant
            i <= sorted.len(),
            i <= MAX_QUEST_LOG_SIZE,
            sorted@ == quest_log_order(statuses@),
            ids == quest_log_ids(statuses@),
            slot_of(ids.take(i as int), quest) is None,
        decreases sorted.len() - i,
    {
        assert(ids.take(i + 1).drop_last() =~= ids.take(i as int));
        if sorted[i].quest == quest {
            proof {
                assert(ids[i as int] == quest);
                lemma_slot_of_prefix(ids, quest, (i + 1) as int);
            }
            return Some(i);
        }
        i += 1;
    }
    assert(ids.take(i as int) =~= ids);
    None
}

/// The quest log rebuilt from statuses: current quests by id, then zeros.
pub open spec fn slots_from_statuses_spec(statuses: Seq<CharacterQuestStatus>) -> Seq<u32> {
    let order = quest_log_order(statuses);
    Seq::new(MAX_QUEST_LOG_SIZE as nat, |i: int| if i < order.len() { order[i].quest } else { 0u32 })
}

pub fn quest_log_slots_from_statuses(statuses: &[CharacterQuestStatus]) -> (slots: [u32; 20])
    ensures
        slots@ == slots_from_statuses_spec(statuses@),
{
    let sorted = active_quest_statuses_sorted(statuses);
    let mut slots = [0u32; 20];
    let mut i: usize = 0;
    while i < sorted.len() && i < MAX_QUEST_LOG_SIZE
        invariant
            i <= MAX_QUEST_LOG_SIZE,
            i <= sorted.len(),
            sorted@ == quest_log_order(statuses@),
            slots@.len() == 20,
            forall|j: int| 0 <= j < i ==> slots@[j] == sorted@[j].quest,
            forall|j: int| i <= j < 20 ==> slots@[j] == 0,
        decreases sorted.len() - i,
    {
        slots[i] = sorted[i].quest;
        i += 1;
    }
    assert(slots@ =~= slots_from_statuses_spec(statuses@));
    slots
}

// ---------------------------------------------------------------------------
// Eligibility

/// A quest may start when never taken, or when repeatable and rewarded.
pub open spec fn can_be_started_spec(quest: &QuestTemplateQuery, status: Option<CharacterQuestStatus>) -> bool {
    match status {
        None => true,
        Some(state) => state.status == QUEST_STATUS_NONE
            || (quest.repeatable && state.rewarded != 0 && state.status == QUEST_STATUS_COMPLETE),
    }
}

pub fn can_quest_be_started_from_status(quest: &QuestTemplateQuery, status: Option<&CharacterQuestStatus>) -> (can: bool)
    ensures
        can == can_be_started_spec(quest, match status { Some(s) => Some(*s), None => None }),
{
    match status {
        None => true,
        Some(state) => state.status == QUEST_STATUS_NONE
            || (quest.repeatable && state.rewarded != 0 && state.status == QUEST_STATUS_COMPLETE),
    }
}

pub open spec fn race_class_spec(quest: &QuestTemplateQuery, character: ActiveCharacter) -> bool {
    (quest.required_classes == 0 || (quest.required_classes & quest_race_or_class_mask(character.class)) != 0)
        && (quest.required_races == 0 || (quest.required_races & quest_race_or_class_mask(character.race)) != 0)
}

/// The character's class and race are among those the quest allows.
pub fn satisfies_race_class(quest: &QuestTemplateQuery, character: &ActiveCharacter) -> (ok: bool)
    ensures
        ok == race_class_spec(quest, *character),
{
    let class_mask = quest_race_or_class_mask(character.class);
    if quest.required_classes != 0 && (quest.required_classes & class_mask) == 0 {
        return false;
    }
    let race_mask = quest_race_or_class_mask(character.race);
    if quest.required_races != 0 && (quest.required_races & race_mask) == 0 {
        return false;
    }
    true
}

pub open spec fn race_class_level_spec(quest: &QuestTemplateQuery, character: ActiveCharacter) -> bool {
    character.level >= quest.min_level && (quest.max_level == 0 || character.level <= quest.max_level)
        && race_class_spec(quest, character)
}

/// The character's level is within the quest's range, and race and class fit.
pub fn satisfies_race_class_level(quest: &QuestTemplateQuery, character: &ActiveCharacter) -> (ok: bool)
    ensures
        ok == race_class_level_spec(quest, *character),
{
    if character.level < quest.min_level || (quest.max_level != 0 && character.level > quest.max_level) {
        return false;
    }
    satisfies_race_class(quest, character)
}

pub open spec fn visibility_level_spec(quest: &QuestTemplateQuery, character: ActiveCharacter) -> bool {
    (quest.max_level == 0 || character.level <= quest.max_level) && character.level + QUEST_HIGH_LEVEL_HIDE_DIFF
        >= quest.min_level
}

/// A quest is shown when under its maximum level and at most
/// `QUEST_HIGH_LEVEL_HIDE_DIFF` levels above the character.
pub fn satisfies_quest_visibility_level(quest: &QuestTemplateQuery, character: &ActiveCharacter) -> (ok: bool)
    ensures
        ok == visibility_level_spec(quest, *character),
{
    if quest.max_level != 0 && character.level > quest.max_level {
        return false;
    }
    character.level as u16 + QUEST_HIGH_LEVEL_HIDE_DIFF as u16 >= quest.min_level as u16
}

pub open spec fn required_skill_spec(quest: &QuestTemplateQuery, skills: Seq<CharacterSkill>) -> bool {
    quest.required_skill == 0 || match first_skill_value(skills, quest.required_skill) {
        Some(v) => v as u32 >= quest.required_skill_value,
        None => 0 >= quest.required_skill_value,
    }
}

/// The character's value in the required skill reaches the required value.
pub fn satisfies_required_skill(quest: &QuestTemplateQuery, character_skills: &[CharacterSkill]) -> (ok: bool)
    ensures
        ok == required_skill_spec(quest, character_skills@),
{
    if quest.required_skill == 0 {
        return true;
    }
    let skill_value: u32 = match find_skill_value(character_skills, quest.required_skill) {
        Some(v) => v as u32,
        None => 0,
    };
    skill_value >= quest.required_skill_value
}

pub open spec fn standing_or_zero(reputations: Seq<CharacterReputation>, faction: u32) -> i32 {
    match first_standing(reputations, faction) {
        Some(s) => s,
        None => 0,
    }
}

pub open spec fn required_reputation_spec(quest: &QuestTemplateQuery, reputations: Seq<CharacterReputation>) -> bool {
    (quest.required_min_rep_faction == 0 || standing_or_zero(reputations, quest.required_min_rep_faction)
        >= quest.required_min_rep_value) && (quest.required_max_rep_faction == 0 || standing_or_zero(
        reputations,
        quest.required_max_rep_faction,
    ) < quest.required_max_rep_value)
}

/// Standing at least the minimum with one faction and below the maximum
/// with another (unrecorded standing counts as 0).
pub fn satisfies_required_reputation(quest: &QuestTemplateQuery, character_reputations: &[CharacterReputation]) -> (ok: bool)
    ensures
        ok == required_reputation_spec(quest, character_reputations@),
{
    if quest.required_min_rep_faction != 0 {
        let reputation = match find_standing(character_reputations, quest.required_min_rep_faction) {
            Some(s) => s,
            None => 0,
        };
        if reputation < quest.required_min_rep_value {
            return false;
        }
    }
    if quest.required_max_rep_faction != 0 {
        let reputation = match find_standing(character_reputations, quest.required_max_rep_faction) {
            Some(s) => s,
            None => 0,
        };
        if reputation >= quest.required_max_rep_value {
            return false;
        }
    }
    true
}

/// A positive previous quest must be rewarded; a negative one must be current.
pub fn satisfies_prev_quest_requirement(quest_statuses: &[CharacterQuestStatus], prev_quest_id: i32) -> (ok: bool)
    ensures
        ok == if prev_quest_id > 0 {
            match status_for(quest_statuses@, prev_quest_id as u32) {
                Some(s) => s.rewarded != 0,
                None => false,
            }
        } else if prev_quest_id < 0 {
            quest_is_current_spec(quest_statuses@, (-prev_quest_id) as u32)
        } else {
            true
        },
{
    if prev_quest_id > 0 {
        return match find_quest_status(quest_statuses, prev_quest_id as u32) {
            Some(s) => s.rewarded != 0,
            None => false,
        };
    }
    if prev_quest_id < 0 {
        let prev: u32 = if prev_quest_id == i32::MIN { 0x8000_0000u32 } else { (-prev_quest_id) as u32 };
        return quest_is_current(quest_statuses, prev);
    }
    true
}

pub open spec fn exclusive_group_spec(quest: &QuestTemplateQuery, group: Seq<u32>, statuses: Seq<CharacterQuestStatus>) -> bool {
    quest.exclusive_group <= 0 || forall|i: int| 0 <= i < group.len() ==> #[trigger] group[i] == quest.entry
        || !quest_is_current_spec(statuses, group[i])
}

/// No other quest of the same exclusive group is current.
pub fn satisfies_exclusive_group(
    quest: &QuestTemplateQuery,
    exclusive_group_quests: &[u32],
    quest_statuses: &[CharacterQuestStatus],
) -> (ok: bool)
    ensures
        ok == exclusive_group_spec(quest, exclusive_group_quests@, quest_statuses@),
{
    if quest.exclusive_group <= 0 {
        return true;
    }
    let mut i: usize = 0;
    while i < exclusive_group_quests.len()
        invariant
            quest.exclusive_group > 0,
            i <= exclusive_group_quests.len(),
            forall|j: int| 0 <= j < i ==> #[trigger] exclusive_group_quests@[j] == quest.entry
                || !quest_is_current_spec(quest_statuses@, exclusive_group_quests@[j]),
        decreases exclusive_group_quests.len() - i,
    {
        let other = exclusive_group_quests[i];
        if other != quest.entry && quest_is_current(quest_statuses, other) {
            assert(!(exclusive_group_quests@[i as int] == quest.entry
                || !quest_is_current_spec(quest_statuses@, exclusive_group_quests@[i as int])));
            return false;
        }
        i += 1;
    }
    true
}

/// The template facts the prerequisite rules read of a previous quest.
#[derive(Clone, Copy, Debug, PartialEq, Eq, Structural)]
pub struct PrevQuestTemplate {
    pub exclusive_group: i32,
    pub next_quest_id: i32,
}

/// A previous quest of a quest, with what is known of it.
#[derive(Clone, Debug)]
pub struct PrevQuestInfo {
    /// Positive: must be rewarded; negative: must be in progress.
    pub prev_quest_id: i32,
    /// The previous quest's template, when it exists.
    pub template: Option<PrevQuestTemplate>,
    /// The quests in the previous quest's exclusive group.
    pub exclusive_group_quests: Vec<u32>,
}

pub open spec fn unsigned_abs(v: i32) -> u32 {
    if v < 0 { (0 - v) as u32 } else { v as u32 }
}

/// The magnitude of `v` as an `i32`, `i32::MAX` for `i32::MIN`.
pub open spec fn abs_or_max(v: i32) -> i32 {
    if unsigned_abs(v) > i32::MAX { i32::MAX } else { unsigned_abs(v) as i32 }
}

/// Whether previous quest `prev` (with its template `t`), reached in the
/// state its sign asks for, satisfies the requirement: it does unless it
/// belongs to an exclusive group that leads to this quest, in which case
/// every other quest of the group must be in the same state.
pub open spec fn rewarded_prev_ok(quest: &QuestTemplateQuery, statuses: Seq<CharacterQuestStatus>, info: PrevQuestInfo, t: PrevQuestTemplate) -> bool {
    let prev = unsigned_abs(info.prev_quest_id);
    t.exclusive_group >= 0 || (quest.prev_quest_id != 0 && t.next_quest_id != quest.prev_quest_id) || forall|k: int|
        0 <= k < info.exclusive_group_quests@.len() ==> #[trigger] info.exclusive_group_quests@[k] == prev || (status_for(
            statuses,
            info.exclusive_group_quests@[k],
        ) matches Some(st) && st.rewarded != 0)
}

pub open spec fn current_prev_ok(quest: &QuestTemplateQuery, statuses: Seq<CharacterQuestStatus>, info: PrevQuestInfo, t: PrevQuestTemplate) -> bool {
    let prev = unsigned_abs(info.prev_quest_id);
    t.exclusive_group >= 0 || (quest.prev_quest_id != 0 && t.next_quest_id != abs_or_max(quest.prev_quest_id))
        || forall|k: int| 0 <= k < info.exclusive_group_quests@.len() ==> #[trigger] info.exclusive_group_quests@[k]
        == prev || quest_is_current_spec(statuses, info.exclusive_group_quests@[k])
}

/// The verdict of the previous quests from index `i` on: the first one
/// recorded (status and template known) in the state its sign asks for
/// decides; with none, the requirement fails.
pub open spec fn prev_requirements_from(
    quest: &QuestTemplateQuery,
    statuses: Seq<CharacterQuestStatus>,
    prevs: Seq<PrevQuestInfo>,
    i: int,
) -> bool
    decreases prevs.len() - i,
{
    if i < 0 || i >= prevs.len() {
        false
    } else {
        let info = prevs[i];
        match (status_for(statuses, unsigned_abs(info.prev_quest_id)), info.template) {
            (Some(st), Some(t)) => if info.prev_quest_id > 0 && st.rewarded != 0 {
                rewarded_prev_ok(quest, statuses, info, t)
            } else if info.prev_quest_id < 0 && quest_status_is_current(&st) {
                current_prev_ok(quest, statuses, info, t)
            } else {
                prev_requirements_from(quest, statuses, prevs, i + 1)
            },
            _ => prev_requirements_from(quest, statuses, prevs, i + 1),
        }
    }
}

pub open spec fn prev_requirements_spec(quest: &QuestTemplateQuery, statuses: Seq<CharacterQuestStatus>, prevs: Seq<PrevQuestInfo>) -> bool {
    prevs.len() == 0 || prev_requirements_from(quest, statuses, prevs, 0)
}

fn unsigned_abs_exec(v: i32) -> (a: u32)
    ensures
        a == unsigned_abs(v),
{
    if v == i32::MIN {
        0x8000_0000
    } else if v < 0 {
        (-v) as u32
    } else {
        v as u32
    }
}

fn all_other_rewarded(statuses: &[CharacterQuestStatus], group: &Vec<u32>, prev: u32) -> (ok: bool)
    ensures
        ok == forall|k: int| 0 <= k < group@.len() ==> #[trigger] group@[k] == prev || (status_for(statuses@, group@[k]) matches Some(
            st,
        ) && st.rewarded != 0),
{
    let mut k: usize = 0;
    while k < group.len()
        invariant
            k <= group.len(),
            forall|j: int| 0 <= j < k ==> #[trigger] group@[j] == prev || (status_for(statuses@, group@[j]) matches Some(st)
                && st.rewarded != 0),
        decreases group.len() - k,
    {
        let q = group[k];
        if q != prev {
            let rewarded = match find_quest_status(statuses, q) {
                Some(st) => st.rewarded != 0,
                None => false,
            };
            if !rewarded {
                assert(!(group@[k as int] == prev || (status_for(statuses@, group@[k as int]) matches Some(st)
                    && st.rewarded != 0)));
                return false;
            }
        }
        k += 1;
    }
    true
}

fn all_other_current(statuses: &[CharacterQuestStatus], group: &Vec<u32>, prev: u32) -> (ok: bool)
    ensures
        ok == forall|k: int| 0 <= k < group@.len() ==> #[trigger] group@[k] == prev || quest_is_current_spec(statuses@, group@[k]),
{
    let mut k: usize = 0;
    while k < group.len()
        invariant
            k <= group.len(),
            forall|j: int| 0 <= j < k ==> #[trigger] group@[j] == prev || quest_is_current_spec(statuses@, group@[j]),
        decreases group.len() - k,
    {
        let q = group[k];
        if q != prev && !quest_is_current(statuses, q) {
            assert(!(group@[k as int] == prev || quest_is_current_spec(statuses@, group@[k as int])));
            return false;
        }
        k += 1;
    }
    true
}

/// Whether the previous quests allow taking `quest`: true without any; else
/// the first recorded previous quest in the state its sign asks for
/// decides (see `prev_requirements_from`).
pub fn satisfies_prev_quest_requirements(
    quest: &QuestTemplateQuery,
    quest_statuses: &[CharacterQuestStatus],
    prev_quests: &[PrevQuestInfo],
) -> (ok: bool)
    ensures
        ok == prev_requirements_spec(quest, quest_statuses@, prev_quests@),
{
    if prev_quests.len() == 0 {
        return true;
    }
    let mut i: usize = 0;
    while i < prev_quests.len()
        invariant
            0 < prev_quests.len(),
            i <= prev_quests.len(),
            prev_requirements_from(quest, quest_statuses@, prev_quests@, 0) == prev_requirements_from(
                quest,
                quest_statuses@,
                prev_quests@,
                i as int,
            ),
        decreases prev_quests.len() - i,
    {
        let info = &prev_quests[i];
        let prev = unsigned_abs_exec(info.prev_quest_id);
        match (find_quest_status(quest_statuses, prev), info.template) {
            (Some(st), Some(t)) => {
                if info.prev_quest_id > 0 && st.rewarded != 0 {
                    if t.exclusive_group >= 0 {
                        return true;
                    }
                    if quest.prev_quest_id != 0 && t.next_quest_id != quest.prev_quest_id {
                        return true;
                    }
                    return all_other_rewarded(quest_statuses, &info.exclusive_group_quests, prev);
                }
                if info.prev_quest_id < 0 && quest_status_is_current(&st) {
                    if t.exclusive_group >= 0 {
                        return true;
                    }
                    let wanted: i32 = if quest.prev_quest_id == i32::MIN {
                        i32::MAX
                    } else if quest.prev_quest_id < 0 {
                        -quest.prev_quest_id
                    } else {
                        quest.prev_quest_id
                    };
                    if quest.prev_quest_id != 0 && t.next_quest_id != wanted {
                        return true;
                    }
                    return all_other_current(quest_statuses, &info.exclusive_group_quests, prev);
                }
            },
            _ => {},
        }
        i += 1;
    }
    false
}

/// Whether any of `quests` is in progress.
pub fn any_quest_current(quest_statuses: &[CharacterQuestStatus], quests: &[u32]) -> (any: bool)
    ensures
        any == exists|k: int| 0 <= k < quests@.len() && quest_is_current_spec(quest_statuses@, #[trigger] quests@[k]),
{
    let mut k: usize = 0;
    while k < quests.len()
        invariant
            k <= quests.len(),
            forall|j: int| 0 <= j < k ==> !quest_is_current_spec(quest_statuses@, #[trigger] quests@[j]),
        decreases quests.len() - k,
    {
        if quest_is_current(quest_statuses, quests[k]) {
            assert(quest_is_current_spec(quest_statuses@, quests@[k as int]));
            return true;
        }
        k += 1;
    }
    false
}

/// What the start rules know beyond the character and its quest statuses:
/// the verdict on the quest's condition, its previous quests, the quests
/// whose chain leads to it, and its exclusive group.
pub struct QuestStartFacts {
    pub condition_satisfied: bool,
    pub prev_quests: Vec<PrevQuestInfo>,
    pub prev_chain_quests: Vec<u32>,
    pub exclusive_group_quests: Vec<u32>,
}

/// The checks a quest passes after the level and race checks, shared by
/// taking and seeing it.
pub open spec fn start_rules_spec(
    quest: &QuestTemplateQuery,
    skills: Seq<CharacterSkill>,
    reputations: Seq<CharacterReputation>,
    statuses: Seq<CharacterQuestStatus>,
    facts: QuestStartFacts,
) -> bool {
    &&& required_skill_spec(quest, skills)
    &&& facts.condition_satisfied
    &&& required_reputation_spec(quest, reputations)
    &&& can_be_started_spec(quest, status_for(statuses, quest.entry))
    &&& prev_requirements_spec(quest, statuses, facts.prev_quests@)
    &&& !(exists|k: int| 0 <= k < facts.prev_chain_quests@.len() && quest_is_current_spec(statuses, #[trigger] facts.prev_chain_quests@[k]))
    &&& !(quest.next_quest_in_chain != 0 && quest_is_current_spec(statuses, quest.next_quest_in_chain))
    &&& exclusive_group_spec(quest, facts.exclusive_group_quests@, statuses)
}

fn start_rules(
    quest: &QuestTemplateQuery,
    character_skills: &[CharacterSkill],
    character_reputations: &[CharacterReputation],
    quest_statuses: &[CharacterQuestStatus],
    facts: &QuestStartFacts,
) -> (ok: bool)
    ensures
        ok == start_rules_spec(quest, character_skills@, character_reputations@, quest_statuses@, *facts),
{
    if !satisfies_required_skill(quest, character_skills) {
        return false;
    }
    if !facts.condition_satisfied {
        return false;
    }
    if !satisfies_required_reputation(quest, character_reputations) {
        return false;
    }
    let status = find_quest_status(quest_statuses, quest.entry);
    let started = match &status {
        Some(s) => can_quest_be_started_from_status(quest, Some(s)),
        None => can_quest_be_started_from_status(quest, None),
    };
    if !started {
        return false;
    }
    if !satisfies_prev_quest_requirements(quest, quest_statuses, facts.prev_quests.as_slice()) {
        return false;
    }
    if any_quest_current(quest_statuses, facts.prev_chain_quests.as_slice()) {
        return false;
    }
    if quest.next_quest_in_chain != 0 && quest_is_current(quest_statuses, quest.next_quest_in_chain) {
        return false;
    }
    satisfies_exclusive_group(quest, facts.exclusive_group_quests.as_slice(), quest_statuses)
}

/// Whether the character may take `quest` now: level, race and class fit,
/// and the shared start rules hold.
pub fn can_take_start_quest(
    quest: &QuestTemplateQuery,
    character: &ActiveCharacter,
    character_skills: &[CharacterSkill],
    character_reputations: &[CharacterReputation],
    quest_statuses: &[CharacterQuestStatus],
    facts: &QuestStartFacts,
) -> (ok: bool)
    ensures
        ok == (race_class_level_spec(quest, *character) && start_rules_spec(
            quest,
            character_skills@,
            character_reputations@,
            quest_statuses@,
            *facts,
        )),
{
    satisfies_race_class_level(quest, character) && start_rules(
        quest,
        character_skills,
        character_reputations,
        quest_statuses,
        facts,
    )
}

/// Whether the character sees `quest` offered (perhaps not yet takeable):
/// race and class fit, the level is close enough, and the shared start
/// rules hold.
pub fn can_see_start_quest(
    quest: &QuestTemplateQuery,
    character: &ActiveCharacter,
    character_skills: &[CharacterSkill],
    character_reputations: &[CharacterReputation],
    quest_statuses: &[CharacterQuestStatus],
    facts: &QuestStartFacts,
) -> (ok: bool)
    ensures
        ok == (race_class_spec(quest, *character) && visibility_level_spec(quest, *character) && start_rules_spec(
            quest,
            character_skills@,
            character_reputations@,
            quest_statuses@,
            *facts,
        )),
{
    satisfies_race_class(quest, character) && satisfies_quest_visibility_level(quest, character) && start_rules(
        quest,
        character_skills,
        character_reputations,
        quest_statuses,
        facts,
    )
}

/// The questgiver mark for a start quest: available, unavailable, or none.
pub fn start_quest_dialog_status(can_take: bool, can_see: bool) -> (status: Option<u32>)
    ensures
        status == if can_take {
            Some(DIALOG_STATUS_AVAILABLE)
        } else if can_see {
            Some(DIALOG_STATUS_UNAVAILABLE)
        } else {
            None
        },
{
    if can_take {
        Some(DIALOG_STATUS_AVAILABLE)
    } else if can_see {
        Some(DIALOG_STATUS_UNAVAILABLE)
    } else {
        None
    }
}


// ---------------------------------------------------------------------------
// Completion

/// How many items of template `item_id` the inventory holds.
pub open spec fn count_of_template(inventory: Seq<CharacterInventoryItem>, item_id: u32) -> nat
    decreases inventory.len(),
{
    if inventory.len() == 0 {
        0
    } else {
        count_of_template(inventory.drop_last(), item_id) + if inventory.last().item_template == item_id {
            inventory.last().count as nat
        } else {
            0
        }
    }
}

/// Every per-template item total fits in 32 bits.
pub open spec fn inventory_counts_fit(inventory: Seq<CharacterInventoryItem>) -> bool {
    forall|id: u32| #[trigger] count_of_template(inventory, id) <= u32::MAX
}

pub proof fn lemma_count_prefix(inventory: Seq<CharacterInventoryItem>, item_id: u32, n: int)
    requires
        0 <= n <= inventory.len(),
    ensures
        count_of_template(inventory.take(n), item_id) <= count_of_template(inventory, item_id),
    decreases inventory.len() - n,
{
    if n < inventory.len() {
        assert(inventory.take(n + 1).drop_last() =~= inventory.take(n));
        lemma_count_prefix(inventory, item_id, n + 1);
    } else {
        assert(inventory.take(n) =~= inventory);
    }
}

/// The number of items of `item_id` carried or banked.
pub fn quest_inventory_item_count(inventory: &[CharacterInventoryItem], item_id: u32) -> (count: u32)
    requires
        count_of_template(inventory@, item_id) <= u32::MAX,
    ensures
        count as nat == count_of_template(inventory@, item_id),
{
    let mut total: u32 = 0;
    let mut i: usize = 0;
    while i < inventory.len()
        invariant
            i <= inventory.len(),
            count_of_template(inventory@, item_id) <= u32::MAX,
            total as nat == count_of_template(inventory@.take(i as int), item_id),
        decreases inventory.len() - i,
    {
        assert(inventory@.take(i + 1).drop_last() =~= inventory@.take(i as int));
        proof { lemma_count_prefix(inventory@, item_id, (i + 1) as int); }
        if inventory[i].item_template == item_id {
            total = total + inventory[i].count;
        }
        i += 1;
    }
    assert(inventory@.take(inventory@.len() as int) =~= inventory@);
    total
}

/// The quest asks for some item.
pub fn quest_has_required_items(quest: &QuestTemplateQuery) -> (has: bool)
    ensures
        has == exists|i: int| 0 <= i < 4 && #[trigger] quest.req_item_id@[i] != 0 && quest.req_item_count@[i] != 0,
{
    let mut i: usize = 0;
    while i < 4
        invariant
            i <= 4,
            forall|j: int| 0 <= j < i ==> !(#[trigger] quest.req_item_id@[j] != 0 && quest.req_item_count@[j] != 0),
        decreases 4 - i,
    {
        if quest.req_item_id[i] != 0 && quest.req_item_count[i] != 0 {
            return true;
        }
        i += 1;
    }
    false
}

pub open spec fn required_items_satisfied_spec(quest: &QuestTemplateQuery, inventory: Seq<CharacterInventoryItem>) -> bool {
    forall|i: int| 0 <= i < 4 ==> (#[trigger] quest.req_item_id@[i] == 0 || quest.req_item_count@[i] == 0
        || count_of_template(inventory, quest.req_item_id@[i]) >= quest.req_item_count@[i])
}

/// The inventory holds every required item in its required count.
pub fn quest_required_items_satisfied(quest: &QuestTemplateQuery, inventory: &[CharacterInventoryItem]) -> (ok: bool)
    requires
        inventory_counts_fit(inventory@),
    ensures
        ok == required_items_satisfied_spec(quest, inventory@),
{
    let mut i: usize = 0;
    while i < 4
        invariant
            i <= 4,
            inventory_counts_fit(inventory@),
            forall|j: int| 0 <= j < i ==> (#[trigger] quest.req_item_id@[j] == 0 || quest.req_item_count@[j] == 0
                || count_of_template(inventory@, quest.req_item_id@[j]) >= quest.req_item_count@[j]),
        decreases 4 - i,
    {
        let item_id = quest.req_item_id[i];
        let required = quest.req_item_count[i];
        if item_id != 0 && required != 0 {
            assert(count_of_template(inventory@, item_id) <= u32::MAX);
            if quest_inventory_item_count(inventory, item_id) < required {
                return false;
            }
        }
        i += 1;
    }
    true
}

/// The kill/use count recorded for objective `index` (0 past the fourth).
#[verifier::allow_in_spec]
pub fn quest_status_creature_or_go_count(status: &CharacterQuestStatus, index: usize) -> u32
    returns
        (if index == 0 {
            status.mobcount1
        } else if index == 1 {
            status.mobcount2
        } else if index == 2 {
            status.mobcount3
        } else if index == 3 {
            status.mobcount4
        } else {
            0
        }),
{
    if index == 0 {
        status.mobcount1
    } else if index == 1 {
        status.mobcount2
    } else if index == 2 {
        status.mobcount3
    } else if index == 3 {
        status.mobcount4
    } else {
        0
    }
}

pub open spec fn objectives_satisfied_spec(status: &CharacterQuestStatus, quest: &QuestTemplateQuery) -> bool {
    forall|i: int| 0 <= i < 4 ==> (#[trigger] quest.req_creature_or_go_id@[i] == 0 || quest.req_creature_or_go_count@[i] == 0
        || quest_status_creature_or_go_count(status, i as usize) >= quest.req_creature_or_go_count@[i])
}

/// Every creature/object objective has reached its count.
pub fn quest_creature_or_go_objectives_satisfied(status: &CharacterQuestStatus, quest: &QuestTemplateQuery) -> (ok: bool)
    ensures
        ok == objectives_satisfied_spec(status, quest),
{
    let mut i: usize = 0;
    while i < 4
        invariant
            i <= 4,
            forall|j: int| 0 <= j < i ==> (#[trigger] quest.req_creature_or_go_id@[j] == 0 || quest.req_creature_or_go_count@[j] == 0
                || quest_status_creature_or_go_count(status, j as usize) >= quest.req_creature_or_go_count@[j]),
        decreases 4 - i,
    {
        if quest.req_creature_or_go_id[i] != 0 && quest.req_creature_or_go_count[i] != 0
            && quest_status_creature_or_go_count(status, i) < quest.req_creature_or_go_count[i] {
            return false;
        }
        i += 1;
    }
    true
}

/// Exploration/event objectives and reputation objectives are not tracked.
#[verifier::allow_in_spec]
pub fn quest_has_unsupported_completion_requirements(quest: &QuestTemplateQuery) -> bool
    returns
        (quest.special_flags & QUEST_SPECIAL_FLAG_EXPLORATION_OR_EVENT) != 0 || quest.rep_objective_faction != 0,
{
    (quest.special_flags & QUEST_SPECIAL_FLAG_EXPLORATION_OR_EVENT) != 0 || quest.rep_objective_faction != 0
}

pub open spec fn completion_requirements_spec(
    status: &CharacterQuestStatus,
    quest: &QuestTemplateQuery,
    inventory: Seq<CharacterInventoryItem>,
) -> bool {
    !quest_has_unsupported_completion_requirements(quest) && objectives_satisfied_spec(status, quest)
        && required_items_satisfied_spec(quest, inventory)
}

pub fn quest_completion_requirements_satisfied(
    status: &CharacterQuestStatus,
    quest: &QuestTemplateQuery,
    inventory: &[CharacterInventoryItem],
) -> (ok: bool)
    requires
        inventory_counts_fit(inventory@),
    ensures
        ok == completion_requirements_spec(status, quest, inventory@),
{
    if quest_has_unsupported_completion_requirements(quest) {
        return false;
    }
    quest_creature_or_go_objectives_satisfied(status, quest) && quest_required_items_satisfied(quest, inventory)
}

/// An incomplete, unrewarded quest whose requirements are met.
pub open spec fn can_complete_spec(
    status: &CharacterQuestStatus,
    quest: &QuestTemplateQuery,
    inventory: Seq<CharacterInventoryItem>,
) -> bool {
    status.rewarded == 0 && status.status == QUEST_STATUS_INCOMPLETE && completion_requirements_spec(status, quest, inventory)
}

/// A current (complete or incomplete), unrewarded quest whose requirements
/// are met.
pub open spec fn can_reward_from_inventory_spec(
    status: &CharacterQuestStatus,
    quest: &QuestTemplateQuery,
    inventory: Seq<CharacterInventoryItem>,
) -> bool {
    status.rewarded == 0 && (status.status == QUEST_STATUS_COMPLETE || status.status == QUEST_STATUS_INCOMPLETE)
        && completion_requirements_spec(status, quest, inventory)
}

/// An incomplete, unrewarded quest whose requirements are met.
pub fn quest_status_can_complete(
    status: &CharacterQuestStatus,
    quest: &QuestTemplateQuery,
    inventory: &[CharacterInventoryItem],
) -> (ok: bool)
    requires
        inventory_counts_fit(inventory@),
    ensures
        ok == can_complete_spec(status, quest, inventory@),
{
    status.rewarded == 0 && status.status == QUEST_STATUS_INCOMPLETE
        && quest_completion_requirements_satisfied(status, quest, inventory)
}

/// A current, unrewarded quest whose requirements are met.
pub fn quest_status_can_reward_from_inventory(
    status: &CharacterQuestStatus,
    quest: &QuestTemplateQuery,
    inventory: &[CharacterInventoryItem],
) -> (ok: bool)
    requires
        inventory_counts_fit(inventory@),
    ensures
        ok == can_reward_from_inventory_spec(status, quest, inventory@),
{
    status.rewarded == 0 && (status.status == QUEST_STATUS_COMPLETE || status.status == QUEST_STATUS_INCOMPLETE)
        && quest_completion_requirements_satisfied(status, quest, inventory)
}

/// A quest with no creature/object objective whose items are all held.
pub fn quest_can_complete_from_inventory(quest: &QuestTemplateQuery, inventory: &[CharacterInventoryItem]) -> (ok: bool)
    requires
        inventory_counts_fit(inventory@),
    ensures
        ok == (!quest_has_unsupported_completion_requirements(quest)
            && (forall|i: int| 0 <= i < 4 ==> #[trigger] quest.req_creature_or_go_id@[i] == 0 || quest.req_creature_or_go_count@[i] == 0)
            && required_items_satisfied_spec(quest, inventory@)),
{
    if quest_has_unsupported_completion_requirements(quest) {
        return false;
    }
    let mut i: usize = 0;
    while i < 4
        invariant
            i <= 4,
            forall|j: int| 0 <= j < i ==> #[trigger] quest.req_creature_or_go_id@[j] == 0 || quest.req_creature_or_go_count@[j] == 0,
        decreases 4 - i,
    {
        if quest.req_creature_or_go_id[i] != 0 && quest.req_creature_or_go_count[i] != 0 {
            return false;
        }
        i += 1;
    }
    quest_required_items_satisfied(quest, inventory)
}

/// The request-items page is skipped without text, or once complete when no
/// item is required.
pub fn quest_request_items_skips_to_offer_reward(quest: &QuestTemplateQuery, complete: bool) -> (skips: bool)
    ensures
        skips == (quest.request_items_text@.len() == 0 || (complete
            && forall|i: int| 0 <= i < 4 ==> #[trigger] quest.req_item_id@[i] == 0)),
{
    if quest.request_items_text.as_str().is_empty() {
        return true;
    }
    if !complete {
        return false;
    }
    let mut i: usize = 0;
    while i < 4
        invariant
            i <= 4,
            complete,
            quest.request_items_text@.len() != 0,
            forall|j: int| 0 <= j < i ==> #[trigger] quest.req_item_id@[j] == 0,
        decreases 4 - i,
    {
        if quest.req_item_id[i] != 0 {
            return false;
        }
        i += 1;
    }
    true
}

// ---------------------------------------------------------------------------
// Rewards

#[derive(Clone, Copy, Debug, PartialEq, Eq, Structural)]
pub struct QuestRewardItem {
    pub item: u32,
    pub count: u32,
}

/// The fixed reward items (non-zero id and count), in order.
pub open spec fn fixed_reward_items(quest: &QuestTemplateQuery, n: int) -> Seq<QuestRewardItem>
    decreases n,
{
    if n <= 0 {
        Seq::empty()
    } else {
        fixed_reward_items(quest, n - 1) + if quest.rew_item_id@[n - 1] != 0 && quest.rew_item_count@[n - 1] != 0 {
            seq![QuestRewardItem { item: quest.rew_item_id@[n - 1], count: quest.rew_item_count@[n - 1] }]
        } else {
            Seq::empty()
        }
    }
}

pub open spec fn has_choice_reward(quest: &QuestTemplateQuery) -> bool {
    exists|i: int| 0 <= i < 6 && #[trigger] quest.rew_choice_item_id@[i] != 0 && quest.rew_choice_item_count@[i] != 0
}

/// The items a quest grants for choice `reward`: the chosen item (when the
/// quest offers a choice; the choice must name a valid option) then the
/// fixed rewards.
pub open spec fn selected_reward_items_spec(quest: &QuestTemplateQuery, reward: u32) -> Option<Seq<QuestRewardItem>> {
    if has_choice_reward(quest) {
        if reward < 6 && quest.rew_choice_item_id@[reward as int] != 0 && quest.rew_choice_item_count@[reward as int] != 0 {
            Some(seq![QuestRewardItem {
                item: quest.rew_choice_item_id@[reward as int],
                count: quest.rew_choice_item_count@[reward as int],
            }] + fixed_reward_items(quest, 4))
        } else {
            None
        }
    } else {
        Some(fixed_reward_items(quest, 4))
    }
}

pub fn selected_quest_reward_items(quest: &QuestTemplateQuery, reward: u32) -> (items: Option<Vec<QuestRewardItem>>)
    ensures
        match items {
            Some(v) => selected_reward_items_spec(quest, reward) == Some(v@),
            None => selected_reward_items_spec(quest, reward) is None,
        },
{
    let mut items: Vec<QuestRewardItem> = Vec::new();
    let mut has_choice = false;
    let mut c: usize = 0;
    while c < 6
        invariant
            c <= 6,
            has_choice == exists|j: int| 0 <= j < c && #[trigger] quest.rew_choice_item_id@[j] != 0
                && quest.rew_choice_item_count@[j] != 0,
        decreases 6 - c,
    {
        if quest.rew_choice_item_id[c] != 0 && quest.rew_choice_item_count[c] != 0 {
            has_choice = true;
        }
        c += 1;
    }
    if has_choice {
        if reward >= 6 {
            return None;
        }
        let item = quest.rew_choice_item_id[reward as usize];
        let count = quest.rew_choice_item_count[reward as usize];
        if item == 0 || count == 0 {
            return None;
        }
        items.push(QuestRewardItem { item, count });
    }
    let ghost prefix = items@;
    let mut i: usize = 0;
    while i < 4
        invariant
            i <= 4,
            items@ == prefix + fixed_reward_items(quest, i as int),
        decreases 4 - i,
    {
        if quest.rew_item_id[i] != 0 && quest.rew_item_count[i] != 0 {
            items.push(QuestRewardItem { item: quest.rew_item_id[i], count: quest.rew_item_count[i] });
        }
        assert(items@ =~= prefix + fixed_reward_items(quest, i + 1));
        i += 1;
    }
    Some(items)
}


// ---------------------------------------------------------------------------
// Planned inventory changes

/// Backpack slots with no item, in slot order, among slots `start..end`.
pub open spec fn free_backpack_slots(inventory: Seq<CharacterInventoryItem>, end: int) -> Seq<u8>
    decreases end - INVENTORY_SLOT_ITEM_START,
{
    if end <= INVENTORY_SLOT_ITEM_START {
        Seq::empty()
    } else {
        free_backpack_slots(inventory, end - 1) + if forall|i: int| 0 <= i < inventory.len()
            ==> !(#[trigger] inventory[i].bag == INVENTORY_SLOT_BAG_0 as u32 && inventory[i].slot == end - 1) {
            seq![(end - 1) as u8]
        } else {
            Seq::empty()
        }
    }
}

/// The empty backpack slots, in slot order.
pub fn empty_backpack_slots(inventory: &[CharacterInventoryItem]) -> (slots: Vec<u8>)
    ensures
        slots@ == free_backpack_slots(inventory@, INVENTORY_SLOT_ITEM_END as int),
{
    let mut slots: Vec<u8> = Vec::new();
    let mut slot: u8 = INVENTORY_SLOT_ITEM_START;
    while slot < INVENTORY_SLOT_ITEM_END
        invariant
            INVENTORY_SLOT_ITEM_START <= slot <= INVENTORY_SLOT_ITEM_END,
            slots@ == free_backpack_slots(inventory@, slot as int),
        decreases INVENTORY_SLOT_ITEM_END - slot,
    {
        let mut i: usize = 0;
        let mut free = true;
        while i < inventory.len()
            invariant
                i <= inventory.len(),
                free == forall|j: int| 0 <= j < i ==> !(#[trigger] inventory@[j].bag == INVENTORY_SLOT_BAG_0 as u32
                    && inventory@[j].slot == slot),
            decreases inventory.len() - i,
        {
            if inventory[i].bag == INVENTORY_SLOT_BAG_0 as u32 && inventory[i].slot == slot {
                free = false;
            }
            i += 1;
        }
        proof {
            if !free {
                let k = choose|j: int| 0 <= j < inventory@.len() && #[trigger] inventory@[j].bag == INVENTORY_SLOT_BAG_0 as u32
                    && inventory@[j].slot == slot;
                assert(inventory@[k].slot == (slot + 1) - 1);
            }
        }
        if free {
            slots.push(slot);
        }
        slot += 1;
    }
    slots
}

/// The stacks of template `item_id`, in inventory order.
pub open spec fn stacks_of(inventory: Seq<CharacterInventoryItem>, item_id: u32) -> Seq<CharacterInventoryItem>
    decreases inventory.len(),
{
    if inventory.len() == 0 {
        Seq::empty()
    } else {
        stacks_of(inventory.drop_last(), item_id) + if inventory.last().item_template == item_id {
            seq![inventory.last()]
        } else {
            Seq::empty()
        }
    }
}

/// One stack a quest turn-in takes items from.
#[derive(Clone, Copy, Debug, PartialEq, Eq, Structural)]
pub struct QuestRequiredItemConsume {
    pub bag: u32,
    pub slot: u8,
    pub count: u32,
    pub removes_stack: bool,
}

/// Take `remaining` items from `stacks` front to back.
pub open spec fn consume_from(stacks: Seq<CharacterInventoryItem>, remaining: nat) -> Seq<QuestRequiredItemConsume>
    decreases stacks.len(),
{
    if remaining == 0 || stacks.len() == 0 {
        Seq::empty()
    } else {
        let item = stacks[0];
        let take: nat = if remaining < item.count { remaining } else { item.count as nat };
        seq![QuestRequiredItemConsume { bag: item.bag, slot: item.slot, count: take as u32, removes_stack: take >= item.count }]
            + consume_from(stacks.drop_first(), (remaining - take) as nat)
    }
}

/// The consumes of the first `n` required items: each takes its count from
/// that item's stacks in storage order (backpack first).
pub open spec fn required_item_consumes(quest: &QuestTemplateQuery, inventory: Seq<CharacterInventoryItem>, n: int) -> Seq<QuestRequiredItemConsume>
    decreases n,
{
    if n <= 0 {
        Seq::empty()
    } else {
        let id = quest.req_item_id@[n - 1];
        let count = quest.req_item_count@[n - 1];
        required_item_consumes(quest, inventory, n - 1) + if id == 0 || count == 0 {
            Seq::empty()
        } else {
            consume_from(sort_by_key(stacks_of(inventory, id), storage_key()), count as nat)
        }
    }
}

fn sorted_stacks_of(inventory: &[CharacterInventoryItem], item_id: u32) -> (stacks: Vec<CharacterInventoryItem>)
    ensures
        stacks@ == sort_by_key(stacks_of(inventory@, item_id), storage_key()),
{
    let mut stacks: Vec<CharacterInventoryItem> = Vec::new();
    let ghost mut matching: Seq<CharacterInventoryItem> = Seq::empty();
    let mut i: usize = 0;
    while i < inventory.len()
        invariant
            i <= inventory.len(),
            matching == stacks_of(inventory@.take(i as int), item_id),
            stacks@ == sort_by_key(matching, storage_key()),
        decreases inventory.len() - i,
    {
        assert(inventory@.take(i + 1).drop_last() =~= inventory@.take(i as int));
        let item = inventory[i];
        if item.item_template == item_id {
            insert_item_by_storage_order(&mut stacks, item);
            proof {
                assert(matching.push(item).drop_last() =~= matching);
                matching = matching.push(item);
            }
        }
        proof { assert(matching =~= stacks_of(inventory@.take(i + 1), item_id)); }
        i += 1;
    }
    assert(inventory@.take(inventory@.len() as int) =~= inventory@);
    stacks
}

/// The stacks a quest turn-in takes its required items from.
pub fn quest_required_item_inventory_slots(
    quest: &QuestTemplateQuery,
    inventory: &[CharacterInventoryItem],
) -> (consumes: Vec<QuestRequiredItemConsume>)
    ensures
        consumes@ == required_item_consumes(quest, inventory@, 4),
{
    let mut consumes: Vec<QuestRequiredItemConsume> = Vec::new();
    let mut r: usize = 0;
    while r < 4
        invariant
            r <= 4,
            consumes@ == required_item_consumes(quest, inventory@, r as int),
        decreases 4 - r,
    {
        let required_item = quest.req_item_id[r];
        let required_count = quest.req_item_count[r];
        if required_item != 0 && required_count != 0 {
            let stacks = sorted_stacks_of(inventory, required_item);
            let ghost before = consumes@;
            let mut remaining = required_count;
            let mut k: usize = 0;
            assert(stacks@.skip(0) =~= stacks@);
            while k < stacks.len() && remaining > 0
                invariant
                    k <= stacks.len(),
                    before + consume_from(stacks@, required_count as nat)
                        == consumes@ + consume_from(stacks@.skip(k as int), remaining as nat),
                decreases stacks.len() - k,
            {
                let item = stacks[k];
                let count = if remaining < item.count { remaining } else { item.count };
                proof {
                    assert(stacks@.skip(k as int).drop_first() =~= stacks@.skip(k + 1));
                    assert(stacks@.skip(k as int)[0] == item);
                    let c = QuestRequiredItemConsume { bag: item.bag, slot: item.slot, count, removes_stack: count >= item.count };
                    assert(consumes@.push(c) + consume_from(stacks@.skip(k + 1), (remaining - count) as nat)
                        =~= consumes@ + (seq![c] + consume_from(stacks@.skip(k + 1), (remaining - count) as nat)));
                }
                consumes.push(QuestRequiredItemConsume {
                    bag: item.bag,
                    slot: item.slot,
                    count,
                    removes_stack: count >= item.count,
                });
                remaining = remaining - count;
                k += 1;
            }
            proof {
                assert(consume_from(stacks@.skip(k as int), remaining as nat) =~= Seq::empty());
                assert(consumes@ =~= required_item_consumes(quest, inventory@, r + 1));
            }
        } else {
            assert(consumes@ =~= required_item_consumes(quest, inventory@, r + 1));
        }
        r += 1;
    }
    consumes
}

/// The index of the first item at `(bag, slot)`.
pub open spec fn first_index_at(inventory: Seq<CharacterInventoryItem>, bag: u32, slot: u8) -> Option<int>
    decreases inventory.len(),
{
    if inventory.len() == 0 {
        None
    } else {
        match first_index_at(inventory.drop_last(), bag, slot) {
            Some(i) => Some(i),
            None => if inventory.last().bag == bag && inventory.last().slot == slot {
                Some(inventory.len() - 1)
            } else {
                None
            },
        }
    }
}

proof fn lemma_first_index_at_prefix(inventory: Seq<CharacterInventoryItem>, bag: u32, slot: u8, n: int)
    requires
        0 <= n <= inventory.len(),
        first_index_at(inventory.take(n), bag, slot) is Some,
    ensures
        first_index_at(inventory, bag, slot) == first_index_at(inventory.take(n), bag, slot),
    decreases inventory.len() - n,
{
    if n < inventory.len() {
        assert(inventory.take(n + 1).drop_last() =~= inventory.take(n));
        lemma_first_index_at_prefix(inventory, bag, slot, n + 1);
    } else {
        assert(inventory.take(n) =~= inventory);
    }
}

proof fn lemma_first_index_at_bounds(inventory: Seq<CharacterInventoryItem>, bag: u32, slot: u8)
    ensures
        first_index_at(inventory, bag, slot) matches Some(i) ==> 0 <= i < inventory.len(),
    decreases inventory.len(),
{
    if inventory.len() > 0 {
        lemma_first_index_at_bounds(inventory.drop_last(), bag, slot);
    }
}

fn find_index_at(inventory: &Vec<CharacterInventoryItem>, bag: u32, slot: u8) -> (index: Option<usize>)
    ensures
        match index {
            Some(i) => first_index_at(inventory@, bag, slot) == Some(i as int) && i < inventory@.len(),
            None => first_index_at(inventory@, bag, slot) is None,
        },
{
    let mut i: usize = 0;
    while i < inventory.len()
        invariant
            i <= inventory.len(),
            first_index_at(inventory@.take(i as int), bag, slot) is None,
        decreases inventory.len() - i,
    {
        assert(inventory@.take(i + 1).drop_last() =~= inventory@.take(i as int));
        if inventory[i].bag == bag && inventory[i].slot == slot {
            proof { lemma_first_index_at_prefix(inventory@, bag, slot, (i + 1) as int); }
            return Some(i);
        }
        i += 1;
    }
    assert(inventory@.take(inventory@.len() as int) =~= inventory@);
    None
}

/// The planned inventory after one consume: the stack at its position loses
/// `count` items, or goes away when it is used up or marked removed.
pub open spec fn apply_consume(inventory: Seq<CharacterInventoryItem>, consume: QuestRequiredItemConsume) -> Seq<CharacterInventoryItem> {
    match first_index_at(inventory, consume.bag, consume.slot) {
        None => inventory,
        Some(i) => if consume.removes_stack || inventory[i].count <= consume.count {
            inventory.remove(i)
        } else {
            inventory.update(i, CharacterInventoryItem { count: (inventory[i].count - consume.count) as u32, ..inventory[i] })
        },
    }
}

pub open spec fn apply_consumes(inventory: Seq<CharacterInventoryItem>, consumes: Seq<QuestRequiredItemConsume>) -> Seq<CharacterInventoryItem>
    decreases consumes.len(),
{
    if consumes.len() == 0 {
        inventory
    } else {
        apply_consume(apply_consumes(inventory, consumes.drop_last()), consumes.last())
    }
}

/// Applies turn-in consumes to a planned inventory, in order.
pub fn apply_required_item_consumes_to_planned_inventory(
    inventory: &mut Vec<CharacterInventoryItem>,
    required_consumes: &[QuestRequiredItemConsume],
)
    ensures
        final(inventory)@ == apply_consumes(old(inventory)@, required_consumes@),
{
    let ghost start = inventory@;
    let mut c: usize = 0;
    while c < required_consumes.len()
        invariant
            c <= required_consumes.len(),
            inventory@ == apply_consumes(start, required_consumes@.take(c as int)),
        decreases required_consumes.len() - c,
    {
        assert(required_consumes@.take(c + 1).drop_last() =~= required_consumes@.take(c as int));
        let consume = required_consumes[c];
        match find_index_at(inventory, consume.bag, consume.slot) {
            None => {},
            Some(index) => {
                if consume.removes_stack || inventory[index].count <= consume.count {
                    inventory.remove(index);
                } else {
                    let mut item = inventory[index];
                    item.count = item.count - consume.count;
                    inventory.set(index, item);
                }
            },
        }
        c += 1;
    }
    assert(required_consumes@.take(required_consumes@.len() as int) =~= required_consumes@);
}

/// An item a quest reward grants, with the template it is stored by.
#[derive(Clone, Copy, Debug, PartialEq, Eq, Structural)]
pub struct QuestRewardGrant {
    pub item: u32,
    pub count: u32,
    pub max_durability: u32,
    pub container_slots: Option<u32>,
    pub template: ItemTemplateQuery,
}

/// The index of the first item instance `guid`.
pub open spec fn first_index_of_item(inventory: Seq<CharacterInventoryItem>, guid: u32) -> Option<int>
    decreases inventory.len(),
{
    if inventory.len() == 0 {
        None
    } else {
        match first_index_of_item(inventory.drop_last(), guid) {
            Some(i) => Some(i),
            None => if inventory.last().item == guid { Some(inventory.len() - 1) } else { None },
        }
    }
}

proof fn lemma_first_index_of_item_prefix(inventory: Seq<CharacterInventoryItem>, guid: u32, n: int)
    requires
        0 <= n <= inventory.len(),
        first_index_of_item(inventory.take(n), guid) is Some,
    ensures
        first_index_of_item(inventory, guid) == first_index_of_item(inventory.take(n), guid),
    decreases inventory.len() - n,
{
    if n < inventory.len() {
        assert(inventory.take(n + 1).drop_last() =~= inventory.take(n));
        lemma_first_index_of_item_prefix(inventory, guid, n + 1);
    } else {
        assert(inventory.take(n) =~= inventory);
    }
}

fn find_item_index(inventory: &Vec<CharacterInventoryItem>, guid: u32) -> (index: Option<usize>)
    ensures
        match index {
            Some(i) => first_index_of_item(inventory@, guid) == Some(i as int) && i < inventory@.len(),
            None => first_index_of_item(inventory@, guid) is None,
        },
{
    let mut i: usize = 0;
    while i < inventory.len()
        invariant
            i <= inventory.len(),
            first_index_of_item(inventory@.take(i as int), guid) is None,
        decreases inventory.len() - i,
    {
        assert(inventory@.take(i + 1).drop_last() =~= inventory@.take(i as int));
        if inventory[i].item == guid {
            proof { lemma_first_index_of_item_prefix(inventory@, guid, (i + 1) as int); }
            return Some(i);
        }
        i += 1;
    }
    assert(inventory@.take(inventory@.len() as int) =~= inventory@);
    None
}

/// The planned inventory after one store destination: an existing stack
/// grows (saturating), or a placeholder stack fills the empty slot.
pub open spec fn apply_store_slot(
    inventory: Seq<CharacterInventoryItem>,
    reward: QuestRewardGrant,
    slot: StoreSlot,
) -> Seq<CharacterInventoryItem> {
    match slot.existing_item {
        Some(guid) => match first_index_of_item(inventory, guid) {
            Some(i) => inventory.update(i, CharacterInventoryItem {
                count: if inventory[i].count + slot.count > u32::MAX { u32::MAX } else { (inventory[i].count + slot.count) as u32 },
                ..inventory[i]
            }),
            None => inventory,
        },
        None => inventory.push(CharacterInventoryItem {
            bag: slot.bag as u32,
            slot: slot.slot,
            item: 0,
            item_template: 0,
            count: slot.count,
            random_property_id: 0,
            durability: reward.max_durability,
        }),
    }
}

pub open spec fn apply_store_plan(
    inventory: Seq<CharacterInventoryItem>,
    reward: QuestRewardGrant,
    plan: Seq<StoreSlot>,
) -> Seq<CharacterInventoryItem>
    decreases plan.len(),
{
    if plan.len() == 0 {
        inventory
    } else {
        apply_store_slot(apply_store_plan(inventory, reward, plan.drop_last()), reward, plan.last())
    }
}

/// Applies a reward's store plan to a planned inventory.
pub fn apply_store_plan_to_planned_inventory(
    inventory: &mut Vec<CharacterInventoryItem>,
    reward: &QuestRewardGrant,
    store_plan: &[StoreSlot],
)
    ensures
        final(inventory)@ == apply_store_plan(old(inventory)@, *reward, store_plan@),
{
    let ghost start = inventory@;
    let mut p: usize = 0;
    while p < store_plan.len()
        invariant
            p <= store_plan.len(),
            inventory@ == apply_store_plan(start, *reward, store_plan@.take(p as int)),
        decreases store_plan.len() - p,
    {
        assert(store_plan@.take(p + 1).drop_last() =~= store_plan@.take(p as int));
        let slot = store_plan[p];
        match slot.existing_item {
            Some(guid) => {
                if let Some(index) = find_item_index(inventory, guid) {
                    let mut item = inventory[index];
                    item.count = item.count.saturating_add(slot.count);
                    inventory.set(index, item);
                }
            },
            None => {
                inventory.push(CharacterInventoryItem {
                    bag: slot.bag as u32,
                    slot: slot.slot,
                    item: 0,
                    item_template: 0,
                    count: slot.count,
                    random_property_id: 0,
                    durability: reward.max_durability,
                });
            },
        }
        p += 1;
    }
    assert(store_plan@.take(store_plan@.len() as int) =~= store_plan@);
}

/// Plans each reward in turn against the inventory as the earlier rewards
/// leave it; `None` as soon as one does not fit.
pub open spec fn reward_plans(
    planned: Seq<CharacterInventoryItem>,
    rewards: Seq<QuestRewardGrant>,
    bags: Seq<EquippedBagInfo>,
) -> Option<Seq<Seq<StoreSlot>>>
    decreases rewards.len(),
{
    if rewards.len() == 0 {
        Some(Seq::empty())
    } else {
        match plan_spec(planned, rewards[0].template, rewards[0].count, bags, None, None, None) {
            None => None,
            Some(p) => match reward_plans(apply_store_plan(planned, rewards[0], p), rewards.drop_first(), bags) {
                Some(rest) => Some(seq![p] + rest),
                None => None,
            },
        }
    }
}

fn copy_inventory(inventory: &[CharacterInventoryItem]) -> (copy: Vec<CharacterInventoryItem>)
    ensures
        copy@ == inventory@,
{
    let mut copy: Vec<CharacterInventoryItem> = Vec::new();
    let mut i: usize = 0;
    while i < inventory.len()
        invariant
            i <= inventory.len(),
            copy@ == inventory@.take(i as int),
        decreases inventory.len() - i,
    {
        copy.push(inventory[i]);
        assert(copy@ =~= inventory@.take(i + 1));
        i += 1;
    }
    assert(inventory@.take(inventory@.len() as int) =~= inventory@);
    copy
}

/// Plans where every reward goes after the turn-in consumes are taken.
pub fn plan_quest_reward_storage(
    inventory: &[CharacterInventoryItem],
    rewards: &[QuestRewardGrant],
    equipped_bags: &[EquippedBagInfo],
    required_consumes: &[QuestRequiredItemConsume],
) -> (plans: Option<Vec<Vec<StoreSlot>>>)
    ensures
        match plans {
            Some(v) => reward_plans(apply_consumes(inventory@, required_consumes@), rewards@, equipped_bags@)
                == Some(v@.map_values(|p: Vec<StoreSlot>| p@)),
            None => reward_plans(apply_consumes(inventory@, required_consumes@), rewards@, equipped_bags@) is None,
        },
{
    let mut planned = copy_inventory(inventory);
    apply_required_item_consumes_to_planned_inventory(&mut planned, required_consumes);
    let ghost start = planned@;
    let mut reward_plans_out: Vec<Vec<StoreSlot>> = Vec::new();
    let mut i: usize = 0;
    proof {
        assert(rewards@.skip(0) =~= rewards@);
        match reward_plans(start, rewards@, equipped_bags@) {
            Some(r) => { assert(reward_plans_out@.map_values(|p: Vec<StoreSlot>| p@) + r =~= r); },
            None => {},
        }
    }
    while i < rewards.len()
        invariant
            i <= rewards.len(),
            start == apply_consumes(inventory@, required_consumes@),
            reward_plans(start, rewards@, equipped_bags@) == match reward_plans(planned@, rewards@.skip(i as int), equipped_bags@) {
                Some(rest) => Some(reward_plans_out@.map_values(|p: Vec<StoreSlot>| p@) + rest),
                None => None::<Seq<Seq<StoreSlot>>>,
            },
        decreases rewards.len() - i,
    {
        let reward = rewards[i];
        proof {
            assert(rewards@.skip(i as int).drop_first() =~= rewards@.skip(i + 1));
            assert(rewards@.skip(i as int)[0] == reward);
        }
        let store_plan = match plan_store_item(&planned, &reward.template, reward.count, equipped_bags, None, None) {
            Some(p) => p,
            None => {
                assert(reward_plans(planned@, rewards@.skip(i as int), equipped_bags@) is None);
                return None;
            },
        };
        let ghost before = planned@;
        apply_store_plan_to_planned_inventory(&mut planned, &reward, &store_plan);
        proof {
            let ghost rest = reward_plans(planned@, rewards@.skip(i + 1), equipped_bags@);
            match rest {
                Some(r) => {
                    assert(reward_plans_out@.map_values(|p: Vec<StoreSlot>| p@).push(store_plan@) + r
                        =~= reward_plans_out@.map_values(|p: Vec<StoreSlot>| p@) + (seq![store_plan@] + r));
                },
                None => {},
            }
        }
        let ghost old_out = reward_plans_out@;
        reward_plans_out.push(store_plan);
        proof {
            assert(reward_plans_out@.map_values(|p: Vec<StoreSlot>| p@)
                =~= old_out.map_values(|p: Vec<StoreSlot>| p@).push(reward_plans_out@[old_out.len() as int]@));
        }
        i += 1;
    }
    proof {
        assert(rewards@.skip(i as int) =~= Seq::<QuestRewardGrant>::empty());
        assert(reward_plans_out@.map_values(|p: Vec<StoreSlot>| p@) + Seq::<Seq<StoreSlot>>::empty()
            =~= reward_plans_out@.map_values(|p: Vec<StoreSlot>| p@));
    }
    Some(reward_plans_out)
}


// ---------------------------------------------------------------------------
// Quest source items

#[derive(Clone, Copy, Debug, PartialEq, Eq, Structural)]
pub struct QuestSourceItemTemplate {
    pub max_durability: u32,
    pub max_stack: u32,
    pub container_slots: Option<u32>,
}

#[derive(Clone, Copy, Debug, PartialEq, Eq, Structural)]
pub enum QuestSourceItemDestination {
    ExistingStack { item_guid: u32, new_count: u32, grant_count: u32 },
    NewStack { slot: u8, count: u32 },
}

#[derive(Clone, Debug, PartialEq, Eq)]
pub struct QuestSourceItemStoragePlan {
    pub item_id: u32,
    pub max_durability: u32,
    pub container_slots: Option<u32>,
    pub destinations: Vec<QuestSourceItemDestination>,
}

#[derive(Clone, Debug, PartialEq, Eq)]
pub enum QuestSourceItemStorage {
    NoGrantNeeded,
    NoSpace,
    Grant(QuestSourceItemStoragePlan),
}

/// Stacks of `item_id` with room below `max_stack`, in inventory order.
pub open spec fn stacks_with_room(inventory: Seq<CharacterInventoryItem>, item_id: u32, max_stack: u32) -> Seq<CharacterInventoryItem>
    decreases inventory.len(),
{
    if inventory.len() == 0 {
        Seq::empty()
    } else {
        let item = inventory.last();
        stacks_with_room(inventory.drop_last(), item_id, max_stack) + if item.item_template == item_id && item.count < max_stack {
            seq![item]
        } else {
            Seq::empty()
        }
    }
}

proof fn lemma_stacks_with_room_below_max(inventory: Seq<CharacterInventoryItem>, item_id: u32, max_stack: u32)
    ensures
        forall|j: int| 0 <= j < stacks_with_room(inventory, item_id, max_stack).len()
            ==> (#[trigger] stacks_with_room(inventory, item_id, max_stack)[j]).count < max_stack,
    decreases inventory.len(),
{
    if inventory.len() > 0 {
        let prev = stacks_with_room(inventory.drop_last(), item_id, max_stack);
        lemma_stacks_with_room_below_max(inventory.drop_last(), item_id, max_stack);
        let whole = stacks_with_room(inventory, item_id, max_stack);
        assert forall|j: int| 0 <= j < whole.len() implies (#[trigger] whole[j]).count < max_stack by {
            if j < prev.len() {
                assert(whole[j] == prev[j]);
            }
        }
    }
}

proof fn lemma_sorted_stacks_below_max(matching: Seq<CharacterInventoryItem>, max_stack: u32)
    requires
        forall|j: int| 0 <= j < matching.len() ==> (#[trigger] matching[j]).count < max_stack,
    ensures
        forall|j: int| 0 <= j < sort_by_key(matching, storage_key()).len()
            ==> (#[trigger] sort_by_key(matching, storage_key())[j]).count < max_stack,
{
    broadcast use vstd::seq_lib::group_seq_properties;
    let sorted = sort_by_key(matching, storage_key());
    crate::sorting::lemma_sort_by_key_sorted(matching, storage_key());
    assert forall|j: int| 0 <= j < sorted.len() implies (#[trigger] sorted[j]).count < max_stack by {
        assert(sorted.to_multiset().count(sorted[j]) > 0);
        assert(matching.to_multiset().count(sorted[j]) > 0);
        assert(matching.contains(sorted[j]));
    }
}

/// Top up `stacks` front to back until `remaining` items are granted.
pub open spec fn top_up_stacks(stacks: Seq<CharacterInventoryItem>, remaining: nat, max_stack: u32) -> (Seq<QuestSourceItemDestination>, nat)
    decreases stacks.len(),
{
    if remaining == 0 || stacks.len() == 0 {
        (Seq::empty(), remaining)
    } else {
        let stack = stacks[0];
        let room: nat = (max_stack - stack.count) as nat;
        let grant: nat = if remaining < room { remaining } else { room };
        let rest = top_up_stacks(stacks.drop_first(), (remaining - grant) as nat, max_stack);
        (seq![QuestSourceItemDestination::ExistingStack {
            item_guid: stack.item,
            new_count: (stack.count + grant) as u32,
            grant_count: grant as u32,
        }] + rest.0, rest.1)
    }
}

/// Fill empty slots front to back, a full stack each, until `remaining` are placed.
pub open spec fn fill_new_stacks(slots: Seq<u8>, remaining: nat, max_stack: u32) -> (Seq<QuestSourceItemDestination>, nat)
    decreases slots.len(),
{
    if remaining == 0 || slots.len() == 0 {
        (Seq::empty(), remaining)
    } else {
        let count: nat = if remaining < max_stack { remaining } else { max_stack as nat };
        let rest = fill_new_stacks(slots.drop_first(), (remaining - count) as nat, max_stack);
        (seq![QuestSourceItemDestination::NewStack { slot: slots[0], count: count as u32 }] + rest.0, rest.1)
    }
}

/// The grant a quest's source item needs: `None` when none is needed,
/// `Some(None)` when it does not fit, else the destinations: existing stacks
/// with room (storage order), then empty backpack slots.
pub open spec fn source_item_plan_spec(
    quest: &QuestTemplateQuery,
    inventory: Seq<CharacterInventoryItem>,
    item_template: QuestSourceItemTemplate,
) -> Option<Option<Seq<QuestSourceItemDestination>>> {
    let required: nat = if quest.src_item_count > 1 { quest.src_item_count as nat } else { 1 };
    let current = count_of_template(inventory, quest.src_item_id);
    let max_stack: u32 = if item_template.max_stack > 1 { item_template.max_stack } else { 1 };
    if quest.src_item_id == 0 || current >= required {
        None
    } else {
        let stacks = sort_by_key(stacks_with_room(inventory, quest.src_item_id, max_stack), storage_key());
        let first = top_up_stacks(stacks, (required - current) as nat, max_stack);
        let second = fill_new_stacks(free_backpack_slots(inventory, INVENTORY_SLOT_ITEM_END as int), first.1, max_stack);
        if second.1 != 0 {
            Some(None)
        } else {
            Some(Some(first.0 + second.0))
        }
    }
}

/// Plans how to give a character a quest's source item (up to its count).
pub fn plan_quest_source_item_storage(
    quest: &QuestTemplateQuery,
    inventory: &[CharacterInventoryItem],
    item_template: QuestSourceItemTemplate,
) -> (storage: QuestSourceItemStorage)
    requires
        inventory_counts_fit(inventory@),
    ensures
        match storage {
            QuestSourceItemStorage::NoGrantNeeded => source_item_plan_spec(quest, inventory@, item_template) is None,
            QuestSourceItemStorage::NoSpace => source_item_plan_spec(quest, inventory@, item_template) == Some(
                None::<Seq<QuestSourceItemDestination>>,
            ),
            QuestSourceItemStorage::Grant(plan) => source_item_plan_spec(quest, inventory@, item_template) == Some(
                Some(plan.destinations@),
            ) && plan.item_id == quest.src_item_id && plan.max_durability == item_template.max_durability
                && plan.container_slots == item_template.container_slots,
        },
{
    if quest.src_item_id == 0 {
        return QuestSourceItemStorage::NoGrantNeeded;
    }
    let required: u32 = if quest.src_item_count > 1 { quest.src_item_count } else { 1 };
    assert(count_of_template(inventory@, quest.src_item_id) <= u32::MAX);
    let current = quest_inventory_item_count(inventory, quest.src_item_id);
    if current >= required {
        return QuestSourceItemStorage::NoGrantNeeded;
    }
    let mut remaining = required - current;
    let max_stack: u32 = if item_template.max_stack > 1 { item_template.max_stack } else { 1 };
    let mut stacks: Vec<CharacterInventoryItem> = Vec::new();
    let ghost mut matching: Seq<CharacterInventoryItem> = Seq::empty();
    let mut i: usize = 0;
    while i < inventory.len()
        invariant
            i <= inventory.len(),
            matching == stacks_with_room(inventory@.take(i as int), quest.src_item_id, max_stack),
            stacks@ == sort_by_key(matching, storage_key()),
        decreases inventory.len() - i,
    {
        assert(inventory@.take(i + 1).drop_last() =~= inventory@.take(i as int));
        let item = inventory[i];
        if item.item_template == quest.src_item_id && item.count < max_stack {
            insert_item_by_storage_order(&mut stacks, item);
            proof {
                assert(matching.push(item).drop_last() =~= matching);
                matching = matching.push(item);
            }
        }
        proof { assert(matching =~= stacks_with_room(inventory@.take(i + 1), quest.src_item_id, max_stack)); }
        i += 1;
    }
    assert(inventory@.take(inventory@.len() as int) =~= inventory@);
    proof {
        lemma_stacks_with_room_below_max(inventory@, quest.src_item_id, max_stack);
        lemma_sorted_stacks_below_max(matching, max_stack);
    }
    let ghost first = top_up_stacks(stacks@, remaining as nat, max_stack);
    let mut destinations: Vec<QuestSourceItemDestination> = Vec::new();
    let mut k: usize = 0;
    assert(stacks@.skip(0) =~= stacks@);
    assert(destinations@ + first.0 =~= first.0);
    while k < stacks.len() && remaining > 0
        invariant
            k <= stacks.len(),
            max_stack >= 1,
            forall|j: int| 0 <= j < stacks@.len() ==> (#[trigger] stacks@[j]).count < max_stack,
            first.0 == destinations@ + top_up_stacks(stacks@.skip(k as int), remaining as nat, max_stack).0,
            first.1 == top_up_stacks(stacks@.skip(k as int), remaining as nat, max_stack).1,
        decreases stacks.len() - k,
    {
        let stack = stacks[k];
        let room = max_stack - stack.count;
        let grant = if remaining < room { remaining } else { room };
        let d = QuestSourceItemDestination::ExistingStack {
            item_guid: stack.item,
            new_count: stack.count + grant,
            grant_count: grant,
        };
        proof {
            assert(stacks@.skip(k as int).drop_first() =~= stacks@.skip(k + 1));
            assert(stacks@.skip(k as int)[0] == stack);
            let rest = top_up_stacks(stacks@.skip(k + 1), (remaining - grant) as nat, max_stack);
            assert(destinations@.push(d) + rest.0 =~= destinations@ + (seq![d] + rest.0));
        }
        destinations.push(d);
        remaining = remaining - grant;
        k += 1;
    }
    proof {
        if remaining == 0 {
            assert(top_up_stacks(stacks@.skip(k as int), remaining as nat, max_stack).0 =~= Seq::empty());
        } else {
            assert(stacks@.skip(k as int) =~= Seq::empty());
        }
        assert(destinations@ =~= first.0);
    }
    let slots = empty_backpack_slots(inventory);
    let ghost second = fill_new_stacks(slots@, remaining as nat, max_stack);
    let ghost mid = destinations@;
    let mut s: usize = 0;
    assert(slots@.skip(0) =~= slots@);
    assert(mid + second.0 =~= destinations@ + second.0);
    while s < slots.len() && remaining > 0
        invariant
            s <= slots.len(),
            max_stack >= 1,
            mid + second.0 == destinations@ + fill_new_stacks(slots@.skip(s as int), remaining as nat, max_stack).0,
            second.1 == fill_new_stacks(slots@.skip(s as int), remaining as nat, max_stack).1,
        decreases slots.len() - s,
    {
        let count = if remaining < max_stack { remaining } else { max_stack };
        let d = QuestSourceItemDestination::NewStack { slot: slots[s], count };
        proof {
            assert(slots@.skip(s as int).drop_first() =~= slots@.skip(s + 1));
            assert(slots@.skip(s as int)[0] == slots@[s as int]);
            let rest = fill_new_stacks(slots@.skip(s + 1), (remaining - count) as nat, max_stack);
            assert(destinations@.push(d) + rest.0 =~= destinations@ + (seq![d] + rest.0));
        }
        destinations.push(d);
        remaining = remaining - count;
        s += 1;
    }
    proof {
        if remaining == 0 {
            assert(fill_new_stacks(slots@.skip(s as int), remaining as nat, max_stack).0 =~= Seq::empty());
        } else {
            assert(slots@.skip(s as int) =~= Seq::empty());
        }
        assert(destinations@ =~= first.0 + second.0);
    }
    if remaining != 0 {
        return QuestSourceItemStorage::NoSpace;
    }
    QuestSourceItemStorage::Grant(QuestSourceItemStoragePlan {
        item_id: quest.src_item_id,
        max_durability: item_template.max_durability,
        container_slots: item_template.container_slots,
        destinations,
    })
}

} // verus!
