//! Quest progress that follows from events: a kill credited to creature
//! objectives, and quests completed or reopened as the inventory changes.
use vstd::prelude::*;
use crate::inventory::CharacterInventoryItem;
use crate::loot::{find_quest_template, quest_index_for};
use crate::quest::{
    completion_requirements_spec, inventory_counts_fit, quest_has_required_items, quest_status_can_complete,
    quest_status_can_reward_from_inventory, quest_status_creature_or_go_count, CharacterQuestStatus, QuestTemplateQuery,
    QUEST_STATUS_COMPLETE, QUEST_STATUS_INCOMPLETE,
};

verus! {

/// The first objective of `quest` that asks for kills of creature `entry`
/// (a positive objective id equal to it).
pub open spec fn creature_objective_index(quest: QuestTemplateQuery, entry: u32) -> Option<int> {
    if quest.req_creature_or_go_id@[0] > 0 && quest.req_creature_or_go_id@[0] as u32 == entry {
        Some(0)
    } else if quest.req_creature_or_go_id@[1] > 0 && quest.req_creature_or_go_id@[1] as u32 == entry {
        Some(1)
    } else if quest.req_creature_or_go_id@[2] > 0 && quest.req_creature_or_go_id@[2] as u32 == entry {
        Some(2)
    } else if quest.req_creature_or_go_id@[3] > 0 && quest.req_creature_or_go_id@[3] as u32 == entry {
        Some(3)
    } else {
        None
    }
}

/// `status` with the count of objective `index` set to `count`.
pub open spec fn with_mob_count(status: CharacterQuestStatus, index: int, count: u32) -> CharacterQuestStatus {
    if index == 0 {
        CharacterQuestStatus { mobcount1: count, ..status }
    } else if index == 1 {
        CharacterQuestStatus { mobcount2: count, ..status }
    } else if index == 2 {
        CharacterQuestStatus { mobcount3: count, ..status }
    } else {
        CharacterQuestStatus { mobcount4: count, ..status }
    }
}

pub open spec fn can_complete_spec(status: CharacterQuestStatus, quest: QuestTemplateQuery, inventory: Seq<CharacterInventoryItem>) -> bool {
    status.rewarded == 0 && status.status == QUEST_STATUS_INCOMPLETE && completion_requirements_spec(&status, &quest, inventory)
}

/// One kill credited to a quest: the objective, its new count, and
/// whether the quest is now complete.
#[derive(Clone, Copy, Debug, PartialEq, Eq, Structural)]
pub struct KillCredit {
    pub quest: u32,
    pub index: usize,
    pub new_count: u32,
    pub complete: bool,
}

/// The credit a kill of creature `killed_entry` gives `status`: one more
/// kill on the first objective asking for that creature, unless it asks
/// for none or is already met; the quest completes when its requirements
/// are then met.
pub open spec fn kill_credit_spec(
    status: CharacterQuestStatus,
    quest: QuestTemplateQuery,
    killed_entry: u32,
    inventory: Seq<CharacterInventoryItem>,
) -> Option<KillCredit> {
    match creature_objective_index(quest, killed_entry) {
        None => None,
        Some(i) => {
            let required = quest.req_creature_or_go_count@[i];
            let current = quest_status_creature_or_go_count(&status, i as usize);
            if required == 0 || current >= required {
                None
            } else {
                let new_count = (current + 1) as u32;
                Some(KillCredit {
                    quest: status.quest,
                    index: i as usize,
                    new_count,
                    complete: can_complete_spec(with_mob_count(status, i, new_count), quest, inventory),
                })
            }
        },
    }
}

fn objective_index(quest: &QuestTemplateQuery, entry: u32) -> (index: Option<usize>)
    ensures
        index == match creature_objective_index(*quest, entry) {
            Some(i) => Some(i as usize),
            None => None,
        },
{
    let mut i: usize = 0;
    while i < 4
        invariant
            i <= 4,
            forall|j: int| 0 <= j < i ==> !(quest.req_creature_or_go_id@[j] > 0 && quest.req_creature_or_go_id@[j] as u32 == entry),
        decreases 4 - i,
    {
        let id = quest.req_creature_or_go_id[i];
        if id > 0 && id as u32 == entry {
            return Some(i);
        }
        i += 1;
    }
    None
}

fn set_mob_count(status: CharacterQuestStatus, index: usize, count: u32) -> (next: CharacterQuestStatus)
    requires
        index < 4,
    ensures
        next == with_mob_count(status, index as int, count),
{
    let mut next = status;
    if index == 0 {
        next.mobcount1 = count;
    } else if index == 1 {
        next.mobcount2 = count;
    } else if index == 2 {
        next.mobcount3 = count;
    } else {
        next.mobcount4 = count;
    }
    next
}

/// The credit a kill gives one quest status.
pub fn quest_kill_credit(
    status: &CharacterQuestStatus,
    quest: &QuestTemplateQuery,
    killed_entry: u32,
    inventory: &[CharacterInventoryItem],
) -> (credit: Option<KillCredit>)
    requires
        inventory_counts_fit(inventory@),
    ensures
        credit == kill_credit_spec(*status, *quest, killed_entry, inventory@),
{
    let index = match objective_index(quest, killed_entry) {
        None => return None,
        Some(i) => i,
    };
    let required = quest.req_creature_or_go_count[index];
    let current = quest_status_creature_or_go_count(status, index);
    if required == 0 || current >= required {
        return None;
    }
    let new_count = current + 1;
    let next = set_mob_count(*status, index, new_count);
    let complete = quest_status_can_complete(&next, quest, inventory);
    Some(KillCredit { quest: status.quest, index, new_count, complete })
}

/// A status the event may move: in progress and not rewarded.
pub open spec fn is_open_status(status: CharacterQuestStatus) -> bool {
    status.status == QUEST_STATUS_INCOMPLETE && status.rewarded == 0
}

/// The credits a kill gives, in the order of `statuses`: one per open
/// status whose quest template is known (the first of `quests` with its
/// id) and that gains a kill.
pub open spec fn kill_credits_spec(
    statuses: Seq<CharacterQuestStatus>,
    quests: Seq<QuestTemplateQuery>,
    killed_entry: u32,
    inventory: Seq<CharacterInventoryItem>,
    n: int,
) -> Seq<KillCredit>
    decreases n,
{
    if n <= 0 {
        Seq::empty()
    } else {
        let status = statuses[n - 1];
        kill_credits_spec(statuses, quests, killed_entry, inventory, n - 1) + if !is_open_status(status) {
            Seq::empty()
        } else {
            match quest_index_for(quests, status.quest) {
                None => Seq::empty(),
                Some(q) => match kill_credit_spec(status, quests[q], killed_entry, inventory) {
                    Some(credit) => seq![credit],
                    None => Seq::empty(),
                },
            }
        }
    }
}

/// The credits the kill of creature `killed_entry` gives the character's
/// open quests.
pub fn creature_kill_credits(
    statuses: &[CharacterQuestStatus],
    quests: &[QuestTemplateQuery],
    killed_entry: u32,
    inventory: &[CharacterInventoryItem],
) -> (credits: Vec<KillCredit>)
    requires
        inventory_counts_fit(inventory@),
    ensures
        credits@ == kill_credits_spec(statuses@, quests@, killed_entry, inventory@, statuses@.len() as int),
{
    let mut credits: Vec<KillCredit> = Vec::new();
    let mut i: usize = 0;
    while i < statuses.len()
        invariant
            i <= statuses@.len(),
            inventory_counts_fit(inventory@),
            credits@ == kill_credits_spec(statuses@, quests@, killed_entry, inventory@, i as int),
        decreases statuses@.len() - i,
    {
        let status = statuses[i];
        if status.status == QUEST_STATUS_INCOMPLETE && status.rewarded == 0 {
            match find_quest_template(quests, status.quest) {
                Some(q) => match quest_kill_credit(&status, &quests[q], killed_entry, inventory) {
                    Some(credit) => {
                        credits.push(credit);
                    },
                    None => {},
                },
                None => {},
            }
        }
        i += 1;
    }
    credits
}

/// The open quests, in the order of `statuses`, that the inventory now
/// completes.
pub open spec fn completed_by_inventory_spec(
    statuses: Seq<CharacterQuestStatus>,
    quests: Seq<QuestTemplateQuery>,
    inventory: Seq<CharacterInventoryItem>,
    n: int,
) -> Seq<u32>
    decreases n,
{
    if n <= 0 {
        Seq::empty()
    } else {
        let status = statuses[n - 1];
        completed_by_inventory_spec(statuses, quests, inventory, n - 1) + if !is_open_status(status) {
            Seq::empty()
        } else {
            match quest_index_for(quests, status.quest) {
                Some(q) => if can_complete_spec(status, quests[q], inventory) {
                    seq![status.quest]
                } else {
                    Seq::empty()
                },
                None => Seq::empty(),
            }
        }
    }
}

/// The open quests whose requirements the inventory now meets: they
/// become complete.
pub fn quests_completed_by_inventory(
    statuses: &[CharacterQuestStatus],
    quests: &[QuestTemplateQuery],
    inventory: &[CharacterInventoryItem],
) -> (completed: Vec<u32>)
    requires
        inventory_counts_fit(inventory@),
    ensures
        completed@ == completed_by_inventory_spec(statuses@, quests@, inventory@, statuses@.len() as int),
{
    let mut completed: Vec<u32> = Vec::new();
    let mut i: usize = 0;
    while i < statuses.len()
        invariant
            i <= statuses@.len(),
            inventory_counts_fit(inventory@),
            completed@ == completed_by_inventory_spec(statuses@, quests@, inventory@, i as int),
        decreases statuses@.len() - i,
    {
        let status = statuses[i];
        if status.status == QUEST_STATUS_INCOMPLETE && status.rewarded == 0 {
            match find_quest_template(quests, status.quest) {
                Some(q) => {
                    if quest_status_can_complete(&status, &quests[q], inventory) {
                        completed.push(status.quest);
                    }
                },
                None => {},
            }
        }
        i += 1;
    }
    completed
}

/// A complete, unrewarded quest.
pub open spec fn is_completed_status(status: CharacterQuestStatus) -> bool {
    status.status == QUEST_STATUS_COMPLETE && status.rewarded == 0
}

pub open spec fn asks_for_items(quest: QuestTemplateQuery) -> bool {
    exists|i: int| 0 <= i < 4 && #[trigger] quest.req_item_id@[i] != 0 && quest.req_item_count@[i] != 0
}

/// The complete quests, in the order of `statuses`, that ask for items
/// the inventory no longer holds.
pub open spec fn reopened_by_inventory_spec(
    statuses: Seq<CharacterQuestStatus>,
    quests: Seq<QuestTemplateQuery>,
    inventory: Seq<CharacterInventoryItem>,
    n: int,
) -> Seq<u32>
    decreases n,
{
    if n <= 0 {
        Seq::empty()
    } else {
        let status = statuses[n - 1];
        reopened_by_inventory_spec(statuses, quests, inventory, n - 1) + if !is_completed_status(status) {
            Seq::empty()
        } else {
            match quest_index_for(quests, status.quest) {
                Some(q) => if asks_for_items(quests[q]) && !completion_requirements_spec(&status, &quests[q], inventory) {
                    seq![status.quest]
                } else {
                    Seq::empty()
                },
                None => Seq::empty(),
            }
        }
    }
}

/// The complete quests that asked for items and whose requirements the
/// inventory no longer meets: they become incomplete again.
pub fn quests_reopened_by_inventory(
    statuses: &[CharacterQuestStatus],
    quests: &[QuestTemplateQuery],
    inventory: &[CharacterInventoryItem],
) -> (reopened: Vec<u32>)
    requires
        inventory_counts_fit(inventory@),
    ensures
        reopened@ == reopened_by_inventory_spec(statuses@, quests@, inventory@, statuses@.len() as int),
{
    let mut reopened: Vec<u32> = Vec::new();
    let mut i: usize = 0;
    while i < statuses.len()
        invariant
            i <= statuses@.len(),
            inventory_counts_fit(inventory@),
            reopened@ == reopened_by_inventory_spec(statuses@, quests@, inventory@, i as int),
        decreases statuses@.len() - i,
    {
        let status = statuses[i];
        if status.status == QUEST_STATUS_COMPLETE && status.rewarded == 0 {
            match find_quest_template(quests, status.quest) {
                Some(q) => {
                    if quest_has_required_items(&quests[q]) && !quest_status_can_reward_from_inventory(
                        &status,
                        &quests[q],
                        inventory,
                    ) {
                        reopened.push(status.quest);
                    }
                },
                None => {},
            }
        }
        i += 1;
    }
    reopened
}

} // verus!
