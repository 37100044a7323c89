//! What a questgiver shows a character: the mark above its head, the quests
//! it lists, and the quest it takes back.
use vstd::prelude::*;
use crate::character::{ActiveCharacter, CharacterReputation, CharacterSkill};
use crate::guid::ObjectGuid;
use crate::inventory::CharacterInventoryItem;
use crate::loot::{find_quest_template, quest_index_for};
use crate::quest::{
    active_quest_statuses_sorted, can_see_start_quest, can_take_start_quest, completion_requirements_spec,
    find_quest_status, inventory_counts_fit, quest_log_order, quest_status_can_reward_from_inventory,
    race_class_level_spec, race_class_spec, start_rules_spec, status_for, visibility_level_spec,
    quest_log_has_free_slot, quest_status_can_complete, selected_quest_reward_items, selected_reward_items_spec, CharacterQuestStatus, QuestLog, QuestSourceItemStorage, QuestStartFacts, QuestTemplateQuery,
    DIALOG_STATUS_AVAILABLE, DIALOG_STATUS_UNAVAILABLE,
    QUEST_STATUS_COMPLETE, QUEST_STATUS_INCOMPLETE,
};

verus! {

pub const DIALOG_STATUS_NONE: u32 = 0;
pub const DIALOG_STATUS_INCOMPLETE: u32 = 3;
pub const DIALOG_STATUS_REWARD2: u32 = 7;

/// The character state the questgiver rules read.
pub struct QuestCharacter {
    pub character: ActiveCharacter,
    pub skills: Vec<CharacterSkill>,
    pub reputations: Vec<CharacterReputation>,
    pub statuses: Vec<CharacterQuestStatus>,
    pub inventory: Vec<CharacterInventoryItem>,
}

/// Only creatures and game objects give quests.
pub open spec fn is_questgiver_guid(guid: ObjectGuid) -> bool {
    guid.is_creature() || guid.is_game_object()
}

/// The character could hand `quest` in now.
pub open spec fn can_reward_spec(status: CharacterQuestStatus, quest: QuestTemplateQuery, inventory: Seq<CharacterInventoryItem>) -> bool {
    status.rewarded == 0 && (status.status == QUEST_STATUS_COMPLETE || status.status == QUEST_STATUS_INCOMPLETE)
        && completion_requirements_spec(&status, &quest, inventory)
}

/// The mark of a quest the giver takes back: ready to hand in, or still
/// in progress; none for a quest the character has not taken or was
/// rewarded for.
pub open spec fn complete_mark_spec(
    quest: QuestTemplateQuery,
    statuses: Seq<CharacterQuestStatus>,
    inventory: Seq<CharacterInventoryItem>,
) -> Option<u32> {
    match status_for(statuses, quest.entry) {
        None => None,
        Some(s) => if s.rewarded != 0 {
            None
        } else if can_reward_spec(s, quest, inventory) {
            Some(DIALOG_STATUS_REWARD2)
        } else if s.status == QUEST_STATUS_INCOMPLETE {
            Some(DIALOG_STATUS_INCOMPLETE)
        } else {
            None
        },
    }
}

pub open spec fn can_take_spec(quest: QuestTemplateQuery, who: QuestCharacter, facts: QuestStartFacts) -> bool {
    race_class_level_spec(&quest, who.character) && start_rules_spec(&quest, who.skills@, who.reputations@, who.statuses@, facts)
}

pub open spec fn can_see_spec(quest: QuestTemplateQuery, who: QuestCharacter, facts: QuestStartFacts) -> bool {
    race_class_spec(&quest, who.character) && visibility_level_spec(&quest, who.character) && start_rules_spec(
        &quest,
        who.skills@,
        who.reputations@,
        who.statuses@,
        facts,
    )
}

/// The mark of a quest the giver starts: available to take, visible but
/// not yet takeable, or none.
pub open spec fn start_mark_spec(quest: QuestTemplateQuery, who: QuestCharacter, facts: QuestStartFacts) -> Option<u32> {
    if can_take_spec(quest, who, facts) {
        Some(DIALOG_STATUS_AVAILABLE)
    } else if can_see_spec(quest, who, facts) {
        Some(DIALOG_STATUS_UNAVAILABLE)
    } else {
        None
    }
}

/// The mark a recorded status earns from the giver when the giver takes
/// its quest back and it is ready to hand in.
pub open spec fn status_mark_spec(
    status: CharacterQuestStatus,
    complete_quests: Seq<QuestTemplateQuery>,
    inventory: Seq<CharacterInventoryItem>,
) -> u32 {
    match quest_index_for(complete_quests, status.quest) {
        Some(i) => if status.rewarded == 0 && can_reward_spec(status, complete_quests[i], inventory) {
            DIALOG_STATUS_REWARD2
        } else {
            DIALOG_STATUS_NONE
        },
        None => DIALOG_STATUS_NONE,
    }
}

pub open spec fn mark_value(mark: Option<u32>) -> u32 {
    match mark {
        Some(v) => v,
        None => DIALOG_STATUS_NONE,
    }
}

pub open spec fn max_u32(a: u32, b: u32) -> u32 {
    if a >= b { a } else { b }
}

pub open spec fn complete_marks_max(
    quests: Seq<QuestTemplateQuery>,
    statuses: Seq<CharacterQuestStatus>,
    inventory: Seq<CharacterInventoryItem>,
    n: int,
) -> u32
    decreases n,
{
    if n <= 0 {
        DIALOG_STATUS_NONE
    } else {
        max_u32(complete_marks_max(quests, statuses, inventory, n - 1), mark_value(complete_mark_spec(quests[n - 1], statuses, inventory)))
    }
}

pub open spec fn start_marks_max(quests: Seq<QuestTemplateQuery>, facts: Seq<QuestStartFacts>, who: QuestCharacter, n: int) -> u32
    decreases n,
{
    if n <= 0 {
        DIALOG_STATUS_NONE
    } else {
        max_u32(start_marks_max(quests, facts, who, n - 1), mark_value(start_mark_spec(quests[n - 1], who, facts[n - 1])))
    }
}

pub open spec fn status_marks_max(
    statuses: Seq<CharacterQuestStatus>,
    complete_quests: Seq<QuestTemplateQuery>,
    inventory: Seq<CharacterInventoryItem>,
    n: int,
) -> u32
    decreases n,
{
    if n <= 0 {
        DIALOG_STATUS_NONE
    } else {
        max_u32(status_marks_max(statuses, complete_quests, inventory, n - 1), status_mark_spec(statuses[n - 1], complete_quests, inventory))
    }
}

/// The giver's mark: the highest of the marks of the quests it takes back,
/// of those it starts (paired with `start_facts`), and of the character's
/// unrewarded statuses ready to hand in to it; none for anything but a
/// creature or game object.
pub open spec fn dialog_status_spec(
    guid: ObjectGuid,
    complete_quests: Seq<QuestTemplateQuery>,
    start_quests: Seq<QuestTemplateQuery>,
    start_facts: Seq<QuestStartFacts>,
    who: QuestCharacter,
) -> u32 {
    if !is_questgiver_guid(guid) {
        DIALOG_STATUS_NONE
    } else {
        max_u32(
            max_u32(
                complete_marks_max(complete_quests, who.statuses@, who.inventory@, complete_quests.len() as int),
                start_marks_max(start_quests, start_facts, who, start_quests.len() as int),
            ),
            status_marks_max(who.statuses@, complete_quests, who.inventory@, who.statuses@.len() as int),
        )
    }
}

fn max_of(a: u32, b: u32) -> (m: u32)
    ensures
        m == max_u32(a, b),
{
    if a >= b { a } else { b }
}

fn complete_mark(quest: &QuestTemplateQuery, who: &QuestCharacter) -> (mark: Option<u32>)
    requires
        inventory_counts_fit(who.inventory@),
    ensures
        mark == complete_mark_spec(*quest, who.statuses@, who.inventory@),
{
    let status = match find_quest_status(who.statuses.as_slice(), quest.entry) {
        None => return None,
        Some(s) => s,
    };
    if status.rewarded != 0 {
        return None;
    }
    if quest_status_can_reward_from_inventory(&status, quest, who.inventory.as_slice()) {
        Some(DIALOG_STATUS_REWARD2)
    } else if status.status == QUEST_STATUS_INCOMPLETE {
        Some(DIALOG_STATUS_INCOMPLETE)
    } else {
        None
    }
}

/// The mark of a quest the giver starts.
pub fn quest_start_dialog_status(quest: &QuestTemplateQuery, who: &QuestCharacter, facts: &QuestStartFacts) -> (status: Option<u32>)
    ensures
        status == start_mark_spec(*quest, *who, *facts),
{
    let can_take = can_take_start_quest(
        quest,
        &who.character,
        who.skills.as_slice(),
        who.reputations.as_slice(),
        who.statuses.as_slice(),
        facts,
    );
    if can_take {
        return Some(DIALOG_STATUS_AVAILABLE);
    }
    let can_see = can_see_start_quest(
        quest,
        &who.character,
        who.skills.as_slice(),
        who.reputations.as_slice(),
        who.statuses.as_slice(),
        facts,
    );
    if can_see {
        Some(DIALOG_STATUS_UNAVAILABLE)
    } else {
        None
    }
}

fn status_mark(status: &CharacterQuestStatus, complete_quests: &[QuestTemplateQuery], inventory: &[CharacterInventoryItem]) -> (mark: u32)
    requires
        inventory_counts_fit(inventory@),
    ensures
        mark == status_mark_spec(*status, complete_quests@, inventory@),
{
    match find_quest_template(complete_quests, status.quest) {
        Some(i) => if status.rewarded == 0 && quest_status_can_reward_from_inventory(status, &complete_quests[i], inventory) {
            DIALOG_STATUS_REWARD2
        } else {
            DIALOG_STATUS_NONE
        },
        None => DIALOG_STATUS_NONE,
    }
}

/// The mark a questgiver shows the character. The giver takes back
/// `complete_quests` (a status's quest template is the first of them with
/// its id) and starts `start_quests`, whose start facts are `start_facts`.
pub fn questgiver_dialog_status(
    guid: ObjectGuid,
    complete_quests: &[QuestTemplateQuery],
    start_quests: &[QuestTemplateQuery],
    start_facts: &[QuestStartFacts],
    who: &QuestCharacter,
) -> (status: u32)
    requires
        start_facts@.len() == start_quests@.len(),
        inventory_counts_fit(who.inventory@),
    ensures
        status == dialog_status_spec(guid, complete_quests@, start_quests@, start_facts@, *who),
{
    if !guid.is_creature() && !guid.is_game_object() {
        return DIALOG_STATUS_NONE;
    }
    let mut from_complete: u32 = DIALOG_STATUS_NONE;
    let mut i: usize = 0;
    while i < complete_quests.len()
        invariant
            i <= complete_quests.len(),
            inventory_counts_fit(who.inventory@),
            from_complete == complete_marks_max(complete_quests@, who.statuses@, who.inventory@, i as int),
        decreases complete_quests.len() - i,
    {
        let mark = complete_mark(&complete_quests[i], who);
        let value = match mark {
            Some(v) => v,
            None => DIALOG_STATUS_NONE,
        };
        from_complete = max_of(from_complete, value);
        i += 1;
    }
    let mut from_start: u32 = DIALOG_STATUS_NONE;
    let mut j: usize = 0;
    while j < start_quests.len()
        invariant
            j <= start_quests.len(),
            start_facts@.len() == start_quests@.len(),
            from_start == start_marks_max(start_quests@, start_facts@, *who, j as int),
        decreases start_quests.len() - j,
    {
        let mark = quest_start_dialog_status(&start_quests[j], who, &start_facts[j]);
        let value = match mark {
            Some(v) => v,
            None => DIALOG_STATUS_NONE,
        };
        from_start = max_of(from_start, value);
        j += 1;
    }
    let mut from_statuses: u32 = DIALOG_STATUS_NONE;
    let mut k: usize = 0;
    while k < who.statuses.len()
        invariant
            k <= who.statuses@.len(),
            inventory_counts_fit(who.inventory@),
            from_statuses == status_marks_max(who.statuses@, complete_quests@, who.inventory@, k as int),
        decreases who.statuses@.len() - k,
    {
        let mark = status_mark(&who.statuses[k], complete_quests, who.inventory.as_slice());
        from_statuses = max_of(from_statuses, mark);
        k += 1;
    }
    max_of(max_of(from_complete, from_start), from_statuses)
}

/// Whether a creature or game object starts or takes back any quest.
pub fn questgiver_has_quest_relation(
    guid: ObjectGuid,
    start_quests: &[QuestTemplateQuery],
    complete_quests: &[QuestTemplateQuery],
) -> (related: bool)
    ensures
        related == (is_questgiver_guid(guid) && (start_quests@.len() > 0 || complete_quests@.len() > 0)),
{
    (guid.is_creature() || guid.is_game_object()) && (start_quests.len() > 0 || complete_quests.len() > 0)
}

/// One quest of a giver's list: the position of its template among the
/// quests the giver takes back (`from_complete`) or starts, and its mark.
#[derive(Clone, Copy, Debug, PartialEq, Eq, Structural)]
pub struct QuestListChoice {
    pub from_complete: bool,
    pub index: usize,
    pub dialog_status: u32,
}

/// The quests the giver takes back that the character has taken and not
/// been rewarded for, among the first `n`, ready or in progress.
pub open spec fn complete_choices(
    quests: Seq<QuestTemplateQuery>,
    statuses: Seq<CharacterQuestStatus>,
    inventory: Seq<CharacterInventoryItem>,
    n: int,
) -> Seq<QuestListChoice>
    decreases n,
{
    if n <= 0 {
        Seq::empty()
    } else {
        complete_choices(quests, statuses, inventory, n - 1) + match complete_mark_spec(quests[n - 1], statuses, inventory) {
            Some(m) => seq![QuestListChoice { from_complete: true, index: (n - 1) as usize, dialog_status: m }],
            None => Seq::empty(),
        }
    }
}

/// Whether a quest with id `entry` is already listed among the quests the
/// giver takes back.
pub open spec fn listed_for_completion(
    quests: Seq<QuestTemplateQuery>,
    statuses: Seq<CharacterQuestStatus>,
    inventory: Seq<CharacterInventoryItem>,
    entry: u32,
) -> bool {
    exists|i: int| 0 <= i < quests.len() && (#[trigger] quests[i]).entry == entry && complete_mark_spec(quests[i], statuses, inventory) is Some
}

/// The quests the giver starts, among the first `n`, that the character
/// can take and that are not listed already.
pub open spec fn start_choices(
    complete_quests: Seq<QuestTemplateQuery>,
    start_quests: Seq<QuestTemplateQuery>,
    start_facts: Seq<QuestStartFacts>,
    who: QuestCharacter,
    n: int,
) -> Seq<QuestListChoice>
    decreases n,
{
    if n <= 0 {
        Seq::empty()
    } else {
        start_choices(complete_quests, start_quests, start_facts, who, n - 1) + if !listed_for_completion(
            complete_quests,
            who.statuses@,
            who.inventory@,
            start_quests[n - 1].entry,
        ) && can_take_spec(start_quests[n - 1], who, start_facts[n - 1]) {
            seq![QuestListChoice { from_complete: false, index: (n - 1) as usize, dialog_status: DIALOG_STATUS_AVAILABLE }]
        } else {
            Seq::empty()
        }
    }
}

pub open spec fn visible_quests_spec(
    guid: ObjectGuid,
    complete_quests: Seq<QuestTemplateQuery>,
    start_quests: Seq<QuestTemplateQuery>,
    start_facts: Seq<QuestStartFacts>,
    who: QuestCharacter,
) -> Seq<QuestListChoice> {
    if !is_questgiver_guid(guid) {
        Seq::empty()
    } else {
        complete_choices(complete_quests, who.statuses@, who.inventory@, complete_quests.len() as int) + start_choices(
            complete_quests,
            start_quests,
            start_facts,
            who,
            start_quests.len() as int,
        )
    }
}

fn is_listed_for_completion(complete_quests: &[QuestTemplateQuery], who: &QuestCharacter, entry: u32) -> (listed: bool)
    requires
        inventory_counts_fit(who.inventory@),
    ensures
        listed == listed_for_completion(complete_quests@, who.statuses@, who.inventory@, entry),
{
    let mut i: usize = 0;
    while i < complete_quests.len()
        invariant
            i <= complete_quests.len(),
            inventory_counts_fit(who.inventory@),
            forall|k: int| 0 <= k < i && (#[trigger] complete_quests@[k]).entry == entry ==> complete_mark_spec(
                complete_quests@[k],
                who.statuses@,
                who.inventory@,
            ) is None,
        decreases complete_quests.len() - i,
    {
        if complete_quests[i].entry == entry && complete_mark(&complete_quests[i], who).is_some() {
            return true;
        }
        i += 1;
    }
    false
}

/// The quests a giver lists: first those it takes back that the character
/// is on (ready to hand in, or in progress), then those it starts that
/// the character can take and that are not listed yet.
pub fn questgiver_visible_quests(
    guid: ObjectGuid,
    complete_quests: &[QuestTemplateQuery],
    start_quests: &[QuestTemplateQuery],
    start_facts: &[QuestStartFacts],
    who: &QuestCharacter,
) -> (visible: Vec<QuestListChoice>)
    requires
        start_facts@.len() == start_quests@.len(),
        inventory_counts_fit(who.inventory@),
    ensures
        visible@ == visible_quests_spec(guid, complete_quests@, start_quests@, start_facts@, *who),
{
    let mut visible: Vec<QuestListChoice> = Vec::new();
    if !guid.is_creature() && !guid.is_game_object() {
        return visible;
    }
    let mut i: usize = 0;
    while i < complete_quests.len()
        invariant
            i <= complete_quests.len(),
            inventory_counts_fit(who.inventory@),
            visible@ == complete_choices(complete_quests@, who.statuses@, who.inventory@, i as int),
        decreases complete_quests.len() - i,
    {
        match complete_mark(&complete_quests[i], who) {
            Some(m) => {
                visible.push(QuestListChoice { from_complete: true, index: i, dialog_status: m });
            },
            None => {},
        }
        i += 1;
    }
    let ghost listed = visible@;
    let mut j: usize = 0;
    while j < start_quests.len()
        invariant
            j <= start_quests.len(),
            start_facts@.len() == start_quests@.len(),
            inventory_counts_fit(who.inventory@),
            listed == complete_choices(complete_quests@, who.statuses@, who.inventory@, complete_quests@.len() as int),
            visible@ == listed + start_choices(complete_quests@, start_quests@, start_facts@, *who, j as int),
        decreases start_quests.len() - j,
    {
        let quest = &start_quests[j];
        if !is_listed_for_completion(complete_quests, who, quest.entry) && can_take_start_quest(
            quest,
            &who.character,
            who.skills.as_slice(),
            who.reputations.as_slice(),
            who.statuses.as_slice(),
            &start_facts[j],
        ) {
            visible.push(QuestListChoice { from_complete: false, index: j, dialog_status: DIALOG_STATUS_AVAILABLE });
        }
        j += 1;
    }
    visible
}

/// The first of `ordered` (the character's current quests in quest log
/// order) that the giver takes back and that is ready to hand in: the
/// position of its template among `complete_quests`.
pub open spec fn first_turnin(
    ordered: Seq<CharacterQuestStatus>,
    complete_quests: Seq<QuestTemplateQuery>,
    inventory: Seq<CharacterInventoryItem>,
) -> Option<int>
    decreases ordered.len(),
{
    if ordered.len() == 0 {
        None
    } else {
        match quest_index_for(complete_quests, ordered[0].quest) {
            Some(i) => if can_reward_spec(ordered[0], complete_quests[i], inventory) {
                Some(i)
            } else {
                first_turnin(ordered.skip(1), complete_quests, inventory)
            },
            None => first_turnin(ordered.skip(1), complete_quests, inventory),
        }
    }
}

/// The quest a giver takes back now: the first current quest, in quest
/// log order, that it takes back and that is ready to hand in.
pub fn questgiver_completed_turnin_quest(guid: ObjectGuid, complete_quests: &[QuestTemplateQuery], who: &QuestCharacter) -> (quest: Option<usize>)
    requires
        inventory_counts_fit(who.inventory@),
    ensures
        quest == if !is_questgiver_guid(guid) {
            None
        } else {
            match first_turnin(quest_log_order(who.statuses@), complete_quests@, who.inventory@) {
                Some(i) => Some(i as usize),
                None => None,
            }
        },
        quest matches Some(i) ==> i < complete_quests@.len(),
{
    if !guid.is_creature() && !guid.is_game_object() {
        return None;
    }
    let ordered = active_quest_statuses_sorted(who.statuses.as_slice());
    assert(ordered@.skip(0) =~= ordered@);
    let mut k: usize = 0;
    while k < ordered.len()
        invariant
            k <= ordered@.len(),
            is_questgiver_guid(guid),
            ordered@ == quest_log_order(who.statuses@),
            inventory_counts_fit(who.inventory@),
            first_turnin(ordered@, complete_quests@, who.inventory@) == first_turnin(ordered@.skip(k as int), complete_quests@, who.inventory@),
        decreases ordered@.len() - k,
    {
        let status = ordered[k];
        assert(ordered@.skip(k as int)[0] == status);
        assert(ordered@.skip(k as int).skip(1) =~= ordered@.skip(k + 1));
        match find_quest_template(complete_quests, status.quest) {
            Some(i) => {
                if quest_status_can_reward_from_inventory(&status, &complete_quests[i], who.inventory.as_slice()) {
                    return Some(i);
                }
            },
            None => {},
        }
        k += 1;
    }
    assert(ordered@.skip(k as int).len() == 0);
    None
}

/// How a request to accept a quest fares.
#[derive(Clone, Copy, Debug, PartialEq, Eq, Structural)]
pub enum QuestAcceptCheck {
    /// Dropped without an answer: the giver does not start it, or the
    /// character may not take it.
    Ignore,
    /// The quest log is full.
    LogFull,
    /// The quest's source item does not fit in the bags.
    NoSpace,
    /// The quest is accepted.
    Accept,
}

pub open spec fn quest_accept_spec(
    giver_starts_quest: bool,
    quest: QuestTemplateQuery,
    who: QuestCharacter,
    facts: QuestStartFacts,
    log: QuestLog,
    source_storage: QuestSourceItemStorage,
) -> QuestAcceptCheck {
    if !giver_starts_quest || !can_take_spec(quest, who, facts) {
        QuestAcceptCheck::Ignore
    } else if !log.quest_log_slots@.contains(0) {
        QuestAcceptCheck::LogFull
    } else if source_storage is NoSpace {
        QuestAcceptCheck::NoSpace
    } else {
        QuestAcceptCheck::Accept
    }
}

/// Whether a quest offered by a giver is accepted: the giver must start
/// it and the character be able to take it; then the log needs a free
/// slot and the quest's source item room in the bags (`source_storage` is
/// the storage plan for it).
pub fn check_quest_accept(
    giver_starts_quest: bool,
    quest: &QuestTemplateQuery,
    who: &QuestCharacter,
    facts: &QuestStartFacts,
    log: &QuestLog,
    source_storage: &QuestSourceItemStorage,
) -> (check: QuestAcceptCheck)
    ensures
        check == quest_accept_spec(giver_starts_quest, *quest, *who, *facts, *log, *source_storage),
{
    if !giver_starts_quest {
        return QuestAcceptCheck::Ignore;
    }
    if !can_take_start_quest(
        quest,
        &who.character,
        who.skills.as_slice(),
        who.reputations.as_slice(),
        who.statuses.as_slice(),
        facts,
    ) {
        return QuestAcceptCheck::Ignore;
    }
    if !quest_log_has_free_slot(log) {
        return QuestAcceptCheck::LogFull;
    }
    match source_storage {
        QuestSourceItemStorage::NoSpace => QuestAcceptCheck::NoSpace,
        _ => QuestAcceptCheck::Accept,
    }
}

/// How a request to hand a quest in for a reward fares before the
/// rewards are stored.
#[derive(Clone, Copy, Debug, PartialEq, Eq, Structural)]
pub enum QuestRewardCheck {
    /// Dropped without an answer.
    Ignore,
    /// Not ready to hand in: refused with an item-not-found error; a quest
    /// recorded as complete is reopened first.
    NotReady { reopen: bool },
    /// Ready: the rewards are handed out; a quest still recorded as in
    /// progress is marked complete first.
    Ready { mark_complete: bool },
}

pub open spec fn quest_reward_spec(
    reward: u32,
    giver_completes_quest: bool,
    quest: QuestTemplateQuery,
    status: Option<CharacterQuestStatus>,
    inventory: Seq<CharacterInventoryItem>,
) -> QuestRewardCheck {
    if reward >= 6 || !giver_completes_quest || selected_reward_items_spec(&quest, reward) is None {
        QuestRewardCheck::Ignore
    } else {
        match status {
            None => QuestRewardCheck::Ignore,
            Some(s) => if !can_reward_spec(s, quest, inventory) {
                QuestRewardCheck::NotReady { reopen: s.status == QUEST_STATUS_COMPLETE }
            } else {
                QuestRewardCheck::Ready { mark_complete: s.status != QUEST_STATUS_COMPLETE }
            },
        }
    }
}

/// Whether a quest is handed in for reward choice `reward` (`status` is
/// the character's status for it): the choice must be one of the six and
/// name an offered item when the quest offers a choice, and the giver must
/// take the quest back; then it must be ready to hand in.
pub fn check_quest_reward(
    reward: u32,
    giver_completes_quest: bool,
    quest: &QuestTemplateQuery,
    status: Option<CharacterQuestStatus>,
    inventory: &[CharacterInventoryItem],
) -> (check: QuestRewardCheck)
    requires
        inventory_counts_fit(inventory@),
    ensures
        check == quest_reward_spec(reward, giver_completes_quest, *quest, status, inventory@),
{
    if reward >= 6 || !giver_completes_quest {
        return QuestRewardCheck::Ignore;
    }
    if selected_quest_reward_items(quest, reward).is_none() {
        return QuestRewardCheck::Ignore;
    }
    let s = match status {
        None => return QuestRewardCheck::Ignore,
        Some(s) => s,
    };
    if !quest_status_can_reward_from_inventory(&s, quest, inventory) {
        return QuestRewardCheck::NotReady { reopen: s.status == QUEST_STATUS_COMPLETE };
    }
    QuestRewardCheck::Ready { mark_complete: s.status != QUEST_STATUS_COMPLETE }
}

/// How a request to see a quest's rewards fares.
#[derive(Clone, Copy, Debug, PartialEq, Eq, Structural)]
pub enum RequestRewardCheck {
    /// Dropped without an answer.
    Ignore,
    /// The rewards are offered; a quest still recorded as in progress is
    /// marked complete first.
    Offer { mark_complete: bool },
}

pub open spec fn can_complete_status_spec(status: CharacterQuestStatus, quest: QuestTemplateQuery, inventory: Seq<CharacterInventoryItem>) -> bool {
    status.rewarded == 0 && status.status == QUEST_STATUS_INCOMPLETE && completion_requirements_spec(&status, &quest, inventory)
}

pub open spec fn request_reward_spec(
    giver_completes_quest: bool,
    quest: QuestTemplateQuery,
    status: Option<CharacterQuestStatus>,
    inventory: Seq<CharacterInventoryItem>,
) -> RequestRewardCheck {
    if !giver_completes_quest {
        RequestRewardCheck::Ignore
    } else {
        match status {
            None => RequestRewardCheck::Ignore,
            Some(s) => if s.status != QUEST_STATUS_COMPLETE {
                if can_complete_status_spec(s, quest, inventory) {
                    RequestRewardCheck::Offer { mark_complete: true }
                } else {
                    RequestRewardCheck::Ignore
                }
            } else if can_reward_spec(s, quest, inventory) {
                RequestRewardCheck::Offer { mark_complete: false }
            } else {
                RequestRewardCheck::Ignore
            },
        }
    }
}

/// Whether a giver offers a quest's rewards: it must take the quest back
/// and the character must be on it; a quest in progress whose
/// requirements are met becomes complete and is offered, a complete one
/// is offered while it is ready to hand in.
pub fn check_request_reward(
    giver_completes_quest: bool,
    quest: &QuestTemplateQuery,
    status: Option<CharacterQuestStatus>,
    inventory: &[CharacterInventoryItem],
) -> (check: RequestRewardCheck)
    requires
        inventory_counts_fit(inventory@),
    ensures
        check == request_reward_spec(giver_completes_quest, *quest, status, inventory@),
{
    if !giver_completes_quest {
        return RequestRewardCheck::Ignore;
    }
    let s = match status {
        None => return RequestRewardCheck::Ignore,
        Some(s) => s,
    };
    if s.status != QUEST_STATUS_COMPLETE {
        if quest_status_can_complete(&s, quest, inventory) {
            return RequestRewardCheck::Offer { mark_complete: true };
        }
        return RequestRewardCheck::Ignore;
    }
    if quest_status_can_reward_from_inventory(&s, quest, inventory) {
        RequestRewardCheck::Offer { mark_complete: false }
    } else {
        RequestRewardCheck::Ignore
    }
}

/// Whether the completion dialog shows a quest as done: a complete quest
/// while it is ready to hand in, any other while it could be completed.
pub fn quest_completion_ready(status: &CharacterQuestStatus, quest: &QuestTemplateQuery, inventory: &[CharacterInventoryItem]) -> (ready: bool)
    requires
        inventory_counts_fit(inventory@),
    ensures
        ready == if status.status == QUEST_STATUS_COMPLETE {
            can_reward_spec(*status, *quest, inventory@)
        } else {
            can_complete_status_spec(*status, *quest, inventory@)
        },
{
    if status.status == QUEST_STATUS_COMPLETE {
        quest_status_can_reward_from_inventory(status, quest, inventory)
    } else {
        quest_status_can_complete(status, quest, inventory)
    }
}

} // verus!
