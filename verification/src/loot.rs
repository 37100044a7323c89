//! Loot distribution rules: who may take an item from a shared corpse, when
//! a group roll starts, how corpse money is split, and whether a quest drop
//! is still needed.
use vstd::prelude::*;
use crate::guid::ObjectGuid;
use crate::inventory::{CharacterInventoryItem, StoreSlot};
use crate::quest::{CharacterQuestStatus, QuestTemplateQuery, QUEST_STATUS_INCOMPLETE, count_of_template, quest_inventory_item_count};

verus! {

pub const LOOT_METHOD_FREE_FOR_ALL: u8 = 0;
pub const LOOT_METHOD_ROUND_ROBIN: u8 = 1;
pub const LOOT_METHOD_MASTER_LOOT: u8 = 2;
pub const LOOT_METHOD_GROUP_LOOT: u8 = 3;
pub const LOOT_METHOD_NEED_BEFORE_GREED: u8 = 4;

/// The group loot rule a corpse was created under.
#[derive(Clone, Copy, Debug, PartialEq, Eq, Structural)]
pub struct CreatureLootMethod {
    pub method: u8,
    pub threshold: u8,
    pub master_looter: u32,
}

/// What the loot rules read of a creature spawn at run time.
#[derive(Clone, Debug)]
pub struct CreatureRuntime {
    pub npc_flags: u32,
    pub faction: u32,
    pub loot_method: Option<CreatureLootMethod>,
    pub loot_current_looter: Option<u32>,
    pub loot_current_looter_pass_slots: Vec<u8>,
    pub loot_roll_released_slots: Vec<u8>,
    pub loot_allowed_players: Vec<u32>,
}

/// One item lying in a creature's loot window.
#[derive(Clone, Copy, Debug, PartialEq, Eq, Structural)]
pub struct CreatureLootItem {
    pub slot: u8,
    pub item: u32,
    pub count: u32,
    pub quality: u8,
    pub quest_drop: bool,
    pub free_for_all: bool,
}

/// Whether `slots` holds `slot`.
pub fn slots_contain(slots: &[u8], slot: u8) -> (found: bool)
    ensures
        found == slots@.contains(slot),
{
    let mut i: usize = 0;
    while i < slots.len()
        invariant
            i <= slots.len(),
            forall|j: int| 0 <= j < i ==> slots@[j] != slot,
        decreases slots.len() - i,
    {
        if slots[i] == slot {
            assert(slots@[i as int] == slot);
            return true;
        }
        i += 1;
    }
    false
}

/// Whether a loot item's roll or pass state was released to others.
#[derive(Clone, Copy, Debug, PartialEq, Eq, Structural)]
pub struct LootItemReleaseState {
    pub roll_released: bool,
    pub current_looter_pass: bool,
}

impl LootItemReleaseState {
    /// The release state of loot slot `loot_slot` of `creature`.
    pub fn from_creature(creature: &CreatureRuntime, loot_slot: u8) -> (state: Self)
        ensures
            state.roll_released == creature.loot_roll_released_slots@.contains(loot_slot),
            state.current_looter_pass == creature.loot_current_looter_pass_slots@.contains(loot_slot),
    {
        LootItemReleaseState {
            roll_released: slots_contain(creature.loot_roll_released_slots.as_slice(), loot_slot),
            current_looter_pass: slots_contain(creature.loot_current_looter_pass_slots.as_slice(), loot_slot),
        }
    }
}

/// The loot method as the stored (method, threshold, master looter) triple.
pub fn db_creature_loot_method_tuple(method: Option<CreatureLootMethod>) -> (tuple: Option<(u8, u8, u32)>)
    ensures
        tuple == match method {
            Some(m) => Some((m.method, m.threshold, m.master_looter)),
            None => None,
        },
{
    match method {
        Some(m) => Some((m.method, m.threshold, m.master_looter)),
        None => None,
    }
}

pub open spec fn group_roll_spec(creature: CreatureRuntime, loot: CreatureLootItem) -> bool {
    match creature.loot_method {
        Some(m) => m.method == LOOT_METHOD_GROUP_LOOT && !loot.quest_drop && !loot.free_for_all && loot.quality >= m.threshold,
        None => false,
    }
}

/// Group loot rolls on shared items at or above the quality threshold.
pub fn should_use_group_loot_roll(creature: &CreatureRuntime, loot: &CreatureLootItem) -> (roll: bool)
    ensures
        roll == group_roll_spec(*creature, *loot),
{
    match creature.loot_method {
        Some(m) => {
            if m.method != LOOT_METHOD_GROUP_LOOT {
                return false;
            }
            if loot.quest_drop || loot.free_for_all {
                return false;
            }
            loot.quality >= m.threshold
        },
        None => false,
    }
}

/// Whether `character_guid` may take `loot` straight into its bags.
pub open spec fn can_autostore_spec(character_guid: u32, creature: CreatureRuntime, loot: CreatureLootItem) -> bool {
    match creature.loot_method {
        None => true,
        Some(m) => {
            let under_threshold = loot.quest_drop || loot.quality < m.threshold;
            let current = creature.loot_current_looter == Some(character_guid);
            let passed = creature.loot_current_looter_pass_slots@.contains(loot.slot);
            let released = creature.loot_roll_released_slots@.contains(loot.slot);
            if loot.free_for_all {
                true
            } else if m.method == LOOT_METHOD_FREE_FOR_ALL {
                true
            } else if m.method == LOOT_METHOD_ROUND_ROBIN || m.method == LOOT_METHOD_NEED_BEFORE_GREED {
                !under_threshold || current || passed || released
            } else if m.method == LOOT_METHOD_GROUP_LOOT {
                (under_threshold && (current || passed)) || released
            } else if m.method == LOOT_METHOD_MASTER_LOOT {
                under_threshold && (current || passed || released)
            } else {
                true
            }
        },
    }
}

pub fn can_autostore_shared_creature_loot(character_guid: u32, creature: &CreatureRuntime, loot: &CreatureLootItem) -> (can: bool)
    ensures
        can == can_autostore_spec(character_guid, *creature, *loot),
{
    let m = match creature.loot_method {
        None => return true,
        Some(m) => m,
    };
    if loot.free_for_all {
        return true;
    }
    let under_threshold = loot.quest_drop || loot.quality < m.threshold;
    let current = match creature.loot_current_looter {
        Some(g) => g == character_guid,
        None => false,
    };
    let passed = slots_contain(creature.loot_current_looter_pass_slots.as_slice(), loot.slot);
    let released = slots_contain(creature.loot_roll_released_slots.as_slice(), loot.slot);
    if m.method == LOOT_METHOD_FREE_FOR_ALL {
        true
    } else if m.method == LOOT_METHOD_ROUND_ROBIN || m.method == LOOT_METHOD_NEED_BEFORE_GREED {
        !under_threshold || current || passed || released
    } else if m.method == LOOT_METHOD_GROUP_LOOT {
        (under_threshold && (current || passed)) || released
    } else if m.method == LOOT_METHOD_MASTER_LOOT {
        under_threshold && (current || passed || released)
    } else {
        true
    }
}

/// Under master loot, items at or above the threshold are the master
/// looter's to hand out: everyone else is blocked.
pub open spec fn master_block_spec(creature: CreatureRuntime, character_guid: u32, loot: CreatureLootItem) -> bool {
    match creature.loot_method {
        Some(m) => m.method == LOOT_METHOD_MASTER_LOOT && character_guid != m.master_looter && loot.quality >= m.threshold,
        None => false,
    }
}

pub fn should_block_master_loot(creature: &CreatureRuntime, character_guid: u32, loot: &CreatureLootItem) -> (block: bool)
    ensures
        block == master_block_spec(*creature, character_guid, *loot),
{
    match creature.loot_method {
        Some(m) => {
            if m.method != LOOT_METHOD_MASTER_LOOT || character_guid == m.master_looter {
                return false;
            }
            loot.quality >= m.threshold
        },
        None => false,
    }
}

/// What becomes of an item a character asks to store from a shared
/// creature corpse.
#[derive(Clone, Copy, Debug, PartialEq, Eq, Structural)]
pub enum CreatureLootTake {
    /// Not the character's to take: it goes back with its release state.
    Refuse,
    /// A group roll starts for it, and it goes back meanwhile.
    StartRoll,
    /// Only the master looter may hand it out: it goes back.
    MasterOnly,
    /// The character stores it.
    Store,
}

pub open spec fn loot_take_spec(character_guid: u32, creature: CreatureRuntime, loot: CreatureLootItem, loot_slot: u8) -> CreatureLootTake {
    if !can_autostore_spec(character_guid, creature, loot) {
        CreatureLootTake::Refuse
    } else if !creature.loot_roll_released_slots@.contains(loot_slot) && group_roll_spec(creature, loot) {
        CreatureLootTake::StartRoll
    } else if master_block_spec(creature, character_guid, loot) {
        CreatureLootTake::MasterOnly
    } else {
        CreatureLootTake::Store
    }
}

/// The fate of the item in slot `loot_slot` of a shared corpse that
/// `character_guid` asks to store: refused unless the loot rules let the
/// character take it, held for a group roll unless its roll was already
/// released, held for the master looter, or stored.
pub fn creature_loot_take_decision(
    character_guid: u32,
    creature: &CreatureRuntime,
    loot: &CreatureLootItem,
    loot_slot: u8,
) -> (take: CreatureLootTake)
    ensures
        take == loot_take_spec(character_guid, *creature, *loot, loot_slot),
{
    if !can_autostore_shared_creature_loot(character_guid, creature, loot) {
        return CreatureLootTake::Refuse;
    }
    if !slots_contain(creature.loot_roll_released_slots.as_slice(), loot_slot) && should_use_group_loot_roll(creature, loot) {
        return CreatureLootTake::StartRoll;
    }
    if should_block_master_loot(creature, character_guid, loot) {
        return CreatureLootTake::MasterOnly;
    }
    CreatureLootTake::Store
}

pub open spec fn master_assignment_spec(
    character_guid: u32,
    loot_guid: ObjectGuid,
    creature_guid: u64,
    creature: CreatureRuntime,
    loot: CreatureLootItem,
    target: ObjectGuid,
) -> bool {
    &&& target.is_player()
    &&& creature_guid == loot_guid.raw
    &&& match creature.loot_method {
        Some(m) => m.method == LOOT_METHOD_MASTER_LOOT && m.master_looter == character_guid && loot.quality >= m.threshold,
        None => false,
    }
    &&& creature.loot_allowed_players@.contains(target.counter())
}

/// Whether the master looter `character_guid` may hand `loot`, taken from
/// the corpse `creature_guid`, to `target`: the target is a player allowed
/// to loot, the corpse is the one the request names, and the corpse is
/// under master loot with this master and the item at or above the
/// threshold.
pub fn valid_master_loot_assignment(
    character_guid: u32,
    loot_guid: ObjectGuid,
    creature_guid: u64,
    creature: &CreatureRuntime,
    loot: &CreatureLootItem,
    target: ObjectGuid,
) -> (valid: bool)
    ensures
        valid == master_assignment_spec(character_guid, loot_guid, creature_guid, *creature, *loot, target),
{
    if !target.is_player() || creature_guid != loot_guid.raw {
        return false;
    }
    let method_ok = match creature.loot_method {
        Some(m) => m.method == LOOT_METHOD_MASTER_LOOT && m.master_looter == character_guid && loot.quality >= m.threshold,
        None => false,
    };
    if !method_ok {
        return false;
    }
    let target_counter = target.counter();
    let mut i: usize = 0;
    while i < creature.loot_allowed_players.len()
        invariant
            i <= creature.loot_allowed_players@.len(),
            target_counter == target.counter(),
            target.is_player(),
            creature_guid == loot_guid.raw,
            match creature.loot_method {
                Some(m) => m.method == LOOT_METHOD_MASTER_LOOT && m.master_looter == character_guid && loot.quality >= m.threshold,
                None => false,
            },
            forall|j: int| 0 <= j < i ==> creature.loot_allowed_players@[j] != target_counter,
        decreases creature.loot_allowed_players@.len() - i,
    {
        if creature.loot_allowed_players[i] == target_counter {
            assert(creature.loot_allowed_players@[i as int] == target_counter);
            return true;
        }
        i += 1;
    }
    false
}

/// `rand::Rng::gen_range` over `min..=max` on the thread-local generator:
/// a number of the range, drawn by chance; which one is left unsaid.
#[verifier::external_body]
fn random_u32_between(min: u32, max: u32) -> (n: u32)
    requires
        min <= max,
    ensures
        min <= n <= max,
{
    rand::Rng::gen_range(&mut rand::thread_rng(), min..=max)
}

/// The fewest items a drop gives: its stored minimum, at least one.
pub open spec fn loot_count_low(min_count: u32) -> u32 {
    if min_count > 1 { min_count } else { 1 }
}

/// The most items a drop gives: its stored maximum, at least the fewest.
pub open spec fn loot_count_high(min_count: u32, max_count: u32) -> u32 {
    if max_count > loot_count_low(min_count) { max_count } else { loot_count_low(min_count) }
}

/// The count a drop gives for a drawn number `rolled`: the number kept
/// between the drop's fewest and most.
pub fn clamp_loot_count(min_count: u32, max_count: u32, rolled: u32) -> (count: u32)
    ensures
        count == if rolled < loot_count_low(min_count) {
            loot_count_low(min_count)
        } else if rolled > loot_count_high(min_count, max_count) {
            loot_count_high(min_count, max_count)
        } else {
            rolled
        },
{
    let low = if min_count > 1 { min_count } else { 1 };
    let high = if max_count > low { max_count } else { low };
    if rolled < low {
        low
    } else if rolled > high {
        high
    } else {
        rolled
    }
}

/// Draws a number between `min` and `max`, both included, by chance: the
/// roll behind drop counts and equal-chance picks.
pub fn draw_loot_number(min: u32, max: u32) -> (n: u32)
    requires
        min <= max,
    ensures
        min <= n <= max,
{
    random_u32_between(min, max)
}

/// Draws the count of a dropped item: some number between the drop's
/// fewest and most.
pub fn roll_loot_count(min_count: u32, max_count: u32) -> (count: u32)
    ensures
        loot_count_low(min_count) <= count <= loot_count_high(min_count, max_count),
{
    let low = if min_count > 1 { min_count } else { 1 };
    let high = if max_count > low { max_count } else { low };
    let rolled = draw_loot_number(low, high);
    clamp_loot_count(min_count, max_count, rolled)
}

/// Draws one of `len` equally likely rows of a loot group: its position.
pub fn pick_equal_chance_row(len: usize) -> (index: usize)
    requires
        0 < len,
    ensures
        index < len,
{
    let last_row: usize = len - 1;
    let last = #[verifier::truncate] (last_row as u32);
    let rolled = draw_loot_number(0, last);
    if rolled < last { rolled as usize } else { last as usize }
}

/// One write that stores looted items.
#[derive(Clone, Copy, Debug, PartialEq, Eq, Structural)]
pub enum LootStoreWrite {
    /// An existing stack takes the new count.
    SetCount { item: u32, count: u32 },
    /// A new stack of `count` goes to `(bag, slot)`.
    Add { bag: u8, slot: u8, count: u32 },
}

/// The count of the first stack that is instance `item` (0 when none is).
pub open spec fn stack_count_of(inventory: Seq<CharacterInventoryItem>, item: u32) -> u32
    decreases inventory.len(),
{
    if inventory.len() == 0 {
        0
    } else if inventory[0].item == item {
        inventory[0].count
    } else {
        stack_count_of(inventory.skip(1), item)
    }
}

pub open spec fn store_write_spec(inventory: Seq<CharacterInventoryItem>, slot: StoreSlot) -> LootStoreWrite {
    match slot.existing_item {
        Some(item) => LootStoreWrite::SetCount {
            item,
            count: if stack_count_of(inventory, item) + slot.count > u32::MAX {
                u32::MAX
            } else {
                (stack_count_of(inventory, item) + slot.count) as u32
            },
        },
        None => LootStoreWrite::Add { bag: slot.bag, slot: slot.slot, count: slot.count },
    }
}

fn stack_count(inventory: &[CharacterInventoryItem], item: u32) -> (count: u32)
    ensures
        count == stack_count_of(inventory@, item),
{
    assert(inventory@.skip(0) =~= inventory@);
    let mut i: usize = 0;
    while i < inventory.len()
        invariant
            i <= inventory@.len(),
            stack_count_of(inventory@, item) == stack_count_of(inventory@.skip(i as int), item),
        decreases inventory@.len() - i,
    {
        assert(inventory@.skip(i as int)[0] == inventory@[i as int]);
        assert(inventory@.skip(i as int).skip(1) =~= inventory@.skip(i + 1));
        if inventory[i].item == item {
            return inventory[i].count;
        }
        i += 1;
    }
    0
}

/// The writes that carry out a storage plan for looted items: an existing
/// stack is raised by the planned count (saturating), an empty slot gets
/// a new stack.
pub fn loot_store_writes(inventory: &[CharacterInventoryItem], plan: &[StoreSlot]) -> (writes: Vec<LootStoreWrite>)
    ensures
        writes@.len() == plan@.len(),
        forall|i: int| 0 <= i < plan@.len() ==> #[trigger] writes@[i] == store_write_spec(inventory@, plan@[i]),
{
    let mut writes: Vec<LootStoreWrite> = Vec::new();
    let mut i: usize = 0;
    while i < plan.len()
        invariant
            i <= plan@.len(),
            writes@.len() == i,
            forall|k: int| 0 <= k < i ==> #[trigger] writes@[k] == store_write_spec(inventory@, plan@[k]),
        decreases plan@.len() - i,
    {
        let slot = plan[i];
        let write = match slot.existing_item {
            Some(item) => LootStoreWrite::SetCount { item, count: stack_count(inventory, item).saturating_add(slot.count) },
            None => LootStoreWrite::Add { bag: slot.bag, slot: slot.slot, count: slot.count },
        };
        writes.push(write);
        i += 1;
    }
    writes
}

/// A sequence in strictly increasing order (so without repeats).
pub open spec fn strictly_increasing(s: Seq<u32>) -> bool {
    forall|i: int, j: int| 0 <= i < j < s.len() ==> s[i] < s[j]
}

/// The players a corpse's money goes to: the looter alone without a group
/// rule, else every allowed player (the looter when none is recorded),
/// ascending and without repeats.
pub open spec fn money_recipient_set(creature: CreatureRuntime, looter_guid: u32) -> Set<u32> {
    if creature.loot_method is None || creature.loot_allowed_players@.len() == 0 {
        set![looter_guid]
    } else {
        creature.loot_allowed_players@.to_set()
    }
}

/// Inserts `value` into a strictly increasing vector unless it is there.
fn insert_sorted_unique(v: &mut Vec<u32>, value: u32)
    requires
        strictly_increasing(old(v)@),
    ensures
        strictly_increasing(final(v)@),
        final(v)@.to_set() == old(v)@.to_set().insert(value),
        final(v)@.len() <= old(v)@.len() + 1,
{
    let mut i: usize = 0;
    while i < v.len() && v[i] < value
        invariant
            i <= v.len(),
            forall|j: int| 0 <= j < i ==> v@[j] < value,
        decreases v.len() - i,
    {
        i += 1;
    }
    if i < v.len() && v[i] == value {
        assert(v@.to_set().insert(value) =~= v@.to_set()) by {
            assert(v@.contains(value));
        }
        return;
    }
    let ghost before = v@;
    v.insert(i, value);
    assert(v@ =~= before.subrange(0, i as int).push(value) + before.subrange(i as int, before.len() as int));
    assert forall|x: u32| #[trigger] v@.contains(x) <==> before.contains(x) || x == value by {
        if v@.contains(x) {
            let k = choose|k: int| 0 <= k < v@.len() && #[trigger] v@[k] == x;
            if k < i {
                assert(before[k] == x);
            } else if k > i {
                assert(before[k - 1] == x);
            }
        }
        if before.contains(x) {
            let k = choose|k: int| 0 <= k < before.len() && #[trigger] before[k] == x;
            if k < i {
                assert(v@[k] == x);
            } else {
                assert(v@[k + 1] == x);
            }
        }
        if x == value {
            assert(v@[i as int] == x);
        }
    }
    assert(v@.to_set() =~= before.to_set().insert(value));
}

pub fn creature_loot_money_recipients(creature: &CreatureRuntime, looter_guid: u32) -> (recipients: Vec<u32>)
    ensures
        strictly_increasing(recipients@),
        recipients@.to_set() == money_recipient_set(*creature, looter_guid),
        recipients@.len() <= if creature.loot_method is None || creature.loot_allowed_players@.len() == 0 {
            1
        } else {
            creature.loot_allowed_players@.len()
        },
{
    let mut recipients: Vec<u32> = Vec::new();
    if creature.loot_method.is_none() || creature.loot_allowed_players.len() == 0 {
        recipients.push(looter_guid);
        assert(recipients@.to_set() =~= set![looter_guid]) by {
            assert(recipients@ =~= seq![looter_guid]);
            assert forall|x: u32| recipients@.contains(x) <==> x == looter_guid by {
                if x == looter_guid {
                    assert(recipients@[0] == x);
                }
            }
        }
        return recipients;
    }
    let players = &creature.loot_allowed_players;
    let mut i: usize = 0;
    while i < players.len()
        invariant
            i <= players.len(),
            strictly_increasing(recipients@),
            recipients@.to_set() == players@.take(i as int).to_set(),
            recipients@.len() <= i,
        decreases players.len() - i,
    {
        let ghost prefix = players@.take(i as int);
        insert_sorted_unique(&mut recipients, players[i]);
        assert(players@.take(i + 1) =~= prefix.push(players@[i as int]));
        assert(players@.take(i + 1).to_set() =~= prefix.to_set().insert(players@[i as int])) by {
            assert forall|x: u32| #[trigger] players@.take(i + 1).contains(x) <==> prefix.contains(x) || x == players@[i as int] by {
                if players@.take(i + 1).contains(x) {
                    let k = choose|k: int| 0 <= k < i + 1 && #[trigger] players@.take(i + 1)[k] == x;
                    if k < i {
                        assert(prefix[k] == x);
                    }
                }
                if prefix.contains(x) {
                    let k = choose|k: int| 0 <= k < i && #[trigger] prefix[k] == x;
                    assert(players@.take(i + 1)[k] == x);
                }
                if x == players@[i as int] {
                    assert(players@.take(i + 1)[i as int] == x);
                }
            }
        }
        i += 1;
    }
    assert(players@.take(players@.len() as int) =~= players@);
    recipients
}

/// Each recipient's share: the money divided by the number of allowed
/// players (at least one) under a group rule, all of it otherwise.
pub fn creature_loot_money_share(creature: &CreatureRuntime, gained_money: u32) -> (share: u32)
    requires
        creature.loot_method is Some ==> creature.loot_allowed_players@.len() <= u32::MAX,
    ensures
        share == if creature.loot_method is Some && creature.loot_allowed_players@.len() > 1 {
            (gained_money as nat / creature.loot_allowed_players@.len()) as u32
        } else {
            gained_money
        },
{
    let divisor: usize = if creature.loot_method.is_some() && creature.loot_allowed_players.len() > 1 {
        creature.loot_allowed_players.len()
    } else {
        1
    };
    assert(divisor as u32 == divisor);
    gained_money / divisor as u32
}

// ---------------------------------------------------------------------------
// Quest drops

/// The index of the first quest template with entry `quest`.
pub open spec fn quest_index_for(quests: Seq<QuestTemplateQuery>, quest: u32) -> Option<int>
    decreases quests.len(),
{
    if quests.len() == 0 {
        None
    } else {
        match quest_index_for(quests.drop_last(), quest) {
            Some(i) => Some(i),
            None => if quests.last().entry == quest { Some(quests.len() - 1) } else { None },
        }
    }
}

proof fn lemma_quest_index_prefix(quests: Seq<QuestTemplateQuery>, quest: u32, n: int)
    requires
        0 <= n <= quests.len(),
        quest_index_for(quests.take(n), quest) is Some,
    ensures
        quest_index_for(quests, quest) == quest_index_for(quests.take(n), quest),
    decreases quests.len() - n,
{
    if n < quests.len() {
        assert(quests.take(n + 1).drop_last() =~= quests.take(n));
        lemma_quest_index_prefix(quests, quest, n + 1);
    } else {
        assert(quests.take(n) =~= quests);
    }
}

pub proof fn lemma_quest_index_in_range(quests: Seq<QuestTemplateQuery>, quest: u32)
    ensures
        quest_index_for(quests, quest) matches Some(i) ==> 0 <= i < quests.len() && quests[i].entry == quest,
    decreases quests.len(),
{
    if quests.len() > 0 {
        lemma_quest_index_in_range(quests.drop_last(), quest);
    }
}

/// Looks up the template of quest `quest`.
pub fn find_quest_template(quests: &[QuestTemplateQuery], quest: u32) -> (index: Option<usize>)
    ensures
        match index {
            Some(i) => quest_index_for(quests@, quest) == Some(i as int),
            None => quest_index_for(quests@, quest) is None,
        },
        index matches Some(i) ==> i < quests@.len() && quests@[i as int].entry == quest,
{
    proof { lemma_quest_index_in_range(quests@, quest); }
    let mut i: usize = 0;
    while i < quests.len()
        invariant
            i <= quests.len(),
            quest_index_for(quests@.take(i as int), quest) is None,
        decreases quests.len() - i,
    {
        assert(quests@.take(i + 1).drop_last() =~= quests@.take(i as int));
        if quests[i].entry == quest {
            proof { lemma_quest_index_prefix(quests@, quest, (i + 1) as int); }
            return Some(i);
        }
        i += 1;
    }
    assert(quests@.take(quests@.len() as int) =~= quests@);
    None
}

/// The configured default count of quest source item `item` (0 if none).
pub open spec fn default_count_for(defaults: Seq<(u32, u32)>, item: u32) -> u32
    decreases defaults.len(),
{
    if defaults.len() == 0 {
        0
    } else if defaults[0].0 == item {
        defaults[0].1
    } else {
        default_count_for(defaults.drop_first(), item)
    }
}

fn find_default_count(defaults: &[(u32, u32)], item: u32) -> (count: u32)
    ensures
        count == default_count_for(defaults@, item),
{
    let mut i: usize = 0;
    assert(defaults@.skip(0) =~= defaults@);
    while i < defaults.len()
        invariant
            i <= defaults.len(),
            default_count_for(defaults@, item) == default_count_for(defaults@.skip(i as int), item),
        decreases defaults.len() - i,
    {
        assert(defaults@.skip(i as int)[0] == defaults@[i as int]);
        assert(defaults@.skip(i as int).drop_first() =~= defaults@.skip(i + 1));
        if defaults[i].0 == item {
            return defaults[i].1;
        }
        i += 1;
    }
    0
}

/// Quest `quest` still wants `item`: it is a required item the character
/// holds fewer of than asked, or a source item with a positive required
/// count (its own or the default) not yet reached.
pub open spec fn quest_wants_item(quest: QuestTemplateQuery, item: u32, owned: nat, default_count: u32) -> bool {
    ||| exists|j: int| 0 <= j < 4 && #[trigger] quest.req_item_id@[j] == item && owned < quest.req_item_count@[j]
        && quest.req_item_count@[j] > 0
    ||| exists|j: int| 0 <= j < 4 && #[trigger] quest.req_source_id@[j] == item && {
        let required = if quest.req_source_count@[j] > 0 { quest.req_source_count@[j] } else { default_count };
        required > 0 && owned < required
    }
}

/// Some quest in progress (not rewarded) still wants `item`.
pub open spec fn needs_quest_loot_spec(
    item: u32,
    quests: Seq<QuestTemplateQuery>,
    statuses: Seq<CharacterQuestStatus>,
    inventory: Seq<CharacterInventoryItem>,
    defaults: Seq<(u32, u32)>,
) -> bool {
    exists|i: int| 0 <= i < statuses.len() && #[trigger] statuses[i].rewarded == 0
        && statuses[i].status == QUEST_STATUS_INCOMPLETE
        && match quest_index_for(quests, statuses[i].quest) {
            Some(k) => quest_wants_item(quests[k], item, count_of_template(inventory, item), default_count_for(defaults, item)),
            None => false,
        }
}

fn quest_wants_item_exec(quest: &QuestTemplateQuery, item: u32, owned: u32, default_count: u32) -> (wants: bool)
    ensures
        wants == quest_wants_item(*quest, item, owned as nat, default_count),
{
    let mut j: usize = 0;
    while j < 4
        invariant
            j <= 4,
            forall|k: int| 0 <= k < j ==> !(#[trigger] quest.req_item_id@[k] == item && owned < quest.req_item_count@[k]
                && quest.req_item_count@[k] > 0),
        decreases 4 - j,
    {
        if quest.req_item_id[j] == item && owned < quest.req_item_count[j] && quest.req_item_count[j] > 0 {
            return true;
        }
        j += 1;
    }
    let mut j: usize = 0;
    while j < 4
        invariant
            j <= 4,
            !(exists|k: int| 0 <= k < 4 && #[trigger] quest.req_item_id@[k] == item && owned < quest.req_item_count@[k]
                && quest.req_item_count@[k] > 0),
            forall|k: int| 0 <= k < j ==> !(#[trigger] quest.req_source_id@[k] == item && {
                let required = if quest.req_source_count@[k] > 0 { quest.req_source_count@[k] } else { default_count };
                required > 0 && owned < required
            }),
        decreases 4 - j,
    {
        if quest.req_source_id[j] == item {
            let required = if quest.req_source_count[j] > 0 { quest.req_source_count[j] } else { default_count };
            if required > 0 && owned < required {
                return true;
            }
        }
        j += 1;
    }
    false
}

/// Whether the character still needs quest drop `item_id` for a quest in
/// progress.
pub fn player_needs_quest_loot_item(
    item_id: u32,
    active_quests: &[QuestTemplateQuery],
    quest_statuses: &[CharacterQuestStatus],
    inventory: &[CharacterInventoryItem],
    source_item_default_counts: &[(u32, u32)],
) -> (needs: bool)
    requires
        count_of_template(inventory@, item_id) <= u32::MAX,
    ensures
        needs == needs_quest_loot_spec(item_id, active_quests@, quest_statuses@, inventory@, source_item_default_counts@),
{
    let owned = quest_inventory_item_count(inventory, item_id);
    let default_count = find_default_count(source_item_default_counts, item_id);
    let mut i: usize = 0;
    while i < quest_statuses.len()
        invariant
            i <= quest_statuses.len(),
            owned as nat == count_of_template(inventory@, item_id),
            default_count == default_count_for(source_item_default_counts@, item_id),
            forall|k: int| 0 <= k < i ==> !(#[trigger] quest_statuses@[k].rewarded == 0
                && quest_statuses@[k].status == QUEST_STATUS_INCOMPLETE
                && match quest_index_for(active_quests@, quest_statuses@[k].quest) {
                    Some(q) => quest_wants_item(active_quests@[q], item_id, owned as nat, default_count),
                    None => false,
                }),
        decreases quest_statuses.len() - i,
    {
        let status = quest_statuses[i];
        if status.rewarded == 0 && status.status == QUEST_STATUS_INCOMPLETE {
            match find_quest_template(active_quests, status.quest) {
                Some(q) => {
                    if quest_wants_item_exec(&active_quests[q], item_id, owned, default_count) {
                        assert(quest_statuses@[i as int].rewarded == 0);
                        return true;
                    }
                },
                None => {},
            }
        }
        i += 1;
    }
    false
}

} // verus!
