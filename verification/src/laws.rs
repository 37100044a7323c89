//! Properties that hold across the library's operations.
use vstd::prelude::*;
use crate::auction::{min_outbid_spec, page_spec, AUCTION_CLIENT_PAGE_SIZE, AuctionInfoResponse};
use crate::equipment::{item_fits_equipment_slot, preferred_equipment_slot};
use crate::character::reputation_rank_from_standing;
use crate::inventory::{CLIENT_INVENTORY_SLOT_BAG_0, normalize_client_bag, client_bag_id,
    CharacterInventoryItem, EquippedBagInfo, ItemTemplateQuery, StoreSlot, greedy_fill, plan_candidates, plan_spec,
    free_candidates, free_candidates_in_range, stack_candidates, stack_candidates_in_bag, scope_slot_range,
    template_max_stack, store_bag_order_spec,
};

use crate::auction_search::{matches_search_spec, AuctionListItemsRequest};
use crate::bank::bank_slot_purchase_spec;
use crate::character::{ActiveCharacter, CharacterReputation, CharacterSkill};
use crate::death::{ghost_flags_spec, living_flags_spec, PLAYER_FLAGS_GHOST};
use crate::loot::{
    needs_quest_loot_spec, quest_wants_item, default_count_for,
    can_autostore_spec, loot_take_spec, master_block_spec, quest_index_for, lemma_quest_index_in_range, CreatureLootItem,
    CreatureLootTake, CreatureRuntime,
};
use crate::quest::{
    can_complete_spec, can_reward_from_inventory_spec, completion_requirements_spec, count_of_template,
    lemma_count_prefix, QUEST_STATUS_INCOMPLETE,
    abandoned_status, lemma_status_index, quest_is_current_spec, status_for, status_index,
    quest_status_creature_or_go_count, CharacterQuestStatus, QuestStartFacts, QuestTemplateQuery};
use crate::quest_progress::kill_credit_spec;
use crate::questgiver::{
    complete_choices, listed_for_completion, start_choices, visible_quests_spec, QuestListChoice, can_reward_spec, complete_mark_spec, complete_marks_max, dialog_status_spec, first_turnin, is_questgiver_guid,
    mark_value, start_mark_spec, start_marks_max, QuestCharacter,
};
use crate::trainer::{knows_spell, trainer_purchase_spec, trainer_spell_index, CharacterSpell, TrainerSpellQuery};
use crate::guid::ObjectGuid;

verus! {

/// The number of items a list of destinations holds.
pub open spec fn total_count(slots: Seq<StoreSlot>) -> nat
    decreases slots.len(),
{
    if slots.len() == 0 {
        0
    } else {
        slots[0].count as nat + total_count(slots.drop_first())
    }
}

pub open spec fn all_positive(slots: Seq<StoreSlot>) -> bool {
    forall|k: int| 0 <= k < slots.len() ==> #[trigger] slots[k].count >= 1
}

/// Every destination holds between one and `max` items.
pub open spec fn all_within(slots: Seq<StoreSlot>, max: u32) -> bool {
    forall|k: int| 0 <= k < slots.len() ==> 1 <= #[trigger] slots[k].count <= max
}

proof fn lemma_total_count_append(a: Seq<StoreSlot>, b: Seq<StoreSlot>)
    ensures
        total_count(a + b) == total_count(a) + total_count(b),
    decreases a.len(),
{
    if a.len() > 0 {
        assert((a + b).drop_first() =~= a.drop_first() + b);
        lemma_total_count_append(a.drop_first(), b);
    } else {
        assert(a + b =~= b);
    }
}

/// Filling destinations front to back places exactly the asked count
/// whenever the destinations have room for it, and fails exactly when they
/// do not; each destination keeps its place and gets between one item and
/// its room.
pub proof fn law_greedy_fill_places_exactly(candidates: Seq<StoreSlot>, remaining: nat)
    requires
        all_positive(candidates),
    ensures
        (greedy_fill(candidates, remaining) is Some) <==> total_count(candidates) >= remaining,
        greedy_fill(candidates, remaining) matches Some(plan) ==> {
            &&& total_count(plan) == remaining
            &&& plan.len() <= candidates.len()
            &&& forall|k: int| 0 <= k < plan.len() ==> {
                &&& 1 <= #[trigger] plan[k].count <= candidates[k].count
                &&& plan[k].bag == candidates[k].bag
                &&& plan[k].slot == candidates[k].slot
                &&& plan[k].existing_item == candidates[k].existing_item
            }
        },
    decreases candidates.len(),
{
    if remaining == 0 {
    } else if candidates.len() == 0 {
    } else {
        let first = candidates[0];
        let take: nat = if remaining < first.count { remaining } else { first.count as nat };
        let rest = candidates.drop_first();
        assert(all_positive(rest)) by {
            assert forall|k: int| 0 <= k < rest.len() implies #[trigger] rest[k].count >= 1 by {
                assert(rest[k] == candidates[k + 1]);
            }
        }
        law_greedy_fill_places_exactly(rest, (remaining - take) as nat);
        match greedy_fill(rest, (remaining - take) as nat) {
            Some(tail) => {
                let head = StoreSlot { count: take as u32, ..first };
                let plan = seq![head] + tail;
                assert(plan.drop_first() =~= tail);
                assert(plan[0] == head);
                assert forall|k: int| 0 <= k < plan.len() implies {
                    &&& 1 <= #[trigger] plan[k].count <= candidates[k].count
                    &&& plan[k].bag == candidates[k].bag
                    &&& plan[k].slot == candidates[k].slot
                    &&& plan[k].existing_item == candidates[k].existing_item
                } by {
                    if k > 0 {
                        assert(plan[k] == tail[k - 1]);
                        assert(rest[k - 1] == candidates[k]);
                    }
                }
            },
            None => {},
        }
    }
}

proof fn lemma_within_append(a: Seq<StoreSlot>, b: Seq<StoreSlot>, max: u32)
    requires
        all_within(a, max),
        all_within(b, max),
    ensures
        all_within(a + b, max),
{
    assert forall|k: int| 0 <= k < (a + b).len() implies 1 <= #[trigger] (a + b)[k].count <= max by {
        if k < a.len() {
            assert((a + b)[k] == a[k]);
        } else {
            assert((a + b)[k] == b[k - a.len()]);
        }
    }
}

proof fn lemma_stack_candidates_in_bag_positive(
    inventory: Seq<CharacterInventoryItem>,
    bag: u8,
    template: ItemTemplateQuery,
    max_stack: u32,
    skip_item: Option<u32>,
    bank: Option<u8>,
    bags: Seq<EquippedBagInfo>,
)
    ensures
        all_within(stack_candidates_in_bag(inventory, bag, template, max_stack, skip_item, bank, bags), max_stack),
    decreases inventory.len(),
{
    if inventory.len() > 0 {
        let before = stack_candidates_in_bag(inventory.drop_last(), bag, template, max_stack, skip_item, bank, bags);
        lemma_stack_candidates_in_bag_positive(inventory.drop_last(), bag, template, max_stack, skip_item, bank, bags);
        let all = stack_candidates_in_bag(inventory, bag, template, max_stack, skip_item, bank, bags);
        assert forall|k: int| 0 <= k < all.len() implies 1 <= #[trigger] all[k].count <= max_stack by {
            if k < before.len() {
                assert(all[k] == before[k]);
            }
        }
    }
}

proof fn lemma_stack_candidates_positive(
    inventory: Seq<CharacterInventoryItem>,
    order: Seq<u8>,
    template: ItemTemplateQuery,
    max_stack: u32,
    skip_item: Option<u32>,
    bank: Option<u8>,
    bags: Seq<EquippedBagInfo>,
)
    ensures
        all_within(stack_candidates(inventory, order, template, max_stack, skip_item, bank, bags), max_stack),
    decreases order.len(),
{
    if order.len() > 0 {
        lemma_stack_candidates_positive(inventory, order.drop_last(), template, max_stack, skip_item, bank, bags);
        lemma_stack_candidates_in_bag_positive(inventory, order.last(), template, max_stack, skip_item, bank, bags);
        let a = stack_candidates(inventory, order.drop_last(), template, max_stack, skip_item, bank, bags);
        let b = stack_candidates_in_bag(inventory, order.last(), template, max_stack, skip_item, bank, bags);
        lemma_within_append(a, b, max_stack);
    }
}

proof fn lemma_free_candidates_in_range_positive(
    inventory: Seq<CharacterInventoryItem>,
    bag: u8,
    start: int,
    end: int,
    max_stack: u32,
    skip_item: Option<u32>,
)
    requires
        max_stack >= 1,
    ensures
        all_within(free_candidates_in_range(inventory, bag, start, end, max_stack, skip_item), max_stack),
    decreases end - start,
{
    if end > start {
        lemma_free_candidates_in_range_positive(inventory, bag, start, end - 1, max_stack, skip_item);
        let a = free_candidates_in_range(inventory, bag, start, end - 1, max_stack, skip_item);
        let all = free_candidates_in_range(inventory, bag, start, end, max_stack, skip_item);
        assert forall|k: int| 0 <= k < all.len() implies 1 <= #[trigger] all[k].count <= max_stack by {
            if k < a.len() {
                assert(all[k] == a[k]);
            }
        }
    }
}

proof fn lemma_free_candidates_positive(
    inventory: Seq<CharacterInventoryItem>,
    order: Seq<u8>,
    max_stack: u32,
    skip_item: Option<u32>,
    bank: Option<u8>,
    bags: Seq<EquippedBagInfo>,
)
    requires
        max_stack >= 1,
    ensures
        all_within(free_candidates(inventory, order, max_stack, skip_item, bank, bags), max_stack),
    decreases order.len(),
{
    if order.len() > 0 {
        lemma_free_candidates_positive(inventory, order.drop_last(), max_stack, skip_item, bank, bags);
        let a = free_candidates(inventory, order.drop_last(), max_stack, skip_item, bank, bags);
        match scope_slot_range(bank, order.last(), bags) {
            Some(range) => {
                lemma_free_candidates_in_range_positive(
                    inventory,
                    order.last(),
                    range.0 as int,
                    range.1 as int,
                    max_stack,
                    skip_item,
                );
                lemma_within_append(
                    a,
                    free_candidates_in_range(inventory, order.last(), range.0 as int, range.1 as int, max_stack, skip_item),
                    max_stack,
                );
            },
            None => {
                assert(free_candidates(inventory, order, max_stack, skip_item, bank, bags) =~= a);
            },
        }
    }
}

/// A storage plan (inventory or bank) is offered exactly when the stacks
/// with room and the empty slots hold the whole count; it then places the
/// whole count, at least one item in each destination, never more than the
/// destination's room.
pub proof fn law_storage_plan_places_whole_count(
    inventory: Seq<CharacterInventoryItem>,
    template: ItemTemplateQuery,
    count: u32,
    bags: Seq<EquippedBagInfo>,
    specific_bag: Option<u8>,
    skip_item: Option<u32>,
    bank: Option<u8>,
)
    ensures
        (plan_spec(inventory, template, count, bags, specific_bag, skip_item, bank) is Some) <==> total_count(
            plan_candidates(inventory, template, bags, specific_bag, skip_item, bank),
        ) >= count,
        plan_spec(inventory, template, count, bags, specific_bag, skip_item, bank) matches Some(plan) ==> {
            &&& total_count(plan) == count
            &&& forall|k: int| 0 <= k < plan.len() ==> 1 <= #[trigger] plan[k].count <= template_max_stack(template)
        },
{
    let max_stack = template_max_stack(template);
    let order = store_bag_order_spec(template, bags, specific_bag);
    let stacks = if max_stack > 1 {
        stack_candidates(inventory, order, template, max_stack, skip_item, bank, bags)
    } else {
        Seq::empty()
    };
    let free = free_candidates(inventory, order, max_stack, skip_item, bank, bags);
    if max_stack > 1 {
        lemma_stack_candidates_positive(inventory, order, template, max_stack, skip_item, bank, bags);
    }
    lemma_free_candidates_positive(inventory, order, max_stack, skip_item, bank, bags);
    let candidates = plan_candidates(inventory, template, bags, specific_bag, skip_item, bank);
    assert(candidates == stacks + free);
    if max_stack <= 1 {
        assert(all_within(stacks, max_stack));
    }
    lemma_within_append(stacks, free, max_stack);
    assert(all_positive(candidates));
    law_greedy_fill_places_exactly(candidates, count as nat);
}

// ---------------------------------------------------------------------------
// Slot numbering and equipment

/// Writing the purchased-bank-bag count into the player bytes and reading
/// it back gives the count, and leaves the other bytes as they were.
pub proof fn law_bank_bag_count_round_trip(player_bytes2: u32, count: u8)
    ensures
        ((((player_bytes2 & !(0xFFu32 << 16u32)) | ((count as u32) << 16u32)) >> 16u32) & 0xFFu32) as u8 == count,
        ((player_bytes2 & !(0xFFu32 << 16u32)) | ((count as u32) << 16u32)) & !(0xFFu32 << 16u32)
            == player_bytes2 & !(0xFFu32 << 16u32),
{
    let c = count as u32;
    assert(c <= 0xFF);
    assert(((((player_bytes2 & !(0xFFu32 << 16u32)) | (c << 16u32)) >> 16u32) & 0xFFu32) == c) by (bit_vector)
        requires c <= 0xFF;
    assert(((player_bytes2 & !(0xFFu32 << 16u32)) | (c << 16u32)) & !(0xFFu32 << 16u32)
        == player_bytes2 & !(0xFFu32 << 16u32)) by (bit_vector)
        requires c <= 0xFF;
}

/// The client's bag numbering and the server's translate back and forth:
/// every bag id other than the client's own backpack id survives the
/// round trip.
pub proof fn law_client_bag_round_trip(bag: u8)
    requires
        bag != CLIENT_INVENTORY_SLOT_BAG_0,
    ensures
        normalize_client_bag(client_bag_id(bag)) == bag,
{
}

/// An item's preferred equipment slot is one it fits in.
pub proof fn law_preferred_slot_fits(inventory_type: u32)
    ensures
        preferred_equipment_slot(inventory_type) matches Some(slot) ==> item_fits_equipment_slot(inventory_type, slot),
{
}

// ---------------------------------------------------------------------------
// Quest log

/// No quest id other than 0 occupies two slots.
pub open spec fn log_ids_distinct(slots: Seq<u32>) -> bool {
    forall|i: int, j: int| 0 <= i < j < slots.len() && slots[i] != 0 ==> #[trigger] slots[i] != #[trigger] slots[j]
}

/// Assigning a quest to a free slot and clearing it again restores the
/// log, and the quest is found in the slot it was given in between.
pub proof fn law_quest_log_clear_undoes_assign(slots: Seq<u32>, quest: u32)
    requires
        slots.len() == crate::quest::MAX_QUEST_LOG_SIZE,
        quest != 0,
        crate::quest::slot_of(slots, quest) is None,
        crate::quest::slot_of(slots, 0) is Some,
    ensures
        ({
            let free = crate::quest::slot_of(slots, 0)->0;
            let after = slots.update(free as int, quest);
            &&& crate::quest::slot_of(after, quest) == Some(free)
            &&& after.update(free as int, 0) == slots
        }),
{
    let free = crate::quest::slot_of(slots, 0)->0;
    let after = slots.update(free as int, quest);
    crate::quest::lemma_slot_of(slots, 0);
    crate::quest::lemma_slot_of(slots, quest);
    crate::quest::lemma_slot_of(after, quest);
    assert(after[free as int] == quest);
    match crate::quest::slot_of(after, quest) {
        Some(i) => {
            if i < free {
                assert(after[i as int] == slots[i as int]);
            }
        },
        None => {},
    }
    assert(after.update(free as int, 0) =~= slots);
}

/// Assigning and clearing keep every quest in at most one slot.
pub proof fn law_quest_log_ids_stay_distinct(slots: Seq<u32>, quest: u32)
    requires
        slots.len() == crate::quest::MAX_QUEST_LOG_SIZE,
        log_ids_distinct(slots),
    ensures
        crate::quest::slot_of(slots, quest) is None ==> (crate::quest::slot_of(slots, 0) matches Some(free)
            ==> log_ids_distinct(slots.update(free as int, quest))),
        crate::quest::slot_of(slots, quest) matches Some(s) ==> log_ids_distinct(slots.update(s as int, 0)),
{
    crate::quest::lemma_slot_of(slots, 0);
    crate::quest::lemma_slot_of(slots, quest);
    if crate::quest::slot_of(slots, quest) is None {
        if let Some(free) = crate::quest::slot_of(slots, 0) {
            let after = slots.update(free as int, quest);
            assert forall|i: int, j: int| 0 <= i < j < after.len() && after[i] != 0 implies #[trigger] after[i]
                != #[trigger] after[j] by {
                if i == free as int {
                    assert(slots[j] != quest);
                } else if j == free as int {
                    assert(slots[i] != quest);
                } else {
                    assert(slots[i] != slots[j]);
                }
            }
        }
    }
    if let Some(s) = crate::quest::slot_of(slots, quest) {
        let after = slots.update(s as int, 0);
        assert forall|i: int, j: int| 0 <= i < j < after.len() && after[i] != 0 implies #[trigger] after[i]
            != #[trigger] after[j] by {
            if j != s as int && i != s as int {
                assert(slots[i] != slots[j]);
            }
        }
    }
}

// ---------------------------------------------------------------------------
// Reputation

/// A higher standing never gives a lower rank.
pub proof fn law_reputation_rank_monotone(a: i32, b: i32)
    requires
        a <= b,
    ensures
        reputation_rank_from_standing(a) <= reputation_rank_from_standing(b),
{
}

/// A zero bonus leaves a reward as it is, and no bonus turns a gain into a
/// loss or a loss into a gain.
pub proof fn law_reputation_bonus_keeps_sign(reward: i32, gain_bonus_percent: i32)
    ensures
        crate::reputation::bonus_spec(reward, 0) == reward,
        reward >= 0 ==> crate::reputation::bonus_spec(reward, gain_bonus_percent) >= 0,
        reward <= 0 ==> crate::reputation::bonus_spec(reward, gain_bonus_percent) <= 0,
{
    if reward != 0 && gain_bonus_percent != 0 && 100 + gain_bonus_percent > 0 {
        let m = 100 + gain_bonus_percent;
        if reward > 0 {
            assert(reward * m > 0) by (nonlinear_arith)
                requires reward > 0, m > 0;
        } else {
            assert(reward * m < 0) by (nonlinear_arith)
                requires reward < 0, m > 0;
            assert((-(reward * m)) / 100 >= 0) by (nonlinear_arith)
                requires -(reward * m) > 0;
        }
    }
}

// ---------------------------------------------------------------------------
// Loot

/// Splitting corpse money never pays out more than there is: the share
/// times the number of recipients is at most the money.
pub proof fn law_loot_money_split_never_exceeds(creature: crate::loot::CreatureRuntime, looter_guid: u32, gained_money: u32, recipients: nat)
    requires
        recipients <= if creature.loot_method is None || creature.loot_allowed_players@.len() == 0 {
            1
        } else {
            creature.loot_allowed_players@.len()
        },
    ensures
        (if creature.loot_method is Some && creature.loot_allowed_players@.len() > 1 {
            gained_money as nat / creature.loot_allowed_players@.len()
        } else {
            gained_money as nat
        }) * recipients <= gained_money,
{
    if creature.loot_method is Some && creature.loot_allowed_players@.len() > 1 {
        let n = creature.loot_allowed_players@.len();
        let q = gained_money as nat / n;
        assert(q * n <= gained_money) by (nonlinear_arith)
            requires n > 0, q == gained_money as nat / n;
        assert(q * recipients <= q * n) by (nonlinear_arith)
            requires recipients <= n;
    } else {
        assert(recipients <= 1);
        assert((gained_money as nat) * recipients <= gained_money) by (nonlinear_arith)
            requires recipients <= 1;
    }
}

// ---------------------------------------------------------------------------
// Auctions

/// The raise a bid needs never exceeds the bid itself.
pub proof fn law_min_outbid_at_most_bid(current_bid: u32)
    ensures
        min_outbid_spec(current_bid) <= current_bid,
{
}

/// A listing page holds at most a page's worth of auctions, all taken in
/// order from the listing.
pub proof fn law_auction_page_bounded(auctions: Seq<AuctionInfoResponse>, list_from: u32)
    ensures
        page_spec(auctions, list_from).len() <= AUCTION_CLIENT_PAGE_SIZE,
        forall|k: int| 0 <= k < page_spec(auctions, list_from).len() ==> #[trigger] page_spec(auctions, list_from)[k]
            == auctions[list_from + k],
{
}

// ---------------------------------------------------------------------------
// Vendors and buyback

/// Right after a purchase, the stock reads as what the purchase left.
pub proof fn law_vendor_stock_read_after_consume(
    vendor_item: crate::vendor::VendorItemQuery,
    entry: Option<crate::vendor::VendorStockEntry>,
    used_count: u32,
    now_secs: u64,
)
    requires
        now_secs < u64::MAX,
    ensures
        crate::vendor::consume_count_spec(vendor_item, entry, used_count, now_secs) matches Some(outcome)
            ==> crate::vendor::current_count_spec(vendor_item, outcome.updated_entry, now_secs).count == outcome.count,
{
}

/// Every buyback entry sits in a buyback slot.
pub open spec fn entries_in_buyback_slots(items: Seq<crate::vendor::BuybackItem>) -> bool {
    forall|i: int| 0 <= i < items.len() ==> crate::vendor::is_buyback_slot(#[trigger] items[i].slot)
}

/// No two buyback entries share a slot.
pub open spec fn buyback_slots_distinct(items: Seq<crate::vendor::BuybackItem>) -> bool {
    forall|i: int, j: int| 0 <= i < j < items.len() ==> #[trigger] items[i].slot != #[trigger] items[j].slot
}

/// A sale always goes to a buyback slot.
pub proof fn law_next_buyback_slot_in_range(state: crate::vendor::BuybackState)
    requires
        entries_in_buyback_slots(state.buyback_items@),
    ensures
        crate::vendor::is_buyback_slot(crate::vendor::next_buyback_slot_spec(state)),
{
    let items = state.buyback_items@;
    lemma_first_free_in_range(items, crate::vendor::BUYBACK_SLOT_START as int);
    lemma_oldest_in_range(items);
}

proof fn lemma_first_free_in_range(items: Seq<crate::vendor::BuybackItem>, from: int)
    requires
        from >= crate::vendor::BUYBACK_SLOT_START,
    ensures
        crate::vendor::first_free_buyback_slot(items, from) matches Some(slot) ==> crate::vendor::is_buyback_slot(slot),
    decreases crate::vendor::BUYBACK_SLOT_END - from,
{
    if from < crate::vendor::BUYBACK_SLOT_END {
        lemma_first_free_in_range(items, from + 1);
    }
}

proof fn lemma_oldest_in_range(items: Seq<crate::vendor::BuybackItem>)
    ensures
        items.len() > 0 ==> 0 <= crate::vendor::oldest_entry_index(items) < items.len(),
    decreases items.len(),
{
    if items.len() > 1 {
        lemma_oldest_in_range(items.drop_last());
    }
}

proof fn lemma_without_slot(items: Seq<crate::vendor::BuybackItem>, slot: u8)
    ensures
        forall|x: crate::vendor::BuybackItem| #[trigger] crate::vendor::without_slot(items, slot).contains(x) <==> items.contains(x)
            && x.slot != slot,
        buyback_slots_distinct(items) ==> buyback_slots_distinct(crate::vendor::without_slot(items, slot)),
    decreases items.len(),
{
    if items.len() > 0 {
        let prefix = items.drop_last();
        lemma_without_slot(prefix, slot);
        let w = crate::vendor::without_slot(prefix, slot);
        let all = crate::vendor::without_slot(items, slot);
        assert forall|x: crate::vendor::BuybackItem| #[trigger] all.contains(x) <==> items.contains(x) && x.slot != slot by {
            if all.contains(x) {
                let k = choose|k: int| 0 <= k < all.len() && #[trigger] all[k] == x;
                if k < w.len() {
                    assert(w[k] == x);
                    assert(w.contains(x));
                    assert(prefix.contains(x));
                    let m = choose|m: int| 0 <= m < prefix.len() && #[trigger] prefix[m] == x;
                    assert(items[m] == x);
                } else {
                    assert(items[items.len() - 1] == x);
                }
            }
            if items.contains(x) && x.slot != slot {
                let k = choose|k: int| 0 <= k < items.len() && #[trigger] items[k] == x;
                if k < prefix.len() {
                    assert(prefix[k] == x);
                    assert(w.contains(x));
                    let m = choose|m: int| 0 <= m < w.len() && #[trigger] w[m] == x;
                    assert(all[m] == x);
                } else {
                    assert(all[all.len() - 1] == x);
                }
            }
        }
        if buyback_slots_distinct(items) {
            assert(buyback_slots_distinct(prefix)) by {
                assert forall|i: int, j: int| 0 <= i < j < prefix.len() implies #[trigger] prefix[i].slot
                    != #[trigger] prefix[j].slot by {
                    assert(prefix[i] == items[i] && prefix[j] == items[j]);
                }
            }
            if items.last().slot != slot {
                assert forall|i: int, j: int| 0 <= i < j < all.len() implies #[trigger] all[i].slot != #[trigger] all[j].slot by {
                    if j == all.len() - 1 {
                        assert(all[j] == items.last());
                        assert(all[i] == w[i]);
                        assert(w.contains(w[i]));
                        let m = choose|m: int| 0 <= m < items.len() && #[trigger] items[m] == w[i];
                        if m == items.len() - 1 {
                            assert(items.contains(w[i]));
                            let p = choose|p: int| 0 <= p < prefix.len() && #[trigger] prefix[p] == w[i];
                            assert(items[p] == w[i]);
                        } else {
                            assert(items[m].slot != items[items.len() - 1].slot);
                        }
                    } else {
                        assert(all[i] == w[i] && all[j] == w[j]);
                    }
                }
            } else {
                assert(all =~= w);
            }
        }
    }
}

/// A sale replaces whatever the slot held: afterwards the slot holds just
/// the new entry, the other entries stay, and no two entries share a slot.
pub proof fn law_buyback_push_one_entry_per_slot(items: Seq<crate::vendor::BuybackItem>, entry: crate::vendor::BuybackItem)
    requires
        buyback_slots_distinct(items),
    ensures
        buyback_slots_distinct(crate::vendor::without_slot(items, entry.slot).push(entry)),
        forall|x: crate::vendor::BuybackItem| #[trigger] crate::vendor::without_slot(items, entry.slot).push(entry).contains(x)
            <==> x == entry || (items.contains(x) && x.slot != entry.slot),
{
    lemma_without_slot(items, entry.slot);
    let w = crate::vendor::without_slot(items, entry.slot);
    let after = w.push(entry);
    assert forall|i: int, j: int| 0 <= i < j < after.len() implies #[trigger] after[i].slot != #[trigger] after[j].slot by {
        if j == after.len() - 1 {
            assert(after[i] == w[i]);
            assert(w.contains(w[i]));
        } else {
            assert(after[i] == w[i] && after[j] == w[j]);
        }
    }
    assert forall|x: crate::vendor::BuybackItem| #[trigger] after.contains(x) <==> x == entry || (items.contains(x) && x.slot
        != entry.slot) by {
        if after.contains(x) && x != entry {
            let k = choose|k: int| 0 <= k < after.len() && #[trigger] after[k] == x;
            assert(k < w.len());
            assert(w[k] == x);
            assert(w.contains(x));
        }
        if x == entry {
            assert(after[after.len() - 1] == x);
        }
        if items.contains(x) && x.slot != entry.slot {
            assert(w.contains(x));
            let k = choose|k: int| 0 <= k < w.len() && #[trigger] w[k] == x;
            assert(after[k] == x);
        }
    }
}

// ---------------------------------------------------------------------------
// Text

/// Writing a number in decimal and reading it back gives the number.
pub proof fn law_decimal_round_trip(n: u32)
    ensures
        crate::text::parse_u32_spec(crate::text::decimal(n as nat)) == Some(n),
{
    lemma_decimal_digits(n as nat);
    let d = crate::text::decimal(n as nat);
    assert(d.len() > 0);
    assert(d[0] != '+') by {
        assert(crate::text::is_digit_spec(d[0]));
    }
}

proof fn lemma_digit_char(d: int)
    requires
        0 <= d < 10,
    ensures
        crate::text::is_digit_spec(crate::text::digit_char(d)),
        crate::text::digit_char(d) as u32 - '0' as u32 == d,
{
}

proof fn lemma_decimal_digits(n: nat)
    ensures
        crate::text::all_digits(crate::text::decimal(n)),
        crate::text::digits_value(crate::text::decimal(n)) == n,
        crate::text::decimal(n).len() > 0,
    decreases n,
{
    let d = crate::text::decimal(n);
    if n < 10 {
        lemma_digit_char(n as int);
        assert(d.drop_last() =~= Seq::<char>::empty());
        assert(d.last() == crate::text::digit_char(n as int));
        assert(crate::text::digits_value(Seq::<char>::empty()) == 0);
    } else {
        lemma_decimal_digits(n / 10);
        lemma_digit_char((n % 10) as int);
        let prefix = crate::text::decimal(n / 10);
        assert(d.drop_last() =~= prefix);
        assert(d.last() == crate::text::digit_char((n % 10) as int));
        assert((n / 10) * 10 + n % 10 == n);
        assert forall|i: int| 0 <= i < d.len() implies #[trigger] crate::text::is_digit_spec(d[i]) by {
            if i < prefix.len() {
                assert(d[i] == prefix[i]);
            }
        }
    }
}

// ---------------------------------------------------------------------------
// Wire format

/// Reading back a written 16-bit value gives the value.
pub proof fn law_u16_round_trip(v: u16)
    ensures
        crate::wire::decode_u16(crate::wire::le_u16(v), 0) == v,
{
    let b = crate::wire::le_u16(v);
    assert((v % 256) + (v / 256) * 256 == v) by (nonlinear_arith);
    assert(b[0] == (v % 256) as u8 && b[1] == (v / 256) as u8);
}

/// Reading back a written 32-bit value gives the value.
pub proof fn law_u32_round_trip(v: u32)
    ensures
        crate::wire::decode_u32(crate::wire::le_u32(v), 0) == v,
{
    let b = crate::wire::le_u32(v);
    assert((v % 256) + ((v / 256) % 256) * 256 + ((v / 65536) % 256) * 65536 + (v / 16777216) * 16777216 == v)
        by (bit_vector);
    assert(b[0] == (v % 256) as u8);
    assert(b[1] == ((v / 256) % 256) as u8);
    assert(b[2] == ((v / 65536) % 256) as u8);
    assert(b[3] == (v / 16777216) as u8);
}

/// Reading back a written 64-bit value gives the value.
pub proof fn law_u64_round_trip(v: u64)
    ensures
        crate::wire::decode_u64(crate::wire::le_u64(v), 0) == v,
{
    let lo = (v % 0x1_0000_0000) as u32;
    let hi = (v / 0x1_0000_0000) as u32;
    law_u32_round_trip(lo);
    law_u32_round_trip(hi);
    let b = crate::wire::le_u64(v);
    assert(b.subrange(0, 4) =~= crate::wire::le_u32(lo));
    assert(b.subrange(4, 8) =~= crate::wire::le_u32(hi));
    assert(crate::wire::decode_u32(b, 0) == crate::wire::decode_u32(crate::wire::le_u32(lo), 0));
    assert(crate::wire::decode_u32(b, 4) == crate::wire::decode_u32(crate::wire::le_u32(hi), 0));
    assert(lo + hi * 0x1_0000_0000 == v);
}

/// 1 for a non-zero byte, 0 for a zero byte.
pub open spec fn nonzero(b: u8) -> int {
    if b != 0 { 1 } else { 0 }
}

/// How many of the first `n` bytes are non-zero.
pub open spec fn count_nonzero(bytes: Seq<u8>, n: int) -> int
    decreases n,
{
    if n <= 0 { 0 } else { count_nonzero(bytes, n - 1) + nonzero(bytes[n - 1]) }
}

/// The value of the first `n` bytes read little-endian.
pub open spec fn weighted(bytes: Seq<u8>, n: int) -> int
    decreases n,
{
    if n <= 0 { 0 } else { weighted(bytes, n - 1) + bytes[n - 1] * crate::wire::byte_weight(n - 1) }
}

proof fn lemma_mask_bits(m: u8, b0: u8, b1: u8, b2: u8, b3: u8, b4: u8, b5: u8, b6: u8, b7: u8)
    by (bit_vector)
    requires
        b0 <= 1 && b1 <= 1 && b2 <= 1 && b3 <= 1 && b4 <= 1 && b5 <= 1 && b6 <= 1 && b7 <= 1,
        m == b0 + 2 * b1 + 4 * b2 + 8 * b3 + 16 * b4 + 32 * b5 + 64 * b6 + 128 * b7,
    ensures
        (m / 1) % 2 == b0,
        (m / 2) % 2 == b1,
        (m / 4) % 2 == b2,
        (m / 8) % 2 == b3,
        (m / 16) % 2 == b4,
        (m / 32) % 2 == b5,
        (m / 64) % 2 == b6,
        (m / 128) % 2 == b7,
{
}

/// The mask byte of a packed GUID marks exactly its non-zero bytes.
proof fn lemma_packed_mask(bytes: Seq<u8>)
    requires
        bytes.len() == 8,
    ensures
        0 <= crate::wire::packed_mask(bytes, 8) < 256,
        forall|k: int| 0 <= k < 8 ==> #[trigger] crate::wire::bit_set(crate::wire::packed_mask(bytes, 8) as u8, k)
            == (bytes[k] != 0),
{
    reveal_with_fuel(crate::wire::packed_mask, 9);
    let m = crate::wire::packed_mask(bytes, 8);
    assert(m == nonzero(bytes[0]) + 2 * nonzero(bytes[1]) + 4 * nonzero(bytes[2]) + 8 * nonzero(bytes[3]) + 16 * nonzero(
        bytes[4],
    ) + 32 * nonzero(bytes[5]) + 64 * nonzero(bytes[6]) + 128 * nonzero(bytes[7]));
    let mu = m as u8;
    lemma_mask_bits(
        mu,
        nonzero(bytes[0]) as u8,
        nonzero(bytes[1]) as u8,
        nonzero(bytes[2]) as u8,
        nonzero(bytes[3]) as u8,
        nonzero(bytes[4]) as u8,
        nonzero(bytes[5]) as u8,
        nonzero(bytes[6]) as u8,
        nonzero(bytes[7]) as u8,
    );
    assert forall|k: int| 0 <= k < 8 implies #[trigger] crate::wire::bit_set(mu, k) == (bytes[k] != 0) by {
        if k == 0 {} else if k == 1 {} else if k == 2 {} else if k == 3 {} else if k == 4 {} else if k == 5 {} else if k == 6 {} else {}
    }
}

proof fn lemma_counts(bytes: Seq<u8>, mask: u8, n: int)
    requires
        bytes.len() == 8,
        0 <= n <= 8,
        forall|k: int| 0 <= k < 8 ==> #[trigger] crate::wire::bit_set(mask, k) == (bytes[k] != 0),
    ensures
        crate::wire::set_bits_below(mask, n) == count_nonzero(bytes, n),
        crate::wire::packed_bytes(bytes, n).len() == count_nonzero(bytes, n),
        0 <= count_nonzero(bytes, n) <= n,
    decreases n,
{
    if n > 0 {
        lemma_counts(bytes, mask, n - 1);
        assert(crate::wire::bit_set(mask, n - 1) == (bytes[n - 1] != 0));
    }
}

proof fn lemma_count_monotone(bytes: Seq<u8>, a: int, b: int)
    requires
        0 <= a <= b,
    ensures
        count_nonzero(bytes, a) <= count_nonzero(bytes, b),
    decreases b - a,
{
    if a < b {
        lemma_count_monotone(bytes, a, b - 1);
    }
}

proof fn lemma_packed_bytes_index(bytes: Seq<u8>, mask: u8, n: int, k: int)
    requires
        bytes.len() == 8,
        0 <= k < n <= 8,
        bytes[k] != 0,
        forall|j: int| 0 <= j < 8 ==> #[trigger] crate::wire::bit_set(mask, j) == (bytes[j] != 0),
    ensures
        count_nonzero(bytes, k) < crate::wire::packed_bytes(bytes, n).len(),
        crate::wire::packed_bytes(bytes, n)[count_nonzero(bytes, k)] == bytes[k],
    decreases n,
{
    lemma_counts(bytes, mask, n - 1);
    lemma_counts(bytes, mask, k);
    let before = crate::wire::packed_bytes(bytes, n - 1);
    if k == n - 1 {
        assert(crate::wire::packed_bytes(bytes, n) == before + seq![bytes[n - 1]]);
    } else {
        lemma_packed_bytes_index(bytes, mask, n - 1, k);
        assert(crate::wire::packed_bytes(bytes, n)[count_nonzero(bytes, k)] == before[count_nonzero(bytes, k)]);
    }
}

proof fn lemma_unpacked(b: Seq<u8>, at: int, bytes: Seq<u8>, mask: u8, n: int)
    requires
        bytes.len() == 8,
        0 <= n <= 8,
        forall|j: int| 0 <= j < 8 ==> #[trigger] crate::wire::bit_set(mask, j) == (bytes[j] != 0),
        forall|j: int| 0 <= j < crate::wire::packed_bytes(bytes, 8).len() ==> b[at + j] == #[trigger] crate::wire::packed_bytes(
            bytes,
            8,
        )[j],
    ensures
        crate::wire::unpacked_value(b, at, mask, n) == weighted(bytes, n),
    decreases n,
{
    if n > 0 {
        lemma_unpacked(b, at, bytes, mask, n - 1);
        if bytes[n - 1] != 0 {
            lemma_counts(bytes, mask, n - 1);
            lemma_packed_bytes_index(bytes, mask, 8, n - 1);
            assert(b[at + crate::wire::set_bits_below(mask, n - 1)] == bytes[n - 1]);
        }
    }
}

proof fn lemma_weighted_u64(raw: u64)
    ensures
        weighted(crate::wire::le_u64(raw), 8) == raw,
{
    reveal_with_fuel(weighted, 9);
    let bytes = crate::wire::le_u64(raw);
    let lo = (raw % 0x1_0000_0000) as u32;
    let hi = (raw / 0x1_0000_0000) as u32;
    law_u32_round_trip(lo);
    law_u32_round_trip(hi);
    let l = crate::wire::le_u32(lo);
    let h = crate::wire::le_u32(hi);
    assert(bytes[0] == l[0] && bytes[1] == l[1] && bytes[2] == l[2] && bytes[3] == l[3]);
    assert(bytes[4] == h[0] && bytes[5] == h[1] && bytes[6] == h[2] && bytes[7] == h[3]);
    assert(l[0] + l[1] * 256 + l[2] * 65536 + l[3] * 16777216 == lo);
    assert(h[0] + h[1] * 256 + h[2] * 65536 + h[3] * 16777216 == hi);
    assert(lo + hi * 0x1_0000_0000 == raw);
    assert(weighted(bytes, 8) == (l[0] + l[1] * 256 + l[2] * 65536 + l[3] * 16777216) + (h[0] + h[1] * 256 + h[2] * 65536
        + h[3] * 16777216) * 0x1_0000_0000);
}

/// Reading back a written packed GUID gives the GUID and ends right after
/// it, whatever surrounds it.
pub proof fn law_packed_guid_round_trip(prefix: Seq<u8>, raw: u64, suffix: Seq<u8>)
    ensures
        ({
            let body = prefix + crate::wire::packed_guid(raw) + suffix;
            let at = prefix.len() as int;
            &&& crate::wire::packed_guid_fits(body, at)
            &&& crate::wire::packed_guid_value(body, at) == raw
            &&& crate::wire::packed_guid_end(body, at) == at + crate::wire::packed_guid(raw).len()
        }),
{
    let bytes = crate::wire::le_u64(raw);
    let packed = crate::wire::packed_guid(raw);
    let body = prefix + packed + suffix;
    let at = prefix.len() as int;
    lemma_packed_mask(bytes);
    let mask = crate::wire::packed_mask(bytes, 8) as u8;
    assert(body[at] == mask);
    lemma_counts(bytes, mask, 8);
    assert forall|j: int| 0 <= j < crate::wire::packed_bytes(bytes, 8).len() implies body[at + 1 + j]
        == #[trigger] crate::wire::packed_bytes(bytes, 8)[j] by {
        assert(body[at + 1 + j] == packed[1 + j]);
    }
    lemma_unpacked(body, at + 1, bytes, mask, 8);
    lemma_weighted_u64(raw);
}

// ---------------------------------------------------------------------------
// Spell targets and listings

/// Spell targets written and read back are the same targets, for targets
/// that name a unit exactly when the unit bit is set and carry no enemy
/// bit (the writer drops that bit).
pub proof fn law_spell_targets_round_trip(prefix: Seq<u8>, targets: crate::packets::SpellCastTargets, suffix: Seq<u8>)
    requires
        targets.target_mask & crate::packets::SPELL_CAST_TARGET_UNIT_ENEMY == 0,
        (targets.unit_target is Some) == (targets.target_mask & crate::packets::SPELL_CAST_TARGET_UNIT != 0),
    ensures
        ({
            let mask = targets.target_mask & !crate::packets::SPELL_CAST_TARGET_UNIT_ENEMY;
            let written = crate::wire::le_u16(mask) + if mask & crate::packets::SPELL_CAST_TARGET_UNIT != 0 {
                crate::wire::packed_guid(match targets.unit_target { Some(g) => g.raw, None => 0 })
            } else {
                Seq::empty()
            };
            let body = prefix + written + suffix;
            let at = prefix.len() as int;
            &&& crate::packets::spell_targets_fit(body, at)
            &&& crate::packets::spell_targets_value(body, at) == targets
            &&& crate::packets::spell_targets_end(body, at) == at + written.len()
        }),
{
    let m = targets.target_mask;
    assert(m & !0x0080u16 == m) by (bit_vector)
        requires m & 0x0080u16 == 0;
    assert(((m & (0x0002u16 | 0x0080u16)) != 0) == ((m & 0x0002u16) != 0)) by (bit_vector)
        requires m & 0x0080u16 == 0;
    let mask = m & !crate::packets::SPELL_CAST_TARGET_UNIT_ENEMY;
    let head = crate::wire::le_u16(mask);
    law_u16_round_trip(mask);
    let written = head + if mask & crate::packets::SPELL_CAST_TARGET_UNIT != 0 {
        crate::wire::packed_guid(match targets.unit_target { Some(g) => g.raw, None => 0 })
    } else {
        Seq::empty()
    };
    let body = prefix + written + suffix;
    let at = prefix.len() as int;
    assert(body[at] == head[0] && body[at + 1] == head[1]);
    assert(crate::wire::decode_u16(body, at) == crate::wire::decode_u16(head, 0));
    if mask & crate::packets::SPELL_CAST_TARGET_UNIT != 0 {
        let g = targets.unit_target->0;
        let packed = crate::wire::packed_guid(g.raw);
        law_packed_guid_round_trip(prefix + head, g.raw, suffix);
        assert(prefix + head + packed + suffix =~= body);
    } else {
        assert(written =~= head);
    }
}

/// A bidder's listing shows each auction once.
pub proof fn law_bidder_listing_ids_distinct(s: Seq<crate::auction::AuctionRecord>)
    ensures
        forall|i: int, j: int| 0 <= i < j < crate::auction::first_of_each_id(s).len() ==> (
        #[trigger] crate::auction::first_of_each_id(s)[i]).id != (#[trigger] crate::auction::first_of_each_id(s)[j]).id,
    decreases s.len(),
{
    if s.len() > 0 {
        law_bidder_listing_ids_distinct(s.drop_last());
        let kept = crate::auction::first_of_each_id(s.drop_last());
        let all = crate::auction::first_of_each_id(s);
        if !crate::auction::has_auction_id(kept, s.last().id) {
            assert forall|i: int, j: int| 0 <= i < j < all.len() implies (#[trigger] all[i]).id != (#[trigger] all[j]).id by {
                if j == all.len() - 1 {
                    assert(all[i] == kept[i]);
                } else {
                    assert(all[i] == kept[i] && all[j] == kept[j]);
                }
            }
        }
    }
}

/// Releasing the spirit and then coming back to life clears the ghost
/// flag and leaves every other player flag as it was.
pub proof fn law_resurrection_undoes_release(flags: u32)
    ensures
        ghost_flags_spec(flags) & PLAYER_FLAGS_GHOST != 0,
        living_flags_spec(ghost_flags_spec(flags)) & PLAYER_FLAGS_GHOST == 0,
        living_flags_spec(ghost_flags_spec(flags)) == living_flags_spec(flags),
{
    assert((flags | 0x10u32) & 0x10u32 != 0) by (bit_vector);
    assert(((flags | 0x10u32) & !0x10u32) & 0x10u32 == 0) by (bit_vector);
    assert((flags | 0x10u32) & !0x10u32 == flags & !0x10u32) by (bit_vector);
}

/// A kill moves one objective of one quest forward by exactly one, and
/// never past the count the objective asks for.
pub proof fn law_kill_credit_bounded(
    status: CharacterQuestStatus,
    quest: QuestTemplateQuery,
    killed_entry: u32,
    inventory: Seq<CharacterInventoryItem>,
)
    ensures
        kill_credit_spec(status, quest, killed_entry, inventory) matches Some(c) ==> {
            &&& c.quest == status.quest
            &&& c.index < 4
            &&& quest.req_creature_or_go_id@[c.index as int] > 0
            &&& quest.req_creature_or_go_id@[c.index as int] as u32 == killed_entry
            &&& c.new_count == quest_status_creature_or_go_count(&status, c.index) + 1
            &&& c.new_count <= quest.req_creature_or_go_count@[c.index as int]
        },
{
}

proof fn lemma_complete_marks_max_covers(
    quests: Seq<QuestTemplateQuery>,
    statuses: Seq<CharacterQuestStatus>,
    inventory: Seq<CharacterInventoryItem>,
    n: int,
    i: int,
)
    requires
        0 <= i < n,
    ensures
        complete_marks_max(quests, statuses, inventory, n) >= mark_value(complete_mark_spec(quests[i], statuses, inventory)),
    decreases n,
{
    if i < n - 1 {
        lemma_complete_marks_max_covers(quests, statuses, inventory, n - 1, i);
    }
}

proof fn lemma_start_marks_max_covers(quests: Seq<QuestTemplateQuery>, facts: Seq<QuestStartFacts>, who: QuestCharacter, n: int, i: int)
    requires
        0 <= i < n,
    ensures
        start_marks_max(quests, facts, who, n) >= mark_value(start_mark_spec(quests[i], who, facts[i])),
    decreases n,
{
    if i < n - 1 {
        lemma_start_marks_max_covers(quests, facts, who, n - 1, i);
    }
}

/// The mark over a questgiver is never lower than the mark of any quest
/// it takes back or starts.
pub proof fn law_dialog_status_covers_each_mark(
    guid: ObjectGuid,
    complete_quests: Seq<QuestTemplateQuery>,
    start_quests: Seq<QuestTemplateQuery>,
    start_facts: Seq<QuestStartFacts>,
    who: QuestCharacter,
)
    requires
        is_questgiver_guid(guid),
    ensures
        forall|i: int| 0 <= i < complete_quests.len() ==> dialog_status_spec(guid, complete_quests, start_quests, start_facts, who)
            >= mark_value(#[trigger] complete_mark_spec(complete_quests[i], who.statuses@, who.inventory@)),
        forall|j: int| 0 <= j < start_quests.len() ==> dialog_status_spec(guid, complete_quests, start_quests, start_facts, who)
            >= mark_value(#[trigger] start_mark_spec(start_quests[j], who, start_facts[j])),
{
    assert forall|i: int| 0 <= i < complete_quests.len() implies dialog_status_spec(guid, complete_quests, start_quests, start_facts, who)
        >= mark_value(#[trigger] complete_mark_spec(complete_quests[i], who.statuses@, who.inventory@)) by {
        lemma_complete_marks_max_covers(complete_quests, who.statuses@, who.inventory@, complete_quests.len() as int, i);
    }
    assert forall|j: int| 0 <= j < start_quests.len() implies dialog_status_spec(guid, complete_quests, start_quests, start_facts, who)
        >= mark_value(#[trigger] start_mark_spec(start_quests[j], who, start_facts[j])) by {
        lemma_start_marks_max_covers(start_quests, start_facts, who, start_quests.len() as int, j);
    }
}

/// The quest a giver takes back is always one of the character's quests
/// that is ready to hand in.
pub proof fn law_turnin_quest_is_ready(
    ordered: Seq<CharacterQuestStatus>,
    complete_quests: Seq<QuestTemplateQuery>,
    inventory: Seq<CharacterInventoryItem>,
)
    ensures
        first_turnin(ordered, complete_quests, inventory) matches Some(i) ==> {
            &&& 0 <= i < complete_quests.len()
            &&& exists|k: int| 0 <= k < ordered.len() && (#[trigger] ordered[k]).quest == complete_quests[i].entry
                && can_reward_spec(ordered[k], complete_quests[i], inventory)
        },
    decreases ordered.len(),
{
    if ordered.len() > 0 {
        lemma_quest_index_in_range(complete_quests, ordered[0].quest);
        law_turnin_quest_is_ready(ordered.skip(1), complete_quests, inventory);
        match first_turnin(ordered, complete_quests, inventory) {
            Some(i) => {
                match quest_index_for(complete_quests, ordered[0].quest) {
                    Some(q) => {
                        if can_reward_spec(ordered[0], complete_quests[q], inventory) {
                            assert(ordered[0].quest == complete_quests[i].entry);
                        } else {
                            let k = choose|k: int| 0 <= k < ordered.skip(1).len() && (#[trigger] ordered.skip(1)[k]).quest
                                == complete_quests[i].entry && can_reward_spec(ordered.skip(1)[k], complete_quests[i], inventory);
                            assert(ordered[k + 1] == ordered.skip(1)[k]);
                        }
                    },
                    None => {
                        let k = choose|k: int| 0 <= k < ordered.skip(1).len() && (#[trigger] ordered.skip(1)[k]).quest
                            == complete_quests[i].entry && can_reward_spec(ordered.skip(1)[k], complete_quests[i], inventory);
                        assert(ordered[k + 1] == ordered.skip(1)[k]);
                    },
                }
            },
            None => {},
        }
    }
}

/// A trainer never sells a spell the character already knows, nor one
/// whose level, skill or prerequisite the character lacks.
pub proof fn law_trainer_never_sells_known_spells(
    trainer_guid: ObjectGuid,
    trainer_class: u8,
    spells: Seq<TrainerSpellQuery>,
    spell: u32,
    character: ActiveCharacter,
    known: Seq<CharacterSpell>,
)
    ensures
        trainer_purchase_spec(trainer_guid, trainer_class, spells, spell, character, known) matches Some(row) ==> {
            &&& !knows_spell(known, row.learned_spell)
            &&& character.level >= row.req_level
            &&& row.req_skill == 0
            &&& row.spell == spell
        },
{
    lemma_trainer_spell_in_range(spells, spell);
}

proof fn lemma_trainer_spell_in_range(spells: Seq<TrainerSpellQuery>, spell: u32)
    ensures
        trainer_spell_index(spells, spell) matches Some(i) ==> 0 <= i < spells.len() && spells[i].spell == spell,
    decreases spells.len(),
{
    if spells.len() > 0 {
        lemma_trainer_spell_in_range(spells.drop_last(), spell);
    }
}

/// A bought bank bag slot is recorded: the count read back from the new
/// visual bytes is one more than before, and their other bits are kept.
pub proof fn law_bank_slot_purchase_counts_one_more(has_access: bool, current_count: u8, prices: Seq<(u32, u32)>, player_bytes2: u32)
    requires
        current_count < 255,
    ensures
        bank_slot_purchase_spec(has_access, current_count, prices, player_bytes2) matches Ok(p) ==> {
            &&& ((p.player_bytes2 >> 16u32) & 0xFFu32) as u8 == current_count + 1
            &&& p.player_bytes2 & !(0xFFu32 << 16u32) == player_bytes2 & !(0xFFu32 << 16u32)
        },
{
    law_bank_bag_count_round_trip(player_bytes2, (current_count + 1) as u8);
}

/// A search with every filter left open and no name shows every auction
/// whose item is known.
pub proof fn law_open_search_matches_everything(
    character: ActiveCharacter,
    skills: Seq<CharacterSkill>,
    active_spells: Seq<u32>,
    reputations: Seq<CharacterReputation>,
    template: ItemTemplateQuery,
    template_name: Seq<char>,
    request: AuctionListItemsRequest,
)
    requires
        request.item_class == u32::MAX,
        request.item_subclass == u32::MAX,
        request.inventory_type == u32::MAX,
        request.quality == u32::MAX,
        request.level_min == 0,
        request.usable == 0,
    ensures
        matches_search_spec(character, skills, active_spells, reputations, template, template_name, request, Seq::empty()),
{
}

/// An item a character stores from a shared corpse is one the loot rules
/// let it take, and never one kept for the master looter.
pub proof fn law_stored_loot_is_allowed(character_guid: u32, creature: CreatureRuntime, loot: CreatureLootItem, loot_slot: u8)
    ensures
        loot_take_spec(character_guid, creature, loot, loot_slot) == CreatureLootTake::Store ==> can_autostore_spec(
            character_guid,
            creature,
            loot,
        ) && !master_block_spec(creature, character_guid, loot),
{
}

proof fn lemma_complete_choices_listed(
    quests: Seq<QuestTemplateQuery>,
    statuses: Seq<CharacterQuestStatus>,
    inventory: Seq<CharacterInventoryItem>,
    n: int,
)
    requires
        0 <= n <= quests.len(),
        quests.len() <= usize::MAX,
    ensures
        forall|k: int| 0 <= k < complete_choices(quests, statuses, inventory, n).len() ==> {
            let c = #[trigger] complete_choices(quests, statuses, inventory, n)[k];
            &&& c.from_complete
            &&& 0 <= c.index < n
            &&& complete_mark_spec(quests[c.index as int], statuses, inventory) is Some
        },
    decreases n,
{
    if n > 0 {
        lemma_complete_choices_listed(quests, statuses, inventory, n - 1);
        let prev = complete_choices(quests, statuses, inventory, n - 1);
        let all = complete_choices(quests, statuses, inventory, n);
        assert forall|k: int| 0 <= k < all.len() implies {
            let c = #[trigger] all[k];
            &&& c.from_complete
            &&& 0 <= c.index < n
            &&& complete_mark_spec(quests[c.index as int], statuses, inventory) is Some
        } by {
            if k < prev.len() {
                assert(all[k] == prev[k]);
            }
        }
    }
}

proof fn lemma_start_choices_unlisted(
    complete_quests: Seq<QuestTemplateQuery>,
    start_quests: Seq<QuestTemplateQuery>,
    start_facts: Seq<QuestStartFacts>,
    who: QuestCharacter,
    n: int,
)
    requires
        0 <= n <= start_quests.len(),
        start_quests.len() <= usize::MAX,
    ensures
        forall|k: int| 0 <= k < start_choices(complete_quests, start_quests, start_facts, who, n).len() ==> {
            let c = #[trigger] start_choices(complete_quests, start_quests, start_facts, who, n)[k];
            &&& !c.from_complete
            &&& 0 <= c.index < n
            &&& !listed_for_completion(complete_quests, who.statuses@, who.inventory@, start_quests[c.index as int].entry)
        },
    decreases n,
{
    if n > 0 {
        lemma_start_choices_unlisted(complete_quests, start_quests, start_facts, who, n - 1);
        let prev = start_choices(complete_quests, start_quests, start_facts, who, n - 1);
        let all = start_choices(complete_quests, start_quests, start_facts, who, n);
        assert forall|k: int| 0 <= k < all.len() implies {
            let c = #[trigger] all[k];
            &&& !c.from_complete
            &&& 0 <= c.index < n
            &&& !listed_for_completion(complete_quests, who.statuses@, who.inventory@, start_quests[c.index as int].entry)
        } by {
            if k < prev.len() {
                assert(all[k] == prev[k]);
            }
        }
    }
}

/// A giver's list names no quest twice across its two parts: a quest it
/// both starts and takes back is listed only once, as the one it takes
/// back.
pub proof fn law_visible_quests_list_each_quest_once(
    guid: ObjectGuid,
    complete_quests: Seq<QuestTemplateQuery>,
    start_quests: Seq<QuestTemplateQuery>,
    start_facts: Seq<QuestStartFacts>,
    who: QuestCharacter,
)
    requires
        complete_quests.len() <= usize::MAX,
        start_quests.len() <= usize::MAX,
    ensures
        ({
            let visible = visible_quests_spec(guid, complete_quests, start_quests, start_facts, who);
            forall|a: int, b: int|
                0 <= a < visible.len() && 0 <= b < visible.len() && (#[trigger] visible[a]).from_complete
                    && !(#[trigger] visible[b]).from_complete ==> complete_quests[visible[a].index as int].entry
                    != start_quests[visible[b].index as int].entry
        }),
{
    if is_questgiver_guid(guid) {
        let first = complete_choices(complete_quests, who.statuses@, who.inventory@, complete_quests.len() as int);
        let second = start_choices(complete_quests, start_quests, start_facts, who, start_quests.len() as int);
        let visible = visible_quests_spec(guid, complete_quests, start_quests, start_facts, who);
        lemma_complete_choices_listed(complete_quests, who.statuses@, who.inventory@, complete_quests.len() as int);
        lemma_start_choices_unlisted(complete_quests, start_quests, start_facts, who, start_quests.len() as int);
        assert(visible == first + second);
        assert forall|a: int, b: int|
            0 <= a < visible.len() && 0 <= b < visible.len() && (#[trigger] visible[a]).from_complete
                && !(#[trigger] visible[b]).from_complete implies complete_quests[visible[a].index as int].entry
                != start_quests[visible[b].index as int].entry by {
            if a >= first.len() {
                assert(visible[a] == second[a - first.len()]);
            }
            if b < first.len() {
                assert(visible[b] == first[b]);
            }
            assert(visible[a] == first[a]);
            assert(visible[b] == second[b - first.len()]);
            let ia = visible[a].index as int;
            if complete_quests[ia].entry == start_quests[visible[b].index as int].entry {
                assert(complete_mark_spec(complete_quests[ia], who.statuses@, who.inventory@) is Some);
                assert(listed_for_completion(complete_quests, who.statuses@, who.inventory@, complete_quests[ia].entry));
            }
        }
    }
}

proof fn lemma_status_index_by_quests(a: Seq<CharacterQuestStatus>, b: Seq<CharacterQuestStatus>, quest: u32)
    requires
        a.len() == b.len(),
        forall|j: int| 0 <= j < a.len() ==> (#[trigger] a[j]).quest == b[j].quest,
    ensures
        status_index(a, quest) == status_index(b, quest),
    decreases a.len(),
{
    if a.len() > 0 {
        lemma_status_index_by_quests(a.drop_last(), b.drop_last(), quest);
    }
}

/// An abandoned quest is no longer current: its status reads as not
/// taken, so the log drops it and it no longer counts as in progress.
pub proof fn law_abandoned_quest_is_not_current(statuses: Seq<CharacterQuestStatus>, quest: u32)
    ensures
        ({
            let after = match status_index(statuses, quest) {
                Some(i) => statuses.update(i, abandoned_status(statuses[i])),
                None => statuses,
            };
            &&& !quest_is_current_spec(after, quest)
            &&& (status_for(statuses, quest) is Some ==> (status_for(after, quest) matches Some(s) && s.status == 0 && s.rewarded == 0))
        }),
{
    lemma_status_index(statuses, quest);
    match status_index(statuses, quest) {
        Some(i) => {
            let after = statuses.update(i, abandoned_status(statuses[i]));
            assert forall|j: int| 0 <= j < statuses.len() implies (#[trigger] statuses[j]).quest == after[j].quest by {}
            lemma_status_index_by_quests(statuses, after, quest);
            lemma_status_index(after, quest);
        },
        None => {},
    }
}


// ---------------------------------------------------------------------------
// Quest drops and quest completion

/// Items of one template held after more items are added never fall.
proof fn lemma_count_grows_with_more_items(
    inventory: Seq<CharacterInventoryItem>,
    extra: Seq<CharacterInventoryItem>,
    item_id: u32,
)
    ensures
        count_of_template(inventory, item_id) <= count_of_template(inventory + extra, item_id),
{
    assert((inventory + extra).take(inventory.len() as int) =~= inventory);
    lemma_count_prefix(inventory + extra, item_id, inventory.len() as int);
}

/// Owning more items never creates a need for a quest drop: whatever is
/// still needed with extra items in the bags was needed without them.
pub proof fn law_more_items_never_create_quest_need(
    item_id: u32,
    quests: Seq<QuestTemplateQuery>,
    statuses: Seq<CharacterQuestStatus>,
    inventory: Seq<CharacterInventoryItem>,
    extra: Seq<CharacterInventoryItem>,
    defaults: Seq<(u32, u32)>,
)
    ensures
        needs_quest_loot_spec(item_id, quests, statuses, inventory + extra, defaults)
            ==> needs_quest_loot_spec(item_id, quests, statuses, inventory, defaults),
{
    let more = count_of_template(inventory + extra, item_id);
    let fewer = count_of_template(inventory, item_id);
    let d = default_count_for(defaults, item_id);
    lemma_count_grows_with_more_items(inventory, extra, item_id);
    if needs_quest_loot_spec(item_id, quests, statuses, inventory + extra, defaults) {
        let i = choose|i: int| 0 <= i < statuses.len() && #[trigger] statuses[i].rewarded == 0
            && statuses[i].status == QUEST_STATUS_INCOMPLETE
            && match quest_index_for(quests, statuses[i].quest) {
                Some(k) => quest_wants_item(quests[k], item_id, more, d),
                None => false,
            };
        let k = quest_index_for(quests, statuses[i].quest)->Some_0;
        let quest = quests[k];
        if exists|j: int| 0 <= j < 4 && #[trigger] quest.req_item_id@[j] == item_id && more < quest.req_item_count@[j]
            && quest.req_item_count@[j] > 0 {
            let j = choose|j: int| 0 <= j < 4 && #[trigger] quest.req_item_id@[j] == item_id
                && more < quest.req_item_count@[j] && quest.req_item_count@[j] > 0;
            assert(quest.req_item_id@[j] == item_id && fewer < quest.req_item_count@[j]);
        } else {
            let j = choose|j: int| 0 <= j < 4 && #[trigger] quest.req_source_id@[j] == item_id && {
                let required = if quest.req_source_count@[j] > 0 { quest.req_source_count@[j] } else { d };
                required > 0 && more < required
            };
            assert(quest.req_source_id@[j] == item_id);
        }
        assert(quest_wants_item(quest, item_id, fewer, d));
        assert(statuses[i].rewarded == 0);
    }
}

/// The template lists `item_id` as one of its required items or source items.
pub open spec fn quest_lists_item(quest: QuestTemplateQuery, item_id: u32) -> bool {
    exists|j: int|
        #![trigger quest.req_item_id@[j]]
        #![trigger quest.req_source_id@[j]]
        0 <= j < 4 && (quest.req_item_id@[j] == item_id || quest.req_source_id@[j] == item_id)
}

/// A quest drop is needed only for an incomplete, unrewarded quest whose
/// template lists the item as a required item or a source item.
pub proof fn law_quest_need_names_a_listing_quest(
    item_id: u32,
    quests: Seq<QuestTemplateQuery>,
    statuses: Seq<CharacterQuestStatus>,
    inventory: Seq<CharacterInventoryItem>,
    defaults: Seq<(u32, u32)>,
)
    ensures
        needs_quest_loot_spec(item_id, quests, statuses, inventory, defaults) ==> exists|i: int, k: int|
            0 <= i < statuses.len() && 0 <= k < quests.len() && #[trigger] statuses[i].rewarded == 0
                && statuses[i].status == QUEST_STATUS_INCOMPLETE && #[trigger] quests[k].entry == statuses[i].quest
                && quest_lists_item(quests[k], item_id),
{
    if needs_quest_loot_spec(item_id, quests, statuses, inventory, defaults) {
        let owned = count_of_template(inventory, item_id);
        let d = default_count_for(defaults, item_id);
        let i = choose|i: int| 0 <= i < statuses.len() && #[trigger] statuses[i].rewarded == 0
            && statuses[i].status == QUEST_STATUS_INCOMPLETE
            && match quest_index_for(quests, statuses[i].quest) {
                Some(k) => quest_wants_item(quests[k], item_id, owned, d),
                None => false,
            };
        lemma_quest_index_in_range(quests, statuses[i].quest);
        let k = quest_index_for(quests, statuses[i].quest)->Some_0;
        let quest = quests[k];
        if exists|j: int| 0 <= j < 4 && #[trigger] quest.req_item_id@[j] == item_id && owned < quest.req_item_count@[j]
            && quest.req_item_count@[j] > 0 {
            let j = choose|j: int| 0 <= j < 4 && #[trigger] quest.req_item_id@[j] == item_id
                && owned < quest.req_item_count@[j] && quest.req_item_count@[j] > 0;
            assert(quests[k].req_item_id@[j] == item_id);
        } else {
            let j = choose|j: int| 0 <= j < 4 && #[trigger] quest.req_source_id@[j] == item_id && {
                let required = if quest.req_source_count@[j] > 0 { quest.req_source_count@[j] } else { d };
                required > 0 && owned < required
            };
            assert(quests[k].req_item_id@[j] == item_id || quests[k].req_source_id@[j] == item_id);
        }
        assert(quest_lists_item(quests[k], item_id));
        assert(statuses[i].rewarded == 0 && quests[k].entry == statuses[i].quest);
    }
}

/// A quest that can be completed can also be rewarded, and a quest that can
/// be rewarded is unrewarded with all its requirements met.
pub proof fn law_completable_quest_is_rewardable(
    status: CharacterQuestStatus,
    quest: QuestTemplateQuery,
    inventory: Seq<CharacterInventoryItem>,
)
    ensures
        can_complete_spec(&status, &quest, inventory) ==> can_reward_from_inventory_spec(&status, &quest, inventory),
        can_reward_from_inventory_spec(&status, &quest, inventory) ==> status.rewarded == 0
            && completion_requirements_spec(&status, &quest, inventory),
{
}


// ---------------------------------------------------------------------------
// Bag order, quest races, auction filters, vendor restocking, reputation

/// A bag in `bags` that matches the kind asked for and takes the item
/// shows up among the accepting bag slots.
proof fn lemma_accepting_bag_listed(bags: Seq<EquippedBagInfo>, template: ItemTemplateQuery, normal: bool, k: int) -> (at: int)
    requires
        0 <= k < bags.len(),
        crate::inventory::is_normal_container_bag(&bags[k]) == normal,
        crate::inventory::item_can_go_into_bag(&template, &bags[k]),
    ensures
        0 <= at < crate::inventory::accepting_bag_slots(bags, template, normal).len(),
        crate::inventory::accepting_bag_slots(bags, template, normal)[at] == bags[k].slot,
    decreases bags.len(),
{
    let before = crate::inventory::accepting_bag_slots(bags.drop_last(), template, normal);
    if k == bags.len() - 1 {
        before.len() as int
    } else {
        assert(bags.drop_last()[k] == bags[k]);
        let at = lemma_accepting_bag_listed(bags.drop_last(), template, normal, k);
        at
    }
}

/// Storing an item of a bag family (arrows, bullets, soul shards...) with no
/// bag asked for tries the backpack first and then every equipped special
/// bag that takes it: the bag's slot comes right after the backpack, ahead
/// of all ordinary bags.
pub proof fn law_family_items_try_special_bags_after_backpack(
    template: ItemTemplateQuery,
    bags: Seq<EquippedBagInfo>,
    k: int,
) -> (at: int)
    requires
        template.bag_family != 0,
        0 <= k < bags.len(),
        !crate::inventory::is_normal_container_bag(&bags[k]),
        crate::inventory::item_can_go_into_bag(&template, &bags[k]),
    ensures
        store_bag_order_spec(template, bags, None)[0] == crate::inventory::INVENTORY_SLOT_BAG_0,
        1 <= at < store_bag_order_spec(template, bags, None).len(),
        store_bag_order_spec(template, bags, None)[at] == bags[k].slot,
        forall|q: int| 0 <= q < bags.len() && crate::inventory::is_normal_container_bag(&bags[q])
            && crate::inventory::item_can_go_into_bag(&template, #[trigger] &bags[q])
            ==> exists|r: int| at < r < store_bag_order_spec(template, bags, None).len()
                && #[trigger] store_bag_order_spec(template, bags, None)[r] == bags[q].slot,
{
    let special = crate::inventory::accepting_bag_slots(bags, template, false);
    let normal = crate::inventory::accepting_bag_slots(bags, template, true);
    let order = store_bag_order_spec(template, bags, None);
    assert(order =~= seq![crate::inventory::INVENTORY_SLOT_BAG_0] + special + normal);
    let i = lemma_accepting_bag_listed(bags, template, false, k);
    assert(order[1 + i] == special[i]);
    assert forall|q: int| 0 <= q < bags.len() && crate::inventory::is_normal_container_bag(&bags[q])
        && crate::inventory::item_can_go_into_bag(&template, #[trigger] &bags[q])
        implies exists|r: int| 1 + i < r < order.len() && #[trigger] order[r] == bags[q].slot by {
        let j = lemma_accepting_bag_listed(bags, template, true, q);
        let r = 1 + special.len() + j;
        assert(order[r] == normal[j]);
    }
    1 + i
}

/// A quest limited to some races is neither offered nor given to a
/// character of another race: when the character's race bit is not among
/// the quest's races, it can neither take nor see the quest.
pub proof fn law_other_races_cannot_take_or_see_quest(
    quest: QuestTemplateQuery,
    character: ActiveCharacter,
    skills: Seq<CharacterSkill>,
    reputations: Seq<CharacterReputation>,
    statuses: Seq<CharacterQuestStatus>,
    facts: QuestStartFacts,
)
    requires
        quest.required_races != 0,
        character.race == 0 || character.race > 32
            || quest.required_races & (1u32 << ((character.race - 1) as u32)) == 0,
    ensures
        !(crate::quest::race_class_level_spec(&quest, character)
            && crate::quest::start_rules_spec(&quest, skills, reputations, statuses, facts)),
        !(crate::quest::race_class_spec(&quest, character) && crate::quest::visibility_level_spec(&quest, character)
            && crate::quest::start_rules_spec(&quest, skills, reputations, statuses, facts)),
{
    if character.race == 0 || character.race > 32 {
        assert(quest.required_races & 0u32 == 0) by (bit_vector);
    }
}

/// A search shows only items that pass each filter it sets: the class, the
/// subclass, the inventory slot (a chest search also takes robes), the
/// lowest quality, the level range, usability, and the name.
pub proof fn law_search_shows_only_matching_items(
    character: ActiveCharacter,
    skills: Seq<CharacterSkill>,
    active_spells: Seq<u32>,
    reputations: Seq<CharacterReputation>,
    template: ItemTemplateQuery,
    template_name: Seq<char>,
    request: AuctionListItemsRequest,
    search_name: Seq<char>,
)
    ensures
        matches_search_spec(character, skills, active_spells, reputations, template, template_name, request, search_name)
            ==> {
            &&& request.item_class != u32::MAX ==> template.class == request.item_class
            &&& request.item_subclass != u32::MAX ==> template.subclass == request.item_subclass
            &&& request.inventory_type != u32::MAX ==> (template.inventory_type == request.inventory_type
                || (request.inventory_type == crate::auction_search::INVTYPE_CHEST
                    && template.inventory_type == crate::auction_search::INVTYPE_ROBE))
            &&& request.quality != u32::MAX ==> template.quality >= request.quality
            &&& request.level_min != 0 ==> template.required_level >= request.level_min as u32
            &&& request.level_min != 0 && request.level_max != 0 ==> template.required_level <= request.level_max as u32
            &&& request.usable != 0 ==> crate::equipment::can_use_item_spec(
                character.level,
                character.race,
                character.class,
                template,
                skills,
                active_spells,
                reputations,
            ) == 0
            &&& search_name.len() != 0 ==> crate::auction_search::contains_run(
                crate::auction_search::lowercase_of(template_name),
                search_name,
            )
        },
{
}

/// Restocking adds a full bundle (`buy_count`, at least one item) for each
/// whole interval since the last restock, saturating at the 32-bit limit;
/// before a whole interval has passed nothing is restocked.
pub proof fn law_restock_adds_a_bundle_per_interval(
    vendor_item: crate::vendor::VendorItemQuery,
    entry: crate::vendor::VendorStockEntry,
    now_secs: u64,
)
    requires
        vendor_item.incr_time > 0,
    ensures
        entry.last_increment_time + vendor_item.incr_time > now_secs && entry.last_increment_time + vendor_item.incr_time
            <= u64::MAX ==> crate::vendor::replenished_count_spec(vendor_item, entry, now_secs) is None,
        entry.last_increment_time + vendor_item.incr_time <= now_secs ==> ({
            let intervals = (now_secs - entry.last_increment_time) / (vendor_item.incr_time as int);
            let bundle: int = if vendor_item.buy_count > 1 { vendor_item.buy_count as int } else { 1 };
            &&& intervals >= 1
            &&& crate::vendor::replenished_count_spec(vendor_item, entry, now_secs) matches Some(count) && {
                &&& count >= entry.count
                &&& entry.count + intervals * bundle <= u32::MAX ==> count == entry.count + intervals * bundle
                &&& intervals <= u32::MAX && entry.count + intervals * bundle > u32::MAX ==> count == u32::MAX
            }
        }),
{
    if entry.last_increment_time + vendor_item.incr_time <= now_secs {
        let elapsed: int = now_secs - entry.last_increment_time;
        let incr: int = vendor_item.incr_time as int;
        let intervals = elapsed / incr;
        let bundle: int = if vendor_item.buy_count > 1 { vendor_item.buy_count as int } else { 1 };
        let step: u32 = if vendor_item.buy_count > 1 { vendor_item.buy_count } else { 1 };
        assert(crate::vendor::sat_add_u64(entry.last_increment_time, vendor_item.incr_time as u64) <= now_secs);
        assert(intervals >= 1) by (nonlinear_arith)
            requires elapsed >= incr, incr > 0, intervals == elapsed / incr;
        assert(intervals <= elapsed) by (nonlinear_arith)
            requires elapsed >= 0, incr >= 1, intervals == elapsed / incr;
        let wide = intervals as u64;
        assert(wide as int == intervals);
        let added = crate::vendor::sat_mul_u32(#[verifier::truncate] (wide as u32), step);
        assert(crate::vendor::replenished_count_spec(vendor_item, entry, now_secs)
            == Some(crate::vendor::sat_add_u32(entry.count, added)));
        if intervals <= u32::MAX {
            let n = wide as u32;
            assert(n as int == intervals);
            assert(intervals * bundle >= intervals) by (nonlinear_arith)
                requires intervals >= 1, bundle >= 1;
            assert((n as int) * (step as int) == intervals * bundle);
            if intervals * bundle <= u32::MAX {
                assert(added as int == intervals * bundle);
            } else {
                assert(added == u32::MAX);
            }
            assert(entry.count + intervals * bundle <= u32::MAX ==> crate::vendor::sat_add_u32(entry.count, added)
                == entry.count + intervals * bundle);
            assert(entry.count + intervals * bundle > u32::MAX ==> crate::vendor::sat_add_u32(entry.count, added)
                == u32::MAX);
        } else {
            assert(intervals * bundle >= intervals) by (nonlinear_arith)
                requires intervals >= 1, bundle >= 1;
        }
        assert(crate::vendor::sat_add_u32(entry.count, added) >= entry.count);
    }
}

/// Every reward slot of a quest with a faction and a base value yields its
/// bonus-scaled gain, losses as well as gains, unless that comes to 0; and
/// every listed reward is one of those, never 0.
pub proof fn law_quest_reputation_lists_every_change(
    quest: QuestTemplateQuery,
    gains: Seq<i32>,
    bonus: i32,
    n: int,
)
    requires
        0 <= n <= 5,
    ensures
        forall|i: int| 0 <= i < n && quest.rew_rep_faction@[i] != 0 && quest.rew_rep_value@[i] != 0
            && crate::reputation::bonus_spec(gains[i], bonus) != 0
            ==> #[trigger] crate::reputation::reputation_rewards_spec(&quest, gains, bonus, n).contains(
                (quest.rew_rep_faction@[i], crate::reputation::bonus_spec(gains[i], bonus))),
        forall|k: int| 0 <= k < crate::reputation::reputation_rewards_spec(&quest, gains, bonus, n).len() ==> {
            let listed = #[trigger] crate::reputation::reputation_rewards_spec(&quest, gains, bonus, n)[k];
            &&& listed.1 != 0
            &&& exists|i: int| 0 <= i < n && quest.rew_rep_faction@[i] == listed.0 && quest.rew_rep_value@[i] != 0
                && #[trigger] crate::reputation::bonus_spec(gains[i], bonus) == listed.1
        },
    decreases n,
{
    if n > 0 {
        law_quest_reputation_lists_every_change(quest, gains, bonus, n - 1);
        let before = crate::reputation::reputation_rewards_spec(&quest, gains, bonus, n - 1);
        let all = crate::reputation::reputation_rewards_spec(&quest, gains, bonus, n);
        let last = n - 1;
        let reward = crate::reputation::bonus_spec(gains[last], bonus);
        let tail: Seq<(u32, i32)> = if quest.rew_rep_faction@[last] != 0 && quest.rew_rep_value@[last] != 0 && reward != 0 {
            seq![(quest.rew_rep_faction@[last], reward)]
        } else {
            Seq::empty()
        };
        assert(all =~= before + tail);
        assert forall|i: int| 0 <= i < n && quest.rew_rep_faction@[i] != 0 && quest.rew_rep_value@[i] != 0
            && crate::reputation::bonus_spec(gains[i], bonus) != 0
            implies #[trigger] all.contains((quest.rew_rep_faction@[i], crate::reputation::bonus_spec(gains[i], bonus))) by {
            if i < last {
                let pair = (quest.rew_rep_faction@[i], crate::reputation::bonus_spec(gains[i], bonus));
                assert(before.contains(pair));
                let j = choose|j: int| 0 <= j < before.len() && before[j] == pair;
                assert(all[j] == pair);
            } else {
                assert(all[before.len() as int] == tail[0]);
            }
        }
        assert forall|k: int| 0 <= k < all.len() implies {
            let listed = #[trigger] all[k];
            &&& listed.1 != 0
            &&& exists|i: int| 0 <= i < n && quest.rew_rep_faction@[i] == listed.0 && quest.rew_rep_value@[i] != 0
                && #[trigger] crate::reputation::bonus_spec(gains[i], bonus) == listed.1
        } by {
            if k < before.len() {
                assert(all[k] == before[k]);
                let listed = before[k];
                let i = choose|i: int| 0 <= i < n - 1 && quest.rew_rep_faction@[i] == listed.0
                    && quest.rew_rep_value@[i] != 0 && #[trigger] crate::reputation::bonus_spec(gains[i], bonus) == listed.1;
                assert(crate::reputation::bonus_spec(gains[i], bonus) == listed.1);
            } else {
                assert(all[k] == tail[k - before.len()]);
                assert(crate::reputation::bonus_spec(gains[last], bonus) == all[k].1);
            }
        }
    }
}
/// A quest limited to some classes is neither offered nor given to a
/// character of another class.
pub proof fn law_other_classes_cannot_take_or_see_quest(
    quest: QuestTemplateQuery,
    character: ActiveCharacter,
    skills: Seq<CharacterSkill>,
    reputations: Seq<CharacterReputation>,
    statuses: Seq<CharacterQuestStatus>,
    facts: QuestStartFacts,
)
    requires
        quest.required_classes != 0,
        character.class == 0 || character.class > 32
            || quest.required_classes & (1u32 << ((character.class - 1) as u32)) == 0,
    ensures
        !(crate::quest::race_class_level_spec(&quest, character)
            && crate::quest::start_rules_spec(&quest, skills, reputations, statuses, facts)),
        !(crate::quest::race_class_spec(&quest, character) && crate::quest::visibility_level_spec(&quest, character)
            && crate::quest::start_rules_spec(&quest, skills, reputations, statuses, facts)),
{
    if character.class == 0 || character.class > 32 {
        assert(quest.required_classes & 0u32 == 0) by (bit_vector);
    }
}

/// Every accepting bag slot is the slot of an equipped bag of the asked
/// kind that takes the item.
proof fn lemma_accepting_bag_origin(bags: Seq<EquippedBagInfo>, template: ItemTemplateQuery, normal: bool, at: int) -> (k: int)
    requires
        0 <= at < crate::inventory::accepting_bag_slots(bags, template, normal).len(),
    ensures
        0 <= k < bags.len(),
        bags[k].slot == crate::inventory::accepting_bag_slots(bags, template, normal)[at],
        crate::inventory::is_normal_container_bag(&bags[k]) == normal,
        crate::inventory::item_can_go_into_bag(&template, &bags[k]),
    decreases bags.len(),
{
    let before = crate::inventory::accepting_bag_slots(bags.drop_last(), template, normal);
    if at < before.len() {
        let k = lemma_accepting_bag_origin(bags.drop_last(), template, normal, at);
        assert(bags.drop_last()[k] == bags[k]);
        k
    } else {
        bags.len() - 1
    }
}

/// With no bag asked for, the store order starts with the backpack and
/// then holds only equipped bags that take the item; special (non-ordinary)
/// bags are tried only for items of a bag family.
pub proof fn law_store_order_holds_only_accepting_bags(
    template: ItemTemplateQuery,
    bags: Seq<EquippedBagInfo>,
    p: int,
) -> (k: int)
    requires
        1 <= p < store_bag_order_spec(template, bags, None).len(),
    ensures
        store_bag_order_spec(template, bags, None)[0] == crate::inventory::INVENTORY_SLOT_BAG_0,
        0 <= k < bags.len(),
        bags[k].slot == store_bag_order_spec(template, bags, None)[p],
        crate::inventory::item_can_go_into_bag(&template, &bags[k]),
        template.bag_family == 0 ==> crate::inventory::is_normal_container_bag(&bags[k]),
{
    let special: Seq<u8> = if template.bag_family != 0 {
        crate::inventory::accepting_bag_slots(bags, template, false)
    } else {
        Seq::empty()
    };
    let normal = crate::inventory::accepting_bag_slots(bags, template, true);
    let order = store_bag_order_spec(template, bags, None);
    assert(order =~= seq![crate::inventory::INVENTORY_SLOT_BAG_0] + special + normal);
    if p - 1 < special.len() {
        assert(order[p] == special[p - 1]);
        lemma_accepting_bag_origin(bags, template, false, p - 1)
    } else {
        assert(order[p] == normal[p - 1 - special.len()]);
        lemma_accepting_bag_origin(bags, template, true, p - 1 - special.len())
    }
}

} // verus!
