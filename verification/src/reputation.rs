//! Reputation: faction list slots and names, quest reputation rewards with
//! gain bonuses, and the standing packets and messages.
use vstd::prelude::*;
use vstd::string::StringExecFns;
use crate::character::CharacterReputation;
use crate::quest::QuestTemplateQuery;
use crate::text::{append_decimal, decimal};
use crate::wire::{le_u32, le_i32, push_u32, push_i32};

verus! {

pub const FACTION_FLAG_VISIBLE: i32 = 0x01;

/// The client's reputation list slot of a faction.
#[verifier::allow_in_spec]
pub fn reputation_list_slot_for_faction(faction: u32) -> Option<usize>
    returns
        (match faction {
            59 => Some(4usize),
            76 => Some(14usize),
            54 => Some(18usize),
            72 => Some(19usize),
            47 => Some(20usize),
            69 => Some(21usize),
            609 => Some(36usize),
            730 => Some(40usize),
            729 => Some(41usize),
            849 => Some(45usize),
            889 => Some(46usize),
            909 => Some(50usize),
            270 => Some(51usize),
            510 => Some(52usize),
            509 => Some(53usize),
            910 => Some(54usize),
            _ => None,
        }),
{
    match faction {
        59 => Some(4),
        76 => Some(14),
        54 => Some(18),
        72 => Some(19),
        47 => Some(20),
        69 => Some(21),
        609 => Some(36),
        730 => Some(40),
        729 => Some(41),
        849 => Some(45),
        889 => Some(46),
        909 => Some(50),
        270 => Some(51),
        510 => Some(52),
        509 => Some(53),
        910 => Some(54),
        _ => None,
    }
}

pub open spec fn faction_name_spec(faction: u32) -> Option<Seq<char>> {
    match faction {
        59 => Some("Thorium Brotherhood"@),
        76 => Some("Orgrimmar"@),
        54 => Some("Gnomeregan Exiles"@),
        72 => Some("Stormwind"@),
        47 => Some("Ironforge"@),
        69 => Some("Darnassus"@),
        609 => Some("Cenarion Circle"@),
        730 => Some("Stormpike Guard"@),
        729 => Some("Frostwolf Clan"@),
        849 => Some("Silverwing Sentinels"@),
        889 => Some("Warsong Outriders"@),
        909 => Some("Darkmoon Faire"@),
        270 => Some("Zandalar Tribe"@),
        510 => Some("The Defilers"@),
        509 => Some("The League of Arathor"@),
        910 => Some("Brood of Nozdormu"@),
        _ => None,
    }
}

/// The display name of a faction in the reputation list.
pub fn reputation_faction_name(faction: u32) -> (name: Option<&'static str>)
    ensures
        match name {
            Some(n) => faction_name_spec(faction) == Some(n@),
            None => faction_name_spec(faction) is None,
        },
{
    match faction {
        59 => Some("Thorium Brotherhood"),
        76 => Some("Orgrimmar"),
        54 => Some("Gnomeregan Exiles"),
        72 => Some("Stormwind"),
        47 => Some("Ironforge"),
        69 => Some("Darnassus"),
        609 => Some("Cenarion Circle"),
        730 => Some("Stormpike Guard"),
        729 => Some("Frostwolf Clan"),
        849 => Some("Silverwing Sentinels"),
        889 => Some("Warsong Outriders"),
        909 => Some("Darkmoon Faire"),
        270 => Some("Zandalar Tribe"),
        510 => Some("The Defilers"),
        509 => Some("The League of Arathor"),
        910 => Some("Brood of Nozdormu"),
        _ => None,
    }
}

/// Division rounding toward zero, as integer division does.
pub open spec fn div_toward_zero(a: int, b: int) -> int {
    if a >= 0 { a / b } else { -((-a) / b) }
}

/// A reward scaled by `100 + gain_bonus_percent` percent, rounded toward
/// zero and clamped to 32 bits; a bonus at or below -100% gives 0.
pub open spec fn bonus_spec(reward: i32, gain_bonus_percent: i32) -> i32 {
    if reward == 0 || gain_bonus_percent == 0 {
        reward
    } else if 100 + gain_bonus_percent <= 0 {
        0
    } else {
        let scaled = div_toward_zero(reward * (100 + gain_bonus_percent), 100);
        if scaled < i32::MIN { i32::MIN } else if scaled > i32::MAX { i32::MAX } else { scaled as i32 }
    }
}

pub fn apply_reputation_gain_bonus(reward: i32, gain_bonus_percent: i32) -> (scaled: i32)
    ensures
        scaled == bonus_spec(reward, gain_bonus_percent),
{
    if reward == 0 || gain_bonus_percent == 0 {
        return reward;
    }
    let multiplier: i64 = 100i64 + gain_bonus_percent as i64;
    if multiplier <= 0 {
        return 0;
    }
    assert((reward as int) * (multiplier as int) <= 0x7FFF_FFFF * 0x8000_0064) by (nonlinear_arith)
        requires
            -0x8000_0000 <= reward <= 0x7FFF_FFFF,
            0 < multiplier <= 0x8000_0063;
    assert((reward as int) * (multiplier as int) >= -0x8000_0000 * 0x8000_0064) by (nonlinear_arith)
        requires
            -0x8000_0000 <= reward <= 0x7FFF_FFFF,
            0 < multiplier <= 0x8000_0063;
    let product: i64 = reward as i64 * multiplier;
    let scaled: i64 = product / 100;
    if scaled < i32::MIN as i64 {
        i32::MIN
    } else if scaled > i32::MAX as i64 {
        i32::MAX
    } else {
        scaled as i32
    }
}

/// The reputation rewards a quest grants: for each faction with a non-zero
/// base value, its gain (as computed for the character's level) scaled by
/// the bonus, skipping rewards that come to 0. `gains[i]` is the level-scaled
/// gain of reward slot `i`.
pub open spec fn reputation_rewards_spec(quest: &QuestTemplateQuery, gains: Seq<i32>, bonus: i32, n: int) -> Seq<(u32, i32)>
    decreases n,
{
    if n <= 0 {
        Seq::empty()
    } else {
        let i = n - 1;
        let faction = quest.rew_rep_faction@[i];
        let reward = bonus_spec(gains[i], bonus);
        reputation_rewards_spec(quest, gains, bonus, n - 1) + if faction != 0 && quest.rew_rep_value@[i] != 0 && reward != 0 {
            seq![(faction, reward)]
        } else {
            Seq::empty()
        }
    }
}

pub fn quest_reputation_rewards_with_bonus(
    quest: &QuestTemplateQuery,
    gains: &[i32; 5],
    gain_bonus_percent: i32,
) -> (rewards: Vec<(u32, i32)>)
    ensures
        rewards@ == reputation_rewards_spec(quest, gains@, gain_bonus_percent, 5),
{
    let mut rewards: Vec<(u32, i32)> = Vec::new();
    let mut i: usize = 0;
    while i < 5
        invariant
            i <= 5,
            rewards@ == reputation_rewards_spec(quest, gains@, gain_bonus_percent, i as int),
        decreases 5 - i,
    {
        let faction = quest.rew_rep_faction[i];
        let value = quest.rew_rep_value[i];
        if faction != 0 && value != 0 {
            let reward = apply_reputation_gain_bonus(gains[i], gain_bonus_percent);
            if reward != 0 {
                rewards.push((faction, reward));
            }
        }
        assert(rewards@ =~= reputation_rewards_spec(quest, gains@, gain_bonus_percent, i + 1));
        i += 1;
    }
    rewards
}

/// The reputation rewards without a gain bonus.
pub fn quest_reputation_rewards(quest: &QuestTemplateQuery, gains: &[i32; 5]) -> (rewards: Vec<(u32, i32)>)
    ensures
        rewards@ == reputation_rewards_spec(quest, gains@, 0, 5),
{
    quest_reputation_rewards_with_bonus(quest, gains, 0)
}

/// SMSG_SET_FACTION_VISIBLE: the faction's list slot.
pub fn build_set_faction_visible_body(faction: u32) -> (body: Option<Vec<u8>>)
    ensures
        match body {
            Some(b) => reputation_list_slot_for_faction(faction) matches Some(slot) && b@ == le_u32(slot as u32),
            None => reputation_list_slot_for_faction(faction) is None,
        },
{
    let slot = match reputation_list_slot_for_faction(faction) {
        Some(s) => s,
        None => { return None; },
    };
    let mut body: Vec<u8> = Vec::new();
    push_u32(&mut body, slot as u32);
    assert(body@ =~= le_u32(slot as u32));
    Some(body)
}

/// The (slot, standing) pairs of the reputations that have a list slot.
pub open spec fn mapped_standings(reputations: Seq<CharacterReputation>) -> Seq<(u32, i32)>
    decreases reputations.len(),
{
    if reputations.len() == 0 {
        Seq::empty()
    } else {
        let r = reputations.last();
        mapped_standings(reputations.drop_last()) + match reputation_list_slot_for_faction(r.faction) {
            Some(slot) => seq![(slot as u32, r.standing)],
            None => Seq::empty(),
        }
    }
}

pub open spec fn standing_pairs_bytes(pairs: Seq<(u32, i32)>) -> Seq<u8>
    decreases pairs.len(),
{
    if pairs.len() == 0 {
        Seq::empty()
    } else {
        standing_pairs_bytes(pairs.drop_last()) + le_u32(pairs.last().0) + le_i32(pairs.last().1)
    }
}

/// SMSG_SET_FACTION_STANDING: the count of mapped reputations, then each
/// slot and standing.
pub fn build_set_faction_standing_body(reputations: &[CharacterReputation]) -> (body: Vec<u8>)
    ensures
        body@ == le_u32(mapped_standings(reputations@).len() as u32) + standing_pairs_bytes(mapped_standings(reputations@)),
{
    let mut mapped: Vec<(u32, i32)> = Vec::new();
    let mut i: usize = 0;
    while i < reputations.len()
        invariant
            i <= reputations.len(),
            mapped@ == mapped_standings(reputations@.take(i as int)),
        decreases reputations.len() - i,
    {
        assert(reputations@.take(i + 1).drop_last() =~= reputations@.take(i as int));
        if let Some(slot) = reputation_list_slot_for_faction(reputations[i].faction) {
            mapped.push((slot as u32, reputations[i].standing));
        }
        i += 1;
    }
    assert(reputations@.take(reputations@.len() as int) =~= reputations@);
    let mut body: Vec<u8> = Vec::new();
    push_u32(&mut body, mapped.len() as u32);
    let ghost head = body@;
    let mut k: usize = 0;
    while k < mapped.len()
        invariant
            k <= mapped.len(),
            body@ == head + standing_pairs_bytes(mapped@.take(k as int)),
        decreases mapped.len() - k,
    {
        assert(mapped@.take(k + 1).drop_last() =~= mapped@.take(k as int));
        push_u32(&mut body, mapped[k].0);
        push_i32(&mut body, mapped[k].1);
        assert(body@ =~= head + standing_pairs_bytes(mapped@.take(k + 1)));
        k += 1;
    }
    assert(mapped@.take(mapped@.len() as int) =~= mapped@);
    body
}

/// A standing change of one faction.
#[derive(Clone, Copy, Debug, PartialEq, Eq, Structural)]
pub struct CharacterReputationChange {
    pub reputation: CharacterReputation,
    pub delta: i32,
}

/// The magnitude of a change, as the message shows it.
pub open spec fn abs_delta(delta: i32) -> nat {
    if delta < 0 { (-delta) as nat } else { delta as nat }
}

/// "Reputation with NAME increased by N." or "... decreased by N.";
/// nothing for an unnamed faction or a zero change.
pub open spec fn reputation_message_spec(change: CharacterReputationChange) -> Option<Seq<char>> {
    match faction_name_spec(change.reputation.faction) {
        None => None,
        Some(name) => if change.delta > 0 {
            Some("Reputation with "@ + name + " increased by "@ + decimal(abs_delta(change.delta)) + "."@)
        } else if change.delta < 0 {
            Some("Reputation with "@ + name + " decreased by "@ + decimal(abs_delta(change.delta)) + "."@)
        } else {
            None
        },
    }
}

pub fn reputation_gain_system_message(change: &CharacterReputationChange) -> (message: Option<String>)
    ensures
        match message {
            Some(m) => reputation_message_spec(*change) == Some(m@),
            None => reputation_message_spec(*change) is None,
        },
{
    let name = match reputation_faction_name(change.reputation.faction) {
        Some(n) => n,
        None => { return None; },
    };
    if change.delta == 0 {
        return None;
    }
    let magnitude: u32 = if change.delta < 0 {
        if change.delta == i32::MIN { 0x8000_0000u32 } else { (-change.delta) as u32 }
    } else {
        change.delta as u32
    };
    let mut text = String::from_str("Reputation with ");
    text.append(name);
    if change.delta > 0 {
        text.append(" increased by ");
    } else {
        text.append(" decreased by ");
    }
    append_decimal(&mut text, magnitude);
    text.append(".");
    Some(text)
}

} // verus!
