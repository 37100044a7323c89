//! The character facts that game rules read: level, race, class, skills,
//! reputations, and race/class bit masks.
use vstd::prelude::*;

verus! {

/// The logged-in character as the rules see it.
#[derive(Clone, Copy, Debug, PartialEq, Eq, Structural)]
pub struct ActiveCharacter {
    pub guid: u32,
    pub level: u8,
    pub race: u8,
    pub class: u8,
}

#[derive(Clone, Copy, Debug, PartialEq, Eq, Structural)]
pub struct CharacterSkill {
    pub skill: u16,
    pub value: u16,
}

#[derive(Clone, Copy, Debug, PartialEq, Eq, Structural)]
pub struct CharacterReputation {
    pub faction: u32,
    pub standing: i32,
}

/// The bit of race or class `id` (1-based) in a 32-bit mask; 0 for id 0 and
/// for ids past 32.
#[verifier::allow_in_spec]
pub fn quest_race_or_class_mask(id: u8) -> u32
    returns
        (if id == 0 || id > 32 { 0u32 } else { 1u32 << ((id - 1) as u32) }),
{
    if id == 0 || id > 32 {
        0
    } else {
        1u32 << ((id - 1) as u32)
    }
}

/// The value of the first skill entry with id `skill`.
pub open spec fn first_skill_value(skills: Seq<CharacterSkill>, skill: u32) -> Option<u16>
    decreases skills.len(),
{
    if skills.len() == 0 {
        None
    } else {
        match first_skill_value(skills.drop_last(), skill) {
            Some(v) => Some(v),
            None => if skills.last().skill as u32 == skill { Some(skills.last().value) } else { None },
        }
    }
}

/// The standing of the first reputation entry for `faction`.
pub open spec fn first_standing(reputations: Seq<CharacterReputation>, faction: u32) -> Option<i32>
    decreases reputations.len(),
{
    if reputations.len() == 0 {
        None
    } else {
        match first_standing(reputations.drop_last(), faction) {
            Some(v) => Some(v),
            None => if reputations.last().faction == faction { Some(reputations.last().standing) } else { None },
        }
    }
}

/// The value of the character's skill `skill`, if it knows the skill.
pub fn find_skill_value(skills: &[CharacterSkill], skill: u32) -> (value: Option<u16>)
    ensures
        value == first_skill_value(skills@, skill),
{
    let mut i: usize = 0;
    while i < skills.len()
        invariant
            i <= skills.len(),
            first_skill_value(skills@.take(i as int), skill) is None,
        decreases skills.len() - i,
    {
        assert(skills@.take(i + 1).drop_last() =~= skills@.take(i as int));
        if skills[i].skill as u32 == skill {
            proof { lemma_first_skill_prefix(skills@, skill, (i + 1) as int); }
            return Some(skills[i].value);
        }
        i += 1;
    }
    assert(skills@.take(skills@.len() as int) =~= skills@);
    None
}

proof fn lemma_first_skill_prefix(skills: Seq<CharacterSkill>, skill: u32, n: int)
    requires
        0 <= n <= skills.len(),
        first_skill_value(skills.take(n), skill) is Some,
    ensures
        first_skill_value(skills, skill) == first_skill_value(skills.take(n), skill),
    decreases skills.len() - n,
{
    if n < skills.len() {
        assert(skills.take(n + 1).drop_last() =~= skills.take(n));
        lemma_first_skill_prefix(skills, skill, n + 1);
    } else {
        assert(skills.take(n) =~= skills);
    }
}

/// The character's standing with `faction`, if it has one recorded.
pub fn find_standing(reputations: &[CharacterReputation], faction: u32) -> (standing: Option<i32>)
    ensures
        standing == first_standing(reputations@, faction),
{
    let mut i: usize = 0;
    while i < reputations.len()
        invariant
            i <= reputations.len(),
            first_standing(reputations@.take(i as int), faction) is None,
        decreases reputations.len() - i,
    {
        assert(reputations@.take(i + 1).drop_last() =~= reputations@.take(i as int));
        if reputations[i].faction == faction {
            proof { lemma_first_standing_prefix(reputations@, faction, (i + 1) as int); }
            return Some(reputations[i].standing);
        }
        i += 1;
    }
    assert(reputations@.take(reputations@.len() as int) =~= reputations@);
    None
}

proof fn lemma_first_standing_prefix(reputations: Seq<CharacterReputation>, faction: u32, n: int)
    requires
        0 <= n <= reputations.len(),
        first_standing(reputations.take(n), faction) is Some,
    ensures
        first_standing(reputations, faction) == first_standing(reputations.take(n), faction),
    decreases reputations.len() - n,
{
    if n < reputations.len() {
        assert(reputations.take(n + 1).drop_last() =~= reputations.take(n));
        lemma_first_standing_prefix(reputations, faction, n + 1);
    } else {
        assert(reputations.take(n) =~= reputations);
    }
}

/// The reputation rank of a standing: 0 hated .. 3 neutral .. 7 exalted.
#[verifier::allow_in_spec]
pub fn reputation_rank_from_standing(standing: i32) -> u32
    returns
        (if standing <= -6001 {
            0u32
        } else if standing <= -3001 {
            1
        } else if standing <= -1 {
            2
        } else if standing <= 2999 {
            3
        } else if standing <= 8999 {
            4
        } else if standing <= 20999 {
            5
        } else if standing <= 41999 {
            6
        } else {
            7
        }),
{
    if standing <= -6001 {
        0
    } else if standing <= -3001 {
        1
    } else if standing <= -1 {
        2
    } else if standing <= 2999 {
        3
    } else if standing <= 8999 {
        4
    } else if standing <= 20999 {
        5
    } else if standing <= 41999 {
        6
    } else {
        7
    }
}

/// Alliance races: human, dwarf, night elf, gnome.
#[verifier::allow_in_spec]
pub fn is_alliance_race(race: u8) -> bool
    returns
        race == 1 || race == 3 || race == 4 || race == 7,
{
    race == 1 || race == 3 || race == 4 || race == 7
}

} // verus!
