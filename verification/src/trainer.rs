//! Class trainers: which of a trainer's spells a character is shown, in
//! which colour, and which it may buy.
use vstd::prelude::*;
use crate::character::ActiveCharacter;
use crate::guid::ObjectGuid;

verus! {

/// Learnable now.
pub const TRAINER_SPELL_GREEN: u8 = 0;
/// Not learnable yet.
pub const TRAINER_SPELL_RED: u8 = 1;
/// Already known.
pub const TRAINER_SPELL_GRAY: u8 = 2;

/// A spell a trainer teaches, as stored.
#[derive(Clone, Copy, Debug, PartialEq, Eq, Structural)]
pub struct TrainerSpellQuery {
    /// The spell the trainer casts to teach.
    pub spell: u32,
    /// The spell the character ends up knowing.
    pub learned_spell: u32,
    pub spell_cost: u32,
    pub req_level: u8,
    pub req_skill: u32,
    pub req_skill_value: u32,
    pub req_ability1: Option<u32>,
    pub req_ability2: Option<u32>,
    pub req_ability3: Option<u32>,
}

/// A spell of the character, as stored.
#[derive(Clone, Copy, Debug, PartialEq, Eq, Structural)]
pub struct CharacterSpell {
    pub spell: u32,
    pub active: u8,
    pub disabled: u8,
}

/// A trainer spell as the list shows it to one character.
#[derive(Clone, Copy, Debug, PartialEq, Eq)]
pub struct TrainerListSpell {
    pub spell: u32,
    pub learned_spell: u32,
    pub state: u8,
    pub cost: u32,
    pub req_level: u8,
    pub req_skill: u32,
    pub req_skill_value: u32,
    pub req_ability: [u32; 3],
}

/// Whether the character knows `spell`: an active, enabled record of it.
pub open spec fn knows_spell(known: Seq<CharacterSpell>, spell: u32) -> bool {
    exists|i: int| 0 <= i < known.len() && (#[trigger] known[i]).spell == spell && known[i].active != 0 && known[i].disabled == 0
}

pub open spec fn ability_or_zero(ability: Option<u32>) -> u32 {
    match ability {
        Some(a) => a,
        None => 0,
    }
}

/// Some required ability is set and unknown.
pub open spec fn missing_ability_spec(query: TrainerSpellQuery, known: Seq<CharacterSpell>) -> bool {
    ||| (ability_or_zero(query.req_ability1) != 0 && !knows_spell(known, ability_or_zero(query.req_ability1)))
    ||| (ability_or_zero(query.req_ability2) != 0 && !knows_spell(known, ability_or_zero(query.req_ability2)))
    ||| (ability_or_zero(query.req_ability3) != 0 && !knows_spell(known, ability_or_zero(query.req_ability3)))
}

/// The colour of a trainer spell: gray when the character knows what it
/// teaches; red while the character is below its level, it needs a skill,
/// or a required ability is unknown; green otherwise.
pub open spec fn trainer_state_spec(query: TrainerSpellQuery, level: u8, known: Seq<CharacterSpell>) -> u8 {
    if knows_spell(known, query.learned_spell) {
        TRAINER_SPELL_GRAY
    } else if level < query.req_level || query.req_skill != 0 || missing_ability_spec(query, known) {
        TRAINER_SPELL_RED
    } else {
        TRAINER_SPELL_GREEN
    }
}

pub open spec fn list_spell_spec(query: TrainerSpellQuery, level: u8, known: Seq<CharacterSpell>) -> TrainerListSpell {
    TrainerListSpell {
        spell: query.spell,
        learned_spell: query.learned_spell,
        state: trainer_state_spec(query, level, known),
        cost: query.spell_cost,
        req_level: query.req_level,
        req_skill: query.req_skill,
        req_skill_value: query.req_skill_value,
        req_ability: [ability_or_zero(query.req_ability1), ability_or_zero(query.req_ability2), ability_or_zero(query.req_ability3)],
    }
}

fn knows(known: &[CharacterSpell], spell: u32) -> (found: bool)
    ensures
        found == knows_spell(known@, spell),
{
    let mut i: usize = 0;
    while i < known.len()
        invariant
            i <= known@.len(),
            forall|j: int| 0 <= j < i ==> !((#[trigger] known@[j]).spell == spell && known@[j].active != 0 && known@[j].disabled == 0),
        decreases known@.len() - i,
    {
        if known[i].spell == spell && known[i].active != 0 && known[i].disabled == 0 {
            assert(known@[i as int].spell == spell);
            return true;
        }
        i += 1;
    }
    false
}

fn or_zero(ability: Option<u32>) -> (value: u32)
    ensures
        value == ability_or_zero(ability),
{
    match ability {
        Some(a) => a,
        None => 0,
    }
}

impl TrainerListSpell {
    /// A trainer spell as `character` (knowing `known_spells`) sees it.
    pub fn from_query(query: &TrainerSpellQuery, character: &ActiveCharacter, known_spells: &[CharacterSpell]) -> (row: Self)
        ensures
            row == list_spell_spec(*query, character.level, known_spells@),
    {
        let known = knows(known_spells, query.learned_spell);
        let req_ability = [or_zero(query.req_ability1), or_zero(query.req_ability2), or_zero(query.req_ability3)];
        let missing_required_ability = (req_ability[0] != 0 && !knows(known_spells, req_ability[0])) || (req_ability[1]
            != 0 && !knows(known_spells, req_ability[1])) || (req_ability[2] != 0 && !knows(known_spells, req_ability[2]));
        let state = if known {
            TRAINER_SPELL_GRAY
        } else if character.level < query.req_level || query.req_skill != 0 || missing_required_ability {
            TRAINER_SPELL_RED
        } else {
            TRAINER_SPELL_GREEN
        };
        let row = TrainerListSpell {
            spell: query.spell,
            learned_spell: query.learned_spell,
            state,
            cost: query.spell_cost,
            req_level: query.req_level,
            req_skill: query.req_skill,
            req_skill_value: query.req_skill_value,
            req_ability,
        };
        assert(row.req_ability@ =~= list_spell_spec(*query, character.level, known_spells@).req_ability@);
        row
    }
}

/// A trainer with no class teaches every class.
pub fn trainer_spell_matches_class(trainer_class: u8, class: u8) -> (matches: bool)
    ensures
        matches == (trainer_class == 0 || trainer_class == class),
{
    trainer_class == 0 || trainer_class == class
}

/// The list a trainer of class `trainer_class` shows a character: all its
/// spells, coloured for the character, or none when it trains another
/// class.
pub fn trainer_list_spells(
    spells: &[TrainerSpellQuery],
    trainer_class: u8,
    character: &ActiveCharacter,
    known_spells: &[CharacterSpell],
) -> (rows: Vec<TrainerListSpell>)
    ensures
        trainer_class == 0 || trainer_class == character.class ==> rows@.len() == spells@.len() && forall|i: int|
            0 <= i < spells@.len() ==> #[trigger] rows@[i] == list_spell_spec(spells@[i], character.level, known_spells@),
        !(trainer_class == 0 || trainer_class == character.class) ==> rows@.len() == 0,
{
    let mut rows: Vec<TrainerListSpell> = Vec::new();
    if !trainer_spell_matches_class(trainer_class, character.class) {
        return rows;
    }
    let mut i: usize = 0;
    while i < spells.len()
        invariant
            i <= spells@.len(),
            rows@.len() == i,
            forall|k: int| 0 <= k < i ==> #[trigger] rows@[k] == list_spell_spec(spells@[k], character.level, known_spells@),
        decreases spells@.len() - i,
    {
        rows.push(TrainerListSpell::from_query(&spells[i], character, known_spells));
        i += 1;
    }
    rows
}

/// The first of a trainer's spells that casts `spell`.
pub open spec fn trainer_spell_index(spells: Seq<TrainerSpellQuery>, spell: u32) -> Option<int>
    decreases spells.len(),
{
    if spells.len() == 0 {
        None
    } else {
        match trainer_spell_index(spells.drop_last(), spell) {
            Some(i) => Some(i),
            None => if spells.last().spell == spell { Some(spells.len() - 1) } else { None },
        }
    }
}

proof fn lemma_trainer_spell_prefix(spells: Seq<TrainerSpellQuery>, spell: u32, n: int)
    requires
        0 <= n <= spells.len(),
        trainer_spell_index(spells.take(n), spell) is Some,
    ensures
        trainer_spell_index(spells, spell) == trainer_spell_index(spells.take(n), spell),
    decreases spells.len() - n,
{
    if n < spells.len() {
        assert(spells.take(n + 1).drop_last() =~= spells.take(n));
        lemma_trainer_spell_prefix(spells, spell, n + 1);
    } else {
        assert(spells.take(n) =~= spells);
    }
}

/// What a character may buy from a trainer: the listed spell for `spell`,
/// when the trainer is a creature of a matching class that teaches it and
/// it shows green.
pub open spec fn trainer_purchase_spec(
    trainer_guid: ObjectGuid,
    trainer_class: u8,
    spells: Seq<TrainerSpellQuery>,
    spell: u32,
    character: ActiveCharacter,
    known: Seq<CharacterSpell>,
) -> Option<TrainerListSpell> {
    if !trainer_guid.is_creature() {
        None
    } else {
        match trainer_spell_index(spells, spell) {
            None => None,
            Some(i) => {
                let row = list_spell_spec(spells[i], character.level, known);
                if (trainer_class == 0 || trainer_class == character.class) && row.state == TRAINER_SPELL_GREEN {
                    Some(row)
                } else {
                    None
                }
            },
        }
    }
}

/// Whether a spell purchase goes ahead, and with what: the spell it
/// teaches and its cost are in the returned row.
pub fn trainer_purchase(
    trainer_guid: ObjectGuid,
    trainer_class: u8,
    spells: &[TrainerSpellQuery],
    spell: u32,
    character: &ActiveCharacter,
    known_spells: &[CharacterSpell],
) -> (row: Option<TrainerListSpell>)
    ensures
        row == trainer_purchase_spec(trainer_guid, trainer_class, spells@, spell, *character, known_spells@),
{
    if !trainer_guid.is_creature() {
        return None;
    }
    let mut i: usize = 0;
    while i < spells.len()
        invariant
            i <= spells@.len(),
            trainer_guid.is_creature(),
            trainer_spell_index(spells@.take(i as int), spell) is None,
        decreases spells@.len() - i,
    {
        assert(spells@.take(i + 1).drop_last() =~= spells@.take(i as int));
        if spells[i].spell == spell {
            proof {
                assert(trainer_spell_index(spells@.take(i + 1), spell) == Some(i as int));
                lemma_trainer_spell_prefix(spells@, spell, (i + 1) as int);
            }
            let row = TrainerListSpell::from_query(&spells[i], character, known_spells);
            if trainer_spell_matches_class(trainer_class, character.class) && row.state == TRAINER_SPELL_GREEN {
                return Some(row);
            }
            return None;
        }
        i += 1;
    }
    assert(spells@.take(spells@.len() as int) =~= spells@);
    None
}

} // verus!
