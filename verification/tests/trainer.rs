use wow_network::character::ActiveCharacter;
use wow_network::guid::ObjectGuid;
use wow_network::trainer::{
    trainer_list_spells, trainer_purchase, trainer_spell_matches_class, CharacterSpell, TrainerListSpell, TrainerSpellQuery,
    TRAINER_SPELL_GRAY, TRAINER_SPELL_GREEN, TRAINER_SPELL_RED,
};

const TRAINER: u64 = 0xF130_0000_0300_0002;

fn spell(spell: u32, learned: u32, level: u8, ability: Option<u32>) -> TrainerSpellQuery {
    TrainerSpellQuery {
        spell,
        learned_spell: learned,
        spell_cost: 100,
        req_level: level,
        req_skill: 0,
        req_skill_value: 0,
        req_ability1: ability,
        req_ability2: None,
        req_ability3: None,
    }
}

fn known(spell: u32) -> CharacterSpell {
    CharacterSpell { spell, active: 1, disabled: 0 }
}

fn warrior(level: u8) -> ActiveCharacter {
    ActiveCharacter { guid: 1, level, race: 1, class: 1 }
}

#[test]
fn trainer_spell_colours() {
    let spells = vec![spell(1, 11, 4, None), spell(2, 12, 10, None), spell(3, 13, 1, Some(50)), spell(4, 14, 1, Some(60))];
    let rows = trainer_list_spells(&spells, 1, &warrior(6), &[known(11), known(60)]);
    let states: Vec<u8> = rows.iter().map(|r| r.state).collect();
    assert_eq!(states, vec![TRAINER_SPELL_GRAY, TRAINER_SPELL_RED, TRAINER_SPELL_RED, TRAINER_SPELL_GREEN]);
    assert_eq!(
        rows[2],
        TrainerListSpell {
            spell: 3,
            learned_spell: 13,
            state: TRAINER_SPELL_RED,
            cost: 100,
            req_level: 1,
            req_skill: 0,
            req_skill_value: 0,
            req_ability: [50, 0, 0],
        }
    );
}

#[test]
fn disabled_or_inactive_spells_are_not_known() {
    let spells = vec![spell(1, 11, 1, None)];
    let inactive = CharacterSpell { spell: 11, active: 0, disabled: 0 };
    let disabled = CharacterSpell { spell: 11, active: 1, disabled: 1 };
    assert_eq!(trainer_list_spells(&spells, 0, &warrior(6), &[inactive, disabled])[0].state, TRAINER_SPELL_GREEN);
}

#[test]
fn class_trainers_teach_their_class_only() {
    assert!(trainer_spell_matches_class(0, 4));
    assert!(trainer_spell_matches_class(4, 4));
    assert!(!trainer_spell_matches_class(8, 4));
    let spells = vec![spell(1, 11, 1, None)];
    assert!(trainer_list_spells(&spells, 8, &warrior(6), &[]).is_empty());
}

#[test]
fn purchases_need_a_green_spell() {
    let trainer = ObjectGuid::from_raw(TRAINER);
    let spells = vec![spell(1, 11, 4, None), spell(2, 12, 10, None)];
    let bought = trainer_purchase(trainer, 1, &spells, 1, &warrior(6), &[]);
    assert_eq!(bought.map(|r| r.learned_spell), Some(11));
    assert_eq!(trainer_purchase(trainer, 1, &spells, 1, &warrior(6), &[known(11)]), None);
    assert_eq!(trainer_purchase(trainer, 1, &spells, 2, &warrior(6), &[]), None);
    assert_eq!(trainer_purchase(trainer, 1, &spells, 3, &warrior(6), &[]), None);
    assert_eq!(trainer_purchase(trainer, 2, &spells, 1, &warrior(6), &[]), None);
    assert_eq!(trainer_purchase(ObjectGuid::from_raw(5), 1, &spells, 1, &warrior(6), &[]), None);
}
