use wow_network::character::ActiveCharacter;
use wow_network::guid::ObjectGuid;
use wow_network::packets::{
    animation_emote_for_text_emote, build_attack_start_body, build_attack_stop_body, build_cast_result_ok_body,
    build_emote_body, build_loot_release_response_body, build_message_chat_body, build_name_query_response,
    build_system_message_chat_body, build_text_emote_body, chat_message_route, normalize_fixture_spell_targets,
    text_emote_target_lookup, ChatRoute, EmoteTargetLookup, CHAT_MSG_PARTY, CHAT_MSG_YELL, read_packet_guid, CastSpellPacket, CharacterNameQuery,
    ChatMessage, CreatureQuery, SpellCastTargets, TextEmote, CHAT_MSG_EMOTE, CHAT_MSG_SAY, SPELL_CAST_TARGET_UNIT,
    SPELL_CAST_TARGET_UNIT_ENEMY,
};
use wow_network::wire::{push_packed_guid, read_packed_guid, read_u32, read_u64, WireError};

fn character() -> ActiveCharacter {
    ActiveCharacter { guid: 0x0102_0304, level: 10, race: 1, class: 1 }
}

#[test]
fn packed_guids_write_a_mask_and_the_non_zero_bytes() {
    let mut body = Vec::new();
    push_packed_guid(&mut body, 0xF130_0000_0000_0042);
    assert_eq!(body, vec![0b1100_0001, 0x42, 0x30, 0xF1]);
    let mut body = Vec::new();
    push_packed_guid(&mut body, 0);
    assert_eq!(body, vec![0]);
}

#[test]
fn packed_guids_read_back_what_was_written() {
    for raw in [0u64, 1, 0x42, 0xF130_0000_0000_0042, u64::MAX, 0x0100_0000_0000_0000, 0x0000_00FF_0000_FF00] {
        let mut body = vec![9, 9];
        push_packed_guid(&mut body, raw);
        body.push(7);
        let mut cursor = 2;
        assert_eq!(read_packed_guid(&body, &mut cursor), Ok(raw));
        assert_eq!(body[cursor], 7);
    }
    let mut cursor = 0;
    assert_eq!(read_packed_guid(&[0b0000_0011, 5], &mut cursor), Err(WireError::UnexpectedEnd));
    assert_eq!(cursor, 0);
    assert_eq!(read_packed_guid(&[], &mut cursor), Err(WireError::UnexpectedEnd));
}

#[test]
fn fixed_width_readers_check_the_length() {
    let body = [1u8, 0, 0, 0, 2, 0, 0, 0, 0, 0, 0, 0];
    let mut cursor = 0;
    assert_eq!(read_u32(&body, &mut cursor), Ok(1));
    assert_eq!(read_u64(&body, &mut cursor), Ok(2));
    assert_eq!(read_u32(&body, &mut cursor), Err(WireError::UnexpectedEnd));
    assert_eq!(cursor, 12);
}

#[test]
fn name_query_answers_known_and_unknown_characters() {
    let known = CharacterNameQuery { guid: 5, name: "Rustone".to_string(), race: 1, gender: 0, class: 4 };
    let body = build_name_query_response(5, Some(&known));
    let mut expected = vec![5, 0, 0, 0, 0, 0, 0, 0];
    expected.extend_from_slice(b"Rustone\0");
    expected.push(0);
    expected.extend_from_slice(&[1, 0, 0, 0, 0, 0, 0, 0, 4, 0, 0, 0]);
    assert_eq!(body, expected);

    let body = build_name_query_response(9, None);
    let mut expected = vec![9, 0, 0, 0, 0, 0, 0, 0];
    expected.extend_from_slice(b"Unknown\0");
    expected.push(0);
    expected.extend_from_slice(&[0; 12]);
    assert_eq!(body, expected);
}

#[test]
fn chat_messages_read_and_write() {
    let mut request = vec![0, 0, 0, 0, 7, 0, 0, 0];
    request.extend_from_slice(b"hi\0");
    let message = ChatMessage::read(&request).unwrap();
    assert_eq!(message.chat_type, CHAT_MSG_SAY);
    assert_eq!(message.language, 7);
    assert_eq!(message.message, b"hi".to_vec());
    assert_eq!(ChatMessage::read(&request[..9]), Err(WireError::MissingTerminator));
    assert_eq!(ChatMessage::read(&request[..3]), Err(WireError::UnexpectedEnd));

    let body = build_message_chat_body(CHAT_MSG_SAY, 0, b"hi", &character());
    assert_eq!(body.len(), 1 + 4 + 8 + 8 + 4 + 3 + 1);
    assert_eq!(&body[5..13], &[4, 3, 2, 1, 0, 0, 0, 0]);
    assert_eq!(&body[21..25], &[3, 0, 0, 0]);
    let body = build_message_chat_body(CHAT_MSG_EMOTE, 0, b"hi", &character());
    assert_eq!(body.len(), 1 + 4 + 8 + 4 + 3 + 1);
}

#[test]
fn emotes() {
    let mut request = vec![101, 0, 0, 0, 2, 0, 0, 0];
    request.extend_from_slice(&7u64.to_le_bytes());
    let emote = TextEmote::read(&request).unwrap();
    assert_eq!((emote.text_emote, emote.emote_num, emote.target_guid), (101, 2, 7));
    assert!(TextEmote::read(&request[..15]).is_err());
    assert_eq!(animation_emote_for_text_emote(101), Some(3));
    assert_eq!(animation_emote_for_text_emote(34), Some(10));
    assert_eq!(animation_emote_for_text_emote(1), None);
    let body = build_text_emote_body(&character(), 101, 2);
    assert_eq!(body.len(), 8 + 4 + 4 + 4 + 1);
    assert_eq!(build_emote_body(&character(), 3), vec![3, 0, 0, 0, 4, 3, 2, 1, 0, 0, 0, 0]);
}

#[test]
fn spell_targets_round_trip() {
    let targets = SpellCastTargets {
        target_mask: SPELL_CAST_TARGET_UNIT,
        unit_target: Some(ObjectGuid::from_raw(0xF130_0000_0000_0042)),
    };
    let mut body = 133u32.to_le_bytes().to_vec();
    targets.write(&mut body);
    let packet = CastSpellPacket::read(&body).unwrap();
    assert_eq!(packet.spell_id, 133);
    assert_eq!(packet.targets, targets);

    let enemy = SpellCastTargets { target_mask: SPELL_CAST_TARGET_UNIT_ENEMY, unit_target: Some(ObjectGuid::from_raw(5)) };
    let mut body = Vec::new();
    enemy.write(&mut body);
    assert_eq!(body, vec![0, 0]);

    let mut cursor = 0;
    let read = SpellCastTargets::read(&[0x80, 0, 1, 9], &mut cursor).unwrap();
    assert_eq!(read.unit_target, Some(ObjectGuid::from_raw(9)));
    assert_eq!(cursor, 4);
    assert!(CastSpellPacket::read(&[1, 0, 0, 0, 2, 0]).is_err());
}

#[test]
fn fixture_spells_always_target_a_unit() {
    let fallback = ObjectGuid::from_raw(77);
    let none = SpellCastTargets { target_mask: SPELL_CAST_TARGET_UNIT_ENEMY, unit_target: None };
    let normalized = normalize_fixture_spell_targets(none, fallback);
    assert_eq!(normalized.target_mask, SPELL_CAST_TARGET_UNIT);
    assert_eq!(normalized.unit_target, Some(fallback));
}

#[test]
fn combat_and_loot_bodies() {
    assert_eq!(build_cast_result_ok_body(133), vec![133, 0, 0, 0, 0]);
    let attacker = ObjectGuid::from_raw(1);
    let victim = ObjectGuid::from_raw(0xF130_0000_0000_0042);
    assert_eq!(build_attack_start_body(attacker, victim).len(), 16);
    assert_eq!(build_attack_stop_body(attacker, victim, true), vec![1, 1, 0b1100_0001, 0x42, 0x30, 0xF1, 1, 0, 0, 0]);
    assert_eq!(build_loot_release_response_body(victim, true)[8], 1);
    assert_eq!(read_packet_guid(&victim.raw.to_le_bytes()), Ok(victim));
    assert!(read_packet_guid(&[1, 2]).is_err());
    let mut query = 299u32.to_le_bytes().to_vec();
    query.extend_from_slice(&victim.raw.to_le_bytes());
    let query = CreatureQuery::read(&query).unwrap();
    assert_eq!((query.entry, query.guid), (299, victim));
}

#[test]
fn chat_routes_by_type_and_leading_dot() {
    assert_eq!(chat_message_route(CHAT_MSG_SAY, b"hello"), ChatRoute::Nearby);
    assert_eq!(chat_message_route(CHAT_MSG_YELL, b"hello"), ChatRoute::Nearby);
    assert_eq!(chat_message_route(CHAT_MSG_EMOTE, b"waves"), ChatRoute::Nearby);
    assert_eq!(chat_message_route(CHAT_MSG_PARTY, b"hello"), ChatRoute::Party);
    assert_eq!(chat_message_route(CHAT_MSG_SAY, b".levelup 2"), ChatRoute::GmCommand);
    assert_eq!(chat_message_route(CHAT_MSG_SAY, b""), ChatRoute::Ignore);
    assert_eq!(chat_message_route(6, b"psst"), ChatRoute::Ignore);
}

#[test]
fn party_chat_names_the_sender_twice() {
    let body = build_message_chat_body(CHAT_MSG_PARTY, 0, b"hi", &character());
    assert_eq!(body.len(), 1 + 4 + 8 + 8 + 4 + 3 + 1);
}

#[test]
fn system_message_layout() {
    let body = build_system_message_chat_body(b"ok");
    assert_eq!(body, vec![0x0A, 0, 0, 0, 0, 0, 0, 0, 0, 0, 0, 0, 0, 3, 0, 0, 0, b'o', b'k', 0, 0]);
}

#[test]
fn emote_target_names_come_from_players_and_creatures() {
    assert_eq!(text_emote_target_lookup(0), EmoteTargetLookup::Unnamed);
    assert_eq!(text_emote_target_lookup(42), EmoteTargetLookup::Player(42));
    let creature = 0xF130_0000_0100_0005;
    assert_eq!(text_emote_target_lookup(creature), EmoteTargetLookup::Creature(ObjectGuid::from_raw(creature)));
    assert_eq!(text_emote_target_lookup(0xF110_0000_0100_0005), EmoteTargetLookup::Unnamed);
}
