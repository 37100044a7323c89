//! Client request readers and server packet bodies for chat, emotes, spell
//! casts and melee.
use vstd::prelude::*;
use crate::character::ActiveCharacter;
use crate::guid::ObjectGuid;
use crate::wire::{
    WireError, c_string, decode_u16, decode_u32, decode_u64, le_u16, le_u32, le_u64, packed_guid, push_c_string,
    push_packed_guid, push_u16, push_u32, push_u64, push_u8, read_c_string, read_u16, read_u32, read_u64,
    first_nul, read_packed_guid, packed_guid_fits, packed_guid_value, packed_guid_end,
};

verus! {

pub const CHAT_MSG_SAY: u32 = 0x00;
pub const CHAT_MSG_PARTY: u32 = 0x01;
pub const CHAT_MSG_YELL: u32 = 0x05;
pub const CHAT_MSG_EMOTE: u32 = 0x08;
pub const CHAT_MSG_SYSTEM: u32 = 0x0A;
pub const CHAT_TAG_NONE: u8 = 0;
pub const LANG_UNIVERSAL: u32 = 0;
pub const TEXTEMOTE_DANCE: u32 = 34;
pub const TEXTEMOTE_POINT: u32 = 60;
pub const TEXTEMOTE_SLEEP: u32 = 93;
pub const TEXTEMOTE_WAVE: u32 = 101;
pub const EMOTE_ONESHOT_WAVE: u32 = 3;
pub const EMOTE_ONESHOT_POINT: u32 = 25;
pub const EMOTE_STATE_DANCE: u32 = 10;
pub const EMOTE_STATE_SLEEP: u32 = 12;
pub const SPELL_CAST_TARGET_UNIT: u16 = 0x0002;
pub const SPELL_CAST_TARGET_UNIT_ENEMY: u16 = 0x0080;

/// The name-query answer data of a character.
#[derive(Clone, Debug)]
pub struct CharacterNameQuery {
    pub guid: u32,
    pub name: String,
    pub race: u8,
    pub gender: u8,
    pub class: u8,
}

/// SMSG_NAME_QUERY_RESPONSE: GUID, name, empty realm name, race, gender and
/// class; the requested GUID, "Unknown" and zeros for an unknown character.
pub fn build_name_query_response(requested_guid: u64, character: Option<&CharacterNameQuery>) -> (body: Vec<u8>)
    ensures
        body@ == match character {
            Some(c) => le_u64(c.guid as u64) + c_string(vstd::utf8::encode_utf8(c.name@)) + seq![0u8]
                + le_u32(c.race as u32) + le_u32(c.gender as u32) + le_u32(c.class as u32),
            None => le_u64(requested_guid) + c_string(vstd::utf8::encode_utf8("Unknown"@)) + seq![0u8]
                + le_u32(0) + le_u32(0) + le_u32(0),
        },
{
    let mut body: Vec<u8> = Vec::new();
    match character {
        Some(c) => {
            push_u64(&mut body, c.guid as u64);
            push_c_string(&mut body, c.name.as_str().as_bytes());
            push_u8(&mut body, 0);
            push_u32(&mut body, c.race as u32);
            push_u32(&mut body, c.gender as u32);
            push_u32(&mut body, c.class as u32);
            assert(body@ =~= le_u64(c.guid as u64) + c_string(vstd::utf8::encode_utf8(c.name@)) + seq![0u8]
                + le_u32(c.race as u32) + le_u32(c.gender as u32) + le_u32(c.class as u32));
        },
        None => {
            push_u64(&mut body, requested_guid);
            push_c_string(&mut body, "Unknown".as_bytes());
            push_u8(&mut body, 0);
            push_u32(&mut body, 0);
            push_u32(&mut body, 0);
            push_u32(&mut body, 0);
            assert(body@ =~= le_u64(requested_guid) + c_string(vstd::utf8::encode_utf8("Unknown"@)) + seq![0u8]
                + le_u32(0) + le_u32(0) + le_u32(0));
        },
    }
    body
}

/// A chat line from the client.
#[derive(Clone, Debug, PartialEq, Eq)]
pub struct ChatMessage {
    pub chat_type: u32,
    pub language: u32,
    pub message: Vec<u8>,
}

impl ChatMessage {
    /// CMSG_MESSAGECHAT (say/yell/emote form): type, language, NUL-terminated text.
    pub fn read(body: &[u8]) -> (message: Result<Self, WireError>)
        ensures
            match message {
                Ok(m) => 8 <= body@.len() && m.chat_type == decode_u32(body@, 0) && m.language == decode_u32(body@, 4)
                    && (first_nul(body@, 8) matches Some(end) && m.message@ == body@.subrange(8, end)),
                Err(_) => body@.len() < 8 || first_nul(body@, 8) is None,
            },
    {
        let mut cursor: usize = 0;
        let chat_type = read_u32(body, &mut cursor)?;
        let language = read_u32(body, &mut cursor)?;
        let message = read_c_string(body, &mut cursor)?;
        Ok(ChatMessage { chat_type, language, message })
    }
}

/// SMSG_MESSAGECHAT: type byte, language, sender GUID (twice for say,
/// party and yell, where the sender is also the target), text length with
/// its NUL, the text, and the chat tag.
pub open spec fn message_chat_body_spec(chat_type: u32, language: u32, message: Seq<u8>, sender: u32) -> Seq<u8> {
    seq![chat_type as u8] + le_u32(language) + le_u64(sender as u64) + (if chat_type == CHAT_MSG_SAY || chat_type == CHAT_MSG_PARTY || chat_type == CHAT_MSG_YELL {
        le_u64(sender as u64)
    } else {
        Seq::empty()
    }) + le_u32((message.len() + 1) as u32) + c_string(message) + seq![CHAT_TAG_NONE]
}

pub fn build_message_chat_body(chat_type: u32, language: u32, message: &[u8], character: &ActiveCharacter) -> (body: Vec<u8>)
    requires
        message@.len() < u32::MAX,
    ensures
        body@ == message_chat_body_spec(chat_type, language, message@, character.guid),
{
    let sender = character.guid as u64;
    let mut body: Vec<u8> = Vec::new();
    push_u8(&mut body, chat_type as u8);
    push_u32(&mut body, language);
    push_u64(&mut body, sender);
    if chat_type == CHAT_MSG_SAY || chat_type == CHAT_MSG_PARTY || chat_type == CHAT_MSG_YELL {
        push_u64(&mut body, sender);
    }
    push_u32(&mut body, (message.len() + 1) as u32);
    push_c_string(&mut body, message);
    push_u8(&mut body, CHAT_TAG_NONE);
    assert(body@ =~= message_chat_body_spec(chat_type, language, message@, character.guid));
    body
}

/// SMSG_MESSAGECHAT for a system message: universal language, no sender.
pub fn build_system_message_chat_body(message: &[u8]) -> (body: Vec<u8>)
    requires
        message@.len() < u32::MAX,
    ensures
        body@ == message_chat_body_spec(CHAT_MSG_SYSTEM, LANG_UNIVERSAL, message@, 0),
{
    let mut body: Vec<u8> = Vec::new();
    push_u8(&mut body, CHAT_MSG_SYSTEM as u8);
    push_u32(&mut body, LANG_UNIVERSAL);
    push_u64(&mut body, 0);
    push_u32(&mut body, (message.len() + 1) as u32);
    push_c_string(&mut body, message);
    push_u8(&mut body, CHAT_TAG_NONE);
    assert(body@ =~= message_chat_body_spec(CHAT_MSG_SYSTEM, LANG_UNIVERSAL, message@, 0));
    body
}

/// Where a chat message goes.
#[derive(Clone, Copy, Debug, PartialEq, Eq, Structural)]
pub enum ChatRoute {
    /// Dropped: an unsupported chat type or an empty message.
    Ignore,
    /// A game master command (the message starts with a dot).
    GmCommand,
    /// To the speaker and the other members of the party.
    Party,
    /// To the speaker and the players around.
    Nearby,
}

pub open spec fn chat_route_spec(chat_type: u32, message: Seq<u8>) -> ChatRoute {
    if !(chat_type == CHAT_MSG_SAY || chat_type == CHAT_MSG_PARTY || chat_type == CHAT_MSG_YELL || chat_type == CHAT_MSG_EMOTE) {
        ChatRoute::Ignore
    } else if message.len() == 0 {
        ChatRoute::Ignore
    } else if message[0] == 0x2Eu8 {
        ChatRoute::GmCommand
    } else if chat_type == CHAT_MSG_PARTY {
        ChatRoute::Party
    } else {
        ChatRoute::Nearby
    }
}

/// How a chat message is handled: say, party, yell and emote are
/// supported; a message starting with a dot is a game master command.
pub fn chat_message_route(chat_type: u32, message: &[u8]) -> (route: ChatRoute)
    ensures
        route == chat_route_spec(chat_type, message@),
{
    if !(chat_type == CHAT_MSG_SAY || chat_type == CHAT_MSG_PARTY || chat_type == CHAT_MSG_YELL || chat_type == CHAT_MSG_EMOTE) {
        return ChatRoute::Ignore;
    }
    if message.len() == 0 {
        return ChatRoute::Ignore;
    }
    if message[0] == 0x2Eu8 {
        return ChatRoute::GmCommand;
    }
    if chat_type == CHAT_MSG_PARTY {
        ChatRoute::Party
    } else {
        ChatRoute::Nearby
    }
}

/// Where the name of a text emote's target comes from.
#[derive(Clone, Copy, Debug, PartialEq, Eq, Structural)]
pub enum EmoteTargetLookup {
    /// No target, or one without a name.
    Unnamed,
    /// The online character with this counter.
    Player(u32),
    /// The creature spawn with this GUID.
    Creature(ObjectGuid),
}

pub open spec fn emote_target_lookup_spec(target_raw: u64) -> EmoteTargetLookup {
    let target = ObjectGuid { raw: target_raw };
    if target_raw == 0 {
        EmoteTargetLookup::Unnamed
    } else if target.is_player() {
        EmoteTargetLookup::Player(target.counter())
    } else if target.is_creature() {
        EmoteTargetLookup::Creature(target)
    } else {
        EmoteTargetLookup::Unnamed
    }
}

/// Where to look up the name shown for a text emote's target: players by
/// their counter, creatures by their spawn; the empty GUID and other kinds
/// have none.
pub fn text_emote_target_lookup(target_raw: u64) -> (lookup: EmoteTargetLookup)
    ensures
        lookup == emote_target_lookup_spec(target_raw),
{
    if target_raw == 0 {
        return EmoteTargetLookup::Unnamed;
    }
    let target = ObjectGuid::from_raw(target_raw);
    if target.is_player() {
        EmoteTargetLookup::Player(target.counter())
    } else if target.is_creature() {
        EmoteTargetLookup::Creature(target)
    } else {
        EmoteTargetLookup::Unnamed
    }
}

/// A text emote from the client.
#[derive(Clone, Copy, Debug, PartialEq, Eq, Structural)]
pub struct TextEmote {
    pub text_emote: u32,
    pub emote_num: u32,
    pub target_guid: u64,
}

impl TextEmote {
    /// CMSG_TEXT_EMOTE: emote, emote number, target GUID.
    pub fn read(body: &[u8]) -> (emote: Result<Self, WireError>)
        ensures
            match emote {
                Ok(e) => 16 <= body@.len() && e.text_emote == decode_u32(body@, 0) && e.emote_num == decode_u32(body@, 4)
                    && e.target_guid == decode_u64(body@, 8),
                Err(_) => body@.len() < 16,
            },
    {
        let mut cursor: usize = 0;
        let text_emote = read_u32(body, &mut cursor)?;
        let emote_num = read_u32(body, &mut cursor)?;
        let target_guid = read_u64(body, &mut cursor)?;
        Ok(TextEmote { text_emote, emote_num, target_guid })
    }
}

/// SMSG_TEXT_EMOTE: sender GUID, emote, emote number, a name length of 1
/// and an empty name.
pub fn build_text_emote_body(character: &ActiveCharacter, text_emote: u32, emote_num: u32) -> (body: Vec<u8>)
    ensures
        body@ == le_u64(character.guid as u64) + le_u32(text_emote) + le_u32(emote_num) + le_u32(1) + seq![0u8],
{
    let mut body: Vec<u8> = Vec::new();
    push_u64(&mut body, character.guid as u64);
    push_u32(&mut body, text_emote);
    push_u32(&mut body, emote_num);
    push_u32(&mut body, 1);
    push_u8(&mut body, 0);
    assert(body@ =~= le_u64(character.guid as u64) + le_u32(text_emote) + le_u32(emote_num) + le_u32(1) + seq![0u8]);
    body
}

/// The animation a text emote plays: wave and point once, dance and sleep
/// as a lasting state.
#[verifier::allow_in_spec]
pub fn animation_emote_for_text_emote(text_emote: u32) -> Option<u32>
    returns
        (if text_emote == TEXTEMOTE_WAVE {
            Some(EMOTE_ONESHOT_WAVE)
        } else if text_emote == TEXTEMOTE_POINT {
            Some(EMOTE_ONESHOT_POINT)
        } else if text_emote == TEXTEMOTE_DANCE {
            Some(EMOTE_STATE_DANCE)
        } else if text_emote == TEXTEMOTE_SLEEP {
            Some(EMOTE_STATE_SLEEP)
        } else {
            None
        }),
{
    if text_emote == TEXTEMOTE_WAVE {
        Some(EMOTE_ONESHOT_WAVE)
    } else if text_emote == TEXTEMOTE_POINT {
        Some(EMOTE_ONESHOT_POINT)
    } else if text_emote == TEXTEMOTE_DANCE {
        Some(EMOTE_STATE_DANCE)
    } else if text_emote == TEXTEMOTE_SLEEP {
        Some(EMOTE_STATE_SLEEP)
    } else {
        None
    }
}

/// SMSG_EMOTE: emote then sender GUID.
pub fn build_emote_body(character: &ActiveCharacter, emote: u32) -> (body: Vec<u8>)
    ensures
        body@ == le_u32(emote) + le_u64(character.guid as u64),
{
    let mut body: Vec<u8> = Vec::new();
    push_u32(&mut body, emote);
    push_u64(&mut body, character.guid as u64);
    assert(body@ =~= le_u32(emote) + le_u64(character.guid as u64));
    body
}

/// The targets of a spell cast.
#[derive(Clone, Copy, Debug, PartialEq, Eq, Structural)]
pub struct SpellCastTargets {
    pub target_mask: u16,
    pub unit_target: Option<ObjectGuid>,
}

pub open spec fn targets_unit(mask: u16) -> bool {
    mask & (SPELL_CAST_TARGET_UNIT | SPELL_CAST_TARGET_UNIT_ENEMY) != 0
}

/// Whether whole spell targets start at `at`.
pub open spec fn spell_targets_fit(b: Seq<u8>, at: int) -> bool {
    &&& 0 <= at && at + 2 <= b.len()
    &&& targets_unit(decode_u16(b, at)) ==> packed_guid_fits(b, at + 2)
}

/// The spell targets that start at `at`.
pub open spec fn spell_targets_value(b: Seq<u8>, at: int) -> SpellCastTargets {
    let mask = decode_u16(b, at);
    SpellCastTargets {
        target_mask: mask,
        unit_target: if targets_unit(mask) {
            Some(ObjectGuid { raw: packed_guid_value(b, at + 2) as u64 })
        } else {
            None
        },
    }
}

/// The index just past the spell targets that start at `at`.
pub open spec fn spell_targets_end(b: Seq<u8>, at: int) -> int {
    if targets_unit(decode_u16(b, at)) { packed_guid_end(b, at + 2) } else { at + 2 }
}

impl SpellCastTargets {
    /// The target mask, then a packed unit GUID when it targets a unit.
    pub fn read(body: &[u8], cursor: &mut usize) -> (targets: Result<Self, WireError>)
        ensures
            match targets {
                Ok(t) => spell_targets_fit(body@, *old(cursor) as int)
                    && t == spell_targets_value(body@, *old(cursor) as int)
                    && *final(cursor) == spell_targets_end(body@, *old(cursor) as int),
                Err(e) => e == WireError::UnexpectedEnd && !spell_targets_fit(body@, *old(cursor) as int),
            },
    {
        let target_mask = read_u16(body, cursor)?;
        let unit_target = if target_mask & (SPELL_CAST_TARGET_UNIT | SPELL_CAST_TARGET_UNIT_ENEMY) != 0 {
            Some(ObjectGuid::from_raw(read_packed_guid(body, cursor)?))
        } else {
            None
        };
        Ok(SpellCastTargets { target_mask, unit_target })
    }

    /// The target mask without the enemy flag, then a packed unit GUID
    /// (empty when absent) when the mask targets a unit.
    pub fn write(&self, body: &mut Vec<u8>)
        ensures
            final(body)@ == old(body)@ + le_u16(self.target_mask & !SPELL_CAST_TARGET_UNIT_ENEMY)
                + if (self.target_mask & !SPELL_CAST_TARGET_UNIT_ENEMY) & SPELL_CAST_TARGET_UNIT != 0 {
                packed_guid(match self.unit_target { Some(g) => g.raw, None => 0 })
            } else {
                Seq::empty()
            },
    {
        let target_mask = self.target_mask & !SPELL_CAST_TARGET_UNIT_ENEMY;
        push_u16(body, target_mask);
        if target_mask & SPELL_CAST_TARGET_UNIT != 0 {
            let raw = match self.unit_target {
                Some(g) => g.raw,
                None => 0,
            };
            push_packed_guid(body, raw);
        } else {
            assert(body@ =~= old(body)@ + le_u16(target_mask) + Seq::<u8>::empty());
        }
    }
}

/// A spell cast request.
#[derive(Clone, Copy, Debug, PartialEq, Eq, Structural)]
pub struct CastSpellPacket {
    pub spell_id: u32,
    pub targets: SpellCastTargets,
}

impl CastSpellPacket {
    /// CMSG_CAST_SPELL: spell id, then the targets.
    pub fn read(body: &[u8]) -> (packet: Result<Self, WireError>)
        ensures
            match packet {
                Ok(p) => 4 <= body@.len() && p.spell_id == decode_u32(body@, 0) && spell_targets_fit(body@, 4)
                    && p.targets == spell_targets_value(body@, 4),
                Err(e) => e == WireError::UnexpectedEnd && (body@.len() < 4 || !spell_targets_fit(body@, 4)),
            },
    {
        let mut cursor: usize = 0;
        let spell_id = read_u32(body, &mut cursor)?;
        let targets = SpellCastTargets::read(body, &mut cursor)?;
        Ok(CastSpellPacket { spell_id, targets })
    }
}

/// The fixture spell always targets a unit: `default_target` when the
/// client named none.
pub fn normalize_fixture_spell_targets(targets: SpellCastTargets, default_target: ObjectGuid) -> (normalized: SpellCastTargets)
    ensures
        normalized == (SpellCastTargets {
            target_mask: (targets.target_mask | SPELL_CAST_TARGET_UNIT) & !SPELL_CAST_TARGET_UNIT_ENEMY,
            unit_target: Some(match targets.unit_target { Some(g) => g, None => default_target }),
        }),
{
    SpellCastTargets {
        target_mask: (targets.target_mask | SPELL_CAST_TARGET_UNIT) & !SPELL_CAST_TARGET_UNIT_ENEMY,
        unit_target: Some(match targets.unit_target {
            Some(g) => g,
            None => default_target,
        }),
    }
}

/// SMSG_CAST_RESULT for success: spell id and result 0.
pub fn build_cast_result_ok_body(spell_id: u32) -> (body: Vec<u8>)
    ensures
        body@ == le_u32(spell_id) + seq![0u8],
{
    let mut body: Vec<u8> = Vec::new();
    push_u32(&mut body, spell_id);
    push_u8(&mut body, 0);
    assert(body@ =~= le_u32(spell_id) + seq![0u8]);
    body
}

/// SMSG_ATTACKSTART: attacker and victim GUIDs.
pub fn build_attack_start_body(attacker: ObjectGuid, victim: ObjectGuid) -> (body: Vec<u8>)
    ensures
        body@ == le_u64(attacker.raw) + le_u64(victim.raw),
{
    let mut body: Vec<u8> = Vec::new();
    push_u64(&mut body, attacker.raw);
    push_u64(&mut body, victim.raw);
    assert(body@ =~= le_u64(attacker.raw) + le_u64(victim.raw));
    body
}

/// SMSG_ATTACKSTOP: packed attacker and victim, and whether the victim died.
pub fn build_attack_stop_body(attacker: ObjectGuid, victim: ObjectGuid, dead: bool) -> (body: Vec<u8>)
    ensures
        body@ == packed_guid(attacker.raw) + packed_guid(victim.raw) + le_u32(if dead { 1 } else { 0 }),
{
    let mut body: Vec<u8> = Vec::new();
    push_packed_guid(&mut body, attacker.raw);
    push_packed_guid(&mut body, victim.raw);
    push_u32(&mut body, if dead { 1 } else { 0 });
    assert(body@ =~= packed_guid(attacker.raw) + packed_guid(victim.raw) + le_u32(if dead { 1 } else { 0 }));
    body
}

/// SMSG_LOOT_RELEASE_RESPONSE: the looted object and whether it was released.
pub fn build_loot_release_response_body(target: ObjectGuid, released: bool) -> (body: Vec<u8>)
    ensures
        body@ == le_u64(target.raw) + seq![if released { 1u8 } else { 0u8 }],
{
    let mut body: Vec<u8> = Vec::new();
    push_u64(&mut body, target.raw);
    push_u8(&mut body, if released { 1 } else { 0 });
    assert(body@ =~= le_u64(target.raw) + seq![if released { 1u8 } else { 0u8 }]);
    body
}

/// The 8-byte GUID a request body starts with.
pub fn read_packet_guid(body: &[u8]) -> (guid: Result<ObjectGuid, WireError>)
    ensures
        match guid {
            Ok(g) => 8 <= body@.len() && g.raw == decode_u64(body@, 0),
            Err(_) => body@.len() < 8,
        },
{
    let mut cursor: usize = 0;
    let raw = read_u64(body, &mut cursor)?;
    Ok(ObjectGuid::from_raw(raw))
}

/// A creature template query.
#[derive(Clone, Copy, Debug, PartialEq, Eq, Structural)]
pub struct CreatureQuery {
    pub entry: u32,
    pub guid: ObjectGuid,
}

impl CreatureQuery {
    /// CMSG_CREATURE_QUERY: entry, then the creature GUID.
    pub fn read(body: &[u8]) -> (query: Result<Self, WireError>)
        ensures
            match query {
                Ok(q) => 12 <= body@.len() && q.entry == decode_u32(body@, 0) && q.guid.raw == decode_u64(body@, 4),
                Err(_) => body@.len() < 12,
            },
    {
        let mut cursor: usize = 0;
        let entry = read_u32(body, &mut cursor)?;
        let raw = read_u64(body, &mut cursor)?;
        Ok(CreatureQuery { entry, guid: ObjectGuid::from_raw(raw) })
    }
}

} // verus!
