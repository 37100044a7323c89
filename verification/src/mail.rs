//! Player mail rules: who may be written to, what may be attached, what
//! sending costs, when it arrives, and where a taken item goes.
use vstd::prelude::*;
use crate::auction::{
    first_field_i32_spec, first_field_u32_spec, MailAttachmentInstanceState, ITEM_FLAG_CONJURED, find_inventory_item,
    inventory_index_of,
};
use crate::text::{first_field_i32, first_field_u32};
use crate::guid::ObjectGuid;
use crate::inventory::{CharacterInventoryItem, StoreSlot};

verus! {

pub const MAIL_SEND: u32 = 0;
pub const MAIL_MONEY_TAKEN: u32 = 1;
pub const MAIL_ITEM_TAKEN: u32 = 2;
pub const MAIL_OK: u32 = 0;
pub const MAIL_ERR_EQUIP_ERROR: u32 = 1;
pub const MAIL_ERR_CANNOT_SEND_TO_SELF: u32 = 2;
pub const MAIL_ERR_NOT_ENOUGH_MONEY: u32 = 3;
pub const MAIL_ERR_RECIPIENT_NOT_FOUND: u32 = 4;
pub const MAIL_ERR_NOT_YOUR_TEAM: u32 = 5;
pub const MAIL_ERR_INTERNAL_ERROR: u32 = 6;
pub const MAIL_ERR_RECIPIENT_CAP_REACHED: u32 = 15;
pub const MAIL_ERR_CANT_SEND_WRAPPED_COD: u32 = 16;
pub const MAIL_ERR_MAIL_ATTACHMENT_INVALID: u32 = 19;
pub const MAIL_STATIONERY_DEFAULT: u8 = 41;
pub const MAIL_CHECK_MASK_COPIED: u8 = 0x04;
pub const MAIL_CHECK_MASK_HAS_BODY: u8 = 0x10;
pub const MAIL_DELIVERY_DELAY_SECS: u64 = 3600;
pub const MAIL_MONEY_DELIVERY_DELAY_SECS: u64 = 0;
pub const MAIL_EXPIRY_SECS: u64 = 2_592_000;
pub const MAIL_COD_EXPIRY_SECS: u64 = 259_200;
pub const MAIL_POSTAGE_COPPER: u32 = 30;
pub const MAX_MAILBOX_MAILS: u32 = 100;
pub const ITEM_DYNFLAG_WRAPPED: u32 = 0x0000_0200;
pub const TEAM_ALLIANCE: u32 = 469;
pub const TEAM_HORDE: u32 = 67;

/// A letter the client asks to send.
#[derive(Clone, Debug)]
pub struct SendMailRequest {
    pub mailbox_raw_guid: u64,
    pub receiver: String,
    pub subject: String,
    pub body: String,
    pub stationery: u32,
    pub unknown1: u32,
    pub item_raw_guid: u64,
    pub money: u32,
    pub cod: u32,
    pub unknown2: u32,
    pub unknown3: u32,
}

/// The character a letter is addressed to.
#[derive(Clone, Copy, Debug, PartialEq, Eq, Structural)]
pub struct MailRecipient {
    pub guid: u32,
    pub race: u8,
}

/// The side a playable race fights for.
pub open spec fn team_spec(race: u8) -> Option<u32> {
    if race == 1 || race == 3 || race == 4 || race == 7 {
        Some(TEAM_ALLIANCE)
    } else if race == 2 || race == 5 || race == 6 || race == 8 {
        Some(TEAM_HORDE)
    } else {
        None
    }
}

pub fn player_team_for_race(race: u8) -> (team: Option<u32>)
    ensures
        team == team_spec(race),
{
    if race == 1 || race == 3 || race == 4 || race == 7 {
        Some(TEAM_ALLIANCE)
    } else if race == 2 || race == 5 || race == 6 || race == 8 {
        Some(TEAM_HORDE)
    } else {
        None
    }
}

/// The item instance a letter carries: none for an empty GUID, else the
/// GUID's counter.
pub fn attached_item_guid(item_raw_guid: u64) -> (item: Option<u32>)
    ensures
        item == if item_raw_guid == 0 { None } else { Some(ObjectGuid { raw: item_raw_guid }.counter()) },
{
    if item_raw_guid == 0 {
        None
    } else {
        Some(ObjectGuid::from_raw(item_raw_guid).counter())
    }
}

/// The refusal for a letter to `recipient` (none when it may go): the
/// recipient must exist, be someone else and fight for the same side (when
/// both races have a side), money and cash on delivery exclude each other,
/// and the recipient's mailbox must not be over its cap.
pub open spec fn recipient_error_spec(
    sender_guid: u32,
    sender_race: u8,
    recipient: Option<MailRecipient>,
    recipient_mail_count: u32,
    money: u32,
    cod: u32,
) -> Option<u32> {
    match recipient {
        None => Some(MAIL_ERR_RECIPIENT_NOT_FOUND),
        Some(r) => if r.guid == sender_guid {
            Some(MAIL_ERR_CANNOT_SEND_TO_SELF)
        } else if team_spec(sender_race) is Some && team_spec(r.race) is Some && team_spec(sender_race) != team_spec(
            r.race,
        ) {
            Some(MAIL_ERR_NOT_YOUR_TEAM)
        } else if money != 0 && cod != 0 {
            Some(MAIL_ERR_INTERNAL_ERROR)
        } else if recipient_mail_count > MAX_MAILBOX_MAILS {
            Some(MAIL_ERR_RECIPIENT_CAP_REACHED)
        } else {
            None
        },
    }
}

pub fn send_mail_recipient_error(
    sender_guid: u32,
    sender_race: u8,
    recipient: Option<MailRecipient>,
    recipient_mail_count: u32,
    money: u32,
    cod: u32,
) -> (error: Option<u32>)
    ensures
        error == recipient_error_spec(sender_guid, sender_race, recipient, recipient_mail_count, money, cod),
{
    match recipient {
        None => Some(MAIL_ERR_RECIPIENT_NOT_FOUND),
        Some(r) => {
            if r.guid == sender_guid {
                return Some(MAIL_ERR_CANNOT_SEND_TO_SELF);
            }
            match (player_team_for_race(sender_race), player_team_for_race(r.race)) {
                (Some(a), Some(b)) => {
                    if a != b {
                        return Some(MAIL_ERR_NOT_YOUR_TEAM);
                    }
                },
                _ => {},
            }
            if money != 0 && cod != 0 {
                Some(MAIL_ERR_INTERNAL_ERROR)
            } else if recipient_mail_count > MAX_MAILBOX_MAILS {
                Some(MAIL_ERR_RECIPIENT_CAP_REACHED)
            } else {
                None
            }
        },
    }
}

/// What the attachment checks know of an attached item.
#[derive(Clone, Copy, Debug, PartialEq, Eq, Structural)]
pub struct MailAttachmentFacts {
    pub template_flags: u32,
    pub container_slots: u32,
    pub items_in_container: u32,
    pub instance: Option<MailAttachmentInstanceState>,
}

/// The refusal for an attachment (none when it may go): it must be the
/// sender's item with a known template, not conjured, not a bag with
/// something in it, with a stored instance that is not timed, and not
/// wrapped when sent cash on delivery.
pub open spec fn attachment_error_spec(found: Option<MailAttachmentFacts>, cod: u32) -> Option<u32> {
    match found {
        None => Some(MAIL_ERR_MAIL_ATTACHMENT_INVALID),
        Some(f) => if f.template_flags & ITEM_FLAG_CONJURED != 0 {
            Some(MAIL_ERR_MAIL_ATTACHMENT_INVALID)
        } else if f.container_slots != 0 && f.items_in_container != 0 {
            Some(MAIL_ERR_MAIL_ATTACHMENT_INVALID)
        } else {
            match f.instance {
                None => Some(MAIL_ERR_MAIL_ATTACHMENT_INVALID),
                Some(i) => if i.duration != 0 {
                    Some(MAIL_ERR_MAIL_ATTACHMENT_INVALID)
                } else if cod != 0 && i.flags & ITEM_DYNFLAG_WRAPPED != 0 {
                    Some(MAIL_ERR_CANT_SEND_WRAPPED_COD)
                } else {
                    None
                },
            }
        },
    }
}

/// `found` is `None` when the item or its template could not be found.
pub fn send_mail_attachment_error(found: Option<MailAttachmentFacts>, cod: u32) -> (error: Option<u32>)
    ensures
        error == attachment_error_spec(found, cod),
{
    match found {
        None => Some(MAIL_ERR_MAIL_ATTACHMENT_INVALID),
        Some(f) => {
            if f.template_flags & ITEM_FLAG_CONJURED != 0 {
                Some(MAIL_ERR_MAIL_ATTACHMENT_INVALID)
            } else if f.container_slots != 0 && f.items_in_container != 0 {
                Some(MAIL_ERR_MAIL_ATTACHMENT_INVALID)
            } else {
                match f.instance {
                    None => Some(MAIL_ERR_MAIL_ATTACHMENT_INVALID),
                    Some(i) => {
                        if i.duration != 0 {
                            Some(MAIL_ERR_MAIL_ATTACHMENT_INVALID)
                        } else if cod != 0 && i.flags & ITEM_DYNFLAG_WRAPPED != 0 {
                            Some(MAIL_ERR_CANT_SEND_WRAPPED_COD)
                        } else {
                            None
                        }
                    },
                }
            }
        },
    }
}

/// What sending costs: postage plus the money sent, saturating.
pub fn send_mail_charge(money: u32) -> (charge: u32)
    ensures
        charge == if MAIL_POSTAGE_COPPER + money > u32::MAX { u32::MAX } else { (MAIL_POSTAGE_COPPER + money) as u32 },
{
    if money > u32::MAX - MAIL_POSTAGE_COPPER {
        u32::MAX
    } else {
        MAIL_POSTAGE_COPPER + money
    }
}

/// Money alone (no cash on delivery, no item) arrives at once; every other
/// letter after the usual delay.
pub fn send_mail_delivery_delay_secs(request: &SendMailRequest, attached_item_guid: Option<u32>) -> (delay: u64)
    ensures
        delay == if request.money != 0 && request.cod == 0 && attached_item_guid is None {
            MAIL_MONEY_DELIVERY_DELAY_SECS
        } else {
            MAIL_DELIVERY_DELAY_SECS
        },
{
    if request.money != 0 && request.cod == 0 && attached_item_guid.is_none() {
        MAIL_MONEY_DELIVERY_DELAY_SECS
    } else {
        MAIL_DELIVERY_DELAY_SECS
    }
}

/// Letters sent cash on delivery expire sooner.
pub fn send_mail_expiry_secs(cod: u32) -> (expiry: u64)
    ensures
        expiry == if cod != 0 { MAIL_COD_EXPIRY_SECS } else { MAIL_EXPIRY_SECS },
{
    if cod != 0 {
        MAIL_COD_EXPIRY_SECS
    } else {
        MAIL_EXPIRY_SECS
    }
}

/// The read flags a new letter starts with: marked as having a body when
/// it has text.
pub fn send_mail_checked_mask(body_is_empty: bool) -> (mask: u8)
    ensures
        mask == if body_is_empty { MAIL_CHECK_MASK_COPIED } else { MAIL_CHECK_MASK_HAS_BODY },
{
    if body_is_empty {
        MAIL_CHECK_MASK_COPIED
    } else {
        MAIL_CHECK_MASK_HAS_BODY
    }
}

/// Where an item taken from a letter goes.
#[derive(Clone, Copy, Debug, PartialEq, Eq, Structural)]
pub enum MailStoreTarget {
    /// Onto the stack of item `item_guid`, which then holds `new_count`.
    MergeStack { item_guid: u32, new_count: u32 },
    /// Into an empty slot.
    EmptySlot { bag: u32, slot: u8 },
}

/// The count of inventory item `item` (0 if it is not there).
pub open spec fn count_of_item(inventory: Seq<CharacterInventoryItem>, item: u32) -> u32 {
    match inventory_index_of(inventory, item) {
        Some(k) => inventory[k].count,
        None => 0,
    }
}

pub open spec fn store_target_spec(inventory: Seq<CharacterInventoryItem>, plan: Seq<StoreSlot>) -> Option<MailStoreTarget> {
    if plan.len() != 1 {
        None
    } else {
        match plan[0].existing_item {
            Some(existing) => {
                let total = count_of_item(inventory, existing) + plan[0].count;
                Some(MailStoreTarget::MergeStack {
                    item_guid: existing,
                    new_count: if total > u32::MAX { u32::MAX } else { total as u32 },
                })
            },
            None => Some(MailStoreTarget::EmptySlot { bag: plan[0].bag as u32, slot: plan[0].slot }),
        }
    }
}

/// The target of a mail item's storage plan: a taken item must fit in one
/// place (`None` otherwise, answered as a full inventory).
pub fn mail_store_target(inventory: &[CharacterInventoryItem], plan: &[StoreSlot]) -> (target: Option<MailStoreTarget>)
    ensures
        target == store_target_spec(inventory@, plan@),
{
    if plan.len() != 1 {
        return None;
    }
    let slot = plan[0];
    match slot.existing_item {
        Some(existing) => {
            let current = match find_inventory_item(inventory, existing) {
                Some(k) => inventory[k].count,
                None => 0,
            };
            let new_count = if current > u32::MAX - slot.count { u32::MAX } else { current + slot.count };
            Some(MailStoreTarget::MergeStack { item_guid: existing, new_count })
        },
        None => Some(MailStoreTarget::EmptySlot { bag: slot.bag as u32, slot: slot.slot }),
    }
}

// ---------------------------------------------------------------------------
// The inbox

/// The most mails the inbox shows.
pub const MAX_INBOX_CLIENT_UI_CAPACITY: usize = 50;

/// An item attached to a stored mail.
#[derive(Clone, Debug)]
pub struct MailItem {
    pub item_template: u32,
    pub count: u32,
    pub durability: u32,
    pub random_property_id: i32,
    /// The item's spell charges, as a stored list of numbers.
    pub charges: String,
    /// The item's enchantments, as a stored list of numbers.
    pub enchantments: String,
}

/// A stored mail, as the inbox reads it (its subject and expiry are shown
/// as stored).
#[derive(Clone, Debug)]
pub struct CharacterMail {
    pub id: u32,
    pub message_type: u8,
    pub sender: u32,
    pub item_text_id: u32,
    pub stationery: u8,
    pub money: u32,
    pub cod: u32,
    pub checked: u8,
    pub mail_template_id: u32,
    pub items: Vec<MailItem>,
}

/// One mail as the inbox lists it.
#[derive(Clone, Copy, Debug, PartialEq, Eq, Structural)]
pub struct MailListEntry {
    pub mail_id: u32,
    pub message_type: u8,
    /// The sending player's GUID, for mail from a player.
    pub sender_raw_guid: Option<u64>,
    /// The sending creature or object entry, for mail from one of them.
    pub sender_entry: Option<u32>,
    pub item_text_id: u32,
    pub stationery: u32,
    pub item_entry: u32,
    pub item_enchantment: u32,
    pub item_random_property_id: i32,
    pub item_count: u8,
    pub item_charges: u32,
    pub item_max_durability: u32,
    pub item_durability: u32,
    pub money: u32,
    pub cod: u32,
    pub checked: u32,
    pub mail_template_id: u32,
}

/// How the inbox lists a mail whose first item's template has maximum
/// durability `template_max_durability` (when the template is known):
/// player mail names the sender's GUID, creature and object mail its
/// entry; the first item is shown with its first enchantment, its first
/// charge count (none below zero), its count capped at 255, and the
/// template's maximum durability (else the item's own durability).
pub open spec fn mail_list_entry_spec(mail: CharacterMail, template_max_durability: Option<u32>) -> MailListEntry {
    let has_item = mail.items@.len() > 0;
    let item = mail.items@[0];
    MailListEntry {
        mail_id: mail.id,
        message_type: mail.message_type,
        sender_raw_guid: if mail.message_type == 0 { Some(mail.sender as u64) } else { None },
        sender_entry: if 2 <= mail.message_type <= 4 { Some(mail.sender) } else { None },
        item_text_id: mail.item_text_id,
        stationery: mail.stationery as u32,
        item_entry: if has_item { item.item_template } else { 0 },
        item_enchantment: if has_item { first_field_u32_spec(item.enchantments@) } else { 0 },
        item_random_property_id: if has_item { item.random_property_id } else { 0 },
        item_count: if has_item { if item.count > 255 { 255u8 } else { item.count as u8 } } else { 0 },
        item_charges: if has_item {
            if first_field_i32_spec(item.charges@) < 0 { 0 } else { first_field_i32_spec(item.charges@) as u32 }
        } else {
            0
        },
        item_max_durability: if has_item {
            match template_max_durability {
                Some(d) => d,
                None => item.durability,
            }
        } else {
            0
        },
        item_durability: if has_item { item.durability } else { 0 },
        money: mail.money,
        cod: mail.cod,
        checked: mail.checked as u32,
        mail_template_id: mail.mail_template_id,
    }
}

/// How the inbox lists one mail.
pub fn mail_list_entry(mail: &CharacterMail, template_max_durability: Option<u32>) -> (entry: MailListEntry)
    ensures
        entry == mail_list_entry_spec(*mail, template_max_durability),
{
    let sender_raw_guid = if mail.message_type == 0 { Some(mail.sender as u64) } else { None };
    let sender_entry = if 2 <= mail.message_type && mail.message_type <= 4 { Some(mail.sender) } else { None };
    if mail.items.len() == 0 {
        return MailListEntry {
            mail_id: mail.id,
            message_type: mail.message_type,
            sender_raw_guid,
            sender_entry,
            item_text_id: mail.item_text_id,
            stationery: mail.stationery as u32,
            item_entry: 0,
            item_enchantment: 0,
            item_random_property_id: 0,
            item_count: 0,
            item_charges: 0,
            item_max_durability: 0,
            item_durability: 0,
            money: mail.money,
            cod: mail.cod,
            checked: mail.checked as u32,
            mail_template_id: mail.mail_template_id,
        };
    }
    let item = &mail.items[0];
    let charges = first_field_i32(item.charges.as_str());
    MailListEntry {
        mail_id: mail.id,
        message_type: mail.message_type,
        sender_raw_guid,
        sender_entry,
        item_text_id: mail.item_text_id,
        stationery: mail.stationery as u32,
        item_entry: item.item_template,
        item_enchantment: first_field_u32(item.enchantments.as_str()),
        item_random_property_id: item.random_property_id,
        item_count: if item.count > 255 { 255u8 } else { item.count as u8 },
        item_charges: if charges < 0 { 0 } else { charges as u32 },
        item_max_durability: match template_max_durability {
            Some(d) => d,
            None => item.durability,
        },
        item_durability: item.durability,
        money: mail.money,
        cod: mail.cod,
        checked: mail.checked as u32,
        mail_template_id: mail.mail_template_id,
    }
}

/// The inbox listing: the first mails up to the inbox capacity, each with
/// the maximum durability of its first item's template
/// (`template_max_durabilities[i]` for `mails[i]`).
pub fn mail_list_entries(mails: &[CharacterMail], template_max_durabilities: &[Option<u32>]) -> (entries: Vec<MailListEntry>)
    requires
        template_max_durabilities@.len() == mails@.len(),
    ensures
        entries@.len() == if mails@.len() < MAX_INBOX_CLIENT_UI_CAPACITY { mails@.len() } else { MAX_INBOX_CLIENT_UI_CAPACITY as nat },
        forall|i: int| 0 <= i < entries@.len() ==> #[trigger] entries@[i] == mail_list_entry_spec(mails@[i], template_max_durabilities@[i]),
{
    let mut entries: Vec<MailListEntry> = Vec::new();
    let mut i: usize = 0;
    while i < mails.len() && i < MAX_INBOX_CLIENT_UI_CAPACITY
        invariant
            i <= mails@.len(),
            i <= MAX_INBOX_CLIENT_UI_CAPACITY,
            template_max_durabilities@.len() == mails@.len(),
            entries@.len() == i,
            forall|k: int| 0 <= k < i ==> #[trigger] entries@[k] == mail_list_entry_spec(mails@[k], template_max_durabilities@[k]),
        decreases mails@.len() - i,
    {
        entries.push(mail_list_entry(&mails[i], template_max_durabilities[i]));
        i += 1;
    }
    entries
}

} // verus!
