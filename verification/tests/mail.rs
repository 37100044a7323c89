use wow_network::auction::MailAttachmentInstanceState;
use wow_network::inventory::{CharacterInventoryItem, StoreSlot};
use wow_network::mail::{
    attached_item_guid, mail_store_target, player_team_for_race, send_mail_attachment_error, send_mail_charge,
    send_mail_checked_mask, send_mail_delivery_delay_secs, send_mail_expiry_secs, send_mail_recipient_error,
    MailAttachmentFacts, MailRecipient, MailStoreTarget, SendMailRequest, MAIL_CHECK_MASK_COPIED,
    MAIL_CHECK_MASK_HAS_BODY, MAIL_COD_EXPIRY_SECS, MAIL_DELIVERY_DELAY_SECS, MAIL_ERR_CANNOT_SEND_TO_SELF,
    MAIL_ERR_CANT_SEND_WRAPPED_COD, MAIL_ERR_INTERNAL_ERROR, MAIL_ERR_MAIL_ATTACHMENT_INVALID,
    MAIL_ERR_NOT_YOUR_TEAM, MAIL_ERR_RECIPIENT_CAP_REACHED, MAIL_ERR_RECIPIENT_NOT_FOUND, MAIL_EXPIRY_SECS,
    MAIL_STATIONERY_DEFAULT, TEAM_ALLIANCE, TEAM_HORDE,
};

fn send_mail_request(money: u32, cod: u32) -> SendMailRequest {
    SendMailRequest {
        mailbox_raw_guid: 0,
        receiver: "Rustone".to_string(),
        subject: "coin".to_string(),
        body: String::new(),
        stationery: MAIL_STATIONERY_DEFAULT as u32,
        unknown1: 0,
        item_raw_guid: 0,
        money,
        cod,
        unknown2: 0,
        unknown3: 0,
    }
}

#[test]
fn money_only_player_mail_delivers_immediately() {
    assert_eq!(send_mail_delivery_delay_secs(&send_mail_request(123, 0), None), 0);
}

#[test]
fn non_money_player_mail_keeps_default_delivery_delay() {
    assert_eq!(send_mail_delivery_delay_secs(&send_mail_request(0, 0), None), MAIL_DELIVERY_DELAY_SECS);
    assert_eq!(send_mail_delivery_delay_secs(&send_mail_request(123, 0), Some(99)), MAIL_DELIVERY_DELAY_SECS);
    assert_eq!(send_mail_delivery_delay_secs(&send_mail_request(0, 123), Some(99)), MAIL_DELIVERY_DELAY_SECS);
}

#[test]
fn recipients_are_checked_in_order() {
    let human = MailRecipient { guid: 2, race: 1 };
    let orc = MailRecipient { guid: 3, race: 2 };
    assert_eq!(send_mail_recipient_error(1, 1, None, 0, 0, 0), Some(MAIL_ERR_RECIPIENT_NOT_FOUND));
    assert_eq!(send_mail_recipient_error(2, 1, Some(human), 0, 0, 0), Some(MAIL_ERR_CANNOT_SEND_TO_SELF));
    assert_eq!(send_mail_recipient_error(1, 1, Some(orc), 0, 0, 0), Some(MAIL_ERR_NOT_YOUR_TEAM));
    assert_eq!(send_mail_recipient_error(1, 9, Some(orc), 0, 0, 0), None);
    assert_eq!(send_mail_recipient_error(1, 1, Some(human), 0, 5, 5), Some(MAIL_ERR_INTERNAL_ERROR));
    assert_eq!(send_mail_recipient_error(1, 1, Some(human), 101, 0, 0), Some(MAIL_ERR_RECIPIENT_CAP_REACHED));
    assert_eq!(send_mail_recipient_error(1, 1, Some(human), 100, 5, 0), None);
}

#[test]
fn races_have_sides() {
    assert_eq!(player_team_for_race(4), Some(TEAM_ALLIANCE));
    assert_eq!(player_team_for_race(8), Some(TEAM_HORDE));
    assert_eq!(player_team_for_race(0), None);
}

#[test]
fn attachments_are_checked() {
    let facts = |flags: u32, container_slots: u32, inside: u32, instance: Option<MailAttachmentInstanceState>| {
        Some(MailAttachmentFacts { template_flags: flags, container_slots, items_in_container: inside, instance })
    };
    let plain = Some(MailAttachmentInstanceState { flags: 0, duration: 0 });
    let wrapped = Some(MailAttachmentInstanceState { flags: 0x200, duration: 0 });
    assert_eq!(send_mail_attachment_error(None, 0), Some(MAIL_ERR_MAIL_ATTACHMENT_INVALID));
    assert_eq!(send_mail_attachment_error(facts(2, 0, 0, plain), 0), Some(MAIL_ERR_MAIL_ATTACHMENT_INVALID));
    assert_eq!(send_mail_attachment_error(facts(0, 16, 1, plain), 0), Some(MAIL_ERR_MAIL_ATTACHMENT_INVALID));
    assert_eq!(send_mail_attachment_error(facts(0, 16, 0, plain), 0), None);
    assert_eq!(send_mail_attachment_error(facts(0, 0, 0, None), 0), Some(MAIL_ERR_MAIL_ATTACHMENT_INVALID));
    assert_eq!(
        send_mail_attachment_error(facts(0, 0, 0, Some(MailAttachmentInstanceState { flags: 0, duration: 5 })), 0),
        Some(MAIL_ERR_MAIL_ATTACHMENT_INVALID)
    );
    assert_eq!(send_mail_attachment_error(facts(0, 0, 0, wrapped), 10), Some(MAIL_ERR_CANT_SEND_WRAPPED_COD));
    assert_eq!(send_mail_attachment_error(facts(0, 0, 0, wrapped), 0), None);
}

#[test]
fn postage_expiry_and_flags() {
    assert_eq!(send_mail_charge(0), 30);
    assert_eq!(send_mail_charge(70), 100);
    assert_eq!(send_mail_charge(u32::MAX - 10), u32::MAX);
    assert_eq!(send_mail_expiry_secs(0), MAIL_EXPIRY_SECS);
    assert_eq!(send_mail_expiry_secs(1), MAIL_COD_EXPIRY_SECS);
    assert_eq!(send_mail_checked_mask(true), MAIL_CHECK_MASK_COPIED);
    assert_eq!(send_mail_checked_mask(false), MAIL_CHECK_MASK_HAS_BODY);
    assert_eq!(attached_item_guid(0), None);
    assert_eq!(attached_item_guid(0x4000_0000_0000_0007), Some(7));
}

#[test]
fn taken_items_merge_or_fill_one_place() {
    let inventory = vec![CharacterInventoryItem {
        bag: 0,
        slot: 23,
        item: 5,
        item_template: 2589,
        count: 7,
        random_property_id: 0,
        durability: 0,
    }];
    let merge = [StoreSlot { bag: 0, slot: 23, count: 3, existing_item: Some(5) }];
    assert_eq!(mail_store_target(&inventory, &merge), Some(MailStoreTarget::MergeStack { item_guid: 5, new_count: 10 }));
    let empty = [StoreSlot { bag: 20, slot: 4, count: 1, existing_item: None }];
    assert_eq!(mail_store_target(&inventory, &empty), Some(MailStoreTarget::EmptySlot { bag: 20, slot: 4 }));
    let split = [empty[0], merge[0]];
    assert_eq!(mail_store_target(&inventory, &split), None);
    assert_eq!(mail_store_target(&inventory, &[]), None);
}
