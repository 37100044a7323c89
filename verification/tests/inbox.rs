use wow_network::mail::{mail_list_entries, mail_list_entry, CharacterMail, MailItem, MailListEntry};

fn mail(id: u32, message_type: u8, items: Vec<MailItem>) -> CharacterMail {
    CharacterMail {
        id,
        message_type,
        sender: 42,
        item_text_id: 0,
        stationery: 41,
        money: 10,
        cod: 0,
        checked: 4,
        mail_template_id: 0,
        items,
    }
}

fn attached(count: u32, charges: &str, enchantments: &str) -> MailItem {
    MailItem {
        item_template: 2589,
        count,
        durability: 12,
        random_property_id: -3,
        charges: charges.to_string(),
        enchantments: enchantments.to_string(),
    }
}

#[test]
fn player_mail_with_an_item() {
    let entry = mail_list_entry(&mail(7, 0, vec![attached(300, "-1 0 0 0 0", "15 0 0")]), Some(40));
    assert_eq!(
        entry,
        MailListEntry {
            mail_id: 7,
            message_type: 0,
            sender_raw_guid: Some(42),
            sender_entry: None,
            item_text_id: 0,
            stationery: 41,
            item_entry: 2589,
            item_enchantment: 15,
            item_random_property_id: -3,
            item_count: 255,
            item_charges: 0,
            item_max_durability: 40,
            item_durability: 12,
            money: 10,
            cod: 0,
            checked: 4,
            mail_template_id: 0,
        }
    );
}

#[test]
fn creature_mail_without_an_item() {
    let entry = mail_list_entry(&mail(8, 3, vec![]), None);
    assert_eq!(entry.sender_raw_guid, None);
    assert_eq!(entry.sender_entry, Some(42));
    assert_eq!(entry.item_entry, 0);
    assert_eq!(entry.item_count, 0);
    let other = mail_list_entry(&mail(9, 5, vec![attached(2, "3", "")]), None);
    assert_eq!((other.sender_raw_guid, other.sender_entry), (None, None));
    assert_eq!(other.item_charges, 3);
    assert_eq!(other.item_max_durability, 12);
}

#[test]
fn inbox_shows_at_most_fifty_mails() {
    let mails: Vec<CharacterMail> = (0..60).map(|id| mail(id, 0, vec![])).collect();
    let maxima = vec![None; 60];
    let entries = mail_list_entries(&mails, &maxima);
    assert_eq!(entries.len(), 50);
    assert_eq!(entries[49].mail_id, 49);
    assert_eq!(mail_list_entries(&mails[..3], &maxima[..3]).len(), 3);
}
