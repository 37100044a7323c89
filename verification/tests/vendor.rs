use wow_network::guid::ObjectGuid;
use wow_network::trade::{BUY_ERR_CANT_FIND_ITEM, BUY_ERR_NOT_ENOUGHT_MONEY};
use wow_network::inventory::{CharacterInventoryItem, EquippedBagInfo, ItemTemplateQuery};
use wow_network::vendor::{
    advance_buyback_slot, buyback_step, next_buyback_slot, BuybackAction, BuybackEvent, BuybackStage, next_buyback_timestamp, plan_store_vendor_item_in_slot,
    push_buyback_entry, remove_buyback_entry_from_session, resolve_buy_item_in_slot_destination,
    sell_item_is_non_empty_container, update_vendor_stock_entry, vendor_buyback_slot_index,
    vendor_item_consume_count, vendor_item_current_count, BuyItemInSlotRequest, BuybackItem, BuybackState,
    VendorItemQuery, VendorStockEntry, VendorStockKey, VendorStockState, BUYBACK_DURATION_SECS,
};

fn limited(max_count: u32, incr_time: u32) -> VendorItemQuery {
    VendorItemQuery {
        item: 159,
        max_count,
        incr_time,
        buy_count: 1,
        buy_price: 5,
        display_id: 1,
        max_durability: 0,
        container_slots: 0,
    }
}

fn template(entry: u32, stackable: u32, container_slots: u32) -> ItemTemplateQuery {
    ItemTemplateQuery {
        entry,
        class: 0,
        subclass: 0,
        quality: 1,
        flags: 0,
        sell_price: 1,
        inventory_type: 0,
        allowable_class: -1,
        allowable_race: -1,
        required_level: 0,
        required_skill: 0,
        required_skill_rank: 0,
        required_spell: 0,
        required_honor_rank: 0,
        required_city_rank: 0,
        required_reputation_faction: 0,
        required_reputation_rank: 0,
        stackable,
        container_slots,
        max_durability: 0,
        bag_family: 0,
    }
}

fn item(bag: u32, slot: u8, item: u32, item_template: u32, count: u32) -> CharacterInventoryItem {
    CharacterInventoryItem { bag, slot, item, item_template, count, random_property_id: 0, durability: 0 }
}

#[test]
fn limited_stock_restocks_and_is_consumed() {
    let vendor_item = limited(5, 60);
    assert_eq!(vendor_item_current_count(&vendor_item, None, 0).count, 5);
    let stocked = Some(VendorStockEntry { count: 1, last_increment_time: 100 });
    assert_eq!(vendor_item_current_count(&vendor_item, stocked, 159).count, 1);
    let restocked = vendor_item_current_count(&vendor_item, stocked, 220);
    assert_eq!(restocked.count, 3);
    assert_eq!(restocked.updated_entry, Some(VendorStockEntry { count: 3, last_increment_time: 220 }));
    let full = vendor_item_current_count(&vendor_item, stocked, 10_000);
    assert_eq!((full.count, full.updated_entry), (5, None));
    assert_eq!(vendor_item_consume_count(&vendor_item, stocked, 2, 120), None);
    let bought = vendor_item_consume_count(&vendor_item, None, 2, 120).unwrap();
    assert_eq!(bought.count, 3);
    assert_eq!(vendor_item_current_count(&vendor_item, bought.updated_entry, 120).count, 3);
    let unlimited = vendor_item_consume_count(&limited(0, 0), None, 9, 0).unwrap();
    assert_eq!((unlimited.count, unlimited.updated_entry), (0, None));
}

#[test]
fn stock_state_is_a_map_per_vendor_and_item() {
    let mut state = VendorStockState::new();
    let vendor = ObjectGuid::from_raw(0xF130_0000_0000_0001);
    let key = VendorStockKey::new(vendor, 159);
    let entry = VendorStockEntry { count: 2, last_increment_time: 5 };
    update_vendor_stock_entry(&mut state, key, Some(entry));
    assert_eq!(state.get(key), Some(entry));
    assert_eq!(state.get(VendorStockKey::new(vendor, 160)), None);
    let vendor_item = limited(5, 0);
    assert_eq!(state.consume_item(vendor, &vendor_item, 3, 9), None);
    assert_eq!(state.get(key), Some(entry));
    assert_eq!(state.consume_item(vendor, &vendor_item, 2, 9), Some(0));
    assert_eq!(state.current_count(vendor, &vendor_item, 10), 0);
    update_vendor_stock_entry(&mut state, key, None);
    assert_eq!(state.current_count(vendor, &vendor_item, 10), 5);
}

#[test]
fn buyback_slots_rotate_and_replace_the_oldest() {
    let mut state = BuybackState { buyback_items: vec![], next_buyback_slot: 0 };
    assert_eq!(vendor_buyback_slot_index(69), Some(0));
    assert_eq!(vendor_buyback_slot_index(81), None);
    assert_eq!(next_buyback_slot(&state), 69);
    assert_eq!(next_buyback_timestamp(&state), BUYBACK_DURATION_SECS);
    let first = push_buyback_entry(&mut state, 69, 1, 10);
    assert_eq!(first, BuybackItem { slot: 69, item: 1, price: 10, timestamp: BUYBACK_DURATION_SECS });
    assert_eq!(state.next_buyback_slot, 70);
    let second = push_buyback_entry(&mut state, 69, 2, 10);
    assert_eq!(second.timestamp, BUYBACK_DURATION_SECS + 1);
    assert_eq!(state.buyback_items, vec![second]);
    for slot in 70u8..81 {
        let chosen = next_buyback_slot(&state);
        assert_eq!(chosen, slot);
        push_buyback_entry(&mut state, chosen, slot as u32, 1);
    }
    assert_eq!(state.buyback_items.len(), 12);
    assert_eq!(state.next_buyback_slot, 80);
    assert_eq!(next_buyback_slot(&state), 69);
    remove_buyback_entry_from_session(&mut state, 75);
    assert_eq!(state.buyback_items.len(), 11);
    assert_eq!(state.next_buyback_slot, 75);
    advance_buyback_slot(&mut state, 80);
    assert_eq!(state.next_buyback_slot, 80);
}

#[test]
fn buying_into_a_slot() {
    let inventory = vec![item(0, 19, 44, 4500, 1), item(0, 25, 7, 159, 18)];
    let bag_guid = ObjectGuid::from_raw(0x4000_0000_0000_002C);
    let request = |bag_guid: ObjectGuid, bag_slot: u8| BuyItemInSlotRequest {
        vendor_guid: ObjectGuid::from_raw(0xF130_0000_0000_0001),
        item: 159,
        bag_guid,
        bag_slot,
        count: 1,
    };
    assert_eq!(resolve_buy_item_in_slot_destination(3, request(ObjectGuid::from_raw(3), 30), &inventory), Some((0, 30)));
    assert_eq!(resolve_buy_item_in_slot_destination(3, request(ObjectGuid::from_raw(3), 5), &inventory), None);
    assert_eq!(resolve_buy_item_in_slot_destination(3, request(bag_guid, 2), &inventory), Some((19, 2)));
    let water = template(159, 20, 0);
    let plan = plan_store_vendor_item_in_slot(&inventory, &water, 2, &[], 0, 25).unwrap();
    assert_eq!(plan[0].existing_item, Some(7));
    assert!(plan_store_vendor_item_in_slot(&inventory, &water, 3, &[], 0, 25).is_none());
    assert!(plan_store_vendor_item_in_slot(&inventory, &template(160, 20, 0), 1, &[], 0, 25).is_none());
    assert!(plan_store_vendor_item_in_slot(&inventory, &water, 21, &[], 0, 26).is_none());
    let bag = EquippedBagInfo { slot: 19, container_slots: 4, class: 1, subclass: 0 };
    assert!(plan_store_vendor_item_in_slot(&inventory, &water, 1, &[bag], 19, 3).is_some());
    assert!(plan_store_vendor_item_in_slot(&inventory, &water, 1, &[bag], 19, 4).is_none());
}

#[test]
fn selling_a_bag_with_contents_is_refused() {
    let inventory = vec![item(0, 19, 44, 4500, 1), item(19, 0, 45, 1, 1)];
    assert!(sell_item_is_non_empty_container(&inventory, &inventory[0], &template(4500, 1, 6)));
    assert!(!sell_item_is_non_empty_container(&inventory[..1], &inventory[0], &template(4500, 1, 6)));
    assert!(!sell_item_is_non_empty_container(&inventory, &inventory[1], &template(1, 1, 0)));
}

fn vendor_creature() -> ObjectGuid {
    ObjectGuid::from_raw(0xF130_0000_0100_0005)
}

fn loaded(template: Option<ItemTemplateQuery>) -> BuybackEvent {
    BuybackEvent::TemplateLoaded { template, equipped_bags: vec![] }
}

#[test]
fn buyback_runs_vendor_entry_item_template_room_money_in_order() {
    let entries = vec![BuybackItem { slot: 69, item: 500, price: 30, timestamp: 1 }];
    let sold = item(0, 69, 500, 2589, 4);
    let mut inventory = vec![sold];
    let vendor = vendor_creature();

    let (next, action) = buyback_step(vendor, 69, &entries, &inventory, BuybackStage::CheckingVendor, BuybackEvent::VendorChecked { listed: true });
    assert!(matches!(action, BuybackAction::LoadTemplate { item_template: 2589 }));
    let stage = next.unwrap();
    let (next, action) = buyback_step(vendor, 69, &entries, &inventory, stage, loaded(Some(template(2589, 20, 0))));
    assert!(matches!(action, BuybackAction::ChargeMoney { price: 30 }));
    let stage = next.unwrap();
    let (next, action) = buyback_step(vendor, 69, &entries, &inventory, stage.clone(), BuybackEvent::MoneySpent { money: Some(70) });
    assert!(next.is_none());
    match action {
        BuybackAction::Store { item, plan, money } => {
            assert_eq!((item, money), (500, 70));
            assert_eq!(plan.len(), 1);
            assert_eq!((plan[0].bag, plan[0].slot, plan[0].count, plan[0].existing_item), (0, 23, 4, None));
        }
        other => panic!("unexpected {:?}", other),
    }
    let (_, action) = buyback_step(vendor, 69, &entries, &inventory, stage, BuybackEvent::MoneySpent { money: None });
    assert!(matches!(
        action,
        BuybackAction::BuyFailed { item_template: 2589, error: BUY_ERR_NOT_ENOUGHT_MONEY, drop_entry: false }
    ));

    // A stack of the same item in the backpack takes the items back first.
    inventory.push(item(0, 23, 501, 2589, 10));
    let stage = BuybackStage::LoadingTemplate { entry: entries[0], source: sold };
    let (next, _) = buyback_step(vendor, 69, &entries, &inventory, stage, loaded(Some(template(2589, 20, 0))));
    match next {
        Some(BuybackStage::Charging { plan, .. }) => {
            assert_eq!((plan[0].bag, plan[0].slot, plan[0].count, plan[0].existing_item), (0, 23, 4, Some(501)));
        }
        other => panic!("unexpected {:?}", other),
    }
}

#[test]
fn buyback_failures_answer_in_the_original_order() {
    let entries = vec![BuybackItem { slot: 70, item: 600, price: 30, timestamp: 1 }];
    let sold = item(0, 70, 600, 2589, 1);
    let inventory = vec![sold];
    let vendor = vendor_creature();
    let checked = |listed| BuybackEvent::VendorChecked { listed };

    let (next, action) = buyback_step(ObjectGuid::from_raw(1), 70, &entries, &inventory, BuybackStage::CheckingVendor, checked(true));
    assert!(next.is_none() && matches!(action, BuybackAction::CantFindVendor));
    let (_, action) = buyback_step(vendor, 70, &entries, &inventory, BuybackStage::CheckingVendor, checked(false));
    assert!(matches!(action, BuybackAction::CantFindVendor));
    let (_, action) = buyback_step(vendor, 71, &entries, &inventory, BuybackStage::CheckingVendor, checked(true));
    assert!(matches!(action, BuybackAction::BuyFailed { item_template: 0, error: BUY_ERR_CANT_FIND_ITEM, drop_entry: false }));
    let (_, action) = buyback_step(vendor, 70, &entries, &[], BuybackStage::CheckingVendor, checked(true));
    assert!(matches!(action, BuybackAction::BuyFailed { item_template: 0, error: BUY_ERR_CANT_FIND_ITEM, drop_entry: true }));

    let stage = BuybackStage::LoadingTemplate { entry: entries[0], source: sold };
    let (_, action) = buyback_step(vendor, 70, &entries, &inventory, stage.clone(), loaded(None));
    assert!(matches!(
        action,
        BuybackAction::BuyFailed { item_template: 2589, error: BUY_ERR_CANT_FIND_ITEM, drop_entry: false }
    ));
    let full: Vec<_> = (23u8..39).map(|slot| item(0, slot, slot as u32, 7, 1)).chain(std::iter::once(sold)).collect();
    let (next, action) = buyback_step(vendor, 70, &entries, &full, stage.clone(), loaded(Some(template(2589, 1, 0))));
    assert!(next.is_none() && matches!(action, BuybackAction::InventoryFull { item: 600 }));

    let (next, action) = buyback_step(vendor, 70, &entries, &inventory, stage, BuybackEvent::MoneySpent { money: Some(5) });
    assert!(matches!(next, Some(BuybackStage::LoadingTemplate { .. })) && matches!(action, BuybackAction::Ignore));
}
