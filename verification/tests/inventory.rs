use wow_network::inventory::{
    bank_bag_slot_count, client_bag_id, first_autostore_destination, inventory_store_bag_order, normalize_client_bag,
    plan_bank_item, plan_store_item, storage_slot_range, unpurchased_bank_bag_slot, with_bank_bag_slot_count,
    CharacterInventoryItem, EquippedBagInfo, ItemTemplateQuery, StoreSlot,
};

fn template(entry: u32, stackable: u32) -> ItemTemplateQuery {
    ItemTemplateQuery {
        entry,
        class: 0,
        subclass: 0,
        quality: 1,
        flags: 0,
        sell_price: 1,
        inventory_type: 0,
        allowable_class: -1,
        allowable_race: -1,
        required_level: 0,
        required_skill: 0,
        required_skill_rank: 0,
        required_spell: 0,
        required_honor_rank: 0,
        required_city_rank: 0,
        required_reputation_faction: 0,
        required_reputation_rank: 0,
        stackable,
        container_slots: 0,
        max_durability: 0,
        bag_family: 0,
    }
}

fn item(bag: u32, slot: u8, item: u32, item_template: u32, count: u32) -> CharacterInventoryItem {
    CharacterInventoryItem { bag, slot, item, item_template, count, random_property_id: 0, durability: 0 }
}

#[test]
fn plans_fill_existing_stacks_then_empty_backpack_slots() {
    let inventory = vec![item(0, 23, 1, 2589, 15), item(0, 24, 2, 999, 1)];
    let plan = plan_store_item(&inventory, &template(2589, 20), 30, &[], None, None).unwrap();
    assert_eq!(
        plan,
        vec![
            StoreSlot { bag: 0, slot: 23, count: 5, existing_item: Some(1) },
            StoreSlot { bag: 0, slot: 25, count: 20, existing_item: None },
            StoreSlot { bag: 0, slot: 26, count: 5, existing_item: None },
        ]
    );
    assert_eq!(plan.iter().map(|s| s.count).sum::<u32>(), 30);
}

#[test]
fn plans_fail_when_the_count_does_not_fit() {
    let full: Vec<_> = (23u8..39).map(|slot| item(0, slot, slot as u32, 7, 1)).collect();
    assert!(plan_store_item(&full, &template(8, 1), 1, &[], None, None).is_none());
    let bag = EquippedBagInfo { slot: 19, container_slots: 2, class: 1, subclass: 0 };
    let plan = plan_store_item(&full, &template(8, 1), 2, &[bag], None, None).unwrap();
    assert_eq!(plan.len(), 2);
    assert_eq!((plan[0].bag, plan[0].slot), (19, 0));
    assert_eq!((plan[1].bag, plan[1].slot), (19, 1));
    assert!(plan_store_item(&full, &template(8, 1), 3, &[bag], None, None).is_none());
    assert_eq!(plan_store_item(&full, &template(8, 1), 0, &[], None, None), Some(vec![]));
}

#[test]
fn items_that_do_not_stack_take_one_slot_each() {
    let plan = plan_store_item(&[], &template(8, 0), 3, &[], None, None).unwrap();
    assert_eq!(plan.iter().map(|s| (s.slot, s.count)).collect::<Vec<_>>(), vec![(23, 1), (24, 1), (25, 1)]);
}

#[test]
fn bank_plans_use_bank_slots_and_purchased_bags_only() {
    let plan = plan_bank_item(&[], &template(8, 5), 7, &[], 0, None, None).unwrap();
    assert_eq!(plan.iter().map(|s| (s.bag, s.slot, s.count)).collect::<Vec<_>>(), vec![(0, 39, 5), (0, 40, 2)]);
    let bank_bag = EquippedBagInfo { slot: 63, container_slots: 4, class: 1, subclass: 0 };
    let full: Vec<_> = (39u8..63).map(|slot| item(0, slot, slot as u32, 7, 1)).collect();
    assert!(plan_bank_item(&full, &template(8, 1), 1, &[bank_bag], 0, None, None).is_none());
    let plan = plan_bank_item(&full, &template(8, 1), 1, &[bank_bag], 1, None, None).unwrap();
    assert_eq!((plan[0].bag, plan[0].slot), (63, 0));
}

#[test]
fn autostore_destination_needs_a_single_place() {
    let inventory = vec![item(0, 23, 1, 2589, 5)];
    let bag = EquippedBagInfo { slot: 20, container_slots: 4, class: 1, subclass: 0 };
    assert_eq!(first_autostore_destination(&inventory, &inventory[0], &template(2589, 20), &[bag], 20), Some((20, 0)));
    assert_eq!(first_autostore_destination(&inventory, &inventory[0], &template(2589, 20), &[bag], 21), None);
}

#[test]
fn autostore_destination_stays_in_the_asked_bag() {
    let bag = EquippedBagInfo { slot: 19, container_slots: 4, class: 1, subclass: 0 };
    let inventory = vec![item(0, 23, 1, 2589, 3), item(0, 24, 2, 2589, 5)];
    assert_eq!(first_autostore_destination(&inventory, &inventory[0], &template(2589, 20), &[bag], 19), Some((19, 0)));
    assert_eq!(first_autostore_destination(&inventory, &inventory[0], &template(2589, 20), &[bag], 0), Some((0, 24)));
}

#[test]
fn bag_order_puts_the_backpack_first() {
    let bags = [
        EquippedBagInfo { slot: 19, container_slots: 6, class: 1, subclass: 0 },
        EquippedBagInfo { slot: 20, container_slots: 6, class: 1, subclass: 0 },
    ];
    assert_eq!(inventory_store_bag_order(&template(1, 1), &bags, None), vec![0, 19, 20]);
    assert_eq!(inventory_store_bag_order(&template(1, 1), &bags, Some(20)), vec![20]);
    assert_eq!(storage_slot_range(0, &bags), Some((23, 39)));
    assert_eq!(storage_slot_range(20, &bags), Some((0, 6)));
    assert_eq!(storage_slot_range(21, &bags), None);
}

#[test]
fn bank_bag_count_round_trips_through_player_bytes() {
    let bytes = with_bank_bag_slot_count(0xAABB_CCDD, 3);
    assert_eq!(bytes, 0xAA03_CCDD);
    assert_eq!(bank_bag_slot_count(Some(bytes)), 3);
    assert_eq!(bank_bag_slot_count(None), 0);
    assert!(unpurchased_bank_bag_slot(0, 66, 3));
    assert!(!unpurchased_bank_bag_slot(0, 65, 3));
}

#[test]
fn client_bag_ids_round_trip() {
    for bag in 0u8..=254 {
        assert_eq!(normalize_client_bag(client_bag_id(bag)), bag);
    }
    assert_eq!(client_bag_id(0), 255);
    assert_eq!(normalize_client_bag(255), 0);
}
