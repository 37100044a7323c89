use wow_network::character::ActiveCharacter;
use wow_network::inventory::{CharacterInventoryItem, DestroyItemRequest, EquippedBagInfo, InventoryMoveRequest, ItemTemplateQuery};
use wow_network::moves::{
    auto_equip_failure, check_ammo_selection, check_destroy_item, check_inventory_move, DestroyItemCheck, check_inventory_move_destination, move_merges_stacks, move_needs_item_template,
    InventoryMoveCheck, InventoryMoveFailure,
};

fn item(bag: u32, slot: u8, item: u32, item_template: u32, count: u32) -> CharacterInventoryItem {
    CharacterInventoryItem { bag, slot, item, item_template, count, random_property_id: 0, durability: 0 }
}

fn request(src_bag: u8, src_slot: u8, dst_bag: u8, dst_slot: u8) -> InventoryMoveRequest {
    InventoryMoveRequest { src_bag, src_slot, dst_bag, dst_slot }
}

fn template(inventory_type: u32, required_level: u32, container_slots: u32) -> ItemTemplateQuery {
    ItemTemplateQuery {
        entry: 100,
        class: 4,
        subclass: 0,
        quality: 1,
        flags: 0,
        sell_price: 1,
        inventory_type,
        allowable_class: -1,
        allowable_race: -1,
        required_level,
        required_skill: 0,
        required_skill_rank: 0,
        required_spell: 0,
        required_honor_rank: 0,
        required_city_rank: 0,
        required_reputation_faction: 0,
        required_reputation_rank: 0,
        stackable: 1,
        container_slots,
        max_durability: 0,
        bag_family: 0,
    }
}

fn character(level: u8) -> ActiveCharacter {
    ActiveCharacter { guid: 1, level, race: 1, class: 1 }
}

#[test]
fn backpack_move_proceeds_with_both_items() {
    let inventory = vec![item(0, 23, 7, 100, 1), item(0, 24, 8, 101, 1)];
    let check = check_inventory_move(&request(0, 23, 0, 24), &inventory, &[], &[], 0);
    assert_eq!(check, InventoryMoveCheck::Proceed { source: inventory[0], destination: Some(inventory[1]) });
}

#[test]
fn move_onto_itself_or_from_an_empty_slot_is_ignored() {
    let inventory = vec![item(0, 23, 7, 100, 1)];
    assert_eq!(check_inventory_move(&request(0, 23, 0, 23), &inventory, &[], &[], 0), InventoryMoveCheck::Ignore);
    assert_eq!(check_inventory_move(&request(0, 25, 0, 23), &inventory, &[], &[], 0), InventoryMoveCheck::Ignore);
}

#[test]
fn unsupported_positions_are_ignored() {
    let inventory = vec![item(0, 23, 7, 100, 1)];
    assert_eq!(check_inventory_move(&request(5, 0, 0, 23), &inventory, &[], &[], 0), InventoryMoveCheck::Ignore);
}

#[test]
fn missing_bag_slot_is_refused() {
    let inventory = vec![item(0, 23, 7, 100, 1)];
    let check = check_inventory_move(&request(0, 23, 19, 0), &inventory, &[], &[], 0);
    assert_eq!(
        check,
        InventoryMoveCheck::Fail(InventoryMoveFailure { error: 3, item: None, other_item: None, required_level: None })
    );
    let bags = vec![EquippedBagInfo { slot: 19, container_slots: 4, class: 1, subclass: 0 }];
    let check = check_inventory_move(&request(0, 23, 19, 0), &inventory, &bags, &[], 0);
    assert_eq!(check, InventoryMoveCheck::Proceed { source: inventory[0], destination: None });
}

#[test]
fn bank_positions_give_bank_errors() {
    let inventory = vec![item(0, 23, 7, 100, 1)];
    let unpurchased = check_inventory_move(&request(0, 23, 0, 63), &inventory, &[], &[], 0);
    assert_eq!(
        unpurchased,
        InventoryMoveCheck::Fail(InventoryMoveFailure { error: 34, item: None, other_item: None, required_level: None })
    );
    let bank_bag = check_inventory_move(&request(0, 23, 63, 0), &inventory, &[], &[], 1);
    assert_eq!(
        bank_bag,
        InventoryMoveCheck::Fail(InventoryMoveFailure { error: 35, item: None, other_item: None, required_level: None })
    );
}

#[test]
fn equipped_bag_cannot_go_into_itself() {
    let inventory = vec![item(0, 19, 9, 200, 1)];
    let bags = vec![EquippedBagInfo { slot: 19, container_slots: 4, class: 1, subclass: 0 }];
    let check = check_inventory_move(&request(0, 19, 19, 0), &inventory, &bags, &[], 0);
    assert_eq!(
        check,
        InventoryMoveCheck::Fail(InventoryMoveFailure { error: 5, item: Some(9), other_item: None, required_level: None })
    );
}

#[test]
fn equipment_destinations_need_the_template() {
    assert!(move_needs_item_template(&request(0, 23, 0, 4)));
    assert!(move_needs_item_template(&request(0, 23, 0, 20)));
    assert!(!move_needs_item_template(&request(0, 4, 0, 23)));
    assert!(!move_needs_item_template(&request(0, 23, 19, 0)));
}

#[test]
fn destination_check_refuses_wrong_slot_and_low_level() {
    let source = item(0, 23, 7, 100, 1);
    let inventory = vec![source];
    let chest = template(5, 10, 0);
    let wrong_slot = check_inventory_move_destination(
        &request(0, 23, 0, 0),
        source,
        None,
        Some(&chest),
        &inventory,
        &character(20),
        &[],
        &[],
        &[],
    );
    assert_eq!(
        wrong_slot,
        InventoryMoveCheck::Fail(InventoryMoveFailure { error: 3, item: Some(7), other_item: None, required_level: None })
    );
    let too_low = check_inventory_move_destination(
        &request(0, 23, 0, 4),
        source,
        None,
        Some(&chest),
        &inventory,
        &character(5),
        &[],
        &[],
        &[],
    );
    assert_eq!(
        too_low,
        InventoryMoveCheck::Fail(InventoryMoveFailure { error: 1, item: Some(7), other_item: None, required_level: Some(10) })
    );
    let fits = check_inventory_move_destination(
        &request(0, 23, 0, 4),
        source,
        None,
        Some(&chest),
        &inventory,
        &character(20),
        &[],
        &[],
        &[],
    );
    assert_eq!(fits, InventoryMoveCheck::Proceed { source, destination: None });
    let unknown = check_inventory_move_destination(
        &request(0, 23, 0, 4),
        source,
        None,
        None,
        &inventory,
        &character(20),
        &[],
        &[],
        &[],
    );
    assert_eq!(unknown, InventoryMoveCheck::Ignore);
}

#[test]
fn non_empty_bag_cannot_leave_the_bag_slots() {
    let bag = item(0, 19, 9, 200, 1);
    let inventory = vec![bag, item(19, 0, 10, 300, 1)];
    let check = check_inventory_move_destination(
        &request(0, 19, 0, 23),
        bag,
        None,
        None,
        &inventory,
        &character(20),
        &[],
        &[],
        &[],
    );
    assert_eq!(
        check,
        InventoryMoveCheck::Fail(InventoryMoveFailure { error: 31, item: Some(9), other_item: None, required_level: None })
    );
    let empty = vec![bag];
    let check = check_inventory_move_destination(
        &request(0, 19, 0, 23),
        bag,
        None,
        None,
        &empty,
        &character(20),
        &[],
        &[],
        &[],
    );
    assert_eq!(check, InventoryMoveCheck::Proceed { source: bag, destination: None });
}

#[test]
fn stacks_merge_only_across_instances_of_one_template() {
    let source = item(0, 23, 7, 100, 3);
    assert!(move_merges_stacks(&source, Some(item(0, 24, 8, 100, 2))));
    assert!(!move_merges_stacks(&source, Some(item(0, 24, 8, 101, 2))));
    assert!(!move_merges_stacks(&source, Some(source)));
    assert!(!move_merges_stacks(&source, None));
}

fn ammo(subclass: u32, required_level: u32) -> ItemTemplateQuery {
    ItemTemplateQuery {
        entry: 2512,
        class: 6,
        subclass,
        quality: 1,
        flags: 0,
        sell_price: 1,
        inventory_type: 24,
        allowable_class: -1,
        allowable_race: -1,
        required_level,
        required_skill: 0,
        required_skill_rank: 0,
        required_spell: 0,
        required_honor_rank: 0,
        required_city_rank: 0,
        required_reputation_faction: 0,
        required_reputation_rank: 0,
        stackable: 200,
        container_slots: 0,
        max_durability: 0,
        bag_family: 0,
    }
}

#[test]
fn ammo_selection_checks() {
    let arrows = item(0, 23, 7, 2512, 200);
    let inventory = vec![arrows];
    let hunter = character(10);
    assert_eq!(check_ammo_selection(true, 2512, Some(&ammo(2, 5)), &inventory, &hunter, &[], &[], &[]), Ok(2512));
    assert_eq!(check_ammo_selection(true, 0, None, &inventory, &hunter, &[], &[], &[]), Ok(0));
    assert_eq!(
        check_ammo_selection(false, 2512, Some(&ammo(2, 5)), &inventory, &hunter, &[], &[], &[]),
        Err(InventoryMoveFailure { error: 38, item: None, other_item: None, required_level: None })
    );
    assert_eq!(
        check_ammo_selection(true, 2512, None, &inventory, &hunter, &[], &[], &[]),
        Err(InventoryMoveFailure { error: 23, item: None, other_item: None, required_level: None })
    );
    assert_eq!(
        check_ammo_selection(true, 2512, Some(&ammo(2, 5)), &[item(0, 23, 7, 2512, 0)], &hunter, &[], &[], &[]),
        Err(InventoryMoveFailure { error: 23, item: None, other_item: None, required_level: None })
    );
    assert_eq!(
        check_ammo_selection(true, 2512, Some(&ammo(0, 5)), &inventory, &hunter, &[], &[], &[]),
        Err(InventoryMoveFailure { error: 20, item: Some(7), other_item: None, required_level: None })
    );
    assert_eq!(
        check_ammo_selection(true, 2512, Some(&ammo(3, 15)), &inventory, &hunter, &[], &[], &[]),
        Err(InventoryMoveFailure { error: 1, item: Some(7), other_item: None, required_level: Some(15) })
    );
}

#[test]
fn auto_equip_finds_the_slot() {
    let chest = item(0, 23, 7, 100, 1);
    let inventory = vec![chest];
    assert_eq!(
        InventoryMoveRequest::read_auto_equip(255, 23, Some(&template(5, 1, 0)), &inventory),
        Some(request(0, 23, 0, 4))
    );
    assert_eq!(InventoryMoveRequest::read_auto_equip(255, 24, Some(&template(5, 1, 0)), &inventory), None);
    assert_eq!(InventoryMoveRequest::read_auto_equip(255, 23, None, &inventory), None);
    assert_eq!(InventoryMoveRequest::read_auto_equip(255, 23, Some(&template(0, 1, 0)), &inventory), None);
    let bag = template(18, 1, 6);
    let with_bag_in_first_slot = vec![chest, item(0, 19, 8, 200, 1)];
    assert_eq!(
        InventoryMoveRequest::read_auto_equip(255, 23, Some(&bag), &with_bag_in_first_slot),
        Some(request(0, 23, 0, 20))
    );
    assert_eq!(
        auto_equip_failure(255, 23, true, &inventory),
        Some(InventoryMoveFailure { error: 20, item: Some(7), other_item: None, required_level: None })
    );
    assert_eq!(
        auto_equip_failure(255, 23, false, &inventory),
        Some(InventoryMoveFailure { error: 23, item: Some(7), other_item: None, required_level: None })
    );
    assert_eq!(auto_equip_failure(255, 30, true, &inventory), None);
}

#[test]
fn auto_store_into_a_bag() {
    let stack = item(0, 23, 7, 100, 1);
    let bags = vec![EquippedBagInfo { slot: 19, container_slots: 4, class: 1, subclass: 0 }];
    let inventory = vec![stack, item(0, 19, 9, 200, 1)];
    assert_eq!(
        InventoryMoveRequest::read_auto_store_bag(255, 23, 19, Some(&template(0, 1, 0)), &inventory, &bags),
        Some(request(0, 23, 19, 0))
    );
    assert_eq!(InventoryMoveRequest::read_auto_store_bag(255, 23, 19, None, &inventory, &bags), None);
    assert_eq!(InventoryMoveRequest::read_auto_store_bag(255, 25, 19, Some(&template(0, 1, 0)), &inventory, &bags), None);
}

#[test]
fn destroy_checks() {
    let stack = item(0, 23, 7, 100, 5);
    let inventory = vec![stack];
    let destroy = DestroyItemRequest { bag: 0, slot: 23, count: 2 };
    assert_eq!(check_destroy_item(&destroy, &inventory, Some(&template(0, 1, 0))), DestroyItemCheck::Proceed(stack));
    let mut keep = template(0, 1, 0);
    keep.flags = 0x20;
    assert_eq!(check_destroy_item(&destroy, &inventory, Some(&keep)), DestroyItemCheck::Fail(24));
    assert_eq!(check_destroy_item(&destroy, &inventory, None), DestroyItemCheck::Ignore);
    let empty_slot = DestroyItemRequest { bag: 0, slot: 24, count: 1 };
    assert_eq!(check_destroy_item(&empty_slot, &inventory, Some(&template(0, 1, 0))), DestroyItemCheck::Ignore);
    let unsupported = DestroyItemRequest { bag: 5, slot: 0, count: 1 };
    assert_eq!(check_destroy_item(&unsupported, &inventory, Some(&template(0, 1, 0))), DestroyItemCheck::Ignore);
}
