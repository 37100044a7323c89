use wow_network::guid::ObjectGuid;
use wow_network::inventory::{CharacterInventoryItem, ItemTemplateQuery};
use wow_network::trade::{
    build_buy_failed_body, build_inventory_change_failure_body, build_sell_item_error_body, list_vendor_items,
    vendor_buy_item, vendor_purchase, vendor_sale, vendor_stock_covers, VendorBuyItem, VendorPurchase, VendorSale,
};
use wow_network::vendor::{VendorItemQuery, VendorStockEntry, VendorStockKey, VendorStockState};

const VENDOR_RAW: u64 = 0xF130_0000_0100_0005;

fn vendor_item(item: u32, max_count: u32, buy_count: u32, buy_price: u32) -> VendorItemQuery {
    VendorItemQuery {
        item,
        max_count,
        incr_time: 60,
        buy_count,
        buy_price,
        display_id: item + 1000,
        max_durability: 0,
        container_slots: 0,
    }
}

fn template(sell_price: u32, container_slots: u32) -> ItemTemplateQuery {
    ItemTemplateQuery {
        entry: 100,
        class: 0,
        subclass: 0,
        quality: 1,
        flags: 0,
        sell_price,
        inventory_type: 0,
        allowable_class: -1,
        allowable_race: -1,
        required_level: 0,
        required_skill: 0,
        required_skill_rank: 0,
        required_spell: 0,
        required_honor_rank: 0,
        required_city_rank: 0,
        required_reputation_faction: 0,
        required_reputation_rank: 0,
        stackable: 20,
        container_slots,
        max_durability: 0,
        bag_family: 0,
    }
}

fn stack(bag: u32, slot: u8, count: u32) -> CharacterInventoryItem {
    CharacterInventoryItem { bag, slot, item: 7, item_template: 100, count, random_property_id: 0, durability: 0 }
}

#[test]
fn vendor_row_is_found_by_item_with_its_slot() {
    let items = vec![vendor_item(10, 0, 1, 5), vendor_item(20, 0, 5, 8), vendor_item(20, 3, 1, 9)];
    let row = vendor_buy_item(ObjectGuid::from_raw(VENDOR_RAW), &items, 20);
    assert_eq!(row, Some(VendorBuyItem { slot: 2, container_slots: 0, buy_count: 5, price: 8, query: items[1] }));
    assert_eq!(vendor_buy_item(ObjectGuid::from_raw(VENDOR_RAW), &items, 30), None);
}

#[test]
fn only_creatures_sell() {
    let items = vec![vendor_item(10, 0, 1, 5)];
    assert_eq!(vendor_buy_item(ObjectGuid::from_raw(4), &items, 10), None);
}

#[test]
fn purchase_multiplies_bundles_and_saturates() {
    let row = VendorBuyItem { slot: 1, container_slots: 0, buy_count: 5, price: 8, query: vendor_item(20, 0, 5, 8) };
    assert_eq!(vendor_purchase(&row, 3), VendorPurchase { count: 3, total_count: 15, price: 24 });
    assert_eq!(vendor_purchase(&row, 0), VendorPurchase { count: 1, total_count: 5, price: 8 });
    let dear = VendorBuyItem { slot: 1, container_slots: 0, buy_count: 0, price: u32::MAX, query: vendor_item(20, 0, 0, 1) };
    assert_eq!(vendor_purchase(&dear, 2), VendorPurchase { count: 2, total_count: 2, price: u32::MAX });
}

#[test]
fn stock_covers_unlimited_or_enough() {
    assert!(vendor_stock_covers(0, 0, 10));
    assert!(vendor_stock_covers(5, 5, 5));
    assert!(!vendor_stock_covers(5, 4, 5));
}

#[test]
fn listing_reports_current_stock_and_records_it() {
    let vendor = ObjectGuid::from_raw(VENDOR_RAW);
    let items = vec![vendor_item(10, 0, 1, 5), vendor_item(20, 4, 1, 9)];
    let mut state = VendorStockState::new();
    let key = VendorStockKey::new(vendor, 20);
    wow_network::vendor::update_vendor_stock_entry(
        &mut state,
        key,
        Some(VendorStockEntry { count: 1, last_increment_time: 100 }),
    );
    let rows = list_vendor_items(&mut state, vendor, &items, 130);
    assert_eq!(rows.len(), 2);
    assert_eq!(rows[0].item, 10);
    assert_eq!(rows[0].display, 1010);
    assert_eq!(rows[0].max_count, 0);
    assert_eq!(rows[1].max_count, 1);
    assert_eq!(rows[1].price, 9);
    let later = list_vendor_items(&mut state, vendor, &items, 400);
    assert_eq!(later[1].max_count, 4);
    assert_eq!(state.get(key), None);
}

#[test]
fn sale_of_part_of_a_stack() {
    let source = stack(0, 23, 10);
    let sale = vendor_sale(4, &source, &template(3, 0), &[source]);
    assert_eq!(sale, Ok(VendorSale { count: 4, splits_stack: true, money: 12 }));
    let whole = vendor_sale(0, &source, &template(3, 0), &[source]);
    assert_eq!(whole, Ok(VendorSale { count: 10, splits_stack: false, money: 30 }));
}

#[test]
fn sale_refusals() {
    let source = stack(0, 23, 10);
    assert_eq!(vendor_sale(11, &source, &template(3, 0), &[source]), Err(2));
    assert_eq!(vendor_sale(1, &source, &template(0, 0), &[source]), Err(2));
    let empty = stack(0, 23, 0);
    assert_eq!(vendor_sale(0, &empty, &template(3, 0), &[empty]), Err(2));
    let bag = stack(0, 19, 1);
    let inventory = vec![bag, stack(19, 0, 1)];
    assert_eq!(vendor_sale(0, &bag, &template(3, 4), &inventory), Err(2));
    assert_eq!(vendor_sale(0, &bag, &template(3, 4), &[bag]), Ok(VendorSale { count: 1, splits_stack: false, money: 3 }));
}

#[test]
fn buy_failed_body_layout() {
    let body = build_buy_failed_body(ObjectGuid::from_raw(0x0102_0304_0506_0708), 0x0A0B_0C0D, 2);
    assert_eq!(body, vec![8, 7, 6, 5, 4, 3, 2, 1, 0x0D, 0x0C, 0x0B, 0x0A, 2]);
}

#[test]
fn sell_error_body_layout() {
    let body = build_sell_item_error_body(ObjectGuid::from_raw(1), ObjectGuid::from_raw(0x4000_0000_0000_0002), 1);
    assert_eq!(body, vec![1, 0, 0, 0, 0, 0, 0, 0, 2, 0, 0, 0, 0, 0, 0, 0x40, 1]);
}

#[test]
fn inventory_change_failure_body_layouts() {
    assert_eq!(build_inventory_change_failure_body(0, None, None, None), vec![0]);
    let level = build_inventory_change_failure_body(1, Some(ObjectGuid::from_raw(5)), None, Some(40));
    assert_eq!(level, vec![1, 40, 0, 0, 0, 5, 0, 0, 0, 0, 0, 0, 0, 0, 0, 0, 0, 0, 0, 0, 0, 0]);
    let other = build_inventory_change_failure_body(3, Some(ObjectGuid::from_raw(5)), Some(ObjectGuid::from_raw(6)), None);
    assert_eq!(other, vec![3, 5, 0, 0, 0, 0, 0, 0, 0, 6, 0, 0, 0, 0, 0, 0, 0, 0]);
}
