use wow_network::bank::{
    bank_slot_purchase, check_banker_access, first_auto_bank_destination, first_auto_store_bank_destination, BankSlotPurchase,
    BankerView, ERR_BANKSLOT_FAILED_TOO_MANY, ERR_BANKSLOT_NOTBANKER,
};
use wow_network::death::{
    bones_player_flags, can_be_resurrected, can_release_spirit, ghost_player_flags, living_player_flags, rest_start_secs,
    resurrected_health, tavern_rest_flags, PlayerDeathState,
};
use wow_network::guid::ObjectGuid;
use wow_network::inventory::{bank_bag_slot_count, CharacterInventoryItem, ItemTemplateQuery};
use wow_network::taxi::{
    check_taxi_activation, homebind_area_id, TaxiPathInfo, TaxiRoute, ERR_TAXINOSUCHPATH, ERR_TAXINOTVISITED,
    ERR_TAXIUNSPECIFIEDSERVERERROR,
};

fn route() -> TaxiRoute {
    TaxiRoute {
        source_known: true,
        destination_known: true,
        path: Some(TaxiPathInfo { id: 7, price: 120 }),
        destination_map: Some(0),
        flight_node_maps: vec![0, 0, 0],
        mount_display_id: 1147,
    }
}

#[test]
fn taxi_flight_starts_on_a_known_path() {
    assert_eq!(check_taxi_activation(2, 5, 2, 0, &route()), Ok(TaxiPathInfo { id: 7, price: 120 }));
}

#[test]
fn taxi_refusals() {
    assert_eq!(check_taxi_activation(3, 5, 2, 0, &route()), Err(ERR_TAXINOSUCHPATH));
    let unknown = TaxiRoute { destination_known: false, ..route() };
    assert_eq!(check_taxi_activation(2, 5, 2, 0, &unknown), Err(ERR_TAXINOTVISITED));
    let no_path = TaxiRoute { path: None, ..route() };
    assert_eq!(check_taxi_activation(2, 5, 2, 0, &no_path), Err(ERR_TAXINOSUCHPATH));
    assert_eq!(check_taxi_activation(2, 5, 2, 1, &route()), Err(ERR_TAXIUNSPECIFIEDSERVERERROR));
    let crossing = TaxiRoute { flight_node_maps: vec![0, 1], ..route() };
    assert_eq!(check_taxi_activation(2, 5, 2, 0, &crossing), Err(ERR_TAXINOSUCHPATH));
    let short = TaxiRoute { flight_node_maps: vec![0], ..route() };
    assert_eq!(check_taxi_activation(2, 5, 2, 0, &short), Err(ERR_TAXINOSUCHPATH));
    let no_mount = TaxiRoute { mount_display_id: 0, ..route() };
    assert_eq!(check_taxi_activation(2, 5, 2, 0, &no_mount), Err(ERR_TAXIUNSPECIFIEDSERVERERROR));
}

#[test]
fn homebind_area_falls_back_to_zone() {
    assert_eq!(homebind_area_id(Some(12), Some(40)), 12);
    assert_eq!(homebind_area_id(None, Some(40)), 40);
    assert_eq!(homebind_area_id(None, None), 0);
}

#[test]
fn banker_access_rules() {
    let banker = ObjectGuid::from_raw(0xF130_0000_0400_0003);
    let near = BankerView { npc_flags: 0x100, within_reach: true };
    assert!(check_banker_access(1, false, banker, Some(near)));
    assert!(!check_banker_access(1, false, banker, Some(BankerView { within_reach: false, ..near })));
    assert!(!check_banker_access(1, false, banker, Some(BankerView { npc_flags: 0x80, ..near })));
    assert!(!check_banker_access(1, false, banker, None));
    assert!(check_banker_access(1, true, ObjectGuid::from_raw(1), None));
    assert!(!check_banker_access(1, false, ObjectGuid::from_raw(1), None));
}

#[test]
fn bank_slot_purchase_raises_the_count() {
    let prices = vec![(1, 1000), (2, 7500)];
    let bytes = 0x0102_0304;
    let first = bank_slot_purchase(true, 0, &prices, bytes);
    assert_eq!(first, Ok(BankSlotPurchase { price: 1000, player_bytes2: 0x0101_0304 }));
    let second = bank_slot_purchase(true, 1, &prices, 0x0101_0304).unwrap();
    assert_eq!(second.price, 7500);
    assert_eq!(bank_bag_slot_count(Some(second.player_bytes2)), 2);
    assert_eq!(bank_slot_purchase(true, 2, &prices, bytes), Err(ERR_BANKSLOT_FAILED_TOO_MANY));
    assert_eq!(bank_slot_purchase(false, 0, &prices, bytes), Err(ERR_BANKSLOT_NOTBANKER));
}

fn plain_template() -> ItemTemplateQuery {
    ItemTemplateQuery {
        entry: 100,
        class: 0,
        subclass: 0,
        quality: 1,
        flags: 0,
        sell_price: 1,
        inventory_type: 0,
        allowable_class: -1,
        allowable_race: -1,
        required_level: 0,
        required_skill: 0,
        required_skill_rank: 0,
        required_spell: 0,
        required_honor_rank: 0,
        required_city_rank: 0,
        required_reputation_faction: 0,
        required_reputation_rank: 0,
        stackable: 1,
        container_slots: 0,
        max_durability: 0,
        bag_family: 0,
    }
}

#[test]
fn auto_bank_moves_between_backpack_and_bank() {
    let carried = CharacterInventoryItem { bag: 0, slot: 23, item: 7, item_template: 100, count: 1, random_property_id: 0, durability: 0 };
    let inventory = vec![carried];
    assert_eq!(first_auto_bank_destination(&inventory, &carried, &plain_template(), &[], 0), Some((0, 39)));
    assert_eq!(first_auto_store_bank_destination(&inventory, &carried, &plain_template(), &[], &[], 0), Some((0, 39)));
    let banked = CharacterInventoryItem { slot: 39, ..carried };
    let inventory = vec![banked];
    assert_eq!(first_auto_store_bank_destination(&inventory, &banked, &plain_template(), &[], &[], 0), Some((0, 23)));
}

#[test]
fn death_states_and_flags() {
    assert!(can_release_spirit(PlayerDeathState::Corpse));
    assert!(!can_release_spirit(PlayerDeathState::JustDied));
    assert!(can_be_resurrected(PlayerDeathState::Spirit));
    assert!(!can_be_resurrected(PlayerDeathState::Alive));
    let flags = 0x0000_0C01;
    let released = ghost_player_flags(flags);
    assert_eq!(released, 0x0000_0C11);
    assert_eq!(living_player_flags(released), flags);
    assert_eq!(bones_player_flags(released), 0x0000_0011);
    assert_eq!(resurrected_health(1000), 500);
    assert_eq!(resurrected_health(3), 1);
    assert_eq!(resurrected_health(0), 1);
}

#[test]
fn taverns_start_resting_once() {
    assert_eq!(tavern_rest_flags(true, 0x1), Some(0x21));
    assert_eq!(tavern_rest_flags(true, 0x21), None);
    assert_eq!(tavern_rest_flags(false, 0x1), None);
    assert_eq!(rest_start_secs(1_700_000_000), 1_700_000_000);
    assert_eq!(rest_start_secs(u64::MAX), u32::MAX);
}
