use wow_network::auction::{AuctionHouseAccess, AuctionHouseBucket, AuctionRecord, AUCTION_HOUSE_HUMAN, AUCTION_HOUSE_NEUTRAL, AUCTION_HOUSE_ORC};
use wow_network::auction_search::{
    auction_list_result, auction_matches_search, checked_auction_house_access, lowered_name_matches, AuctionListItemsRequest, AuctioneerView,
    AuctionSearchItem,
};
use wow_network::character::ActiveCharacter;
use wow_network::guid::ObjectGuid;
use wow_network::inventory::ItemTemplateQuery;

const AUCTIONEER: u64 = 0xF130_0000_0200_0009;

fn template(class: u32, inventory_type: u32, quality: u32, required_level: u32) -> ItemTemplateQuery {
    ItemTemplateQuery {
        entry: 100,
        class,
        subclass: 0,
        quality,
        flags: 0,
        sell_price: 1,
        inventory_type,
        allowable_class: -1,
        allowable_race: -1,
        required_level,
        required_skill: 0,
        required_skill_rank: 0,
        required_spell: 0,
        required_honor_rank: 0,
        required_city_rank: 0,
        required_reputation_faction: 0,
        required_reputation_rank: 0,
        stackable: 1,
        container_slots: 0,
        max_durability: 0,
        bag_family: 0,
    }
}

fn any_request(name: &str) -> AuctionListItemsRequest {
    AuctionListItemsRequest {
        auctioneer: ObjectGuid::from_raw(AUCTIONEER),
        list_from: 0,
        searched_name: name.to_string(),
        level_min: 0,
        level_max: 0,
        inventory_type: u32::MAX,
        item_class: u32::MAX,
        item_subclass: u32::MAX,
        quality: u32::MAX,
        usable: 0,
    }
}

fn hero() -> ActiveCharacter {
    ActiveCharacter { guid: 1, level: 20, race: 1, class: 1 }
}

fn record(id: u32) -> AuctionRecord {
    AuctionRecord {
        id,
        house_id: 7,
        item_guid: 100 + id,
        item_template: 100,
        item_count: 1,
        item_random_property_id: 0,
        item_owner: 1,
        buyout_price: 500,
        expire_time: 200,
        bidder: 0,
        current_bid: 0,
        start_bid: 90,
        deposit: 25,
        charges: String::new(),
        enchantments: String::new(),
    }
}

fn matches(t: &ItemTemplateQuery, name: &str, request: &AuctionListItemsRequest, search: &str) -> bool {
    auction_matches_search(&hero(), &[], &[], &[], t, name, request, search)
}

#[test]
fn name_search_ignores_case() {
    let t = template(4, 5, 2, 10);
    assert!(matches(&t, "Tough Leather Vest", &any_request(""), "leather"));
    assert!(matches(&t, "Tough Leather Vest", &any_request(""), ""));
    assert!(!matches(&t, "Tough Leather Vest", &any_request(""), "cloth"));
    assert!(!matches(&t, "Vest", &any_request(""), "tough vest"));
}

#[test]
fn filters_narrow_the_search() {
    let robe = template(4, 20, 2, 10);
    let mut chest = any_request("");
    chest.inventory_type = 5;
    assert!(matches(&robe, "Robe", &chest, ""));
    let mut legs = any_request("");
    legs.inventory_type = 7;
    assert!(!matches(&robe, "Robe", &legs, ""));
    let mut rare = any_request("");
    rare.quality = 3;
    assert!(!matches(&robe, "Robe", &rare, ""));
    let mut levels = any_request("");
    levels.level_min = 5;
    levels.level_max = 9;
    assert!(!matches(&robe, "Robe", &levels, ""));
    levels.level_max = 0;
    assert!(matches(&robe, "Robe", &levels, ""));
    let mut weapons = any_request("");
    weapons.item_class = 2;
    assert!(!matches(&robe, "Robe", &weapons, ""));
}

#[test]
fn usable_filter_asks_the_usability_rules() {
    let mut mage_only = template(4, 5, 2, 1);
    mage_only.allowable_class = 128;
    let mut usable = any_request("");
    usable.usable = 1;
    assert!(!matches(&mage_only, "Robe", &usable, ""));
    assert!(matches(&mage_only, "Robe", &any_request(""), ""));
}

#[test]
fn listing_counts_matches_and_pages_them() {
    let auctions: Vec<AuctionRecord> = (1..=60).map(record).collect();
    let items: Vec<Option<AuctionSearchItem>> = (1..=60)
        .map(|i| {
            if i == 3 {
                None
            } else {
                Some(AuctionSearchItem {
                    template: template(4, 5, 2, 1),
                    name: if i % 2 == 0 { "Linen Shirt".to_string() } else { "Wool Cloak".to_string() },
                })
            }
        })
        .collect();
    let mut request = any_request("SHIRT");
    let result = auction_list_result(&hero(), &[], &[], &[], &auctions, &items, &request, 100);
    assert_eq!(result.total_count, 30);
    assert_eq!(result.auctions.len(), 30);
    assert_eq!(result.auctions[0].id, 2);
    request = any_request("");
    let all = auction_list_result(&hero(), &[], &[], &[], &auctions, &items, &request, 100);
    assert_eq!(all.total_count, 59);
    assert_eq!(all.auctions.len(), 50);
    request.list_from = 55;
    let tail = auction_list_result(&hero(), &[], &[], &[], &auctions, &items, &request, 100);
    assert_eq!(tail.auctions.len(), 4);
    assert_eq!(tail.auctions[0].id, 57);
}

#[test]
fn auctioneer_access_rules() {
    let auctioneer = ObjectGuid::from_raw(AUCTIONEER);
    let near = AuctioneerView { npc_flags: 0x1000, faction: 29, faction_group_mask: None, within_reach: true };
    assert_eq!(
        checked_auction_house_access(1, false, false, auctioneer, Some(near)),
        Some(AuctionHouseAccess { entry_house_id: AUCTION_HOUSE_ORC, storage_bucket: AuctionHouseBucket::Horde })
    );
    assert_eq!(
        checked_auction_house_access(1, false, true, auctioneer, Some(near)),
        Some(AuctionHouseAccess { entry_house_id: AUCTION_HOUSE_HUMAN, storage_bucket: AuctionHouseBucket::Global })
    );
    let far = AuctioneerView { within_reach: false, ..near };
    assert_eq!(checked_auction_house_access(1, false, false, auctioneer, Some(far)), None);
    let not_auctioneer = AuctioneerView { npc_flags: 0x80, ..near };
    assert_eq!(checked_auction_house_access(1, false, false, auctioneer, Some(not_auctioneer)), None);
    assert_eq!(checked_auction_house_access(1, false, false, auctioneer, None), None);
    let own = ObjectGuid::from_raw(1);
    assert_eq!(checked_auction_house_access(1, false, false, own, None), None);
    assert_eq!(
        checked_auction_house_access(1, true, false, own, None),
        Some(AuctionHouseAccess { entry_house_id: AUCTION_HOUSE_NEUTRAL, storage_bucket: AuctionHouseBucket::Neutral })
    );
}

#[test]
fn lowered_names_match_runs_of_the_search() {
    assert!(lowered_name_matches("linen shirt", "shirt"));
    assert!(lowered_name_matches("linen shirt", "n s"));
    assert!(lowered_name_matches("linen shirt", ""));
    assert!(!lowered_name_matches("linen shirt", "Shirt"));
    assert!(!lowered_name_matches("linen", "linen shirt"));
}
