use wow_network::auction::{
    auction_attachment_can_be_listed, auction_base_deposit, auction_bid_notifications, auction_bid_reply,
    auction_bid_request_is_valid, auction_client_duration_secs, auction_house_access_for_faction, auction_min_outbid,
    auction_remove_reply, auction_source_position_supported, auction_storage_bucket_for_house,
    auction_time_left_millis, build_auction_bidder_notification_packet, build_auction_info_response,
    build_auction_owner_notification_packet, build_auction_removed_notification_packet, check_auction_sell_request,
    collect_bidder_auction_infos, paged_auction_infos, AuctionBidReply, AuctionHouseBucket, AuctionRecord,
    AuctionSellCheck, AuctionSellItemRequest, MailAttachmentInstanceState, PlaceAuctionBidError, PlacedAuctionBid,
    RemoveAuctionError, RemovedAuction, AUCTION_ACTION_BID_PLACED, AUCTION_ACTION_REMOVED, AUCTION_ACTION_STARTED,
    AUCTION_ERR_BID_INCREMENT, AUCTION_ERR_BID_OWN, AUCTION_ERR_DATABASE, AUCTION_ERR_HIGHER_BID,
    AUCTION_ERR_INVENTORY, AUCTION_ERR_OK, AUCTION_HOUSE_DWARF, AUCTION_HOUSE_HUMAN, AUCTION_HOUSE_NEUTRAL,
    AUCTION_HOUSE_ORC, FACTION_GROUP_MASK_ALLIANCE, FACTION_GROUP_MASK_HORDE, ITEM_DYNFLAG_BINDED,
    ITEM_FLAG_CONJURED, SMSG_AUCTION_BIDDER_NOTIFICATION, SMSG_AUCTION_OWNER_NOTIFICATION,
    SMSG_AUCTION_REMOVED_NOTIFICATION,
};
use wow_network::guid::{item_guid, player_guid, ObjectGuid};
use wow_network::inventory::CharacterInventoryItem;

fn record(id: u32, item_template: u32, bidder: u32, current_bid: u32, charges: &str, enchantments: &str) -> AuctionRecord {
    AuctionRecord {
        id,
        house_id: AUCTION_HOUSE_NEUTRAL,
        item_guid: 100 + id,
        item_template,
        item_count: 1,
        item_random_property_id: 0,
        item_owner: 1,
        buyout_price: 500,
        expire_time: 200,
        bidder,
        current_bid,
        start_bid: 90,
        deposit: 25,
        charges: charges.to_string(),
        enchantments: enchantments.to_string(),
    }
}

fn u32_at(body: &[u8], at: usize) -> u32 {
    u32::from_le_bytes(body[at..at + 4].try_into().unwrap())
}

fn u64_at(body: &[u8], at: usize) -> u64 {
    u64::from_le_bytes(body[at..at + 8].try_into().unwrap())
}

#[test]
fn auction_info_response_matches_cmangos_fields() {
    let auction = AuctionRecord {
        id: 77,
        house_id: AUCTION_HOUSE_NEUTRAL,
        item_guid: 91,
        item_template: 744,
        item_count: 3,
        item_random_property_id: -15,
        item_owner: 11,
        buyout_price: 500,
        expire_time: 106,
        bidder: 12,
        current_bid: 125,
        start_bid: 100,
        deposit: 25,
        charges: "-1 0 0 0 0".to_string(),
        enchantments: "1900 0 0".to_string(),
    };

    let info = build_auction_info_response(&auction, 100);
    assert_eq!(info.id, 77);
    assert_eq!(info.item, 744);
    assert_eq!(info.enchantment, 1900);
    assert_eq!(info.random_property_id, u32::MAX - 14);
    assert_eq!(info.count, 3);
    assert_eq!(info.charges, u32::MAX);
    assert_eq!(info.owner, player_guid(11));
    assert_eq!(info.min_outbid, 5);
    assert_eq!(info.buyout, 500);
    assert_eq!(info.time_left_millis, 6_000);
    assert_eq!(info.bidder, player_guid(12));
    assert_eq!(info.current_bid, 125);
}

#[test]
fn auction_house_id_uses_cmangos_faction_mapping_with_group_fallback() {
    assert_eq!(auction_house_access_for_faction(12, None, false).entry_house_id, AUCTION_HOUSE_HUMAN);
    assert_eq!(auction_house_access_for_faction(534, None, false).entry_house_id, AUCTION_HOUSE_DWARF);
    assert_eq!(auction_house_access_for_faction(855, None, false).entry_house_id, AUCTION_HOUSE_NEUTRAL);
    assert_eq!(
        auction_house_access_for_faction(9_999, Some(FACTION_GROUP_MASK_HORDE), false).entry_house_id,
        AUCTION_HOUSE_ORC
    );
    assert_eq!(auction_house_access_for_faction(42_4242, None, false).entry_house_id, AUCTION_HOUSE_NEUTRAL);
}

#[test]
fn auction_house_access_groups_city_houses_but_can_flip_to_global_market() {
    let stormwind = auction_house_access_for_faction(12, None, false);
    let ironforge = auction_house_access_for_faction(55, None, false);
    let orgrimmar = auction_house_access_for_faction(29, None, false);
    let goblin = auction_house_access_for_faction(120, None, false);
    let cross_faction = auction_house_access_for_faction(29, None, true);

    assert_eq!(stormwind.storage_bucket, AuctionHouseBucket::Alliance);
    assert_eq!(ironforge.storage_bucket, AuctionHouseBucket::Alliance);
    assert_eq!(orgrimmar.storage_bucket, AuctionHouseBucket::Horde);
    assert_eq!(goblin.storage_bucket, AuctionHouseBucket::Neutral);
    assert_eq!(cross_faction.entry_house_id, AUCTION_HOUSE_HUMAN);
    assert_eq!(cross_faction.storage_bucket, AuctionHouseBucket::Global);
}

#[test]
fn bidder_listing_prioritizes_outbid_then_pages_combined_results() {
    let mut first = record(11, 744, 99, 100, "0 0 0 0 0", "0 0 0");
    first.item_owner = 1;
    first.start_bid = 90;
    let mut second = record(22, 745, 99, 120, "0 0 0 0 0", "0 0 0");
    second.item_owner = 2;
    second.buyout_price = 600;
    second.start_bid = 100;
    let mut third = record(33, 746, 99, 140, "0 0 0 0 0", "0 0 0");
    third.item_owner = 3;
    third.buyout_price = 700;
    third.start_bid = 110;
    let auctions = vec![first, second, third];

    let combined = collect_bidder_auction_infos(&auctions, 99, &[22, 11, 22], 100);
    let ids: Vec<_> = combined.iter().map(|auction| auction.id).collect();
    assert_eq!(ids, vec![22, 11, 33]);

    let paged_ids: Vec<_> = paged_auction_infos(combined, 2).into_iter().map(|auction| auction.id).collect();
    assert_eq!(paged_ids, vec![33]);
}

#[test]
fn auction_listing_rejects_soulbound_but_not_unrelated_instance_flags() {
    assert!(!auction_attachment_can_be_listed(
        MailAttachmentInstanceState { flags: ITEM_DYNFLAG_BINDED, duration: 0 },
        0,
        false,
    ));
    assert!(auction_attachment_can_be_listed(
        MailAttachmentInstanceState { flags: 0x0000_0200, duration: 0 },
        0,
        false,
    ));
}

#[test]
fn sold_owner_notification_zeroes_bidder_guid_for_client_sold_message() {
    let packet = build_auction_owner_notification_packet(77, 500, 25, 42, true, 744, -15);
    let body = packet.body;

    assert_eq!(packet.opcode, SMSG_AUCTION_OWNER_NOTIFICATION);
    assert_eq!(body.len(), 28);
    assert_eq!(u32::from_le_bytes(body[0..4].try_into().unwrap()), 77);
    assert_eq!(u32::from_le_bytes(body[4..8].try_into().unwrap()), 500);
    assert_eq!(u32::from_le_bytes(body[8..12].try_into().unwrap()), 25);
    assert_eq!(u64::from_le_bytes(body[12..20].try_into().unwrap()), 0);
    assert_eq!(u32::from_le_bytes(body[20..24].try_into().unwrap()), 744);
    assert_eq!(i32::from_le_bytes(body[24..28].try_into().unwrap()), -15);
}

#[test]
fn won_bidder_notification_zeroes_bid_amount_for_client_won_message() {
    let packet = build_auction_bidder_notification_packet(7, 88, 42, 0, 25, 744, -15);
    let body = packet.body;

    assert_eq!(packet.opcode, SMSG_AUCTION_BIDDER_NOTIFICATION);
    assert_eq!(body.len(), 32);
    assert_eq!(u32::from_le_bytes(body[0..4].try_into().unwrap()), 7);
    assert_eq!(u32::from_le_bytes(body[4..8].try_into().unwrap()), 88);
    assert_eq!(u64::from_le_bytes(body[8..16].try_into().unwrap()), player_guid(42).raw);
    assert_eq!(u32::from_le_bytes(body[16..20].try_into().unwrap()), 0);
    assert_eq!(u32::from_le_bytes(body[20..24].try_into().unwrap()), 25);
    assert_eq!(u32::from_le_bytes(body[24..28].try_into().unwrap()), 744);
    assert_eq!(i32::from_le_bytes(body[28..32].try_into().unwrap()), -15);
}

#[test]
fn unsold_owner_notification_names_the_bidder() {
    let packet = build_auction_owner_notification_packet(77, 500, 25, 42, false, 744, -15);
    assert_eq!(u64_at(&packet.body, 12), 42);
}

#[test]
fn removed_notification_carries_auction_item_and_random_property() {
    let packet = build_auction_removed_notification_packet(5, 744, -2);
    assert_eq!(packet.opcode, SMSG_AUCTION_REMOVED_NOTIFICATION);
    assert_eq!(packet.body.len(), 12);
    assert_eq!(u32_at(&packet.body, 0), 5);
    assert_eq!(u32_at(&packet.body, 4), 744);
    assert_eq!(i32::from_le_bytes(packet.body[8..12].try_into().unwrap()), -2);
}

#[test]
fn min_outbid_is_five_percent_in_whole_hundreds_with_a_floor_of_one() {
    assert_eq!(auction_min_outbid(0), 0);
    assert_eq!(auction_min_outbid(1), 1);
    assert_eq!(auction_min_outbid(99), 1);
    assert_eq!(auction_min_outbid(100), 5);
    assert_eq!(auction_min_outbid(125), 5);
    assert_eq!(auction_min_outbid(1_000), 50);
    assert!(auction_min_outbid(u32::MAX) <= u32::MAX);
}

#[test]
fn time_left_saturates_and_stops_at_zero() {
    assert_eq!(auction_time_left_millis(106, 100), 6_000);
    assert_eq!(auction_time_left_millis(100, 106), 0);
    assert_eq!(auction_time_left_millis(u64::MAX, 0), u32::MAX);
    assert_eq!(auction_time_left_millis(100 + 4_294_967, 100), 4_294_967_000);
    assert_eq!(auction_time_left_millis(100 + 4_294_968, 100), u32::MAX);
}

#[test]
fn stored_number_lists_read_their_first_number_or_zero() {
    let info = build_auction_info_response(&record(1, 2, 3, 0, "  7 8", "oops 9"), 0);
    assert_eq!(info.charges, 7);
    assert_eq!(info.enchantment, 0);
    let info = build_auction_info_response(&record(1, 2, 3, 0, "", "+12"), 0);
    assert_eq!(info.charges, 0);
    assert_eq!(info.enchantment, 12);
    let info = build_auction_info_response(&record(1, 2, 3, 0, "-2147483648", "4294967296"), 0);
    assert_eq!(info.charges, 0x8000_0000);
    assert_eq!(info.enchantment, 0);
}

#[test]
fn listing_pages_hold_at_most_fifty_auctions() {
    let auctions: Vec<_> = (0..120).map(|id| record(id, 1, 5, 0, "0", "0")).collect();
    let infos = collect_bidder_auction_infos(&auctions, 5, &[], 0);
    assert_eq!(infos.len(), 120);
    let first = paged_auction_infos(infos.clone(), 0);
    assert_eq!(first.len(), 50);
    assert_eq!(first[0].id, 0);
    let last = paged_auction_infos(infos.clone(), 100);
    assert_eq!(last.len(), 20);
    assert_eq!(last[0].id, 100);
    assert!(paged_auction_infos(infos, 120).is_empty());
}

#[test]
fn bidder_listing_skips_unknown_outbid_ids_and_shows_each_auction_once() {
    let auctions = vec![record(1, 10, 7, 5, "0", "0"), record(2, 11, 8, 5, "0", "0"), record(3, 12, 7, 5, "0", "0")];
    let ids: Vec<_> = collect_bidder_auction_infos(&auctions, 7, &[2, 99, 3, 2], 0).iter().map(|a| a.id).collect();
    assert_eq!(ids, vec![2, 3, 1]);
}

#[test]
fn only_backpack_bag_slot_and_equipped_bag_positions_can_be_auctioned() {
    let item = |bag: u32, slot: u8| CharacterInventoryItem {
        bag,
        slot,
        item: 1,
        item_template: 2,
        count: 1,
        random_property_id: 0,
        durability: 0,
    };
    assert!(auction_source_position_supported(&item(0, 23)));
    assert!(auction_source_position_supported(&item(0, 19)));
    assert!(!auction_source_position_supported(&item(0, 5)));
    assert!(!auction_source_position_supported(&item(0, 39)));
    assert!(auction_source_position_supported(&item(19, 3)));
    assert!(!auction_source_position_supported(&item(63, 3)));
}

#[test]
fn timed_conjured_and_full_bags_cannot_be_listed() {
    let plain = MailAttachmentInstanceState { flags: 0, duration: 0 };
    assert!(auction_attachment_can_be_listed(plain, 0, false));
    assert!(!auction_attachment_can_be_listed(MailAttachmentInstanceState { flags: 0, duration: 60 }, 0, false));
    assert!(!auction_attachment_can_be_listed(plain, ITEM_FLAG_CONJURED, false));
    assert!(!auction_attachment_can_be_listed(plain, 0, true));
}

#[test]
fn listing_durations_are_two_eight_or_twenty_four_hours() {
    assert_eq!(auction_client_duration_secs(120), Some(7_200));
    assert_eq!(auction_client_duration_secs(480), Some(28_800));
    assert_eq!(auction_client_duration_secs(1_440), Some(86_400));
    assert_eq!(auction_client_duration_secs(121), None);
    assert_eq!(auction_client_duration_secs(u32::MAX), None);
}

#[test]
fn base_deposit_is_stack_sell_price_per_two_hours() {
    assert_eq!(auction_base_deposit(25, 3, 7_200), 75);
    assert_eq!(auction_base_deposit(25, 1, 28_800), 100);
    assert_eq!(auction_base_deposit(u32::MAX, 2, 7_200), u32::MAX);
}

#[test]
fn house_buckets_group_city_houses_by_side() {
    assert_eq!(auction_storage_bucket_for_house(3), AuctionHouseBucket::Alliance);
    assert_eq!(auction_storage_bucket_for_house(5), AuctionHouseBucket::Horde);
    assert_eq!(auction_storage_bucket_for_house(7), AuctionHouseBucket::Neutral);
    assert_eq!(
        auction_house_access_for_faction(4242, Some(FACTION_GROUP_MASK_ALLIANCE), false).entry_house_id,
        AUCTION_HOUSE_HUMAN
    );
    assert_eq!(auction_house_access_for_faction(4242, Some(8), false).entry_house_id, AUCTION_HOUSE_NEUTRAL);
}

fn sell_request(bid: u32, buyout: u32, minutes: u32, item_raw_guid: u64) -> AuctionSellItemRequest {
    AuctionSellItemRequest {
        auctioneer_raw_guid: 0xF130_0000_0000_0001,
        item_raw_guid,
        bid,
        buyout,
        duration_minutes: minutes,
    }
}

#[test]
fn sell_checks_drop_bad_requests_and_refuse_bad_items() {
    let inventory = vec![
        CharacterInventoryItem { bag: 0, slot: 23, item: 5, item_template: 744, count: 1, random_property_id: 0, durability: 0 },
        CharacterInventoryItem { bag: 0, slot: 4, item: 6, item_template: 745, count: 1, random_property_id: 0, durability: 0 },
    ];
    let guid = item_guid(5).raw;
    assert_eq!(check_auction_sell_request(&sell_request(10, 0, 121, guid), &inventory), AuctionSellCheck::Ignore);
    assert_eq!(check_auction_sell_request(&sell_request(0, 0, 120, guid), &inventory), AuctionSellCheck::Ignore);
    let mut not_creature = sell_request(10, 0, 120, guid);
    not_creature.auctioneer_raw_guid = 7;
    assert_eq!(check_auction_sell_request(&not_creature, &inventory), AuctionSellCheck::Ignore);
    match check_auction_sell_request(&sell_request(0x7FFF_FFFF, 0, 120, guid), &inventory) {
        AuctionSellCheck::Reject(result) => {
            assert_eq!(result.error_code, AUCTION_ERR_DATABASE);
            assert_eq!(result.action, AUCTION_ACTION_STARTED);
        }
        other => panic!("unexpected {other:?}"),
    }
    match check_auction_sell_request(&sell_request(10, 0, 120, 5), &inventory) {
        AuctionSellCheck::Reject(result) => {
            assert_eq!(result.error_code, AUCTION_ERR_INVENTORY);
            assert_eq!(result.inventory_error, Some(23));
        }
        other => panic!("unexpected {other:?}"),
    }
    match check_auction_sell_request(&sell_request(10, 0, 120, item_guid(6).raw), &inventory) {
        AuctionSellCheck::Reject(result) => assert_eq!(result.error_code, AUCTION_ERR_INVENTORY),
        other => panic!("unexpected {other:?}"),
    }
    match check_auction_sell_request(&sell_request(10, 0, 120, item_guid(9).raw), &inventory) {
        AuctionSellCheck::Reject(result) => assert_eq!(result.error_code, AUCTION_ERR_INVENTORY),
        other => panic!("unexpected {other:?}"),
    }
    assert_eq!(
        check_auction_sell_request(&sell_request(10, 20, 480, guid), &inventory),
        AuctionSellCheck::Proceed { source_index: 0, duration_secs: 28_800 }
    );
}

fn placed(previous_bidder: u32, current_bidder: u32, buyout: bool) -> PlacedAuctionBid {
    PlacedAuctionBid {
        auction_id: 8,
        house_id: 1,
        owner_guid: 3,
        previous_bidder_guid: previous_bidder,
        previous_bid: 100,
        previous_min_outbid: 5,
        current_bidder_guid: current_bidder,
        current_bid: 200,
        current_min_outbid: 10,
        completed_buyout: buyout,
        item_template: 744,
        item_random_property_id: 0,
        bidder_money: 1_000,
    }
}

#[test]
fn bids_are_checked_and_answered() {
    assert!(auction_bid_request_is_valid(1, 1));
    assert!(!auction_bid_request_is_valid(0, 1));
    assert!(!auction_bid_request_is_valid(1, 0));
    assert!(!auction_bid_request_is_valid(1, 0x7FFF_FFFF));

    match auction_bid_reply(8, &Ok(placed(0, 4, false))) {
        AuctionBidReply::Bid(result) => {
            assert_eq!(result.error_code, AUCTION_ERR_OK);
            assert_eq!(result.auction_id, 8);
            assert_eq!(result.bid_min_outbid, Some(5));
        }
        other => panic!("unexpected {other:?}"),
    }
    match auction_bid_reply(8, &Err(PlaceAuctionBidError::NotFound)) {
        AuctionBidReply::Bid(result) => {
            assert_eq!(result.error_code, AUCTION_ERR_BID_OWN);
            assert_eq!(result.auction_id, 0);
        }
        other => panic!("unexpected {other:?}"),
    }
    match auction_bid_reply(8, &Err(PlaceAuctionBidError::MissingItem)) {
        AuctionBidReply::Command(result) => {
            assert_eq!(result.action, AUCTION_ACTION_BID_PLACED);
            assert_eq!(result.error_code, AUCTION_ERR_INVENTORY);
        }
        other => panic!("unexpected {other:?}"),
    }
    match auction_bid_reply(
        8,
        &Err(PlaceAuctionBidError::HigherBid { current_bidder_guid: 9, current_bid: 300, current_min_outbid: 15 }),
    ) {
        AuctionBidReply::Bid(result) => {
            assert_eq!(result.error_code, AUCTION_ERR_HIGHER_BID);
            assert_eq!(result.higher_bidder, Some(ObjectGuid::from_raw(9)));
            assert_eq!(result.higher_bid, Some(300));
            assert_eq!(result.higher_min_outbid, Some(15));
        }
        other => panic!("unexpected {other:?}"),
    }
    match auction_bid_reply(8, &Err(PlaceAuctionBidError::BidIncrement)) {
        AuctionBidReply::Bid(result) => assert_eq!(result.error_code, AUCTION_ERR_BID_INCREMENT),
        other => panic!("unexpected {other:?}"),
    }
    assert_eq!(auction_bid_reply(8, &Err(PlaceAuctionBidError::NotEnoughMoney)), AuctionBidReply::Silent);
    assert_eq!(auction_bid_reply(8, &Err(PlaceAuctionBidError::BelowStartBid)), AuctionBidReply::Silent);
}

#[test]
fn accepted_bids_notify_outbid_bidder_owner_and_buyer() {
    let notices = auction_bid_notifications(&placed(2, 4, true));
    let (previous, packet) = notices.previous_bidder.expect("outbid notice");
    assert_eq!(previous, 2);
    assert_eq!(u32_at(&packet.body, 16), 100);
    assert_eq!(notices.owner.0, 3);
    assert_eq!(u64_at(&notices.owner.1.body, 12), 0);
    let won = notices.won.expect("won notice");
    assert_eq!(u64_at(&won.body, 8), 4);
    assert_eq!(u32_at(&won.body, 16), 0);

    let notices = auction_bid_notifications(&placed(4, 4, false));
    assert!(notices.previous_bidder.is_none());
    assert!(notices.won.is_none());
    assert_eq!(u64_at(&notices.owner.1.body, 12), 4);
    assert!(auction_bid_notifications(&placed(0, 4, false)).previous_bidder.is_none());
}

#[test]
fn removals_are_answered_by_outcome() {
    let removed = RemovedAuction { auction_id: 4, bidder_guid: 2, item_template: 744, item_random_property_id: 0, owner_money: 10 };
    let ok = auction_remove_reply(&Ok(removed)).unwrap();
    assert_eq!(ok.auction_id, 4);
    assert_eq!(ok.action, AUCTION_ACTION_REMOVED);
    assert_eq!(ok.error_code, AUCTION_ERR_OK);
    assert_eq!(auction_remove_reply(&Err(RemoveAuctionError::NotFoundOrNotOwner)).unwrap().error_code, AUCTION_ERR_DATABASE);
    assert_eq!(auction_remove_reply(&Err(RemoveAuctionError::MissingItem)).unwrap().error_code, AUCTION_ERR_INVENTORY);
    assert!(auction_remove_reply(&Err(RemoveAuctionError::NotEnoughMoney)).is_none());
}
