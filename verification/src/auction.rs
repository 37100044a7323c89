//! Auction house rules: which house an auctioneer serves, what may be
//! listed, listing pages, bid outcomes and the notifications they send.
use vstd::prelude::*;
use crate::equipment::EQUIP_ERR_ITEM_NOT_FOUND;
use crate::guid::ObjectGuid;
use crate::inventory::{CharacterInventoryItem, INVENTORY_SLOT_BAG_0, is_backpack_item_slot, is_inventory_bag_slot};
use crate::text::{first_field_i32, first_field_u32, first_word, parse_i32_spec, parse_u32_spec};
use crate::wire::{OutboundWorldPacket, le_i32, le_u32, le_u64, push_i32, push_u32, push_u64};

verus! {

pub const AUCTION_CLIENT_PAGE_SIZE: usize = 50;
pub const MIN_AUCTION_TIME_SECS: u32 = 7200;
pub const AUCTION_HOUSE_HUMAN: u32 = 1;
pub const AUCTION_HOUSE_DWARF: u32 = 2;
pub const AUCTION_HOUSE_NIGHT_ELF: u32 = 3;
pub const AUCTION_HOUSE_UNDEAD: u32 = 4;
pub const AUCTION_HOUSE_TROLL: u32 = 5;
pub const AUCTION_HOUSE_ORC: u32 = 6;
pub const AUCTION_HOUSE_NEUTRAL: u32 = 7;
pub const ITEM_FLAG_CONJURED: u32 = 0x0000_0002;
pub const ITEM_DYNFLAG_BINDED: u32 = 0x0000_0001;
pub const MAX_MONEY_AMOUNT: u32 = 0x7FFF_FFFE;
pub const AUCTION_ACTION_STARTED: u32 = 0;
pub const AUCTION_ACTION_REMOVED: u32 = 1;
pub const AUCTION_ACTION_BID_PLACED: u32 = 2;
pub const AUCTION_ERR_OK: u32 = 0;
pub const AUCTION_ERR_INVENTORY: u32 = 1;
pub const AUCTION_ERR_DATABASE: u32 = 2;
pub const AUCTION_ERR_NOT_ENOUGH_MONEY: u32 = 3;
pub const AUCTION_ERR_HIGHER_BID: u32 = 5;
pub const AUCTION_ERR_BID_INCREMENT: u32 = 7;
pub const AUCTION_ERR_BID_OWN: u32 = 10;
pub const FACTION_GROUP_MASK_ALLIANCE: u32 = 2;
pub const FACTION_GROUP_MASK_HORDE: u32 = 4;
pub const SMSG_AUCTION_BIDDER_NOTIFICATION: u16 = 0x25E;
pub const SMSG_AUCTION_OWNER_NOTIFICATION: u16 = 0x25F;
pub const SMSG_AUCTION_REMOVED_NOTIFICATION: u16 = 0x28D;

// ---------------------------------------------------------------------------
// Listings

/// A stored auction.
#[derive(Clone, Debug)]
pub struct AuctionRecord {
    pub id: u32,
    pub house_id: u32,
    pub item_guid: u32,
    pub item_template: u32,
    pub item_count: u32,
    pub item_random_property_id: i32,
    pub item_owner: u32,
    pub buyout_price: u32,
    pub expire_time: u64,
    pub bidder: u32,
    pub current_bid: u32,
    pub start_bid: u32,
    pub deposit: u32,
    /// The item's spell charges, as a stored list of numbers.
    pub charges: String,
    /// The item's enchantments, as a stored list of numbers.
    pub enchantments: String,
}

/// One auction as the listing packets show it.
#[derive(Clone, Copy, Debug, PartialEq, Eq, Structural)]
pub struct AuctionInfoResponse {
    pub id: u32,
    pub item: u32,
    pub enchantment: u32,
    pub random_property_id: u32,
    pub suffix_factor: u32,
    pub count: u32,
    pub charges: u32,
    pub owner: ObjectGuid,
    pub start_bid: u32,
    pub min_outbid: u32,
    pub buyout: u32,
    pub time_left_millis: u32,
    pub bidder: ObjectGuid,
    pub current_bid: u32,
}

/// Milliseconds until `expire_time`, none once it passed, at most `u32::MAX`.
pub open spec fn time_left_spec(expire_time: u64, now_secs: u64) -> u32 {
    let left: int = if expire_time > now_secs { expire_time - now_secs } else { 0 };
    if left * 1000 > u32::MAX { u32::MAX } else { (left * 1000) as u32 }
}

pub fn auction_time_left_millis(expire_time: u64, now_secs: u64) -> (millis: u32)
    ensures
        millis == time_left_spec(expire_time, now_secs),
{
    let left = if expire_time > now_secs { expire_time - now_secs } else { 0 };
    if left > 4_294_967 {
        u32::MAX
    } else {
        (left * 1000) as u32
    }
}

/// The smallest raise over `current_bid`: 5 per full 100, at least 1, and
/// nothing before the first bid.
pub open spec fn min_outbid_spec(current_bid: u32) -> u32 {
    if current_bid == 0 {
        0
    } else if (current_bid / 100) * 5 < 1 {
        1
    } else {
        ((current_bid / 100) * 5) as u32
    }
}

pub fn auction_min_outbid(current_bid: u32) -> (outbid: u32)
    ensures
        outbid == min_outbid_spec(current_bid),
{
    if current_bid == 0 {
        return 0;
    }
    let outbid = (current_bid / 100) * 5;
    if outbid < 1 {
        1
    } else {
        outbid
    }
}

/// The first stored number of a text list, 0 when there is none.
pub open spec fn first_field_u32_spec(text: Seq<char>) -> u32 {
    match parse_u32_spec(first_word(text)) {
        Some(v) => v,
        None => 0,
    }
}

pub open spec fn first_field_i32_spec(text: Seq<char>) -> i32 {
    match parse_i32_spec(first_word(text)) {
        Some(v) => v,
        None => 0,
    }
}

pub open spec fn auction_info_spec(auction: AuctionRecord, now_secs: u64) -> AuctionInfoResponse {
    AuctionInfoResponse {
        id: auction.id,
        item: auction.item_template,
        enchantment: first_field_u32_spec(auction.enchantments@),
        random_property_id: auction.item_random_property_id as u32,
        suffix_factor: 0,
        count: auction.item_count,
        charges: first_field_i32_spec(auction.charges@) as u32,
        owner: ObjectGuid { raw: auction.item_owner as u64 },
        start_bid: auction.start_bid,
        min_outbid: min_outbid_spec(auction.current_bid),
        buyout: auction.buyout_price,
        time_left_millis: time_left_spec(auction.expire_time, now_secs),
        bidder: ObjectGuid { raw: auction.bidder as u64 },
        current_bid: auction.current_bid,
    }
}

/// An auction as the listings show it: its first enchantment and first
/// charge count, the raise it needs and the time it has left.
pub fn build_auction_info_response(auction: &AuctionRecord, now_secs: u64) -> (info: AuctionInfoResponse)
    ensures
        info == auction_info_spec(*auction, now_secs),
{
    let enchantment = first_field_u32(auction.enchantments.as_str());
    let charges = first_field_i32(auction.charges.as_str());
    AuctionInfoResponse {
        id: auction.id,
        item: auction.item_template,
        enchantment,
        random_property_id: auction.item_random_property_id as u32,
        suffix_factor: 0,
        count: auction.item_count,
        charges: charges as u32,
        owner: ObjectGuid { raw: auction.item_owner as u64 },
        start_bid: auction.start_bid,
        min_outbid: auction_min_outbid(auction.current_bid),
        buyout: auction.buyout_price,
        time_left_millis: auction_time_left_millis(auction.expire_time, now_secs),
        bidder: ObjectGuid { raw: auction.bidder as u64 },
        current_bid: auction.current_bid,
    }
}

/// The index of the first auction with id `id`.
pub open spec fn first_auction_with_id(auctions: Seq<AuctionRecord>, id: u32) -> Option<int>
    decreases auctions.len(),
{
    if auctions.len() == 0 {
        None
    } else {
        match first_auction_with_id(auctions.drop_last(), id) {
            Some(i) => Some(i),
            None => if auctions.last().id == id { Some(auctions.len() - 1) } else { None },
        }
    }
}

/// The auctions named by outbid notices, in notice order.
pub open spec fn outbid_candidates(auctions: Seq<AuctionRecord>, outbid_auction_ids: Seq<u32>) -> Seq<AuctionRecord>
    decreases outbid_auction_ids.len(),
{
    if outbid_auction_ids.len() == 0 {
        Seq::empty()
    } else {
        outbid_candidates(auctions, outbid_auction_ids.drop_last()) + match first_auction_with_id(
            auctions,
            outbid_auction_ids.last(),
        ) {
            Some(k) => seq![auctions[k]],
            None => Seq::empty(),
        }
    }
}

/// The auctions whose current bid is `bidder`'s, in stored order.
pub open spec fn bidder_candidates(auctions: Seq<AuctionRecord>, bidder: u32) -> Seq<AuctionRecord>
    decreases auctions.len(),
{
    if auctions.len() == 0 {
        Seq::empty()
    } else {
        bidder_candidates(auctions.drop_last(), bidder) + if auctions.last().bidder == bidder {
            seq![auctions.last()]
        } else {
            Seq::empty()
        }
    }
}

pub open spec fn has_auction_id(s: Seq<AuctionRecord>, id: u32) -> bool {
    exists|i: int| 0 <= i < s.len() && #[trigger] s[i].id == id
}

/// `s` keeping only the first auction of each id.
pub open spec fn first_of_each_id(s: Seq<AuctionRecord>) -> Seq<AuctionRecord>
    decreases s.len(),
{
    if s.len() == 0 {
        Seq::empty()
    } else {
        let kept = first_of_each_id(s.drop_last());
        if has_auction_id(kept, s.last().id) { kept } else { kept.push(s.last()) }
    }
}

pub open spec fn infos_of(s: Seq<AuctionRecord>, now_secs: u64) -> Seq<AuctionInfoResponse> {
    Seq::new(s.len(), |i: int| auction_info_spec(s[i], now_secs))
}

pub open spec fn ids_of(s: Seq<AuctionRecord>) -> Seq<u32> {
    Seq::new(s.len(), |i: int| s[i].id)
}

/// The bidder's listing: auctions named by its outbid notices first, then
/// those it holds the bid on, each auction once.
pub open spec fn bidder_listing_spec(
    auctions: Seq<AuctionRecord>,
    bidder_guid: u32,
    outbid_auction_ids: Seq<u32>,
    now_secs: u64,
) -> Seq<AuctionInfoResponse> {
    infos_of(
        first_of_each_id(outbid_candidates(auctions, outbid_auction_ids) + bidder_candidates(auctions, bidder_guid)),
        now_secs,
    )
}

proof fn lemma_first_auction_prefix(auctions: Seq<AuctionRecord>, id: u32, n: int)
    requires
        0 <= n <= auctions.len(),
        first_auction_with_id(auctions.take(n), id) is Some,
    ensures
        first_auction_with_id(auctions, id) == first_auction_with_id(auctions.take(n), id),
    decreases auctions.len() - n,
{
    if n < auctions.len() {
        assert(auctions.take(n + 1).drop_last() =~= auctions.take(n));
        lemma_first_auction_prefix(auctions, id, n + 1);
    } else {
        assert(auctions.take(n) =~= auctions);
    }
}

proof fn lemma_first_auction_in_range(auctions: Seq<AuctionRecord>, id: u32)
    ensures
        first_auction_with_id(auctions, id) matches Some(i) ==> 0 <= i < auctions.len() && auctions[i].id == id,
    decreases auctions.len(),
{
    if auctions.len() > 0 {
        lemma_first_auction_in_range(auctions.drop_last(), id);
    }
}

fn find_auction(auctions: &[AuctionRecord], id: u32) -> (index: Option<usize>)
    ensures
        match index {
            Some(i) => first_auction_with_id(auctions@, id) == Some(i as int),
            None => first_auction_with_id(auctions@, id) is None,
        },
{
    let mut i: usize = 0;
    while i < auctions.len()
        invariant
            i <= auctions.len(),
            first_auction_with_id(auctions@.take(i as int), id) is None,
        decreases auctions.len() - i,
    {
        assert(auctions@.take(i + 1).drop_last() =~= auctions@.take(i as int));
        if auctions[i].id == id {
            proof { lemma_first_auction_prefix(auctions@, id, (i + 1) as int); }
            return Some(i);
        }
        i += 1;
    }
    assert(auctions@.take(auctions@.len() as int) =~= auctions@);
    None
}

fn ids_contain(ids: &Vec<u32>, id: u32) -> (found: bool)
    ensures
        found == ids@.contains(id),
{
    let mut i: usize = 0;
    while i < ids.len()
        invariant
            i <= ids.len(),
            forall|j: int| 0 <= j < i ==> ids@[j] != id,
        decreases ids.len() - i,
    {
        if ids[i] == id {
            assert(ids@[i as int] == id);
            return true;
        }
        i += 1;
    }
    false
}

/// Adds `auction` to a listing unless an auction of its id is there.
fn add_candidate(
    seen: &mut Vec<u32>,
    matching: &mut Vec<AuctionInfoResponse>,
    auction: &AuctionRecord,
    now_secs: u64,
    Ghost(candidates): Ghost<Seq<AuctionRecord>>,
)
    requires
        old(seen)@ == ids_of(first_of_each_id(candidates)),
        old(matching)@ == infos_of(first_of_each_id(candidates), now_secs),
    ensures
        final(seen)@ == ids_of(first_of_each_id(candidates.push(*auction))),
        final(matching)@ == infos_of(first_of_each_id(candidates.push(*auction)), now_secs),
{
    let ghost kept = first_of_each_id(candidates);
    assert(candidates.push(*auction).drop_last() =~= candidates);
    assert(has_auction_id(kept, auction.id) == seen@.contains(auction.id)) by {
        if has_auction_id(kept, auction.id) {
            let i = choose|i: int| 0 <= i < kept.len() && #[trigger] kept[i].id == auction.id;
            assert(seen@[i] == auction.id);
        }
        if seen@.contains(auction.id) {
            let i = choose|i: int| 0 <= i < seen@.len() && #[trigger] seen@[i] == auction.id;
            assert(kept[i].id == auction.id);
        }
    }
    if !ids_contain(seen, auction.id) {
        seen.push(auction.id);
        matching.push(build_auction_info_response(auction, now_secs));
        assert(seen@ =~= ids_of(kept.push(*auction)));
        assert(matching@ =~= infos_of(kept.push(*auction), now_secs));
    }
}

/// The auctions a bidder sees in its bid listing.
pub fn collect_bidder_auction_infos(
    auctions: &[AuctionRecord],
    bidder_guid: u32,
    outbid_auction_ids: &[u32],
    now_secs: u64,
) -> (matching: Vec<AuctionInfoResponse>)
    ensures
        matching@ == bidder_listing_spec(auctions@, bidder_guid, outbid_auction_ids@, now_secs),
{
    let mut seen: Vec<u32> = Vec::new();
    let mut matching: Vec<AuctionInfoResponse> = Vec::new();
    assert(seen@ =~= ids_of(first_of_each_id(Seq::empty())));
    assert(matching@ =~= infos_of(first_of_each_id(Seq::empty()), now_secs));
    assert(outbid_candidates(auctions@, outbid_auction_ids@.take(0)) =~= Seq::empty());
    let mut i: usize = 0;
    while i < outbid_auction_ids.len()
        invariant
            i <= outbid_auction_ids.len(),
            seen@ == ids_of(first_of_each_id(outbid_candidates(auctions@, outbid_auction_ids@.take(i as int)))),
            matching@ == infos_of(first_of_each_id(outbid_candidates(auctions@, outbid_auction_ids@.take(i as int))), now_secs),
        decreases outbid_auction_ids.len() - i,
    {
        let ghost before = outbid_candidates(auctions@, outbid_auction_ids@.take(i as int));
        assert(outbid_auction_ids@.take(i + 1).drop_last() =~= outbid_auction_ids@.take(i as int));
        match find_auction(auctions, outbid_auction_ids[i]) {
            Some(k) => {
                proof { lemma_first_auction_in_range(auctions@, outbid_auction_ids@[i as int]); }
                add_candidate(&mut seen, &mut matching, &auctions[k], now_secs, Ghost(before));
                assert(outbid_candidates(auctions@, outbid_auction_ids@.take(i + 1)) =~= before.push(auctions@[k as int]));
            },
            None => {
                assert(outbid_candidates(auctions@, outbid_auction_ids@.take(i + 1)) =~= before);
            },
        }
        i += 1;
    }
    assert(outbid_auction_ids@.take(outbid_auction_ids@.len() as int) =~= outbid_auction_ids@);
    let ghost outbid = outbid_candidates(auctions@, outbid_auction_ids@);
    assert(bidder_candidates(auctions@.take(0), bidder_guid) =~= Seq::empty());
    assert(outbid + bidder_candidates(auctions@.take(0), bidder_guid) =~= outbid);
    let mut j: usize = 0;
    while j < auctions.len()
        invariant
            j <= auctions.len(),
            outbid == outbid_candidates(auctions@, outbid_auction_ids@),
            seen@ == ids_of(first_of_each_id(outbid + bidder_candidates(auctions@.take(j as int), bidder_guid))),
            matching@ == infos_of(first_of_each_id(outbid + bidder_candidates(auctions@.take(j as int), bidder_guid)), now_secs),
        decreases auctions.len() - j,
    {
        let ghost before = outbid + bidder_candidates(auctions@.take(j as int), bidder_guid);
        assert(auctions@.take(j + 1).drop_last() =~= auctions@.take(j as int));
        if auctions[j].bidder == bidder_guid {
            add_candidate(&mut seen, &mut matching, &auctions[j], now_secs, Ghost(before));
            assert(outbid + bidder_candidates(auctions@.take(j + 1), bidder_guid) =~= before.push(auctions@[j as int]));
        } else {
            assert(outbid + bidder_candidates(auctions@.take(j + 1), bidder_guid) =~= before);
        }
        j += 1;
    }
    assert(auctions@.take(auctions@.len() as int) =~= auctions@);
    matching
}

/// The page of a listing that starts at `list_from`: at most a page size of
/// auctions, none when it starts past the end.
pub open spec fn page_spec(auctions: Seq<AuctionInfoResponse>, list_from: u32) -> Seq<AuctionInfoResponse> {
    if list_from >= auctions.len() {
        Seq::empty()
    } else if list_from + AUCTION_CLIENT_PAGE_SIZE < auctions.len() {
        auctions.subrange(list_from as int, list_from + AUCTION_CLIENT_PAGE_SIZE)
    } else {
        auctions.subrange(list_from as int, auctions.len() as int)
    }
}

pub fn paged_auction_infos(auctions: Vec<AuctionInfoResponse>, list_from: u32) -> (page: Vec<AuctionInfoResponse>)
    ensures
        page@ == page_spec(auctions@, list_from),
{
    let start = list_from as usize;
    let mut page: Vec<AuctionInfoResponse> = Vec::new();
    if start >= auctions.len() {
        return page;
    }
    let end = if auctions.len() - start > AUCTION_CLIENT_PAGE_SIZE { start + AUCTION_CLIENT_PAGE_SIZE } else { auctions.len() };
    let mut i = start;
    while i < end
        invariant
            start <= i <= end <= auctions@.len(),
            page@ == auctions@.subrange(start as int, i as int),
        decreases end - i,
    {
        page.push(auctions[i]);
        assert(page@ =~= auctions@.subrange(start as int, i + 1));
        i += 1;
    }
    page
}

// ---------------------------------------------------------------------------
// What may be listed

/// The instance state of an item that goes into an auction or a mail.
#[derive(Clone, Copy, Debug, PartialEq, Eq, Structural)]
pub struct MailAttachmentInstanceState {
    pub flags: u32,
    pub duration: u32,
}

/// An item can be auctioned from the backpack, from an equipped bag slot,
/// or from inside an equipped bag.
pub fn auction_source_position_supported(source_item: &CharacterInventoryItem) -> (ok: bool)
    ensures
        ok == ((source_item.bag == INVENTORY_SLOT_BAG_0 as u32 && (is_backpack_item_slot(source_item.slot)
            || is_inventory_bag_slot(source_item.slot))) || is_inventory_bag_slot((source_item.bag % 256) as u8)),
{
    let bag = (source_item.bag % 256) as u8;
    (source_item.bag == INVENTORY_SLOT_BAG_0 as u32 && (is_backpack_item_slot(source_item.slot) || is_inventory_bag_slot(
        source_item.slot,
    ))) || is_inventory_bag_slot(bag)
}

/// Soulbound, timed and conjured items cannot be auctioned, nor bags with
/// something in them.
pub fn auction_attachment_can_be_listed(
    instance: MailAttachmentInstanceState,
    template_flags: u32,
    non_empty_container: bool,
) -> (ok: bool)
    ensures
        ok == (instance.flags & ITEM_DYNFLAG_BINDED == 0 && instance.duration == 0 && template_flags & ITEM_FLAG_CONJURED
            == 0 && !non_empty_container),
{
    instance.flags & ITEM_DYNFLAG_BINDED == 0 && instance.duration == 0 && template_flags & ITEM_FLAG_CONJURED == 0
        && !non_empty_container
}

/// The listing durations a client may ask for, in seconds before the
/// realm's time rate: 2, 8 or 24 hours.
pub open spec fn client_duration_spec(duration_minutes: u32) -> Option<u32> {
    let secs = duration_minutes * 60;
    if secs == MIN_AUCTION_TIME_SECS || secs == MIN_AUCTION_TIME_SECS * 4 || secs == MIN_AUCTION_TIME_SECS * 12 {
        Some(secs as u32)
    } else {
        None
    }
}

pub fn auction_client_duration_secs(duration_minutes: u32) -> (secs: Option<u32>)
    ensures
        secs == client_duration_spec(duration_minutes),
{
    if duration_minutes > u32::MAX / 60 {
        return None;
    }
    let secs = duration_minutes * 60;
    if secs == MIN_AUCTION_TIME_SECS || secs == MIN_AUCTION_TIME_SECS * 4 || secs == MIN_AUCTION_TIME_SECS * 12 {
        Some(secs)
    } else {
        None
    }
}

/// The deposit before the house's percentage: the stack's sell price
/// (saturating) for each 2 hours of listing.
pub fn auction_base_deposit(sell_price: u32, count: u32, duration_secs: u32) -> (deposit: u32)
    requires
        (if sell_price * count > u32::MAX { u32::MAX as int } else { sell_price * count }) * (duration_secs
            / MIN_AUCTION_TIME_SECS) <= u32::MAX,
    ensures
        deposit == (if sell_price * count > u32::MAX { u32::MAX as int } else { sell_price * count }) * (duration_secs
            / MIN_AUCTION_TIME_SECS),
{
    assert(sell_price as u64 * count as u64 <= 0xFFFF_FFFF * 0xFFFF_FFFF) by (nonlinear_arith)
        requires sell_price <= 0xFFFF_FFFFu32, count <= 0xFFFF_FFFFu32;
    let product = sell_price as u64 * count as u64;
    let stack: u32 = if product > u32::MAX as u64 { u32::MAX } else { product as u32 };
    stack * (duration_secs / MIN_AUCTION_TIME_SECS)
}

// ---------------------------------------------------------------------------
// Houses

/// Where a house's auctions are stored.
#[derive(Clone, Copy, Debug, PartialEq, Eq, Structural)]
pub enum AuctionHouseBucket {
    Alliance,
    Horde,
    Neutral,
    Global,
}

/// The house an auctioneer opens and the store it trades in.
#[derive(Clone, Copy, Debug, PartialEq, Eq, Structural)]
pub struct AuctionHouseAccess {
    pub entry_house_id: u32,
    pub storage_bucket: AuctionHouseBucket,
}

/// City houses of one side share that side's store; the rest trade in the
/// neutral store.
pub open spec fn bucket_spec(house_id: u32) -> AuctionHouseBucket {
    if house_id == AUCTION_HOUSE_HUMAN || house_id == AUCTION_HOUSE_DWARF || house_id == AUCTION_HOUSE_NIGHT_ELF {
        AuctionHouseBucket::Alliance
    } else if house_id == AUCTION_HOUSE_UNDEAD || house_id == AUCTION_HOUSE_TROLL || house_id == AUCTION_HOUSE_ORC {
        AuctionHouseBucket::Horde
    } else {
        AuctionHouseBucket::Neutral
    }
}

pub fn auction_storage_bucket_for_house(house_id: u32) -> (bucket: AuctionHouseBucket)
    ensures
        bucket == bucket_spec(house_id),
{
    if house_id == AUCTION_HOUSE_HUMAN || house_id == AUCTION_HOUSE_DWARF || house_id == AUCTION_HOUSE_NIGHT_ELF {
        AuctionHouseBucket::Alliance
    } else if house_id == AUCTION_HOUSE_UNDEAD || house_id == AUCTION_HOUSE_TROLL || house_id == AUCTION_HOUSE_ORC {
        AuctionHouseBucket::Horde
    } else {
        AuctionHouseBucket::Neutral
    }
}

/// The house of an auctioneer of faction template `faction`: the city
/// factions by table, other templates by their faction group (given as
/// `faction_group_mask` when the template is known), neutral otherwise.
pub open spec fn house_for_faction_spec(faction: u32, faction_group_mask: Option<u32>) -> u32 {
    if faction == 12 {
        AUCTION_HOUSE_HUMAN
    } else if faction == 29 {
        AUCTION_HOUSE_ORC
    } else if faction == 55 {
        AUCTION_HOUSE_DWARF
    } else if faction == 68 {
        AUCTION_HOUSE_UNDEAD
    } else if faction == 80 {
        AUCTION_HOUSE_NIGHT_ELF
    } else if faction == 104 {
        AUCTION_HOUSE_TROLL
    } else if faction == 120 || faction == 474 || faction == 855 {
        AUCTION_HOUSE_NEUTRAL
    } else if faction == 534 {
        AUCTION_HOUSE_DWARF
    } else {
        match faction_group_mask {
            Some(mask) => if mask & FACTION_GROUP_MASK_ALLIANCE != 0 {
                AUCTION_HOUSE_HUMAN
            } else if mask & FACTION_GROUP_MASK_HORDE != 0 {
                AUCTION_HOUSE_ORC
            } else {
                AUCTION_HOUSE_NEUTRAL
            },
            None => AUCTION_HOUSE_NEUTRAL,
        }
    }
}

/// The house an auctioneer opens: with two-sided trading every auctioneer
/// opens the one global market.
pub fn auction_house_access_for_faction(
    faction: u32,
    faction_group_mask: Option<u32>,
    allow_two_side_interaction_auction: bool,
) -> (access: AuctionHouseAccess)
    ensures
        access == if allow_two_side_interaction_auction {
            AuctionHouseAccess { entry_house_id: AUCTION_HOUSE_HUMAN, storage_bucket: AuctionHouseBucket::Global }
        } else {
            AuctionHouseAccess {
                entry_house_id: house_for_faction_spec(faction, faction_group_mask),
                storage_bucket: bucket_spec(house_for_faction_spec(faction, faction_group_mask)),
            }
        },
{
    if allow_two_side_interaction_auction {
        return AuctionHouseAccess { entry_house_id: AUCTION_HOUSE_HUMAN, storage_bucket: AuctionHouseBucket::Global };
    }
    let entry_house_id = if faction == 12 {
        AUCTION_HOUSE_HUMAN
    } else if faction == 29 {
        AUCTION_HOUSE_ORC
    } else if faction == 55 {
        AUCTION_HOUSE_DWARF
    } else if faction == 68 {
        AUCTION_HOUSE_UNDEAD
    } else if faction == 80 {
        AUCTION_HOUSE_NIGHT_ELF
    } else if faction == 104 {
        AUCTION_HOUSE_TROLL
    } else if faction == 120 || faction == 474 || faction == 855 {
        AUCTION_HOUSE_NEUTRAL
    } else if faction == 534 {
        AUCTION_HOUSE_DWARF
    } else {
        match faction_group_mask {
            Some(mask) => if mask & FACTION_GROUP_MASK_ALLIANCE != 0 {
                AUCTION_HOUSE_HUMAN
            } else if mask & FACTION_GROUP_MASK_HORDE != 0 {
                AUCTION_HOUSE_ORC
            } else {
                AUCTION_HOUSE_NEUTRAL
            },
            None => AUCTION_HOUSE_NEUTRAL,
        }
    };
    AuctionHouseAccess { entry_house_id, storage_bucket: auction_storage_bucket_for_house(entry_house_id) }
}

// ---------------------------------------------------------------------------
// Notifications

pub open spec fn bidder_notification_body(
    house_id: u32,
    auction_id: u32,
    bidder_guid: u32,
    bid_or_zero_if_won: u32,
    min_outbid: u32,
    item_template: u32,
    item_random_property_id: i32,
) -> Seq<u8> {
    le_u32(house_id) + le_u32(auction_id) + le_u64(bidder_guid as u64) + le_u32(bid_or_zero_if_won) + le_u32(min_outbid)
        + le_u32(item_template) + le_i32(item_random_property_id)
}

/// Tells a bidder it was outbid (with its bid) or won (with a zero bid).
pub fn build_auction_bidder_notification_packet(
    house_id: u32,
    auction_id: u32,
    bidder_guid: u32,
    bid_or_zero_if_won: u32,
    min_outbid: u32,
    item_template: u32,
    item_random_property_id: i32,
) -> (packet: OutboundWorldPacket)
    ensures
        packet.opcode == SMSG_AUCTION_BIDDER_NOTIFICATION,
        packet.body@ == bidder_notification_body(house_id, auction_id, bidder_guid, bid_or_zero_if_won, min_outbid,
            item_template, item_random_property_id),
{
    let mut body: Vec<u8> = Vec::new();
    push_u32(&mut body, house_id);
    push_u32(&mut body, auction_id);
    push_u64(&mut body, bidder_guid as u64);
    push_u32(&mut body, bid_or_zero_if_won);
    push_u32(&mut body, min_outbid);
    push_u32(&mut body, item_template);
    push_i32(&mut body, item_random_property_id);
    assert(body@ =~= bidder_notification_body(house_id, auction_id, bidder_guid, bid_or_zero_if_won, min_outbid,
        item_template, item_random_property_id));
    OutboundWorldPacket { opcode: SMSG_AUCTION_BIDDER_NOTIFICATION, body }
}

pub open spec fn owner_notification_body(
    auction_id: u32,
    bid: u32,
    min_outbid: u32,
    bidder_guid: u32,
    sold: bool,
    item_template: u32,
    item_random_property_id: i32,
) -> Seq<u8> {
    le_u32(auction_id) + le_u32(bid) + le_u32(min_outbid) + le_u64(if sold { 0 } else { bidder_guid as u64 })
        + le_u32(item_template) + le_i32(item_random_property_id)
}

/// Tells an owner of a new bid, or that the auction sold (no bidder GUID).
pub fn build_auction_owner_notification_packet(
    auction_id: u32,
    bid: u32,
    min_outbid: u32,
    bidder_guid: u32,
    sold: bool,
    item_template: u32,
    item_random_property_id: i32,
) -> (packet: OutboundWorldPacket)
    ensures
        packet.opcode == SMSG_AUCTION_OWNER_NOTIFICATION,
        packet.body@ == owner_notification_body(auction_id, bid, min_outbid, bidder_guid, sold, item_template,
            item_random_property_id),
{
    let mut body: Vec<u8> = Vec::new();
    push_u32(&mut body, auction_id);
    push_u32(&mut body, bid);
    push_u32(&mut body, min_outbid);
    push_u64(&mut body, if sold { 0 } else { bidder_guid as u64 });
    push_u32(&mut body, item_template);
    push_i32(&mut body, item_random_property_id);
    assert(body@ =~= owner_notification_body(auction_id, bid, min_outbid, bidder_guid, sold, item_template,
        item_random_property_id));
    OutboundWorldPacket { opcode: SMSG_AUCTION_OWNER_NOTIFICATION, body }
}

/// Tells the bidder that the owner took the auction down.
pub fn build_auction_removed_notification_packet(
    auction_id: u32,
    item_template: u32,
    item_random_property_id: i32,
) -> (packet: OutboundWorldPacket)
    ensures
        packet.opcode == SMSG_AUCTION_REMOVED_NOTIFICATION,
        packet.body@ == le_u32(auction_id) + le_u32(item_template) + le_i32(item_random_property_id),
{
    let mut body: Vec<u8> = Vec::new();
    push_u32(&mut body, auction_id);
    push_u32(&mut body, item_template);
    push_i32(&mut body, item_random_property_id);
    assert(body@ =~= le_u32(auction_id) + le_u32(item_template) + le_i32(item_random_property_id));
    OutboundWorldPacket { opcode: SMSG_AUCTION_REMOVED_NOTIFICATION, body }
}

// ---------------------------------------------------------------------------
// Requests and their answers

/// The answer to an auction command.
#[derive(Clone, Copy, Debug, PartialEq, Eq, Structural)]
pub struct AuctionCommandResult {
    pub auction_id: u32,
    pub action: u32,
    pub error_code: u32,
    pub inventory_error: Option<u32>,
}

pub open spec fn command_error(action: u32, error_code: u32, inventory_error: Option<u32>) -> AuctionCommandResult {
    AuctionCommandResult { auction_id: 0, action, error_code, inventory_error }
}

pub open spec fn item_not_found(action: u32) -> AuctionCommandResult {
    command_error(action, AUCTION_ERR_INVENTORY, Some(EQUIP_ERR_ITEM_NOT_FOUND as u32))
}

/// A request to list an item.
#[derive(Clone, Copy, Debug, PartialEq, Eq, Structural)]
pub struct AuctionSellItemRequest {
    pub auctioneer_raw_guid: u64,
    pub item_raw_guid: u64,
    pub bid: u32,
    pub buyout: u32,
    pub duration_minutes: u32,
}

/// What the checks before any stored state give for a listing request.
#[derive(Clone, Copy, Debug, PartialEq, Eq, Structural)]
pub enum AuctionSellCheck {
    /// The request is dropped without an answer.
    Ignore,
    /// The request is refused with this answer.
    Reject(AuctionCommandResult),
    /// The listing goes on with this inventory item and duration.
    Proceed { source_index: usize, duration_secs: u32 },
}

/// The index of the first inventory item with instance id `item`.
pub open spec fn inventory_index_of(inventory: Seq<CharacterInventoryItem>, item: u32) -> Option<int>
    decreases inventory.len(),
{
    if inventory.len() == 0 {
        None
    } else {
        match inventory_index_of(inventory.drop_last(), item) {
            Some(i) => Some(i),
            None => if inventory.last().item == item { Some(inventory.len() - 1) } else { None },
        }
    }
}

proof fn lemma_inventory_index_prefix(inventory: Seq<CharacterInventoryItem>, item: u32, n: int)
    requires
        0 <= n <= inventory.len(),
        inventory_index_of(inventory.take(n), item) is Some,
    ensures
        inventory_index_of(inventory, item) == inventory_index_of(inventory.take(n), item),
    decreases inventory.len() - n,
{
    if n < inventory.len() {
        assert(inventory.take(n + 1).drop_last() =~= inventory.take(n));
        lemma_inventory_index_prefix(inventory, item, n + 1);
    } else {
        assert(inventory.take(n) =~= inventory);
    }
}

pub fn find_inventory_item(inventory: &[CharacterInventoryItem], item: u32) -> (index: Option<usize>)
    ensures
        match index {
            Some(i) => inventory_index_of(inventory@, item) == Some(i as int) && i < inventory@.len()
                && inventory@[i as int].item == item,
            None => inventory_index_of(inventory@, item) is None,
        },
{
    let mut i: usize = 0;
    while i < inventory.len()
        invariant
            i <= inventory.len(),
            inventory_index_of(inventory@.take(i as int), item) is None,
        decreases inventory.len() - i,
    {
        assert(inventory@.take(i + 1).drop_last() =~= inventory@.take(i as int));
        if inventory[i].item == item {
            proof { lemma_inventory_index_prefix(inventory@, item, (i + 1) as int); }
            return Some(i);
        }
        i += 1;
    }
    assert(inventory@.take(inventory@.len() as int) =~= inventory@);
    None
}

pub open spec fn sell_check_spec(request: AuctionSellItemRequest, inventory: Seq<CharacterInventoryItem>) -> AuctionSellCheck {
    let auctioneer = ObjectGuid { raw: request.auctioneer_raw_guid };
    let item_guid = ObjectGuid { raw: request.item_raw_guid };
    match client_duration_spec(request.duration_minutes) {
        None => AuctionSellCheck::Ignore,
        Some(duration_secs) => if request.bid == 0 || !auctioneer.is_creature() {
            AuctionSellCheck::Ignore
        } else if request.bid > MAX_MONEY_AMOUNT || request.buyout > MAX_MONEY_AMOUNT {
            AuctionSellCheck::Reject(command_error(AUCTION_ACTION_STARTED, AUCTION_ERR_DATABASE, None))
        } else if !item_guid.is_item() {
            AuctionSellCheck::Reject(item_not_found(AUCTION_ACTION_STARTED))
        } else {
            match inventory_index_of(inventory, item_guid.counter()) {
                None => AuctionSellCheck::Reject(item_not_found(AUCTION_ACTION_STARTED)),
                Some(k) => if !((inventory[k].bag == INVENTORY_SLOT_BAG_0 as u32 && (is_backpack_item_slot(
                    inventory[k].slot,
                ) || is_inventory_bag_slot(inventory[k].slot))) || is_inventory_bag_slot(
                    (inventory[k].bag % 256) as u8,
                )) {
                    AuctionSellCheck::Reject(item_not_found(AUCTION_ACTION_STARTED))
                } else {
                    AuctionSellCheck::Proceed { source_index: k as usize, duration_secs }
                },
            }
        },
    }
}

/// The checks a listing request passes before the store is asked: a
/// valid duration, a first bid and a creature auctioneer (else it is
/// dropped), money amounts in range, and an item of the character's in a
/// place it can be listed from.
pub fn check_auction_sell_request(request: &AuctionSellItemRequest, inventory: &[CharacterInventoryItem]) -> (check: AuctionSellCheck)
    ensures
        check == sell_check_spec(*request, inventory@),
{
    let duration_secs = match auction_client_duration_secs(request.duration_minutes) {
        None => return AuctionSellCheck::Ignore,
        Some(d) => d,
    };
    let auctioneer = ObjectGuid::from_raw(request.auctioneer_raw_guid);
    if request.bid == 0 || !auctioneer.is_creature() {
        return AuctionSellCheck::Ignore;
    }
    if request.bid > MAX_MONEY_AMOUNT || request.buyout > MAX_MONEY_AMOUNT {
        return AuctionSellCheck::Reject(AuctionCommandResult {
            auction_id: 0,
            action: AUCTION_ACTION_STARTED,
            error_code: AUCTION_ERR_DATABASE,
            inventory_error: None,
        });
    }
    let not_found = AuctionCommandResult {
        auction_id: 0,
        action: AUCTION_ACTION_STARTED,
        error_code: AUCTION_ERR_INVENTORY,
        inventory_error: Some(EQUIP_ERR_ITEM_NOT_FOUND as u32),
    };
    let item_guid = ObjectGuid::from_raw(request.item_raw_guid);
    if !item_guid.is_item() {
        return AuctionSellCheck::Reject(not_found);
    }
    match find_inventory_item(inventory, item_guid.counter()) {
        None => AuctionSellCheck::Reject(not_found),
        Some(k) => {
            if !auction_source_position_supported(&inventory[k]) {
                AuctionSellCheck::Reject(not_found)
            } else {
                AuctionSellCheck::Proceed { source_index: k, duration_secs }
            }
        },
    }
}

/// A bid must name an auction and offer an amount of money in range.
pub fn auction_bid_request_is_valid(auction_id: u32, price: u32) -> (valid: bool)
    ensures
        valid == (auction_id != 0 && price != 0 && price <= MAX_MONEY_AMOUNT),
{
    auction_id != 0 && price != 0 && price <= MAX_MONEY_AMOUNT
}

/// Why the store refused a bid.
#[derive(Clone, Copy, Debug, PartialEq, Eq, Structural)]
pub enum PlaceAuctionBidError {
    NotFound,
    BidOwn,
    MissingItem,
    HigherBid { current_bidder_guid: u32, current_bid: u32, current_min_outbid: u32 },
    BidIncrement,
    NotEnoughMoney,
    BelowStartBid,
}

/// A bid the store accepted.
#[derive(Clone, Copy, Debug, PartialEq, Eq, Structural)]
pub struct PlacedAuctionBid {
    pub auction_id: u32,
    pub house_id: u32,
    pub owner_guid: u32,
    pub previous_bidder_guid: u32,
    pub previous_bid: u32,
    pub previous_min_outbid: u32,
    pub current_bidder_guid: u32,
    pub current_bid: u32,
    pub current_min_outbid: u32,
    pub completed_buyout: bool,
    pub item_template: u32,
    pub item_random_property_id: i32,
    pub bidder_money: u32,
}

/// The answer to a bid command.
#[derive(Clone, Copy, Debug, PartialEq, Eq, Structural)]
pub struct AuctionBidCommandResult {
    pub auction_id: u32,
    pub error_code: u32,
    pub bid_min_outbid: Option<u32>,
    pub higher_bidder: Option<ObjectGuid>,
    pub higher_bid: Option<u32>,
    pub higher_min_outbid: Option<u32>,
}

/// How the bidder is answered.
#[derive(Clone, Copy, Debug, PartialEq, Eq, Structural)]
pub enum AuctionBidReply {
    Command(AuctionCommandResult),
    Bid(AuctionBidCommandResult),
    Silent,
}

pub open spec fn bid_error(auction_id: u32, error_code: u32) -> AuctionBidCommandResult {
    AuctionBidCommandResult {
        auction_id,
        error_code,
        bid_min_outbid: None,
        higher_bidder: None,
        higher_bid: None,
        higher_min_outbid: None,
    }
}

pub open spec fn bid_reply_spec(request_auction_id: u32, outcome: Result<PlacedAuctionBid, PlaceAuctionBidError>) -> AuctionBidReply {
    match outcome {
        Ok(placed) => AuctionBidReply::Bid(AuctionBidCommandResult {
            auction_id: placed.auction_id,
            error_code: AUCTION_ERR_OK,
            bid_min_outbid: Some(placed.previous_min_outbid),
            higher_bidder: None,
            higher_bid: None,
            higher_min_outbid: None,
        }),
        Err(PlaceAuctionBidError::NotFound) | Err(PlaceAuctionBidError::BidOwn) => AuctionBidReply::Bid(
            bid_error(0, AUCTION_ERR_BID_OWN),
        ),
        Err(PlaceAuctionBidError::MissingItem) => AuctionBidReply::Command(item_not_found(AUCTION_ACTION_BID_PLACED)),
        Err(PlaceAuctionBidError::HigherBid { current_bidder_guid, current_bid, current_min_outbid }) => AuctionBidReply::Bid(
            AuctionBidCommandResult {
                auction_id: request_auction_id,
                error_code: AUCTION_ERR_HIGHER_BID,
                bid_min_outbid: None,
                higher_bidder: Some(ObjectGuid { raw: current_bidder_guid as u64 }),
                higher_bid: Some(current_bid),
                higher_min_outbid: Some(current_min_outbid),
            },
        ),
        Err(PlaceAuctionBidError::BidIncrement) => AuctionBidReply::Bid(bid_error(request_auction_id, AUCTION_ERR_BID_INCREMENT)),
        Err(PlaceAuctionBidError::NotEnoughMoney) | Err(PlaceAuctionBidError::BelowStartBid) => AuctionBidReply::Silent,
    }
}

/// The answer a bidder gets for what the store made of its bid.
pub fn auction_bid_reply(request_auction_id: u32, outcome: &Result<PlacedAuctionBid, PlaceAuctionBidError>) -> (reply: AuctionBidReply)
    ensures
        reply == bid_reply_spec(request_auction_id, *outcome),
{
    match outcome {
        Ok(placed) => AuctionBidReply::Bid(AuctionBidCommandResult {
            auction_id: placed.auction_id,
            error_code: AUCTION_ERR_OK,
            bid_min_outbid: Some(placed.previous_min_outbid),
            higher_bidder: None,
            higher_bid: None,
            higher_min_outbid: None,
        }),
        Err(PlaceAuctionBidError::NotFound) | Err(PlaceAuctionBidError::BidOwn) => AuctionBidReply::Bid(
            AuctionBidCommandResult {
                auction_id: 0,
                error_code: AUCTION_ERR_BID_OWN,
                bid_min_outbid: None,
                higher_bidder: None,
                higher_bid: None,
                higher_min_outbid: None,
            },
        ),
        Err(PlaceAuctionBidError::MissingItem) => AuctionBidReply::Command(AuctionCommandResult {
            auction_id: 0,
            action: AUCTION_ACTION_BID_PLACED,
            error_code: AUCTION_ERR_INVENTORY,
            inventory_error: Some(EQUIP_ERR_ITEM_NOT_FOUND as u32),
        }),
        Err(PlaceAuctionBidError::HigherBid { current_bidder_guid, current_bid, current_min_outbid }) => AuctionBidReply::Bid(
            AuctionBidCommandResult {
                auction_id: request_auction_id,
                error_code: AUCTION_ERR_HIGHER_BID,
                bid_min_outbid: None,
                higher_bidder: Some(ObjectGuid { raw: *current_bidder_guid as u64 }),
                higher_bid: Some(*current_bid),
                higher_min_outbid: Some(*current_min_outbid),
            },
        ),
        Err(PlaceAuctionBidError::BidIncrement) => AuctionBidReply::Bid(AuctionBidCommandResult {
            auction_id: request_auction_id,
            error_code: AUCTION_ERR_BID_INCREMENT,
            bid_min_outbid: None,
            higher_bidder: None,
            higher_bid: None,
            higher_min_outbid: None,
        }),
        Err(PlaceAuctionBidError::NotEnoughMoney) | Err(PlaceAuctionBidError::BelowStartBid) => AuctionBidReply::Silent,
    }
}

/// The notices an accepted bid sends: to the outbid previous bidder (with
/// its bid back), to the owner (sold on a buyout), and to the buyer when
/// the buyout won the auction.
pub struct AuctionBidNotifications {
    pub previous_bidder: Option<(u32, OutboundWorldPacket)>,
    pub owner: (u32, OutboundWorldPacket),
    pub won: Option<OutboundWorldPacket>,
}

pub fn auction_bid_notifications(placed: &PlacedAuctionBid) -> (notices: AuctionBidNotifications)
    ensures
        match notices.previous_bidder {
            Some((guid, packet)) => placed.previous_bidder_guid != 0 && placed.previous_bidder_guid
                != placed.current_bidder_guid && guid == placed.previous_bidder_guid && packet.opcode
                == SMSG_AUCTION_BIDDER_NOTIFICATION && packet.body@ == bidder_notification_body(placed.house_id,
                placed.auction_id, placed.previous_bidder_guid, placed.previous_bid, placed.previous_min_outbid,
                placed.item_template, placed.item_random_property_id),
            None => placed.previous_bidder_guid == 0 || placed.previous_bidder_guid == placed.current_bidder_guid,
        },
        notices.owner.0 == placed.owner_guid,
        notices.owner.1.opcode == SMSG_AUCTION_OWNER_NOTIFICATION,
        notices.owner.1.body@ == owner_notification_body(placed.auction_id, placed.current_bid,
            placed.current_min_outbid, placed.current_bidder_guid, placed.completed_buyout, placed.item_template,
            placed.item_random_property_id),
        match notices.won {
            Some(packet) => placed.completed_buyout && packet.opcode == SMSG_AUCTION_BIDDER_NOTIFICATION
                && packet.body@ == bidder_notification_body(placed.house_id, placed.auction_id,
                placed.current_bidder_guid, 0, placed.current_min_outbid, placed.item_template,
                placed.item_random_property_id),
            None => !placed.completed_buyout,
        },
{
    let previous_bidder = if placed.previous_bidder_guid != 0 && placed.previous_bidder_guid != placed.current_bidder_guid {
        Some((
            placed.previous_bidder_guid,
            build_auction_bidder_notification_packet(
                placed.house_id,
                placed.auction_id,
                placed.previous_bidder_guid,
                placed.previous_bid,
                placed.previous_min_outbid,
                placed.item_template,
                placed.item_random_property_id,
            ),
        ))
    } else {
        None
    };
    let owner = (
        placed.owner_guid,
        build_auction_owner_notification_packet(
            placed.auction_id,
            placed.current_bid,
            placed.current_min_outbid,
            placed.current_bidder_guid,
            placed.completed_buyout,
            placed.item_template,
            placed.item_random_property_id,
        ),
    );
    let won = if placed.completed_buyout {
        Some(
            build_auction_bidder_notification_packet(
                placed.house_id,
                placed.auction_id,
                placed.current_bidder_guid,
                0,
                placed.current_min_outbid,
                placed.item_template,
                placed.item_random_property_id,
            ),
        )
    } else {
        None
    };
    AuctionBidNotifications { previous_bidder, owner, won }
}

/// Why the store refused to take an auction down.
#[derive(Clone, Copy, Debug, PartialEq, Eq, Structural)]
pub enum RemoveAuctionError {
    NotFoundOrNotOwner,
    MissingItem,
    NotEnoughMoney,
}

/// An auction the store took down.
#[derive(Clone, Copy, Debug, PartialEq, Eq, Structural)]
pub struct RemovedAuction {
    pub auction_id: u32,
    pub bidder_guid: u32,
    pub item_template: u32,
    pub item_random_property_id: i32,
    pub owner_money: u32,
}

/// The answer an owner gets for taking an auction down (`None`: no answer).
pub fn auction_remove_reply(outcome: &Result<RemovedAuction, RemoveAuctionError>) -> (reply: Option<AuctionCommandResult>)
    ensures
        reply == match *outcome {
            Ok(removed) => Some(AuctionCommandResult {
                auction_id: removed.auction_id,
                action: AUCTION_ACTION_REMOVED,
                error_code: AUCTION_ERR_OK,
                inventory_error: None,
            }),
            Err(RemoveAuctionError::NotFoundOrNotOwner) => Some(command_error(AUCTION_ACTION_REMOVED, AUCTION_ERR_DATABASE, None)),
            Err(RemoveAuctionError::MissingItem) => Some(item_not_found(AUCTION_ACTION_REMOVED)),
            Err(RemoveAuctionError::NotEnoughMoney) => None,
        },
{
    match outcome {
        Ok(removed) => Some(AuctionCommandResult {
            auction_id: removed.auction_id,
            action: AUCTION_ACTION_REMOVED,
            error_code: AUCTION_ERR_OK,
            inventory_error: None,
        }),
        Err(RemoveAuctionError::NotFoundOrNotOwner) => Some(AuctionCommandResult {
            auction_id: 0,
            action: AUCTION_ACTION_REMOVED,
            error_code: AUCTION_ERR_DATABASE,
            inventory_error: None,
        }),
        Err(RemoveAuctionError::MissingItem) => Some(AuctionCommandResult {
            auction_id: 0,
            action: AUCTION_ACTION_REMOVED,
            error_code: AUCTION_ERR_INVENTORY,
            inventory_error: Some(EQUIP_ERR_ITEM_NOT_FOUND as u32),
        }),
        Err(RemoveAuctionError::NotEnoughMoney) => None,
    }
}

} // verus!
