//! Browsing an auction house: which auctions a search shows and the page
//! of them the client gets.
use vstd::prelude::*;
use vstd::string::StrSliceExecFns;
use crate::auction::{
    auction_house_access_for_faction, bucket_spec, house_for_faction_spec, AuctionHouseAccess, AuctionHouseBucket,
    AUCTION_HOUSE_HUMAN, AUCTION_HOUSE_NEUTRAL, build_auction_info_response, infos_of, page_spec, paged_auction_infos, AuctionInfoResponse, AuctionRecord,
};
use crate::character::{ActiveCharacter, CharacterReputation, CharacterSkill};
use crate::equipment::{can_use_item_spec, character_can_use_item_template};
use crate::guid::{player_guid, ObjectGuid};
use crate::inventory::ItemTemplateQuery;
use crate::text::chars_of;

verus! {

pub const INVTYPE_CHEST: u32 = 5;
pub const INVTYPE_ROBE: u32 = 20;
pub const UNIT_NPC_FLAG_AUCTIONEER: u32 = 0x0000_1000;

/// What the lower-case form of a text is: `str::to_lowercase` maps each
/// character by the Unicode lower-case tables.
pub uninterp spec fn lowercase_of(text: Seq<char>) -> Seq<char>;

/// `str::to_lowercase`; its result is taken as the named lower-case form of
/// the text, with nothing more said of it.
#[verifier::external_body]
fn lowercase(text: &str) -> (lower: String)
    ensures
        lower@ == lowercase_of(text@),
{
    text.to_lowercase()
}

/// An auction search: filters left at their "any" value (`u32::MAX`, or 0
/// for the levels and the usable flag) do not narrow it.
#[derive(Clone, Debug)]
pub struct AuctionListItemsRequest {
    pub auctioneer: ObjectGuid,
    pub list_from: u32,
    pub searched_name: String,
    pub level_min: u8,
    pub level_max: u8,
    pub inventory_type: u32,
    pub item_class: u32,
    pub item_subclass: u32,
    pub quality: u32,
    pub usable: u8,
}

/// Whether `needle` occurs as a run of consecutive characters in `hay`.
pub open spec fn contains_run(hay: Seq<char>, needle: Seq<char>) -> bool {
    exists|i: int| 0 <= i && i + needle.len() <= hay.len() && #[trigger] hay.subrange(i, i + needle.len()) == needle
}

fn run_at(hay: &Vec<char>, needle: &Vec<char>, at: usize) -> (found: bool)
    requires
        at + needle@.len() <= hay@.len(),
    ensures
        found == (hay@.subrange(at as int, at + needle@.len()) == needle@),
{
    let n = hay.len();
    let mut k: usize = 0;
    while k < needle.len()
        invariant
            k <= needle@.len(),
            n == hay@.len(),
            at + needle@.len() <= n,
            forall|j: int| 0 <= j < k ==> hay@[at + j] == needle@[j],
        decreases needle@.len() - k,
    {
        if hay[at + k] != needle[k] {
            assert(hay@.subrange(at as int, at + needle@.len())[k as int] != needle@[k as int]);
            return false;
        }
        k += 1;
    }
    assert(hay@.subrange(at as int, at + needle@.len()) =~= needle@);
    true
}

fn contains_chars(hay: &Vec<char>, needle: &Vec<char>) -> (found: bool)
    ensures
        found == contains_run(hay@, needle@),
{
    if needle.len() > hay.len() {
        return false;
    }
    let last = hay.len() - needle.len();
    let mut at: usize = 0;
    loop
        invariant
            last + needle@.len() == hay@.len(),
            at <= last,
            forall|i: int| 0 <= i < at ==> #[trigger] hay@.subrange(i, i + needle@.len()) != needle@,
        decreases last - at,
    {
        if run_at(hay, needle, at) {
            return true;
        }
        if at == last {
            assert forall|i: int| 0 <= i && i + needle@.len() <= hay@.len() implies #[trigger] hay@.subrange(i, i + needle@.len())
                != needle@ by {}
            return false;
        }
        at += 1;
    }
}

/// The filters of a search other than the name: class, subclass,
/// inventory type (a chest search also finds robes), lowest quality, the
/// level range (checked when a lowest level is given) and, when asked,
/// whether the character can use the item (`use_error` is the verdict of
/// the usability rules, 0 when it can).
pub open spec fn filters_match_spec(request: AuctionListItemsRequest, template: ItemTemplateQuery, use_error: u8) -> bool {
    &&& request.item_class == u32::MAX || template.class == request.item_class
    &&& request.item_subclass == u32::MAX || template.subclass == request.item_subclass
    &&& request.inventory_type == u32::MAX || template.inventory_type == request.inventory_type || (request.inventory_type
        == INVTYPE_CHEST && template.inventory_type == INVTYPE_ROBE)
    &&& request.quality == u32::MAX || template.quality >= request.quality
    &&& request.level_min == 0 || (template.required_level >= request.level_min as u32 && (request.level_max == 0
        || template.required_level <= request.level_max as u32))
    &&& request.usable == 0 || use_error == 0
}

/// Whether an item matches a search: its filters, and `search_name` (the
/// lower-cased searched name) occurring in the lower-cased item name.
pub open spec fn matches_search_spec(
    character: ActiveCharacter,
    skills: Seq<CharacterSkill>,
    active_spells: Seq<u32>,
    reputations: Seq<CharacterReputation>,
    template: ItemTemplateQuery,
    template_name: Seq<char>,
    request: AuctionListItemsRequest,
    search_name: Seq<char>,
) -> bool {
    filters_match_spec(
        request,
        template,
        can_use_item_spec(character.level, character.race, character.class, template, skills, active_spells, reputations),
    ) && (search_name.len() == 0 || contains_run(lowercase_of(template_name), search_name))
}

/// Whether an auctioned item matches a search.
pub fn auction_matches_search(
    character: &ActiveCharacter,
    skills: &[CharacterSkill],
    active_spells: &[u32],
    reputations: &[CharacterReputation],
    template: &ItemTemplateQuery,
    template_name: &str,
    request: &AuctionListItemsRequest,
    search_name: &str,
) -> (matches: bool)
    ensures
        matches == matches_search_spec(
            *character,
            skills@,
            active_spells@,
            reputations@,
            *template,
            template_name@,
            *request,
            search_name@,
        ),
{
    if request.item_class != u32::MAX && template.class != request.item_class {
        return false;
    }
    if request.item_subclass != u32::MAX && template.subclass != request.item_subclass {
        return false;
    }
    if request.inventory_type != u32::MAX && template.inventory_type != request.inventory_type && (request.inventory_type
        != INVTYPE_CHEST || template.inventory_type != INVTYPE_ROBE) {
        return false;
    }
    if request.quality != u32::MAX && template.quality < request.quality {
        return false;
    }
    if request.level_min != 0 && (template.required_level < request.level_min as u32 || (request.level_max != 0
        && template.required_level > request.level_max as u32)) {
        return false;
    }
    if request.usable != 0 && character_can_use_item_template(
        character.level,
        character.race,
        character.class,
        template,
        skills,
        active_spells,
        reputations,
    ) != 0 {
        return false;
    }
    if search_name.unicode_len() == 0 {
        return true;
    }
    let lower = lowercase(template_name);
    lowered_name_matches(lower.as_str(), search_name)
}

/// Whether an item whose lower-cased name is `lowered_name` matches the
/// searched name `search_name`: an empty search matches every name, else
/// the searched text must occur in the name.
pub fn lowered_name_matches(lowered_name: &str, search_name: &str) -> (matches: bool)
    ensures
        matches == (search_name@.len() == 0 || contains_run(lowered_name@, search_name@)),
{
    let needle = chars_of(search_name);
    if needle.len() == 0 {
        return true;
    }
    let hay = chars_of(lowered_name);
    contains_chars(&hay, &needle)
}

/// The item an auction holds, as the search reads it: its template and
/// name.
#[derive(Clone, Debug)]
pub struct AuctionSearchItem {
    pub template: ItemTemplateQuery,
    pub name: String,
}

/// The auctions a search shows, in the order given: those whose item is
/// known (`items[i]` is the item of `auctions[i]`) and matches.
pub open spec fn search_hits(
    character: ActiveCharacter,
    skills: Seq<CharacterSkill>,
    active_spells: Seq<u32>,
    reputations: Seq<CharacterReputation>,
    auctions: Seq<AuctionRecord>,
    items: Seq<Option<AuctionSearchItem>>,
    request: AuctionListItemsRequest,
    search_name: Seq<char>,
    n: int,
) -> Seq<AuctionRecord>
    decreases n,
{
    if n <= 0 {
        Seq::empty()
    } else {
        search_hits(character, skills, active_spells, reputations, auctions, items, request, search_name, n - 1)
            + match items[n - 1] {
            Some(item) => if matches_search_spec(
                character,
                skills,
                active_spells,
                reputations,
                item.template,
                item.name@,
                request,
                search_name,
            ) {
                seq![auctions[n - 1]]
            } else {
                Seq::empty()
            },
            None => Seq::empty(),
        }
    }
}

/// The answer to a search: how many auctions match, and the page of them
/// that the request asks for.
pub struct AuctionListResult {
    pub total_count: u32,
    pub auctions: Vec<AuctionInfoResponse>,
}

/// Runs a search over the auctions of one house: the matches (the name
/// compared lower-cased), counted, and the requested page of them as the
/// listing shows them at `now_secs`.
pub fn auction_list_result(
    character: &ActiveCharacter,
    skills: &[CharacterSkill],
    active_spells: &[u32],
    reputations: &[CharacterReputation],
    auctions: &[AuctionRecord],
    items: &[Option<AuctionSearchItem>],
    request: &AuctionListItemsRequest,
    now_secs: u64,
) -> (result: AuctionListResult)
    requires
        items@.len() == auctions@.len(),
        auctions@.len() <= u32::MAX,
    ensures
        ({
            let hits = search_hits(
                *character,
                skills@,
                active_spells@,
                reputations@,
                auctions@,
                items@,
                *request,
                lowercase_of(request.searched_name@),
                auctions@.len() as int,
            );
            &&& result.total_count == hits.len()
            &&& result.auctions@ == page_spec(infos_of(hits, now_secs), request.list_from)
        }),
{
    let search_name = lowercase(request.searched_name.as_str());
    let ghost needle = lowercase_of(request.searched_name@);
    let ghost mut hits: Seq<AuctionRecord> = Seq::empty();
    let mut matching: Vec<AuctionInfoResponse> = Vec::new();
    let mut i: usize = 0;
    while i < auctions.len()
        invariant
            i <= auctions@.len(),
            items@.len() == auctions@.len(),
            auctions@.len() <= u32::MAX,
            search_name@ == needle,
            hits == search_hits(*character, skills@, active_spells@, reputations@, auctions@, items@, *request, needle, i as int),
            hits.len() <= i,
            matching@ == infos_of(hits, now_secs),
        decreases auctions@.len() - i,
    {
        match &items[i] {
            Some(item) => {
                if auction_matches_search(
                    character,
                    skills,
                    active_spells,
                    reputations,
                    &item.template,
                    item.name.as_str(),
                    request,
                    search_name.as_str(),
                ) {
                    matching.push(build_auction_info_response(&auctions[i], now_secs));
                    proof {
                        hits = hits.push(auctions@[i as int]);
                    }
                    assert(matching@ =~= infos_of(hits, now_secs));
                }
            },
            None => {},
        }
        i += 1;
    }
    let total_count = matching.len() as u32;
    AuctionListResult { total_count, auctions: paged_auction_infos(matching, request.list_from) }
}

// ---------------------------------------------------------------------------
// Which house

/// An auctioneer as the character finds it: its npc flags, its faction
/// template and that template's faction group (when the template is
/// known), and whether it stands within interaction reach.
#[derive(Clone, Copy, Debug, PartialEq, Eq, Structural)]
pub struct AuctioneerView {
    pub npc_flags: u32,
    pub faction: u32,
    pub faction_group_mask: Option<u32>,
    pub within_reach: bool,
}

pub open spec fn house_access_spec(
    character_guid: u32,
    gm_mode: bool,
    allow_two_side_interaction_auction: bool,
    auctioneer: ObjectGuid,
    creature: Option<AuctioneerView>,
) -> Option<AuctionHouseAccess> {
    if auctioneer.raw == character_guid as u64 {
        if gm_mode {
            Some(AuctionHouseAccess {
                entry_house_id: AUCTION_HOUSE_NEUTRAL,
                storage_bucket: if allow_two_side_interaction_auction {
                    AuctionHouseBucket::Global
                } else {
                    AuctionHouseBucket::Neutral
                },
            })
        } else {
            None
        }
    } else if !auctioneer.is_creature() {
        None
    } else {
        match creature {
            None => None,
            Some(c) => if c.npc_flags & UNIT_NPC_FLAG_AUCTIONEER == 0 || !c.within_reach {
                None
            } else if allow_two_side_interaction_auction {
                Some(AuctionHouseAccess { entry_house_id: AUCTION_HOUSE_HUMAN, storage_bucket: AuctionHouseBucket::Global })
            } else {
                Some(AuctionHouseAccess {
                    entry_house_id: house_for_faction_spec(c.faction, c.faction_group_mask),
                    storage_bucket: bucket_spec(house_for_faction_spec(c.faction, c.faction_group_mask)),
                })
            },
        }
    }
}

/// The house an auctioneer opens for the character, if it opens one: a
/// game master in GM mode may open the neutral house on themself; other
/// auctioneers must be creatures flagged as auctioneers within reach
/// (`creature` is what the map knows of it).
pub fn checked_auction_house_access(
    character_guid: u32,
    gm_mode: bool,
    allow_two_side_interaction_auction: bool,
    auctioneer: ObjectGuid,
    creature: Option<AuctioneerView>,
) -> (access: Option<AuctionHouseAccess>)
    ensures
        access == house_access_spec(character_guid, gm_mode, allow_two_side_interaction_auction, auctioneer, creature),
{
    if auctioneer == player_guid(character_guid) {
        if !gm_mode {
            return None;
        }
        return Some(AuctionHouseAccess {
            entry_house_id: AUCTION_HOUSE_NEUTRAL,
            storage_bucket: if allow_two_side_interaction_auction {
                AuctionHouseBucket::Global
            } else {
                AuctionHouseBucket::Neutral
            },
        });
    }
    if !auctioneer.is_creature() {
        return None;
    }
    let c = match creature {
        None => return None,
        Some(c) => c,
    };
    if c.npc_flags & UNIT_NPC_FLAG_AUCTIONEER == 0 || !c.within_reach {
        return None;
    }
    Some(auction_house_access_for_faction(c.faction, c.faction_group_mask, allow_two_side_interaction_auction))
}

} // verus!
