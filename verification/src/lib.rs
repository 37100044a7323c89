//! Verified game rules of a World of Warcraft 1.12 world server: inventory
//! storage planning, quest eligibility and quest log bookkeeping, vendor stock
//! and buyback, loot distribution, auctions, reputation and wire formats.
use vstd::prelude::*;

pub mod auction;
pub mod auction_search;
pub mod bank;
pub mod character;
pub mod death;
pub mod equipment;
pub mod gossip;
pub mod gm;
pub mod guid;
pub mod inventory;
pub mod laws;
pub mod loot;
pub mod mail;
pub mod moves;
pub mod navigation;
pub mod packets;
pub mod quest;
pub mod quest_progress;
pub mod questgiver;
pub mod reputation;
pub mod sorting;
pub mod taxi;
pub mod text;
pub mod trainer;
pub mod trade;
pub mod vendor;
pub mod wire;

verus! {

/// Largest player level reachable on this realm.
pub const DEFAULT_MAX_PLAYER_LEVEL: u8 = 60;

} // verus!
