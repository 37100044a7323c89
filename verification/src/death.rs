//! Player states kept in the player flags: death and resurrection (the
//! death states, and what releasing the spirit and coming back to life do
//! to health and flags) and resting in a tavern.
use vstd::prelude::*;

verus! {

pub const PLAYER_FLAGS_GHOST: u32 = 0x0000_0010;
pub const PLAYER_FLAGS_RESTING: u32 = 0x0000_0020;
pub const PLAYER_FLAGS_HIDE_HELM: u32 = 0x0000_0400;
pub const PLAYER_FLAGS_HIDE_CLOAK: u32 = 0x0000_0800;

/// Where a player is between dying and coming back.
#[derive(Clone, Copy, Debug, PartialEq, Eq, Structural)]
pub enum PlayerDeathState {
    Alive,
    JustDied,
    Corpse,
    /// A released spirit, walking as a ghost.
    Spirit,
}

/// Only a player lying as a corpse can release its spirit.
pub fn can_release_spirit(state: PlayerDeathState) -> (ok: bool)
    ensures
        ok == (state == PlayerDeathState::Corpse),
{
    match state {
        PlayerDeathState::Corpse => true,
        _ => false,
    }
}

/// Only a ghost can reclaim its corpse or be raised by a spirit healer.
pub fn can_be_resurrected(state: PlayerDeathState) -> (ok: bool)
    ensures
        ok == (state == PlayerDeathState::Spirit),
{
    match state {
        PlayerDeathState::Spirit => true,
        _ => false,
    }
}

/// The player flags of a released spirit: the ghost flag set.
pub open spec fn ghost_flags_spec(flags: u32) -> u32 {
    flags | PLAYER_FLAGS_GHOST
}

/// The player flags after resurrection: the ghost flag cleared.
pub open spec fn living_flags_spec(flags: u32) -> u32 {
    flags & !PLAYER_FLAGS_GHOST
}

pub fn ghost_player_flags(flags: u32) -> (marked: u32)
    ensures
        marked == ghost_flags_spec(flags),
{
    flags | PLAYER_FLAGS_GHOST
}

pub fn living_player_flags(flags: u32) -> (living: u32)
    ensures
        living == living_flags_spec(flags),
{
    flags & !PLAYER_FLAGS_GHOST
}

/// The flags a corpse keeps when it turns to bones: helm and cloak shown.
pub fn bones_player_flags(flags: u32) -> (bones: u32)
    ensures
        bones == flags & !(PLAYER_FLAGS_HIDE_HELM | PLAYER_FLAGS_HIDE_CLOAK),
{
    flags & !(PLAYER_FLAGS_HIDE_HELM | PLAYER_FLAGS_HIDE_CLOAK)
}

/// The health a resurrected player comes back with: half of the maximum
/// (taken as at least 1), and at least 1.
pub fn resurrected_health(max_health: u32) -> (health: u32)
    ensures
        health == if (if max_health > 1 { max_health } else { 1 }) / 2 > 1 {
            (if max_health > 1 { max_health } else { 1 }) / 2
        } else {
            1
        },
        1 <= health <= if max_health > 1 { max_health } else { 1 },
{
    let max = if max_health > 1 { max_health } else { 1 };
    let half = max / 2;
    if half > 1 { half } else { 1 }
}

/// Entering a tavern's area trigger starts resting: the new flags, or
/// nothing when the trigger is no tavern or the player rests already.
pub fn tavern_rest_flags(is_tavern: bool, flags: u32) -> (rested: Option<u32>)
    ensures
        rested == if !is_tavern || flags & PLAYER_FLAGS_RESTING != 0 {
            None
        } else {
            Some(flags | PLAYER_FLAGS_RESTING)
        },
{
    if !is_tavern || flags & PLAYER_FLAGS_RESTING != 0 {
        None
    } else {
        Some(flags | PLAYER_FLAGS_RESTING)
    }
}

/// The rest start time the client is sent: the clock in seconds, capped
/// at `u32::MAX`.
pub fn rest_start_secs(now_secs: u64) -> (secs: u32)
    ensures
        secs == if now_secs > u32::MAX { u32::MAX } else { now_secs as u32 },
{
    if now_secs > u32::MAX as u64 { u32::MAX } else { now_secs as u32 }
}

} // verus!
