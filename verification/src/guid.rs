//! Object GUIDs: a 16-bit high type, an optional 24-bit entry, and a counter,
//! packed in 64 bits.
use vstd::prelude::*;

verus! {

pub const HIGHGUID_PLAYER: u16 = 0x0000;
pub const HIGHGUID_ITEM: u16 = 0x4000;
pub const HIGHGUID_GAMEOBJECT: u16 = 0xF110;
pub const HIGHGUID_TRANSPORT: u16 = 0xF120;
pub const HIGHGUID_UNIT: u16 = 0xF130;
pub const HIGHGUID_PET: u16 = 0xF140;
pub const HIGHGUID_CORPSE: u16 = 0xF500;

#[derive(Clone, Copy, Debug, PartialEq, Eq, Structural)]
pub struct ObjectGuid {
    pub raw: u64,
}

/// High types whose GUIDs carry a creature or object template entry.
pub open spec fn high_has_entry(high: u16) -> bool {
    high == HIGHGUID_UNIT || high == HIGHGUID_PET || high == HIGHGUID_GAMEOBJECT || high == HIGHGUID_TRANSPORT
}

impl ObjectGuid {
    pub fn from_raw(raw: u64) -> (guid: Self)
        ensures
            guid.raw == raw,
    {
        ObjectGuid { raw }
    }

    #[verifier::allow_in_spec]
    pub fn high(&self) -> u16
        returns
            (self.raw / 0x1_0000_0000_0000u64) as u16,
    {
        (self.raw / 0x1_0000_0000_0000u64) as u16
    }

    /// The counter: the low 24 bits for entry-carrying types, else the low 32.
    #[verifier::allow_in_spec]
    pub fn counter(&self) -> u32
        returns
            (if high_has_entry(self.high()) { (self.raw % 0x100_0000u64) as u32 } else { (self.raw % 0x1_0000_0000u64) as u32 }),
    {
        if high_has_entry_exec(self.high()) {
            (self.raw % 0x100_0000u64) as u32
        } else {
            (self.raw % 0x1_0000_0000u64) as u32
        }
    }

    /// The template entry of a creature or object GUID (0 otherwise).
    #[verifier::allow_in_spec]
    pub fn entry(&self) -> u32
        returns
            (if high_has_entry(self.high()) { ((self.raw / 0x100_0000u64) % 0x100_0000u64) as u32 } else { 0u32 }),
    {
        if high_has_entry_exec(self.high()) {
            ((self.raw / 0x100_0000u64) % 0x100_0000u64) as u32
        } else {
            0
        }
    }

    #[verifier::allow_in_spec]
    pub fn is_item(&self) -> bool
        returns
            self.high() == HIGHGUID_ITEM,
    {
        self.high() == HIGHGUID_ITEM
    }

    #[verifier::allow_in_spec]
    pub fn is_creature(&self) -> bool
        returns
            self.high() == HIGHGUID_UNIT,
    {
        self.high() == HIGHGUID_UNIT
    }

    #[verifier::allow_in_spec]
    pub fn is_player(&self) -> bool
        returns
            self.high() == HIGHGUID_PLAYER,
    {
        self.high() == HIGHGUID_PLAYER
    }

    #[verifier::allow_in_spec]
    pub fn is_game_object(&self) -> bool
        returns
            self.high() == HIGHGUID_GAMEOBJECT,
    {
        self.high() == HIGHGUID_GAMEOBJECT
    }
}

fn high_has_entry_exec(high: u16) -> (has: bool)
    ensures
        has == high_has_entry(high),
{
    high == HIGHGUID_UNIT || high == HIGHGUID_PET || high == HIGHGUID_GAMEOBJECT || high == HIGHGUID_TRANSPORT
}

/// The GUID of player character `counter`: the counter itself.
pub fn player_guid(counter: u32) -> (guid: ObjectGuid)
    ensures
        guid.raw == counter as u64,
{
    ObjectGuid { raw: counter as u64 }
}

/// The GUID of item instance `counter`.
pub fn item_guid(counter: u32) -> (guid: ObjectGuid)
    ensures
        guid.raw == (HIGHGUID_ITEM as u64) * 0x1_0000_0000_0000u64 + counter as u64,
{
    ObjectGuid { raw: (HIGHGUID_ITEM as u64) * 0x1_0000_0000_0000u64 + counter as u64 }
}

} // verus!
