//! Reading the answers of the native navigation-mesh and terrain queries:
//! which status a result code stands for and which results are usable.
use vstd::prelude::*;

verus! {

pub const MAX_NATIVE_MMAP_PATH_POINTS: usize = 74;
pub const NATIVE_PATHFIND_NORMAL: i32 = 0x0001;
pub const NATIVE_PATHFIND_INCOMPLETE: i32 = 0x0004;
pub const NATIVE_PATHFIND_NOPATH: i32 = 0x0008;
pub const MAX_NUMBER_OF_GRIDS: u32 = 64;

/// How a path query ended.
#[derive(Clone, Copy, Debug, PartialEq, Eq, Structural)]
pub enum NativeMmapPathStatus {
    Normal,
    Incomplete,
    NoPath,
    Unavailable,
    InvalidInput,
    NativeError,
}

/// The status a negative result code of the path finder stands for: codes
/// for missing data mean unavailable, codes for bad arguments invalid input.
pub open spec fn status_from_error_spec(error: i32) -> NativeMmapPathStatus {
    if error == -20 || error == -21 || error == -22 || error == -23 || error == -3 || error == -4 || error == -5
        || error == -6 {
        NativeMmapPathStatus::Unavailable
    } else if error == -1 || error == -7 || error == -8 || error == -9 {
        NativeMmapPathStatus::InvalidInput
    } else {
        NativeMmapPathStatus::NativeError
    }
}

pub fn native_mmap_status_from_error(error: i32) -> (status: NativeMmapPathStatus)
    ensures
        status == status_from_error_spec(error),
{
    if error == -20 || error == -21 || error == -22 || error == -23 || error == -3 || error == -4 || error == -5
        || error == -6 {
        NativeMmapPathStatus::Unavailable
    } else if error == -1 || error == -7 || error == -8 || error == -9 {
        NativeMmapPathStatus::InvalidInput
    } else {
        NativeMmapPathStatus::NativeError
    }
}

/// Map tiles form a 64 by 64 grid.
pub fn native_mmap_tile_is_valid(tile: (u32, u32)) -> (valid: bool)
    ensures
        valid == (tile.0 < MAX_NUMBER_OF_GRIDS && tile.1 < MAX_NUMBER_OF_GRIDS),
{
    tile.0 < MAX_NUMBER_OF_GRIDS && tile.1 < MAX_NUMBER_OF_GRIDS
}

/// The navigation area flags a path may use and must avoid.
#[derive(Clone, Copy, Debug, PartialEq, Eq, Structural)]
pub struct NativeMmapPathFilter {
    pub include_flags: u16,
    pub exclude_flags: u16,
}

pub const NAV_GROUND: u16 = 0x01;
pub const NAV_WATER: u16 = 0x04;
pub const NAV_MAGMA_SLIME: u16 = 0x08;

impl NativeMmapPathFilter {
    /// Walk on ground, avoid nothing.
    pub fn ground() -> (filter: Self)
        ensures
            filter.include_flags == NAV_GROUND,
            filter.exclude_flags == 0,
    {
        NativeMmapPathFilter { include_flags: NAV_GROUND, exclude_flags: 0 }
    }
}

/// Whether the first `count` points of the buffer are finite, where
/// `finite[i]` says whether the x, y and z of point `i` are finite.
pub open spec fn prefix_finite(finite: Seq<bool>, count: int) -> bool {
    forall|i: int| 0 <= i < count ==> #[trigger] finite[i]
}

/// The status of a path of `count` points (a negative count is an error
/// code) when the buffer holds `finite.len()` points, `finite[i]` telling
/// whether point `i` has finite coordinates, and the finder reported the
/// flags `path_status`. Only the first `count` points are looked at.
pub open spec fn path_status_spec(count: i32, finite: Seq<bool>, path_status: i32) -> NativeMmapPathStatus {
    if count < 0 {
        status_from_error_spec(count)
    } else if count > finite.len() {
        NativeMmapPathStatus::NativeError
    } else if count == 0 {
        NativeMmapPathStatus::NoPath
    } else if !prefix_finite(finite, count as int) {
        NativeMmapPathStatus::NativeError
    } else if path_status & NATIVE_PATHFIND_NOPATH != 0 {
        NativeMmapPathStatus::NoPath
    } else if path_status & NATIVE_PATHFIND_INCOMPLETE != 0 {
        NativeMmapPathStatus::Incomplete
    } else if path_status & NATIVE_PATHFIND_NORMAL != 0 {
        NativeMmapPathStatus::Normal
    } else if count == MAX_NATIVE_MMAP_PATH_POINTS {
        NativeMmapPathStatus::Incomplete
    } else {
        NativeMmapPathStatus::Normal
    }
}

/// How many leading points of the buffer the path keeps: all `count` of
/// them when the count is positive, within the buffer and those points are
/// finite; none otherwise.
pub open spec fn path_kept_points(count: i32, finite: Seq<bool>) -> nat {
    if 0 < count && count <= finite.len() && prefix_finite(finite, count as int) {
        count as nat
    } else {
        0
    }
}

/// The status of a path and the number of leading buffer points it keeps.
pub fn native_mmap_path_status_from_count(
    count: i32,
    finite: &[bool],
    path_status: i32,
) -> (result: (NativeMmapPathStatus, usize))
    ensures
        result.0 == path_status_spec(count, finite@, path_status),
        result.1 == path_kept_points(count, finite@),
{
    if count < 0 {
        return (native_mmap_status_from_error(count), 0);
    }
    if count as usize > finite.len() {
        return (NativeMmapPathStatus::NativeError, 0);
    }
    if count == 0 {
        return (NativeMmapPathStatus::NoPath, 0);
    }
    let n = count as usize;
    let mut i: usize = 0;
    while i < n
        invariant
            n == count,
            n <= finite@.len(),
            i <= n,
            prefix_finite(finite@, i as int),
        decreases n - i,
    {
        if !finite[i] {
            return (NativeMmapPathStatus::NativeError, 0);
        }
        i += 1;
    }
    let status = if path_status & NATIVE_PATHFIND_NOPATH != 0 {
        NativeMmapPathStatus::NoPath
    } else if path_status & NATIVE_PATHFIND_INCOMPLETE != 0 {
        NativeMmapPathStatus::Incomplete
    } else if path_status & NATIVE_PATHFIND_NORMAL != 0 {
        NativeMmapPathStatus::Normal
    } else if n == MAX_NATIVE_MMAP_PATH_POINTS {
        NativeMmapPathStatus::Incomplete
    } else {
        NativeMmapPathStatus::Normal
    };
    (status, n)
}

// ---------------------------------------------------------------------------
// Terrain

/// How a terrain query ended.
#[derive(Clone, Copy, Debug, PartialEq, Eq, Structural)]
pub enum NativeTerrainStatus {
    Found,
    NotFound,
    InvalidInput,
    NativeError,
}

/// The status of a terrain query's result code when a found value is
/// usable exactly when `value_usable`: 1 found, 0 not found, -1 to -3 bad
/// input, anything else (or an unusable value) an error.
pub open spec fn terrain_status_spec(result: i32, value_usable: bool) -> NativeTerrainStatus {
    if result == 1 && value_usable {
        NativeTerrainStatus::Found
    } else if result == 0 {
        NativeTerrainStatus::NotFound
    } else if -3 <= result && result <= -1 {
        NativeTerrainStatus::InvalidInput
    } else {
        NativeTerrainStatus::NativeError
    }
}

/// The status of a height or area-information query; the value is usable
/// when it is finite.
pub fn native_terrain_status_from_result(result: i32, value_usable: bool) -> (status: NativeTerrainStatus)
    ensures
        status == terrain_status_spec(result, value_usable),
{
    if result == 1 && value_usable {
        NativeTerrainStatus::Found
    } else if result == 0 {
        NativeTerrainStatus::NotFound
    } else if -3 <= result && result <= -1 {
        NativeTerrainStatus::InvalidInput
    } else {
        NativeTerrainStatus::NativeError
    }
}

/// The status of a liquid query: a found liquid needs positive status flags
/// and finite levels; otherwise result 1 counts as no liquid.
pub fn native_terrain_liquid_status(result: i32, status_flags: i32, levels_finite: bool) -> (status: NativeTerrainStatus)
    ensures
        status == if result == 1 && status_flags > 0 && levels_finite {
            NativeTerrainStatus::Found
        } else if result == 1 || result == 0 {
            NativeTerrainStatus::NotFound
        } else if -3 <= result && result <= -1 {
            NativeTerrainStatus::InvalidInput
        } else {
            NativeTerrainStatus::NativeError
        },
{
    if result == 1 && status_flags > 0 && levels_finite {
        NativeTerrainStatus::Found
    } else if result == 1 || result == 0 {
        NativeTerrainStatus::NotFound
    } else if -3 <= result && result <= -1 {
        NativeTerrainStatus::InvalidInput
    } else {
        NativeTerrainStatus::NativeError
    }
}

/// The area flag a terrain query found.
#[derive(Clone, Copy, Debug, PartialEq, Eq, Structural)]
pub struct NativeTerrainAreaFlag {
    pub status: NativeTerrainStatus,
    pub area_flag: Option<u16>,
}

/// An area flag is found when the query succeeded with a 16-bit flag.
pub fn native_terrain_area_flag_from_status(result: i32, area_flag: u32) -> (flag: NativeTerrainAreaFlag)
    ensures
        flag.status == terrain_status_spec(result, area_flag <= u16::MAX),
        flag.area_flag == if flag.status == NativeTerrainStatus::Found { Some(area_flag as u16) } else { None },
{
    let status = native_terrain_status_from_result(result, area_flag <= u16::MAX as u32);
    match status {
        NativeTerrainStatus::Found => NativeTerrainAreaFlag { status, area_flag: Some(area_flag as u16) },
        _ => NativeTerrainAreaFlag { status, area_flag: None },
    }
}

} // verus!
