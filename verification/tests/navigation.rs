use wow_network::navigation::{
    native_mmap_path_status_from_count, native_mmap_status_from_error, native_mmap_tile_is_valid,
    native_terrain_area_flag_from_status, native_terrain_liquid_status, native_terrain_status_from_result,
    NativeMmapPathFilter, NativeMmapPathStatus, NativeTerrainStatus, NAV_GROUND,
};

#[test]
fn path_statuses() {
    assert_eq!(native_mmap_status_from_error(-21), NativeMmapPathStatus::Unavailable);
    assert_eq!(native_mmap_status_from_error(-8), NativeMmapPathStatus::InvalidInput);
    assert_eq!(native_mmap_status_from_error(-2), NativeMmapPathStatus::NativeError);
    let all = vec![true; 74];
    assert_eq!(native_mmap_path_status_from_count(-4, &all, 0), (NativeMmapPathStatus::Unavailable, 0));
    assert_eq!(native_mmap_path_status_from_count(80, &all, 1), (NativeMmapPathStatus::NativeError, 0));
    assert_eq!(native_mmap_path_status_from_count(0, &all, 1), (NativeMmapPathStatus::NoPath, 0));
    let mut second_bad = vec![true; 74];
    second_bad[1] = false;
    assert_eq!(native_mmap_path_status_from_count(3, &second_bad, 1), (NativeMmapPathStatus::NativeError, 0));
    let mut tail_bad = vec![true; 74];
    tail_bad[3] = false;
    tail_bad[73] = false;
    assert_eq!(native_mmap_path_status_from_count(3, &tail_bad, 1), (NativeMmapPathStatus::Normal, 3));
    assert_eq!(native_mmap_path_status_from_count(3, &all, 0x8 | 0x1), (NativeMmapPathStatus::NoPath, 3));
    assert_eq!(native_mmap_path_status_from_count(3, &all, 0x4), (NativeMmapPathStatus::Incomplete, 3));
    assert_eq!(native_mmap_path_status_from_count(3, &all, 0x1), (NativeMmapPathStatus::Normal, 3));
    assert_eq!(native_mmap_path_status_from_count(74, &all, 0), (NativeMmapPathStatus::Incomplete, 74));
    assert_eq!(native_mmap_path_status_from_count(73, &all, 0), (NativeMmapPathStatus::Normal, 73));
}

#[test]
fn tiles_filters_and_terrain() {
    assert!(native_mmap_tile_is_valid((63, 0)));
    assert!(!native_mmap_tile_is_valid((64, 0)));
    let filter = NativeMmapPathFilter::ground();
    assert_eq!((filter.include_flags, filter.exclude_flags), (NAV_GROUND, 0));
    assert_eq!(native_terrain_status_from_result(1, true), NativeTerrainStatus::Found);
    assert_eq!(native_terrain_status_from_result(1, false), NativeTerrainStatus::NativeError);
    assert_eq!(native_terrain_status_from_result(0, false), NativeTerrainStatus::NotFound);
    assert_eq!(native_terrain_status_from_result(-2, true), NativeTerrainStatus::InvalidInput);
    assert_eq!(native_terrain_status_from_result(-4, true), NativeTerrainStatus::NativeError);
    assert_eq!(native_terrain_liquid_status(1, 0, true), NativeTerrainStatus::NotFound);
    assert_eq!(native_terrain_liquid_status(1, 2, true), NativeTerrainStatus::Found);
    let flag = native_terrain_area_flag_from_status(1, 0x1_0000);
    assert_eq!(flag.status, NativeTerrainStatus::NativeError);
    assert_eq!(flag.area_flag, None);
    assert_eq!(native_terrain_area_flag_from_status(1, 12).area_flag, Some(12));
}
