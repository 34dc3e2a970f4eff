//! Cache geometry: exact field extraction and round trips on concrete
//! addresses.

use pacman::cache::{
    get_cache_offset_generic, get_cache_offset_m1, get_cache_set_generic, get_cache_set_m1,
    get_cache_tag_generic, get_cache_tag_m1, get_l1_cache_set_m1, CacheGeometry, L2_LINESIZE,
    L2_SETS, L2_WAYS,
};

#[test]
fn generic_geometry_extracts_fields() {
    let addr: u64 = 0x0000_0012_3456_789A;
    assert_eq!(get_cache_tag_generic(addr), addr >> 20);
    assert_eq!(get_cache_set_generic(addr), (addr >> 7) & 0x1FFF);
    assert_eq!(get_cache_offset_generic(addr), addr & 0x7F);
}

#[test]
fn generic_geometry_round_trip() {
    for addr in [0u64, 0x7F, 0x80, 0x12345678, 0xFFFF_FFFF_FFFF_FFFF, 0x0000_0012_3456_789A] {
        let tag = get_cache_tag_generic(addr);
        let set = get_cache_set_generic(addr);
        let offset = get_cache_offset_generic(addr);
        assert_eq!(((tag << 13) << 7) | (set << 7) | offset, addr);
    }
}

#[test]
fn m1_geometry_extracts_fields() {
    let addr: u64 = 0xFFFF_FFF0_1234_5678;
    assert_eq!(get_cache_tag_m1(addr), (addr >> 20) & 0xFFF_FFFF_FFFF);
    assert_eq!(get_cache_set_m1(addr), (addr >> 7) & 0xFFFF);
    assert_eq!(get_l1_cache_set_m1(addr), (addr >> 6) & 0x1FF);
    assert_eq!(get_cache_offset_m1(addr), addr & 0x7F);
}

#[test]
fn m1_geometry_round_trip() {
    for addr in [0u64, 0x3FFF, 0x4000, 0xDEADBEEF, 0xFFFF_FFFF_FFFF_FFFF] {
        let tag = get_cache_tag_m1(addr);
        let set = get_cache_set_m1(addr);
        let offset = get_cache_offset_m1(addr);
        assert_eq!((tag << 20) | (set << 7) | offset, addr);
    }
}

#[test]
fn l2_geometry_matches_fixed_extractors() {
    let geometry = CacheGeometry::l2();
    assert_eq!(geometry.ways, L2_WAYS);
    assert_eq!(geometry.sets, L2_SETS);
    assert_eq!(geometry.line_size, L2_LINESIZE);
    assert_eq!(geometry.set_shift(), 13);
    assert_eq!(geometry.offset_shift(), 7);
    let addr: u64 = 0x0000_0045_89AB_CDEF;
    assert_eq!(geometry.cache_tag(addr), get_cache_tag_generic(addr));
    assert_eq!(geometry.cache_set(addr), get_cache_set_generic(addr));
    assert_eq!(geometry.cache_offset(addr), get_cache_offset_generic(addr));
}

#[test]
fn small_geometry_shifts() {
    let geometry = CacheGeometry { ways: 8, sets: 256, line_size: 64 };
    assert_eq!(geometry.set_shift(), 8);
    assert_eq!(geometry.offset_shift(), 6);
    let addr: u64 = 0xABCDE;
    assert_eq!(geometry.cache_tag(addr), addr >> 14);
    assert_eq!(geometry.cache_set(addr), (addr >> 6) & 0xFF);
    assert_eq!(geometry.cache_offset(addr), addr & 0x3F);
}
