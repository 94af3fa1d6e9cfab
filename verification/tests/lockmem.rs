use shadow_reg::lockmem::decode_pfns;
use shadow_reg::lockmem::mmap_length;
use shadow_reg::lockmem::page_count;
use shadow_reg::lockmem::pagemap_offset;
use shadow_reg::lockmem::trim_mapping;
use shadow_reg::lockmem::LockedMemoryError;
use shadow_reg::lockmem::LockedMemorySpawner;
use shadow_reg::lockmem::PAGE_SIZE;
use shadow_reg::lockmem::SIZE_2M;

#[test]
fn test_page_count() {
    assert_eq!(page_count(0), Ok(0));
    assert_eq!(page_count(PAGE_SIZE * 3), Ok(3));
    assert_eq!(page_count(PAGE_SIZE + 1), Err(LockedMemoryError::NotPageMultiple));
    assert_eq!(page_count(123), Err(LockedMemoryError::NotPageMultiple));
}

#[test]
fn test_mmap_length() {
    // Small buffers are requested as they are; larger ones gain one large
    // page of slack for alignment.
    assert_eq!(mmap_length(PAGE_SIZE), PAGE_SIZE);
    assert_eq!(mmap_length(SIZE_2M - PAGE_SIZE), SIZE_2M - PAGE_SIZE);
    assert_eq!(mmap_length(SIZE_2M), SIZE_2M * 2);
    assert_eq!(mmap_length(SIZE_2M * 3), SIZE_2M * 4);
}

#[test]
fn test_trim_mapping_small_buffer() {
    // A small buffer is not moved: no head, no tail.
    let (aligned, head, tail) = trim_mapping(0x1234_5000, PAGE_SIZE);
    assert_eq!(aligned, 0x1234_5000);
    assert_eq!(head, 0);
    assert_eq!(tail, 0);
}

#[test]
fn test_trim_mapping_large_buffer() {
    let len = SIZE_2M * 3;
    let addr = 0x1234_5000;
    let (aligned, head, tail) = trim_mapping(addr, len);
    assert_eq!(aligned % SIZE_2M, 0);
    assert!(aligned >= addr);
    assert!(aligned - addr < SIZE_2M);
    assert_eq!(aligned, 0x1240_0000);
    assert_eq!(head, aligned - addr);
    assert_eq!(head + len + tail, mmap_length(len));
}

#[test]
fn test_trim_mapping_already_aligned() {
    let len = SIZE_2M * 2;
    let addr = SIZE_2M * 10;
    let (aligned, head, tail) = trim_mapping(addr, len);
    assert_eq!(aligned, addr);
    assert_eq!(head, 0);
    assert_eq!(tail, SIZE_2M);
}

#[test]
fn test_pagemap_offset() {
    assert_eq!(pagemap_offset(0), 0);
    assert_eq!(pagemap_offset(PAGE_SIZE), 8);
    assert_eq!(pagemap_offset(PAGE_SIZE * 100), 800);
}

#[test]
fn test_decode_pfns() {
    let raw = vec![
        0x8000_0000_0000_0123u64,
        0x8040_0000_0000_4567u64,
        0xffff_ffff_ffff_ffffu64,
    ];
    let pfns = decode_pfns(&raw).unwrap();
    assert_eq!(pfns, vec![0x123, 0x4567, 0x3f_ffff_ffff_ffff]);
}

#[test]
fn test_decode_pfns_not_present() {
    let raw = vec![0x8000_0000_0000_0123u64, 0x0000_0000_0000_4567u64];
    assert_eq!(decode_pfns(&raw), Err(LockedMemoryError::PageNotPresent));
}

#[test]
fn test_spawner_is_cloneable() {
    let spawner = LockedMemorySpawner;
    let _copy = spawner.clone();
}
