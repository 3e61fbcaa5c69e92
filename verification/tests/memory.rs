//! Address spaces and physical frames: mapping, rejection of bad requests,
//! translation, and kernel-mapping copies.

use userboot::aspace::{AddrSpace, MappingError, MappingFlags};
use userboot::mem::MemoryManager;
use userboot::PAGE_SIZE_4K;

const PAGE: u64 = PAGE_SIZE_4K as u64;
const USER_BASE: u64 = 0;
const USER_SIZE: u64 = 0x40_0000_0000;

fn rw_user() -> MappingFlags {
    MappingFlags { read: true, write: true, execute: false, user: true }
}

fn kernel_only() -> MappingFlags {
    MappingFlags { read: true, write: true, execute: true, user: false }
}

#[test]
fn new_address_space_is_empty() {
    let mut mm = MemoryManager::new(8);
    let s = AddrSpace::new_empty(&mut mm, USER_BASE, USER_SIZE).unwrap();
    assert_eq!(s.end(), USER_SIZE);
    assert_eq!(s.region_count(), 0);
    assert_eq!(s.translate(0x1000), None);
}

#[test]
fn new_address_space_fails_without_frames() {
    let mut mm = MemoryManager::new(0);
    assert!(AddrSpace::new_empty(&mut mm, USER_BASE, USER_SIZE).is_err());
}

#[test]
fn map_then_translate() {
    let mut mm = MemoryManager::new(8);
    let mut s = AddrSpace::new_empty(&mut mm, USER_BASE, USER_SIZE).unwrap();
    assert_eq!(s.map(&mut mm, 0x1000, 2 * PAGE, rw_user()), Ok(()));
    let p0 = s.translate(0x1000).unwrap();
    let p1 = s.translate(0x1000 + PAGE).unwrap();
    assert_eq!(p1, p0 + PAGE);
    assert_eq!(s.translate(0x1000 + 0x234).unwrap(), p0 + 0x234);
    assert_eq!(s.translate(0x1000 + 2 * PAGE), None);
    assert_eq!(s.translate(0xfff), None);
}

#[test]
fn map_rejects_misaligned_requests() {
    let mut mm = MemoryManager::new(8);
    let mut s = AddrSpace::new_empty(&mut mm, USER_BASE, USER_SIZE).unwrap();
    assert_eq!(s.map(&mut mm, 0x800, PAGE, rw_user()), Err(MappingError::Misaligned));
    assert_eq!(s.map(&mut mm, 0x1000, PAGE / 2, rw_user()), Err(MappingError::Misaligned));
    assert_eq!(s.map(&mut mm, 0x1000, 0, rw_user()), Err(MappingError::Misaligned));
    assert_eq!(s.region_count(), 0);
}

#[test]
fn map_rejects_regions_outside_the_space() {
    let mut mm = MemoryManager::new(8);
    let mut s = AddrSpace::new_empty(&mut mm, USER_BASE, USER_SIZE).unwrap();
    assert_eq!(s.map(&mut mm, USER_SIZE, PAGE, rw_user()), Err(MappingError::OutOfRange));
    assert_eq!(
        s.map(&mut mm, USER_SIZE - PAGE, 2 * PAGE, rw_user()),
        Err(MappingError::OutOfRange)
    );
}

#[test]
fn overlapping_map_is_rejected_and_changes_nothing() {
    let mut mm = MemoryManager::new(16);
    let mut s = AddrSpace::new_empty(&mut mm, USER_BASE, USER_SIZE).unwrap();
    assert_eq!(s.map(&mut mm, 0x1000, 2 * PAGE, rw_user()), Ok(()));
    let before = s.translate(0x1000).unwrap();
    // intersecting from above, from below, and exactly equal
    assert_eq!(s.map(&mut mm, 0x2000, 2 * PAGE, rw_user()), Err(MappingError::Overlap));
    assert_eq!(s.map(&mut mm, 0x0, 2 * PAGE, rw_user()), Err(MappingError::Overlap));
    assert_eq!(s.map(&mut mm, 0x1000, 2 * PAGE, rw_user()), Err(MappingError::Overlap));
    // existing mappings are exactly as they were; nothing new is mapped
    assert_eq!(s.region_count(), 1);
    assert_eq!(s.translate(0x1000), Some(before));
    assert_eq!(s.translate(0x3000), None);
    // an adjacent, non-intersecting region is fine
    assert_eq!(s.map(&mut mm, 0x3000, PAGE, rw_user()), Ok(()));
}

#[test]
fn map_fails_when_physical_memory_is_exhausted() {
    let mut mm = MemoryManager::new(2);
    let mut s = AddrSpace::new_empty(&mut mm, USER_BASE, USER_SIZE).unwrap();
    assert_eq!(s.map(&mut mm, 0x1000, 2 * PAGE, rw_user()), Err(MappingError::NoMemory));
    assert_eq!(s.region_count(), 0);
    assert_eq!(s.map(&mut mm, 0x1000, PAGE, rw_user()), Ok(()));
}

#[test]
fn mapped_frames_are_zero_initialized() {
    let mut mm = MemoryManager::new(4);
    let mut s = AddrSpace::new_empty(&mut mm, USER_BASE, USER_SIZE).unwrap();
    s.map(&mut mm, 0x1000, PAGE, rw_user()).unwrap();
    let paddr = s.translate(0x1000).unwrap();
    let bytes = mm.read_phys(paddr, PAGE_SIZE_4K);
    assert_eq!(bytes.len(), PAGE_SIZE_4K);
    assert!(bytes.iter().all(|b| *b == 0));
}

#[test]
fn kernel_mappings_are_copied_without_user_access() {
    let mut mm = MemoryManager::new(8);
    let mut kernel = AddrSpace::new_empty(&mut mm, 0x40_0000_0000, 0x40_0000_0000).unwrap();
    kernel.map(&mut mm, 0x40_0000_0000, 2 * PAGE, kernel_only()).unwrap();
    let mut s = AddrSpace::new_empty(&mut mm, USER_BASE, USER_SIZE).unwrap();
    assert_eq!(s.kernel_region_count(), 0);
    s.copy_mappings_from(&kernel);
    assert_eq!(s.kernel_region_count(), 1);
    // the copy shares the kernel's backing; it adds no process-owned region
    assert_eq!(s.region_count(), 0);
}
