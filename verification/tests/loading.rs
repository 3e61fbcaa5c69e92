//! The payload loader: the image round-trips through the mapped page's
//! physical backing, padded with zeros to the page boundary.

use userboot::aspace::AddrSpace;
use userboot::loader::{load_user_app, LoadError};
use userboot::mem::MemoryManager;
use userboot::{APP_ENTRY, PAGE_SIZE_4K};

const USER_BASE: u64 = 0;
const USER_SIZE: u64 = 0x40_0000_0000;

#[test]
fn loaded_image_reads_back_with_zero_padding() {
    let mut mm = MemoryManager::new(4);
    let mut s = AddrSpace::new_empty(&mut mm, USER_BASE, USER_SIZE).unwrap();
    let image: Vec<u8> = (1u8..=200).collect();
    assert_eq!(load_user_app(&image, &mut s, &mut mm), Ok(()));
    let paddr = s.translate(APP_ENTRY).unwrap();
    let bytes = mm.read_phys(paddr, PAGE_SIZE_4K);
    assert_eq!(bytes.len(), PAGE_SIZE_4K);
    assert_eq!(&bytes[..image.len()], &image[..]);
    assert!(bytes[image.len()..].iter().all(|b| *b == 0));
}

#[test]
fn one_byte_image_loads() {
    let mut mm = MemoryManager::new(4);
    let mut s = AddrSpace::new_empty(&mut mm, USER_BASE, USER_SIZE).unwrap();
    let image: Vec<u8> = vec![0x73];
    assert_eq!(load_user_app(&image, &mut s, &mut mm), Ok(()));
    let paddr = s.translate(APP_ENTRY).unwrap();
    let bytes = mm.read_phys(paddr, PAGE_SIZE_4K);
    assert_eq!(bytes[0], 0x73);
    assert!(bytes[1..].iter().all(|b| *b == 0));
}

#[test]
fn full_page_image_loads_without_padding() {
    let mut mm = MemoryManager::new(4);
    let mut s = AddrSpace::new_empty(&mut mm, USER_BASE, USER_SIZE).unwrap();
    let image: Vec<u8> = (0..PAGE_SIZE_4K).map(|i| (i % 251) as u8).collect();
    assert_eq!(load_user_app(&image, &mut s, &mut mm), Ok(()));
    let paddr = s.translate(APP_ENTRY).unwrap();
    assert_eq!(mm.read_phys(paddr, PAGE_SIZE_4K), image);
}

#[test]
fn load_fails_without_a_free_frame() {
    let mut mm = MemoryManager::new(1);
    let mut s = AddrSpace::new_empty(&mut mm, USER_BASE, USER_SIZE).unwrap();
    let image: Vec<u8> = vec![1, 2, 3];
    assert_eq!(load_user_app(&image, &mut s, &mut mm), Err(LoadError::OutOfMemory));
    assert_eq!(s.region_count(), 0);
    assert_eq!(s.translate(APP_ENTRY), None);
}

#[test]
fn loading_twice_fails_on_the_occupied_page() {
    let mut mm = MemoryManager::new(4);
    let mut s = AddrSpace::new_empty(&mut mm, USER_BASE, USER_SIZE).unwrap();
    let image: Vec<u8> = vec![9, 9];
    assert_eq!(load_user_app(&image, &mut s, &mut mm), Ok(()));
    assert_eq!(load_user_app(&image, &mut s, &mut mm), Err(LoadError::OutOfMemory));
    assert_eq!(s.region_count(), 1);
}
