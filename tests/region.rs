use std::cell::Cell;

use jiter::loader::{emit_code, make_mem_exec};
use jiter::protection::{Protection, PROT_EXEC, PROT_NONE, PROT_READ, PROT_WRITE};
use jiter::region::{safe_mmap, MappedRegion, MAP_FAILED};
use jiter::RegionError;

const BASE: usize = 0x7f00_0000_0000;

const ADD_FOUR: [u8; 8] = [0x48, 0x89, 0xf8, 0x48, 0x83, 0xc0, 0x04, 0xc3];

fn region(len: usize) -> MappedRegion {
    match safe_mmap(len, BASE, String::new()) {
        Ok(r) => r,
        Err(err) => panic!("{:?}", err),
    }
}

#[test]
fn test_safe_mmap() {
    let contents = [0, 1, 2];

    match safe_mmap(contents.len(), BASE, String::new()) {
        Ok(_) => assert!(true),
        Err(err) => panic!("{:?}", err),
    }
}

#[test]
fn created_region_has_requested_length_and_address() {
    for len in [1usize, 3, 8, 4096] {
        let r = region(len);
        assert_ne!(r.base_address(), 0);
        assert_eq!(r.base_address(), BASE);
        assert_eq!(r.len(), len);
        assert_eq!(r.mode(), Protection::ReadWrite);
    }
}

#[test]
fn failed_mmap_keeps_os_message() {
    let r = safe_mmap(8, MAP_FAILED, "Cannot allocate memory (os error 12)".to_string());
    match r {
        Err(err) => assert_eq!(
            err,
            RegionError::Allocation("Cannot allocate memory (os error 12)".to_string())
        ),
        Ok(_) => panic!("a failed mmap gave a region"),
    }
}

#[test]
fn unusable_mappings_are_allocation_errors() {
    for (size, addr) in [(8usize, 0usize), (0, BASE), (16, usize::MAX - 8)] {
        match safe_mmap(size, addr, String::new()) {
            Err(RegionError::Allocation(_)) => {}
            other => panic!("expected an allocation error, got {:?}", other.map(|r| r.len())),
        }
    }
}

#[test]
fn emit_copies_code_byte_for_byte() {
    let r = region(8);
    let mut memory = vec![0u8; 8];
    assert_eq!(emit_code(&ADD_FOUR, &r, &mut memory), Ok(()));
    assert_eq!(memory, ADD_FOUR.to_vec());
}

#[test]
fn emit_into_larger_region_keeps_the_rest() {
    let r = region(12);
    let mut memory = vec![0xaau8; 12];
    assert_eq!(emit_code(&ADD_FOUR, &r, &mut memory), Ok(()));
    assert_eq!(&memory[..8], &ADD_FOUR[..]);
    assert_eq!(&memory[8..], &[0xaa, 0xaa, 0xaa, 0xaa]);
}

#[test]
fn emit_of_nothing_changes_nothing() {
    let r = region(4);
    let mut memory = vec![7u8, 6, 5, 4];
    assert_eq!(emit_code(&[], &r, &mut memory), Ok(()));
    assert_eq!(memory, vec![7, 6, 5, 4]);
}

#[test]
fn oversized_code_is_a_load_error_and_region_stays_writable() {
    let r = region(4);
    let mut memory = vec![0u8; 4];
    assert_eq!(
        emit_code(&ADD_FOUR, &r, &mut memory),
        Err(RegionError::Load { len: 8, capacity: 4 })
    );
    assert_eq!(memory, vec![0, 0, 0, 0]);
    assert_eq!(r.mode(), Protection::ReadWrite);
    assert_eq!(r.release(), (BASE, 4));
}

#[test]
fn no_write_after_executable() {
    let mut r = region(8);
    let mut memory = vec![0u8; 8];
    assert_eq!(emit_code(&ADD_FOUR, &r, &mut memory), Ok(()));
    assert_eq!(r.make_executable(Ok(())), Ok(()));
    assert_eq!(r.mode(), Protection::ReadExec);
    match emit_code(&[0x90], &r, &mut memory) {
        Err(RegionError::Protection(_)) => {}
        other => panic!("write after executable gave {:?}", other),
    }
    assert_eq!(memory, ADD_FOUR.to_vec());
}

#[test]
fn refused_protection_keeps_region_writable() {
    let mut r = region(8);
    assert_eq!(
        r.make_executable(Err("Permission denied (os error 13)".to_string())),
        Err(RegionError::Protection("Permission denied (os error 13)".to_string()))
    );
    assert_eq!(r.mode(), Protection::ReadWrite);
    let mut memory = vec![0u8; 8];
    assert_eq!(emit_code(&ADD_FOUR, &r, &mut memory), Ok(()));
}

#[test]
fn mprotect_arguments_cover_the_region() {
    let r = region(8);
    assert_eq!(make_mem_exec(&r), (BASE, 8, 5));
}

#[test]
fn protection_flags() {
    assert_eq!(Protection::NoAccess.bits(), PROT_NONE);
    assert_eq!(Protection::Read.bits(), PROT_READ);
    assert_eq!(Protection::ReadWrite.bits(), 3);
    assert_eq!(Protection::ReadExec.bits(), 5);
    assert_eq!(PROT_WRITE | PROT_EXEC, 6);
    for p in [Protection::NoAccess, Protection::Read, Protection::ReadWrite, Protection::ReadExec] {
        assert!(!(p.is_writable() && p.is_executable()));
        assert_eq!(p.is_writable(), p == Protection::ReadWrite);
        assert_eq!(p.is_executable(), p == Protection::ReadExec);
    }
}

struct Owned<'a> {
    region: Option<MappedRegion>,
    releases: &'a Cell<usize>,
    released: &'a Cell<Option<(usize, usize)>>,
}

impl Drop for Owned<'_> {
    fn drop(&mut self) {
        if let Some(r) = self.region.take() {
            self.released.set(Some(r.release()));
            self.releases.set(self.releases.get() + 1);
        }
    }
}

#[test]
fn release_happens_once_with_the_created_range() {
    let releases = Cell::new(0usize);
    let released = Cell::new(None);
    {
        let owned = Owned { region: Some(region(4)), releases: &releases, released: &released };
        let mut memory = vec![0u8; 4];
        let r = owned.region.as_ref().unwrap();
        assert!(emit_code(&ADD_FOUR, r, &mut memory).is_err());
    }
    assert_eq!(releases.get(), 1);
    assert_eq!(released.get(), Some((BASE, 4)));

    let releases = Cell::new(0usize);
    let released = Cell::new(None);
    {
        let mut owned = Owned { region: Some(region(8)), releases: &releases, released: &released };
        let r = owned.region.as_mut().unwrap();
        assert!(r.make_executable(Ok(())).is_ok());
    }
    assert_eq!(releases.get(), 1);
    assert_eq!(released.get(), Some((BASE, 8)));
}
