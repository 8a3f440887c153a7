use board_core::fault::{FaultKind, Stage};
use board_core::heap::{AllocLayout, AllocatorManager, InitError, HEAP_SIZE};

const BASE: usize = 0x2000_0000;

fn bytes(size: usize) -> AllocLayout {
    AllocLayout { size, align: 1 }
}

fn installed() -> AllocatorManager {
    let mut manager = AllocatorManager::empty();
    assert_eq!(manager.initialize(BASE, HEAP_SIZE), Ok(()));
    manager
}

#[test]
fn heap_size_is_one_kibibyte() {
    assert_eq!(HEAP_SIZE, 1024);
}

#[test]
fn an_empty_manager_has_no_arena() {
    let manager = AllocatorManager::empty();
    assert!(!manager.is_initialized());
    assert_eq!(manager.base(), 0);
    assert_eq!(manager.capacity(), 0);
    assert_eq!(manager.in_use(), 0);
    assert_eq!(manager.remaining(), 0);
}

#[test]
fn initialize_installs_the_region() {
    let manager = installed();
    assert!(manager.is_initialized());
    assert_eq!(manager.base(), BASE);
    assert_eq!(manager.capacity(), 1024);
    assert_eq!(manager.in_use(), 0);
    assert_eq!(manager.remaining(), 1024);
}

#[test]
fn initialize_succeeds_once() {
    let mut manager = installed();
    assert!(manager.allocate(bytes(24)).is_ok());
    assert_eq!(manager.initialize(BASE + 4096, 2048), Err(InitError::AlreadyInitialized));
    assert_eq!(manager.initialize(BASE, 0), Err(InitError::AlreadyInitialized));
    assert_eq!(manager.base(), BASE);
    assert_eq!(manager.capacity(), 1024);
    assert_eq!(manager.in_use(), 24);
}

#[test]
fn initialize_refuses_an_empty_region() {
    let mut manager = AllocatorManager::empty();
    assert_eq!(manager.initialize(BASE, 0), Err(InitError::EmptyRegion));
    assert!(!manager.is_initialized());
    assert_eq!(manager.capacity(), 0);
    assert_eq!(manager.initialize(BASE, 16), Ok(()));
}

#[test]
fn initialize_refuses_a_region_beyond_the_address_space() {
    let mut manager = AllocatorManager::empty();
    assert_eq!(manager.initialize(usize::MAX, 1), Err(InitError::RegionOutOfRange));
    assert_eq!(manager.initialize(usize::MAX - 1023, 1025), Err(InitError::RegionOutOfRange));
    assert_eq!(manager.initialize(1, usize::MAX), Err(InitError::RegionOutOfRange));
    assert!(!manager.is_initialized());
    assert_eq!(manager.initialize(usize::MAX - 1024, 1024), Ok(()));
    assert_eq!(manager.capacity(), 1024);
}

#[test]
fn allocation_before_initialization_enters_the_failure_path() {
    let mut manager = AllocatorManager::empty();
    let escalation = manager.allocate(bytes(1)).unwrap_err();
    assert_eq!(escalation.kind(), FaultKind::OutOfMemory);
    assert_eq!(escalation.report(), "out of memory");
    assert_eq!(escalation.stage(), Stage::Raised);
    assert!(manager.allocate(bytes(0)).is_err());
    assert_eq!(manager.in_use(), 0);
}

#[test]
fn allocations_within_capacity_all_succeed() {
    let mut manager = installed();
    for served in 0..4 {
        assert_eq!(manager.in_use(), served * 256);
        assert!(manager.allocate(bytes(256)).is_ok());
    }
    assert_eq!(manager.in_use(), 1024);
    assert_eq!(manager.remaining(), 0);
    assert!(manager.allocate(bytes(0)).is_ok());
}

#[test]
fn the_first_allocation_beyond_capacity_is_refused_whole() {
    let mut manager = installed();
    assert!(manager.allocate(bytes(400)).is_ok());
    assert!(manager.allocate(bytes(600)).is_ok());
    let escalation = manager.allocate(bytes(25)).unwrap_err();
    assert_eq!(escalation.kind(), FaultKind::OutOfMemory);
    assert_eq!(manager.in_use(), 1000);
    assert_eq!(manager.remaining(), 24);
    assert!(manager.allocate(bytes(24)).is_ok());
    assert!(manager.allocate(bytes(1)).is_err());
}

#[test]
fn a_request_larger_than_any_arena_is_refused() {
    let mut manager = installed();
    assert!(manager.allocate(bytes(1)).is_ok());
    assert!(manager.allocate(bytes(usize::MAX)).is_err());
    assert_eq!(manager.in_use(), 1);
}

#[test]
fn alignment_does_not_count_against_the_arena() {
    let mut manager = installed();
    assert!(manager.allocate(AllocLayout { size: 1024, align: 4096 }).is_ok());
    assert_eq!(manager.in_use(), 1024);
}

#[test]
fn deallocate_gives_the_bytes_back() {
    let mut manager = installed();
    assert!(manager.allocate(bytes(1000)).is_ok());
    assert!(manager.allocate(bytes(100)).is_err());
    assert!(manager.deallocate(BASE, bytes(1000)).is_ok());
    assert_eq!(manager.in_use(), 0);
    assert!(manager.allocate(bytes(100)).is_ok());
    assert!(manager.deallocate(BASE + 924, bytes(100)).is_ok());
    assert_eq!(manager.in_use(), 0);
    assert_eq!(manager.capacity(), 1024);
    assert_eq!(manager.base(), BASE);
}

#[test]
fn deallocate_refuses_a_block_outside_the_arena() {
    let mut manager = installed();
    assert!(manager.allocate(bytes(64)).is_ok());
    let escalation = manager.deallocate(BASE - 1, bytes(8)).unwrap_err();
    assert_eq!(escalation.kind(), FaultKind::Explicit);
    assert_eq!(
        escalation.report(),
        "deallocation of a block that the arena did not hand out\n"
    );
    assert_eq!(escalation.stage(), Stage::Raised);
    assert!(manager.deallocate(BASE + 1017, bytes(8)).is_err());
    assert!(manager.deallocate(BASE + 1025, bytes(0)).is_err());
    assert!(manager.deallocate(usize::MAX, bytes(8)).is_err());
    assert_eq!(manager.in_use(), 64);
    assert!(manager.deallocate(BASE + 1016, bytes(8)).is_ok());
    assert_eq!(manager.in_use(), 56);
}

#[test]
fn deallocate_refuses_more_than_is_in_use() {
    let mut manager = installed();
    assert!(manager.allocate(bytes(16)).is_ok());
    assert!(manager.deallocate(BASE, bytes(17)).is_err());
    assert_eq!(manager.in_use(), 16);
    assert!(manager.deallocate(BASE, bytes(16)).is_ok());
    assert!(manager.deallocate(BASE, bytes(1)).is_err());
}

#[test]
fn deallocate_before_initialization_is_refused() {
    let mut manager = AllocatorManager::empty();
    let escalation = manager.deallocate(0, bytes(0)).unwrap_err();
    assert_eq!(escalation.kind(), FaultKind::Explicit);
    assert!(!manager.is_initialized());
}
