use wukkos::memory::bump::BumpAllocator;
use wukkos::memory::heap::{HeapRegion, HEAP_SIZE, HEAP_START};

fn heap() -> BumpAllocator {
    BumpAllocator::new(HeapRegion { start: HEAP_START, size: HEAP_SIZE }).unwrap()
}

#[test]
fn blocks_follow_one_another() {
    let mut a = heap();
    assert_eq!(a.allocate(10, 1), Some(HEAP_START));
    assert_eq!(a.allocate(4, 4), Some(HEAP_START + 12));
    assert_eq!(a.allocate(1, 4096), Some(HEAP_START + 4096));
    assert_eq!(a.allocate(0, 8), Some(HEAP_START + 4104));
    assert_eq!(a.allocate(8, 8), Some(HEAP_START + 4104));
}

#[test]
fn a_block_that_does_not_fit_is_refused() {
    let mut a = heap();
    assert_eq!(a.allocate(HEAP_SIZE + 1, 1), None);
    assert_eq!(a.allocate(HEAP_SIZE, 1), Some(HEAP_START));
    assert_eq!(a.allocate(1, 1), None);
    assert_eq!(a.allocate(0, 1), Some(HEAP_START + HEAP_SIZE));
    let mut a = heap();
    assert_eq!(a.allocate(1, 1), Some(HEAP_START));
    assert_eq!(a.allocate(HEAP_SIZE - 4096 + 1, 4096), None);
    assert_eq!(a.allocate(HEAP_SIZE - 4096, 4096), Some(HEAP_START + 4096));
}

#[test]
fn an_alignment_that_is_no_power_of_two_is_refused() {
    let mut a = heap();
    for align in [0u64, 3, 6, 12, 4095, u64::MAX] {
        assert_eq!(a.allocate(1, align), None);
    }
    assert_eq!(a.allocate(1, 1 << 63), None);
    assert_eq!(a.allocate(1, 2), Some(HEAP_START));
}

#[test]
fn the_heap_starts_over_once_every_block_is_back() {
    let mut a = heap();
    assert_eq!(a.allocate(100, 1), Some(HEAP_START));
    assert_eq!(a.allocate(100, 1), Some(HEAP_START + 100));
    a.release();
    assert_eq!(a.allocate(100, 1), Some(HEAP_START + 200));
    a.release();
    a.release();
    assert_eq!(a.allocate(100, 1), Some(HEAP_START));
    a.release();
    a.release();
    assert_eq!(a.allocate(100, 1), Some(HEAP_START));
}

#[test]
fn a_heap_that_leaves_the_address_space_is_refused() {
    assert!(BumpAllocator::new(HeapRegion { start: u64::MAX, size: 1 }).is_none());
    assert!(BumpAllocator::new(HeapRegion { start: u64::MAX, size: 0 }).is_some());
    assert!(BumpAllocator::new(HeapRegion { start: 1, size: u64::MAX }).is_none());
    let mut top = BumpAllocator::new(HeapRegion { start: u64::MAX - 16, size: 16 }).unwrap();
    assert_eq!(top.allocate(8, 1), Some(u64::MAX - 16));
    assert_eq!(top.allocate(8, 1), Some(u64::MAX - 8));
    assert_eq!(top.allocate(1, 1), None);
}
