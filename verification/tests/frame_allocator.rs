use wukkos::memory::frame_allocator::BootInfoFrameAllocator;
use wukkos::memory::regions::{is_ascending, MemoryKind, MemoryRegion, PhysicalFrame};

fn usable(start: u64, end: u64) -> MemoryRegion {
    MemoryRegion::new(start, end, MemoryKind::Usable)
}

#[test]
fn one_region_of_127_mib_yields_32512_frames() {
    let mut allocator = BootInfoFrameAllocator::init(vec![usable(0x100000, 0x8000000)]);
    for n in 0..32512u64 {
        let frame = allocator.allocate_frame().expect("a frame is left");
        assert_eq!(frame.start_address(), 0x100000 + n * 4096);
    }
    assert_eq!(allocator.frames_allocated(), 32512);
    assert!(allocator.allocate_frame().is_none());
    assert!(allocator.allocate_frame().is_none());
    assert_eq!(allocator.frames_allocated(), 32512);
}

#[test]
fn frames_are_distinct_and_strictly_increasing() {
    let regions = vec![
        usable(0x1000, 0x4000),
        MemoryRegion::new(0x4000, 0x9000, MemoryKind::Reserved),
        usable(0x9000, 0xb000),
        MemoryRegion::new(0xb000, 0xc000, MemoryKind::AcpiReclaimable),
        usable(0x10_0000, 0x10_3000),
    ];
    assert!(is_ascending(&regions));
    let mut allocator = BootInfoFrameAllocator::init(regions);
    let mut got = Vec::new();
    while let Some(frame) = allocator.allocate_frame() {
        got.push(frame.start_address());
    }
    assert_eq!(
        got,
        vec![0x1000, 0x2000, 0x3000, 0x9000, 0xa000, 0x10_0000, 0x10_1000, 0x10_2000]
    );
    for pair in got.windows(2) {
        assert!(pair[0] + 4096 <= pair[1]);
    }
}

#[test]
fn regions_that_are_not_usable_are_skipped() {
    let regions = vec![
        MemoryRegion::new(0x0, 0x10_0000, MemoryKind::Reserved),
        MemoryRegion::new(0x10_0000, 0x20_0000, MemoryKind::Nvs),
        MemoryRegion::new(0x20_0000, 0x30_0000, MemoryKind::BadMemory),
        MemoryRegion::new(0x30_0000, 0x40_0000, MemoryKind::Kernel),
        MemoryRegion::new(0x40_0000, 0x50_0000, MemoryKind::Bootloader),
        MemoryRegion::new(0x50_0000, 0x60_0000, MemoryKind::Unknown(77)),
    ];
    let mut allocator = BootInfoFrameAllocator::init(regions);
    assert!(allocator.allocate_frame().is_none());
    assert_eq!(allocator.frames_allocated(), 0);
}

#[test]
fn an_empty_map_yields_nothing() {
    let mut allocator = BootInfoFrameAllocator::init(Vec::new());
    assert!(allocator.allocate_frame().is_none());
}

#[test]
fn a_region_that_starts_inside_a_frame_begins_with_the_next_frame() {
    let region = usable(0x1001, 0x4000);
    assert_eq!(region.first_frame(), Some(0x2000));
    assert_eq!(region.frame_count(), 2);
    let mut allocator = BootInfoFrameAllocator::init(vec![region]);
    assert_eq!(allocator.allocate_frame().map(|f| f.start_address()), Some(0x2000));
    assert_eq!(allocator.allocate_frame().map(|f| f.start_address()), Some(0x3000));
    assert!(allocator.allocate_frame().is_none());
}

#[test]
fn a_region_that_ends_inside_a_frame_leaves_that_frame_out() {
    let region = usable(0x1000, 0x3fff);
    assert_eq!(region.frame_count(), 2);
    let short = usable(0x1000, 0x1fff);
    assert_eq!(short.frame_count(), 0);
    let backwards = usable(0x5000, 0x1000);
    assert_eq!(backwards.frame_count(), 0);
}

#[test]
fn a_region_at_the_top_of_the_address_space() {
    let region = usable(u64::MAX - 100, u64::MAX);
    assert_eq!(region.first_frame(), None);
    assert_eq!(region.frame_count(), 0);
    let last = usable(u64::MAX - 4095 - 4096, u64::MAX);
    assert_eq!(last.first_frame(), Some(u64::MAX - 4095 - 4096));
    assert_eq!(last.frame_count(), 1);
}

#[test]
fn the_frame_that_holds_an_address() {
    assert_eq!(PhysicalFrame::containing_address(0x1234).start_address(), 0x1000);
    assert_eq!(PhysicalFrame::containing_address(0x1000).start_address(), 0x1000);
    assert_eq!(PhysicalFrame::containing_address(0xfff).start_address(), 0);
    assert_eq!(
        PhysicalFrame::containing_address(u64::MAX).start_address(),
        0xffff_ffff_ffff_f000
    );
}

#[test]
fn ascending_maps_are_told_from_others() {
    assert!(is_ascending(&Vec::new()));
    assert!(is_ascending(&vec![usable(0, 0x1000), usable(0x1000, 0x2000)]));
    assert!(!is_ascending(&vec![usable(0, 0x1001), usable(0x1000, 0x2000)]));
    assert!(!is_ascending(&vec![usable(0x2000, 0x3000), usable(0x1000, 0x2000)]));
    assert!(!is_ascending(&vec![usable(0x2000, 0x1000)]));
}

#[test]
fn the_memory_map_is_kept() {
    let regions = vec![usable(0x1000, 0x2000)];
    let allocator = BootInfoFrameAllocator::init(regions.clone());
    assert_eq!(allocator.memory_map(), &regions);
}
