use wukkos::memory::frame_allocator::BootInfoFrameAllocator;
use wukkos::memory::heap::{init_heap, HeapInitError, HeapRegion, HEAP_PAGES, HEAP_SIZE, HEAP_START};
use wukkos::memory::mapping_table::MappingTable;
use wukkos::memory::paging::{MapError, Page, PageFlags, PageMapper, UnmapError, PRESENT, WRITABLE};
use wukkos::memory::physical::{
    ensure_mapped, read_phys_memory32, write_phys_memory32, PhysAccessError,
};
use wukkos::memory::region_mapper::{Handler, PhysicalMapping, RegionError};
use wukkos::memory::regions::{MemoryKind, MemoryRegion, PhysicalFrame};
use wukkos::memory::word_memory::{SparseMemory, WordMemory};

fn allocator_with(frames: u64) -> BootInfoFrameAllocator {
    BootInfoFrameAllocator::init(vec![MemoryRegion::new(
        0x10_0000,
        0x10_0000 + frames * 4096,
        MemoryKind::Usable,
    )])
}

#[test]
fn an_unmapped_address_does_not_translate() {
    let table = MappingTable::new();
    assert_eq!(table.translate_addr(0), None);
    assert_eq!(table.translate_addr(0xfee0_0000), None);
    assert!(table.mapping_of(Page::containing_address(0x1000)).is_none());
}

#[test]
fn a_mapped_page_translates_with_its_offset() {
    let mut table = MappingTable::new();
    let mut allocator = allocator_with(8);
    let page = Page::containing_address(0x4000_1234);
    assert_eq!(page.start_address(), 0x4000_1000);
    let frame = PhysicalFrame::containing_address(0x7000);
    let r = table.map_to(page, frame, PageFlags::present_writable(), &mut allocator);
    assert_eq!(r, Ok(()));
    // three tables were missing on the way
    assert_eq!(allocator.frames_allocated(), 3);
    assert_eq!(table.translate_addr(0x4000_1000), Some(0x7000));
    assert_eq!(table.translate_addr(0x4000_1234), Some(0x7234));
    assert_eq!(table.translate_addr(0x4000_1fff), Some(0x7fff));
    assert_eq!(table.translate_addr(0x4000_2000), None);
    let mapping = table.mapping_of(page).unwrap();
    assert_eq!(mapping.frame.start_address(), 0x7000);
    assert_eq!(mapping.flags.bits, PRESENT | WRITABLE);
}

#[test]
fn a_neighbouring_page_needs_no_new_table() {
    let mut table = MappingTable::new();
    let mut allocator = allocator_with(8);
    let flags = PageFlags::present_writable();
    let f = PhysicalFrame::containing_address(0x7000);
    assert_eq!(table.map_to(Page::containing_address(0x1000), f, flags, &mut allocator), Ok(()));
    assert_eq!(allocator.frames_allocated(), 3);
    assert_eq!(table.map_to(Page::containing_address(0x2000), f, flags, &mut allocator), Ok(()));
    assert_eq!(allocator.frames_allocated(), 3);
    // another 2 MiB span needs one table, another 1 GiB span two
    assert_eq!(table.map_to(Page::containing_address(0x20_0000), f, flags, &mut allocator), Ok(()));
    assert_eq!(allocator.frames_allocated(), 4);
    assert_eq!(
        table.map_to(Page::containing_address(0x4000_0000), f, flags, &mut allocator),
        Ok(())
    );
    assert_eq!(allocator.frames_allocated(), 6);
}

#[test]
fn mapping_a_mapped_page_fails_and_changes_nothing() {
    let mut table = MappingTable::new();
    let mut allocator = allocator_with(8);
    let flags = PageFlags::present_writable();
    let page = Page::containing_address(0x1000);
    assert_eq!(
        table.map_to(page, PhysicalFrame::containing_address(0x7000), flags, &mut allocator),
        Ok(())
    );
    let before = allocator.frames_allocated();
    assert_eq!(
        table.map_to(page, PhysicalFrame::containing_address(0x9000), flags, &mut allocator),
        Err(MapError::PageAlreadyMapped)
    );
    assert_eq!(allocator.frames_allocated(), before);
    assert_eq!(table.translate_addr(0x1000), Some(0x7000));
}

#[test]
fn mapping_fails_when_no_frame_is_left_for_a_table() {
    let mut table = MappingTable::new();
    let mut allocator = allocator_with(2);
    let r = table.map_to(
        Page::containing_address(0x1000),
        PhysicalFrame::containing_address(0x7000),
        PageFlags::present_writable(),
        &mut allocator,
    );
    assert_eq!(r, Err(MapError::FrameAllocationFailed));
    assert_eq!(allocator.frames_allocated(), 2);
    assert_eq!(table.translate_addr(0x1000), None);
    // the two tables that were created stay: one more frame is enough now
    let mut more = allocator_with(1);
    let r = table.map_to(
        Page::containing_address(0x1000),
        PhysicalFrame::containing_address(0x7000),
        PageFlags::present_writable(),
        &mut more,
    );
    assert_eq!(r, Ok(()));
    assert_eq!(more.frames_allocated(), 1);
}

#[test]
fn a_mapping_that_is_not_present_does_not_translate() {
    let mut table = MappingTable::new();
    let mut allocator = allocator_with(8);
    let page = Page::containing_address(0x1000);
    let r = table.map_to(
        page,
        PhysicalFrame::containing_address(0x7000),
        PageFlags { bits: WRITABLE },
        &mut allocator,
    );
    assert_eq!(r, Ok(()));
    assert!(!PageFlags { bits: WRITABLE }.present());
    assert_eq!(table.translate_addr(0x1000), None);
    assert!(table.mapping_of(page).is_some());
}

#[test]
fn unmap_returns_the_frame_and_fails_on_an_unmapped_page() {
    let mut table = MappingTable::new();
    let mut allocator = allocator_with(8);
    let page = Page::containing_address(0x1000);
    assert_eq!(table.unmap(page), Err(UnmapError::PageNotMapped));
    table
        .map_to(
            page,
            PhysicalFrame::containing_address(0x7000),
            PageFlags::present_writable(),
            &mut allocator,
        )
        .unwrap();
    assert_eq!(table.unmap(page).map(|f| f.start_address()), Ok(0x7000));
    assert_eq!(table.translate_addr(0x1000), None);
    assert_eq!(table.unmap(page), Err(UnmapError::PageNotMapped));
}

#[test]
fn a_word_written_is_read_back_whether_mapped_before_or_not() {
    let mut table = MappingTable::new();
    let mut allocator = allocator_with(16);
    let mut memory = SparseMemory::new();
    // not mapped before the write
    assert_eq!(table.translate_addr(0xfee0_0020), None);
    assert_eq!(
        write_phys_memory32(&mut table, &mut allocator, &mut memory, 0xfee0_0020, 0xdead_beef),
        Ok(())
    );
    let after_write = allocator.frames_allocated();
    assert_eq!(after_write, 4);
    assert_eq!(
        read_phys_memory32(&mut table, &mut allocator, &memory, 0xfee0_0020),
        Ok(0xdead_beef)
    );
    assert_eq!(allocator.frames_allocated(), after_write);
    // mapped before the write
    assert_eq!(
        write_phys_memory32(&mut table, &mut allocator, &mut memory, 0xfee0_0024, 7),
        Ok(())
    );
    assert_eq!(read_phys_memory32(&mut table, &mut allocator, &memory, 0xfee0_0024), Ok(7));
    assert_eq!(
        read_phys_memory32(&mut table, &mut allocator, &memory, 0xfee0_0020),
        Ok(0xdead_beef)
    );
    assert_eq!(allocator.frames_allocated(), after_write);
}

#[test]
fn the_first_access_maps_the_next_free_frame() {
    let mut table = MappingTable::new();
    let mut allocator = allocator_with(16);
    let memory = SparseMemory::new();
    assert_eq!(read_phys_memory32(&mut table, &mut allocator, &memory, 0x5008), Ok(0));
    // the frame of the page came first, then three tables
    assert_eq!(table.translate_addr(0x5008), Some(0x10_0008));
    assert_eq!(allocator.frames_allocated(), 4);
}

#[test]
fn an_address_that_is_no_multiple_of_four_is_refused() {
    let mut table = MappingTable::new();
    let mut allocator = allocator_with(16);
    let mut memory = SparseMemory::new();
    for addr in [1u32, 2, 3, 0x1001, 0xffff_ffff] {
        assert_eq!(
            read_phys_memory32(&mut table, &mut allocator, &memory, addr),
            Err(PhysAccessError::Misaligned)
        );
        assert_eq!(
            write_phys_memory32(&mut table, &mut allocator, &mut memory, addr, 1),
            Err(PhysAccessError::Misaligned)
        );
    }
    assert_eq!(allocator.frames_allocated(), 0);
}

#[test]
fn access_fails_without_frames() {
    let mut table = MappingTable::new();
    let mut allocator = allocator_with(0);
    let memory = SparseMemory::new();
    assert_eq!(
        read_phys_memory32(&mut table, &mut allocator, &memory, 0x1000),
        Err(PhysAccessError::OutOfFrames)
    );
    let mut allocator = allocator_with(2);
    assert_eq!(
        read_phys_memory32(&mut table, &mut allocator, &memory, 0x1000),
        Err(PhysAccessError::MapFailed(MapError::FrameAllocationFailed))
    );
    assert_eq!(allocator.frames_allocated(), 2);
}

#[test]
fn access_to_a_page_that_is_mapped_but_not_present_fails() {
    let mut table = MappingTable::new();
    let mut allocator = allocator_with(16);
    let memory = SparseMemory::new();
    table
        .map_to(
            Page::containing_address(0x1000),
            PhysicalFrame::containing_address(0x7000),
            PageFlags { bits: 0 },
            &mut allocator,
        )
        .unwrap();
    assert_eq!(
        read_phys_memory32(&mut table, &mut allocator, &memory, 0x1000),
        Err(PhysAccessError::MapFailed(MapError::PageAlreadyMapped))
    );
}

#[test]
fn ensure_mapped_resolves_any_address() {
    let mut table = MappingTable::new();
    let mut allocator = allocator_with(16);
    assert_eq!(ensure_mapped(&mut table, &mut allocator, 0x1_0000_0003), Ok(0x10_0003));
    assert_eq!(ensure_mapped(&mut table, &mut allocator, 0x1_0000_0ffe), Ok(0x10_0ffe));
    assert_eq!(allocator.frames_allocated(), 4);
}

#[test]
fn words_are_stored_lowest_byte_first() {
    let mut memory = SparseMemory::new();
    memory.write32(0x100, 0x1122_3344);
    assert_eq!(memory.read32(0x100), 0x1122_3344);
    assert_eq!(memory.read32(0x101), 0x0011_2233);
    assert_eq!(memory.read32(0xfe), 0x3344_0000);
    memory.write32(0x102, 0xaabb_ccdd);
    assert_eq!(memory.read32(0x100), 0xccdd_3344);
    assert_eq!(memory.read32(0x104), 0x0000_aabb);
}

#[test]
fn a_region_is_mapped_page_by_page() {
    let mut handler = Handler::new(MappingTable::new(), allocator_with(64));
    let r = handler.map_physical_region(0xe_0ff0, 0x2020);
    assert_eq!(
        r,
        Ok(PhysicalMapping {
            physical_start: 0xe_0ff0,
            virtual_start: 0xe_0ff0,
            region_length: 0x2020,
            mapped_length: 0x2020,
        })
    );
    // the bytes touch four pages; three tables were missing
    assert_eq!(handler.allocator.frames_allocated(), 7);
    for addr in [0xe_0ff0u64, 0xe_0fff, 0xe_1000, 0xe_2abc, 0xe_300f] {
        assert!(handler.mapper.translate_addr(addr).is_some());
    }
    assert_eq!(handler.mapper.translate_addr(0xe_4000), None);
    assert_eq!(handler.mapper.translate_addr(0xd_ffff), None);
}

#[test]
fn an_empty_region_maps_nothing() {
    let mut handler = Handler::new(MappingTable::new(), allocator_with(64));
    let r = handler.map_physical_region(0x5000, 0);
    assert_eq!(r.map(|m| m.mapped_length), Ok(0));
    assert_eq!(handler.allocator.frames_allocated(), 0);
    assert_eq!(handler.mapper.translate_addr(0x5000), None);
}

#[test]
fn a_region_that_leaves_the_address_space_is_refused() {
    let mut handler = Handler::new(MappingTable::new(), allocator_with(64));
    assert_eq!(handler.map_physical_region(u64::MAX, 2), Err(RegionError::OutOfRange));
    assert_eq!(handler.map_physical_region(u64::MAX - 1, 3), Err(RegionError::OutOfRange));
    assert_eq!(handler.allocator.frames_allocated(), 0);
    // the last byte of the address space can be mapped
    assert!(handler.map_physical_region(u64::MAX, 1).is_ok());
}

#[test]
fn a_region_fails_where_frames_run_out() {
    let mut handler = Handler::new(MappingTable::new(), allocator_with(5));
    let r = handler.map_physical_region(0x1000, 0x3000);
    assert_eq!(r, Err(RegionError::Access(PhysAccessError::OutOfFrames)));
    // the first two pages stay mapped
    assert!(handler.mapper.translate_addr(0x1000).is_some());
    assert!(handler.mapper.translate_addr(0x2000).is_some());
    assert_eq!(handler.mapper.translate_addr(0x3000), None);
}

#[test]
fn unmapping_a_region_releases_the_page_of_its_start() {
    let mut handler = Handler::new(MappingTable::new(), allocator_with(64));
    let region = handler.map_physical_region(0x7010, 16).unwrap();
    let frame = handler.mapper.translate_addr(0x7000).unwrap();
    assert_eq!(handler.unmap_physical_region(&region).map(|f| f.start_address()), Ok(frame));
    assert_eq!(handler.mapper.translate_addr(0x7010), None);
    // a second time the page is not mapped: a warning, not a failure of the kernel
    assert_eq!(handler.unmap_physical_region(&region), Err(UnmapError::PageNotMapped));
}

#[test]
fn the_heap_is_mapped_page_by_page() {
    let mut table = MappingTable::new();
    let mut allocator = allocator_with(64);
    let r = init_heap(&mut table, &mut allocator);
    assert_eq!(r, Ok(HeapRegion { start: HEAP_START, size: HEAP_SIZE }));
    assert_eq!(HEAP_SIZE, HEAP_PAGES * 4096);
    // 25 pages and three tables
    assert_eq!(allocator.frames_allocated(), 28);
    let mut frames = Vec::new();
    for page in 0..HEAP_PAGES {
        let mapping = table.mapping_of(Page::containing_address(HEAP_START + page * 4096)).unwrap();
        assert_eq!(mapping.flags.bits, PRESENT | WRITABLE);
        frames.push(mapping.frame.start_address());
    }
    frames.dedup();
    assert_eq!(frames.len() as u64, HEAP_PAGES);
    assert_eq!(table.translate_addr(HEAP_START + 5), Some(0x10_0005));
    assert_eq!(table.translate_addr(HEAP_START + HEAP_SIZE), None);
    assert_eq!(table.translate_addr(HEAP_START - 1), None);
}

#[test]
fn the_heap_fails_without_enough_frames() {
    let mut table = MappingTable::new();
    let mut allocator = allocator_with(27);
    assert_eq!(init_heap(&mut table, &mut allocator), Err(HeapInitError::OutOfFrames));
    let mut table = MappingTable::new();
    let mut allocator = allocator_with(3);
    assert_eq!(
        init_heap(&mut table, &mut allocator),
        Err(HeapInitError::MapFailed(MapError::FrameAllocationFailed))
    );
    let mut table = MappingTable::new();
    let mut allocator = allocator_with(0);
    assert_eq!(init_heap(&mut table, &mut allocator), Err(HeapInitError::OutOfFrames));
}

#[test]
fn the_heap_fails_where_a_page_of_it_is_mapped_already() {
    let mut table = MappingTable::new();
    let mut allocator = allocator_with(64);
    table
        .map_to(
            Page::containing_address(HEAP_START + 4096),
            PhysicalFrame::containing_address(0x7000),
            PageFlags::present_writable(),
            &mut allocator,
        )
        .unwrap();
    assert_eq!(
        init_heap(&mut table, &mut allocator),
        Err(HeapInitError::MapFailed(MapError::PageAlreadyMapped))
    );
}
