//! The kernel heap: a fixed range of virtual addresses, every page of which
//! is mapped to a frame of its own before the range is handed to the
//! dynamic allocator.

use vstd::prelude::*;
use crate::memory::frame_allocator::{frames_left, BootInfoFrameAllocator};
use crate::memory::paging::{
    AddressSpace, MapError, Page, PageFlags, PageMapper, PRESENT, WRITABLE,
};
use crate::memory::region_mapper::lemma_same_page;
use crate::memory::regions::{nth_usable_frame, MemoryRegion, FRAME_SIZE};

verus! {

/// First address of the heap.
pub const HEAP_START: u64 = 0x4444_4444_0000;

/// Size of the heap in bytes: a whole number of pages.
pub const HEAP_SIZE: u64 = 102400;

/// Number of pages that the heap spans.
pub const HEAP_PAGES: u64 = 25;

/// The range of virtual addresses that backs the dynamic allocator.
#[derive(Clone, Copy, Debug, PartialEq, Eq, Structural)]
pub struct HeapRegion {
    pub start: u64,
    pub size: u64,
}

/// Why the heap could not be set up.
#[derive(Clone, Copy, Debug, PartialEq, Eq, Structural)]
pub enum HeapInitError {
    /// No frame was left for a page of the heap.
    OutOfFrames,
    /// A page of the heap could not be mapped.
    MapFailed(MapError),
}

/// What mapping a run of pages to fresh frames comes to.
pub struct HeapOutcome {
    pub space: AddressSpace,
    pub allocated: nat,
    pub result: Result<(), HeapInitError>,
}

/// Maps `count` pages in ascending order, the first at `page`, each to the
/// next frame of `regions`, present and writable, and stops at the first
/// page for which no frame is left or mapping fails. The frame of a page
/// is taken before the page is mapped.
pub open spec fn map_fresh_pages(
    space: AddressSpace,
    regions: Seq<MemoryRegion>,
    allocated: nat,
    page: u64,
    count: nat,
) -> HeapOutcome
    decreases count,
{
    if count == 0 {
        HeapOutcome { space, allocated, result: Ok(()) }
    } else if frames_left(regions, allocated) == 0 {
        HeapOutcome { space, allocated, result: Err(HeapInitError::OutOfFrames) }
    } else {
        let outcome = space.map(
            page,
            nth_usable_frame(regions, allocated).unwrap() as u64,
            PRESENT | WRITABLE,
            (frames_left(regions, allocated) - 1) as nat,
        );
        match outcome.result {
            Err(e) => HeapOutcome {
                space: outcome.space,
                allocated: allocated + 1 + outcome.frames_used,
                result: Err(HeapInitError::MapFailed(e)),
            },
            Ok(_) => map_fresh_pages(
                outcome.space,
                regions,
                allocated + 1 + outcome.frames_used,
                (page + 4096) as u64,
                (count - 1) as nat,
            ),
        }
    }
}

/// Maps every page of the heap to a fresh frame, present and writable, and
/// returns the range for the dynamic allocator to take over.
pub fn init_heap<M: PageMapper>(mapper: &mut M, frame_allocator: &mut BootInfoFrameAllocator) -> (r:
    Result<HeapRegion, HeapInitError>)
    requires
        old(mapper).inv(),
        old(mapper).space().wf(),
        old(frame_allocator).wf(),
    ensures
        final(mapper).inv(),
        final(mapper).space().wf(),
        final(frame_allocator).wf(),
        final(frame_allocator).regions() == old(frame_allocator).regions(),
        ({
            let outcome = map_fresh_pages(
                old(mapper).space(),
                old(frame_allocator).regions(),
                old(frame_allocator).allocated(),
                HEAP_START,
                HEAP_PAGES as nat,
            );
            &&& final(mapper).space() == outcome.space
            &&& final(frame_allocator).allocated() == outcome.allocated
            &&& match outcome.result {
                Ok(_) => r == Ok::<HeapRegion, HeapInitError>(
                    HeapRegion { start: HEAP_START, size: HEAP_SIZE },
                ),
                Err(e) => r == Err::<HeapRegion, HeapInitError>(e),
            }
        }),
        r is Ok ==> forall|a: u64|
            HEAP_START <= a < HEAP_START + HEAP_SIZE ==> (#[trigger] final(mapper).space().translate(
                a,
            )) is Some,
{
    let mut page_addr = HEAP_START;
    let mut done: u64 = 0;
    while done < HEAP_PAGES
        invariant
            mapper.inv(),
            mapper.space().wf(),
            frame_allocator.wf(),
            frame_allocator.regions() == old(frame_allocator).regions(),
            done <= HEAP_PAGES,
            page_addr as int == HEAP_START + 4096 * done,
            map_fresh_pages(
                old(mapper).space(),
                old(frame_allocator).regions(),
                old(frame_allocator).allocated(),
                HEAP_START,
                HEAP_PAGES as nat,
            ) == map_fresh_pages(
                mapper.space(),
                frame_allocator.regions(),
                frame_allocator.allocated(),
                page_addr,
                (HEAP_PAGES - done) as nat,
            ),
            forall|a: u64|
                HEAP_START <= a < HEAP_START + 4096 * done ==> (#[trigger] mapper.space().translate(
                    a,
                )) is Some,
        decreases HEAP_PAGES - done,
    {
        let ghost before = mapper.space();
        let frame = match frame_allocator.allocate_frame() {
            Some(frame) => frame,
            None => {
                return Err(HeapInitError::OutOfFrames);
            },
        };
        let page = Page::containing_address(page_addr);
        let flags = PageFlags::present_writable();
        match mapper.map_to(page, frame, flags, frame_allocator) {
            Ok(_) => {
                proof {
                    assert((PRESENT | WRITABLE) & PRESENT != 0) by (bit_vector);
                    assert forall|a: u64|
                        HEAP_START <= a < HEAP_START + 4096 * (done + 1) implies (
                    #[trigger] mapper.space().translate(a)) is Some by {
                        if a < HEAP_START + 4096 * done {
                            assert(before.translate(a) is Some);
                        } else {
                            lemma_same_page(page_addr, a);
                        }
                    }
                }
            },
            Err(e) => {
                return Err(HeapInitError::MapFailed(e));
            },
        }
        done = done + 1;
        page_addr = page_addr + FRAME_SIZE;
    }
    Ok(HeapRegion { start: HEAP_START, size: HEAP_SIZE })
}

} // verus!
