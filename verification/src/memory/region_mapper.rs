//! Mapping of whole physical regions on demand, as a reader of firmware
//! tables asks for it: every page that a region touches is resolved, and
//! mapped to a fresh frame where it does not resolve.

use vstd::prelude::*;
use crate::memory::frame_allocator::BootInfoFrameAllocator;
use crate::memory::paging::{AddressSpace, Page, PageMapper, UnmapError, PRESENT, WRITABLE};
use crate::memory::physical::{ensure_mapped, resolve, PhysAccessError};
use crate::memory::regions::{frame_floor, MemoryRegion, PhysicalFrame, FRAME_SIZE};

verus! {

/// A physical region that was made accessible, and where.
#[derive(Clone, Copy, Debug, PartialEq, Eq, Structural)]
pub struct PhysicalMapping {
    pub physical_start: u64,
    pub virtual_start: u64,
    pub region_length: u64,
    pub mapped_length: u64,
}

/// Why a physical region could not be made accessible.
#[derive(Clone, Copy, Debug, PartialEq, Eq, Structural)]
pub enum RegionError {
    /// The region does not end inside the address space.
    OutOfRange,
    /// A page of the region could not be resolved.
    Access(PhysAccessError),
}

/// What resolving a run of pages comes to.
pub struct RangeOutcome {
    pub space: AddressSpace,
    pub allocated: nat,
    pub result: Result<(), PhysAccessError>,
}

/// Number of pages that the `size` bytes from `physical_address` touch.
pub open spec fn pages_touched(physical_address: u64, size: u64) -> nat {
    if size == 0 {
        0
    } else {
        ((frame_floor(physical_address + size - 1) - frame_floor(physical_address as int)) / 4096
            + 1) as nat
    }
}

/// Resolves `count` pages in ascending order, the first at `page`, and
/// stops at the first that cannot be resolved.
pub open spec fn resolve_pages(
    space: AddressSpace,
    regions: Seq<MemoryRegion>,
    allocated: nat,
    page: u64,
    count: nat,
) -> RangeOutcome
    decreases count,
{
    if count == 0 {
        RangeOutcome { space, allocated, result: Ok(()) }
    } else {
        let first = resolve(space, regions, allocated, page);
        match first.result {
            Err(e) => RangeOutcome { space: first.space, allocated: first.allocated, result: Err(e) },
            Ok(_) => resolve_pages(
                first.space,
                regions,
                first.allocated,
                (page + 4096) as u64,
                (count - 1) as nat,
            ),
        }
    }
}

/// The page mapper and the frame allocator of one boot, as the capability
/// that makes physical regions accessible.
pub struct Handler<M: PageMapper> {
    pub mapper: M,
    pub allocator: BootInfoFrameAllocator,
}

impl<M: PageMapper> Handler<M> {
    /// Mapper and allocator are in a state in which they may be used.
    pub open spec fn wf(&self) -> bool {
        &&& self.mapper.inv()
        &&& self.mapper.space().wf()
        &&& self.allocator.wf()
    }

    pub fn new(mapper: M, allocator: BootInfoFrameAllocator) -> (h: Handler<M>)
        requires
            mapper.inv(),
            mapper.space().wf(),
            allocator.wf(),
        ensures
            h.wf(),
            h.mapper == mapper,
            h.allocator == allocator,
    {
        Handler { mapper, allocator }
    }

    /// Makes the `size` bytes from `physical_address` accessible: resolves
    /// every page that they touch, in ascending order, mapping a fresh frame
    /// where a page does not resolve, and stops at the first failure. The
    /// region is accessible at its own address.
    pub fn map_physical_region(&mut self, physical_address: u64, size: u64) -> (r: Result<
        PhysicalMapping,
        RegionError,
    >)
        requires
            old(self).wf(),
        ensures
            final(self).wf(),
            final(self).allocator.regions() == old(self).allocator.regions(),
            physical_address + size > u64::MAX + 1 ==> {
                &&& r == Err::<PhysicalMapping, RegionError>(RegionError::OutOfRange)
                &&& final(self).mapper.space() == old(self).mapper.space()
                &&& final(self).allocator.allocated() == old(self).allocator.allocated()
            },
            physical_address + size <= u64::MAX + 1 ==> ({
                let outcome = resolve_pages(
                    old(self).mapper.space(),
                    old(self).allocator.regions(),
                    old(self).allocator.allocated(),
                    frame_floor(physical_address as int) as u64,
                    pages_touched(physical_address, size),
                );
                &&& final(self).mapper.space() == outcome.space
                &&& final(self).allocator.allocated() == outcome.allocated
                &&& match outcome.result {
                    Ok(_) => r == Ok::<PhysicalMapping, RegionError>(
                        PhysicalMapping {
                            physical_start: physical_address,
                            virtual_start: physical_address,
                            region_length: size,
                            mapped_length: size,
                        },
                    ),
                    Err(e) => r == Err::<PhysicalMapping, RegionError>(RegionError::Access(e)),
                }
            }),
            r is Ok ==> forall|a: u64|
                physical_address <= a < physical_address + size ==> (
                #[trigger] final(self).mapper.space().translate(a)) is Some,
    {
        if size == 0 {
            return Ok(
                PhysicalMapping {
                    physical_start: physical_address,
                    virtual_start: physical_address,
                    region_length: size,
                    mapped_length: size,
                },
            );
        }
        if physical_address > u64::MAX - (size - 1) {
            return Err(RegionError::OutOfRange);
        }
        let last = physical_address + (size - 1);
        let first_page = physical_address - physical_address % FRAME_SIZE;
        let last_page = last - last % FRAME_SIZE;
        let count = (last_page - first_page) / FRAME_SIZE + 1;
        let mut page = first_page;
        let mut done: u64 = 0;
        proof {
            lemma_page_span(first_page, last_page);
        }
        while done < count
            invariant
                self.wf(),
                self.allocator.regions() == old(self).allocator.regions(),
                done <= count,
                physical_address + size <= u64::MAX + 1,
                first_page as int == frame_floor(physical_address as int),
                count == pages_touched(physical_address, size),
                first_page % 4096 == 0,
                first_page + 4096 * (count - 1) == last_page,
                page as int == first_page + 4096 * done || done == count,
                resolve_pages(
                    old(self).mapper.space(),
                    old(self).allocator.regions(),
                    old(self).allocator.allocated(),
                    first_page,
                    count as nat,
                ) == resolve_pages(
                    self.mapper.space(),
                    self.allocator.regions(),
                    self.allocator.allocated(),
                    page,
                    (count - done) as nat,
                ),
                forall|a: u64|
                    first_page <= a < first_page + 4096 * done ==> (
                    #[trigger] self.mapper.space().translate(a)) is Some,
            decreases count - done,
        {
            let ghost before = self.mapper.space();
            let ghost taken = self.allocator.allocated();
            match ensure_mapped(&mut self.mapper, &mut self.allocator, page) {
                Ok(_) => {
                    proof {
                        lemma_resolve_keeps(
                            before,
                            self.allocator.regions(),
                            taken,
                            page,
                        );
                        assert forall|a: u64|
                            first_page <= a < first_page + 4096 * (done + 1) implies (
                        #[trigger] self.mapper.space().translate(a)) is Some by {
                            if a < first_page + 4096 * done {
                                assert(before.translate(a) is Some);
                            } else {
                                lemma_same_page(page, a);
                            }
                        }
                    }
                },
                Err(e) => {
                    return Err(RegionError::Access(e));
                },
            }
            let ghost next = (page + 4096) as u64;
            assert(resolve_pages(
                before,
                self.allocator.regions(),
                taken,
                page,
                (count - done) as nat,
            ) == resolve_pages(
                self.mapper.space(),
                self.allocator.regions(),
                self.allocator.allocated(),
                next,
                (count - done - 1) as nat,
            ));
            done = done + 1;
            if done < count {
                page = page + FRAME_SIZE;
            } else {
                assert(resolve_pages(
                    self.mapper.space(),
                    self.allocator.regions(),
                    self.allocator.allocated(),
                    next,
                    0,
                ) == resolve_pages(
                    self.mapper.space(),
                    self.allocator.regions(),
                    self.allocator.allocated(),
                    page,
                    0,
                ));
            }
        }
        Ok(
            PhysicalMapping {
                physical_start: physical_address,
                virtual_start: physical_address,
                region_length: size,
                mapped_length: size,
            },
        )
    }

    /// Releases the page that holds the start of `region`. A failure does
    /// no harm: the page was not mapped, and nothing changes.
    pub fn unmap_physical_region(&mut self, region: &PhysicalMapping) -> (r: Result<
        PhysicalFrame,
        UnmapError,
    >)
        requires
            old(self).wf(),
        ensures
            final(self).wf(),
            final(self).allocator == old(self).allocator,
            final(self).mapper.space().tables == old(self).mapper.space().tables,
            ({
                let page = frame_floor(region.physical_start as int) as u64;
                let before = old(self).mapper.space().mappings;
                &&& before.contains_key(page) ==> {
                    &&& r is Ok
                    &&& r.unwrap().base() == before[page].0
                    &&& final(self).mapper.space().mappings == before.remove(page)
                }
                &&& !before.contains_key(page) ==> {
                    &&& r == Err::<PhysicalFrame, UnmapError>(UnmapError::PageNotMapped)
                    &&& final(self).mapper.space() == old(self).mapper.space()
                }
            }),
    {
        let page = Page::containing_address(region.physical_start);
        self.mapper.unmap(page)
    }
}

/// The pages from `first` to `last` are one more than their distance in
/// pages.
pub proof fn lemma_page_span(first: u64, last: u64)
    requires
        first % 4096 == 0,
        last % 4096 == 0,
        first <= last,
    ensures
        first + 4096 * ((last - first) / 4096) == last,
{
    let distance = last - first;
    assert(distance % 4096 == 0);
    assert(4096 * (distance / 4096) == distance);
}

/// Every address of a page lies in the page that starts at the page's
/// first address.
pub proof fn lemma_same_page(page: u64, a: u64)
    requires
        page % 4096 == 0,
        page <= a < page + 4096,
    ensures
        frame_floor(a as int) == page,
        frame_floor(page as int) == page,
{
    let offset = a - page;
    assert(a % 4096 == offset);
}

/// Resolving an address takes no present mapping away, and where it
/// succeeds, every address of the same page resolves afterwards.
pub proof fn lemma_resolve_keeps(
    space: AddressSpace,
    regions: Seq<MemoryRegion>,
    allocated: nat,
    addr: u64,
)
    requires
        space.wf(),
    ensures
        forall|a: u64|
            (#[trigger] space.translate(a)) is Some ==> resolve(
                space,
                regions,
                allocated,
                addr,
            ).space.translate(a) == space.translate(a),
        resolve(space, regions, allocated, addr).result is Ok ==> forall|a: u64|
            frame_floor(a as int) == frame_floor(addr as int) ==> (#[trigger] resolve(
                space,
                regions,
                allocated,
                addr,
            ).space.translate(a)) is Some,
{
    assert((PRESENT | WRITABLE) & PRESENT != 0) by (bit_vector);
}

} // verus!
