//! Access to physical addresses that may not be mapped yet: an address is
//! resolved through the page mapper, and where it does not resolve, a fresh
//! frame is mapped under its page and it is resolved again.

use vstd::prelude::*;
use crate::memory::frame_allocator::{frames_left, BootInfoFrameAllocator};
use crate::memory::paging::{
    AddressSpace, MapError, Page, PageFlags, PageMapper, PRESENT, WRITABLE,
};
use crate::memory::regions::{frame_floor, nth_usable_frame, MemoryRegion};
use crate::memory::word_memory::{lemma_word_of_bytes, word_at, WordMemory};

verus! {

/// Why a physical address could not be read or written.
#[derive(Clone, Copy, Debug, PartialEq, Eq, Structural)]
pub enum PhysAccessError {
    /// The address of a 32-bit word is no multiple of four.
    Misaligned,
    /// The address was not mapped and no frame was left to map it.
    OutOfFrames,
    /// The address was not mapped and its page could not be mapped.
    MapFailed(MapError),
}

/// What resolving an address comes to: the address space and the number of
/// frames handed out afterwards, and the resolved address or the failure.
pub struct Resolution {
    pub space: AddressSpace,
    pub allocated: nat,
    pub result: Result<u64, PhysAccessError>,
}

/// Resolves `addr` in `space`, mapping a fresh frame under its page where it
/// does not resolve. The frame is the next one of `regions` after the
/// `allocated` frames handed out before; it is taken before the page is
/// mapped and stays taken where mapping fails.
pub open spec fn resolve(
    space: AddressSpace,
    regions: Seq<MemoryRegion>,
    allocated: nat,
    addr: u64,
) -> Resolution {
    match space.translate(addr) {
        Some(resolved) => Resolution { space, allocated, result: Ok(resolved) },
        None => if frames_left(regions, allocated) == 0 {
            Resolution { space, allocated, result: Err(PhysAccessError::OutOfFrames) }
        } else {
            let frame = nth_usable_frame(regions, allocated).unwrap() as u64;
            let outcome = space.map(
                frame_floor(addr as int) as u64,
                frame,
                PRESENT | WRITABLE,
                (frames_left(regions, allocated) - 1) as nat,
            );
            Resolution {
                space: outcome.space,
                allocated: allocated + 1 + outcome.frames_used,
                result: match outcome.result {
                    Ok(_) => Ok((frame + addr % 4096) as u64),
                    Err(e) => Err(PhysAccessError::MapFailed(e)),
                },
            }
        },
    }
}

/// Resolves `addr`, mapping its page to a fresh frame, present and
/// writable, where it does not resolve yet.
pub fn ensure_mapped<M: PageMapper>(
    mapper: &mut M,
    allocator: &mut BootInfoFrameAllocator,
    addr: u64,
) -> (r: Result<u64, PhysAccessError>)
    requires
        old(mapper).inv(),
        old(mapper).space().wf(),
        old(allocator).wf(),
    ensures
        final(mapper).inv(),
        final(mapper).space().wf(),
        final(allocator).wf(),
        final(allocator).regions() == old(allocator).regions(),
        ({
            let res = resolve(
                old(mapper).space(),
                old(allocator).regions(),
                old(allocator).allocated(),
                addr,
            );
            &&& r == res.result
            &&& final(mapper).space() == res.space
            &&& final(allocator).allocated() == res.allocated
        }),
        r is Ok ==> final(mapper).space().translate(addr) == Some(r.unwrap()),
{
    match mapper.translate_addr(addr) {
        Some(resolved) => Ok(resolved),
        None => {
            let frame = match allocator.allocate_frame() {
                Some(frame) => frame,
                None => {
                    return Err(PhysAccessError::OutOfFrames);
                },
            };
            let flags = PageFlags::present_writable();
            let page = Page::containing_address(addr);
            match mapper.map_to(page, frame, flags, allocator) {
                Ok(_) => {
                    let resolved = mapper.translate_addr(addr);
                    Ok(resolved.unwrap())
                },
                Err(e) => Err(PhysAccessError::MapFailed(e)),
            }
        },
    }
}

/// Reads the 32-bit word at the physical address `addr`, mapping its page
/// first where it is not mapped.
pub fn read_phys_memory32<M: PageMapper, W: WordMemory>(
    mapper: &mut M,
    allocator: &mut BootInfoFrameAllocator,
    memory: &W,
    addr: u32,
) -> (r: Result<u32, PhysAccessError>)
    requires
        old(mapper).inv(),
        old(mapper).space().wf(),
        old(allocator).wf(),
    ensures
        final(mapper).inv(),
        final(mapper).space().wf(),
        final(allocator).wf(),
        final(allocator).regions() == old(allocator).regions(),
        addr % 4 != 0 ==> {
            &&& r == Err::<u32, PhysAccessError>(PhysAccessError::Misaligned)
            &&& final(mapper).space() == old(mapper).space()
            &&& final(allocator).allocated() == old(allocator).allocated()
        },
        addr % 4 == 0 ==> ({
            let res = resolve(
                old(mapper).space(),
                old(allocator).regions(),
                old(allocator).allocated(),
                addr as u64,
            );
            &&& final(mapper).space() == res.space
            &&& final(allocator).allocated() == res.allocated
            &&& match res.result {
                Ok(resolved) => r == Ok::<u32, PhysAccessError>(word_at(memory, resolved)),
                Err(e) => r == Err::<u32, PhysAccessError>(e),
            }
        }),
{
    if addr % 4 != 0 {
        return Err(PhysAccessError::Misaligned);
    }
    match ensure_mapped(mapper, allocator, addr as u64) {
        Ok(resolved) => {
            proof {
                lemma_resolved_word_fits(mapper.space(), addr as u64);
            }
            Ok(memory.read32(resolved))
        },
        Err(e) => Err(e),
    }
}

/// Writes `value` to the 32-bit word at the physical address `addr`,
/// mapping its page first where it is not mapped.
pub fn write_phys_memory32<M: PageMapper, W: WordMemory>(
    mapper: &mut M,
    allocator: &mut BootInfoFrameAllocator,
    memory: &mut W,
    addr: u32,
    value: u32,
) -> (r: Result<(), PhysAccessError>)
    requires
        old(mapper).inv(),
        old(mapper).space().wf(),
        old(allocator).wf(),
    ensures
        final(mapper).inv(),
        final(mapper).space().wf(),
        final(allocator).wf(),
        final(allocator).regions() == old(allocator).regions(),
        addr % 4 != 0 ==> {
            &&& r == Err::<(), PhysAccessError>(PhysAccessError::Misaligned)
            &&& final(mapper).space() == old(mapper).space()
            &&& final(allocator).allocated() == old(allocator).allocated()
        },
        addr % 4 == 0 ==> ({
            let res = resolve(
                old(mapper).space(),
                old(allocator).regions(),
                old(allocator).allocated(),
                addr as u64,
            );
            &&& final(mapper).space() == res.space
            &&& final(allocator).allocated() == res.allocated
            &&& match res.result {
                Ok(resolved) => {
                    &&& r == Ok::<(), PhysAccessError>(())
                    &&& word_at(final(memory), resolved) == value
                    &&& forall|a: u64|
                        !(resolved <= a <= resolved + 3) ==> #[trigger] final(memory).byte_at(a)
                            == old(memory).byte_at(a)
                },
                Err(e) => r == Err::<(), PhysAccessError>(e),
            }
        }),
        r is Err ==> forall|a: u64| #[trigger] final(memory).byte_at(a) == old(memory).byte_at(a),
{
    if addr % 4 != 0 {
        return Err(PhysAccessError::Misaligned);
    }
    match ensure_mapped(mapper, allocator, addr as u64) {
        Ok(resolved) => {
            proof {
                lemma_resolved_word_fits(mapper.space(), addr as u64);
                lemma_word_of_bytes(value);
            }
            memory.write32(resolved, value);
            Ok(())
        },
        Err(e) => Err(e),
    }
}

/// The word at an address that is a multiple of four lies inside one frame
/// once the address is resolved.
pub proof fn lemma_resolved_word_fits(space: AddressSpace, addr: u64)
    requires
        space.wf(),
        addr % 4 == 0,
        space.translate(addr) is Some,
    ensures
        space.translate(addr).unwrap() <= u64::MAX - 3,
        space.translate(addr).unwrap() % 4 == 0,
{
    let page = frame_floor(addr as int) as u64;
    assert(space.mappings.contains_key(page));
    let frame = space.mappings[page].0;
    let offset = addr % 4096;
    assert(offset <= 4092 && offset % 4 == 0) by (bit_vector)
        requires
            addr % 4 == 0,
            offset == addr % 4096,
    ;
    assert(frame <= 0xffff_ffff_ffff_f000) by (bit_vector)
        requires
            frame % 4096 == 0,
    ;
    assert((frame + offset) as u64 % 4 == 0) by (bit_vector)
        requires
            frame % 4096 == 0,
            offset <= 4092,
            offset % 4 == 0,
    ;
}

/// A word that was written is the word that is read back: once a write to
/// `addr` has resolved, a read of `addr` resolves to the same place and maps
/// nothing more, whether `addr` was mapped before the write or not, and so
/// it finds the word that the write stored there.
pub proof fn lemma_write_then_read<W: WordMemory>(
    space: AddressSpace,
    regions: Seq<MemoryRegion>,
    allocated: nat,
    addr: u32,
    value: u32,
    written: &W,
)
    requires
        space.wf(),
        resolve(space, regions, allocated, addr as u64).result is Ok,
        word_at(written, resolve(space, regions, allocated, addr as u64).result.unwrap()) == value,
    ensures
        ({
            let write = resolve(space, regions, allocated, addr as u64);
            let read = resolve(write.space, regions, write.allocated, addr as u64);
            &&& read.result == write.result
            &&& read.space == write.space
            &&& read.allocated == write.allocated
            &&& word_at(written, read.result.unwrap()) == value
        }),
{
    lemma_resolved_stays(space, regions, allocated, addr as u64);
}

/// Reading twice gives the same word: once a read of `addr` has resolved,
/// a second one resolves to the same place, maps nothing more, and so
/// finds what the first one found, as long as nothing was written between
/// the two.
pub proof fn lemma_repeated_reads_agree<W: WordMemory>(
    space: AddressSpace,
    regions: Seq<MemoryRegion>,
    allocated: nat,
    addr: u32,
    memory: &W,
)
    requires
        space.wf(),
        resolve(space, regions, allocated, addr as u64).result is Ok,
    ensures
        ({
            let first = resolve(space, regions, allocated, addr as u64);
            let second = resolve(first.space, regions, first.allocated, addr as u64);
            &&& second.result == first.result
            &&& second.space == first.space
            &&& second.allocated == first.allocated
            &&& word_at(memory, second.result.unwrap()) == word_at(memory, first.result.unwrap())
        }),
{
    lemma_resolved_stays(space, regions, allocated, addr as u64);
}

/// An address that was resolved resolves to the same place afterwards.
pub proof fn lemma_resolved_stays(
    space: AddressSpace,
    regions: Seq<MemoryRegion>,
    allocated: nat,
    addr: u64,
)
    requires
        space.wf(),
        resolve(space, regions, allocated, addr).result is Ok,
    ensures
        resolve(space, regions, allocated, addr).space.translate(addr) == Some(
            resolve(space, regions, allocated, addr).result.unwrap(),
        ),
{
    assert((PRESENT | WRITABLE) & PRESENT != 0) by (bit_vector);
    let page = frame_floor(addr as int) as u64;
    if space.translate(addr) is None {
        let frame = nth_usable_frame(regions, allocated).unwrap() as u64;
        let outcome = space.map(
            page,
            frame,
            PRESENT | WRITABLE,
            (frames_left(regions, allocated) - 1) as nat,
        );
        assert(outcome.space.mappings.contains_key(page));
        assert(outcome.space.mappings[page] == (frame, PRESENT | WRITABLE));
    }
}

} // verus!
