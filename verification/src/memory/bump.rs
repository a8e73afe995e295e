//! The dynamic allocator that takes over the heap: blocks are carved off
//! the heap one behind the other, and the heap starts over once every
//! block has been given back.

use vstd::prelude::*;
use crate::memory::align::is_power_of_two;
use crate::memory::heap::HeapRegion;

verus! {

/// A bump allocator over one range of addresses.
pub struct BumpAllocator {
    heap_start: u64,
    heap_end: u64,
    next: u64,
    allocations: u64,
}

impl BumpAllocator {
    /// First address of the heap.
    pub closed spec fn start(&self) -> u64 {
        self.heap_start
    }

    /// First address behind the heap.
    pub closed spec fn end(&self) -> u64 {
        self.heap_end
    }

    /// First address that no block has been carved from.
    pub closed spec fn next(&self) -> u64 {
        self.next
    }

    /// Number of blocks that are handed out and not given back.
    pub closed spec fn live(&self) -> u64 {
        self.allocations
    }

    /// The addresses handed out so far lie inside the heap; while no block
    /// is out, none is carved off.
    pub open spec fn wf(&self) -> bool {
        &&& self.start() <= self.next() <= self.end()
        &&& self.live() == 0 ==> self.next() == self.start()
    }

    /// An allocator over `region` that has handed out nothing, or `None`
    /// where the region does not end inside the address space.
    pub fn new(region: HeapRegion) -> (r: Option<BumpAllocator>)
        ensures
            r is Some <==> region.start + region.size <= u64::MAX,
            r is Some ==> {
                &&& r.unwrap().wf()
                &&& r.unwrap().start() == region.start
                &&& r.unwrap().end() == region.start + region.size
                &&& r.unwrap().next() == region.start
                &&& r.unwrap().live() == 0
            },
    {
        if region.size > u64::MAX - region.start {
            None
        } else {
            Some(
                BumpAllocator {
                    heap_start: region.start,
                    heap_end: region.start + region.size,
                    next: region.start,
                    allocations: 0,
                },
            )
        }
    }

    /// The address at which a block of `size` bytes with alignment `align`
    /// would begin: the first multiple of `align` that no block has been
    /// carved from.
    pub open spec fn placement(&self, align: u64) -> int {
        (self.next() + (align - 1)) - (self.next() + (align - 1)) % (align as int)
    }

    /// Whether a block of `size` bytes with alignment `align` can be
    /// carved off: the alignment is a power of two, an address that much
    /// above the last block is still an address, the block ends inside the
    /// heap, and the number of blocks can still be counted.
    pub open spec fn fits(&self, size: u64, align: u64) -> bool {
        &&& is_power_of_two(align)
        &&& self.next() + (align - 1) <= u64::MAX
        &&& self.placement(align) + size <= self.end()
        &&& self.live() < u64::MAX
    }

    /// Carves a block of `size` bytes with alignment `align` off the heap
    /// and returns its first address, or `None`, changing nothing, where it
    /// does not fit.
    pub fn allocate(&mut self, size: u64, align: u64) -> (r: Option<u64>)
        requires
            old(self).wf(),
        ensures
            final(self).wf(),
            final(self).start() == old(self).start(),
            final(self).end() == old(self).end(),
            r is Some <==> old(self).fits(size, align),
            r is Some ==> {
                &&& r.unwrap() as int == old(self).placement(align)
                &&& r.unwrap() >= old(self).next()
                &&& r.unwrap() % align == 0
                &&& final(self).next() == r.unwrap() + size
                &&& final(self).live() == old(self).live() + 1
            },
            r is None ==> final(self).next() == old(self).next() && final(self).live() == old(
                self,
            ).live(),
    {
        if align == 0 || align & (align - 1) != 0 {
            return None;
        }
        if self.allocations == u64::MAX {
            return None;
        }
        if self.next > u64::MAX - (align - 1) {
            return None;
        }
        let begin = x86_64::align_up(self.next, align);
        proof {
            lemma_rounding(self.next, align);
        }
        if begin > self.heap_end || size > self.heap_end - begin {
            return None;
        }
        self.next = begin + size;
        self.allocations = self.allocations + 1;
        Some(begin)
    }

    /// Takes a block back. Once every block is back, the heap starts over.
    /// A call that no block stands for changes nothing.
    pub fn release(&mut self)
        requires
            old(self).wf(),
        ensures
            final(self).wf(),
            final(self).start() == old(self).start(),
            final(self).end() == old(self).end(),
            final(self).live() == if old(self).live() == 0 {
                0
            } else {
                (old(self).live() - 1) as u64
            },
            final(self).next() == if old(self).live() <= 1 {
                old(self).start()
            } else {
                old(self).next()
            },
    {
        if self.allocations == 0 {
            return ;
        }
        self.allocations = self.allocations - 1;
        if self.allocations == 0 {
            self.next = self.heap_start;
        }
    }
}

/// Rounding `addr` up to a multiple of `align` gives a multiple of `align`
/// that is at least `addr` and less than `align` above it.
pub proof fn lemma_rounding(addr: u64, align: u64)
    requires
        align > 0,
    ensures
        ({
            let rounded = (addr + (align - 1)) - (addr + (align - 1)) % (align as int);
            &&& addr <= rounded < addr + align
            &&& rounded % (align as int) == 0
        }),
{
    let top = addr + (align - 1);
    let a = align as int;
    assert(0 <= top % a < a) by (nonlinear_arith)
        requires
            a > 0,
            top >= 0,
    ;
    assert((top - top % a) % a == 0) by (nonlinear_arith)
        requires
            a > 0,
            top >= 0,
    ;
}

} // verus!
