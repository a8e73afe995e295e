//! The firmware-reported memory map and the frames that it offers.

use vstd::prelude::*;
use crate::memory::align::lemma_frame_size_power_of_two;

verus! {

/// Size in bytes of one physical frame and of one virtual page.
pub const FRAME_SIZE: u64 = 4096;

/// What the firmware says a span of physical memory is used for.
#[derive(Clone, Copy, Debug, PartialEq, Eq, Structural)]
pub enum MemoryKind {
    Usable,
    Reserved,
    AcpiReclaimable,
    Nvs,
    BadMemory,
    Kernel,
    Bootloader,
    Unknown(u32),
}

/// A span `[start, end)` of physical memory as the firmware reported it.
#[derive(Clone, Copy, Debug, PartialEq, Eq, Structural)]
pub struct MemoryRegion {
    pub start: u64,
    pub end: u64,
    pub kind: MemoryKind,
}

/// A 4096-byte unit of physical memory, named by its first address.
#[derive(Clone, Copy, Debug, PartialEq, Eq, Structural)]
pub struct PhysicalFrame {
    base: u64,
}

/// Largest multiple of the frame size that is not above `addr`.
pub open spec fn frame_floor(addr: int) -> int {
    addr - addr % 4096
}

/// Smallest multiple of the frame size that is not below `addr`.
pub open spec fn frame_ceil(addr: int) -> int {
    frame_floor(addr + 4095)
}

/// Address of the first whole frame of a region, whatever its kind.
pub open spec fn first_frame_base(r: MemoryRegion) -> int {
    frame_ceil(r.start as int)
}

/// Number of whole frames that a region offers: none unless it is usable.
pub open spec fn frames_in(r: MemoryRegion) -> nat {
    if r.kind == MemoryKind::Usable && r.end - first_frame_base(r) >= 4096 {
        ((r.end - first_frame_base(r)) / 4096) as nat
    } else {
        0
    }
}

/// Number of whole usable frames in a memory map.
pub open spec fn total_usable_frames(regions: Seq<MemoryRegion>) -> nat
    decreases regions.len(),
{
    if regions.len() == 0 {
        0
    } else {
        frames_in(regions[0]) + total_usable_frames(regions.skip(1))
    }
}

/// Base address of the `n`-th usable frame of a memory map, counting from
/// zero through the regions in the order in which the map lists them.
pub open spec fn nth_usable_frame(regions: Seq<MemoryRegion>, n: nat) -> Option<int>
    decreases regions.len(),
{
    if regions.len() == 0 {
        None
    } else if n < frames_in(regions[0]) {
        Some(first_frame_base(regions[0]) + 4096 * n)
    } else {
        nth_usable_frame(regions.skip(1), (n - frames_in(regions[0])) as nat)
    }
}

/// The regions of a map come in ascending order and do not overlap.
pub open spec fn ascending(regions: Seq<MemoryRegion>) -> bool {
    &&& forall|i: int| 0 <= i < regions.len() ==> (#[trigger] regions[i]).start <= regions[i].end
    &&& forall|i: int, j: int|
        0 <= i < j < regions.len() ==> (#[trigger] regions[i]).end <= (#[trigger] regions[j]).start
}

/// A whole frame at `base` lies inside region `r`, and `r` is usable.
pub open spec fn frame_within(base: int, r: MemoryRegion) -> bool {
    &&& r.kind == MemoryKind::Usable
    &&& r.start <= base
    &&& base + 4096 <= r.end
    &&& base % 4096 == 0
}

impl MemoryRegion {
    pub fn new(start: u64, end: u64, kind: MemoryKind) -> (r: MemoryRegion)
        ensures
            r == (MemoryRegion { start, end, kind }),
    {
        MemoryRegion { start, end, kind }
    }

    /// Address of the first whole frame, or `None` where rounding the start
    /// up leaves the address space.
    pub fn first_frame(&self) -> (r: Option<u64>)
        ensures
            r is Some <==> first_frame_base(*self) <= u64::MAX,
            r is Some ==> r.unwrap() as int == first_frame_base(*self),
    {
        if self.start > u64::MAX - (FRAME_SIZE - 1) {
            None
        } else {
            proof {
                lemma_frame_size_power_of_two();
            }
            Some(x86_64::align_up(self.start, FRAME_SIZE))
        }
    }

    /// Number of whole frames that this region offers to the allocator.
    pub fn frame_count(&self) -> (n: u64)
        ensures
            n as nat == frames_in(*self),
    {
        match self.kind {
            MemoryKind::Usable => match self.first_frame() {
                Some(first) => if self.end >= first && self.end - first >= FRAME_SIZE {
                    (self.end - first) / FRAME_SIZE
                } else {
                    0
                },
                None => 0,
            },
            _ => 0,
        }
    }
}

impl PhysicalFrame {
    /// Every frame starts on a multiple of the frame size.
    pub open spec fn wf(&self) -> bool {
        self.base() % 4096 == 0
    }

    pub closed spec fn base(&self) -> u64 {
        self.base
    }

    /// The frame that holds `addr`.
    pub fn containing_address(addr: u64) -> (f: PhysicalFrame)
        ensures
            f.wf(),
            f.base() as int == frame_floor(addr as int),
            f.base() <= addr < f.base() + 4096,
    {
        proof {
            lemma_frame_size_power_of_two();
        }
        PhysicalFrame { base: x86_64::align_down(addr, FRAME_SIZE) }
    }

    #[verifier::when_used_as_spec(base)]
    pub fn start_address(&self) -> (a: u64)
        ensures
            a == self.base(),
    {
        self.base
    }
}

/// Whether the regions of a map come in ascending order without overlap.
pub fn is_ascending(regions: &Vec<MemoryRegion>) -> (ok: bool)
    ensures
        ok == ascending(regions@),
{
    let mut i: usize = 0;
    let mut prev_end: u64 = 0;
    while i < regions.len()
        invariant
            i <= regions.len(),
            i == 0 ==> prev_end == 0,
            i > 0 ==> prev_end == regions@[i - 1].end,
            forall|k: int| 0 <= k < i ==> (#[trigger] regions@[k]).start <= regions@[k].end,
            forall|k: int| 0 <= k < i ==> (#[trigger] regions@[k]).end <= prev_end,
            forall|k: int, j: int|
                0 <= k < j < i ==> (#[trigger] regions@[k]).end <= (#[trigger] regions@[j]).start,
        decreases regions.len() - i,
    {
        let r = regions[i];
        if r.start > r.end {
            return false;
        }
        if r.start < prev_end {
            assert(regions@[i - 1].end > regions@[i as int].start);
            return false;
        }
        prev_end = r.end;
        i += 1;
    }
    true
}

} // verus!
