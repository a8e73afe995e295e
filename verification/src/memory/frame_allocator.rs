//! The boot-time frame allocator: a cursor over the usable frames of the
//! memory map, which hands each of them out once and takes none back.

use vstd::prelude::*;
use crate::memory::regions::{
    ascending, first_frame_base, frame_within, frames_in, nth_usable_frame,
    total_usable_frames, MemoryRegion, PhysicalFrame, FRAME_SIZE,
};

verus! {

/// Number of frames that an allocator over `regions` can hand out in all:
/// the usable frames of the map, as far as a 64-bit cursor can count them.
pub open spec fn capacity_of(regions: Seq<MemoryRegion>) -> nat {
    if total_usable_frames(regions) <= u64::MAX {
        total_usable_frames(regions)
    } else {
        u64::MAX as nat
    }
}

/// Number of frames that an allocator over `regions` can still hand out
/// after it has handed out `allocated` of them.
pub open spec fn frames_left(regions: Seq<MemoryRegion>, allocated: nat) -> nat {
    (capacity_of(regions) - allocated) as nat
}

/// Hands out the usable frames of a memory map in the map's order.
pub struct BootInfoFrameAllocator {
    regions: Vec<MemoryRegion>,
    next: u64,
}

impl BootInfoFrameAllocator {
    /// The memory map that the allocator walks.
    pub closed spec fn regions(&self) -> Seq<MemoryRegion> {
        self.regions@
    }

    /// Number of frames handed out so far.
    pub closed spec fn allocated(&self) -> nat {
        self.next as nat
    }

    /// Number of frames that the allocator can hand out in all.
    pub open spec fn capacity(&self) -> nat {
        capacity_of(self.regions())
    }

    /// Number of frames that can still be handed out.
    pub open spec fn remaining(&self) -> nat {
        frames_left(self.regions(), self.allocated())
    }

    /// The frame that the next successful call of `allocate_frame` returns.
    pub open spec fn next_frame(&self) -> Option<int> {
        nth_usable_frame(self.regions(), self.allocated())
    }

    /// No more frames have been handed out than the allocator can hand out.
    pub open spec fn wf(&self) -> bool {
        self.allocated() <= self.capacity()
    }

    /// An allocator over `regions` that has handed out nothing yet.
    pub fn init(regions: Vec<MemoryRegion>) -> (a: BootInfoFrameAllocator)
        ensures
            a.wf(),
            a.regions() == regions@,
            a.allocated() == 0,
    {
        BootInfoFrameAllocator { regions, next: 0 }
    }

    /// Number of frames handed out so far.
    pub fn frames_allocated(&self) -> (n: u64)
        ensures
            n as nat == self.allocated(),
    {
        self.next
    }

    /// The memory map that the allocator walks.
    pub fn memory_map(&self) -> (regions: &Vec<MemoryRegion>)
        ensures
            regions@ == self.regions(),
    {
        &self.regions
    }

    /// Hands out the next usable frame, or `None` once every frame that the
    /// allocator can hand out has been handed out. The cursor moves only
    /// when a frame is returned.
    pub fn allocate_frame(&mut self) -> (r: Option<PhysicalFrame>)
        requires
            old(self).wf(),
        ensures
            final(self).wf(),
            final(self).regions() == old(self).regions(),
            r is Some <==> old(self).remaining() > 0,
            r is Some ==> {
                &&& old(self).next_frame() == Some(r.unwrap().base() as int)
                &&& r.unwrap().wf()
                &&& final(self).allocated() == old(self).allocated() + 1
            },
            r is None ==> final(self).allocated() == old(self).allocated(),
    {
        if self.next == u64::MAX {
            return None;
        }
        let mut skipped: u64 = 0;
        let mut i: usize = 0;
        assert(self.regions@.skip(0) =~= self.regions@);
        while i < self.regions.len()
            invariant
                i <= self.regions.len(),
                self.regions == old(self).regions,
                self.next == old(self).next,
                skipped <= self.next,
                skipped as nat + total_usable_frames(self.regions@.skip(i as int))
                    == total_usable_frames(self.regions@),
                nth_usable_frame(self.regions@, self.next as nat) == nth_usable_frame(
                    self.regions@.skip(i as int),
                    (self.next - skipped) as nat,
                ),
                self.next as nat <= total_usable_frames(self.regions@),
                self.next < u64::MAX,
                old(self).wf(),
            decreases self.regions.len() - i,
        {
            let region = self.regions[i];
            let count = region.frame_count();
            let offset = self.next - skipped;
            proof {
                let rest = self.regions@.skip(i as int);
                assert(rest[0] == region);
                assert(rest.skip(1) =~= self.regions@.skip(i + 1));
            }
            if offset < count {
                let first = region.first_frame();
                proof {
                    lemma_frames_fit(region, offset as nat);
                }
                let base = first.unwrap() + offset * FRAME_SIZE;
                self.next = self.next + 1;
                return Some(PhysicalFrame::containing_address(base));
            }
            skipped = skipped + count;
            i += 1;
        }
        proof {
            assert(self.regions@.skip(i as int) =~= Seq::<MemoryRegion>::empty());
        }
        None
    }
}

/// Every frame that a region offers lies inside the region, so its address
/// fits in 64 bits.
pub proof fn lemma_frames_fit(r: MemoryRegion, k: nat)
    requires
        k < frames_in(r),
    ensures
        frame_within(first_frame_base(r) + 4096 * k, r),
        first_frame_base(r) + 4096 * k + 4096 <= r.end,
        first_frame_base(r) >= r.start,
{
    let first = first_frame_base(r);
    let span = r.end - first;
    assert(4096 * (span / 4096) <= span) by (nonlinear_arith)
        requires
            span >= 0,
    ;
    assert(4096 * k + 4096 <= 4096 * (span / 4096)) by (nonlinear_arith)
        requires
            k < span / 4096,
    ;
}

/// The map yields an `n`-th usable frame exactly when `n` is below the
/// number of usable frames that it lists.
pub proof fn lemma_nth_frame_exists(regions: Seq<MemoryRegion>, n: nat)
    ensures
        nth_usable_frame(regions, n) is Some <==> n < total_usable_frames(regions),
    decreases regions.len(),
{
    if regions.len() > 0 && n >= frames_in(regions[0]) {
        lemma_nth_frame_exists(regions.skip(1), (n - frames_in(regions[0])) as nat);
    }
}

/// Every frame that the map yields is a whole frame inside one of its usable
/// regions.
pub proof fn lemma_frame_in_usable_region(regions: Seq<MemoryRegion>, n: nat)
    requires
        n < total_usable_frames(regions),
    ensures
        nth_usable_frame(regions, n) is Some,
        exists|i: int|
            0 <= i < regions.len() && frame_within(
                nth_usable_frame(regions, n).unwrap(),
                #[trigger] regions[i],
            ),
    decreases regions.len(),
{
    lemma_nth_frame_exists(regions, n);
    if n < frames_in(regions[0]) {
        lemma_frames_fit(regions[0], n);
        assert(frame_within(nth_usable_frame(regions, n).unwrap(), regions[0]));
    } else {
        let rest = regions.skip(1);
        let m = (n - frames_in(regions[0])) as nat;
        lemma_frame_in_usable_region(rest, m);
        let i = choose|i: int|
            0 <= i < rest.len() && frame_within(nth_usable_frame(rest, m).unwrap(), #[trigger] rest[i]);
        assert(rest[i] == regions[i + 1]);
        assert(frame_within(nth_usable_frame(regions, n).unwrap(), regions[i + 1]));
    }
}

/// Over a map whose regions ascend without overlap, a later frame starts at
/// least one frame size above an earlier one: the frames handed out are
/// pairwise distinct, do not overlap, and strictly increase in address.
pub proof fn lemma_frames_strictly_increasing(regions: Seq<MemoryRegion>, m: nat, n: nat)
    requires
        ascending(regions),
        m < n < total_usable_frames(regions),
    ensures
        nth_usable_frame(regions, m) is Some,
        nth_usable_frame(regions, n) is Some,
        nth_usable_frame(regions, m).unwrap() + 4096 <= nth_usable_frame(regions, n).unwrap(),
    decreases regions.len(),
{
    lemma_nth_frame_exists(regions, m);
    lemma_nth_frame_exists(regions, n);
    let first = regions[0];
    let rest = regions.skip(1);
    assert(ascending(rest)) by {
        assert forall|i: int| 0 <= i < rest.len() implies (#[trigger] rest[i]).start <= rest[i].end by {
            assert(rest[i] == regions[i + 1]);
        }
        assert forall|i: int, j: int| 0 <= i < j < rest.len() implies (#[trigger] rest[i]).end <= (
        #[trigger] rest[j]).start by {
            assert(rest[i] == regions[i + 1]);
            assert(rest[j] == regions[j + 1]);
        }
    }
    if n < frames_in(first) {
    } else if m < frames_in(first) {
        let k = (n - frames_in(first)) as nat;
        lemma_frames_fit(first, m);
        lemma_frame_in_usable_region(rest, k);
        let j = choose|j: int|
            0 <= j < rest.len() && frame_within(nth_usable_frame(rest, k).unwrap(), #[trigger] rest[j]);
        assert(rest[j] == regions[j + 1]);
        assert(regions[0].end <= regions[j + 1].start);
    } else {
        lemma_frames_strictly_increasing(
            rest,
            (m - frames_in(first)) as nat,
            (n - frames_in(first)) as nat,
        );
    }
}

/// A map whose regions ascend without overlap lists no more frames than the
/// physical address space holds.
pub proof fn lemma_ascending_total_bounded(regions: Seq<MemoryRegion>)
    requires
        ascending(regions),
    ensures
        total_usable_frames(regions) <= 0x10_0000_0000_0000,
{
    let total = total_usable_frames(regions);
    if total > 0 {
        let last = (total - 1) as nat;
        lemma_frame_in_usable_region(regions, last);
        lemma_nth_frame_exists(regions, 0);
        if last > 0 {
            lemma_frames_span(regions, 0, last);
        }
        let top = nth_usable_frame(regions, last).unwrap();
        let bottom = nth_usable_frame(regions, 0).unwrap();
        lemma_frame_in_usable_region(regions, 0);
        assert(top + 4096 <= u64::MAX);
        assert(bottom >= 0);
    }
}

/// Over a map whose regions ascend without overlap, the frames numbered `m`
/// and `n` lie at least `n - m` frame sizes apart.
pub proof fn lemma_frames_span(regions: Seq<MemoryRegion>, m: nat, n: nat)
    requires
        ascending(regions),
        m <= n < total_usable_frames(regions),
    ensures
        nth_usable_frame(regions, m) is Some,
        nth_usable_frame(regions, n) is Some,
        nth_usable_frame(regions, m).unwrap() + 4096 * (n - m) <= nth_usable_frame(
            regions,
            n,
        ).unwrap(),
    decreases n - m,
{
    lemma_nth_frame_exists(regions, m);
    lemma_nth_frame_exists(regions, n);
    if m < n {
        lemma_frames_span(regions, m, (n - 1) as nat);
        lemma_frames_strictly_increasing(regions, (n - 1) as nat, n);
    }
}

} // verus!
