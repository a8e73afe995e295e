//! The task-state segment and the stacks that it names: seven for
//! interrupts that must not run on the stack that was in use, three for
//! changes of privilege.

use vstd::prelude::*;
use vstd::bytes::{
    spec_u16_to_le_bytes, spec_u32_to_le_bytes, spec_u64_to_le_bytes, u16_to_le_bytes,
    u32_to_le_bytes, u64_to_le_bytes,
};
use crate::memory::heap::{HEAP_SIZE, HEAP_START};

verus! {

/// Size of each stack in bytes.
pub const STACK_SIZE: u64 = 20480;

/// Number of stacks in the interrupt stack table.
pub const INTERRUPT_STACKS: usize = 7;

/// Number of stacks in the privilege stack table.
pub const PRIVILEGE_STACKS: usize = 3;

/// Number of stacks in all.
pub const STACKS: usize = 10;

/// Size in bytes of the segment as the processor reads it.
pub const TSS_SIZE: usize = 104;

/// Size in bytes of the segment with the two bytes that end the I/O map.
pub const TSS_IMAGE_SIZE: usize = 106;

/// Offset of the I/O map from the start of the segment: right behind it,
/// which says that there is no map.
pub const IOMAP_BASE: u16 = 0x68;

/// The two bytes that end the I/O map.
pub const IOMAP_END: u16 = 0xFFFF;

/// Offset of the first entry of the privilege stack table in the segment.
pub const PRIVILEGE_TABLE_OFFSET: usize = 4;

/// Offset of the first entry of the interrupt stack table in the segment.
pub const INTERRUPT_TABLE_OFFSET: usize = 36;

/// Offset of the I/O map base in the segment.
pub const IOMAP_BASE_OFFSET: usize = 102;

/// The task-state segment. A stack grows downwards, so each table holds
/// the address just above its stack.
#[derive(Clone, Copy, Debug)]
pub struct TaskStateSegment {
    pub privilege_stack_table: [u64; 3],
    pub interrupt_stack_table: [u64; 7],
    pub iomap_base: u16,
    pub iomap_end: u16,
}

/// Why a set of stacks cannot be used.
#[derive(Clone, Copy, Debug, PartialEq, Eq, Structural)]
pub enum StackError {
    /// The stack with this number does not end inside the address space.
    OutOfRange(usize),
    /// The stack with this number overlaps the heap.
    OverlapsHeap(usize),
    /// The stacks with these numbers overlap, the lower number first.
    Overlap(usize, usize),
}

/// The stack that starts at `start` ends inside the address space.
pub open spec fn stack_fits(start: u64) -> bool {
    start + STACK_SIZE <= u64::MAX
}

/// The stacks that start at `a` and `b` share no byte.
pub open spec fn stacks_disjoint(a: u64, b: u64) -> bool {
    a + STACK_SIZE <= b || b + STACK_SIZE <= a
}

/// The stack that starts at `start` shares no byte with the heap.
pub open spec fn clear_of_heap(start: u64) -> bool {
    start + STACK_SIZE <= HEAP_START || HEAP_START + HEAP_SIZE <= start
}

/// The first fault in a list of stack starts, by the order in which the
/// stacks are examined: each in turn for its end, then for the heap, then
/// against every stack before it.
pub open spec fn first_fault(starts: Seq<u64>, upto: int) -> Option<StackError>
    decreases upto,
{
    if upto <= 0 {
        None
    } else {
        match first_fault(starts, upto - 1) {
            Some(e) => Some(e),
            None => fault_of(starts, upto - 1),
        }
    }
}

/// The fault of the stack with number `i`, if it has one.
pub open spec fn fault_of(starts: Seq<u64>, i: int) -> Option<StackError> {
    if !stack_fits(starts[i]) {
        Some(StackError::OutOfRange(i as usize))
    } else if !clear_of_heap(starts[i]) {
        Some(StackError::OverlapsHeap(i as usize))
    } else {
        match first_overlap(starts, i, i) {
            Some(j) => Some(StackError::Overlap(j as usize, i as usize)),
            None => None,
        }
    }
}

/// The lowest number below `below` of a stack that overlaps stack `i`.
pub open spec fn first_overlap(starts: Seq<u64>, i: int, below: int) -> Option<int>
    decreases below,
{
    if below <= 0 {
        None
    } else {
        match first_overlap(starts, i, below - 1) {
            Some(j) => Some(j),
            None => if stacks_disjoint(starts[below - 1], starts[i]) {
                None
            } else {
                Some(below - 1)
            },
        }
    }
}

/// Every stack ends inside the address space, no two stacks share a byte,
/// and none shares a byte with the heap.
pub open spec fn stacks_sound(starts: Seq<u64>) -> bool {
    &&& forall|i: int| 0 <= i < starts.len() ==> stack_fits(#[trigger] starts[i])
    &&& forall|i: int| 0 <= i < starts.len() ==> clear_of_heap(#[trigger] starts[i])
    &&& forall|i: int, j: int|
        0 <= i < j < starts.len() ==> stacks_disjoint(#[trigger] starts[i], #[trigger] starts[j])
}

/// A list of stacks has no fault exactly when it is sound.
pub proof fn lemma_no_fault_is_sound(starts: Seq<u64>, upto: int)
    requires
        0 <= upto <= starts.len(),
    ensures
        first_fault(starts, upto) is None <==> stacks_sound(starts.take(upto)),
    decreases upto,
{
    if upto > 0 {
        lemma_no_fault_is_sound(starts, upto - 1);
        lemma_no_overlap(starts, upto - 1, upto - 1);
        let shorter = starts.take(upto - 1);
        let longer = starts.take(upto);
        assert forall|i: int| 0 <= i < upto implies longer[i] == starts[i] by {}
        assert forall|i: int| 0 <= i < upto - 1 implies shorter[i] == starts[i] by {}
        if stacks_sound(longer) {
            assert(stacks_sound(shorter)) by {
                assert forall|i: int| 0 <= i < shorter.len() implies stack_fits(
                    #[trigger] shorter[i],
                ) && clear_of_heap(shorter[i]) by {
                    assert(shorter[i] == longer[i]);
                }
                assert forall|i: int, j: int| 0 <= i < j < shorter.len() implies stacks_disjoint(
                    #[trigger] shorter[i],
                    #[trigger] shorter[j],
                ) by {
                    assert(shorter[i] == longer[i]);
                    assert(shorter[j] == longer[j]);
                }
            }
            assert(stack_fits(longer[upto - 1]));
            assert(clear_of_heap(longer[upto - 1]));
            assert forall|j: int| 0 <= j < upto - 1 implies stacks_disjoint(
                #[trigger] starts[j],
                starts[upto - 1],
            ) by {
                assert(stacks_disjoint(longer[j], longer[upto - 1]));
            }
        }
        if first_fault(starts, upto) is None {
            assert(stacks_sound(longer)) by {
                assert forall|i: int| 0 <= i < longer.len() implies stack_fits(
                    #[trigger] longer[i],
                ) && clear_of_heap(longer[i]) by {
                    if i < upto - 1 {
                        assert(shorter[i] == longer[i]);
                    }
                }
                assert forall|i: int, j: int| 0 <= i < j < longer.len() implies stacks_disjoint(
                    #[trigger] longer[i],
                    #[trigger] longer[j],
                ) by {
                    if j < upto - 1 {
                        assert(shorter[i] == longer[i]);
                        assert(shorter[j] == longer[j]);
                    }
                }
            }
        }
    }
}

/// No stack below `below` overlaps stack `i` exactly when `first_overlap`
/// finds none, and what it finds is the lowest that does.
pub proof fn lemma_no_overlap(starts: Seq<u64>, i: int, below: int)
    requires
        0 <= below <= i < starts.len(),
    ensures
        first_overlap(starts, i, below) is None <==> forall|j: int|
            0 <= j < below ==> stacks_disjoint(#[trigger] starts[j], starts[i]),
        first_overlap(starts, i, below) is Some ==> {
            let j = first_overlap(starts, i, below).unwrap();
            &&& 0 <= j < below
            &&& !stacks_disjoint(starts[j], starts[i])
            &&& forall|k: int| 0 <= k < j ==> stacks_disjoint(#[trigger] starts[k], starts[i])
        },
    decreases below,
{
    if below > 0 {
        lemma_no_overlap(starts, i, below - 1);
    }
}

/// Finds the first fault among ten stacks, given by their first addresses.
pub fn check_stacks(starts: &[u64; 10]) -> (r: Result<(), StackError>)
    ensures
        match first_fault(starts@, 10) {
            Some(e) => r == Err::<(), StackError>(e),
            None => r == Ok::<(), StackError>(()),
        },
        r is Ok <==> stacks_sound(starts@),
{
    let mut i: usize = 0;
    while i < 10
        invariant
            i <= 10,
            first_fault(starts@, i as int) is None,
        decreases 10 - i,
    {
        let start = starts[i];
        if start > u64::MAX - STACK_SIZE {
            proof {
                lemma_fault_stays(starts@, i + 1, 10);
            }
            return Err(StackError::OutOfRange(i));
        }
        if !(start + STACK_SIZE <= HEAP_START || HEAP_START + HEAP_SIZE <= start) {
            proof {
                lemma_fault_stays(starts@, i + 1, 10);
            }
            return Err(StackError::OverlapsHeap(i));
        }
        let mut j: usize = 0;
        while j < i
            invariant
                j <= i < 10,
                start == starts[i as int],
                stack_fits(start),
                clear_of_heap(start),
                first_overlap(starts@, i as int, j as int) is None,
                first_fault(starts@, i as int) is None,
            decreases i - j,
        {
            let other = starts[j];
            proof {
                lemma_no_fault_is_sound(starts@, i as int);
                assert(starts@.take(i as int)[j as int] == other);
            }
            if !(other + STACK_SIZE <= start || start + STACK_SIZE <= other) {
                proof {
                    lemma_overlap_stays(starts@, i as int, j + 1, i as int);
                    lemma_fault_stays(starts@, i + 1, 10);
                }
                return Err(StackError::Overlap(j, i));
            }
            j += 1;
        }
        i += 1;
    }
    proof {
        lemma_no_fault_is_sound(starts@, 10);
        assert(starts@.take(10) =~= starts@);
    }
    Ok(())
}

/// An overlap that was found below one number is the first below every
/// higher number.
pub proof fn lemma_overlap_stays(starts: Seq<u64>, i: int, below: int, higher: int)
    requires
        0 <= below <= higher,
        first_overlap(starts, i, below) is Some,
    ensures
        first_overlap(starts, i, higher) == first_overlap(starts, i, below),
    decreases higher - below,
{
    if below < higher {
        lemma_overlap_stays(starts, i, below, higher - 1);
    }
}

/// A fault that was found among the first stacks is the first fault of
/// every longer list.
pub proof fn lemma_fault_stays(starts: Seq<u64>, upto: int, longer: int)
    requires
        0 <= upto <= longer,
        first_fault(starts, upto) is Some,
    ensures
        first_fault(starts, longer) == first_fault(starts, upto),
    decreases longer - upto,
{
    if upto < longer {
        lemma_fault_stays(starts, upto, longer - 1);
    }
}

impl TaskStateSegment {
    /// The first addresses of the ten stacks: the seven of the interrupt
    /// stack table, then the three of the privilege stack table.
    pub open spec fn stack_starts(&self) -> Seq<u64> {
        Seq::new(
            10,
            |i: int|
                if i < 7 {
                    (self.interrupt_stack_table[i] - STACK_SIZE) as u64
                } else {
                    (self.privilege_stack_table[i - 7] - STACK_SIZE) as u64
                },
        )
    }

    /// Each table entry lies one stack size above the start of a stack, the
    /// ten stacks are sound, and the I/O map is marked as absent.
    pub open spec fn wf(&self) -> bool {
        &&& forall|i: int| 0 <= i < 7 ==> #[trigger] self.interrupt_stack_table[i] >= STACK_SIZE
        &&& forall|i: int| 0 <= i < 3 ==> #[trigger] self.privilege_stack_table[i] >= STACK_SIZE
        &&& stacks_sound(self.stack_starts())
        &&& self.iomap_base == IOMAP_BASE
        &&& self.iomap_end == IOMAP_END
    }

    /// Whether the byte at `addr` belongs to the stack with number `i`.
    pub open spec fn in_stack(&self, i: int, addr: u64) -> bool {
        self.stack_starts()[i] <= addr < self.stack_starts()[i] + STACK_SIZE
    }

    /// The segment for seven interrupt stacks and three privilege stacks,
    /// each given by its first address, or the first fault among them.
    pub fn new(interrupt_stacks: [u64; 7], privilege_stacks: [u64; 3]) -> (r: Result<
        TaskStateSegment,
        StackError,
    >)
        ensures
            match first_fault(interrupt_stacks@ + privilege_stacks@, 10) {
                Some(e) => r == Err::<TaskStateSegment, StackError>(e),
                None => {
                    &&& r is Ok
                    &&& r.unwrap().wf()
                    &&& r.unwrap().stack_starts() == interrupt_stacks@ + privilege_stacks@
                },
            },
            r is Ok <==> stacks_sound(interrupt_stacks@ + privilege_stacks@),
    {
        let starts: [u64; 10] = [
            interrupt_stacks[0],
            interrupt_stacks[1],
            interrupt_stacks[2],
            interrupt_stacks[3],
            interrupt_stacks[4],
            interrupt_stacks[5],
            interrupt_stacks[6],
            privilege_stacks[0],
            privilege_stacks[1],
            privilege_stacks[2],
        ];
        assert(starts@ =~= interrupt_stacks@ + privilege_stacks@);
        match check_stacks(&starts) {
            Err(e) => Err(e),
            Ok(_) => {
                assert forall|i: int| 0 <= i < 10 implies stack_fits(#[trigger] starts@[i]) by {}
                let tss = TaskStateSegment {
                    privilege_stack_table: [
                        starts[7] + STACK_SIZE,
                        starts[8] + STACK_SIZE,
                        starts[9] + STACK_SIZE,
                    ],
                    interrupt_stack_table: [
                        starts[0] + STACK_SIZE,
                        starts[1] + STACK_SIZE,
                        starts[2] + STACK_SIZE,
                        starts[3] + STACK_SIZE,
                        starts[4] + STACK_SIZE,
                        starts[5] + STACK_SIZE,
                        starts[6] + STACK_SIZE,
                    ],
                    iomap_base: IOMAP_BASE,
                    iomap_end: IOMAP_END,
                };
                assert(tss.stack_starts() =~= starts@);
                Ok(tss)
            },
        }
    }

    /// The segment as the processor reads it, byte for byte.
    pub open spec fn image(&self) -> Seq<u8> {
        spec_u32_to_le_bytes(0) + spec_u64_to_le_bytes(self.privilege_stack_table[0])
            + spec_u64_to_le_bytes(self.privilege_stack_table[1]) + spec_u64_to_le_bytes(
            self.privilege_stack_table[2],
        ) + spec_u64_to_le_bytes(0) + spec_u64_to_le_bytes(self.interrupt_stack_table[0])
            + spec_u64_to_le_bytes(self.interrupt_stack_table[1]) + spec_u64_to_le_bytes(
            self.interrupt_stack_table[2],
        ) + spec_u64_to_le_bytes(self.interrupt_stack_table[3]) + spec_u64_to_le_bytes(
            self.interrupt_stack_table[4],
        ) + spec_u64_to_le_bytes(self.interrupt_stack_table[5]) + spec_u64_to_le_bytes(
            self.interrupt_stack_table[6],
        ) + spec_u64_to_le_bytes(0) + spec_u16_to_le_bytes(0) + spec_u16_to_le_bytes(
            self.iomap_base,
        ) + spec_u16_to_le_bytes(self.iomap_end)
    }

    /// The segment as the processor reads it: four bytes that it ignores,
    /// the privilege stack table from offset 4, eight bytes that it
    /// ignores, the interrupt stack table from offset 36, ten bytes that it
    /// ignores, the I/O map base at offset 102, and behind the segment the
    /// two bytes that end the I/O map. Every number has its lowest byte
    /// first.
    pub fn to_bytes(&self) -> (bytes: Vec<u8>)
        ensures
            bytes@ == self.image(),
            bytes@.len() == TSS_IMAGE_SIZE,
    {
        proof {
            vstd::bytes::lemma_auto_spec_u16_to_from_le_bytes();
            vstd::bytes::lemma_auto_spec_u32_to_from_le_bytes();
            vstd::bytes::lemma_auto_spec_u64_to_from_le_bytes();
        }
        let mut bytes: Vec<u8> = u32_to_le_bytes(0);
        let mut part = u64_to_le_bytes(self.privilege_stack_table[0]);
        bytes.append(&mut part);
        let mut part = u64_to_le_bytes(self.privilege_stack_table[1]);
        bytes.append(&mut part);
        let mut part = u64_to_le_bytes(self.privilege_stack_table[2]);
        bytes.append(&mut part);
        let mut part = u64_to_le_bytes(0);
        bytes.append(&mut part);
        let mut part = u64_to_le_bytes(self.interrupt_stack_table[0]);
        bytes.append(&mut part);
        let mut part = u64_to_le_bytes(self.interrupt_stack_table[1]);
        bytes.append(&mut part);
        let mut part = u64_to_le_bytes(self.interrupt_stack_table[2]);
        bytes.append(&mut part);
        let mut part = u64_to_le_bytes(self.interrupt_stack_table[3]);
        bytes.append(&mut part);
        let mut part = u64_to_le_bytes(self.interrupt_stack_table[4]);
        bytes.append(&mut part);
        let mut part = u64_to_le_bytes(self.interrupt_stack_table[5]);
        bytes.append(&mut part);
        let mut part = u64_to_le_bytes(self.interrupt_stack_table[6]);
        bytes.append(&mut part);
        let mut part = u64_to_le_bytes(0);
        bytes.append(&mut part);
        let mut part = u16_to_le_bytes(0);
        bytes.append(&mut part);
        let mut part = u16_to_le_bytes(self.iomap_base);
        bytes.append(&mut part);
        let mut part = u16_to_le_bytes(self.iomap_end);
        bytes.append(&mut part);
        bytes
    }
}

/// The stacks of a well-formed segment are isolated: each spans exactly the
/// stack size, no byte belongs to two of them, and none of their bytes
/// belongs to the heap.
pub proof fn lemma_stacks_isolated(tss: TaskStateSegment, i: int, j: int, addr: u64)
    requires
        tss.wf(),
        0 <= i < 10,
        0 <= j < 10,
        tss.in_stack(i, addr),
    ensures
        tss.stack_starts()[i] + STACK_SIZE == if i < 7 {
            tss.interrupt_stack_table[i]
        } else {
            tss.privilege_stack_table[i - 7]
        },
        tss.in_stack(j, addr) ==> i == j,
        !(HEAP_START <= addr < HEAP_START + HEAP_SIZE),
{
    let starts = tss.stack_starts();
    assert(clear_of_heap(starts[i]));
    if i < j {
        assert(stacks_disjoint(starts[i], starts[j]));
    } else if j < i {
        assert(stacks_disjoint(starts[j], starts[i]));
    }
}

} // verus!
