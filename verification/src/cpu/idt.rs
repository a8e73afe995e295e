//! The interrupt descriptor table: which handler each of the 256 vectors
//! has, on which stack it runs, and its gate descriptor in the form in
//! which the processor reads them.

use vstd::prelude::*;
use crate::cpu::apic::{ERROR_IRQ, FALLBACK_KEYBOARD_IRQ, SPURIOUS_IRQ, TIMER_IRQ};
use crate::cpu::gdt::SegmentSelector;

verus! {

/// Number of vectors.
pub const VECTORS: usize = 256;

/// Vector of the breakpoint exception.
pub const BREAKPOINT: usize = 3;

/// Vector of the double fault.
pub const DOUBLE_FAULT: usize = 8;

/// Vector of the page fault.
pub const PAGE_FAULT: usize = 14;

/// Entry of the interrupt stack table on which the breakpoint handler runs.
pub const BREAKPOINT_STACK: u16 = 0;

/// Entry of the interrupt stack table on which the double-fault handler
/// runs: a stack that no other handler uses, so that a double fault raised
/// while another handler runs leaves that handler's stack as it is.
pub const DOUBLE_FAULT_STACK: u16 = 1;

/// Entry of the interrupt stack table on which the page-fault handler runs.
pub const PAGE_FAULT_STACK: u16 = 2;

/// Entry of the interrupt stack table on which the interrupts of the
/// interrupt controllers run.
pub const IRQ_STACK: u16 = 3;

/// Option bits of a gate that is present, for privilege level zero, and
/// keeps interrupts masked while its handler runs.
pub const GATE_PRESENT_INTERRUPT: u64 = 0x8E00;

/// The kinds of handler. The general handler serves every vector that has
/// no handler of its own and reports the vector's number.
#[derive(Clone, Copy, Debug, PartialEq, Eq, Structural)]
pub enum HandlerKind {
    Breakpoint,
    DoubleFault,
    PageFault,
    Timer,
    Error,
    Spurious,
    Keyboard,
    General,
}

/// One slot of the table.
#[derive(Clone, Copy, Debug, PartialEq, Eq, Structural)]
pub struct InterruptVector {
    pub vector: u8,
    pub handler: HandlerKind,
    pub stack_index: Option<u16>,
    pub present: bool,
}

/// A gate descriptor as the processor reads it: two 8-byte words, the low
/// one first.
#[derive(Clone, Copy, Debug, PartialEq, Eq, Structural)]
pub struct GateDescriptor {
    pub low: u64,
    pub high: u64,
}

/// The interrupt descriptor table.
pub struct InterruptDescriptorTable {
    entries: Vec<InterruptVector>,
}

/// The handler of `vector`.
pub open spec fn handler_of(vector: int) -> HandlerKind {
    if vector == BREAKPOINT {
        HandlerKind::Breakpoint
    } else if vector == DOUBLE_FAULT {
        HandlerKind::DoubleFault
    } else if vector == PAGE_FAULT {
        HandlerKind::PageFault
    } else if vector == TIMER_IRQ {
        HandlerKind::Timer
    } else if vector == ERROR_IRQ {
        HandlerKind::Error
    } else if vector == SPURIOUS_IRQ {
        HandlerKind::Spurious
    } else if vector == FALLBACK_KEYBOARD_IRQ {
        HandlerKind::Keyboard
    } else {
        HandlerKind::General
    }
}

/// The entry of the interrupt stack table on which a handler runs; the
/// general handler runs on the stack that is in use.
pub open spec fn stack_of(handler: HandlerKind) -> Option<u16> {
    match handler {
        HandlerKind::Breakpoint => Some(BREAKPOINT_STACK),
        HandlerKind::DoubleFault => Some(DOUBLE_FAULT_STACK),
        HandlerKind::PageFault => Some(PAGE_FAULT_STACK),
        HandlerKind::Timer | HandlerKind::Error | HandlerKind::Spurious | HandlerKind::Keyboard => Some(
            IRQ_STACK,
        ),
        HandlerKind::General => None,
    }
}

/// The slot of `vector`: every vector has a handler.
pub open spec fn slot_of(vector: int) -> InterruptVector {
    InterruptVector {
        vector: vector as u8,
        handler: handler_of(vector),
        stack_index: stack_of(handler_of(vector)),
        present: true,
    }
}

/// The stack field of a gate: zero for the stack in use, else one more
/// than the entry of the interrupt stack table.
pub open spec fn gate_stack_field(stack_index: Option<u16>) -> u64 {
    match stack_index {
        Some(i) => (i + 1) as u64,
        None => 0,
    }
}

/// The low word of a gate for a handler at `handler_addr`.
pub open spec fn gate_low(handler_addr: u64, selector: u16, stack_index: Option<u16>) -> u64 {
    (handler_addr & 0xffff) | ((selector as u64) << 16) | ((GATE_PRESENT_INTERRUPT
        | gate_stack_field(stack_index)) << 32) | (((handler_addr >> 16) & 0xffff) << 48)
}

/// The address of the handler that a gate names.
pub open spec fn gate_handler(gate: GateDescriptor) -> u64 {
    (gate.low & 0xffff) | (((gate.low >> 48) & 0xffff) << 16) | (gate.high << 32)
}

/// The code segment in which the handler of a gate runs.
pub open spec fn gate_selector(gate: GateDescriptor) -> u16 {
    ((gate.low >> 16) & 0xffff) as u16
}

/// The stack field of a gate.
pub open spec fn gate_stack(gate: GateDescriptor) -> u64 {
    (gate.low >> 32) & 7
}

/// Whether a gate is present.
pub open spec fn gate_present(gate: GateDescriptor) -> bool {
    (gate.low >> 47) & 1 == 1
}

/// The handler and the stack of `vector`.
pub fn slot(vector: u8) -> (s: InterruptVector)
    ensures
        s == slot_of(vector as int),
{
    let v = vector as usize;
    let handler = if v == BREAKPOINT {
        HandlerKind::Breakpoint
    } else if v == DOUBLE_FAULT {
        HandlerKind::DoubleFault
    } else if v == PAGE_FAULT {
        HandlerKind::PageFault
    } else if v == TIMER_IRQ {
        HandlerKind::Timer
    } else if v == ERROR_IRQ {
        HandlerKind::Error
    } else if v == SPURIOUS_IRQ {
        HandlerKind::Spurious
    } else if v == FALLBACK_KEYBOARD_IRQ {
        HandlerKind::Keyboard
    } else {
        HandlerKind::General
    };
    let stack_index = match handler {
        HandlerKind::Breakpoint => Some(BREAKPOINT_STACK),
        HandlerKind::DoubleFault => Some(DOUBLE_FAULT_STACK),
        HandlerKind::PageFault => Some(PAGE_FAULT_STACK),
        HandlerKind::Timer | HandlerKind::Error | HandlerKind::Spurious | HandlerKind::Keyboard => Some(
            IRQ_STACK,
        ),
        HandlerKind::General => None,
    };
    InterruptVector { vector, handler, stack_index, present: true }
}

/// A gate for a handler at `handler_addr` that runs in the code segment
/// `selector`, on the entry `stack_index` of the interrupt stack table or on
/// the stack in use. There is none for an entry that the interrupt stack
/// table does not have.
pub fn gate(handler_addr: u64, selector: SegmentSelector, stack_index: Option<u16>) -> (r: Option<
    GateDescriptor,
>)
    ensures
        r is Some <==> (stack_index is Some ==> stack_index.unwrap() < 7),
        r is Some ==> {
            let g = r.unwrap();
            &&& g.low == gate_low(handler_addr, selector.bits, stack_index)
            &&& g.high == handler_addr >> 32
            &&& gate_handler(g) == handler_addr
            &&& gate_selector(g) == selector.bits
            &&& gate_stack(g) == gate_stack_field(stack_index)
            &&& gate_present(g)
        },
{
    let stack_field: u64 = match stack_index {
        Some(i) => {
            if i >= 7 {
                return None;
            }
            (i + 1) as u64
        },
        None => 0,
    };
    let sel = selector.bits as u64;
    let low: u64 = (handler_addr & 0xffff) | (sel << 16) | ((GATE_PRESENT_INTERRUPT | stack_field)
        << 32) | (((handler_addr >> 16) & 0xffff) << 48);
    let high: u64 = handler_addr >> 32;
    proof {
        assert((low & 0xffff) | (((low >> 48) & 0xffff) << 16) | (high << 32) == handler_addr
            && (low >> 16) & 0xffff == sel && (low >> 32) & 7 == stack_field && (low >> 47) & 1
            == 1) by (bit_vector)
            requires
                low == (handler_addr & 0xffff) | (sel << 16) | ((0x8E00u64 | stack_field) << 32) | (
                ((handler_addr >> 16) & 0xffff) << 48),
                high == handler_addr >> 32,
                sel <= 0xffff,
                stack_field <= 7,
        ;
    }
    Some(GateDescriptor { low, high })
}

impl InterruptDescriptorTable {
    /// The slots of the table, by vector.
    pub closed spec fn view(&self) -> Seq<InterruptVector> {
        self.entries@
    }

    /// The table has a slot for each of the 256 vectors, and each slot is
    /// the one that belongs to its vector.
    pub open spec fn wf(&self) -> bool {
        &&& self@.len() == VECTORS
        &&& forall|v: int| 0 <= v < VECTORS ==> #[trigger] self@[v] == slot_of(v)
    }

    /// The double fault, the page fault and the breakpoint have a stack
    /// each, and no two of them the same.
    pub open spec fn faults_isolated(&self) -> bool {
        &&& self@[DOUBLE_FAULT as int].stack_index is Some
        &&& self@[PAGE_FAULT as int].stack_index is Some
        &&& self@[BREAKPOINT as int].stack_index is Some
        &&& self@[DOUBLE_FAULT as int].stack_index != self@[PAGE_FAULT as int].stack_index
        &&& self@[DOUBLE_FAULT as int].stack_index != self@[BREAKPOINT as int].stack_index
        &&& self@[PAGE_FAULT as int].stack_index != self@[BREAKPOINT as int].stack_index
    }

    /// The table of the kernel.
    pub fn new() -> (idt: InterruptDescriptorTable)
        ensures
            idt.wf(),
            idt.faults_isolated(),
    {
        let mut entries: Vec<InterruptVector> = Vec::new();
        let mut v: usize = 0;
        while v < VECTORS
            invariant
                v <= VECTORS,
                entries@.len() == v,
                forall|k: int| 0 <= k < v ==> #[trigger] entries@[k] == slot_of(k),
            decreases VECTORS - v,
        {
            entries.push(slot(v as u8));
            v += 1;
        }
        InterruptDescriptorTable { entries }
    }

    /// The slot of `vector`.
    pub fn entry(&self, vector: u8) -> (s: InterruptVector)
        requires
            self.wf(),
        ensures
            s == slot_of(vector as int),
    {
        self.entries[vector as usize]
    }

    /// The offset of the last byte of the table, which the processor asks
    /// for when the table is loaded.
    pub fn limit(&self) -> (limit: u16)
        ensures
            limit == VECTORS * 16 - 1,
    {
        4095
    }
}

/// Every vector has a handler; every vector but the seven with a handler of
/// their own has the general handler; and whichever stack a handler is
/// given is one of the seven of the interrupt stack table.
pub proof fn lemma_every_vector_handled(vector: int)
    requires
        0 <= vector < 256,
    ensures
        slot_of(vector).present,
        slot_of(vector).vector == vector,
        slot_of(vector).handler == HandlerKind::General <==> !(vector == BREAKPOINT || vector
            == DOUBLE_FAULT || vector == PAGE_FAULT || vector == TIMER_IRQ || vector == ERROR_IRQ
            || vector == SPURIOUS_IRQ || vector == FALLBACK_KEYBOARD_IRQ),
        slot_of(vector).stack_index is Some ==> slot_of(vector).stack_index.unwrap() < 7,
        slot_of(vector).stack_index is None <==> slot_of(vector).handler == HandlerKind::General,
{
}

/// The faults are isolated from one another and from everything else: the
/// double fault, the page fault and the breakpoint each run on a stack of
/// the interrupt stack table that no handler of another vector runs on, so
/// that a fault raised while the handler of another fault runs does not
/// overwrite that handler's stack; and the interrupts of the controllers
/// run on a stack that no fault uses.
pub proof fn lemma_fault_stacks_isolated(vector: int)
    requires
        0 <= vector < 256,
    ensures
        slot_of(DOUBLE_FAULT as int).stack_index is Some,
        slot_of(PAGE_FAULT as int).stack_index is Some,
        slot_of(BREAKPOINT as int).stack_index is Some,
        slot_of(DOUBLE_FAULT as int).stack_index != slot_of(PAGE_FAULT as int).stack_index,
        slot_of(DOUBLE_FAULT as int).stack_index != slot_of(BREAKPOINT as int).stack_index,
        slot_of(PAGE_FAULT as int).stack_index != slot_of(BREAKPOINT as int).stack_index,
        vector != DOUBLE_FAULT ==> slot_of(vector).stack_index != slot_of(
            DOUBLE_FAULT as int,
        ).stack_index,
        vector != PAGE_FAULT ==> slot_of(vector).stack_index != slot_of(
            PAGE_FAULT as int,
        ).stack_index,
        vector != BREAKPOINT ==> slot_of(vector).stack_index != slot_of(
            BREAKPOINT as int,
        ).stack_index,
{
}

} // verus!
