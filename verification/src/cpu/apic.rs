//! The interrupt controllers: the legacy pair that is put to rest, the
//! local APIC of the processor, and the IOAPIC that routes the interrupts
//! of devices.

use vstd::prelude::*;
use crate::serial::port_bus::{command, BusState, PortBus};

verus! {

/// First vector of the interrupts that the local APIC raises itself.
pub const APIC_INTERRUPT_OFFSET: usize = 32;

/// Vector of the local APIC's timer.
pub const TIMER_IRQ: usize = 32;

/// Vector of the local APIC's error interrupt.
pub const ERROR_IRQ: usize = 33;

/// Vector of the local APIC's spurious interrupt.
pub const SPURIOUS_IRQ: usize = 34;

/// Vector of the interrupt at the IOAPIC's first input; input `n` gets
/// vector `n` above it.
pub const IOAPIC_IRQ_OFFSET: usize = 42;

/// Vector of the keyboard where the firmware names no other input for it.
pub const FALLBACK_KEYBOARD_IRQ: usize = 43;

/// Bit of the processor's feature flags that says that it has a local
/// APIC.
pub const CPUID_APIC: u32 = 0x200;

/// Command port of the first legacy interrupt controller.
pub const PIC1_COMMAND: u16 = 0x20;

/// Data port of the first legacy interrupt controller.
pub const PIC1_DATA: u16 = 0x21;

/// Command port of the second legacy interrupt controller.
pub const PIC2_COMMAND: u16 = 0xA0;

/// Data port of the second legacy interrupt controller.
pub const PIC2_DATA: u16 = 0xA1;

/// First vector of the first legacy controller once it is moved out of the
/// way of the exceptions.
pub const PIC1_OFFSET: u8 = 0x20;

/// First vector of the second legacy controller.
pub const PIC2_OFFSET: u8 = 0x28;

/// How the local APIC is to be set up.
#[derive(Clone, Copy, Debug, PartialEq, Eq, Structural)]
pub struct LocalApicConfig {
    pub timer_vector: usize,
    pub error_vector: usize,
    pub spurious_vector: usize,
    pub xapic_base: u64,
}

/// Whether the feature flags that the processor reports in `edx` for leaf 1
/// of its identification say that it has a local APIC.
pub fn check_apic_compat(edx: u32) -> (has: bool)
    ensures
        has == (edx & CPUID_APIC != 0),
{
    edx & CPUID_APIC != 0
}

/// The bus after the legacy interrupt controllers were put to rest: both
/// are started anew, moved to the vectors from `PIC1_OFFSET` and
/// `PIC2_OFFSET`, told of each other, set to the mode of this processor,
/// and every one of their inputs is masked.
pub open spec fn pic_disabled(s: BusState) -> BusState {
    s.write(PIC1_COMMAND, 0x11).write(PIC2_COMMAND, 0x11).write(PIC1_DATA, PIC1_OFFSET).write(
        PIC2_DATA,
        PIC2_OFFSET,
    ).write(PIC1_DATA, 0x04).write(PIC2_DATA, 0x02).write(PIC1_DATA, 0x01).write(
        PIC2_DATA,
        0x01,
    ).write(PIC1_DATA, 0xFF).write(PIC2_DATA, 0xFF)
}

/// Puts the legacy interrupt controllers to rest, so that none of their
/// interrupts arrives once the APIC has taken over. The caller keeps
/// interrupts masked meanwhile.
pub fn tell_pic8259a_to_f_off<B: PortBus>(bus: &mut B)
    ensures
        final(bus).state() == pic_disabled(old(bus).state()),
{
    command(bus, PIC1_COMMAND, 0x11);
    command(bus, PIC2_COMMAND, 0x11);
    command(bus, PIC1_DATA, PIC1_OFFSET);
    command(bus, PIC2_DATA, PIC2_OFFSET);
    command(bus, PIC1_DATA, 0x04);
    command(bus, PIC2_DATA, 0x02);
    command(bus, PIC1_DATA, 0x01);
    command(bus, PIC2_DATA, 0x01);
    command(bus, PIC1_DATA, 0xFF);
    command(bus, PIC2_DATA, 0xFF);
}

/// How the local APIC whose registers lie at `xapic_base` is to be set up:
/// with the vectors that the interrupt descriptor table keeps for its
/// timer, its error interrupt and its spurious interrupt.
pub fn enable_apic(xapic_base: u64) -> (config: LocalApicConfig)
    ensures
        config == (LocalApicConfig {
            timer_vector: TIMER_IRQ,
            error_vector: ERROR_IRQ,
            spurious_vector: SPURIOUS_IRQ,
            xapic_base,
        }),
{
    LocalApicConfig {
        timer_vector: TIMER_IRQ,
        error_vector: ERROR_IRQ,
        spurious_vector: SPURIOUS_IRQ,
        xapic_base,
    }
}

} // verus!
