//! The IOAPIC: what the firmware tells of it, the entries of its
//! redirection table in the form in which it reads them, and the routing
//! of the keyboard interrupt.

use vstd::prelude::*;
use crate::cpu::apic::IOAPIC_IRQ_OFFSET;

verus! {

/// Input of the legacy interrupt controllers at which the keyboard sits.
pub const KEYBOARD_ISA_IRQ: u8 = 1;

/// Flag of an entry whose interrupt is signalled by a low level.
pub const LOW_ACTIVE: u32 = 0x2000;

/// Flag of an entry whose interrupt is signalled by a level, not an edge.
pub const LEVEL_TRIGGERED: u32 = 0x8000;

/// Flag of an entry whose interrupt is held back.
pub const MASKED: u32 = 0x1_0000;

/// The flags that software may set in an entry: the three above and the
/// one that chooses logical destinations.
pub const WRITABLE_FLAGS: u32 = 0x1_A800;

/// How the level of an interrupt line is to be read.
#[derive(Clone, Copy, Debug, PartialEq, Eq, Structural)]
pub enum Polarity {
    SameAsBus,
    ActiveHigh,
    ActiveLow,
}

/// What on an interrupt line counts as an interrupt.
#[derive(Clone, Copy, Debug, PartialEq, Eq, Structural)]
pub enum TriggerMode {
    SameAsBus,
    Edge,
    Level,
}

/// An input of the legacy interrupt controllers that arrives at another
/// input of the IOAPIC than its number says, or in another way.
#[derive(Clone, Copy, Debug, PartialEq, Eq, Structural)]
pub struct InterruptSourceOverride {
    pub isa_source: u8,
    pub global_system_interrupt: u32,
    pub polarity: Polarity,
    pub trigger_mode: TriggerMode,
}

/// One IOAPIC as the firmware describes it.
#[derive(Clone, Copy, Debug, PartialEq, Eq, Structural)]
pub struct IoApicInfo {
    pub id: u8,
    pub address: u32,
    pub global_system_interrupt_base: u32,
}

/// The interrupt controllers of a machine with APICs.
pub struct Apic {
    pub local_apic_address: u64,
    pub io_apics: Vec<IoApicInfo>,
    pub interrupt_source_overrides: Vec<InterruptSourceOverride>,
    pub also_has_legacy_pics: bool,
}

/// The way in which a machine delivers interrupts.
pub enum InterruptModel {
    Unknown,
    Apic(Apic),
}

/// Why no IOAPIC could be found.
#[derive(Clone, Copy, Debug, PartialEq, Eq, Structural)]
pub enum DiscoveryError {
    /// The machine does not deliver its interrupts through APICs.
    UnsupportedInterruptModel,
    /// The firmware describes no IOAPIC.
    NoIoApic,
}

/// How an interrupt is delivered to the processor.
#[derive(Clone, Copy, Debug, PartialEq, Eq, Structural)]
pub enum IrqMode {
    Fixed,
    LowestPriority,
    SystemManagement,
    NonMaskable,
    Init,
    External,
}

/// One entry of the redirection table.
#[derive(Clone, Copy, Debug, PartialEq, Eq, Structural)]
pub struct RedirectionTableEntry {
    pub vector: u8,
    pub mode: IrqMode,
    pub flags: u32,
    pub dest: u8,
}

/// One entry of the redirection table as the IOAPIC holds it: two 32-bit
/// registers.
#[derive(Clone, Copy, Debug, PartialEq, Eq, Structural)]
pub struct RawEntry {
    pub low: u32,
    pub high: u32,
}

/// One thing to do to the IOAPIC.
#[derive(Clone, Copy, Debug, PartialEq, Eq, Structural)]
pub enum IoApicAction {
    /// Give every input the vector that lies its number above the offset.
    Init(u8),
    /// Put an entry in the place of an input.
    SetTableEntry(u8, RedirectionTableEntry),
    /// Let the interrupt of an input through.
    EnableIrq(u8),
}

/// Why the keyboard interrupt could not be routed.
#[derive(Clone, Copy, Debug, PartialEq, Eq, Structural)]
pub enum RoutingError {
    /// The input of the keyboard lies so high that no vector is left for
    /// it.
    NoVector(u32),
}

/// How the IOAPIC is to be set up.
pub struct IoApicSetup {
    pub base: u64,
    pub keyboard_gsi: u8,
    pub actions: Vec<IoApicAction>,
}

/// The number that stands for a mode in an entry.
pub open spec fn mode_code(mode: IrqMode) -> u32 {
    match mode {
        IrqMode::Fixed => 0,
        IrqMode::LowestPriority => 1,
        IrqMode::SystemManagement => 2,
        IrqMode::NonMaskable => 4,
        IrqMode::Init => 5,
        IrqMode::External => 7,
    }
}

/// The low register of an entry: the vector in bits 0 to 7, the mode in
/// bits 8 to 10, and those of the flags that software may set.
pub open spec fn raw_low(entry: RedirectionTableEntry) -> u32 {
    (entry.vector as u32) | (mode_code(entry.mode) << 8) | (entry.flags & WRITABLE_FLAGS)
}

/// The high register of an entry: the destination in bits 24 to 31.
pub open spec fn raw_high(entry: RedirectionTableEntry) -> u32 {
    (entry.dest as u32) << 24
}

/// The vector that a raw entry holds.
pub open spec fn raw_vector(raw: RawEntry) -> u8 {
    (raw.low & 0xff) as u8
}

/// The number of the mode that a raw entry holds.
pub open spec fn raw_mode(raw: RawEntry) -> u32 {
    (raw.low >> 8) & 7
}

/// Whether a raw entry holds back its interrupt.
pub open spec fn raw_masked(raw: RawEntry) -> bool {
    raw.low & MASKED != 0
}

/// The first override for the input `source` of the legacy controllers.
pub open spec fn override_for(isos: Seq<InterruptSourceOverride>, source: u8) -> Option<
    InterruptSourceOverride,
>
    decreases isos.len(),
{
    if isos.len() == 0 {
        None
    } else if isos[0].isa_source == source {
        Some(isos[0])
    } else {
        override_for(isos.skip(1), source)
    }
}

/// The input of the IOAPIC at which the keyboard arrives: the one that an
/// override names, else the one with the keyboard's own number.
pub open spec fn keyboard_input(isos: Seq<InterruptSourceOverride>) -> u32 {
    match override_for(isos, KEYBOARD_ISA_IRQ) {
        Some(iso) => iso.global_system_interrupt,
        None => KEYBOARD_ISA_IRQ as u32,
    }
}

/// The flags of the keyboard's entry before it is let through: held back,
/// and read as the override says, which without an override, or where the
/// override leaves it to the bus, is by a rising edge.
pub open spec fn keyboard_flags(isos: Seq<InterruptSourceOverride>) -> u32 {
    match override_for(isos, KEYBOARD_ISA_IRQ) {
        Some(iso) => MASKED | (if iso.polarity == Polarity::ActiveLow {
            LOW_ACTIVE
        } else {
            0u32
        }) | (if iso.trigger_mode == TriggerMode::Level {
            LEVEL_TRIGGERED
        } else {
            0u32
        }),
        None => MASKED,
    }
}

/// The entry of the keyboard for the input `gsi`.
pub open spec fn keyboard_entry(isos: Seq<InterruptSourceOverride>, gsi: u8) -> RedirectionTableEntry {
    RedirectionTableEntry {
        vector: (gsi + IOAPIC_IRQ_OFFSET) as u8,
        mode: IrqMode::Fixed,
        flags: keyboard_flags(isos),
        dest: 0,
    }
}

/// What is done to the IOAPIC to route the keyboard at input `gsi`.
pub open spec fn keyboard_routing(isos: Seq<InterruptSourceOverride>, gsi: u8) -> Seq<IoApicAction> {
    seq![
        IoApicAction::Init(IOAPIC_IRQ_OFFSET as u8),
        IoApicAction::SetTableEntry(gsi, keyboard_entry(isos, gsi)),
        IoApicAction::EnableIrq(gsi),
    ]
}

/// The redirection table after one action. An action on an input that the
/// table does not have changes nothing, and neither does one that would
/// give an input a vector above 255.
pub open spec fn after_action(table: Seq<RawEntry>, action: IoApicAction) -> Seq<RawEntry> {
    match action {
        IoApicAction::Init(offset) => if table.len() + offset <= 256 {
            Seq::new(
                table.len(),
                |i: int| RawEntry { low: table[i].low | ((i + offset) as u32), high: 0 },
            )
        } else {
            table
        },
        IoApicAction::SetTableEntry(irq, entry) => if irq < table.len() {
            table.update(irq as int, RawEntry { low: raw_low(entry), high: raw_high(entry) })
        } else {
            table
        },
        IoApicAction::EnableIrq(irq) => if irq < table.len() {
            table.update(
                irq as int,
                RawEntry { low: table[irq as int].low & !MASKED, high: table[irq as int].high },
            )
        } else {
            table
        },
    }
}

/// The redirection table after a list of actions, performed in order.
pub open spec fn after_actions(table: Seq<RawEntry>, actions: Seq<IoApicAction>) -> Seq<RawEntry>
    decreases actions.len(),
{
    if actions.len() == 0 {
        table
    } else {
        after_actions(after_action(table, actions[0]), actions.skip(1))
    }
}

impl RedirectionTableEntry {
    /// The two registers that hold the entry.
    pub fn raw(&self) -> (raw: RawEntry)
        ensures
            raw.low == raw_low(*self),
            raw.high == raw_high(*self),
    {
        let code: u32 = match self.mode {
            IrqMode::Fixed => 0,
            IrqMode::LowestPriority => 1,
            IrqMode::SystemManagement => 2,
            IrqMode::NonMaskable => 4,
            IrqMode::Init => 5,
            IrqMode::External => 7,
        };
        RawEntry {
            low: (self.vector as u32) | (code << 8) | (self.flags & WRITABLE_FLAGS),
            high: (self.dest as u32) << 24,
        }
    }
}

/// The address of the first IOAPIC that the firmware describes, and the
/// overrides that go with it.
pub fn get_ioapic_info(model: InterruptModel) -> (r: Result<
    (u32, Vec<InterruptSourceOverride>),
    DiscoveryError,
>)
    ensures
        match model {
            InterruptModel::Unknown => r == Err::<
                (u32, Vec<InterruptSourceOverride>),
                DiscoveryError,
            >(DiscoveryError::UnsupportedInterruptModel),
            InterruptModel::Apic(apic) => if apic.io_apics@.len() == 0 {
                r == Err::<(u32, Vec<InterruptSourceOverride>), DiscoveryError>(
                    DiscoveryError::NoIoApic,
                )
            } else {
                &&& r is Ok
                &&& r.unwrap().0 == apic.io_apics@[0].address
                &&& r.unwrap().1@ == apic.interrupt_source_overrides@
            },
        },
{
    match model {
        InterruptModel::Unknown => Err(DiscoveryError::UnsupportedInterruptModel),
        InterruptModel::Apic(apic) => {
            if apic.io_apics.len() == 0 {
                return Err(DiscoveryError::NoIoApic);
            }
            let address = apic.io_apics[0].address;
            Ok((address, apic.interrupt_source_overrides))
        },
    }
}

/// The first override for the input `source` of the legacy controllers.
pub fn find_override(isos: &Vec<InterruptSourceOverride>, source: u8) -> (r: Option<
    InterruptSourceOverride,
>)
    ensures
        r == override_for(isos@, source),
{
    let mut i: usize = 0;
    assert(isos@.skip(0) =~= isos@);
    while i < isos.len()
        invariant
            i <= isos.len(),
            override_for(isos@, source) == override_for(isos@.skip(i as int), source),
        decreases isos.len() - i,
    {
        assert(isos@.skip(i as int)[0] == isos@[i as int]);
        assert(isos@.skip(i as int).skip(1) =~= isos@.skip(i + 1));
        if isos[i].isa_source == source {
            return Some(isos[i]);
        }
        i += 1;
    }
    None
}

/// Routes the keyboard through the IOAPIC at `ioapicaddr`: every input gets
/// the vector that lies its number above `IOAPIC_IRQ_OFFSET`; the input of
/// the keyboard, which an override may name, gets an entry that delivers
/// its interrupt to processor zero in fixed mode, read as the override
/// says; and that input is let through. It fails where the input lies too
/// high for a vector.
pub fn setup_ioapic(ioapicaddr: u32, isos: &Vec<InterruptSourceOverride>) -> (r: Result<
    IoApicSetup,
    RoutingError,
>)
    ensures
        keyboard_input(isos@) + IOAPIC_IRQ_OFFSET > 255 ==> r is Err && r->Err_0
            == RoutingError::NoVector(keyboard_input(isos@)),
        keyboard_input(isos@) + IOAPIC_IRQ_OFFSET <= 255 ==> {
            &&& r is Ok
            &&& r->Ok_0.base == ioapicaddr
            &&& r->Ok_0.keyboard_gsi == keyboard_input(isos@)
            &&& r->Ok_0.actions@ == keyboard_routing(isos@, r->Ok_0.keyboard_gsi)
        },
{
    let found = find_override(isos, KEYBOARD_ISA_IRQ);
    let (input, flags): (u32, u32) = match found {
        Some(iso) => {
            let low: u32 = match iso.polarity {
                Polarity::ActiveLow => LOW_ACTIVE,
                _ => 0,
            };
            let level: u32 = match iso.trigger_mode {
                TriggerMode::Level => LEVEL_TRIGGERED,
                _ => 0,
            };
            (iso.global_system_interrupt, MASKED | low | level)
        },
        None => (KEYBOARD_ISA_IRQ as u32, MASKED),
    };
    if input > 255 - IOAPIC_IRQ_OFFSET as u32 {
        return Err(RoutingError::NoVector(input));
    }
    let gsi: u8 = input as u8;
    let entry = RedirectionTableEntry {
        vector: gsi + IOAPIC_IRQ_OFFSET as u8,
        mode: IrqMode::Fixed,
        flags,
        dest: 0,
    };
    let mut actions: Vec<IoApicAction> = Vec::new();
    actions.push(IoApicAction::Init(IOAPIC_IRQ_OFFSET as u8));
    actions.push(IoApicAction::SetTableEntry(gsi, entry));
    actions.push(IoApicAction::EnableIrq(gsi));
    assert(actions@ =~= keyboard_routing(isos@, gsi));
    Ok(IoApicSetup { base: ioapicaddr as u64, keyboard_gsi: gsi, actions })
}

/// The redirection table of an IOAPIC as its registers hold it.
pub struct RedirectionTable {
    entries: Vec<RawEntry>,
}

impl RedirectionTable {
    /// The entries of the table, by input.
    pub closed spec fn view(&self) -> Seq<RawEntry> {
        self.entries@
    }

    /// The table of an IOAPIC whose highest input has number `max_entry`,
    /// as it is after a reset: every interrupt held back, nothing else set.
    pub fn reset(max_entry: u8) -> (table: RedirectionTable)
        ensures
            table@.len() == max_entry + 1,
            forall|i: int|
                0 <= i <= max_entry ==> #[trigger] table@[i] == (RawEntry { low: MASKED, high: 0 }),
    {
        let mut entries: Vec<RawEntry> = Vec::new();
        let mut i: usize = 0;
        while i <= max_entry as usize
            invariant
                i <= max_entry + 1,
                entries@.len() == i,
                forall|k: int| 0 <= k < i ==> #[trigger] entries@[k] == (RawEntry {
                    low: MASKED,
                    high: 0,
                }),
            decreases max_entry + 1 - i,
        {
            entries.push(RawEntry { low: MASKED, high: 0 });
            i += 1;
        }
        RedirectionTable { entries }
    }

    /// The registers of input `irq`, if the table has that input.
    pub fn entry(&self, irq: u8) -> (r: Option<RawEntry>)
        ensures
            r == if irq < self@.len() {
                Some(self@[irq as int])
            } else {
                None
            },
    {
        if (irq as usize) < self.entries.len() {
            Some(self.entries[irq as usize])
        } else {
            None
        }
    }

    /// Does to the table what `action` does to the IOAPIC.
    pub fn perform(&mut self, action: IoApicAction)
        ensures
            final(self)@ == after_action(old(self)@, action),
    {
        match action {
            IoApicAction::Init(offset) => {
                let len = self.entries.len();
                if len > 256 - offset as usize {
                    return ;
                }
                let mut i: usize = 0;
                while i < len
                    invariant
                        i <= len,
                        len + offset <= 256,
                        self.entries@.len() == len,
                        old(self).entries@.len() == len,
                        forall|k: int|
                            0 <= k < i ==> #[trigger] self.entries@[k] == (RawEntry {
                                low: old(self).entries@[k].low | ((k + offset) as u32),
                                high: 0,
                            }),
                        forall|k: int|
                            i <= k < len ==> #[trigger] self.entries@[k] == old(self).entries@[k],
                    decreases len - i,
                {
                    let low = self.entries[i].low | (i as u32 + offset as u32);
                    self.entries.set(i, RawEntry { low, high: 0 });
                    i += 1;
                }
                assert(self.entries@ =~= after_action(old(self)@, action));
            },
            IoApicAction::SetTableEntry(irq, entry) => {
                if (irq as usize) < self.entries.len() {
                    self.entries.set(irq as usize, entry.raw());
                }
            },
            IoApicAction::EnableIrq(irq) => {
                if (irq as usize) < self.entries.len() {
                    let raw = self.entries[irq as usize];
                    self.entries.set(irq as usize, RawEntry { low: raw.low & !MASKED, high: raw.high });
                }
            },
        }
    }

    /// Does to the table what a list of actions does to the IOAPIC, in the
    /// order of the list.
    pub fn perform_all(&mut self, actions: &Vec<IoApicAction>)
        ensures
            final(self)@ == after_actions(old(self)@, actions@),
    {
        let mut i: usize = 0;
        assert(actions@.skip(0) =~= actions@);
        while i < actions.len()
            invariant
                i <= actions.len(),
                after_actions(old(self)@, actions@) == after_actions(self@, actions@.skip(i as int)),
            decreases actions.len() - i,
        {
            assert(actions@.skip(i as int)[0] == actions@[i as int]);
            assert(actions@.skip(i as int).skip(1) =~= actions@.skip(i + 1));
            self.perform(actions[i]);
            i += 1;
        }
    }
}

/// Once the keyboard is routed at input `gsi` of a redirection table that
/// has this input, the entry of the input holds the vector that lies `gsi`
/// above `IOAPIC_IRQ_OFFSET`, delivers in fixed mode, and lets its
/// interrupt through, whatever the table held before.
pub proof fn lemma_keyboard_routed(
    table: Seq<RawEntry>,
    isos: Seq<InterruptSourceOverride>,
    gsi: u8,
)
    requires
        gsi < table.len(),
        gsi + IOAPIC_IRQ_OFFSET <= 255,
    ensures
        ({
            let routed = after_actions(table, keyboard_routing(isos, gsi));
            &&& routed.len() == table.len()
            &&& raw_vector(routed[gsi as int]) == gsi + IOAPIC_IRQ_OFFSET
            &&& raw_mode(routed[gsi as int]) == mode_code(IrqMode::Fixed)
            &&& !raw_masked(routed[gsi as int])
        }),
{
    let actions = keyboard_routing(isos, gsi);
    let t1 = after_action(table, actions[0]);
    let t2 = after_action(t1, actions[1]);
    let t3 = after_action(t2, actions[2]);
    reveal_with_fuel(after_actions, 4);
    assert(actions.skip(1)[0] == actions[1]);
    assert(actions.skip(1).skip(1)[0] == actions[2]);
    assert(actions.skip(1).skip(1).skip(1).len() == 0);
    assert(after_actions(table, actions) == t3);
    let entry = keyboard_entry(isos, gsi);
    let flags = entry.flags;
    let vector = entry.vector;
    let low = raw_low(entry);
    assert(low == (vector as u32) | (0u32 << 8) | (flags & 0x1_A800u32));
    let cleared = low & !MASKED;
    assert((cleared & 0xff) as u8 == vector && (cleared >> 8) & 7 == 0 && cleared & 0x1_0000u32
        == 0) by (bit_vector)
        requires
            low == (vector as u32) | (0u32 << 8) | (flags & 0x1_A800u32),
            cleared == low & !0x1_0000u32,
    ;
}

} // verus!
