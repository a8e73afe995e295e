//! What each interrupt handler does: what it reports, whether it tells the
//! local APIC that the interrupt is dealt with, and whether the kernel
//! stops.

use vstd::prelude::*;
use crate::cpu::idt::HandlerKind;
use crate::serial::port_bus::{command, read, BusState, PortBus};

verus! {

/// Port from which the scancode of a key is read.
pub const KEYBOARD_DATA: u16 = 0x60;

/// Port through which the keyboard controller is told that its byte was
/// taken.
pub const KEYBOARD_CONTROL: u16 = 0x61;

/// What a handler does besides its own work.
#[derive(Clone, Copy, Debug)]
pub struct Disposition {
    /// The line that the handler writes to the console, if it writes one.
    pub report: Option<&'static str>,
    /// Whether the handler signals the end of the interrupt to the local
    /// APIC before it returns.
    pub end_of_interrupt: bool,
    /// Whether the kernel stops for good.
    pub halt: bool,
}

/// What the keyboard handler does.
#[derive(Clone, Copy, Debug, PartialEq, Eq, Structural)]
pub struct KeyboardOutcome {
    /// The character to show, if the scancode completed one.
    pub key: Option<char>,
    /// Whether the handler signals the end of the interrupt to the local
    /// APIC before it returns.
    pub end_of_interrupt: bool,
}

/// Whoever makes keys of scancodes. The kernel hands it every scancode
/// that the keyboard sends and shows the character that comes back.
pub trait ScancodeHandler {
    /// The scancodes that the handler was handed so far, oldest first. A
    /// handler says here what it is; one that does not is taken to be some
    /// handler that keeps the contract below.
    open spec fn handed(&self) -> Seq<u8> {
        arbitrary()
    }

    /// The character that the handler, as it is now, makes of `scancode`,
    /// if it makes one of it.
    open spec fn key(&self, scancode: u8) -> Option<char> {
        arbitrary()
    }

    /// Takes one scancode and returns the character to show, if the
    /// scancode completes one.
    fn handle_scancode(&mut self, scancode: u8) -> (c: Option<char>)
        ensures
            final(self).handed() == old(self).handed().push(scancode),
            c == old(self).key(scancode),
    ;
}

/// A scancode and the character that it stands for.
#[derive(Clone, Copy, Debug, PartialEq, Eq, Structural)]
pub struct KeyBinding {
    pub scancode: u8,
    pub character: char,
}

/// A handler that knows its keys from a table: a scancode stands for the
/// character of the first binding that names it, whatever came before.
pub struct KeyTable {
    bindings: Vec<KeyBinding>,
    seen: Vec<u8>,
}

/// The character of the first of `bindings` that names `scancode`.
pub open spec fn bound(bindings: Seq<KeyBinding>, scancode: u8) -> Option<char>
    decreases bindings.len(),
{
    if bindings.len() == 0 {
        None
    } else if bindings[0].scancode == scancode {
        Some(bindings[0].character)
    } else {
        bound(bindings.skip(1), scancode)
    }
}

impl KeyTable {
    /// The bindings of the table.
    pub closed spec fn bindings(&self) -> Seq<KeyBinding> {
        self.bindings@
    }

    /// A handler with the given bindings that was handed nothing yet.
    pub fn new(bindings: Vec<KeyBinding>) -> (t: KeyTable)
        ensures
            t.bindings() == bindings@,
            t.handed() == Seq::<u8>::empty(),
    {
        KeyTable { bindings, seen: Vec::new() }
    }

    /// The scancodes that the handler was handed so far, oldest first.
    pub fn scancodes(&self) -> (seen: &Vec<u8>)
        ensures
            seen@ == self.handed(),
    {
        &self.seen
    }
}

impl ScancodeHandler for KeyTable {
    closed spec fn handed(&self) -> Seq<u8> {
        self.seen@
    }

    open spec fn key(&self, scancode: u8) -> Option<char> {
        bound(self.bindings(), scancode)
    }

    fn handle_scancode(&mut self, scancode: u8) -> (c: Option<char>)
        ensures
            final(self).bindings() == old(self).bindings(),
    {
        self.seen.push(scancode);
        let mut i: usize = 0;
        assert(self.bindings@.skip(0) =~= self.bindings@);
        while i < self.bindings.len()
            invariant
                i <= self.bindings.len(),
                self.bindings == old(self).bindings,
                self.seen@ == old(self).seen@.push(scancode),
                bound(self.bindings@, scancode) == bound(self.bindings@.skip(i as int), scancode),
            decreases self.bindings.len() - i,
        {
            assert(self.bindings@.skip(i as int)[0] == self.bindings@[i as int]);
            assert(self.bindings@.skip(i as int).skip(1) =~= self.bindings@.skip(i + 1));
            if self.bindings[i].scancode == scancode {
                return Some(self.bindings[i].character);
            }
            i += 1;
        }
        None
    }
}

/// Whether the interrupts that a handler serves come from the APIC, so that
/// the handler owes it the end-of-interrupt signal.
pub open spec fn from_apic(kind: HandlerKind) -> bool {
    kind == HandlerKind::Timer || kind == HandlerKind::Error || kind == HandlerKind::Spurious
        || kind == HandlerKind::Keyboard
}

/// Whether a handler ends in a halted kernel.
pub open spec fn fatal(kind: HandlerKind) -> bool {
    kind == HandlerKind::DoubleFault || kind == HandlerKind::PageFault
}

/// The line that a handler writes to the console.
pub open spec fn report_of(kind: HandlerKind) -> Option<Seq<char>> {
    match kind {
        HandlerKind::Breakpoint => Some("breakpoint exception"@),
        HandlerKind::DoubleFault => Some("double fault!"@),
        HandlerKind::PageFault => Some("page fault!"@),
        HandlerKind::Timer => None,
        HandlerKind::Error => Some("error interrupt"@),
        HandlerKind::Spurious => Some("spurious interrupt"@),
        HandlerKind::Keyboard => None,
        HandlerKind::General => Some("unhandled interrupt"@),
    }
}

/// A disposition is the one that belongs to a kind of handler.
pub open spec fn disposition_of(d: Disposition, kind: HandlerKind) -> bool {
    &&& d.end_of_interrupt == from_apic(kind)
    &&& d.halt == fatal(kind)
    &&& match report_of(kind) {
        Some(line) => d.report is Some && d.report.unwrap()@ == line,
        None => d.report is None,
    }
}

/// The bus after the keyboard handler took a byte: the scancode is read,
/// and the controller is told so by setting and clearing the top bit of its
/// control port. A read without answer is followed by no write.
pub open spec fn keyboard_serviced(s: BusState) -> BusState {
    let taken = s.read(KEYBOARD_DATA);
    match taken.answer() {
        Some(control) => taken.read(KEYBOARD_CONTROL).write(KEYBOARD_CONTROL, control | 0x82).write(
            KEYBOARD_CONTROL,
            (control | 0x82) & 0x7f,
        ),
        None => taken,
    }
}

/// What the handler of a kind does besides its own work.
pub fn dispatch(kind: HandlerKind) -> (d: Disposition)
    ensures
        disposition_of(d, kind),
{
    match kind {
        HandlerKind::Breakpoint => breakpoint_exception(),
        HandlerKind::DoubleFault => double_fault(),
        HandlerKind::PageFault => page_fault(),
        HandlerKind::Timer => timer(),
        HandlerKind::Error => error(),
        HandlerKind::Spurious => spurious(),
        HandlerKind::Keyboard => Disposition { report: None, end_of_interrupt: true, halt: false },
        HandlerKind::General => unhandled(),
    }
}

/// The breakpoint exception is reported, and execution goes on.
pub fn breakpoint_exception() -> (d: Disposition)
    ensures
        disposition_of(d, HandlerKind::Breakpoint),
{
    Disposition { report: Some("breakpoint exception"), end_of_interrupt: false, halt: false }
}

/// The double fault is reported, and the kernel stops.
pub fn double_fault() -> (d: Disposition)
    ensures
        disposition_of(d, HandlerKind::DoubleFault),
{
    Disposition { report: Some("double fault!"), end_of_interrupt: false, halt: true }
}

/// The page fault is reported, and the kernel stops.
pub fn page_fault() -> (d: Disposition)
    ensures
        disposition_of(d, HandlerKind::PageFault),
{
    Disposition { report: Some("page fault!"), end_of_interrupt: false, halt: true }
}

/// An interrupt on a vector without a handler of its own is reported.
pub fn unhandled() -> (d: Disposition)
    ensures
        disposition_of(d, HandlerKind::General),
{
    Disposition { report: Some("unhandled interrupt"), end_of_interrupt: false, halt: false }
}

/// The timer interrupt is acknowledged.
pub fn timer() -> (d: Disposition)
    ensures
        disposition_of(d, HandlerKind::Timer),
{
    Disposition { report: None, end_of_interrupt: true, halt: false }
}

/// The error interrupt is reported and acknowledged.
pub fn error() -> (d: Disposition)
    ensures
        disposition_of(d, HandlerKind::Error),
{
    Disposition { report: Some("error interrupt"), end_of_interrupt: true, halt: false }
}

/// The spurious interrupt is reported and acknowledged.
pub fn spurious() -> (d: Disposition)
    ensures
        disposition_of(d, HandlerKind::Spurious),
{
    Disposition { report: Some("spurious interrupt"), end_of_interrupt: true, halt: false }
}

/// The keyboard interrupt: the scancode is read and handed to `keys`, whose
/// answer is the character to show; the keyboard controller is told that
/// its byte was taken; and the interrupt is acknowledged. Without a
/// scancode `keys` is not asked.
pub fn keyboard_irq<B: PortBus, H: ScancodeHandler>(bus: &mut B, keys: &mut H) -> (r:
    KeyboardOutcome)
    ensures
        final(bus).state() == keyboard_serviced(old(bus).state()),
        r.end_of_interrupt,
        match old(bus).state().answer() {
            Some(scancode) => {
                &&& final(keys).handed() == old(keys).handed().push(scancode)
                &&& r.key == old(keys).key(scancode)
            },
            None => {
                &&& final(keys).handed() == old(keys).handed()
                &&& r.key is None
            },
        },
{
    let key = match read(bus, KEYBOARD_DATA) {
        Some(scancode) => keys.handle_scancode(scancode),
        None => None,
    };
    match read(bus, KEYBOARD_CONTROL) {
        Some(control) => {
            let set: u8 = control | 0x82;
            command(bus, KEYBOARD_CONTROL, set);
            command(bus, KEYBOARD_CONTROL, set & 0x7f);
        },
        None => {},
    }
    KeyboardOutcome { key, end_of_interrupt: true }
}

/// Every handler of an interrupt that comes from the APIC signals the end
/// of the interrupt, and no other handler does; the handlers that stop the
/// kernel are those of the double fault and of the page fault.
pub proof fn lemma_end_of_interrupt(kind: HandlerKind, d: Disposition)
    requires
        disposition_of(d, kind),
    ensures
        d.end_of_interrupt <==> kind == HandlerKind::Timer || kind == HandlerKind::Error || kind
            == HandlerKind::Spurious || kind == HandlerKind::Keyboard,
        d.halt <==> kind == HandlerKind::DoubleFault || kind == HandlerKind::PageFault,
{
}

} // verus!
