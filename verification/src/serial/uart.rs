//! The serial ports of a PC: where they sit on the port bus, how a byte is
//! sent and received through one, and how the working ones are found.

use vstd::prelude::*;
use crate::serial::port_bus::{command, read, was_read, BusState, PortBus};

verus! {

/// The places at which a PC may have a serial port.
#[allow(non_camel_case_types)]
#[derive(Clone, Copy, Debug, PartialEq, Eq, Structural)]
pub enum potential_serial_ports {
    COM1,
    COM2,
    COM3,
    COM4,
    COM5,
    COM6,
    COM7,
    COM8,
}

/// Offset of the data register from the base of a serial port.
pub const DATA: u16 = 0;

/// Offset of the interrupt register.
pub const INTERRUPT_ID: u16 = 1;

/// Offset of the FIFO control register.
pub const FIFO_CTRL: u16 = 2;

/// Offset of the line control register.
pub const LINE_CTRL: u16 = 3;

/// Offset of the modem control register.
pub const MODEM_CTRL: u16 = 4;

/// Offset of the line status register.
pub const LINE_STATUS: u16 = 5;

/// Bit of the line status that says that a byte can be sent.
pub const TRANSMIT_EMPTY: u8 = 0x20;

/// Bit of the line status that says that a byte has arrived.
pub const RECEIVE_FULL: u8 = 0x01;

/// The byte that a port in loopback mode must send back when it is tested.
pub const LOOPBACK_PROBE: u8 = 0xAE;

/// One serial port.
#[derive(Clone, Copy, Debug, PartialEq, Eq, Structural)]
pub struct Port {
    pub base: potential_serial_ports,
}

/// The eight places for a serial port, and which of them hold a working one.
pub struct SerialPorts {
    pub ports_enabled: [bool; 8],
    pub ports: [Port; 8],
}

/// The place with number `i`, counting from zero; the last for any number
/// above seven.
pub open spec fn place(i: int) -> potential_serial_ports {
    if i == 0 {
        potential_serial_ports::COM1
    } else if i == 1 {
        potential_serial_ports::COM2
    } else if i == 2 {
        potential_serial_ports::COM3
    } else if i == 3 {
        potential_serial_ports::COM4
    } else if i == 4 {
        potential_serial_ports::COM5
    } else if i == 5 {
        potential_serial_ports::COM6
    } else if i == 6 {
        potential_serial_ports::COM7
    } else {
        potential_serial_ports::COM8
    }
}

impl potential_serial_ports {
    /// The port number of the first register.
    pub open spec fn base(&self) -> u16 {
        match self {
            potential_serial_ports::COM1 => 0x3F8,
            potential_serial_ports::COM2 => 0x2F8,
            potential_serial_ports::COM3 => 0x3E8,
            potential_serial_ports::COM4 => 0x2E8,
            potential_serial_ports::COM5 => 0x5F8,
            potential_serial_ports::COM6 => 0x4F8,
            potential_serial_ports::COM7 => 0x5E8,
            potential_serial_ports::COM8 => 0x4E8,
        }
    }

    /// The port number of the first register.
    #[verifier::when_used_as_spec(base)]
    pub fn address(&self) -> (a: u16)
        ensures
            a == self.base(),
    {
        match self {
            potential_serial_ports::COM1 => 0x3F8,
            potential_serial_ports::COM2 => 0x2F8,
            potential_serial_ports::COM3 => 0x3E8,
            potential_serial_ports::COM4 => 0x2E8,
            potential_serial_ports::COM5 => 0x5F8,
            potential_serial_ports::COM6 => 0x4F8,
            potential_serial_ports::COM7 => 0x5E8,
            potential_serial_ports::COM8 => 0x4E8,
        }
    }

    /// The name of the place.
    pub open spec fn name(&self) -> Seq<char> {
        match self {
            potential_serial_ports::COM1 => "COM1"@,
            potential_serial_ports::COM2 => "COM2"@,
            potential_serial_ports::COM3 => "COM3"@,
            potential_serial_ports::COM4 => "COM4"@,
            potential_serial_ports::COM5 => "COM5"@,
            potential_serial_ports::COM6 => "COM6"@,
            potential_serial_ports::COM7 => "COM7"@,
            potential_serial_ports::COM8 => "COM8"@,
        }
    }

    /// The name of the place.
    pub fn to_string(&self) -> (s: &'static str)
        ensures
            s@ == self.name(),
    {
        match self {
            potential_serial_ports::COM1 => "COM1",
            potential_serial_ports::COM2 => "COM2",
            potential_serial_ports::COM3 => "COM3",
            potential_serial_ports::COM4 => "COM4",
            potential_serial_ports::COM5 => "COM5",
            potential_serial_ports::COM6 => "COM6",
            potential_serial_ports::COM7 => "COM7",
            potential_serial_ports::COM8 => "COM8",
        }
    }
}

/// Index of the first of `bytes` in which every bit of `mask` is set.
pub open spec fn first_with(bytes: Seq<u8>, mask: u8) -> Option<nat>
    decreases bytes.len(),
{
    if bytes.len() == 0 {
        None
    } else if bytes[0] & mask == mask {
        Some(0)
    } else {
        match first_with(bytes.skip(1), mask) {
            Some(k) => Some(k + 1),
            None => None,
        }
    }
}

/// The bus after `n` reads of `port` that were answered.
pub open spec fn polled(s: BusState, port: u16, n: nat) -> BusState {
    BusState {
        trace: s.trace + Seq::new(n, |i: int| was_read(port, s.pending[i])),
        pending: s.pending.skip(n as int),
    }
}

/// Sending `data` through the port at `base`: the line status is read until
/// it says that a byte can be sent, then the byte is written. Where the bus
/// stops answering first, nothing is written and the result is `false`.
pub open spec fn transmit_outcome(s: BusState, base: u16, data: u8) -> (BusState, bool) {
    let status = (base + LINE_STATUS) as u16;
    match first_with(s.pending, TRANSMIT_EMPTY) {
        Some(k) => (polled(s, status, k + 1).write((base + DATA) as u16, data), true),
        None => (polled(s, status, s.pending.len()), false),
    }
}

/// Sending the characters of a text, each as its lowest byte, until one
/// cannot be sent.
pub open spec fn transmit_all(s: BusState, base: u16, text: Seq<char>) -> (BusState, bool)
    decreases text.len(),
{
    if text.len() == 0 {
        (s, true)
    } else {
        let first = transmit_outcome(s, base, text[0] as u8);
        if first.1 {
            transmit_all(first.0, base, text.skip(1))
        } else {
            first
        }
    }
}

/// Receiving a byte through the port at `base`: the line status is read
/// until it says that a byte has arrived, then the byte is read. With a
/// `timeout` other than zero the result is zero once the status has been
/// read that many times in vain. Where the bus stops answering first, the
/// result is `None`.
pub open spec fn receive_outcome(s: BusState, base: u16, timeout: u16) -> (BusState, Option<u8>) {
    let status = (base + LINE_STATUS) as u16;
    let ready = first_with(s.pending, RECEIVE_FULL);
    if ready is Some && (timeout == 0 || ready.unwrap() < timeout) {
        let arrived = polled(s, status, ready.unwrap() + 1);
        (arrived.read((base + DATA) as u16), arrived.answer())
    } else if timeout != 0 && s.pending.len() >= timeout {
        (polled(s, status, timeout as nat), Some(0))
    } else {
        (polled(s, status, s.pending.len()), None)
    }
}

/// Sending `data` and then waiting without limit for a byte in return.
pub open spec fn transrecv_outcome(s: BusState, base: u16, data: u8) -> (BusState, Option<u8>) {
    let sent = transmit_outcome(s, base, data);
    if sent.1 {
        receive_outcome(sent.0, base, 0)
    } else {
        (sent.0, None)
    }
}

/// Testing the place at `base`: the port is set to 38400 baud, eight bits,
/// no parity, one stop bit, and to loopback; the probe byte is sent; and
/// the port works if the same byte comes back, in which case it is set to
/// normal operation.
pub open spec fn test_port_outcome(s: BusState, base: u16) -> (BusState, bool) {
    let sent = s.write((base + INTERRUPT_ID) as u16, 0x00).write(
        (base + LINE_CTRL) as u16,
        0x80,
    ).write((base + DATA) as u16, 0x03).write((base + LINE_CTRL) as u16, 0x03).write(
        (base + FIFO_CTRL) as u16,
        0xC7,
    ).write((base + MODEM_CTRL) as u16, 0x0B).write((base + MODEM_CTRL) as u16, 0x1E).write(
        (base + DATA) as u16,
        LOOPBACK_PROBE,
    );
    if sent.answer() == Some(LOOPBACK_PROBE) {
        (sent.read((base + DATA) as u16).write((base + MODEM_CTRL) as u16, 0x0F), true)
    } else {
        (sent.read((base + DATA) as u16), false)
    }
}

/// The bus after the first `n` places were tested, in their order.
pub open spec fn places_tested(s: BusState, n: nat) -> BusState
    decreases n,
{
    if n == 0 {
        s
    } else {
        test_port_outcome(places_tested(s, (n - 1) as nat), place(n - 1).base()).0
    }
}

/// The first `k` of `bytes` lack a bit of `mask`, and the next one, if
/// `found`, has them all: this says where `first_with` finds its byte.
pub proof fn lemma_first_with(bytes: Seq<u8>, mask: u8, k: nat, found: bool)
    requires
        k <= bytes.len(),
        forall|i: int| 0 <= i < k ==> #[trigger] bytes[i] & mask != mask,
        found ==> k < bytes.len() && bytes[k as int] & mask == mask,
        !found ==> k == bytes.len(),
    ensures
        found ==> first_with(bytes, mask) == Some(k),
        !found ==> first_with(bytes, mask) is None,
    decreases bytes.len(),
{
    if bytes.len() > 0 && k > 0 {
        let rest = bytes.skip(1);
        assert forall|i: int| 0 <= i < k - 1 implies #[trigger] rest[i] & mask != mask by {
            assert(rest[i] == bytes[i + 1]);
        }
        lemma_first_with(rest, mask, (k - 1) as nat, found);
    }
}

impl Port {
    /// Whether the port can take a byte to send, or `None` where the bus
    /// gives no answer.
    fn is_transmit_empty<B: PortBus>(&self, bus: &mut B) -> (r: Option<bool>)
        ensures
            final(bus).state() == old(bus).state().read((self.base.base() + LINE_STATUS) as u16),
            r == match old(bus).state().answer() {
                Some(status) => Some(status & TRANSMIT_EMPTY == TRANSMIT_EMPTY),
                None => None,
            },
    {
        match read(bus, self.base.address() + LINE_STATUS) {
            Some(status) => Some(status & TRANSMIT_EMPTY == TRANSMIT_EMPTY),
            None => None,
        }
    }

    /// Sends `data`, waiting until the port can take it. The result says
    /// whether the byte was sent.
    pub fn transmit<B: PortBus>(&self, bus: &mut B, data: u8) -> (sent: bool)
        ensures
            (final(bus).state(), sent) == transmit_outcome(
                old(bus).state(),
                self.base.base(),
                data,
            ),
    {
        let ghost start = bus.state();
        let ghost status = (self.base.base() + LINE_STATUS) as u16;
        let ghost mut n: nat = 0;
        assert(polled(start, status, 0) =~= start) by {
            assert(start.trace + Seq::new(0, |i: int| was_read(status, start.pending[i]))
                =~= start.trace);
            assert(start.pending.skip(0) =~= start.pending);
        }
        loop
            invariant
                start == old(bus).state(),
                status == (self.base.base() + LINE_STATUS) as u16,
                n <= start.pending.len(),
                bus.state() == polled(start, status, n),
                forall|i: int| 0 <= i < n ==> #[trigger] start.pending[i] & TRANSMIT_EMPTY
                    != TRANSMIT_EMPTY,
            decreases start.pending.len() - n,
        {
            match self.is_transmit_empty(bus) {
                None => {
                    proof {
                        lemma_first_with(start.pending, TRANSMIT_EMPTY, n, false);
                    }
                    return false;
                },
                Some(ready) => {
                    proof {
                        lemma_polled_step(start, status, n);
                    }
                    if ready {
                        proof {
                            lemma_first_with(start.pending, TRANSMIT_EMPTY, n, true);
                        }
                        command(bus, self.base.address() + DATA, data);
                        return true;
                    }
                    proof {
                        n = n + 1;
                    }
                },
            }
        }
    }

    /// Sends the characters of `data`, each as its lowest byte, and stops at
    /// the first that cannot be sent. The result says whether all were
    /// sent.
    pub fn transmit_string<B: PortBus>(&self, bus: &mut B, data: &str) -> (sent: bool)
        ensures
            (final(bus).state(), sent) == transmit_all(old(bus).state(), self.base.base(), data@),
    {
        let len = data.unicode_len();
        let mut i: usize = 0;
        assert(data@.skip(0) =~= data@);
        while i < len
            invariant
                i <= len,
                len == data@.len(),
                transmit_all(old(bus).state(), self.base.base(), data@) == transmit_all(
                    bus.state(),
                    self.base.base(),
                    data@.skip(i as int),
                ),
            decreases len - i,
        {
            let c = data.get_char(i);
            assert(data@.skip(i as int)[0] == c);
            assert(data@.skip(i as int).skip(1) =~= data@.skip(i + 1));
            if !self.transmit(bus, c as u8) {
                return false;
            }
            i += 1;
        }
        true
    }

    /// Whether a byte has arrived at the port, or `None` where the bus
    /// gives no answer.
    fn is_recv_full<B: PortBus>(&self, bus: &mut B) -> (r: Option<bool>)
        ensures
            final(bus).state() == old(bus).state().read((self.base.base() + LINE_STATUS) as u16),
            r == match old(bus).state().answer() {
                Some(status) => Some(status & RECEIVE_FULL == RECEIVE_FULL),
                None => None,
            },
    {
        match read(bus, self.base.address() + LINE_STATUS) {
            Some(status) => Some(status & RECEIVE_FULL == RECEIVE_FULL),
            None => None,
        }
    }

    /// Waits for a byte and returns it. With a `timeout` other than zero
    /// the wait ends after that many looks at the line status, with zero
    /// for a result; with a `timeout` of zero it has no limit. `None` says
    /// that the bus stopped answering.
    pub fn receive<B: PortBus>(&self, bus: &mut B, timeout: u16) -> (r: Option<u8>)
        ensures
            (final(bus).state(), r) == receive_outcome(
                old(bus).state(),
                self.base.base(),
                timeout,
            ),
    {
        let ghost start = bus.state();
        let ghost status = (self.base.base() + LINE_STATUS) as u16;
        let ghost mut n: nat = 0;
        let mut left = timeout;
        assert(polled(start, status, 0) =~= start) by {
            assert(start.trace + Seq::new(0, |i: int| was_read(status, start.pending[i]))
                =~= start.trace);
            assert(start.pending.skip(0) =~= start.pending);
        }
        loop
            invariant
                start == old(bus).state(),
                status == (self.base.base() + LINE_STATUS) as u16,
                n <= start.pending.len(),
                bus.state() == polled(start, status, n),
                forall|i: int| 0 <= i < n ==> #[trigger] start.pending[i] & RECEIVE_FULL
                    != RECEIVE_FULL,
                timeout != 0 ==> left == timeout - n && left > 0,
                timeout == 0 ==> left == 0,
            decreases start.pending.len() - n,
        {
            match self.is_recv_full(bus) {
                None => {
                    proof {
                        lemma_first_with(start.pending, RECEIVE_FULL, n, false);
                    }
                    return None;
                },
                Some(full) => {
                    proof {
                        lemma_polled_step(start, status, n);
                    }
                    if full {
                        proof {
                            lemma_first_with(start.pending, RECEIVE_FULL, n, true);
                        }
                        return read(bus, self.base.address() + DATA);
                    }
                    proof {
                        n = n + 1;
                    }
                    if timeout != 0 {
                        left = left - 1;
                        if left == 0 {
                            proof {
                                lemma_not_before(start.pending, RECEIVE_FULL, n);
                            }
                            return Some(0);
                        }
                    }
                },
            }
        }
    }

    /// Sends `data` and waits without limit for a byte in return. `None`
    /// says that the bus stopped answering.
    pub fn transrecv<B: PortBus>(&self, bus: &mut B, data: u8) -> (r: Option<u8>)
        ensures
            (final(bus).state(), r) == transrecv_outcome(
                old(bus).state(),
                self.base.base(),
                data,
            ),
    {
        if self.transmit(bus, data) {
            self.receive(bus, 0)
        } else {
            None
        }
    }
}

/// One more answered read of `port` after `n` of them.
pub proof fn lemma_polled_step(s: BusState, port: u16, n: nat)
    requires
        n < s.pending.len(),
    ensures
        polled(s, port, n).answer() == Some(s.pending[n as int]),
        polled(s, port, n).read(port) == polled(s, port, n + 1),
{
    let before = polled(s, port, n);
    let after = polled(s, port, n + 1);
    assert(before.pending[0] == s.pending[n as int]);
    assert(before.read(port).trace =~= after.trace);
    assert(before.read(port).pending =~= after.pending);
}

/// Where the first `k` of `bytes` lack a bit of `mask`, `first_with` finds
/// no byte before the one with index `k`.
pub proof fn lemma_not_before(bytes: Seq<u8>, mask: u8, k: nat)
    requires
        k <= bytes.len(),
        forall|i: int| 0 <= i < k ==> #[trigger] bytes[i] & mask != mask,
    ensures
        first_with(bytes, mask) is Some ==> first_with(bytes, mask).unwrap() >= k,
    decreases bytes.len(),
{
    if bytes.len() > 0 && k > 0 {
        let rest = bytes.skip(1);
        assert forall|i: int| 0 <= i < k - 1 implies #[trigger] rest[i] & mask != mask by {
            assert(rest[i] == bytes[i + 1]);
        }
        lemma_not_before(rest, mask, (k - 1) as nat);
    }
}

/// Tests whether a working serial port sits at `port`, and leaves it ready
/// for use if so.
pub fn test_port<B: PortBus>(bus: &mut B, port: potential_serial_ports) -> (works: bool)
    ensures
        (final(bus).state(), works) == test_port_outcome(old(bus).state(), port.base()),
{
    let base: u16 = port.address();
    command(bus, base + INTERRUPT_ID, 0x00);
    command(bus, base + LINE_CTRL, 0x80);
    command(bus, base + DATA, 0x03);
    command(bus, base + LINE_CTRL, 0x03);
    command(bus, base + FIFO_CTRL, 0xC7);
    command(bus, base + MODEM_CTRL, 0x0B);
    command(bus, base + MODEM_CTRL, 0x1E);
    command(bus, base + DATA, LOOPBACK_PROBE);
    match read(bus, base + DATA) {
        Some(LOOPBACK_PROBE) => {
            command(bus, base + MODEM_CTRL, 0x0F);
            true
        },
        _ => false,
    }
}

/// Tests the eight places in their order and says which hold a working
/// serial port.
pub fn init_serial<B: PortBus>(bus: &mut B) -> (found: SerialPorts)
    ensures
        final(bus).state() == places_tested(old(bus).state(), 8),
        forall|i: int|
            0 <= i < 8 ==> {
                &&& (#[trigger] found.ports[i]).base == place(i)
                &&& found.ports_enabled[i] == test_port_outcome(
                    places_tested(old(bus).state(), i as nat),
                    place(i).base(),
                ).1
            },
{
    let ports: [Port; 8] = [
        Port { base: potential_serial_ports::COM1 },
        Port { base: potential_serial_ports::COM2 },
        Port { base: potential_serial_ports::COM3 },
        Port { base: potential_serial_ports::COM4 },
        Port { base: potential_serial_ports::COM5 },
        Port { base: potential_serial_ports::COM6 },
        Port { base: potential_serial_ports::COM7 },
        Port { base: potential_serial_ports::COM8 },
    ];
    let mut ports_enabled: [bool; 8] = [false; 8];
    let mut i: usize = 0;
    while i < 8
        invariant
            i <= 8,
            forall|k: int| 0 <= k < 8 ==> (#[trigger] ports[k]).base == place(k),
            bus.state() == places_tested(old(bus).state(), i as nat),
            forall|k: int|
                0 <= k < i ==> #[trigger] ports_enabled[k] == test_port_outcome(
                    places_tested(old(bus).state(), k as nat),
                    place(k).base(),
                ).1,
        decreases 8 - i,
    {
        let works = test_port(bus, ports[i].base);
        ports_enabled[i] = works;
        i += 1;
    }
    SerialPorts { ports_enabled, ports }
}

} // verus!
