//! The port bus of the machine: bytes written to ports and bytes read from
//! them, in the order in which it happens.

use vstd::prelude::*;

verus! {

/// One access to a port: a byte written to it or a byte read from it.
#[derive(Clone, Copy, Debug, PartialEq, Eq, Structural)]
pub struct PortEvent {
    pub port: u16,
    pub value: u8,
    pub write: bool,
}

/// What a port bus has done and what it will still answer: every access so
/// far, oldest first, and the bytes that the reads to come will get, next
/// first. A read that finds no byte to come gets no answer.
pub struct BusState {
    pub trace: Seq<PortEvent>,
    pub pending: Seq<u8>,
}

/// The event of writing `value` to `port`.
pub open spec fn written(port: u16, value: u8) -> PortEvent {
    PortEvent { port, value, write: true }
}

/// The event of reading `value` from `port`.
pub open spec fn was_read(port: u16, value: u8) -> PortEvent {
    PortEvent { port, value, write: false }
}

impl BusState {
    /// The bus after `value` was written to `port`.
    pub open spec fn write(self, port: u16, value: u8) -> BusState {
        BusState { trace: self.trace.push(written(port, value)), pending: self.pending }
    }

    /// The answer to a read: the next byte to come, if there is one.
    pub open spec fn answer(self) -> Option<u8> {
        if self.pending.len() > 0 {
            Some(self.pending[0])
        } else {
            None
        }
    }

    /// The bus after a read of `port`: with an answer the read is on
    /// record and the byte is used up, without one nothing has changed.
    pub open spec fn read(self, port: u16) -> BusState {
        if self.pending.len() > 0 {
            BusState {
                trace: self.trace.push(was_read(port, self.pending[0])),
                pending: self.pending.skip(1),
            }
        } else {
            self
        }
    }
}

/// A port bus.
pub trait PortBus {
    /// What the bus has done and what it will still answer. A bus says
    /// here what it is; one that does not is taken to be some bus that
    /// keeps the contracts below.
    open spec fn state(&self) -> BusState {
        arbitrary()
    }

    /// Writes `value` to `port`.
    fn port_out(&mut self, port: u16, value: u8)
        ensures
            final(self).state() == old(self).state().write(port, value),
    ;

    /// Reads a byte from `port`, or `None` where the bus gives no answer.
    fn port_in(&mut self, port: u16) -> (r: Option<u8>)
        ensures
            r == old(self).state().answer(),
            final(self).state() == old(self).state().read(port),
    ;
}

/// Writes `data` to `port`.
pub fn command<B: PortBus>(bus: &mut B, port: u16, data: u8)
    ensures
        final(bus).state() == old(bus).state().write(port, data),
{
    bus.port_out(port, data)
}

/// Reads a byte from `port`, or `None` where the bus gives no answer.
pub fn read<B: PortBus>(bus: &mut B, port: u16) -> (r: Option<u8>)
    ensures
        r == old(bus).state().answer(),
        final(bus).state() == old(bus).state().read(port),
{
    bus.port_in(port)
}

/// A port bus that answers its reads from a list of bytes given in advance
/// and keeps a record of every access.
pub struct ScriptedBus {
    answers: Vec<u8>,
    used: usize,
    events: Vec<PortEvent>,
}

impl ScriptedBus {
    /// A bus that has done nothing yet and will answer its reads with
    /// `answers`, in their order.
    pub fn new(answers: Vec<u8>) -> (bus: ScriptedBus)
        ensures
            bus.state() == (BusState { trace: Seq::empty(), pending: answers@ }),
    {
        let bus = ScriptedBus { answers, used: 0, events: Vec::new() };
        assert(bus.answers@.skip(0) =~= bus.answers@);
        bus
    }

    /// Every access so far, oldest first.
    pub fn events(&self) -> (events: &Vec<PortEvent>)
        ensures
            events@ == self.state().trace,
    {
        &self.events
    }

    /// Number of answers that are left.
    pub fn answers_left(&self) -> (n: usize)
        ensures
            n == self.state().pending.len(),
    {
        if self.used <= self.answers.len() {
            self.answers.len() - self.used
        } else {
            0
        }
    }
}

impl PortBus for ScriptedBus {
    closed spec fn state(&self) -> BusState {
        BusState {
            trace: self.events@,
            pending: if self.used <= self.answers@.len() {
                self.answers@.skip(self.used as int)
            } else {
                Seq::empty()
            },
        }
    }

    fn port_out(&mut self, port: u16, value: u8) {
        self.events.push(PortEvent { port, value, write: true });
    }

    fn port_in(&mut self, port: u16) -> (r: Option<u8>) {
        if self.used < self.answers.len() {
            let value = self.answers[self.used];
            self.events.push(PortEvent { port, value, write: false });
            self.used = self.used + 1;
            assert(self.answers@.skip(self.used as int) =~= old(self).answers@.skip(
                old(self).used as int,
            ).skip(1));
            Some(value)
        } else {
            None
        }
    }
}

} // verus!
