//! The console: text goes out through the serial port that was chosen for
//! it, and nowhere while none is chosen.

use vstd::prelude::*;
use crate::serial::port_bus::{BusState, PortBus};
use crate::serial::uart::{transmit_all, Port, SerialPorts};

verus! {

/// The console and the serial port that it writes to, if one is chosen.
#[derive(Clone, Copy, Debug)]
pub struct SerialTerminal {
    pub port: Option<Port>,
}

/// The escape sequence that clears the screen of a terminal.
pub fn clear_screen() -> (s: &'static str)
    ensures
        s@ == "\x1B[2J"@,
{
    "\x1B[2J"
}

/// The escape sequence that puts the cursor of a terminal in the top left
/// corner.
pub fn init_cursor() -> (s: &'static str)
    ensures
        s@ == "\x1B[H"@,
{
    "\x1B[H"
}

/// The place of the last working serial port, which serves as the console.
pub open spec fn last_enabled(enabled: Seq<bool>) -> Option<usize>
    decreases enabled.len(),
{
    if enabled.len() == 0 {
        None
    } else if enabled.last() {
        Some((enabled.len() - 1) as usize)
    } else {
        last_enabled(enabled.drop_last())
    }
}

/// Writing a line: the text, then carriage return and line feed, unless the
/// text already failed.
pub open spec fn line_outcome(s: BusState, base: u16, text: Seq<char>) -> (BusState, bool) {
    let body = transmit_all(s, base, text);
    if body.1 {
        transmit_all(body.0, base, "\r\n"@)
    } else {
        body
    }
}

/// The place of the serial port that serves as the console: the last one
/// that works.
pub fn console_port(found: &SerialPorts) -> (r: Option<usize>)
    ensures
        r == last_enabled(found.ports_enabled@),
        r is Some ==> r.unwrap() < 8 && found.ports_enabled[r.unwrap() as int],
{
    let mut i: usize = 8;
    assert(found.ports_enabled@.take(8) =~= found.ports_enabled@);
    while i > 0
        invariant
            i <= 8,
            last_enabled(found.ports_enabled@) == last_enabled(found.ports_enabled@.take(i as int)),
        decreases i,
    {
        let ghost prefix = found.ports_enabled@.take(i as int);
        assert(prefix.last() == found.ports_enabled[i - 1]);
        assert(prefix.drop_last() =~= found.ports_enabled@.take(i - 1));
        if found.ports_enabled[i - 1] {
            return Some(i - 1);
        }
        i -= 1;
    }
    None
}

impl SerialTerminal {
    /// A console that writes nowhere yet.
    pub fn new() -> (t: SerialTerminal)
        ensures
            t.port is None,
    {
        SerialTerminal { port: None }
    }

    /// Makes `port` the port of the console.
    pub fn init_from_port(&mut self, port: Port)
        ensures
            final(self).port == Some(port),
    {
        self.port = Some(port);
    }

    /// Writes `message` to the console. The result says whether all of it
    /// went out, which it does at once where no port is chosen.
    pub fn log<B: PortBus>(&self, bus: &mut B, message: &str) -> (sent: bool)
        ensures
            match self.port {
                Some(port) => (final(bus).state(), sent) == transmit_all(
                    old(bus).state(),
                    port.base.base(),
                    message@,
                ),
                None => sent && final(bus).state() == old(bus).state(),
            },
    {
        match self.port {
            Some(port) => port.transmit_string(bus, message),
            None => true,
        }
    }

    /// Writes `message` and the end of a line to the console.
    pub fn logln<B: PortBus>(&self, bus: &mut B, message: &str) -> (sent: bool)
        ensures
            match self.port {
                Some(port) => (final(bus).state(), sent) == line_outcome(
                    old(bus).state(),
                    port.base.base(),
                    message@,
                ),
                None => sent && final(bus).state() == old(bus).state(),
            },
    {
        match self.port {
            Some(port) => {
                if port.transmit_string(bus, message) {
                    port.transmit_string(bus, "\r\n")
                } else {
                    false
                }
            },
            None => true,
        }
    }
}

} // verus!
