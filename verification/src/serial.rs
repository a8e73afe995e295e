//! Port-mapped devices: the port bus, the serial ports on it, the PS/2
//! probe and the console that logs through a serial port.

pub mod port_bus;
pub mod uart;
pub mod ps2;
pub mod terminal;
