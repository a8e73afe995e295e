use wukkos::serial::port_bus::PortBus;
use wukkos::serial::uart::{potential_serial_ports, test_port, Port};

/// A device that sends back whatever was last written to its data port.
struct Loopback {
    last: u8,
    writes: usize,
}

impl PortBus for Loopback {
    fn port_out(&mut self, _port: u16, value: u8) {
        self.last = value;
        self.writes += 1;
    }

    fn port_in(&mut self, port: u16) -> Option<u8> {
        if port & 7 == 5 {
            Some(0x21)
        } else {
            Some(self.last)
        }
    }
}

#[test]
fn a_bus_of_the_users_own_serves_the_drivers() {
    let mut bus = Loopback { last: 0, writes: 0 };
    assert!(test_port(&mut bus, potential_serial_ports::COM4));
    assert_eq!(bus.writes, 9);
    let port = Port { base: potential_serial_ports::COM4 };
    assert_eq!(port.transrecv(&mut bus, 0x5a), Some(0x5a));
    assert!(port.transmit_string(&mut bus, "hello"));
    assert_eq!(bus.last, b'o');
}
