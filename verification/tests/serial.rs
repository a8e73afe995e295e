use wukkos::internals::{ErrorKind, ErrorLevel, KernelError};
use wukkos::serial::port_bus::{command, read, PortEvent, ScriptedBus};
use wukkos::serial::ps2::{classify, probePort, PS2Type};
use wukkos::serial::terminal::{clear_screen, console_port, init_cursor, SerialTerminal};
use wukkos::serial::uart::{init_serial, potential_serial_ports, test_port, Port, SerialPorts};

fn w(port: u16, value: u8) -> PortEvent {
    PortEvent { port, value, write: true }
}

fn r(port: u16, value: u8) -> PortEvent {
    PortEvent { port, value, write: false }
}

fn com1() -> Port {
    Port { base: potential_serial_ports::COM1 }
}

#[test]
fn the_bus_records_writes_and_answers_reads_in_order() {
    let mut bus = ScriptedBus::new(vec![7, 9]);
    assert_eq!(bus.answers_left(), 2);
    command(&mut bus, 0x80, 1);
    assert_eq!(read(&mut bus, 0x60), Some(7));
    assert_eq!(read(&mut bus, 0x61), Some(9));
    assert_eq!(read(&mut bus, 0x62), None);
    command(&mut bus, 0x81, 2);
    assert_eq!(bus.answers_left(), 0);
    assert_eq!(bus.events(), &vec![w(0x80, 1), r(0x60, 7), r(0x61, 9), w(0x81, 2)]);
}

#[test]
fn the_places_of_the_serial_ports() {
    let all = [
        (potential_serial_ports::COM1, 0x3F8, "COM1"),
        (potential_serial_ports::COM2, 0x2F8, "COM2"),
        (potential_serial_ports::COM3, 0x3E8, "COM3"),
        (potential_serial_ports::COM4, 0x2E8, "COM4"),
        (potential_serial_ports::COM5, 0x5F8, "COM5"),
        (potential_serial_ports::COM6, 0x4F8, "COM6"),
        (potential_serial_ports::COM7, 0x5E8, "COM7"),
        (potential_serial_ports::COM8, 0x4E8, "COM8"),
    ];
    for (place, address, name) in all {
        assert_eq!(place.address(), address);
        assert_eq!(place.to_string(), name);
    }
}

#[test]
fn transmit_waits_for_the_port() {
    let mut bus = ScriptedBus::new(vec![0x00, 0x40, 0x20, 0x55]);
    assert!(com1().transmit(&mut bus, b'A'));
    assert_eq!(
        bus.events(),
        &vec![r(0x3FD, 0x00), r(0x3FD, 0x40), r(0x3FD, 0x20), w(0x3F8, b'A')]
    );
    assert_eq!(bus.answers_left(), 1);
}

#[test]
fn transmit_gives_up_when_the_bus_stops_answering() {
    let mut bus = ScriptedBus::new(vec![0x00, 0x1f]);
    assert!(!com1().transmit(&mut bus, b'A'));
    assert_eq!(bus.events(), &vec![r(0x3FD, 0x00), r(0x3FD, 0x1f)]);
    let mut silent = ScriptedBus::new(Vec::new());
    assert!(!com1().transmit(&mut silent, b'A'));
    assert!(silent.events().is_empty());
}

#[test]
fn transmit_string_sends_each_character() {
    let mut bus = ScriptedBus::new(vec![0x20, 0x00, 0x60, 0xff]);
    assert!(com1().transmit_string(&mut bus, "ok!"));
    assert_eq!(
        bus.events(),
        &vec![
            r(0x3FD, 0x20),
            w(0x3F8, b'o'),
            r(0x3FD, 0x00),
            r(0x3FD, 0x60),
            w(0x3F8, b'k'),
            r(0x3FD, 0xff),
            w(0x3F8, b'!'),
        ]
    );
    let mut short = ScriptedBus::new(vec![0x20]);
    assert!(!com1().transmit_string(&mut short, "ok"));
    assert_eq!(short.events(), &vec![r(0x3FD, 0x20), w(0x3F8, b'o')]);
    let mut none = ScriptedBus::new(Vec::new());
    assert!(com1().transmit_string(&mut none, ""));
}

#[test]
fn a_character_above_one_byte_is_sent_as_its_lowest_byte() {
    let mut bus = ScriptedBus::new(vec![0x20]);
    assert!(com1().transmit_string(&mut bus, "\u{20ac}"));
    assert_eq!(bus.events(), &vec![r(0x3FD, 0x20), w(0x3F8, 0xac)]);
}

#[test]
fn receive_without_timeout_waits_for_a_byte() {
    let mut bus = ScriptedBus::new(vec![0x00, 0x60, 0x61, 0x42, 0x99]);
    assert_eq!(com1().receive(&mut bus, 0), Some(0x42));
    assert_eq!(
        bus.events(),
        &vec![r(0x3FD, 0x00), r(0x3FD, 0x60), r(0x3FD, 0x61), r(0x3F8, 0x42)]
    );
    assert_eq!(bus.answers_left(), 1);
}

#[test]
fn receive_with_timeout_gives_zero_after_that_many_looks() {
    let mut bus = ScriptedBus::new(vec![0x00, 0x00, 0x00, 0x01, 0x42]);
    assert_eq!(com1().receive(&mut bus, 3), Some(0));
    assert_eq!(bus.events(), &vec![r(0x3FD, 0x00), r(0x3FD, 0x00), r(0x3FD, 0x00)]);
    let mut bus = ScriptedBus::new(vec![0x00, 0x00, 0x00, 0x01, 0x42]);
    assert_eq!(com1().receive(&mut bus, 4), Some(0x42));
    let mut bus = ScriptedBus::new(vec![0x01, 0x42]);
    assert_eq!(com1().receive(&mut bus, 1), Some(0x42));
    let mut bus = ScriptedBus::new(vec![0x00, 0x01, 0x42]);
    assert_eq!(com1().receive(&mut bus, 1), Some(0));
}

#[test]
fn receive_says_when_the_bus_stops_answering() {
    let mut bus = ScriptedBus::new(vec![0x00, 0x00]);
    assert_eq!(com1().receive(&mut bus, 0), None);
    let mut bus = ScriptedBus::new(vec![0x00, 0x00]);
    assert_eq!(com1().receive(&mut bus, 5), None);
    let mut bus = ScriptedBus::new(vec![0x01]);
    assert_eq!(com1().receive(&mut bus, 0), None);
    assert_eq!(bus.events(), &vec![r(0x3FD, 0x01)]);
}

#[test]
fn transrecv_sends_and_receives() {
    let mut bus = ScriptedBus::new(vec![0x20, 0x01, 0xFA]);
    assert_eq!(com1().transrecv(&mut bus, 0xF5), Some(0xFA));
    assert_eq!(
        bus.events(),
        &vec![r(0x3FD, 0x20), w(0x3F8, 0xF5), r(0x3FD, 0x01), r(0x3F8, 0xFA)]
    );
    let mut silent = ScriptedBus::new(vec![0x00]);
    assert_eq!(com1().transrecv(&mut silent, 0xF5), None);
}

#[test]
fn a_port_that_echoes_the_probe_works() {
    let mut bus = ScriptedBus::new(vec![0xAE]);
    assert!(test_port(&mut bus, potential_serial_ports::COM2));
    assert_eq!(
        bus.events(),
        &vec![
            w(0x2F9, 0x00),
            w(0x2FB, 0x80),
            w(0x2F8, 0x03),
            w(0x2FB, 0x03),
            w(0x2FA, 0xC7),
            w(0x2FC, 0x0B),
            w(0x2FC, 0x1E),
            w(0x2F8, 0xAE),
            r(0x2F8, 0xAE),
            w(0x2FC, 0x0F),
        ]
    );
}

#[test]
fn a_port_that_does_not_echo_the_probe_does_not_work() {
    let mut bus = ScriptedBus::new(vec![0xFF]);
    assert!(!test_port(&mut bus, potential_serial_ports::COM1));
    assert_eq!(bus.events().len(), 9);
    assert_eq!(bus.events()[8], r(0x3F8, 0xFF));
    let mut silent = ScriptedBus::new(Vec::new());
    assert!(!test_port(&mut silent, potential_serial_ports::COM1));
    assert_eq!(silent.events().len(), 8);
}

#[test]
fn init_serial_tests_all_eight_places() {
    let mut bus = ScriptedBus::new(vec![0xAE, 0x00, 0xAE, 0xFF, 0xAE]);
    let found: SerialPorts = init_serial(&mut bus);
    assert_eq!(
        found.ports_enabled,
        [true, false, true, false, true, false, false, false]
    );
    assert_eq!(found.ports[0].base, potential_serial_ports::COM1);
    assert_eq!(found.ports[7].base, potential_serial_ports::COM8);
    assert_eq!(console_port(&found), Some(4));
    // three places of ten events, two of nine, three of eight
    assert_eq!(bus.events().len(), 3 * 10 + 2 * 9 + 3 * 8);
}

#[test]
fn the_console_is_the_last_working_port() {
    let ports = [com1(); 8];
    let none = SerialPorts { ports_enabled: [false; 8], ports };
    assert_eq!(console_port(&none), None);
    let first = SerialPorts {
        ports_enabled: [true, false, false, false, false, false, false, false],
        ports,
    };
    assert_eq!(console_port(&first), Some(0));
    let all = SerialPorts { ports_enabled: [true; 8], ports };
    assert_eq!(console_port(&all), Some(7));
}

#[test]
fn the_terminal_logs_through_its_port() {
    let mut terminal = SerialTerminal::new();
    let mut bus = ScriptedBus::new(vec![0x20, 0x20, 0x20, 0x20]);
    assert!(terminal.log(&mut bus, "hi"));
    assert!(bus.events().is_empty());
    terminal.init_from_port(com1());
    assert!(terminal.logln(&mut bus, "hi"));
    assert_eq!(
        bus.events(),
        &vec![
            r(0x3FD, 0x20),
            w(0x3F8, b'h'),
            r(0x3FD, 0x20),
            w(0x3F8, b'i'),
            r(0x3FD, 0x20),
            w(0x3F8, b'\r'),
            r(0x3FD, 0x20),
            w(0x3F8, b'\n'),
        ]
    );
    assert!(!terminal.log(&mut bus, "x"));
}

#[test]
fn the_escape_sequences() {
    assert_eq!(clear_screen(), "\x1B[2J");
    assert_eq!(init_cursor(), "\x1B[H");
}

#[test]
fn a_kernel_error_keeps_what_it_is_given() {
    let e = KernelError::new(ErrorKind::HardwareFault, ErrorLevel::Critical, "what", "where");
    assert_eq!(e.kind, ErrorKind::HardwareFault);
    assert_eq!(e.level, ErrorLevel::Critical);
    assert_eq!(e.desc, "what");
    assert_eq!(e.nerdinfo, "where");
}

fn answers_for(bytes: &[u8]) -> Vec<u8> {
    // each byte sent needs a status that lets it out, each byte received a
    // status that announces it
    let mut answers = vec![0x20, 0x01, bytes[0]];
    if bytes.len() > 1 {
        answers.extend([0x20, 0x01, bytes[1]]);
    }
    for b in &bytes[2.min(bytes.len())..] {
        answers.extend([0x01, *b]);
    }
    answers
}

#[test]
fn probing_identifies_the_device() {
    let cases: Vec<(Vec<u8>, PS2Type)> = vec![
        (vec![0xFA, 0xFA, 0x03], PS2Type::ScrollWheelMouse),
        (vec![0xFA, 0xFA, 0x04], PS2Type::FiveButtonMouse),
        (vec![0xFA, 0xFA, 0x00], PS2Type::AncientKeyboard),
        (vec![0xFA, 0xFA, 0xAB, 0x41], PS2Type::Keyboard),
        (vec![0xFA, 0xFA, 0xAB, 0xC1], PS2Type::Keyboard),
        (vec![0xFA, 0xFA, 0xAB, 0x83], PS2Type::Keyboard),
        (vec![0xFA, 0xFA, 0xAB, 0x84], PS2Type::Unknown),
        (vec![0xFA, 0xFA, 0x77], PS2Type::Unknown),
    ];
    for (bytes, kind) in cases {
        let mut bus = ScriptedBus::new(answers_for(&bytes));
        let r = probePort(&mut bus, com1());
        assert_eq!(r.ok(), Some(kind));
        assert_eq!(bus.answers_left(), 0);
    }
}

#[test]
fn a_device_that_stays_silent_is_an_ancient_keyboard() {
    let mut bus = ScriptedBus::new(answers_for(&[0xFA, 0xFA]));
    assert_eq!(probePort(&mut bus, com1()).ok(), Some(PS2Type::AncientKeyboard));
    let mut answers = answers_for(&[0xFA, 0xFA]);
    answers.extend(std::iter::repeat(0x00).take(0xFFFF));
    let mut bus = ScriptedBus::new(answers);
    assert_eq!(probePort(&mut bus, com1()).ok(), Some(PS2Type::AncientKeyboard));
    assert_eq!(bus.answers_left(), 0);
}

#[test]
fn probing_fails_without_acknowledgement() {
    let mut bus = ScriptedBus::new(answers_for(&[0xFE]));
    let e = probePort(&mut bus, com1()).err().unwrap();
    assert_eq!(e.kind, ErrorKind::HardwareFault);
    assert_eq!(e.level, ErrorLevel::Warning);
    assert_eq!(e.desc, "Did not receive ACK");
    assert_eq!(e.nerdinfo, "COM1");
    let mut bus = ScriptedBus::new(answers_for(&[0xFA, 0x00]));
    let e = probePort(&mut bus, Port { base: potential_serial_ports::COM3 }).err().unwrap();
    assert_eq!(e.level, ErrorLevel::Minor);
    assert_eq!(e.desc, "Did not receive ACK after asking port to identify");
    assert_eq!(e.nerdinfo, "COM3");
    let mut silent = ScriptedBus::new(Vec::new());
    let e = probePort(&mut silent, com1()).err().unwrap();
    assert_eq!(e.level, ErrorLevel::Warning);
}

#[test]
fn devices_by_what_they_send() {
    assert_eq!(classify(None, None), PS2Type::AncientKeyboard);
    assert_eq!(classify(Some(0), Some(0x41)), PS2Type::AncientKeyboard);
    assert_eq!(classify(Some(0xAB), None), PS2Type::Unknown);
    assert_eq!(classify(Some(0xAB), Some(0x41)), PS2Type::Keyboard);
    assert_eq!(classify(Some(3), None), PS2Type::ScrollWheelMouse);
    assert_eq!(classify(Some(4), None), PS2Type::FiveButtonMouse);
    assert_eq!(classify(Some(5), None), PS2Type::Unknown);
}
