//! Finding out what kind of PS/2 device answers behind a port.

use vstd::prelude::*;
use crate::internals::{ErrorKind, ErrorLevel, KernelError};
use crate::serial::port_bus::{BusState, PortBus};
use crate::serial::uart::{receive_outcome, transrecv_outcome, Port};

verus! {

/// The kinds of PS/2 device.
#[derive(Clone, Copy, Debug, PartialEq, Eq, Structural)]
pub enum PS2Type {
    AncientKeyboard,
    Keyboard,
    Mouse,
    FiveButtonMouse,
    ScrollWheelMouse,
    Unknown,
}

/// Command that tells a device to stop scanning.
pub const MSG_DISABLE_SCANNING: u8 = 0xF5;

/// Command that asks a device what it is.
pub const MSG_IDENTIFY: u8 = 0xF2;

/// The byte with which a device acknowledges a command.
pub const MSG_ACK: u8 = 0xFA;

/// Number of looks at the line status that a byte of the identification
/// may take.
pub const IDENTIFY_TIMEOUT: u16 = 0xFFFF;

/// How far a probe got.
#[derive(Clone, Copy, Debug, PartialEq, Eq, Structural)]
pub enum ProbeVerdict {
    /// The device did not acknowledge the command to stop scanning.
    NoAck,
    /// The device did not acknowledge the command to identify itself.
    NoAckOnIdentify,
    /// The device was identified.
    Identified(PS2Type),
}

/// The kind of device that identifies itself with `first`, and with
/// `second` where `first` announces a keyboard. A device that sends
/// nothing, or zero, is a keyboard of the oldest kind.
pub open spec fn device_kind(first: Option<u8>, second: Option<u8>) -> PS2Type {
    match first {
        None => PS2Type::AncientKeyboard,
        Some(byte) => if byte == 0 {
            PS2Type::AncientKeyboard
        } else if byte == 0x03 {
            PS2Type::ScrollWheelMouse
        } else if byte == 0x04 {
            PS2Type::FiveButtonMouse
        } else if byte == 0xAB {
            if second == Some(0x41u8) || second == Some(0xC1u8) || second == Some(0x83u8) {
                PS2Type::Keyboard
            } else {
                PS2Type::Unknown
            }
        } else {
            PS2Type::Unknown
        },
    }
}

/// Probing the port at `base`: the device is told to stop scanning and
/// asked to identify itself, each of which it must acknowledge, and is
/// then known by the one or two bytes that it sends.
pub open spec fn probe_outcome(s: BusState, base: u16) -> (BusState, ProbeVerdict) {
    let stopped = transrecv_outcome(s, base, MSG_DISABLE_SCANNING);
    if stopped.1 != Some(MSG_ACK) {
        (stopped.0, ProbeVerdict::NoAck)
    } else {
        let asked = transrecv_outcome(stopped.0, base, MSG_IDENTIFY);
        if asked.1 != Some(MSG_ACK) {
            (asked.0, ProbeVerdict::NoAckOnIdentify)
        } else {
            let first = receive_outcome(asked.0, base, IDENTIFY_TIMEOUT);
            if first.1 == Some(0xABu8) {
                let second = receive_outcome(first.0, base, IDENTIFY_TIMEOUT);
                (second.0, ProbeVerdict::Identified(device_kind(first.1, second.1)))
            } else {
                (first.0, ProbeVerdict::Identified(device_kind(first.1, None)))
            }
        }
    }
}

/// The kind of device that identifies itself with `first` and `second`.
pub fn classify(first: Option<u8>, second: Option<u8>) -> (kind: PS2Type)
    ensures
        kind == device_kind(first, second),
{
    match first {
        None => PS2Type::AncientKeyboard,
        Some(0x00) => PS2Type::AncientKeyboard,
        Some(0x03) => PS2Type::ScrollWheelMouse,
        Some(0x04) => PS2Type::FiveButtonMouse,
        Some(0xAB) => match second {
            Some(0x41) => PS2Type::Keyboard,
            Some(0xC1) => PS2Type::Keyboard,
            Some(0x83) => PS2Type::Keyboard,
            _ => PS2Type::Unknown,
        },
        Some(_) => PS2Type::Unknown,
    }
}

/// Finds out what kind of PS/2 device answers behind `port`. A device that
/// does not acknowledge the first command gives a warning, one that does
/// not acknowledge the second a minor error; both name the port.
#[allow(non_snake_case)]
pub fn probePort<B: PortBus>(bus: &mut B, port: Port) -> (r: Result<PS2Type, KernelError>)
    ensures
        final(bus).state() == probe_outcome(old(bus).state(), port.base.base()).0,
        match probe_outcome(old(bus).state(), port.base.base()).1 {
            ProbeVerdict::Identified(kind) => r == Ok::<PS2Type, KernelError>(kind),
            ProbeVerdict::NoAck => {
                &&& r is Err
                &&& r->Err_0.kind == ErrorKind::HardwareFault
                &&& r->Err_0.level == ErrorLevel::Warning
                &&& r->Err_0.desc@ == "Did not receive ACK"@
                &&& r->Err_0.nerdinfo@ == port.base.name()
            },
            ProbeVerdict::NoAckOnIdentify => {
                &&& r is Err
                &&& r->Err_0.kind == ErrorKind::HardwareFault
                &&& r->Err_0.level == ErrorLevel::Minor
                &&& r->Err_0.desc@ == "Did not receive ACK after asking port to identify"@
                &&& r->Err_0.nerdinfo@ == port.base.name()
            },
        },
{
    let response = port.transrecv(bus, MSG_DISABLE_SCANNING);
    if response != Some(MSG_ACK) {
        return Err(
            KernelError::new(
                ErrorKind::HardwareFault,
                ErrorLevel::Warning,
                "Did not receive ACK",
                port.base.to_string(),
            ),
        );
    }
    let response = port.transrecv(bus, MSG_IDENTIFY);
    if response != Some(MSG_ACK) {
        return Err(
            KernelError::new(
                ErrorKind::HardwareFault,
                ErrorLevel::Minor,
                "Did not receive ACK after asking port to identify",
                port.base.to_string(),
            ),
        );
    }
    let first = port.receive(bus, IDENTIFY_TIMEOUT);
    if first == Some(0xAB) {
        let second = port.receive(bus, IDENTIFY_TIMEOUT);
        Ok(classify(first, second))
    } else {
        Ok(classify(first, None))
    }
}

} // verus!
