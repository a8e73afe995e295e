//! Plain values that the whole kernel shares: screen coordinates, colours,
//! and the errors that a driver reports.

use vstd::prelude::*;

verus! {

/// A place on the screen.
#[derive(Clone, Copy, Debug, PartialEq, Eq, Structural)]
pub struct Point {
    pub x: i32,
    pub y: i32,
}

/// A colour as red, green and blue.
#[derive(Clone, Copy, Debug, PartialEq, Eq, Structural)]
pub struct Colour {
    pub r: u8,
    pub g: u8,
    pub b: u8,
}

/// What went wrong.
#[derive(Clone, Copy, Debug, PartialEq, Eq, Structural)]
pub enum ErrorKind {
    HardwareFault,
}

/// How bad it is.
#[derive(Clone, Copy, Debug, PartialEq, Eq, Structural)]
pub enum ErrorLevel {
    Critical,
    Minor,
    Warning,
}

/// An error of the kernel: its kind, how bad it is, what happened, and a
/// detail for whoever has to find the cause.
#[derive(Clone, Copy, Debug)]
pub struct KernelError {
    pub kind: ErrorKind,
    pub level: ErrorLevel,
    pub desc: &'static str,
    pub nerdinfo: &'static str,
}

/// What the boot loader hands to the kernel.
#[derive(Clone, Copy, Debug, PartialEq, Eq, Structural)]
pub struct KernelArgs {
    pub multiboot_information_address: usize,
}

impl KernelError {
    pub fn new(
        kind: ErrorKind,
        level: ErrorLevel,
        desc: &'static str,
        nerdinfo: &'static str,
    ) -> (e: KernelError)
        ensures
            e.kind == kind,
            e.level == level,
            e.desc@ == desc@,
            e.nerdinfo@ == nerdinfo@,
    {
        KernelError { kind, level, desc, nerdinfo }
    }
}

} // verus!
