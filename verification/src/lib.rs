//! Hardware bring-up core of a small x86_64 kernel: physical frame
//! allocation, page mapping, on-demand mapping of physical regions,
//! descriptor tables, interrupt-controller programming and the serial
//! console, with every decision stated as a contract over plain values.

pub mod boot;
pub mod cpu;
pub mod internals;
pub mod memory;
pub mod serial;
