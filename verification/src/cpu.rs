//! The processor's tables and interrupt controllers: task-state segment,
//! global descriptor table, interrupt descriptor table, the order in which
//! they are loaded, and the programming of the local APIC and the IOAPIC.

pub mod tss;
pub mod gdt;
pub mod apic;
pub mod idt;
pub mod ioapic;
pub mod handlers;
pub mod bring_up;
pub mod descriptor_tables;
