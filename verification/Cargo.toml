[package]
name = "wukkos"
version = "0.1.0"
edition = "2021"
publish = false

[dependencies]
acpi = "=4.1.1"
limine = "=0.5.0"
multiboot2 = "=0.22.2"
pc-keyboard = "=0.6.1"
spin = "=0.9.9"
x2apic = "=0.5.1"
x86_64 = { version = "=0.15.5", default-features = false, features = ["instructions"] }
