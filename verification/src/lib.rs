//! Interrupt-routing core of a small x86 kernel, together with the two text
//! sinks it reports to.
//!
//! Nothing in this crate touches hardware. Every operation that would drive a
//! port or a privileged instruction instead returns the exact values to hand to
//! the machine, so that each byte sent to the hardware is covered by a contract.

pub mod com;
pub mod gate;
pub mod interrupt;
pub mod pic;
pub mod port;
pub mod qemu;
pub mod vga;
