//! Port writes as plain values.

use vstd::prelude::*;

verus! {

/// One byte to be written to an I/O port.
#[derive(Clone, Copy, Debug, PartialEq, Eq, Structural)]
pub struct PortWrite {
    pub port: u16,
    pub value: u8,
}

/// One 32-bit word to be written to an I/O port.
#[derive(Clone, Copy, Debug, PartialEq, Eq, Structural)]
pub struct PortWrite32 {
    pub port: u16,
    pub value: u32,
}

} // verus!
