//! The decisions of a polled 16550 serial-port driver.
//!
//! A port has six registers at consecutive addresses. The driver says what to
//! write to set the port up, and, given the line status just read, whether a
//! byte may be sent or fetched yet.

use vstd::prelude::*;
use crate::port::PortWrite;

verus! {

/// Number of registers of a serial port.
pub const REGISTERS: u16 = 6;

/// Register that holds the byte to send or the byte received.
pub const DATA: u16 = 0;

/// Register that holds the line status.
pub const LINE_STATUS: u16 = 5;

/// Line-status bit that is set once the transmit register has room.
pub const TRANSMIT_READY: u8 = 0x20;

/// Line-status bit that is set once a received byte waits.
pub const DATA_READY: u8 = 0x01;

/// The writes that set up the port at `base` for 115200 baud, seven data
/// bits, no parity, one stop bit, with the queues on.
pub open spec fn setup_writes(base: u16) -> Seq<PortWrite> {
    seq![
        PortWrite { port: base, value: 0x00 },
        PortWrite { port: (base + 1) as u16, value: 0x00 },
        PortWrite { port: (base + 3) as u16, value: 0x80 },
        PortWrite { port: base, value: 0x01 },
        PortWrite { port: (base + 1) as u16, value: 0x00 },
        PortWrite { port: (base + 3) as u16, value: 0x02 },
        PortWrite { port: (base + 2) as u16, value: 0xc7 },
        PortWrite { port: (base + 4) as u16, value: 0x0B },
    ]
}

/// A serial port, known by the address of its first register.
#[derive(Clone, Copy, Debug, PartialEq, Eq, Structural)]
pub struct COM {
    base: u16,
}

impl View for COM {
    type V = u16;

    /// Address of the first register.
    closed spec fn view(&self) -> u16 {
        self.base
    }
}

impl COM {
    #[verifier::type_invariant]
    spec fn registers_fit(self) -> bool {
        self.base + 5 <= u16::MAX
    }

    /// The port whose registers start at `base`, with the writes that set it
    /// up, in order.
    pub fn new(base: u16) -> (r: (COM, Vec<PortWrite>))
        requires
            base + 5 <= u16::MAX,
        ensures
            r.0@ == base,
            r.1@ == setup_writes(base),
    {
        let ret = COM { base };
        let mut writes: Vec<PortWrite> = Vec::new();
        // Disable DLAB
        writes.push(PortWrite { port: ret.port(0), value: 0x00 });
        // Disable all interrupts
        writes.push(PortWrite { port: ret.port(1), value: 0x00 });
        // Enable DLAB (set baud rate divisor)
        writes.push(PortWrite { port: ret.port(3), value: 0x80 });
        // Set divisor to 1 (115200 baud)
        writes.push(PortWrite { port: ret.port(0), value: 0x01 });
        writes.push(PortWrite { port: ret.port(1), value: 0x00 });
        // Disable DLAB, 7 bits, no parity, one stop bit
        writes.push(PortWrite { port: ret.port(3), value: 0x02 });
        // Enable FIFO, clear FIFO, with 14 byte threshold
        writes.push(PortWrite { port: ret.port(2), value: 0xc7 });
        // IRQs enabled, RTS and DTR set
        writes.push(PortWrite { port: ret.port(4), value: 0x0B });
        assert(writes@ =~= setup_writes(base));
        (ret, writes)
    }

    /// Address of register `port` of this serial port.
    pub fn port(&self, port: u16) -> (address: u16)
        requires
            port < REGISTERS,
        ensures
            address == self@ + port,
    {
        proof {
            use_type_invariant(self);
        }
        self.base + port
    }

    /// Whether, by the line status `status`, the transmit register is still
    /// occupied, so that sending has to wait.
    pub fn trans_empty(status: u8) -> (wait: bool)
        ensures
            wait == (status & 0x20 == 0),
    {
        status & TRANSMIT_READY == 0
    }

    /// Whether, by the line status `status`, no received byte waits, so that
    /// fetching has to wait.
    pub fn fifo_empty(status: u8) -> (wait: bool)
        ensures
            wait == (status & 0x01 == 0),
    {
        status & DATA_READY == 0
    }

    /// The next step of sending `byte`, given the line status just read:
    /// nothing yet while the transmit register is occupied, else the write
    /// of `byte` to the data register.
    pub fn write_byte(&self, status: u8, byte: u8) -> (step: Option<PortWrite>)
        ensures
            step == if status & 0x20 == 0 {
                None
            } else {
                Some(PortWrite { port: self@, value: byte })
            },
    {
        if COM::trans_empty(status) {
            None
        } else {
            Some(PortWrite { port: self.port(DATA), value: byte })
        }
    }

    /// The next step of fetching a byte, given the line status just read:
    /// nothing yet while no byte waits, else the address of the data
    /// register to read it from.
    pub fn read_byte(&self, status: u8) -> (step: Option<u16>)
        ensures
            step == if status & 0x01 == 0 {
                None
            } else {
                Some(self@)
            },
    {
        if COM::fifo_empty(status) {
            None
        } else {
            Some(self.port(DATA))
        }
    }
}

} // verus!
