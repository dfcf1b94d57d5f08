//! Driver for the cascaded pair of 8259 interrupt controllers.
//!
//! The driver tracks which of the 16 interrupt lines are enabled and spells
//! out, byte for byte, what has to be written to the controllers' ports. The
//! controllers mask a line when its register bit is set, so the registers
//! receive the complement of the enabled set.

use vstd::prelude::*;
use crate::port::PortWrite;

verus! {

/// Command port of the primary controller.
pub const MASTER_CMD: u16 = 0x20;

/// Data port of the primary controller.
pub const MASTER_DATA: u16 = 0x21;

/// Command port of the secondary controller.
pub const SLAVE_CMD: u16 = 0xA0;

/// Data port of the secondary controller.
pub const SLAVE_DATA: u16 = 0xA1;

/// An unused port; a write to it gives the controllers time to settle.
pub const WAIT_PORT: u16 = 0x80;

/// Command bit that starts the initialisation handshake.
pub const ICW_INIT: u8 = 0x10;

/// Command bit announcing that a fourth handshake byte will follow.
pub const ICW_IC4: u8 = 0x01;

/// First vector of the lines of the primary controller.
pub const MASTER_OFFSET: u8 = 0x20;

/// First vector of the lines of the secondary controller.
pub const SLAVE_OFFSET: u8 = 0x28;

/// Cascade byte: the secondary controller hangs on line 2 of the primary.
pub const CASCADE_LINE: u8 = 0x4;

/// Mode byte selecting 80x86 mode.
pub const MODE_8086: u8 = 0x1;

/// Bit of the timer line in a mask.
pub const TIMER_BIT: u16 = 0b0000_0001;

/// Bit of the PS/2 keyboard line in a mask.
pub const PS_2_BIT: u16 = 0b0000_0010;

/// A set of enabled interrupt lines; bit `n` stands for line `n`.
#[derive(Clone, Copy, Debug, PartialEq, Eq, Structural)]
pub struct IRQMask {
    bits: u16,
}

impl View for IRQMask {
    type V = u16;

    closed spec fn view(&self) -> u16 {
        self.bits
    }
}

impl IRQMask {
    /// The set with no line enabled.
    pub fn empty() -> (m: IRQMask)
        ensures
            m@ == 0,
    {
        IRQMask { bits: 0 }
    }

    /// The set with only the timer line enabled.
    pub fn timer() -> (m: IRQMask)
        ensures
            m@ == TIMER_BIT,
    {
        IRQMask { bits: TIMER_BIT }
    }

    /// The set with only the PS/2 keyboard line enabled.
    pub fn ps_2() -> (m: IRQMask)
        ensures
            m@ == PS_2_BIT,
    {
        IRQMask { bits: PS_2_BIT }
    }

    /// The set whose lines are exactly the bits set in `bits`.
    pub fn from_bits_retain(bits: u16) -> (m: IRQMask)
        ensures
            m@ == bits,
    {
        IRQMask { bits }
    }

    /// The set as a bit pattern.
    pub fn bits(&self) -> (b: u16)
        ensures
            b == self@,
    {
        self.bits
    }

    /// The lines enabled in `self` or in `other`.
    pub fn union(self, other: IRQMask) -> (m: IRQMask)
        ensures
            m@ == self@ | other@,
    {
        IRQMask { bits: self.bits | other.bits }
    }

    /// Whether every line enabled in `other` is enabled in `self`.
    pub fn contains(&self, other: IRQMask) -> (r: bool)
        ensures
            r == (self@ & other@ == other@),
    {
        self.bits & other.bits == other.bits
    }
}

/// Whether `line` is enabled in the bit pattern `mask`.
pub open spec fn line_enabled(mask: u16, line: u16) -> bool {
    (mask >> line) & 1 == 1
}

/// Whether the mask registers `master` and `slave` hold back `line`: lines 0
/// to 7 are bits of the primary register, lines 8 to 15 of the secondary.
pub open spec fn line_masked(master: u8, slave: u8, line: u16) -> bool {
    if line < 8 {
        ((master as u16) >> line) & 1 == 1
    } else {
        ((slave as u16) >> ((line - 8) as u16)) & 1 == 1
    }
}

/// Value of the primary mask register that enables the lines in `mask`.
pub open spec fn master_register(mask: u16) -> u8 {
    !((mask & 0xff) as u8)
}

/// Value of the secondary mask register that enables the lines in `mask`.
pub open spec fn slave_register(mask: u16) -> u8 {
    !((mask >> 8) as u8)
}

/// The write that lets the controllers settle.
pub open spec fn wait_write() -> PortWrite {
    PortWrite { port: WAIT_PORT, value: 0 }
}

/// The writes that make the controllers enable exactly the lines in `mask`.
pub open spec fn mask_writes(mask: u16) -> Seq<PortWrite> {
    seq![
        PortWrite { port: MASTER_DATA, value: master_register(mask) },
        PortWrite { port: SLAVE_DATA, value: slave_register(mask) },
    ]
}

/// The initialisation handshake: start command to both controllers, the
/// vector offsets, the cascade wiring, and the mode byte. The controllers
/// cannot take writes back to back, so every write of the handshake is
/// followed at once by a settling write.
pub open spec fn handshake_writes() -> Seq<PortWrite> {
    seq![
        PortWrite { port: MASTER_CMD, value: 0x11 },
        wait_write(),
        PortWrite { port: SLAVE_CMD, value: 0x11 },
        wait_write(),
        PortWrite { port: MASTER_DATA, value: 0x20 },
        wait_write(),
        PortWrite { port: SLAVE_DATA, value: 0x28 },
        wait_write(),
        PortWrite { port: MASTER_DATA, value: 0x4 },
        wait_write(),
        PortWrite { port: SLAVE_DATA, value: 0x4 },
        wait_write(),
        PortWrite { port: MASTER_DATA, value: 0x1 },
        wait_write(),
    ]
}

/// Whether in `writes` every write before position `end` that goes to a
/// controller is directly followed by a settling write.
pub open spec fn paced(writes: Seq<PortWrite>, end: int) -> bool {
    forall|i: int|
        0 <= i < end && (#[trigger] writes[i]).port != WAIT_PORT ==> i + 1 < writes.len()
            && writes[i + 1] == wait_write()
}

/// Everything written to bring the controllers up with the lines in `mask`
/// enabled: the handshake, then the mask.
pub open spec fn init_writes(mask: u16) -> Seq<PortWrite> {
    handshake_writes() + mask_writes(mask)
}

/// Every write of the handshake that goes to a controller is directly
/// followed by a settling write, whatever mask is applied afterwards.
pub proof fn lemma_handshake_paced(mask: u16)
    ensures
        handshake_writes().len() == 14,
        paced(handshake_writes(), 14),
        paced(init_writes(mask), 14),
{
    let h = handshake_writes();
    let w = init_writes(mask);
    assert(h.len() == 14);
    assert forall|i: int| 0 <= i < 14 implies #[trigger] w[i] == h[i] by {}
    assert forall|i: int| 0 <= i < 14 && (#[trigger] h[i]).port != WAIT_PORT implies i + 1
        < h.len() && h[i + 1] == wait_write() by {
        assert(i == 0 || i == 2 || i == 4 || i == 6 || i == 8 || i == 10 || i == 12);
    }
    assert forall|i: int| 0 <= i < 14 && (#[trigger] w[i]).port != WAIT_PORT implies i + 1
        < w.len() && w[i + 1] == wait_write() by {
        assert(w[i] == h[i]);
        assert(i == 0 || i == 2 || i == 4 || i == 6 || i == 8 || i == 10 || i == 12);
        assert(w[i + 1] == h[i + 1]);
    }
}

/// A line is enabled in a mask exactly when the registers written for that
/// mask do not hold it back.
pub proof fn lemma_active_low(mask: u16, line: u16)
    requires
        line < 16,
    ensures
        line_enabled(mask, line) <==> !line_masked(
            master_register(mask),
            slave_register(mask),
            line,
        ),
{
    if line < 8 {
        assert(((mask >> line) & 1 == 1) <==> !((((!((mask & 0xff) as u8)) as u16) >> line) & 1
            == 1)) by (bit_vector)
            requires
                line < 8,
        ;
    } else {
        let k = (line - 8) as u16;
        assert(((mask >> line) & 1 == 1) <==> !((((!((mask >> 8) as u8)) as u16) >> k) & 1 == 1))
            by (bit_vector)
            requires
                8 <= line < 16,
                k == line - 8,
        ;
    }
}

/// The write that lets the controllers settle.
pub fn io_wait() -> (w: PortWrite)
    ensures
        w == wait_write(),
{
    PortWrite { port: WAIT_PORT, value: 0 }
}

/// The controller pair, with the set of lines it currently lets through.
pub struct Pic {
    imr: IRQMask,
}

impl View for Pic {
    type V = u16;

    /// The enabled lines as a bit pattern.
    closed spec fn view(&self) -> u16 {
        self.imr@
    }
}

impl Pic {
    /// A controller pair with no line enabled.
    pub fn new() -> (pic: Pic)
        ensures
            pic@ == 0,
    {
        Pic { imr: IRQMask::empty() }
    }

    /// The lines currently enabled.
    pub fn imr(&self) -> (m: IRQMask)
        ensures
            m@ == self@,
    {
        self.imr
    }

    /// Enables exactly the lines in `imr`. Returns the two register writes
    /// that do so, primary first: each register gets the complement of its
    /// half of the mask.
    pub fn set_imr(&mut self, imr: IRQMask) -> (writes: Vec<PortWrite>)
        ensures
            final(self)@ == imr@,
            writes@ == mask_writes(imr@),
            writes@.len() == 2,
            writes@[0].port == MASTER_DATA && writes@[0].value == !((imr@ & 0xff) as u8),
            writes@[1].port == SLAVE_DATA && writes@[1].value == !((imr@ >> 8) as u8),
    {
        let master_imr: u8 = (imr.bits() & 0xff) as u8;
        let slave_imr: u8 = (imr.bits() >> 8) as u8;
        let mut writes: Vec<PortWrite> = Vec::new();
        writes.push(PortWrite { port: MASTER_DATA, value: !master_imr });
        writes.push(PortWrite { port: SLAVE_DATA, value: !slave_imr });
        self.imr = imr;
        assert(writes@ =~= mask_writes(imr@));
        writes
    }

    /// Brings both controllers up and enables exactly the lines in `imr`.
    /// Returns every port write of the sequence in order: the handshake, in
    /// which each write is followed by a settling write, then the two mask
    /// writes. Interrupts must be off while the writes are carried out.
    pub fn init(&mut self, imr: IRQMask) -> (writes: Vec<PortWrite>)
        ensures
            final(self)@ == imr@,
            writes@ == init_writes(imr@),
            writes@.len() == 16,
            paced(writes@, 14),
    {
        let mut writes: Vec<PortWrite> = Vec::new();

        // ICW 1. Initialisation.
        writes.push(PortWrite { port: MASTER_CMD, value: ICW_INIT | ICW_IC4 });
        writes.push(io_wait());
        writes.push(PortWrite { port: SLAVE_CMD, value: ICW_INIT | ICW_IC4 });
        writes.push(io_wait());

        // ICW 2. Map interrupts.
        writes.push(PortWrite { port: MASTER_DATA, value: MASTER_OFFSET });
        writes.push(io_wait());
        writes.push(PortWrite { port: SLAVE_DATA, value: SLAVE_OFFSET });
        writes.push(io_wait());

        // ICW 3. Connect slave with master.
        writes.push(PortWrite { port: MASTER_DATA, value: CASCADE_LINE });
        writes.push(io_wait());
        writes.push(PortWrite { port: SLAVE_DATA, value: CASCADE_LINE });
        writes.push(io_wait());

        // ICW 4. Final steps.
        writes.push(PortWrite { port: MASTER_DATA, value: MODE_8086 });
        writes.push(io_wait());

        assert(ICW_INIT | ICW_IC4 == 0x11) by (bit_vector);
        assert(writes@ =~= handshake_writes());

        let mask = self.set_imr(imr);
        writes.push(mask[0]);
        writes.push(mask[1]);
        assert(writes@ =~= init_writes(imr@));
        proof {
            lemma_handshake_paced(imr@);
        }
        writes
    }
}

/// Brings the controller pair `pic` up with exactly the lines in `imr`
/// enabled, and returns the port writes to carry out.
pub fn init_interrupts(pic: &mut Pic, imr: IRQMask) -> (writes: Vec<PortWrite>)
    ensures
        final(pic)@ == imr@,
        writes@ == init_writes(imr@),
        writes@.len() == 16,
        paced(writes@, 14),
{
    pic.init(imr)
}

} // verus!
