//! Gate descriptors: one 8-byte entry of the interrupt descriptor table.
//!
//! A descriptor is kept as the 64-bit word the processor reads. Bit 0 is the
//! lowest bit of byte 0:
//!
//! | bits   | field                         |
//! |--------|-------------------------------|
//! | 0..16  | handler address, low half     |
//! | 16..32 | code-segment selector         |
//! | 32..37 | reserved, always zero         |
//! | 37..45 | gate-kind tag                 |
//! | 45..47 | descriptor privilege level    |
//! | 47     | present                       |
//! | 48..64 | handler address, high half    |
//!
//! Contracts speak of a descriptor through its view, [`GateFields`].

use vstd::prelude::*;

verus! {

/// The hardware behaviour a gate asks for.
#[derive(Clone, Copy, Debug, PartialEq, Eq, Structural)]
pub enum GateType {
    /// Entering switches to another task.
    Task,
    /// Entering leaves interrupt delivery as it is.
    Trap,
    /// Entering turns interrupt delivery off until the handler returns.
    Interrupt,
}

impl GateType {
    /// The tag byte of this kind. Its upper five bits are the type field of
    /// the descriptor as the 80386 defines it (`00101` task, `01110`
    /// interrupt, `01111` trap); its lower three bits are the zero bits below
    /// that field.
    pub open spec fn spec_tag(self) -> u8 {
        match self {
            GateType::Task => 0x28,
            GateType::Trap => 0x78,
            GateType::Interrupt => 0x70,
        }
    }

    #[verifier::when_used_as_spec(spec_tag)]
    pub fn tag(self) -> (t: u8)
        ensures
            t == self.spec_tag(),
    {
        match self {
            GateType::Task => 0x28,
            GateType::Trap => 0x78,
            GateType::Interrupt => 0x70,
        }
    }
}

/// The fields of a gate descriptor, unpacked.
pub struct GateFields {
    pub offset_low: u16,
    pub selector: u16,
    pub reserved: u8,
    pub gtype: u8,
    pub dpl: u8,
    pub present: bool,
    pub offset_high: u16,
}

/// Low 16 bits of a handler address.
pub open spec fn low_half(address: u32) -> u16 {
    (address & 0xffff) as u16
}

/// High 16 bits of a handler address.
pub open spec fn high_half(address: u32) -> u16 {
    (address >> 16) as u16
}

/// The address whose halves are `low` and `high`.
pub open spec fn join_halves(low: u16, high: u16) -> u32 {
    ((high as u32) << 16) | (low as u32)
}

/// The fields held by the 64-bit word `bits`.
pub open spec fn decode(bits: u64) -> GateFields {
    GateFields {
        offset_low: (bits & 0xffff) as u16,
        selector: ((bits >> 16) & 0xffff) as u16,
        reserved: ((bits >> 32) & 0x1f) as u8,
        gtype: ((bits >> 37) & 0xff) as u8,
        dpl: ((bits >> 45) & 0x3) as u8,
        present: (bits >> 47) & 1 == 1,
        offset_high: ((bits >> 48) & 0xffff) as u16,
    }
}

impl GateFields {
    /// The handler address that the two halves spell.
    pub open spec fn handler(self) -> u32 {
        join_halves(self.offset_low, self.offset_high)
    }

    /// The fields of a descriptor that has every bit clear.
    pub open spec fn zero() -> GateFields {
        GateFields {
            offset_low: 0,
            selector: 0,
            reserved: 0,
            gtype: 0,
            dpl: 0,
            present: false,
            offset_high: 0,
        }
    }

    /// The fields of a present descriptor for `handler`.
    pub open spec fn for_handler(gtype: GateType, segm: u16, dpl: u8, handler: u32) -> GateFields {
        GateFields {
            offset_low: low_half(handler),
            selector: segm,
            reserved: 0,
            gtype: gtype.spec_tag(),
            dpl,
            present: true,
            offset_high: high_half(handler),
        }
    }
}

/// The eight bytes, in memory order, of a descriptor with fields `f`.
///
/// Byte 4 holds the reserved bits below the three low bits of the tag; byte 5
/// holds the five high bits of the tag, then the privilege level, then the
/// present bit on top.
pub open spec fn gate_bytes(f: GateFields) -> Seq<u8> {
    seq![
        (f.offset_low & 0xff) as u8,
        (f.offset_low >> 8) as u8,
        (f.selector & 0xff) as u8,
        (f.selector >> 8) as u8,
        f.reserved | ((f.gtype & 0x7) << 5),
        (f.gtype >> 3) | (f.dpl << 5) | (if f.present { 0x80u8 } else { 0u8 }),
        (f.offset_high & 0xff) as u8,
        (f.offset_high >> 8) as u8,
    ]
}

/// A gate descriptor in its hardware form.
#[derive(Clone, Copy, Debug, PartialEq, Eq, Structural)]
pub struct Gate {
    bits: u64,
}

impl View for Gate {
    type V = GateFields;

    open spec fn view(&self) -> GateFields {
        decode(self.bits())
    }
}

proof fn lemma_put_offset_low(b: u64, v: u16)
    by (bit_vector)
    ensures
        ({
            let n = (b & !0xffffu64) | (v as u64);
            &&& (n & 0xffff) as u16 == v
            &&& (n >> 16) & 0xffff == (b >> 16) & 0xffff
            &&& (n >> 32) & 0x1f == (b >> 32) & 0x1f
            &&& (n >> 37) & 0xff == (b >> 37) & 0xff
            &&& (n >> 45) & 0x3 == (b >> 45) & 0x3
            &&& (n >> 47) & 1 == (b >> 47) & 1
            &&& (n >> 48) & 0xffff == (b >> 48) & 0xffff
        }),
{
}

proof fn lemma_put_selector(b: u64, v: u16)
    by (bit_vector)
    ensures
        ({
            let n = (b & !(0xffffu64 << 16)) | ((v as u64) << 16);
            &&& n & 0xffff == b & 0xffff
            &&& ((n >> 16) & 0xffff) as u16 == v
            &&& (n >> 32) & 0x1f == (b >> 32) & 0x1f
            &&& (n >> 37) & 0xff == (b >> 37) & 0xff
            &&& (n >> 45) & 0x3 == (b >> 45) & 0x3
            &&& (n >> 47) & 1 == (b >> 47) & 1
            &&& (n >> 48) & 0xffff == (b >> 48) & 0xffff
        }),
{
}

proof fn lemma_put_gtype(b: u64, v: u8)
    by (bit_vector)
    ensures
        ({
            let n = (b & !(0xffu64 << 37)) | ((v as u64) << 37);
            &&& n & 0xffff == b & 0xffff
            &&& (n >> 16) & 0xffff == (b >> 16) & 0xffff
            &&& (n >> 32) & 0x1f == (b >> 32) & 0x1f
            &&& ((n >> 37) & 0xff) as u8 == v
            &&& (n >> 45) & 0x3 == (b >> 45) & 0x3
            &&& (n >> 47) & 1 == (b >> 47) & 1
            &&& (n >> 48) & 0xffff == (b >> 48) & 0xffff
        }),
{
}

proof fn lemma_put_dpl(b: u64, v: u8)
    by (bit_vector)
    requires
        v <= 3,
    ensures
        ({
            let n = (b & !(0x3u64 << 45)) | ((v as u64) << 45);
            &&& n & 0xffff == b & 0xffff
            &&& (n >> 16) & 0xffff == (b >> 16) & 0xffff
            &&& (n >> 32) & 0x1f == (b >> 32) & 0x1f
            &&& (n >> 37) & 0xff == (b >> 37) & 0xff
            &&& ((n >> 45) & 0x3) as u8 == v
            &&& (n >> 47) & 1 == (b >> 47) & 1
            &&& (n >> 48) & 0xffff == (b >> 48) & 0xffff
        }),
{
}

proof fn lemma_put_present(b: u64, v: u64)
    by (bit_vector)
    requires
        v <= 1,
    ensures
        ({
            let n = (b & !(1u64 << 47)) | (v << 47);
            &&& n & 0xffff == b & 0xffff
            &&& (n >> 16) & 0xffff == (b >> 16) & 0xffff
            &&& (n >> 32) & 0x1f == (b >> 32) & 0x1f
            &&& (n >> 37) & 0xff == (b >> 37) & 0xff
            &&& (n >> 45) & 0x3 == (b >> 45) & 0x3
            &&& (n >> 47) & 1 == v
            &&& (n >> 48) & 0xffff == (b >> 48) & 0xffff
        }),
{
}

proof fn lemma_put_offset_high(b: u64, v: u16)
    by (bit_vector)
    ensures
        ({
            let n = (b & !(0xffffu64 << 48)) | ((v as u64) << 48);
            &&& n & 0xffff == b & 0xffff
            &&& (n >> 16) & 0xffff == (b >> 16) & 0xffff
            &&& (n >> 32) & 0x1f == (b >> 32) & 0x1f
            &&& (n >> 37) & 0xff == (b >> 37) & 0xff
            &&& (n >> 45) & 0x3 == (b >> 45) & 0x3
            &&& (n >> 47) & 1 == (b >> 47) & 1
            &&& ((n >> 48) & 0xffff) as u16 == v
        }),
{
}

proof fn lemma_field_widths(b: u64)
    by (bit_vector)
    ensures
        b & 0xffff <= 0xffff,
        (b >> 16) & 0xffff <= 0xffff,
        (b >> 32) & 0x1f <= 0x1f,
        (b >> 37) & 0xff <= 0xff,
        (b >> 45) & 0x3 <= 0x3,
        (b >> 47) & 1 <= 1,
        (b >> 48) & 0xffff <= 0xffff,
{
}

proof fn lemma_zero_word()
    by (bit_vector)
    ensures
        0u64 & 0xffff == 0,
        (0u64 >> 16) & 0xffff == 0,
        (0u64 >> 32) & 0x1f == 0,
        (0u64 >> 37) & 0xff == 0,
        (0u64 >> 45) & 0x3 == 0,
        (0u64 >> 47) & 1 == 0,
        (0u64 >> 48) & 0xffff == 0,
{
}

proof fn lemma_fields_fix_word(a: u64, b: u64)
    by (bit_vector)
    requires
        a & 0xffff == b & 0xffff,
        (a >> 16) & 0xffff == (b >> 16) & 0xffff,
        (a >> 32) & 0x1f == (b >> 32) & 0x1f,
        (a >> 37) & 0xff == (b >> 37) & 0xff,
        (a >> 45) & 0x3 == (b >> 45) & 0x3,
        (a >> 47) & 1 == (b >> 47) & 1,
        (a >> 48) & 0xffff == (b >> 48) & 0xffff,
    ensures
        a == b,
{
}

proof fn lemma_word_bytes(w: u64)
    by (bit_vector)
    requires
        (w >> 32) & 0x1f == 0,
    ensures
        (w & 0xff) as u8 == (((w & 0xffff) as u16) & 0xff) as u8,
        ((w >> 8) & 0xff) as u8 == (((w & 0xffff) as u16) >> 8) as u8,
        ((w >> 16) & 0xff) as u8 == ((((w >> 16) & 0xffff) as u16) & 0xff) as u8,
        ((w >> 24) & 0xff) as u8 == ((((w >> 16) & 0xffff) as u16) >> 8) as u8,
        ((w >> 32) & 0xff) as u8 == (((w >> 32) & 0x1f) as u8) | (((((w >> 37) & 0xff) as u8) & 0x7)
            << 5),
        ((w >> 40) & 0xff) as u8 == ((((w >> 37) & 0xff) as u8) >> 3) | ((((w >> 45) & 0x3) as u8)
            << 5) | (if (w >> 47) & 1 == 1 {
            0x80u8
        } else {
            0u8
        }),
        ((w >> 48) & 0xff) as u8 == ((((w >> 48) & 0xffff) as u16) & 0xff) as u8,
        ((w >> 56) & 0xff) as u8 == ((((w >> 48) & 0xffff) as u16) >> 8) as u8,
{
}

/// Splitting an address into its halves and joining them again loses nothing.
pub proof fn lemma_split_join(address: u32)
    ensures
        join_halves(low_half(address), high_half(address)) == address,
{
    assert((((address >> 16) as u16 as u32) << 16) | ((address & 0xffff) as u16 as u32) == address)
        by (bit_vector);
}

/// Whatever the kind, selector and privilege level, the two address halves of
/// the descriptor made for `handler` join to exactly `handler`.
pub proof fn lemma_handler_round_trip(gtype: GateType, segm: u16, dpl: u8, handler: u32)
    requires
        dpl <= 3,
    ensures
        GateFields::for_handler(gtype, segm, dpl, handler).handler() == handler,
{
    lemma_split_join(handler);
}

/// The halves of a joined address are the halves it was joined from.
pub proof fn lemma_join_split(low: u16, high: u16)
    ensures
        low_half(join_halves(low, high)) == low,
        high_half(join_halves(low, high)) == high,
{
    assert(((((high as u32) << 16) | (low as u32)) & 0xffff) as u16 == low) by (bit_vector);
    assert(((((high as u32) << 16) | (low as u32)) >> 16) as u16 == high) by (bit_vector);
}

impl Gate {
    /// The 64-bit word of this descriptor.
    pub closed spec fn bits(&self) -> u64 {
        self.bits
    }

    #[verifier::type_invariant]
    spec fn reserved_clear(self) -> bool {
        (self.bits >> 32) & 0x1f == 0
    }

    /// A descriptor with every bit clear: not present, no handler.
    pub fn new() -> (g: Gate)
        ensures
            g@ == GateFields::zero(),
            g.bits() == 0,
    {
        proof {
            lemma_zero_word();
        }
        Gate { bits: 0 }
    }

    /// A present descriptor of kind `gtype` that enters `handler` through the
    /// code segment `segm`, callable from privilege level `dpl` and below.
    pub fn create(gtype: GateType, segm: u16, dpl: u8, handler: u32) -> (g: Gate)
        requires
            dpl <= 3,
        ensures
            g@ == GateFields::for_handler(gtype, segm, dpl, handler),
            g@.handler() == handler,
    {
        let mut ret = Gate::new();
        ret.set_selector(segm);
        ret.set_gtype(gtype);
        ret.set_dpl(dpl);
        ret.set_present(true);
        let low: u16 = (handler & 0xffff) as u16;
        let high: u16 = (handler >> 16) as u16;
        ret.set_offset_low(low);
        ret.set_offset_high(high);
        proof {
            lemma_split_join(handler);
        }
        ret
    }

    /// Stores the low half of the handler address; every other field stays.
    pub fn set_offset_low(&mut self, offset_low: u16)
        ensures
            final(self)@ == (GateFields { offset_low, ..old(self)@ }),
    {
        proof {
            use_type_invariant(&*self);
            lemma_put_offset_low(self.bits, offset_low);
        }
        self.bits = (self.bits & !0xffffu64) | (offset_low as u64);
    }

    /// Stores the code-segment selector; every other field stays.
    pub fn set_selector(&mut self, selector: u16)
        ensures
            final(self)@ == (GateFields { selector, ..old(self)@ }),
    {
        proof {
            use_type_invariant(&*self);
            lemma_put_selector(self.bits, selector);
        }
        self.bits = (self.bits & !(0xffffu64 << 16)) | ((selector as u64) << 16);
    }

    /// Stores the tag of `gtype`; every other field stays.
    pub fn set_gtype(&mut self, gtype: GateType)
        ensures
            final(self)@ == (GateFields { gtype: gtype.spec_tag(), ..old(self)@ }),
    {
        let tag: u8 = gtype.tag();
        proof {
            use_type_invariant(&*self);
            lemma_put_gtype(self.bits, tag);
        }
        self.bits = (self.bits & !(0xffu64 << 37)) | ((tag as u64) << 37);
    }

    /// Stores the privilege level, which has two bits; every other field stays.
    pub fn set_dpl(&mut self, dpl: u8)
        requires
            dpl <= 3,
        ensures
            final(self)@ == (GateFields { dpl, ..old(self)@ }),
    {
        proof {
            use_type_invariant(&*self);
            lemma_put_dpl(self.bits, dpl);
        }
        self.bits = (self.bits & !(0x3u64 << 45)) | ((dpl as u64) << 45);
    }

    /// Sets or clears the present bit; every other field stays.
    pub fn set_present(&mut self, present: bool)
        ensures
            final(self)@ == (GateFields { present, ..old(self)@ }),
    {
        let flag: u64 = if present { 1 } else { 0 };
        proof {
            use_type_invariant(&*self);
            lemma_put_present(self.bits, flag);
        }
        self.bits = (self.bits & !(1u64 << 47)) | (flag << 47);
    }

    /// Stores the high half of the handler address; every other field stays.
    pub fn set_offset_high(&mut self, offset_high: u16)
        ensures
            final(self)@ == (GateFields { offset_high, ..old(self)@ }),
    {
        proof {
            use_type_invariant(&*self);
            lemma_put_offset_high(self.bits, offset_high);
        }
        self.bits = (self.bits & !(0xffffu64 << 48)) | ((offset_high as u64) << 48);
    }

    /// Low half of the handler address.
    pub fn offset_low(&self) -> (r: u16)
        ensures
            r == self@.offset_low,
    {
        proof {
            lemma_field_widths(self.bits);
        }
        (self.bits & 0xffff) as u16
    }

    /// Code-segment selector through which the handler is entered.
    pub fn selector(&self) -> (r: u16)
        ensures
            r == self@.selector,
    {
        proof {
            lemma_field_widths(self.bits);
        }
        ((self.bits >> 16) & 0xffff) as u16
    }

    /// The reserved bits, which are zero in every descriptor.
    pub fn reserved(&self) -> (r: u8)
        ensures
            r == self@.reserved,
            r == 0,
    {
        proof {
            use_type_invariant(self);
        }
        0
    }

    /// Tag byte that says which kind of descriptor this is.
    pub fn gtype(&self) -> (r: u8)
        ensures
            r == self@.gtype,
    {
        proof {
            lemma_field_widths(self.bits);
        }
        ((self.bits >> 37) & 0xff) as u8
    }

    /// Descriptor privilege level.
    pub fn dpl(&self) -> (r: u8)
        ensures
            r == self@.dpl,
            r <= 3,
    {
        proof {
            lemma_field_widths(self.bits);
        }
        ((self.bits >> 45) & 0x3) as u8
    }

    /// Whether the processor may enter through this descriptor.
    pub fn present(&self) -> (r: bool)
        ensures
            r == self@.present,
    {
        (self.bits >> 47) & 1 == 1
    }

    /// High half of the handler address.
    pub fn offset_high(&self) -> (r: u16)
        ensures
            r == self@.offset_high,
    {
        proof {
            lemma_field_widths(self.bits);
        }
        ((self.bits >> 48) & 0xffff) as u16
    }

    /// The handler address, put together from its two halves.
    pub fn handler(&self) -> (r: u32)
        ensures
            r == self@.handler(),
    {
        ((self.offset_high() as u32) << 16) | (self.offset_low() as u32)
    }

    /// The descriptor as one little-endian 64-bit word.
    pub fn as_u64(&self) -> (r: u64)
        ensures
            r == self.bits(),
    {
        self.bits
    }

    /// The eight bytes of the descriptor in memory order.
    pub fn to_bytes(&self) -> (b: [u8; 8])
        ensures
            b@ == gate_bytes(self@),
    {
        let w = self.bits;
        proof {
            use_type_invariant(self);
            lemma_word_bytes(w);
        }
        let b: [u8; 8] = [
            (w & 0xff) as u8,
            ((w >> 8) & 0xff) as u8,
            ((w >> 16) & 0xff) as u8,
            ((w >> 24) & 0xff) as u8,
            ((w >> 32) & 0xff) as u8,
            ((w >> 40) & 0xff) as u8,
            ((w >> 48) & 0xff) as u8,
            ((w >> 56) & 0xff) as u8,
        ];
        assert(b@ =~= gate_bytes(self@));
        b
    }

    /// Two descriptors with the same fields are the same descriptor.
    pub proof fn lemma_view_injective(self, other: Gate)
        requires
            self@ == other@,
        ensures
            self == other,
    {
        lemma_field_widths(self.bits);
        lemma_field_widths(other.bits);
        lemma_fields_fix_word(self.bits, other.bits);
    }
}

} // verus!
