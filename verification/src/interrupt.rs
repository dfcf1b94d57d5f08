//! The interrupt descriptor table and the record that tells the processor
//! where it lives.
//!
//! A table starts with 256 empty descriptors, is populated with a fallback
//! handler in every slot, and is then activated. Activation is one-way: it
//! yields the pointer/limit record to load into the processor, after which
//! interrupts are delivered through the table for good. Single slots may be
//! overwritten at any time.

use vstd::prelude::*;
use crate::gate::{Gate, GateFields, GateType, gate_bytes};

verus! {

/// Number of vectors, and so of descriptors in a table.
pub const TABLE_ENTRIES: usize = 256;

/// Size in bytes of one descriptor.
pub const GATE_SIZE: usize = 8;

/// Size in bytes of a table.
pub const TABLE_SIZE: usize = 2048;

/// The limit field of every pointer/limit record: the table size minus one.
pub const TABLE_LIMIT: u16 = 2047;

/// Code-segment selector that registered handlers are entered through.
pub const HANDLER_SEGMENT: u16 = 1;

/// Privilege level of registered handlers.
pub const HANDLER_DPL: u8 = 0;

/// The six bytes, in memory order, of the record for a table at `base`: the
/// limit, then the base address, both little-endian and without padding.
pub open spec fn idt_bytes(limit: u16, base: u32) -> Seq<u8> {
    seq![
        (limit & 0xff) as u8,
        (limit >> 8) as u8,
        (base & 0xff) as u8,
        ((base >> 8) & 0xff) as u8,
        ((base >> 16) & 0xff) as u8,
        (base >> 24) as u8,
    ]
}

/// The pointer/limit record that the processor loads to find the table.
#[derive(Clone, Copy, Debug, PartialEq, Eq, Structural)]
pub struct Idt {
    limit: u16,
    base: u32,
}

impl Idt {
    #[verifier::type_invariant]
    spec fn limit_fixed(self) -> bool {
        self.limit == TABLE_LIMIT
    }

    /// The limit field of the record.
    pub closed spec fn spec_limit(&self) -> u16 {
        self.limit
    }

    /// The base field of the record.
    pub closed spec fn spec_base(&self) -> u32 {
        self.base
    }

    /// The record for a table whose first byte is at `base`.
    pub fn new(base: u32) -> (idt: Idt)
        ensures
            idt.spec_limit() == 256 * 8 - 1,
            idt.spec_base() == base,
    {
        Idt { limit: TABLE_LIMIT, base }
    }

    /// The limit, which in every record is the size of a full table minus one.
    #[verifier::when_used_as_spec(spec_limit)]
    pub fn limit(&self) -> (r: u16)
        ensures
            r == self.spec_limit(),
            r == 256 * 8 - 1,
    {
        proof {
            use_type_invariant(self);
        }
        self.limit
    }

    /// Address of the first byte of the table.
    #[verifier::when_used_as_spec(spec_base)]
    pub fn base(&self) -> (r: u32)
        ensures
            r == self.spec_base(),
    {
        self.base
    }

    /// The record as the processor reads it from memory.
    pub fn to_bytes(&self) -> (b: [u8; 6])
        ensures
            b@ == idt_bytes(TABLE_LIMIT, self.spec_base()),
            b@[0] == 0xff,
            b@[1] == 0x07,
    {
        proof {
            use_type_invariant(self);
        }
        let l = self.limit;
        let a = self.base;
        assert((l & 0xff) as u8 == 0xff && (l >> 8) as u8 == 0x07) by (bit_vector)
            requires
                l == 2047,
        ;
        let b: [u8; 6] = [
            (l & 0xff) as u8,
            (l >> 8) as u8,
            (a & 0xff) as u8,
            ((a >> 8) & 0xff) as u8,
            ((a >> 16) & 0xff) as u8,
            (a >> 24) as u8,
        ];
        assert(b@ =~= idt_bytes(TABLE_LIMIT, self.spec_base()));
        b
    }
}

/// How far a table has come on its way into the processor.
#[derive(Clone, Copy, Debug, PartialEq, Eq, Structural)]
pub enum TableState {
    /// Some slot may still be empty.
    Uninitialized,
    /// Every slot holds a present descriptor; the processor does not use the
    /// table yet.
    Populated,
    /// The record of the table has been handed out for loading.
    Active,
}

/// The fields that `add_handler` stores for a handler of kind `gtype`.
pub open spec fn registered(gtype: GateType, handler: u32) -> GateFields {
    GateFields::for_handler(gtype, HANDLER_SEGMENT, HANDLER_DPL, handler)
}

/// The 256 descriptors, indexed by vector.
pub struct InterruptTable {
    gates: [Gate; 256],
    state: TableState,
}

impl View for InterruptTable {
    type V = Seq<GateFields>;

    closed spec fn view(&self) -> Seq<GateFields> {
        Seq::new(256, |i: int| self.gates[i]@)
    }
}

impl InterruptTable {
    #[verifier::type_invariant]
    spec fn populated_when_claimed(self) -> bool {
        self.state != TableState::Uninitialized ==> forall|i: int|
            0 <= i < 256 ==> (#[trigger] self.gates[i])@.present
    }

    /// How far the table has come.
    pub closed spec fn spec_state(&self) -> TableState {
        self.state
    }

    /// Every table has 256 slots.
    pub proof fn lemma_len(self)
        ensures
            self@.len() == 256,
    {
    }

    /// Whether every slot holds a present descriptor.
    pub open spec fn all_present(&self) -> bool {
        forall|i: int| 0 <= i < 256 ==> (#[trigger] self@[i]).present
    }

    /// A table in which no vector has a handler: every descriptor is zero,
    /// and so not present.
    pub fn new() -> (table: InterruptTable)
        ensures
            table@.len() == 256,
            forall|i: int| 0 <= i < 256 ==> #[trigger] table@[i] == GateFields::zero(),
            table.spec_state() == TableState::Uninitialized,
    {
        InterruptTable { gates: [Gate::new();256], state: TableState::Uninitialized }
    }

    /// How far the table has come. In a table that is populated or active
    /// every slot holds a present descriptor.
    #[verifier::when_used_as_spec(spec_state)]
    pub fn state(&self) -> (s: TableState)
        ensures
            s == self.spec_state(),
            s != TableState::Uninitialized ==> self.all_present(),
            self@.len() == 256,
    {
        proof {
            use_type_invariant(self);
        }
        self.state
    }

    /// The descriptor of vector `num`.
    pub fn get(&self, num: u8) -> (g: Gate)
        ensures
            self@.len() == 256,
            g@ == self@[num as int],
    {
        self.gates[num as usize]
    }

    /// Registers `handler` for vector `num`, replacing what was there. No
    /// other slot changes, and neither does the state of the table.
    pub fn add_handler(&mut self, num: u8, gtype: GateType, handler: u32)
        ensures
            old(self)@.len() == 256,
            final(self)@.len() == 256,
            final(self)@ == old(self)@.update(num as int, registered(gtype, handler)),
            final(self)@[num as int] == registered(gtype, handler),
            forall|i: int|
                0 <= i < 256 && i != num ==> #[trigger] final(self)@[i] == old(self)@[i],
            final(self).spec_state() == old(self).spec_state(),
    {
        proof {
            use_type_invariant(&*self);
        }
        let gate = Gate::create(gtype, HANDLER_SEGMENT, HANDLER_DPL, handler);
        self.gates[num as usize] = gate;
        assert(self@ =~= old(self)@.update(num as int, registered(gtype, handler)));
    }

    /// Installs the fallback `handler` as an interrupt gate in all 256 slots.
    /// A table that was not active is populated afterwards; an active table
    /// stays active.
    pub fn populate(&mut self, handler: u32)
        ensures
            final(self)@.len() == 256,
            forall|i: int|
                0 <= i < 256 ==> #[trigger] final(self)@[i] == registered(
                    GateType::Interrupt,
                    handler,
                ),
            forall|i: int|
                0 <= i < 256 ==> (#[trigger] final(self)@[i]).present && final(self)@[i].gtype
                    == GateType::Interrupt.spec_tag(),
            final(self).spec_state() == if old(self).spec_state() == TableState::Active {
                TableState::Active
            } else {
                TableState::Populated
            },
    {
        let mut i: usize = 0;
        while i < 256
            invariant
                i <= 256,
                self.spec_state() == old(self).spec_state(),
                forall|j: int|
                    0 <= j < i ==> #[trigger] self@[j] == registered(GateType::Interrupt, handler),
            decreases 256 - i,
        {
            self.add_handler(i as u8, GateType::Interrupt, handler);
            i += 1;
        }
        let ghost filled = self@;
        proof {
            assert forall|i: int| 0 <= i < 256 implies (#[trigger] self.gates[i])@.present by {
                assert(self@[i] == registered(GateType::Interrupt, handler));
            }
        }
        if self.state == TableState::Uninitialized {
            self.state = TableState::Populated;
        }
        assert(self@ =~= filled);
    }

    /// Whether the table may be activated: it is populated and not yet active.
    pub fn can_activate(&self) -> (r: bool)
        ensures
            r == (self.spec_state() == TableState::Populated),
    {
        self.state == TableState::Populated
    }

    /// Marks the table active and returns the record to load into the
    /// processor for a table stored at `base`. The descriptors are untouched.
    ///
    /// Only a populated table can be activated, so that no vector can fire
    /// into an empty slot.
    pub fn activate(&mut self, base: u32) -> (idt: Idt)
        requires
            old(self).spec_state() == TableState::Populated,
        ensures
            final(self).spec_state() == TableState::Active,
            final(self)@ == old(self)@,
            final(self)@.len() == 256,
            final(self).all_present(),
            idt.spec_base() == base,
            idt.spec_limit() == 256 * 8 - 1,
    {
        proof {
            use_type_invariant(&*self);
        }
        self.state = TableState::Active;
        Idt::new(base)
    }

    /// The table as it lies in memory: the descriptors in vector order, eight
    /// bytes each.
    pub fn image(&self) -> (bytes: Vec<u8>)
        ensures
            bytes@.len() == 256 * 8,
            forall|i: int, k: int|
                0 <= i < 256 && 0 <= k < 8 ==> bytes@[8 * i + k] == #[trigger] gate_bytes(
                    self@[i],
                )[k],
    {
        let mut bytes: Vec<u8> = Vec::with_capacity(TABLE_SIZE);
        let mut i: usize = 0;
        while i < 256
            invariant
                i <= 256,
                bytes@.len() == 8 * i,
                forall|j: int, k: int|
                    0 <= j < i && 0 <= k < 8 ==> bytes@[8 * j + k] == #[trigger] gate_bytes(
                        self@[j],
                    )[k],
            decreases 256 - i,
        {
            let b = self.gates[i].to_bytes();
            let ghost before = bytes@;
            let mut k: usize = 0;
            while k < 8
                invariant
                    k <= 8,
                    i < 256,
                    b@ == gate_bytes(self@[i as int]),
                    bytes@.len() == 8 * i + k,
                    forall|m: int| 0 <= m < 8 * i ==> bytes@[m] == before[m],
                    forall|m: int| 0 <= m < k ==> bytes@[8 * i + m] == #[trigger] b@[m],
                decreases 8 - k,
            {
                bytes.push(b[k]);
                k += 1;
            }
            i += 1;
        }
        bytes
    }
}

/// Builds the table that the processor is to use from now on: a fresh table
/// with the fallback `handler` in every slot, activated for storage at
/// `base`. Returns the table with the record to load.
pub fn init(handler: u32, base: u32) -> (r: (InterruptTable, Idt))
    ensures
        r.0@.len() == 256,
        forall|i: int|
            0 <= i < 256 ==> #[trigger] r.0@[i] == registered(GateType::Interrupt, handler),
        r.0.spec_state() == TableState::Active,
        r.1.spec_base() == base,
        r.1.spec_limit() == 256 * 8 - 1,
{
    let mut table = InterruptTable::new();
    table.populate(handler);
    let idt = table.activate(base);
    (table, idt)
}

} // verus!
