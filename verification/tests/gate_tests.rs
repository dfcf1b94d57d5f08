use kernel_core::gate::{Gate, GateType};

#[test]
fn tags_follow_the_processor_format() {
    assert_eq!(GateType::Task.tag(), 0b00101_000);
    assert_eq!(GateType::Interrupt.tag(), 0b01110_000);
    assert_eq!(GateType::Trap.tag(), 0b01111_000);
}

#[test]
fn new_gate_is_all_zero() {
    let g = Gate::new();
    assert_eq!(g.as_u64(), 0);
    assert!(!g.present());
    assert_eq!(g.gtype(), 0);
    assert_eq!(g.dpl(), 0);
    assert_eq!(g.selector(), 0);
    assert_eq!(g.handler(), 0);
    assert_eq!(g.to_bytes(), [0u8; 8]);
}

#[test]
fn create_packs_every_field_in_place() {
    let g = Gate::create(GateType::Interrupt, 1, 0, 0x1234_5678);
    assert_eq!(g.as_u64(), 0x1234_8E00_0001_5678);
    assert_eq!(g.offset_low(), 0x5678);
    assert_eq!(g.offset_high(), 0x1234);
    assert_eq!(g.selector(), 1);
    assert_eq!(g.reserved(), 0);
    assert_eq!(g.gtype(), GateType::Interrupt.tag());
    assert_eq!(g.dpl(), 0);
    assert!(g.present());
}

#[test]
fn create_bytes_are_little_endian() {
    let g = Gate::create(GateType::Interrupt, 1, 0, 0x1234_5678);
    assert_eq!(g.to_bytes(), [0x78, 0x56, 0x01, 0x00, 0x00, 0x8E, 0x34, 0x12]);
    assert_eq!(g.to_bytes(), g.as_u64().to_le_bytes());
}

#[test]
fn access_byte_of_each_kind() {
    assert_eq!(Gate::create(GateType::Task, 0, 0, 0).to_bytes()[5], 0x85);
    assert_eq!(Gate::create(GateType::Interrupt, 0, 0, 0).to_bytes()[5], 0x8E);
    assert_eq!(Gate::create(GateType::Trap, 0, 0, 0).to_bytes()[5], 0x8F);
    assert_eq!(Gate::create(GateType::Interrupt, 0, 3, 0).to_bytes()[5], 0xEE);
    assert_eq!(Gate::create(GateType::Trap, 0, 1, 0).to_bytes()[5], 0xAF);
    assert_eq!(Gate::create(GateType::Trap, 0, 2, 0).to_bytes()[5], 0xCF);
}

#[test]
fn byte_four_stays_zero() {
    for kind in [GateType::Task, GateType::Trap, GateType::Interrupt] {
        for dpl in 0..=3u8 {
            let g = Gate::create(kind, 0xffff, dpl, 0xffff_ffff);
            assert_eq!(g.to_bytes()[4], 0);
            assert_eq!(g.reserved(), 0);
        }
    }
}

#[test]
fn handler_round_trip() {
    let addresses = [
        0u32,
        1,
        0xffff,
        0x1_0000,
        0x0001_ffff,
        0x8000_0000,
        0xdead_beef,
        0xffff_0000,
        0xffff_ffff,
    ];
    for kind in [GateType::Task, GateType::Trap, GateType::Interrupt] {
        for dpl in 0..=3u8 {
            for segm in [0u16, 1, 8, 0xffff] {
                for &a in addresses.iter() {
                    let g = Gate::create(kind, segm, dpl, a);
                    assert_eq!(g.handler(), a);
                    assert_eq!(g.offset_low(), a as u16);
                    assert_eq!(g.offset_high(), (a >> 16) as u16);
                    assert_eq!(g.selector(), segm);
                    assert_eq!(g.dpl(), dpl);
                    assert_eq!(g.gtype(), kind.tag());
                    assert!(g.present());
                }
            }
        }
    }
}

#[test]
fn setters_change_one_field_only() {
    let mut g = Gate::create(GateType::Trap, 0x0008, 2, 0xcafe_f00d);
    g.set_selector(0x0010);
    assert_eq!(g.selector(), 0x0010);
    assert_eq!(g.handler(), 0xcafe_f00d);
    assert_eq!(g.dpl(), 2);
    assert_eq!(g.gtype(), GateType::Trap.tag());
    assert!(g.present());

    g.set_dpl(3);
    assert_eq!(g.dpl(), 3);
    assert_eq!(g.selector(), 0x0010);

    g.set_gtype(GateType::Task);
    assert_eq!(g.gtype(), 0x28);
    assert_eq!(g.dpl(), 3);

    g.set_offset_low(0x0001);
    assert_eq!(g.handler(), 0xcafe_0001);
    g.set_offset_high(0x0002);
    assert_eq!(g.handler(), 0x0002_0001);

    g.set_present(false);
    assert!(!g.present());
    assert_eq!(g.handler(), 0x0002_0001);
    assert_eq!(g.gtype(), 0x28);
    assert_eq!(g.dpl(), 3);
    assert_eq!(g.selector(), 0x0010);
    g.set_present(true);
    assert!(g.present());
}

#[test]
fn setters_overwrite_old_bits() {
    let mut g = Gate::create(GateType::Trap, 0xffff, 3, 0xffff_ffff);
    g.set_selector(0);
    g.set_dpl(0);
    g.set_gtype(GateType::Task);
    g.set_offset_low(0);
    g.set_offset_high(0);
    g.set_present(false);
    assert_eq!(g.as_u64(), 0x28u64 << 37);
}

#[test]
fn equal_fields_give_equal_gates() {
    let a = Gate::create(GateType::Interrupt, 1, 0, 0x4000);
    let mut b = Gate::new();
    b.set_offset_high(0);
    b.set_offset_low(0x4000);
    b.set_present(true);
    b.set_dpl(0);
    b.set_gtype(GateType::Interrupt);
    b.set_selector(1);
    assert_eq!(a, b);
    assert_ne!(a, Gate::create(GateType::Trap, 1, 0, 0x4000));
}
