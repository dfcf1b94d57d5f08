use kernel_core::pic::{init_interrupts, io_wait, IRQMask, Pic, PS_2_BIT, TIMER_BIT};
use kernel_core::port::PortWrite;

fn w(port: u16, value: u8) -> PortWrite {
    PortWrite { port, value }
}

fn last_written(writes: &[PortWrite], port: u16) -> Option<u8> {
    writes.iter().rev().find(|x| x.port == port).map(|x| x.value)
}

#[test]
fn mask_constants() {
    assert_eq!(TIMER_BIT, 1);
    assert_eq!(PS_2_BIT, 2);
    assert_eq!(IRQMask::empty().bits(), 0);
    assert_eq!(IRQMask::timer().bits(), 1);
    assert_eq!(IRQMask::ps_2().bits(), 2);
    assert_eq!(IRQMask::from_bits_retain(0xA5C3).bits(), 0xA5C3);
}

#[test]
fn mask_union_and_contains() {
    let both = IRQMask::timer().union(IRQMask::ps_2());
    assert_eq!(both.bits(), 3);
    assert!(both.contains(IRQMask::timer()));
    assert!(both.contains(IRQMask::ps_2()));
    assert!(both.contains(IRQMask::empty()));
    assert!(!IRQMask::timer().contains(IRQMask::ps_2()));
    assert!(!IRQMask::empty().contains(IRQMask::timer()));
}

#[test]
fn pacing_write() {
    assert_eq!(io_wait(), w(0x80, 0));
}

#[test]
fn new_pic_enables_nothing() {
    assert_eq!(Pic::new().imr(), IRQMask::empty());
}

#[test]
fn init_sequence_is_exact() {
    let mut pic = Pic::new();
    let writes = pic.init(IRQMask::empty());
    assert_eq!(
        writes,
        vec![
            w(0x20, 0x11),
            w(0x80, 0x00),
            w(0xA0, 0x11),
            w(0x80, 0x00),
            w(0x21, 0x20),
            w(0x80, 0x00),
            w(0xA1, 0x28),
            w(0x80, 0x00),
            w(0x21, 0x04),
            w(0x80, 0x00),
            w(0xA1, 0x04),
            w(0x80, 0x00),
            w(0x21, 0x01),
            w(0x80, 0x00),
            w(0x21, 0xFF),
            w(0xA1, 0xFF),
        ]
    );
    assert_eq!(pic.imr(), IRQMask::empty());
}

#[test]
fn every_handshake_write_is_paced() {
    let mut pic = Pic::new();
    for m in [0u16, 1, 0x8003, 0xFFFF] {
        let writes = pic.init(IRQMask::from_bits_retain(m));
        assert_eq!(writes.len(), 16);
        let mut controller_writes = 0;
        for i in 0..14 {
            if writes[i].port != 0x80 {
                assert_eq!(writes[i + 1], io_wait());
                controller_writes += 1;
            }
        }
        assert_eq!(controller_writes, 7);
        assert_ne!(writes[14].port, 0x80);
        assert_ne!(writes[15].port, 0x80);
    }
}

#[test]
fn init_applies_the_given_mask() {
    let mut pic = Pic::new();
    let writes = pic.init(IRQMask::from_bits_retain(0x8003));
    assert_eq!(writes.len(), 16);
    assert_eq!(writes[14], w(0x21, 0xFC));
    assert_eq!(writes[15], w(0xA1, 0x7F));
    assert_eq!(pic.imr().bits(), 0x8003);
}

#[test]
fn timer_only_after_init() {
    let mut pic = Pic::new();
    let mut writes = pic.init(IRQMask::empty());
    writes.extend(pic.set_imr(IRQMask::timer()));
    assert_eq!(last_written(&writes, 0x21), Some(0xFE));
    assert_eq!(last_written(&writes, 0xA1), Some(0xFF));
    assert_eq!(pic.imr(), IRQMask::timer());
}

#[test]
fn set_imr_round_trip_all_masks() {
    let mut pic = Pic::new();
    for m in 0..=u16::MAX {
        let writes = pic.set_imr(IRQMask::from_bits_retain(m));
        assert_eq!(pic.imr().bits(), m);
        assert_eq!(writes.len(), 2);
        assert_eq!(writes[0], w(0x21, !((m & 0xFF) as u8)));
        assert_eq!(writes[1], w(0xA1, !((m >> 8) as u8)));
    }
}

#[test]
fn set_imr_exact_values() {
    let mut pic = Pic::new();
    assert_eq!(
        pic.set_imr(IRQMask::from_bits_retain(0x1234)),
        vec![w(0x21, 0xCB), w(0xA1, 0xED)]
    );
    assert_eq!(
        pic.set_imr(IRQMask::from_bits_retain(0xFFFF)),
        vec![w(0x21, 0x00), w(0xA1, 0x00)]
    );
    assert_eq!(pic.set_imr(IRQMask::ps_2()), vec![w(0x21, 0xFD), w(0xA1, 0xFF)]);
}

#[test]
fn register_bit_is_clear_exactly_for_enabled_lines() {
    let mut pic = Pic::new();
    for m in [0u16, 1, 2, 0x0100, 0x8000, 0x00FF, 0xFF00, 0x5A5A, 0xFFFF] {
        let writes = pic.set_imr(IRQMask::from_bits_retain(m));
        for line in 0..16u16 {
            let enabled = (m >> line) & 1 == 1;
            let register = if line < 8 { writes[0].value } else { writes[1].value };
            let masked = (register >> (line % 8)) & 1 == 1;
            assert_eq!(enabled, !masked);
        }
    }
}

#[test]
fn init_interrupts_is_init() {
    let mut a = Pic::new();
    let mut b = Pic::new();
    let mask = IRQMask::timer().union(IRQMask::ps_2());
    assert_eq!(init_interrupts(&mut a, mask), b.init(mask));
    assert_eq!(a.imr(), mask);
}
