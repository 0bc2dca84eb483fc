use rustboy::registers::{FlagsRegister, Registers};

#[test]
fn power_on_registers_are_zero() {
    let r = Registers::new();
    assert_eq!(r.a, 0);
    assert_eq!(r.b, 0);
    assert_eq!(r.c, 0);
    assert_eq!(r.d, 0);
    assert_eq!(r.e, 0);
    assert_eq!(r.h, 0);
    assert_eq!(r.l, 0);
    assert!(!r.f.zero && !r.f.subtract && !r.f.half_carry && !r.f.carry);
}

#[test]
fn pair_roundtrip_bc_de_hl() {
    let mut r = Registers::new();
    for &w in &[0x0000u16, 0x0001, 0x1234, 0x8000, 0xABCD, 0xFFFF] {
        r.set_bc(w);
        assert_eq!(r.get_bc(), w);
        r.set_de(w);
        assert_eq!(r.get_de(), w);
        r.set_hl(w);
        assert_eq!(r.get_hl(), w);
    }
}

#[test]
fn pair_split_is_high_and_low_byte() {
    let mut r = Registers::new();
    r.set_bc(0x12FE);
    assert_eq!(r.b, 0x12);
    assert_eq!(r.c, 0xFE);
    r.set_hl(0x8001);
    assert_eq!(r.h, 0x80);
    assert_eq!(r.l, 0x01);
}

#[test]
fn af_roundtrip_keeps_flag_bits_and_clears_low_nibble() {
    let mut r = Registers::new();
    r.set_af(0x12FF);
    assert_eq!(r.get_af(), 0x12F0);
    assert!(r.f.zero && r.f.subtract && r.f.half_carry && r.f.carry);
    r.set_af(0x3407);
    assert_eq!(r.get_af(), 0x3400);
    assert!(!r.f.zero && !r.f.subtract && !r.f.half_carry && !r.f.carry);
    r.set_af(0xAB90);
    assert_eq!(r.get_af(), 0xAB90);
    assert!(r.f.zero && !r.f.subtract && !r.f.half_carry && r.f.carry);
}

#[test]
fn flags_byte_encoding_uses_the_four_high_bits() {
    let f = FlagsRegister { zero: true, subtract: false, half_carry: true, carry: false };
    assert_eq!(f.to_byte(), 0b1010_0000);
    let g = FlagsRegister::from_byte(0b0101_1111);
    assert!(!g.zero && g.subtract && !g.half_carry && g.carry);
    let all = FlagsRegister { zero: true, subtract: true, half_carry: true, carry: true };
    assert_eq!(all.to_byte(), 0xF0);
    assert_eq!(FlagsRegister::from_byte(all.to_byte()), all);
}
