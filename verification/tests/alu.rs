use rustboy::cpu::CPU;
use rustboy::gpu::GPU;
use rustboy::memory_bus::MemoryBus;

fn make_cpu() -> CPU {
    CPU::new(MemoryBus::new(vec![0u8; 256], GPU::new()))
}

#[test]
fn add_sets_half_carry_on_nibble_overflow() {
    let mut cpu = make_cpu();
    cpu.registers.a = 0x0F;
    let r = cpu.add(0x01, false);
    assert_eq!(r, 0x10);
    assert!(cpu.registers.f.half_carry);
    assert!(!cpu.registers.f.carry);
    assert!(!cpu.registers.f.zero);
    assert!(!cpu.registers.f.subtract);
}

#[test]
fn add_wraps_with_carry_and_zero() {
    let mut cpu = make_cpu();
    cpu.registers.a = 0xFF;
    let r = cpu.add(0x01, false);
    assert_eq!(r, 0x00);
    assert!(cpu.registers.f.zero);
    assert!(cpu.registers.f.carry);
    assert!(cpu.registers.f.half_carry);
}

#[test]
fn adc_adds_the_carry_flag() {
    let mut cpu = make_cpu();
    cpu.registers.a = 0x10;
    cpu.registers.f.carry = true;
    let r = cpu.add(0x01, true);
    assert_eq!(r, 0x12);
    let r2 = cpu.add(0x01, true);
    assert_eq!(r2, 0x11);
}

#[test]
fn sub_borrows_through_zero() {
    let mut cpu = make_cpu();
    cpu.registers.a = 0x00;
    let r = cpu.sub(0x01, false);
    assert_eq!(r, 0xFF);
    assert!(cpu.registers.f.carry);
    assert!(cpu.registers.f.subtract);
    assert!(cpu.registers.f.half_carry);
    assert!(!cpu.registers.f.zero);
}

#[test]
fn sub_of_equal_values_is_zero() {
    let mut cpu = make_cpu();
    cpu.registers.a = 0x3C;
    let r = cpu.sub(0x3C, false);
    assert_eq!(r, 0x00);
    assert!(cpu.registers.f.zero);
    assert!(!cpu.registers.f.carry);
}

#[test]
fn inc_dec_roundtrip_at_the_boundaries() {
    let mut cpu = make_cpu();
    let up = cpu.inc(0xFF);
    assert_eq!(up, 0x00);
    assert!(cpu.registers.f.zero);
    assert!(cpu.registers.f.half_carry);
    let down = cpu.dec(up);
    assert_eq!(down, 0xFF);
    assert!(!cpu.registers.f.zero);
    assert!(cpu.registers.f.half_carry);

    let up = cpu.inc(0x00);
    assert_eq!(up, 0x01);
    let down = cpu.dec(up);
    assert_eq!(down, 0x00);
    assert!(cpu.registers.f.zero);
}

#[test]
fn inc_and_dec_leave_carry_alone() {
    let mut cpu = make_cpu();
    cpu.registers.f.carry = true;
    let _ = cpu.inc(0x41);
    assert!(cpu.registers.f.carry);
    let _ = cpu.dec(0x42);
    assert!(cpu.registers.f.carry);
}

#[test]
fn and_or_xor_flag_policy() {
    let mut cpu = make_cpu();
    cpu.registers.a = 0b1100_1010;
    let r = cpu.and(0b1010_1010);
    assert_eq!(r, 0b1000_1010);
    assert!(cpu.registers.f.half_carry && !cpu.registers.f.carry && !cpu.registers.f.zero);

    cpu.registers.a = 0x55;
    let r = cpu.xor(0x55);
    assert_eq!(r, 0);
    assert!(cpu.registers.f.zero && !cpu.registers.f.half_carry);

    cpu.registers.a = 0x50;
    let r = cpu.or(0x05);
    assert_eq!(r, 0x55);
    assert!(!cpu.registers.f.zero && !cpu.registers.f.half_carry && !cpu.registers.f.carry);
}

#[test]
fn cp_compares_without_storing() {
    let mut cpu = make_cpu();
    cpu.registers.a = 0x10;
    cpu.cp(0x20);
    assert_eq!(cpu.registers.a, 0x10);
    assert!(cpu.registers.f.carry);
    assert!(cpu.registers.f.subtract);
    cpu.cp(0x10);
    assert!(cpu.registers.f.zero);
    assert!(!cpu.registers.f.carry);
}
