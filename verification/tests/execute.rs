use rustboy::cpu::{CPU, Fault};
use rustboy::instruction::{Instruction, Target};
use rustboy::gpu::GPU;
use rustboy::memory_bus::MemoryBus;

fn cpu_with_boot(program: &[u8]) -> CPU {
    let mut boot = vec![0u8; 256];
    boot[..program.len()].copy_from_slice(program);
    CPU::new(MemoryBus::new(boot, GPU::new()))
}

#[test]
fn nop_advances_one_byte() {
    let mut cpu = cpu_with_boot(&[0x00]);
    assert_eq!(cpu.step(), Ok(()));
    assert_eq!(cpu.pc, 1);
}

#[test]
fn load_immediate_byte() {
    let mut cpu = cpu_with_boot(&[0x3E, 0x42]);
    assert_eq!(cpu.step(), Ok(()));
    assert_eq!(cpu.registers.a, 0x42);
    assert_eq!(cpu.pc, 2);
}

#[test]
fn load_immediate_word_and_register_to_register() {
    // LD HL,0xC123 ; LD B,H
    let mut cpu = cpu_with_boot(&[0x21, 0x23, 0xC1, 0x44]);
    assert_eq!(cpu.step(), Ok(()));
    assert_eq!(cpu.registers.get_hl(), 0xC123);
    assert_eq!(cpu.pc, 3);
    assert_eq!(cpu.step(), Ok(()));
    assert_eq!(cpu.registers.b, 0xC1);
    assert_eq!(cpu.pc, 4);
}

#[test]
fn add_immediate_through_step() {
    // LD A,0x0F ; ADD A,0x01
    let mut cpu = cpu_with_boot(&[0x3E, 0x0F, 0xC6, 0x01]);
    assert_eq!(cpu.step(), Ok(()));
    assert_eq!(cpu.step(), Ok(()));
    assert_eq!(cpu.registers.a, 0x10);
    assert!(cpu.registers.f.half_carry);
    assert_eq!(cpu.pc, 4);
}

#[test]
fn post_increment_store_writes_video_memory() {
    // LD HL,0x8000 ; LD A,0x07 ; LD (HL+),A
    let mut cpu = cpu_with_boot(&[0x21, 0x00, 0x80, 0x3E, 0x07, 0x22]);
    assert_eq!(cpu.step(), Ok(()));
    assert_eq!(cpu.step(), Ok(()));
    assert_eq!(cpu.step(), Ok(()));
    assert_eq!(cpu.bus.gpu.ram[0], 0x07);
    assert_eq!(cpu.registers.get_hl(), 0x8001);
}

#[test]
fn push_pop_roundtrip_restores_value_and_pointer() {
    // LD SP,0xD000 ; LD BC,0xBEEF ; PUSH BC ; POP DE
    let mut cpu = cpu_with_boot(&[0x31, 0x00, 0xD0, 0x01, 0xEF, 0xBE, 0xC5, 0xD1]);
    for _ in 0..4 {
        assert_eq!(cpu.step(), Ok(()));
    }
    assert_eq!(cpu.registers.get_de(), 0xBEEF);
    assert_eq!(cpu.sp, 0xD000);
    assert_eq!(cpu.bus.read_byte(0xCFFF), 0xBE);
    assert_eq!(cpu.bus.read_byte(0xCFFE), 0xEF);
}

#[test]
fn call_pushes_return_address_and_ret_comes_back() {
    // 0x00: LD SP,0xD000 ; 0x03: CALL 0x0010 ; 0x06: HALT ... 0x10: RET
    let mut boot = vec![0u8; 256];
    boot[0x00] = 0x31;
    boot[0x01] = 0x00;
    boot[0x02] = 0xD0;
    boot[0x03] = 0xCD;
    boot[0x04] = 0x10;
    boot[0x05] = 0x00;
    boot[0x06] = 0x76;
    boot[0x10] = 0xC9;
    let mut cpu = CPU::new(MemoryBus::new(boot, GPU::new()));
    assert_eq!(cpu.step(), Ok(()));
    assert_eq!(cpu.step(), Ok(()));
    assert_eq!(cpu.pc, 0x0010);
    assert_eq!(cpu.sp, 0xCFFE);
    assert_eq!(cpu.step(), Ok(()));
    assert_eq!(cpu.pc, 0x0006);
    assert_eq!(cpu.sp, 0xD000);
}

#[test]
fn conditional_jump_falls_through_and_takes() {
    // LD A,0x01 ; SUB A,0x01 (sets Z) ; JP NZ,0x0100 ; JP Z,0x0100
    let mut cpu = cpu_with_boot(&[0x3E, 0x01, 0xD6, 0x01, 0xC2, 0x00, 0x01, 0xCA, 0x00, 0x01]);
    assert_eq!(cpu.step(), Ok(()));
    assert_eq!(cpu.step(), Ok(()));
    assert!(cpu.registers.f.zero);
    assert_eq!(cpu.step(), Ok(()));
    assert_eq!(cpu.pc, 7);
    assert_eq!(cpu.step(), Ok(()));
    assert_eq!(cpu.pc, 0x0100);
}

#[test]
fn relative_jump_goes_backwards() {
    // 0x00..0x04: NOPs ; 0x05: JR -3 (0xFD) lands at 0x05 + 2 - 3 = 0x04
    let mut cpu = cpu_with_boot(&[0x00, 0x00, 0x00, 0x00, 0x00, 0x18, 0xFD]);
    for _ in 0..5 {
        assert_eq!(cpu.step(), Ok(()));
    }
    assert_eq!(cpu.pc, 0x05);
    assert_eq!(cpu.step(), Ok(()));
    assert_eq!(cpu.pc, 0x04);
}

#[test]
fn halt_freezes_the_machine() {
    let mut cpu = cpu_with_boot(&[0x76, 0x3E, 0x42]);
    assert_eq!(cpu.step(), Ok(()));
    assert!(cpu.is_halted);
    assert_eq!(cpu.pc, 1);
    assert_eq!(cpu.step(), Ok(()));
    assert_eq!(cpu.pc, 1);
    assert_eq!(cpu.registers.a, 0);
}

#[test]
fn di_and_ei_toggle_the_interrupt_flag() {
    let mut cpu = cpu_with_boot(&[0xFB, 0xF3]);
    assert_eq!(cpu.step(), Ok(()));
    assert!(cpu.interrupts_enabled);
    assert_eq!(cpu.step(), Ok(()));
    assert!(!cpu.interrupts_enabled);
}

#[test]
fn rst_pushes_and_jumps_to_its_vector() {
    // LD SP,0xD000 ; RST 0x18
    let mut cpu = cpu_with_boot(&[0x31, 0x00, 0xD0, 0xDF]);
    assert_eq!(cpu.step(), Ok(()));
    assert_eq!(cpu.step(), Ok(()));
    assert_eq!(cpu.pc, 0x0018);
    assert_eq!(cpu.bus.read_byte(0xCFFE), 0x04);
    assert_eq!(cpu.bus.read_byte(0xCFFF), 0x00);
}

#[test]
fn addhl_sets_half_carry_on_bit_eleven() {
    // LD HL,0x0FFF ; LD BC,0x0001 ; ADD HL,BC
    let mut cpu = cpu_with_boot(&[0x21, 0xFF, 0x0F, 0x01, 0x01, 0x00, 0x09]);
    for _ in 0..3 {
        assert_eq!(cpu.step(), Ok(()));
    }
    assert_eq!(cpu.registers.get_hl(), 0x1000);
    assert!(cpu.registers.f.half_carry);
    assert!(!cpu.registers.f.carry);
}

#[test]
fn addsp_applies_a_negative_displacement() {
    // LD SP,0xD000 ; ADD SP,-2
    let mut cpu = cpu_with_boot(&[0x31, 0x00, 0xD0, 0xE8, 0xFE]);
    assert_eq!(cpu.step(), Ok(()));
    assert_eq!(cpu.step(), Ok(()));
    assert_eq!(cpu.sp, 0xCFFE);
    assert!(!cpu.registers.f.zero && !cpu.registers.f.subtract);
}

#[test]
fn hl_from_sp_plus_offset() {
    // LD SP,0xCFF8 ; LD HL,SP+0x08
    let mut cpu = cpu_with_boot(&[0x31, 0xF8, 0xCF, 0xF8, 0x08]);
    assert_eq!(cpu.step(), Ok(()));
    assert_eq!(cpu.step(), Ok(()));
    assert_eq!(cpu.registers.get_hl(), 0xD000);
    assert_eq!(cpu.sp, 0xCFF8);
    assert!(cpu.registers.f.half_carry);
}

#[test]
fn daa_corrects_a_decimal_addition() {
    // LD A,0x09 ; ADD A,0x01 ; DAA  (9 + 1 = 10 decimal)
    let mut cpu = cpu_with_boot(&[0x3E, 0x09, 0xC6, 0x01, 0x27]);
    for _ in 0..3 {
        assert_eq!(cpu.step(), Ok(()));
    }
    assert_eq!(cpu.registers.a, 0x10);
    assert!(!cpu.registers.f.carry);
}

#[test]
fn rlca_rotates_the_top_bit_around() {
    // LD A,0x80 ; RLCA
    let mut cpu = cpu_with_boot(&[0x3E, 0x80, 0x07]);
    assert_eq!(cpu.step(), Ok(()));
    assert_eq!(cpu.step(), Ok(()));
    assert_eq!(cpu.registers.a, 0x01);
    assert!(cpu.registers.f.carry);
    assert!(!cpu.registers.f.zero);
}

#[test]
fn prefixed_swap_and_bit_and_set() {
    // LD A,0xAB ; SWAP A ; BIT 0,A ; SET 6,A ; RES 1,A
    let mut cpu = cpu_with_boot(&[0x3E, 0xAB, 0xCB, 0x37, 0xCB, 0x47, 0xCB, 0xF7, 0xCB, 0x8F]);
    assert_eq!(cpu.step(), Ok(()));
    assert_eq!(cpu.step(), Ok(()));
    assert_eq!(cpu.registers.a, 0xBA);
    assert_eq!(cpu.step(), Ok(()));
    assert!(cpu.registers.f.zero, "bit 0 of 0xBA is clear");
    assert!(cpu.registers.f.half_carry);
    assert_eq!(cpu.step(), Ok(()));
    assert_eq!(cpu.registers.a, 0xFA);
    assert_eq!(cpu.step(), Ok(()));
    assert_eq!(cpu.registers.a, 0xF8);
    assert_eq!(cpu.pc, 10);
}

#[test]
fn prefixed_rotate_through_memory_operand() {
    // LD HL,0x8000 ; LD (HL),0x81 ; RLC (HL)
    let mut cpu = cpu_with_boot(&[0x21, 0x00, 0x80, 0x36, 0x81, 0xCB, 0x06]);
    for _ in 0..3 {
        assert_eq!(cpu.step(), Ok(()));
    }
    assert_eq!(cpu.bus.gpu.ram[0], 0x03);
    assert!(cpu.registers.f.carry);
}

#[test]
fn unknown_opcode_faults_with_address_and_byte() {
    let mut cpu = cpu_with_boot(&[0x00, 0xD3]);
    assert_eq!(cpu.step(), Ok(()));
    assert_eq!(cpu.step(), Err(Fault::UnknownInstruction(1, 0xD3)));
}

#[test]
fn stop_is_a_fault_by_policy() {
    let mut cpu = cpu_with_boot(&[0x10]);
    assert_eq!(cpu.step(), Err(Fault::Stop));
}

#[test]
fn reading_unbacked_high_memory_faults() {
    // LDH A,(0x00) reads 0xFF00, an I/O register, unbacked here.
    let mut cpu = cpu_with_boot(&[0xF0, 0x00]);
    assert_eq!(cpu.step(), Err(Fault::InvalidRead(0xFF00)));
}

#[test]
fn writing_read_only_code_faults() {
    // LD BC,0x0100 ; LD (BC),A — cartridge code is read-only.
    let mut cpu = cpu_with_boot(&[0x01, 0x00, 0x01, 0x02]);
    assert_eq!(cpu.step(), Ok(()));
    assert_eq!(cpu.step(), Err(Fault::InvalidWrite(0x0100)));
}

#[test]
fn jphl_jumps_to_the_pair() {
    // LD HL,0x0150 ; JP (HL)
    let mut cpu = cpu_with_boot(&[0x21, 0x50, 0x01, 0xE9]);
    assert_eq!(cpu.step(), Ok(()));
    assert_eq!(cpu.step(), Ok(()));
    assert_eq!(cpu.pc, 0x0150);
}

#[test]
fn reti_returns_and_enables_interrupts() {
    // LD SP,0xD000 ; CALL 0x0010 ; ... 0x10: RETI
    let mut boot = vec![0u8; 256];
    boot[0x00] = 0x31;
    boot[0x02] = 0xD0;
    boot[0x03] = 0xCD;
    boot[0x04] = 0x10;
    boot[0x10] = 0xD9;
    let mut cpu = CPU::new(MemoryBus::new(boot, GPU::new()));
    assert_eq!(cpu.step(), Ok(()));
    assert_eq!(cpu.step(), Ok(()));
    assert!(!cpu.interrupts_enabled);
    assert_eq!(cpu.step(), Ok(()));
    assert_eq!(cpu.pc, 0x0006);
    assert!(cpu.interrupts_enabled);
}

#[test]
fn sbc_subtracts_the_borrow() {
    // LD A,0x10 ; SUB 0x20 (borrows, C=1) ; LD A,0x10 ; SBC 0x01
    let mut cpu = cpu_with_boot(&[0x3E, 0x10, 0xD6, 0x20, 0x3E, 0x10, 0xDE, 0x01]);
    for _ in 0..4 {
        assert_eq!(cpu.step(), Ok(()));
    }
    assert_eq!(cpu.registers.a, 0x0E);
}

#[test]
fn compare_immediate_only_touches_flags() {
    // LD A,0x42 ; CP 0x42
    let mut cpu = cpu_with_boot(&[0x3E, 0x42, 0xFE, 0x42]);
    assert_eq!(cpu.step(), Ok(()));
    assert_eq!(cpu.step(), Ok(()));
    assert_eq!(cpu.registers.a, 0x42);
    assert!(cpu.registers.f.zero);
    assert_eq!(cpu.pc, 4);
}

#[test]
fn a_table_mismatch_is_the_unsupported_operand_fault() {
    let mut cpu = cpu_with_boot(&[0x00]);
    // The decoder never pairs a register pair with ADC; handing the
    // engine such an instruction by hand hits the invariant fault.
    assert_eq!(
        cpu.execute(Instruction::ADC(Target::BC)),
        Err(Fault::UnsupportedOperand)
    );
}

#[test]
fn writing_high_memory_through_ldh_faults() {
    // LDH (0x80),A writes 0xFF80, unbacked high memory.
    let mut cpu = cpu_with_boot(&[0xE0, 0x80]);
    assert_eq!(cpu.step(), Err(Fault::InvalidWrite(0xFF80)));
}

#[test]
fn store_to_immediate_address_has_three_byte_encoding() {
    // LD A,0x5A ; LD (0xC123),A
    let mut cpu = cpu_with_boot(&[0x3E, 0x5A, 0xEA, 0x23, 0xC1]);
    assert_eq!(cpu.step(), Ok(()));
    assert_eq!(cpu.step(), Ok(()));
    assert_eq!(cpu.pc, 5);
    assert_eq!(cpu.bus.read_byte(0xC123), 0x5A);
}

#[test]
fn store_stack_pointer_to_immediate_address() {
    // LD SP,0xD234 ; LD (0xC000),SP
    let mut cpu = cpu_with_boot(&[0x31, 0x34, 0xD2, 0x08, 0x00, 0xC0]);
    assert_eq!(cpu.step(), Ok(()));
    assert_eq!(cpu.step(), Ok(()));
    assert_eq!(cpu.pc, 6);
    assert_eq!(cpu.bus.read_byte(0xC000), 0x34);
    assert_eq!(cpu.bus.read_byte(0xC001), 0xD2);
}
