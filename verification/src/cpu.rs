//! The execution engine: the fetch-decode-execute cycle over the register
//! file and the address bus. Every instruction's effect on registers,
//! flags, memory, stack pointer and program counter is pinned down by a
//! pure model, [`spec_execute`]; the engine is proved to follow it.
//!
//! Faults are unrecoverable by design: an unknown opcode, an operand shape
//! the table does not define, an access into an unbacked or read-only
//! segment, or the stop instruction (left unimplemented by policy) end the
//! session, surfacing the offending address or opcode. After a fault the
//! machine is dead; only well-formedness of the state is promised.

use vstd::prelude::*;

use crate::instruction::{
    ArithmeticTarget, Instruction, JumpTest, LoadByteSource, LoadByteTarget, LoadType,
    LoadWordSource, LoadWordTarget, PrefixTarget, Source, StackTarget, Target,
};
use crate::memory_bus::{MemS, MemoryBus, spec_mem_read, spec_mem_write, spec_readable,
    spec_writable};
use crate::registers::{FlagsRegister, Registers, spec_get_af, spec_get_bc, spec_get_de,
    spec_get_hl, spec_set_af, spec_set_bc, spec_set_de, spec_set_hl};

verus! {

/// The unrecoverable faults of the engine: an opcode with no mapping (with
/// the address it was fetched from), an illegal read or write (with the
/// offending address), an operand shape the tables never produce together,
/// and the stop instruction, unimplemented by policy.
#[derive(Clone, Copy, PartialEq, Eq, Structural, Debug)]
pub enum Fault {
    UnknownInstruction(u16, u8),
    InvalidRead(u16),
    InvalidWrite(u16),
    UnsupportedOperand,
    Stop,
}

/// The whole machine state as one ghost value: registers, program counter,
/// stack pointer, the halt and interrupt-enable flags, and the bus
/// contents.
#[verifier::ext_equal]
pub ghost struct CpuS {
    pub regs: Registers,
    pub pc: u16,
    pub sp: u16,
    pub is_halted: bool,
    pub ime: bool,
    pub mem: MemS,
}

/// A read, fault-checked: the byte for every readable address, the fault
/// naming the address otherwise.
pub open spec fn spec_read8(m: MemS, addr: u16) -> Result<u8, Fault> {
    if spec_readable(addr) {
        Ok(spec_mem_read(m, addr))
    } else {
        Err(Fault::InvalidRead(addr))
    }
}

/// A write, fault-checked likewise.
pub open spec fn spec_write8(m: MemS, addr: u16, v: u8) -> Result<MemS, Fault> {
    if spec_writable(addr) {
        Ok(spec_mem_write(m, addr, v))
    } else {
        Err(Fault::InvalidWrite(addr))
    }
}

/// A 16-bit read: low byte first, high byte at the next address, the
/// address wrapping at the top of the space.
pub open spec fn spec_read16(m: MemS, addr: u16) -> Result<u16, Fault> {
    match spec_read8(m, addr) {
        Err(e) => Err(e),
        Ok(lo) => match spec_read8(m, addr.wrapping_add(1)) {
            Err(e) => Err(e),
            Ok(hi) => Ok((hi * 256 + lo) as u16),
        },
    }
}

/// 8-bit addition into the accumulator, with an optional carry-in of one.
/// Flags: zero from the result, subtract cleared, half-carry from nibble
/// overflow, carry from byte overflow.
pub open spec fn spec_alu_add(a: u8, v: u8, c: int) -> (u8, FlagsRegister) {
    let r = ((a + v + c) % 256) as u8;
    (
        r,
        FlagsRegister {
            zero: r == 0,
            subtract: false,
            half_carry: a % 16 + v % 16 + c > 15,
            carry: a + v + c > 255,
        },
    )
}

/// 8-bit subtraction from the accumulator, with an optional borrow-in of
/// one. Flags: zero from the result, subtract set, half-carry from nibble
/// borrow, carry from byte borrow.
pub open spec fn spec_alu_sub(a: u8, v: u8, c: int) -> (u8, FlagsRegister) {
    let r = ((a - v - c) % 256) as u8;
    (
        r,
        FlagsRegister {
            zero: r == 0,
            subtract: true,
            half_carry: v % 16 + c > a % 16,
            carry: v + c > a,
        },
    )
}

/// Bitwise AND into the accumulator: zero from the result, half-carry set,
/// subtract and carry cleared.
pub open spec fn spec_alu_and(a: u8, v: u8) -> (u8, FlagsRegister) {
    let r = a & v;
    (r, FlagsRegister { zero: r == 0, subtract: false, half_carry: true, carry: false })
}

/// Bitwise XOR into the accumulator: zero from the result, the rest
/// cleared.
pub open spec fn spec_alu_xor(a: u8, v: u8) -> (u8, FlagsRegister) {
    let r = a ^ v;
    (r, FlagsRegister { zero: r == 0, subtract: false, half_carry: false, carry: false })
}

/// Bitwise OR into the accumulator: zero from the result, the rest
/// cleared.
pub open spec fn spec_alu_or(a: u8, v: u8) -> (u8, FlagsRegister) {
    let r = a | v;
    (r, FlagsRegister { zero: r == 0, subtract: false, half_carry: false, carry: false })
}

/// 8-bit increment: wraps, keeps carry, clears subtract, half-carry when
/// the low nibble carries over.
pub open spec fn spec_alu_inc(v: u8, f: FlagsRegister) -> (u8, FlagsRegister) {
    let r = v.wrapping_add(1);
    (
        r,
        FlagsRegister { zero: r == 0, subtract: false, half_carry: v % 16 == 15, carry: f.carry },
    )
}

/// 8-bit decrement: wraps, keeps carry, sets subtract, half-carry when the
/// low nibble borrows.
pub open spec fn spec_alu_dec(v: u8, f: FlagsRegister) -> (u8, FlagsRegister) {
    let r = v.wrapping_sub(1);
    (
        r,
        FlagsRegister { zero: r == 0, subtract: true, half_carry: v % 16 == 0, carry: f.carry },
    )
}

/// Flags common to every rotate and shift: zero from the result, subtract
/// and half-carry cleared, carry from the bit rotated or shifted out.
pub open spec fn spec_rot_flags(r: u8, carry_out: bool) -> FlagsRegister {
    FlagsRegister { zero: r == 0, subtract: false, half_carry: false, carry: carry_out }
}

/// Rotate left: bit 7 wraps to bit 0 and becomes the carry.
pub open spec fn spec_rlc(v: u8) -> (u8, FlagsRegister) {
    let r = ((v % 128) * 2 + v / 128) as u8;
    (r, spec_rot_flags(r, v / 128 == 1))
}

/// Rotate right: bit 0 wraps to bit 7 and becomes the carry.
pub open spec fn spec_rrc(v: u8) -> (u8, FlagsRegister) {
    let r = (v / 2 + (v % 2) * 128) as u8;
    (r, spec_rot_flags(r, v % 2 == 1))
}

/// Rotate left through carry: the old carry enters bit 0, bit 7 leaves
/// into the carry.
pub open spec fn spec_rl(v: u8, f: FlagsRegister) -> (u8, FlagsRegister) {
    let r = ((v % 128) * 2 + if f.carry {
        1int
    } else {
        0int
    }) as u8;
    (r, spec_rot_flags(r, v / 128 == 1))
}

/// Rotate right through carry: the old carry enters bit 7, bit 0 leaves
/// into the carry.
pub open spec fn spec_rr(v: u8, f: FlagsRegister) -> (u8, FlagsRegister) {
    let r = (v / 2 + if f.carry {
        128int
    } else {
        0int
    }) as u8;
    (r, spec_rot_flags(r, v % 2 == 1))
}

/// Arithmetic shift left: bit 7 leaves into the carry, bit 0 fills with
/// zero.
pub open spec fn spec_sla(v: u8) -> (u8, FlagsRegister) {
    let r = ((v % 128) * 2) as u8;
    (r, spec_rot_flags(r, v / 128 == 1))
}

/// Arithmetic shift right: bit 7 is kept, bit 0 leaves into the carry.
pub open spec fn spec_sra(v: u8) -> (u8, FlagsRegister) {
    let r = (v / 2 + (v / 128) * 128) as u8;
    (r, spec_rot_flags(r, v % 2 == 1))
}

/// Nibble swap: the carry is cleared.
pub open spec fn spec_swap(v: u8) -> (u8, FlagsRegister) {
    let r = ((v % 16) * 16 + v / 16) as u8;
    (r, spec_rot_flags(r, false))
}

/// Logical shift right: bit 0 leaves into the carry, bit 7 fills with
/// zero.
pub open spec fn spec_srl(v: u8) -> (u8, FlagsRegister) {
    let r = (v / 2) as u8;
    (r, spec_rot_flags(r, v % 2 == 1))
}

/// The power of two selecting one bit, for bit indices below 8.
pub open spec fn spec_pow2(b: u8) -> u8 {
    if b == 0 {
        1
    } else if b == 1 {
        2
    } else if b == 2 {
        4
    } else if b == 3 {
        8
    } else if b == 4 {
        16
    } else if b == 5 {
        32
    } else if b == 6 {
        64
    } else {
        128
    }
}

/// The value, zero or one, of bit `b` of `v`.
pub open spec fn spec_bit_val(v: u8, b: u8) -> u8 {
    ((v / spec_pow2(b)) % 2) as u8
}

/// Flags after a bit test: zero is the complement of the tested bit,
/// subtract cleared, half-carry set, carry kept.
pub open spec fn spec_bit_flags(v: u8, b: u8, f: FlagsRegister) -> FlagsRegister {
    FlagsRegister {
        zero: spec_bit_val(v, b) == 0,
        subtract: false,
        half_carry: true,
        carry: f.carry,
    }
}

/// The byte with bit `b` cleared: the bit's weight is taken out when the
/// bit is on.
pub open spec fn spec_res_bit(v: u8, b: u8) -> u8 {
    if b == 0 {
        (v - v % 2) as u8
    } else if b == 1 {
        (v - ((v / 2) % 2) * 2) as u8
    } else if b == 2 {
        (v - ((v / 4) % 2) * 4) as u8
    } else if b == 3 {
        (v - ((v / 8) % 2) * 8) as u8
    } else if b == 4 {
        (v - ((v / 16) % 2) * 16) as u8
    } else if b == 5 {
        (v - ((v / 32) % 2) * 32) as u8
    } else if b == 6 {
        (v - ((v / 64) % 2) * 64) as u8
    } else {
        (v - ((v / 128) % 2) * 128) as u8
    }
}

/// The byte with bit `b` set: the bit's weight is added onto the cleared
/// byte.
pub open spec fn spec_set_bit(v: u8, b: u8) -> u8 {
    (spec_res_bit(v, b) + spec_pow2(b)) as u8
}

/// Binary-coded-decimal correction of the accumulator, conditioned on the
/// subtract, half-carry and carry flags of the preceding operation. After
/// an addition, a low nibble past 9 (or a pending half-carry) gains 6, and
/// a byte past 0x99 (or a pending carry) gains 0x60, which also sets the
/// carry; after a subtraction the pending flags subtract the same
/// corrections and the carry is kept. Zero is recomputed, half-carry
/// cleared.
pub open spec fn spec_daa(a: u8, f: FlagsRegister) -> (u8, FlagsRegister) {
    if !f.subtract {
        let carry = f.carry || a > 0x99;
        let a1 = if carry {
            ((a + 0x60) % 256) as u8
        } else {
            a
        };
        let a2 = if f.half_carry || a1 % 16 > 9 {
            ((a1 + 6) % 256) as u8
        } else {
            a1
        };
        (a2, FlagsRegister { zero: a2 == 0, subtract: false, half_carry: false, carry })
    } else {
        let a1 = if f.carry {
            ((a - 0x60) % 256) as u8
        } else {
            a
        };
        let a2 = if f.half_carry {
            ((a1 - 6) % 256) as u8
        } else {
            a1
        };
        (a2, FlagsRegister { zero: a2 == 0, subtract: true, half_carry: false, carry: f.carry })
    }
}

/// A signed 8-bit displacement, sign-extended to 16 bits.
pub open spec fn spec_signext(d: u8) -> u16 {
    if d < 128 {
        d as u16
    } else {
        (d + 0xFF00) as u16
    }
}

/// Whether a conditional jump, call or return takes its branch.
pub open spec fn spec_cond(f: FlagsRegister, test: JumpTest) -> bool {
    match test {
        JumpTest::NotZero => !f.zero,
        JumpTest::Zero => f.zero,
        JumpTest::NotCarry => !f.carry,
        JumpTest::Carry => f.carry,
        JumpTest::Always => true,
    }
}

/// 16-bit addition into HL: subtract cleared, half-carry on the bit-11
/// crossing, carry on the bit-15 crossing, zero kept.
pub open spec fn spec_addhl(hl: u16, v: u16, f: FlagsRegister) -> (u16, FlagsRegister) {
    (
        hl.wrapping_add(v),
        FlagsRegister {
            zero: f.zero,
            subtract: false,
            half_carry: hl % 2048 + v % 2048 > 2047,
            carry: hl + v > 65535,
        },
    )
}

/// Stack pointer plus signed displacement: zero and subtract cleared,
/// half-carry and carry from the low nibble and low byte of the unsigned
/// addition.
pub open spec fn spec_sp_plus(sp: u16, d: u8) -> (u16, FlagsRegister) {
    (
        sp.wrapping_add(spec_signext(d)),
        FlagsRegister {
            zero: false,
            subtract: false,
            half_carry: sp % 16 + d % 16 > 15,
            carry: sp % 256 + d > 255,
        },
    )
}

/// The operand position of the accumulator addition, as a general source.
pub open spec fn spec_arith_src(t: ArithmeticTarget) -> Source {
    match t {
        ArithmeticTarget::A => Target::A,
        ArithmeticTarget::B => Target::B,
        ArithmeticTarget::C => Target::C,
        ArithmeticTarget::D => Target::D,
        ArithmeticTarget::E => Target::E,
        ArithmeticTarget::H => Target::H,
        ArithmeticTarget::L => Target::L,
        ArithmeticTarget::HLI => Target::IndirectHL,
        ArithmeticTarget::D8 => Target::D8,
    }
}

/// The value an 8-bit arithmetic source yields: a register, the byte HL
/// points at, or the immediate byte after the opcode. Any other position
/// is an operand the tables never pair with these operations.
pub open spec fn spec_src8_val(s: CpuS, src: Source) -> Result<u8, Fault> {
    match src {
        Target::A => Ok(s.regs.a),
        Target::B => Ok(s.regs.b),
        Target::C => Ok(s.regs.c),
        Target::D => Ok(s.regs.d),
        Target::E => Ok(s.regs.e),
        Target::H => Ok(s.regs.h),
        Target::L => Ok(s.regs.l),
        Target::IndirectHL => spec_read8(s.mem, spec_get_hl(s.regs)),
        Target::D8 => spec_read8(s.mem, s.pc.wrapping_add(1)),
        _ => Err(Fault::UnsupportedOperand),
    }
}

/// Encoded length of an arithmetic operation: two bytes with an immediate
/// operand, one otherwise.
pub open spec fn spec_src8_len(src: Source) -> u16 {
    if src == Target::D8 {
        2
    } else {
        1
    }
}

/// What the eight accumulator operations compute from the accumulator, an
/// operand byte and the incoming flags.
pub open spec fn spec_alu_result(i: Instruction, a: u8, v: u8, f: FlagsRegister) -> (
    u8,
    FlagsRegister,
) {
    match i {
        Instruction::ADD(_) => spec_alu_add(a, v, 0),
        Instruction::ADC(_) => spec_alu_add(
            a,
            v,
            if f.carry {
                1int
            } else {
                0int
            },
        ),
        Instruction::SUB(_) => spec_alu_sub(a, v, 0),
        Instruction::SBC(_) => spec_alu_sub(
            a,
            v,
            if f.carry {
                1int
            } else {
                0int
            },
        ),
        Instruction::AND(_) => spec_alu_and(a, v),
        Instruction::XOR(_) => spec_alu_xor(a, v),
        Instruction::OR(_) => spec_alu_or(a, v),
        Instruction::CP(_) => spec_alu_sub(a, v, 0),
        _ => (a, f),
    }
}

/// The compare discards its result; every other accumulator operation
/// writes it back.
pub open spec fn spec_alu_writes_a(i: Instruction) -> bool {
    !(i matches Instruction::CP(_))
}

/// One accumulator operation: fetch the operand, compute, write the
/// accumulator (unless comparing), update the flags, advance past the
/// encoding.
pub open spec fn spec_exec_alu(s: CpuS, i: Instruction, src: Source) -> Result<CpuS, Fault> {
    match spec_src8_val(s, src) {
        Err(e) => Err(e),
        Ok(v) => {
            let (r, nf) = spec_alu_result(i, s.regs.a, v, s.regs.f);
            Ok(
                CpuS {
                    regs: Registers {
                        a: if spec_alu_writes_a(i) {
                            r
                        } else {
                            s.regs.a
                        },
                        f: nf,
                        ..s.regs
                    },
                    pc: s.pc.wrapping_add(spec_src8_len(src)),
                    ..s
                },
            )
        },
    }
}

/// An increment: pairs and the stack pointer wrap without touching flags;
/// 8-bit targets go through the flag-setting increment; the byte HL points
/// at is read, incremented and written back.
pub open spec fn spec_exec_inc(s: CpuS, t: Target) -> Result<CpuS, Fault> {
    let pc1 = s.pc.wrapping_add(1);
    match t {
        Target::BC => Ok(
            CpuS { regs: spec_set_bc(s.regs, spec_get_bc(s.regs).wrapping_add(1)), pc: pc1, ..s },
        ),
        Target::DE => Ok(
            CpuS { regs: spec_set_de(s.regs, spec_get_de(s.regs).wrapping_add(1)), pc: pc1, ..s },
        ),
        Target::HL => Ok(
            CpuS { regs: spec_set_hl(s.regs, spec_get_hl(s.regs).wrapping_add(1)), pc: pc1, ..s },
        ),
        Target::SP => Ok(CpuS { sp: s.sp.wrapping_add(1), pc: pc1, ..s }),
        Target::A => Ok(spec_with_inc(s, s.regs.a, pc1, Target::A)),
        Target::B => Ok(spec_with_inc(s, s.regs.b, pc1, Target::B)),
        Target::C => Ok(spec_with_inc(s, s.regs.c, pc1, Target::C)),
        Target::D => Ok(spec_with_inc(s, s.regs.d, pc1, Target::D)),
        Target::E => Ok(spec_with_inc(s, s.regs.e, pc1, Target::E)),
        Target::H => Ok(spec_with_inc(s, s.regs.h, pc1, Target::H)),
        Target::L => Ok(spec_with_inc(s, s.regs.l, pc1, Target::L)),
        Target::IndirectHL => {
            let addr = spec_get_hl(s.regs);
            match spec_read8(s.mem, addr) {
                Err(e) => Err(e),
                Ok(v) => {
                    let (r, nf) = spec_alu_inc(v, s.regs.f);
                    match spec_write8(s.mem, addr, r) {
                        Err(e) => Err(e),
                        Ok(m) => Ok(
                            CpuS {
                                regs: Registers { f: nf, ..s.regs },
                                pc: pc1,
                                mem: m,
                                ..s
                            },
                        ),
                    }
                },
            }
        },
        _ => Err(Fault::UnsupportedOperand),
    }
}

/// The state after incrementing one 8-bit register.
pub open spec fn spec_with_inc(s: CpuS, v: u8, pc1: u16, t: Target) -> CpuS {
    let (r, nf) = spec_alu_inc(v, s.regs.f);
    CpuS { regs: spec_set_r8(s.regs, t, r, nf), pc: pc1, ..s }
}

/// The state after decrementing one 8-bit register.
pub open spec fn spec_with_dec(s: CpuS, v: u8, pc1: u16, t: Target) -> CpuS {
    let (r, nf) = spec_alu_dec(v, s.regs.f);
    CpuS { regs: spec_set_r8(s.regs, t, r, nf), pc: pc1, ..s }
}

/// One 8-bit register replaced, together with the flags.
pub open spec fn spec_set_r8(regs: Registers, t: Target, r: u8, nf: FlagsRegister) -> Registers {
    match t {
        Target::A => Registers { a: r, f: nf, ..regs },
        Target::B => Registers { b: r, f: nf, ..regs },
        Target::C => Registers { c: r, f: nf, ..regs },
        Target::D => Registers { d: r, f: nf, ..regs },
        Target::E => Registers { e: r, f: nf, ..regs },
        Target::H => Registers { h: r, f: nf, ..regs },
        Target::L => Registers { l: r, f: nf, ..regs },
        _ => regs,
    }
}

/// A decrement, shaped exactly like the increment.
pub open spec fn spec_exec_dec(s: CpuS, t: Target) -> Result<CpuS, Fault> {
    let pc1 = s.pc.wrapping_add(1);
    match t {
        Target::BC => Ok(
            CpuS { regs: spec_set_bc(s.regs, spec_get_bc(s.regs).wrapping_sub(1)), pc: pc1, ..s },
        ),
        Target::DE => Ok(
            CpuS { regs: spec_set_de(s.regs, spec_get_de(s.regs).wrapping_sub(1)), pc: pc1, ..s },
        ),
        Target::HL => Ok(
            CpuS { regs: spec_set_hl(s.regs, spec_get_hl(s.regs).wrapping_sub(1)), pc: pc1, ..s },
        ),
        Target::SP => Ok(CpuS { sp: s.sp.wrapping_sub(1), pc: pc1, ..s }),
        Target::A => Ok(spec_with_dec(s, s.regs.a, pc1, Target::A)),
        Target::B => Ok(spec_with_dec(s, s.regs.b, pc1, Target::B)),
        Target::C => Ok(spec_with_dec(s, s.regs.c, pc1, Target::C)),
        Target::D => Ok(spec_with_dec(s, s.regs.d, pc1, Target::D)),
        Target::E => Ok(spec_with_dec(s, s.regs.e, pc1, Target::E)),
        Target::H => Ok(spec_with_dec(s, s.regs.h, pc1, Target::H)),
        Target::L => Ok(spec_with_dec(s, s.regs.l, pc1, Target::L)),
        Target::IndirectHL => {
            let addr = spec_get_hl(s.regs);
            match spec_read8(s.mem, addr) {
                Err(e) => Err(e),
                Ok(v) => {
                    let (r, nf) = spec_alu_dec(v, s.regs.f);
                    match spec_write8(s.mem, addr, r) {
                        Err(e) => Err(e),
                        Ok(m) => Ok(
                            CpuS {
                                regs: Registers { f: nf, ..s.regs },
                                pc: pc1,
                                mem: m,
                                ..s
                            },
                        ),
                    }
                },
            }
        },
        _ => Err(Fault::UnsupportedOperand),
    }
}

/// Pushing a word: the high byte lands one below the stack pointer, the
/// low byte below that, and the stack pointer ends two lower, wrapping at
/// the bottom.
pub open spec fn spec_push16(s: CpuS, v: u16) -> Result<CpuS, Fault> {
    let sp1 = s.sp.wrapping_sub(1);
    let sp2 = s.sp.wrapping_sub(2);
    match spec_write8(s.mem, sp1, (v / 256) as u8) {
        Err(e) => Err(e),
        Ok(m1) => match spec_write8(m1, sp2, (v % 256) as u8) {
            Err(e) => Err(e),
            Ok(m2) => Ok(CpuS { sp: sp2, mem: m2, ..s }),
        },
    }
}

/// Popping a word: the low byte from the stack pointer, the high byte from
/// one above, and the stack pointer ends two higher, wrapping at the top.
pub open spec fn spec_pop16(s: CpuS) -> Result<(u16, CpuS), Fault> {
    match spec_read8(s.mem, s.sp) {
        Err(e) => Err(e),
        Ok(lo) => match spec_read8(s.mem, s.sp.wrapping_add(1)) {
            Err(e) => Err(e),
            Ok(hi) => Ok(
                ((hi * 256 + lo) as u16, CpuS { sp: s.sp.wrapping_add(2), ..s }),
            ),
        },
    }
}

/// The word a stack operation moves: a register pair, AF packing the flags
/// into the low byte.
pub open spec fn spec_stack_val(regs: Registers, t: StackTarget) -> u16 {
    match t {
        StackTarget::BC => spec_get_bc(regs),
        StackTarget::DE => spec_get_de(regs),
        StackTarget::HL => spec_get_hl(regs),
        StackTarget::AF => spec_get_af(regs),
    }
}

/// The register pair a popped word lands in.
pub open spec fn spec_stack_set(regs: Registers, t: StackTarget, v: u16) -> Registers {
    match t {
        StackTarget::BC => spec_set_bc(regs, v),
        StackTarget::DE => spec_set_de(regs, v),
        StackTarget::HL => spec_set_hl(regs, v),
        StackTarget::AF => spec_set_af(regs, v),
    }
}

/// An absolute jump: on a taken condition the target is the immediate
/// word; otherwise the counter steps past the three-byte encoding.
pub open spec fn spec_exec_jp(s: CpuS, test: JumpTest) -> Result<CpuS, Fault> {
    if spec_cond(s.regs.f, test) {
        match spec_read16(s.mem, s.pc.wrapping_add(1)) {
            Err(e) => Err(e),
            Ok(t) => Ok(CpuS { pc: t, ..s }),
        }
    } else {
        Ok(CpuS { pc: s.pc.wrapping_add(3), ..s })
    }
}

/// A relative jump: on a taken condition the signed immediate displaces
/// the counter already advanced past the two-byte encoding.
pub open spec fn spec_exec_jr(s: CpuS, test: JumpTest) -> Result<CpuS, Fault> {
    if spec_cond(s.regs.f, test) {
        match spec_read8(s.mem, s.pc.wrapping_add(1)) {
            Err(e) => Err(e),
            Ok(d) => Ok(CpuS { pc: s.pc.wrapping_add(2).wrapping_add(spec_signext(d)), ..s }),
        }
    } else {
        Ok(CpuS { pc: s.pc.wrapping_add(2), ..s })
    }
}

/// A call: on a taken condition the address after the three-byte encoding
/// is pushed and the immediate word becomes the counter; the immediate is
/// read after the push, from the possibly-updated memory.
pub open spec fn spec_exec_call(s: CpuS, test: JumpTest) -> Result<CpuS, Fault> {
    let next = s.pc.wrapping_add(3);
    if spec_cond(s.regs.f, test) {
        match spec_push16(s, next) {
            Err(e) => Err(e),
            Ok(s2) => match spec_read16(s2.mem, s.pc.wrapping_add(1)) {
                Err(e) => Err(e),
                Ok(t) => Ok(CpuS { pc: t, ..s2 }),
            },
        }
    } else {
        Ok(CpuS { pc: next, ..s })
    }
}

/// A return: on a taken condition the counter is popped; otherwise it
/// steps past the one-byte encoding.
pub open spec fn spec_exec_ret(s: CpuS, test: JumpTest) -> Result<CpuS, Fault> {
    if spec_cond(s.regs.f, test) {
        match spec_pop16(s) {
            Err(e) => Err(e),
            Ok((t, s2)) => Ok(CpuS { pc: t, ..s2 }),
        }
    } else {
        Ok(CpuS { pc: s.pc.wrapping_add(1), ..s })
    }
}

/// Immediate bytes a byte-load source consumes.
pub open spec fn spec_ld_src_imm(src: LoadByteSource) -> u16 {
    match src {
        LoadByteSource::D8 => 1,
        LoadByteSource::N8I => 1,
        LoadByteSource::N16I => 2,
        _ => 0,
    }
}

/// Immediate bytes a byte-load target consumes.
pub open spec fn spec_ld_tgt_imm(tgt: LoadByteTarget) -> u16 {
    match tgt {
        LoadByteTarget::N8I => 1,
        LoadByteTarget::N16I => 2,
        _ => 0,
    }
}

/// The byte a load source yields, together with the registers afterwards:
/// the post-increment and post-decrement forms read through HL and then
/// move it. High-memory sources read at 0xFF00 plus an offset, a segment
/// unbacked in this core, so they fault here.
pub open spec fn spec_ld_src_val(s: CpuS, src: LoadByteSource) -> Result<(u8, Registers), Fault> {
    match src {
        LoadByteSource::A => Ok((s.regs.a, s.regs)),
        LoadByteSource::B => Ok((s.regs.b, s.regs)),
        LoadByteSource::C => Ok((s.regs.c, s.regs)),
        LoadByteSource::D => Ok((s.regs.d, s.regs)),
        LoadByteSource::E => Ok((s.regs.e, s.regs)),
        LoadByteSource::H => Ok((s.regs.h, s.regs)),
        LoadByteSource::L => Ok((s.regs.l, s.regs)),
        LoadByteSource::D8 => match spec_read8(s.mem, s.pc.wrapping_add(1)) {
            Err(e) => Err(e),
            Ok(v) => Ok((v, s.regs)),
        },
        LoadByteSource::N16I => match spec_read16(s.mem, s.pc.wrapping_add(1)) {
            Err(e) => Err(e),
            Ok(addr) => match spec_read8(s.mem, addr) {
                Err(e) => Err(e),
                Ok(v) => Ok((v, s.regs)),
            },
        },
        LoadByteSource::N8I => match spec_read8(s.mem, s.pc.wrapping_add(1)) {
            Err(e) => Err(e),
            Ok(off) => match spec_read8(s.mem, (0xFF00 + off) as u16) {
                Err(e) => Err(e),
                Ok(v) => Ok((v, s.regs)),
            },
        },
        LoadByteSource::CI => match spec_read8(s.mem, (0xFF00 + s.regs.c) as u16) {
            Err(e) => Err(e),
            Ok(v) => Ok((v, s.regs)),
        },
        LoadByteSource::HLI => match spec_read8(s.mem, spec_get_hl(s.regs)) {
            Err(e) => Err(e),
            Ok(v) => Ok((v, s.regs)),
        },
        LoadByteSource::BCI => match spec_read8(s.mem, spec_get_bc(s.regs)) {
            Err(e) => Err(e),
            Ok(v) => Ok((v, s.regs)),
        },
        LoadByteSource::DEI => match spec_read8(s.mem, spec_get_de(s.regs)) {
            Err(e) => Err(e),
            Ok(v) => Ok((v, s.regs)),
        },
        LoadByteSource::HLINCR => {
            let addr = spec_get_hl(s.regs);
            match spec_read8(s.mem, addr) {
                Err(e) => Err(e),
                Ok(v) => Ok((v, spec_set_hl(s.regs, addr.wrapping_add(1)))),
            }
        },
        LoadByteSource::HLDECR => {
            let addr = spec_get_hl(s.regs);
            match spec_read8(s.mem, addr) {
                Err(e) => Err(e),
                Ok(v) => Ok((v, spec_set_hl(s.regs, addr.wrapping_sub(1)))),
            }
        },
    }
}

/// Where a load target puts the byte: a register, or memory through one of
/// the indirect forms; the post-increment and post-decrement forms write
/// through HL and then move it. The registers seen here are the ones the
/// source fetch left behind; the memory and counter are the ones the fetch
/// found, since fetching never writes.
pub open spec fn spec_ld_store(mem: MemS, pc: u16, regs: Registers, tgt: LoadByteTarget, v: u8)
    -> Result<(Registers, MemS), Fault> {
    match tgt {
        LoadByteTarget::A => Ok((Registers { a: v, ..regs }, mem)),
        LoadByteTarget::B => Ok((Registers { b: v, ..regs }, mem)),
        LoadByteTarget::C => Ok((Registers { c: v, ..regs }, mem)),
        LoadByteTarget::D => Ok((Registers { d: v, ..regs }, mem)),
        LoadByteTarget::E => Ok((Registers { e: v, ..regs }, mem)),
        LoadByteTarget::H => Ok((Registers { h: v, ..regs }, mem)),
        LoadByteTarget::L => Ok((Registers { l: v, ..regs }, mem)),
        LoadByteTarget::N16I => match spec_read16(mem, pc.wrapping_add(1)) {
            Err(e) => Err(e),
            Ok(addr) => match spec_write8(mem, addr, v) {
                Err(e) => Err(e),
                Ok(m) => Ok((regs, m)),
            },
        },
        LoadByteTarget::N8I => match spec_read8(mem, pc.wrapping_add(1)) {
            Err(e) => Err(e),
            Ok(off) => match spec_write8(mem, (0xFF00 + off) as u16, v) {
                Err(e) => Err(e),
                Ok(m) => Ok((regs, m)),
            },
        },
        LoadByteTarget::CI => match spec_write8(mem, (0xFF00 + regs.c) as u16, v) {
            Err(e) => Err(e),
            Ok(m) => Ok((regs, m)),
        },
        LoadByteTarget::HLI => match spec_write8(mem, spec_get_hl(regs), v) {
            Err(e) => Err(e),
            Ok(m) => Ok((regs, m)),
        },
        LoadByteTarget::BCI => match spec_write8(mem, spec_get_bc(regs), v) {
            Err(e) => Err(e),
            Ok(m) => Ok((regs, m)),
        },
        LoadByteTarget::DEI => match spec_write8(mem, spec_get_de(regs), v) {
            Err(e) => Err(e),
            Ok(m) => Ok((regs, m)),
        },
        LoadByteTarget::HLINCR => {
            let addr = spec_get_hl(regs);
            match spec_write8(mem, addr, v) {
                Err(e) => Err(e),
                Ok(m) => Ok((spec_set_hl(regs, addr.wrapping_add(1)), m)),
            }
        },
        LoadByteTarget::HLDECR => {
            let addr = spec_get_hl(regs);
            match spec_write8(mem, addr, v) {
                Err(e) => Err(e),
                Ok(m) => Ok((spec_set_hl(regs, addr.wrapping_sub(1)), m)),
            }
        },
    }
}

/// A byte load: fetch the source (with its HL side effect), store into the
/// target (with its HL side effect), and advance past the opcode and every
/// immediate byte either side consumed.
pub open spec fn spec_exec_ld_byte(s: CpuS, tgt: LoadByteTarget, src: LoadByteSource) -> Result<
    CpuS,
    Fault,
> {
    match spec_ld_src_val(s, src) {
        Err(e) => Err(e),
        Ok((v, regs1)) => match spec_ld_store(s.mem, s.pc, regs1, tgt, v) {
            Err(e) => Err(e),
            Ok((regs2, m)) => Ok(
                CpuS {
                    regs: regs2,
                    pc: s.pc.wrapping_add(1).wrapping_add(spec_ld_src_imm(src)).wrapping_add(
                        spec_ld_tgt_imm(tgt),
                    ),
                    mem: m,
                    ..s
                },
            ),
        },
    }
}

/// A word load: an immediate word, the stack pointer or HL moves into a
/// register pair, the stack pointer, or the immediate memory address (low
/// byte first).
pub open spec fn spec_exec_ld_word(s: CpuS, tgt: LoadWordTarget, src: LoadWordSource) -> Result<
    CpuS,
    Fault,
> {
    let len: u16 = (1 + (if src == LoadWordSource::D16 {
        2int
    } else {
        0int
    }) + (if tgt == LoadWordTarget::N16I {
        2int
    } else {
        0int
    })) as u16;
    let pc2 = s.pc.wrapping_add(len);
    let v = match src {
        LoadWordSource::D16 => spec_read16(s.mem, s.pc.wrapping_add(1)),
        LoadWordSource::SP => Ok(s.sp),
        LoadWordSource::HL => Ok(spec_get_hl(s.regs)),
    };
    match v {
        Err(e) => Err(e),
        Ok(v) => match tgt {
            LoadWordTarget::BC => Ok(CpuS { regs: spec_set_bc(s.regs, v), pc: pc2, ..s }),
            LoadWordTarget::DE => Ok(CpuS { regs: spec_set_de(s.regs, v), pc: pc2, ..s }),
            LoadWordTarget::HL => Ok(CpuS { regs: spec_set_hl(s.regs, v), pc: pc2, ..s }),
            LoadWordTarget::SP => Ok(CpuS { sp: v, pc: pc2, ..s }),
            LoadWordTarget::N16I => match spec_read16(s.mem, s.pc.wrapping_add(1)) {
                Err(e) => Err(e),
                Ok(addr) => match spec_write8(s.mem, addr, (v % 256) as u8) {
                    Err(e) => Err(e),
                    Ok(m1) => match spec_write8(m1, addr.wrapping_add(1), (v / 256) as u8) {
                        Err(e) => Err(e),
                        Ok(m2) => Ok(CpuS { pc: pc2, mem: m2, ..s }),
                    },
                },
            },
        },
    }
}

/// What a rotate, shift or swap of the extended table computes.
pub open spec fn spec_rot_result(i: Instruction, v: u8, f: FlagsRegister) -> (u8, FlagsRegister) {
    match i {
        Instruction::RLC(_) => spec_rlc(v),
        Instruction::RRC(_) => spec_rrc(v),
        Instruction::RL(_) => spec_rl(v, f),
        Instruction::RR(_) => spec_rr(v, f),
        Instruction::SLA(_) => spec_sla(v),
        Instruction::SRA(_) => spec_sra(v),
        Instruction::SWAP(_) => spec_swap(v),
        Instruction::SRL(_) => spec_srl(v),
        _ => (v, f),
    }
}

/// The byte an extended-table operand names.
pub open spec fn spec_prefix_val(s: CpuS, t: PrefixTarget) -> Result<u8, Fault> {
    match t {
        PrefixTarget::A => Ok(s.regs.a),
        PrefixTarget::B => Ok(s.regs.b),
        PrefixTarget::C => Ok(s.regs.c),
        PrefixTarget::D => Ok(s.regs.d),
        PrefixTarget::E => Ok(s.regs.e),
        PrefixTarget::H => Ok(s.regs.h),
        PrefixTarget::L => Ok(s.regs.l),
        PrefixTarget::HLI => spec_read8(s.mem, spec_get_hl(s.regs)),
    }
}

/// The machine after an extended-table operand is replaced: a register
/// directly, or the byte HL points at written back.
pub open spec fn spec_prefix_store(s: CpuS, t: PrefixTarget, v: u8, nf: FlagsRegister, pc2: u16)
    -> Result<CpuS, Fault> {
    match t {
        PrefixTarget::A => Ok(CpuS { regs: Registers { a: v, f: nf, ..s.regs }, pc: pc2, ..s }),
        PrefixTarget::B => Ok(CpuS { regs: Registers { b: v, f: nf, ..s.regs }, pc: pc2, ..s }),
        PrefixTarget::C => Ok(CpuS { regs: Registers { c: v, f: nf, ..s.regs }, pc: pc2, ..s }),
        PrefixTarget::D => Ok(CpuS { regs: Registers { d: v, f: nf, ..s.regs }, pc: pc2, ..s }),
        PrefixTarget::E => Ok(CpuS { regs: Registers { e: v, f: nf, ..s.regs }, pc: pc2, ..s }),
        PrefixTarget::H => Ok(CpuS { regs: Registers { h: v, f: nf, ..s.regs }, pc: pc2, ..s }),
        PrefixTarget::L => Ok(CpuS { regs: Registers { l: v, f: nf, ..s.regs }, pc: pc2, ..s }),
        PrefixTarget::HLI => match spec_write8(s.mem, spec_get_hl(s.regs), v) {
            Err(e) => Err(e),
            Ok(m) => Ok(CpuS { regs: Registers { f: nf, ..s.regs }, pc: pc2, mem: m, ..s }),
        },
    }
}

/// A rotate, shift or swap of the extended table: two-byte encoding.
pub open spec fn spec_exec_rot(s: CpuS, i: Instruction, t: PrefixTarget) -> Result<CpuS, Fault> {
    match spec_prefix_val(s, t) {
        Err(e) => Err(e),
        Ok(v) => {
            let (r, nf) = spec_rot_result(i, v, s.regs.f);
            spec_prefix_store(s, t, r, nf, s.pc.wrapping_add(2))
        },
    }
}

/// A bit test: flags only, the operand untouched; two-byte encoding.
pub open spec fn spec_exec_bit(s: CpuS, b: u8, t: PrefixTarget) -> Result<CpuS, Fault> {
    if b >= 8 {
        Err(Fault::UnsupportedOperand)
    } else {
        match spec_prefix_val(s, t) {
            Err(e) => Err(e),
            Ok(v) => Ok(
                CpuS {
                    regs: Registers { f: spec_bit_flags(v, b, s.regs.f), ..s.regs },
                    pc: s.pc.wrapping_add(2),
                    ..s
                },
            ),
        }
    }
}

/// A bit clear or bit set: the operand is replaced, flags untouched;
/// two-byte encoding.
pub open spec fn spec_exec_setres(s: CpuS, b: u8, t: PrefixTarget, set: bool) -> Result<
    CpuS,
    Fault,
> {
    if b >= 8 {
        Err(Fault::UnsupportedOperand)
    } else {
        match spec_prefix_val(s, t) {
            Err(e) => Err(e),
            Ok(v) => {
                let r = if set {
                    spec_set_bit(v, b)
                } else {
                    spec_res_bit(v, b)
                };
                spec_prefix_store(s, t, r, s.regs.f, s.pc.wrapping_add(2))
            },
        }
    }
}

/// A 16-bit addition into HL from a register pair or the stack pointer.
pub open spec fn spec_exec_addhl(s: CpuS, src: Source) -> Result<CpuS, Fault> {
    let v = match src {
        Target::BC => Ok(spec_get_bc(s.regs)),
        Target::DE => Ok(spec_get_de(s.regs)),
        Target::HL => Ok(spec_get_hl(s.regs)),
        Target::SP => Ok(s.sp),
        _ => Err(Fault::UnsupportedOperand),
    };
    match v {
        Err(e) => Err(e),
        Ok(v) => {
            let (r, nf) = spec_addhl(spec_get_hl(s.regs), v, s.regs.f);
            Ok(
                CpuS {
                    regs: Registers { f: nf, ..spec_set_hl(s.regs, r) },
                    pc: s.pc.wrapping_add(1),
                    ..s
                },
            )
        },
    }
}

/// The signed immediate added into the stack pointer.
pub open spec fn spec_exec_addsp(s: CpuS) -> Result<CpuS, Fault> {
    match spec_read8(s.mem, s.pc.wrapping_add(1)) {
        Err(e) => Err(e),
        Ok(d) => {
            let (r, nf) = spec_sp_plus(s.sp, d);
            Ok(
                CpuS {
                    regs: Registers { f: nf, ..s.regs },
                    sp: r,
                    pc: s.pc.wrapping_add(2),
                    ..s
                },
            )
        },
    }
}

/// The stack pointer plus the signed immediate, loaded into HL.
pub open spec fn spec_exec_hlspn(s: CpuS) -> Result<CpuS, Fault> {
    match spec_read8(s.mem, s.pc.wrapping_add(1)) {
        Err(e) => Err(e),
        Ok(d) => {
            let (r, nf) = spec_sp_plus(s.sp, d);
            Ok(
                CpuS {
                    regs: Registers { f: nf, ..spec_set_hl(s.regs, r) },
                    pc: s.pc.wrapping_add(2),
                    ..s
                },
            )
        },
    }
}

/// The decimal correction applied to the accumulator.
pub open spec fn spec_exec_daa(s: CpuS) -> Result<CpuS, Fault> {
    let (r, nf) = spec_daa(s.regs.a, s.regs.f);
    Ok(CpuS { regs: Registers { a: r, f: nf, ..s.regs }, pc: s.pc.wrapping_add(1), ..s })
}

/// The control half of the instruction set: what each does when the
/// machine is not halted. Instructions of the other half fall through to
/// the unsupported-operand fault, which dispatch never lets happen.
pub open spec fn spec_execute_control(s: CpuS, i: Instruction) -> Result<CpuS, Fault> {
    let pc1 = s.pc.wrapping_add(1);
    match i {
        Instruction::NOP => Ok(CpuS { pc: pc1, ..s }),
        Instruction::HALT => Ok(CpuS { is_halted: true, pc: pc1, ..s }),
        Instruction::STOP => Err(Fault::Stop),
        Instruction::DI => Ok(CpuS { ime: false, pc: pc1, ..s }),
        Instruction::EI => Ok(CpuS { ime: true, pc: pc1, ..s }),
        Instruction::SCF => Ok(
            CpuS {
                regs: Registers {
                    f: FlagsRegister {
                        zero: s.regs.f.zero,
                        subtract: false,
                        half_carry: false,
                        carry: true,
                    },
                    ..s.regs
                },
                pc: pc1,
                ..s
            },
        ),
        Instruction::CPL => Ok(
            CpuS {
                regs: Registers {
                    a: (255 - s.regs.a) as u8,
                    f: FlagsRegister { subtract: true, half_carry: true, ..s.regs.f },
                    ..s.regs
                },
                pc: pc1,
                ..s
            },
        ),
        Instruction::CCF => Ok(
            CpuS {
                regs: Registers {
                    f: FlagsRegister {
                        zero: s.regs.f.zero,
                        subtract: false,
                        half_carry: false,
                        carry: !s.regs.f.carry,
                    },
                    ..s.regs
                },
                pc: pc1,
                ..s
            },
        ),
        Instruction::RLCA => {
            let (r, nf) = spec_rlc(s.regs.a);
            Ok(CpuS { regs: Registers { a: r, f: nf, ..s.regs }, pc: pc1, ..s })
        },
        Instruction::RRCA => {
            let (r, nf) = spec_rrc(s.regs.a);
            Ok(CpuS { regs: Registers { a: r, f: nf, ..s.regs }, pc: pc1, ..s })
        },
        Instruction::RLA => {
            let (r, nf) = spec_rl(s.regs.a, s.regs.f);
            Ok(CpuS { regs: Registers { a: r, f: nf, ..s.regs }, pc: pc1, ..s })
        },
        Instruction::RRA => {
            let (r, nf) = spec_rr(s.regs.a, s.regs.f);
            Ok(CpuS { regs: Registers { a: r, f: nf, ..s.regs }, pc: pc1, ..s })
        },
        Instruction::PUSH(t) => match spec_push16(s, spec_stack_val(s.regs, t)) {
            Err(e) => Err(e),
            Ok(s2) => Ok(CpuS { pc: pc1, ..s2 }),
        },
        Instruction::POP(t) => match spec_pop16(s) {
            Err(e) => Err(e),
            Ok((v, s2)) => Ok(
                CpuS { regs: spec_stack_set(s.regs, t, v), pc: pc1, ..s2 },
            ),
        },
        Instruction::JP(test) => spec_exec_jp(s, test),
        Instruction::JPHL => Ok(CpuS { pc: spec_get_hl(s.regs), ..s }),
        Instruction::JR(test) => spec_exec_jr(s, test),
        Instruction::CALL(test) => spec_exec_call(s, test),
        Instruction::RET(test) => spec_exec_ret(s, test),
        Instruction::RETI => match spec_pop16(s) {
            Err(e) => Err(e),
            Ok((t, s2)) => Ok(CpuS { pc: t, ime: true, ..s2 }),
        },
        Instruction::RST(v) => match spec_push16(s, pc1) {
            Err(e) => Err(e),
            Ok(s2) => Ok(CpuS { pc: v as u16, ..s2 }),
        },
        _ => Err(Fault::UnsupportedOperand),
    }
}

/// The arithmetic quarter of the instruction set: accumulator operations,
/// increments and decrements, the 16-bit additions and the decimal
/// correction.
pub open spec fn spec_execute_arith(s: CpuS, i: Instruction) -> Result<CpuS, Fault> {
    match i {
        Instruction::ADD(t) => spec_exec_alu(s, i, spec_arith_src(t)),
        Instruction::ADC(src) => spec_exec_alu(s, i, src),
        Instruction::SUB(src) => spec_exec_alu(s, i, src),
        Instruction::SBC(src) => spec_exec_alu(s, i, src),
        Instruction::AND(src) => spec_exec_alu(s, i, src),
        Instruction::XOR(src) => spec_exec_alu(s, i, src),
        Instruction::OR(src) => spec_exec_alu(s, i, src),
        Instruction::CP(src) => spec_exec_alu(s, i, src),
        Instruction::INC(t) => spec_exec_inc(s, t),
        Instruction::DEC(t) => spec_exec_dec(s, t),
        Instruction::ADDHL(src) => spec_exec_addhl(s, src),
        Instruction::ADDSP => spec_exec_addsp(s),
        Instruction::DAA => spec_exec_daa(s),
        _ => Err(Fault::UnsupportedOperand),
    }
}

/// The transfer quarter of the instruction set: the three load shapes and
/// the extended-table rotates, shifts and bit operations.
pub open spec fn spec_execute_transfer(s: CpuS, i: Instruction) -> Result<CpuS, Fault> {
    match i {
        Instruction::LD(lt) => match lt {
            LoadType::Byte(tgt, src) => spec_exec_ld_byte(s, tgt, src),
            LoadType::Word(tgt, src) => spec_exec_ld_word(s, tgt, src),
            LoadType::HLFromSPN => spec_exec_hlspn(s),
        },
        Instruction::RLC(t) => spec_exec_rot(s, i, t),
        Instruction::RRC(t) => spec_exec_rot(s, i, t),
        Instruction::RL(t) => spec_exec_rot(s, i, t),
        Instruction::RR(t) => spec_exec_rot(s, i, t),
        Instruction::SLA(t) => spec_exec_rot(s, i, t),
        Instruction::SRA(t) => spec_exec_rot(s, i, t),
        Instruction::SWAP(t) => spec_exec_rot(s, i, t),
        Instruction::SRL(t) => spec_exec_rot(s, i, t),
        Instruction::BIT(b, t) => spec_exec_bit(s, b, t),
        Instruction::RES(b, t) => spec_exec_setres(s, b, t, false),
        Instruction::SETB(b, t) => spec_exec_setres(s, b, t, true),
        _ => Err(Fault::UnsupportedOperand),
    }
}

/// The data half of the instruction set: what each does when the machine
/// is not halted. Instructions of the other half fall through to the
/// unsupported-operand fault, which dispatch never lets happen.
pub open spec fn spec_execute_main(s: CpuS, i: Instruction) -> Result<CpuS, Fault> {
    if spec_is_arith(i) {
        spec_execute_arith(s, i)
    } else {
        spec_execute_transfer(s, i)
    }
}

/// What one instruction does to the whole machine, or the fault it raises.
/// A halted machine executes nothing and stands still until an outside
/// event clears the halt.
pub open spec fn spec_execute(s: CpuS, i: Instruction) -> Result<CpuS, Fault> {
    if s.is_halted {
        Ok(s)
    } else if spec_is_control(i) {
        spec_execute_control(s, i)
    } else {
        spec_execute_main(s, i)
    }
}

/// One whole step: fetch the opcode at the counter, fetch the extended
/// opcode after the sentinel byte, decode, execute. An opcode with no
/// mapping is a fault naming the counter and the byte.
pub open spec fn spec_step(s: CpuS) -> Result<CpuS, Fault> {
    match spec_read8(s.mem, s.pc) {
        Err(e) => Err(e),
        Ok(b0) => {
            if b0 == 0xCB {
                match spec_read8(s.mem, s.pc.wrapping_add(1)) {
                    Err(e) => Err(e),
                    Ok(b1) => spec_execute(s, crate::instruction::spec_decode_prefixed(b1)),
                }
            } else {
                match crate::instruction::spec_decode_base(b0) {
                    None => Err(Fault::UnknownInstruction(s.pc, b0)),
                    Some(i) => spec_execute(s, i),
                }
            }
        },
    }
}

/// The control instructions, as one family: dispatching splits the
/// instruction set in two so each half verifies on its own.
pub open spec fn spec_is_control(i: Instruction) -> bool {
    match i {
        Instruction::NOP | Instruction::HALT | Instruction::STOP | Instruction::DI
            | Instruction::EI | Instruction::SCF | Instruction::CPL | Instruction::CCF
            | Instruction::JPHL | Instruction::RLCA | Instruction::RRCA | Instruction::RLA
            | Instruction::RRA | Instruction::JP(_) | Instruction::JR(_) | Instruction::CALL(_)
            | Instruction::RET(_) | Instruction::RETI | Instruction::RST(_) | Instruction::PUSH(_)
            | Instruction::POP(_) => true,
        _ => false,
    }
}

/// The arithmetic instructions among the data half: a second split, so
/// each dispatch quarter verifies on its own.
pub open spec fn spec_is_arith(i: Instruction) -> bool {
    match i {
        Instruction::ADD(_) | Instruction::ADC(_) | Instruction::SUB(_) | Instruction::SBC(_)
            | Instruction::AND(_) | Instruction::XOR(_) | Instruction::OR(_) | Instruction::CP(_)
            | Instruction::INC(_) | Instruction::DEC(_) | Instruction::ADDHL(_)
            | Instruction::ADDSP | Instruction::DAA => true,
        _ => false,
    }
}

/// The execution engine: the register file, program counter, stack
/// pointer, the halt and interrupt-enable flags, and the address bus it
/// owns.
pub struct CPU {
    pub registers: Registers,
    pub pc: u16,
    pub sp: u16,
    pub bus: MemoryBus,
    pub is_halted: bool,
    pub interrupts_enabled: bool,
}

impl CPU {
    pub open spec fn wf(&self) -> bool {
        self.bus.wf()
    }

    /// The machine state the model speaks of.
    pub open spec fn state(&self) -> CpuS {
        CpuS {
            regs: self.registers,
            pc: self.pc,
            sp: self.sp,
            is_halted: self.is_halted,
            ime: self.interrupts_enabled,
            mem: self.bus.contents(),
        }
    }

    /// The display timing unit's non-memory state; the engine never
    /// touches it.
    pub open spec fn gaux(&self) -> (Seq<u32>, Seq<u8>, crate::gpu::ReadMode, u32, u32, u8, u8, u8) {
        self.bus.gpu_aux()
    }

    /// Power-on: zeroed registers and counters, not halted, interrupts
    /// disabled, running against the given bus.
    pub fn new(bus: MemoryBus) -> (c: CPU)
        requires
            bus.wf(),
        ensures
            c.wf(),
            c.registers == (Registers {
                a: 0,
                b: 0,
                c: 0,
                d: 0,
                e: 0,
                f: FlagsRegister { zero: false, subtract: false, half_carry: false, carry: false },
                h: 0,
                l: 0,
            }),
            c.pc == 0,
            c.sp == 0,
            c.is_halted == false,
            c.interrupts_enabled == false,
            c.bus == bus,
    {
        CPU {
            registers: Registers::new(),
            pc: 0,
            sp: 0,
            bus,
            is_halted: false,
            interrupts_enabled: false,
        }
    }

    /// A fault-checked read through the bus.
    fn read8(&self, addr: u16) -> (r: Result<u8, Fault>)
        requires
            self.wf(),
        ensures
            r == spec_read8(self.state().mem, addr),
    {
        if MemoryBus::is_readable(addr) {
            Ok(self.bus.read_byte(addr))
        } else {
            Err(Fault::InvalidRead(addr))
        }
    }

    /// A fault-checked 16-bit read: low byte first.
    fn read16(&self, addr: u16) -> (r: Result<u16, Fault>)
        requires
            self.wf(),
        ensures
            r == spec_read16(self.state().mem, addr),
    {
        match self.read8(addr) {
            Err(e) => Err(e),
            Ok(lo) => match self.read8(addr.wrapping_add(1)) {
                Err(e) => Err(e),
                Ok(hi) => Ok((hi as u16) * 256 + (lo as u16)),
            },
        }
    }

    /// A fault-checked write through the bus. On success only the
    /// addressed byte changes; on a fault nothing does.
    fn write8(&mut self, addr: u16, v: u8) -> (r: Result<(), Fault>)
        requires
            old(self).wf(),
        ensures
            final(self).wf(),
            final(self).gaux() == old(self).gaux(),
            final(self).registers == old(self).registers,
            final(self).pc == old(self).pc,
            final(self).sp == old(self).sp,
            final(self).is_halted == old(self).is_halted,
            final(self).interrupts_enabled == old(self).interrupts_enabled,
            match spec_write8(old(self).state().mem, addr, v) {
                Ok(m) => r == Ok::<(), Fault>(()) && final(self).state().mem == m,
                Err(e) => r == Err::<(), Fault>(e) && final(self).state() == old(self).state(),
            },
    {
        if MemoryBus::is_writable(addr) {
            self.bus.write_byte(addr, v);
            Ok(())
        } else {
            Err(Fault::InvalidWrite(addr))
        }
    }

    /// The byte right after the opcode.
    pub fn read_next_byte(&self) -> (r: Result<u8, Fault>)
        requires
            self.wf(),
        ensures
            r == spec_read8(self.state().mem, self.pc.wrapping_add(1)),
    {
        self.read8(self.pc.wrapping_add(1))
    }

    /// The immediate word right after the opcode, low byte first.
    pub fn read_next_word(&self) -> (r: Result<u16, Fault>)
        requires
            self.wf(),
        ensures
            r == spec_read16(self.state().mem, self.pc.wrapping_add(1)),
    {
        self.read16(self.pc.wrapping_add(1))
    }

    /// Whether a conditional transfer takes its branch under the current
    /// flags.
    pub fn should_jump(&self, test: &JumpTest) -> (b: bool)
        ensures
            b == spec_cond(self.registers.f, *test),
    {
        match test {
            JumpTest::NotZero => !self.registers.f.zero,
            JumpTest::Zero => self.registers.f.zero,
            JumpTest::NotCarry => !self.registers.f.carry,
            JumpTest::Carry => self.registers.f.carry,
            JumpTest::Always => true,
        }
    }

    /// Adds an operand (plus the carry flag when asked) into the
    /// accumulator's value, updating the flags; the caller stores the
    /// result.
    pub fn add(&mut self, value: u8, with_carry: bool) -> (r: u8)
        ensures
            ({
                let c: int = if with_carry && old(self).registers.f.carry {
                    1
                } else {
                    0
                };
                let (rr, nf) = spec_alu_add(old(self).registers.a, value, c);
                r == rr && final(self).registers == (Registers { f: nf, ..old(self).registers })
            }),
            final(self).pc == old(self).pc,
            final(self).sp == old(self).sp,
            final(self).bus == old(self).bus,
            final(self).is_halted == old(self).is_halted,
            final(self).interrupts_enabled == old(self).interrupts_enabled,
    {
        let carry: u16 = if with_carry && self.registers.f.carry {
            1
        } else {
            0
        };
        let a = self.registers.a;
        let sum: u16 = a as u16 + value as u16 + carry;
        let new_value = (sum % 256) as u8;
        self.registers.f.zero = new_value == 0;
        self.registers.f.subtract = false;
        self.registers.f.carry = sum > 255;
        self.registers.f.half_carry = a % 16 + value % 16 + (carry as u8) > 15;
        new_value
    }

    /// Subtracts an operand (plus the carry flag when asked) from the
    /// accumulator's value, updating the flags; the caller stores the
    /// result.
    pub fn sub(&mut self, value: u8, with_carry: bool) -> (r: u8)
        ensures
            ({
                let c: int = if with_carry && old(self).registers.f.carry {
                    1
                } else {
                    0
                };
                let (rr, nf) = spec_alu_sub(old(self).registers.a, value, c);
                r == rr && final(self).registers == (Registers { f: nf, ..old(self).registers })
            }),
            final(self).pc == old(self).pc,
            final(self).sp == old(self).sp,
            final(self).bus == old(self).bus,
            final(self).is_halted == old(self).is_halted,
            final(self).interrupts_enabled == old(self).interrupts_enabled,
    {
        let carry: u16 = if with_carry && self.registers.f.carry {
            1
        } else {
            0
        };
        let a = self.registers.a;
        let vc: u16 = value as u16 + carry;
        let new_value = ((a as u16 + 256 - vc) % 256) as u8;
        proof {
            vstd::arithmetic::div_mod::lemma_mod_add_multiples_vanish(
                a as int - vc as int,
                256,
            );
        }
        self.registers.f.zero = new_value == 0;
        self.registers.f.subtract = true;
        self.registers.f.half_carry = (value % 16) as u16 + carry > (a % 16) as u16;
        self.registers.f.carry = vc > a as u16;
        new_value
    }

    /// Increments a byte, updating all flags but carry; the caller stores
    /// the result.
    pub fn inc(&mut self, value: u8) -> (r: u8)
        ensures
            ({
                let (rr, nf) = spec_alu_inc(value, old(self).registers.f);
                r == rr && final(self).registers == (Registers { f: nf, ..old(self).registers })
            }),
            final(self).pc == old(self).pc,
            final(self).sp == old(self).sp,
            final(self).bus == old(self).bus,
            final(self).is_halted == old(self).is_halted,
            final(self).interrupts_enabled == old(self).interrupts_enabled,
    {
        let new_value = value.wrapping_add(1);
        self.registers.f.zero = new_value == 0;
        self.registers.f.subtract = false;
        self.registers.f.half_carry = value % 16 == 15;
        new_value
    }

    /// Decrements a byte, updating all flags but carry; the caller stores
    /// the result.
    pub fn dec(&mut self, value: u8) -> (r: u8)
        ensures
            ({
                let (rr, nf) = spec_alu_dec(value, old(self).registers.f);
                r == rr && final(self).registers == (Registers { f: nf, ..old(self).registers })
            }),
            final(self).pc == old(self).pc,
            final(self).sp == old(self).sp,
            final(self).bus == old(self).bus,
            final(self).is_halted == old(self).is_halted,
            final(self).interrupts_enabled == old(self).interrupts_enabled,
    {
        let new_value = value.wrapping_sub(1);
        self.registers.f.zero = new_value == 0;
        self.registers.f.subtract = true;
        self.registers.f.half_carry = value % 16 == 0;
        new_value
    }

    /// Bitwise AND with the accumulator, updating the flags; the caller
    /// stores the result.
    pub fn and(&mut self, value: u8) -> (r: u8)
        ensures
            ({
                let (rr, nf) = spec_alu_and(old(self).registers.a, value);
                r == rr && final(self).registers == (Registers { f: nf, ..old(self).registers })
            }),
            final(self).pc == old(self).pc,
            final(self).sp == old(self).sp,
            final(self).bus == old(self).bus,
            final(self).is_halted == old(self).is_halted,
            final(self).interrupts_enabled == old(self).interrupts_enabled,
    {
        let new_value = self.registers.a & value;
        self.registers.f.zero = new_value == 0;
        self.registers.f.subtract = false;
        self.registers.f.half_carry = true;
        self.registers.f.carry = false;
        new_value
    }

    /// Bitwise XOR with the accumulator, updating the flags; the caller
    /// stores the result.
    pub fn xor(&mut self, value: u8) -> (r: u8)
        ensures
            ({
                let (rr, nf) = spec_alu_xor(old(self).registers.a, value);
                r == rr && final(self).registers == (Registers { f: nf, ..old(self).registers })
            }),
            final(self).pc == old(self).pc,
            final(self).sp == old(self).sp,
            final(self).bus == old(self).bus,
            final(self).is_halted == old(self).is_halted,
            final(self).interrupts_enabled == old(self).interrupts_enabled,
    {
        let new_value = self.registers.a ^ value;
        self.registers.f.zero = new_value == 0;
        self.registers.f.subtract = false;
        self.registers.f.half_carry = false;
        self.registers.f.carry = false;
        new_value
    }

    /// Bitwise OR with the accumulator, updating the flags; the caller
    /// stores the result.
    pub fn or(&mut self, value: u8) -> (r: u8)
        ensures
            ({
                let (rr, nf) = spec_alu_or(old(self).registers.a, value);
                r == rr && final(self).registers == (Registers { f: nf, ..old(self).registers })
            }),
            final(self).pc == old(self).pc,
            final(self).sp == old(self).sp,
            final(self).bus == old(self).bus,
            final(self).is_halted == old(self).is_halted,
            final(self).interrupts_enabled == old(self).interrupts_enabled,
    {
        let new_value = self.registers.a | value;
        self.registers.f.zero = new_value == 0;
        self.registers.f.subtract = false;
        self.registers.f.half_carry = false;
        self.registers.f.carry = false;
        new_value
    }

    /// Compares an operand against the accumulator: the borrow flags of
    /// the subtraction, with the result discarded.
    pub fn cp(&mut self, value: u8)
        ensures
            ({
                let (rr, nf) = spec_alu_sub(old(self).registers.a, value, 0);
                final(self).registers == (Registers { f: nf, ..old(self).registers })
            }),
            final(self).pc == old(self).pc,
            final(self).sp == old(self).sp,
            final(self).bus == old(self).bus,
            final(self).is_halted == old(self).is_halted,
            final(self).interrupts_enabled == old(self).interrupts_enabled,
    {
        let a = self.registers.a;
        let r = ((a as u16 + 256 - value as u16) % 256) as u8;
        proof {
            vstd::arithmetic::div_mod::lemma_mod_add_multiples_vanish(
                a as int - value as int,
                256,
            );
        }
        self.registers.f.zero = r == 0;
        self.registers.f.subtract = true;
        self.registers.f.half_carry = value % 16 > a % 16;
        self.registers.f.carry = value > a;
    }

    /// Pushes a word: high byte one below the stack pointer, low byte
    /// below that; the stack pointer ends two lower.
    pub fn push(&mut self, value: u16) -> (r: Result<(), Fault>)
        requires
            old(self).wf(),
        ensures
            final(self).wf(),
            final(self).gaux() == old(self).gaux(),
            match spec_push16(old(self).state(), value) {
                Ok(s2) => r == Ok::<(), Fault>(()) && final(self).state() == s2,
                Err(e) => r == Err::<(), Fault>(e),
            },
    {
        let sp1 = self.sp.wrapping_sub(1);
        let sp2 = self.sp.wrapping_sub(2);
        match self.write8(sp1, (value / 256) as u8) {
            Err(e) => Err(e),
            Ok(()) => match self.write8(sp2, (value % 256) as u8) {
                Err(e) => Err(e),
                Ok(()) => {
                    self.sp = sp2;
                    Ok(())
                },
            },
        }
    }

    /// Pops a word: low byte from the stack pointer, high byte from one
    /// above; the stack pointer ends two higher. A fault leaves the
    /// machine untouched.
    pub fn pop(&mut self) -> (r: Result<u16, Fault>)
        requires
            old(self).wf(),
        ensures
            final(self).wf(),
            final(self).gaux() == old(self).gaux(),
            match spec_pop16(old(self).state()) {
                Ok((v, s2)) => r == Ok::<u16, Fault>(v) && final(self).state() == s2,
                Err(e) => r == Err::<u16, Fault>(e) && final(self).state() == old(self).state(),
            },
    {
        match self.read8(self.sp) {
            Err(e) => Err(e),
            Ok(lo) => match self.read8(self.sp.wrapping_add(1)) {
                Err(e) => Err(e),
                Ok(hi) => {
                    self.sp = self.sp.wrapping_add(2);
                    Ok((hi as u16) * 256 + (lo as u16))
                },
            },
        }
    }

    /// The next counter of an absolute jump: the immediate word when the
    /// branch is taken, the address past the three-byte encoding
    /// otherwise.
    pub fn jump(&self, should_jump: bool) -> (r: Result<u16, Fault>)
        requires
            self.wf(),
        ensures
            should_jump ==> r == spec_read16(self.state().mem, self.pc.wrapping_add(1)),
            !should_jump ==> r == Ok::<u16, Fault>(self.pc.wrapping_add(3)),
    {
        if should_jump {
            self.read16(self.pc.wrapping_add(1))
        } else {
            Ok(self.pc.wrapping_add(3))
        }
    }

    /// A call: when taken, pushes the address after the three-byte
    /// encoding and returns the immediate target, read after the push;
    /// otherwise returns the fall-through address. The caller stores the
    /// counter.
    pub fn call(&mut self, should_jump: bool) -> (r: Result<u16, Fault>)
        requires
            old(self).wf(),
        ensures
            final(self).wf(),
            final(self).gaux() == old(self).gaux(),
            !should_jump ==> r == Ok::<u16, Fault>(old(self).pc.wrapping_add(3)) && final(self).state()
                == old(self).state(),
            should_jump ==> match spec_push16(old(self).state(), old(self).pc.wrapping_add(3)) {
                Err(e) => r == Err::<u16, Fault>(e),
                Ok(s2) => match spec_read16(s2.mem, old(self).pc.wrapping_add(1)) {
                    Err(e) => r == Err::<u16, Fault>(e),
                    Ok(t) => r == Ok::<u16, Fault>(t) && final(self).state() == s2,
                },
            },
    {
        let next_pc = self.pc.wrapping_add(3);
        if should_jump {
            match self.push(next_pc) {
                Err(e) => Err(e),
                Ok(()) => self.read_next_word(),
            }
        } else {
            Ok(next_pc)
        }
    }

    /// One accumulator operation: fetch the operand named by `src`, apply
    /// the operation `i` names, store the result (unless comparing), and
    /// advance past the encoding.
    fn exec_alu(&mut self, i: Instruction, src: Source) -> (r: Result<(), Fault>)
        requires
            old(self).wf(),
        ensures
            final(self).wf(),
            final(self).gaux() == old(self).gaux(),
            match r {
                Ok(()) => spec_exec_alu(old(self).state(), i, src) == Ok::<CpuS, Fault>(
                    final(self).state(),
                ),
                Err(e) => spec_exec_alu(old(self).state(), i, src) == Err::<CpuS, Fault>(e),
            },
    {
        let v: u8 = match src {
            Target::A => self.registers.a,
            Target::B => self.registers.b,
            Target::C => self.registers.c,
            Target::D => self.registers.d,
            Target::E => self.registers.e,
            Target::H => self.registers.h,
            Target::L => self.registers.l,
            Target::IndirectHL => match self.read8(self.registers.get_hl()) {
                Ok(v) => v,
                Err(e) => {
                    return Err(e);
                },
            },
            Target::D8 => match self.read8(self.pc.wrapping_add(1)) {
                Ok(v) => v,
                Err(e) => {
                    return Err(e);
                },
            },
            _ => {
                return Err(Fault::UnsupportedOperand);
            },
        };
        match i {
            Instruction::ADD(_) => {
                let x = self.add(v, false);
                self.registers.a = x;
            },
            Instruction::ADC(_) => {
                let x = self.add(v, true);
                self.registers.a = x;
            },
            Instruction::SUB(_) => {
                let x = self.sub(v, false);
                self.registers.a = x;
            },
            Instruction::SBC(_) => {
                let x = self.sub(v, true);
                self.registers.a = x;
            },
            Instruction::AND(_) => {
                let x = self.and(v);
                self.registers.a = x;
            },
            Instruction::XOR(_) => {
                let x = self.xor(v);
                self.registers.a = x;
            },
            Instruction::OR(_) => {
                let x = self.or(v);
                self.registers.a = x;
            },
            Instruction::CP(_) => {
                self.cp(v);
            },
            _ => {},
        }
        let len: u16 = if src == Target::D8 {
            2
        } else {
            1
        };
        self.pc = self.pc.wrapping_add(len);
        Ok(())
    }

    /// One increment, over any of its operand shapes.
    fn exec_inc(&mut self, t: Target) -> (r: Result<(), Fault>)
        requires
            old(self).wf(),
        ensures
            final(self).wf(),
            final(self).gaux() == old(self).gaux(),
            match r {
                Ok(()) => spec_exec_inc(old(self).state(), t) == Ok::<CpuS, Fault>(
                    final(self).state(),
                ),
                Err(e) => spec_exec_inc(old(self).state(), t) == Err::<CpuS, Fault>(e),
            },
    {
        match t {
            Target::BC => {
                let v = self.registers.get_bc().wrapping_add(1);
                self.registers.set_bc(v);
            },
            Target::DE => {
                let v = self.registers.get_de().wrapping_add(1);
                self.registers.set_de(v);
            },
            Target::HL => {
                let v = self.registers.get_hl().wrapping_add(1);
                self.registers.set_hl(v);
            },
            Target::SP => {
                self.sp = self.sp.wrapping_add(1);
            },
            Target::A => {
                let x = self.inc(self.registers.a);
                self.registers.a = x;
            },
            Target::B => {
                let x = self.inc(self.registers.b);
                self.registers.b = x;
            },
            Target::C => {
                let x = self.inc(self.registers.c);
                self.registers.c = x;
            },
            Target::D => {
                let x = self.inc(self.registers.d);
                self.registers.d = x;
            },
            Target::E => {
                let x = self.inc(self.registers.e);
                self.registers.e = x;
            },
            Target::H => {
                let x = self.inc(self.registers.h);
                self.registers.h = x;
            },
            Target::L => {
                let x = self.inc(self.registers.l);
                self.registers.l = x;
            },
            Target::IndirectHL => {
                let addr = self.registers.get_hl();
                let v = match self.read8(addr) {
                    Ok(v) => v,
                    Err(e) => {
                        return Err(e);
                    },
                };
                let x = self.inc(v);
                match self.write8(addr, x) {
                    Ok(()) => {},
                    Err(e) => {
                        return Err(e);
                    },
                }
            },
            _ => {
                return Err(Fault::UnsupportedOperand);
            },
        }
        self.pc = self.pc.wrapping_add(1);
        Ok(())
    }

    /// One decrement, over any of its operand shapes.
    fn exec_dec(&mut self, t: Target) -> (r: Result<(), Fault>)
        requires
            old(self).wf(),
        ensures
            final(self).wf(),
            final(self).gaux() == old(self).gaux(),
            match r {
                Ok(()) => spec_exec_dec(old(self).state(), t) == Ok::<CpuS, Fault>(
                    final(self).state(),
                ),
                Err(e) => spec_exec_dec(old(self).state(), t) == Err::<CpuS, Fault>(e),
            },
    {
        match t {
            Target::BC => {
                let v = self.registers.get_bc().wrapping_sub(1);
                self.registers.set_bc(v);
            },
            Target::DE => {
                let v = self.registers.get_de().wrapping_sub(1);
                self.registers.set_de(v);
            },
            Target::HL => {
                let v = self.registers.get_hl().wrapping_sub(1);
                self.registers.set_hl(v);
            },
            Target::SP => {
                self.sp = self.sp.wrapping_sub(1);
            },
            Target::A => {
                let x = self.dec(self.registers.a);
                self.registers.a = x;
            },
            Target::B => {
                let x = self.dec(self.registers.b);
                self.registers.b = x;
            },
            Target::C => {
                let x = self.dec(self.registers.c);
                self.registers.c = x;
            },
            Target::D => {
                let x = self.dec(self.registers.d);
                self.registers.d = x;
            },
            Target::E => {
                let x = self.dec(self.registers.e);
                self.registers.e = x;
            },
            Target::H => {
                let x = self.dec(self.registers.h);
                self.registers.h = x;
            },
            Target::L => {
                let x = self.dec(self.registers.l);
                self.registers.l = x;
            },
            Target::IndirectHL => {
                let addr = self.registers.get_hl();
                let v = match self.read8(addr) {
                    Ok(v) => v,
                    Err(e) => {
                        return Err(e);
                    },
                };
                let x = self.dec(v);
                match self.write8(addr, x) {
                    Ok(()) => {},
                    Err(e) => {
                        return Err(e);
                    },
                }
            },
            _ => {
                return Err(Fault::UnsupportedOperand);
            },
        }
        self.pc = self.pc.wrapping_add(1);
        Ok(())
    }

    /// One byte load: source fetch (with its HL side effect), target store
    /// (with its HL side effect), counter past the whole encoding.
    fn exec_ld_byte(&mut self, tgt: LoadByteTarget, src: LoadByteSource) -> (r: Result<(), Fault>)
        requires
            old(self).wf(),
        ensures
            final(self).wf(),
            final(self).gaux() == old(self).gaux(),
            match r {
                Ok(()) => spec_exec_ld_byte(old(self).state(), tgt, src) == Ok::<CpuS, Fault>(
                    final(self).state(),
                ),
                Err(e) => spec_exec_ld_byte(old(self).state(), tgt, src) == Err::<CpuS, Fault>(e),
            },
    {
        let v: u8 = match self.ld_fetch(src) {
            Ok(v) => v,
            Err(e) => {
                return Err(e);
            },
        };
        match self.ld_store(tgt, v) {
            Ok(()) => {},
            Err(e) => {
                return Err(e);
            },
        }
        let sl = ld_src_imm_len(src);
        let tl = ld_tgt_imm_len(tgt);
        self.pc = self.pc.wrapping_add(1).wrapping_add(sl).wrapping_add(tl);
        Ok(())
    }

    /// The byte a load source names, with the post-increment and
    /// post-decrement forms moving HL; fetching never writes memory.
    fn ld_fetch(&mut self, src: LoadByteSource) -> (r: Result<u8, Fault>)
        requires
            old(self).wf(),
        ensures
            final(self).wf(),
            final(self).gaux() == old(self).gaux(),
            final(self).pc == old(self).pc,
            final(self).sp == old(self).sp,
            final(self).bus == old(self).bus,
            final(self).is_halted == old(self).is_halted,
            final(self).interrupts_enabled == old(self).interrupts_enabled,
            match spec_ld_src_val(old(self).state(), src) {
                Ok((v, regs1)) => r == Ok::<u8, Fault>(v) && final(self).registers == regs1,
                Err(e) => r == Err::<u8, Fault>(e),
            },
    {
        let v: u8 = match src {
            LoadByteSource::A => self.registers.a,
            LoadByteSource::B => self.registers.b,
            LoadByteSource::C => self.registers.c,
            LoadByteSource::D => self.registers.d,
            LoadByteSource::E => self.registers.e,
            LoadByteSource::H => self.registers.h,
            LoadByteSource::L => self.registers.l,
            LoadByteSource::D8 => match self.read_next_byte() {
                Ok(v) => v,
                Err(e) => {
                    return Err(e);
                },
            },
            LoadByteSource::N16I => {
                let addr = match self.read_next_word() {
                    Ok(a) => a,
                    Err(e) => {
                        return Err(e);
                    },
                };
                match self.read8(addr) {
                    Ok(v) => v,
                    Err(e) => {
                        return Err(e);
                    },
                }
            },
            LoadByteSource::N8I => {
                let off = match self.read_next_byte() {
                    Ok(v) => v,
                    Err(e) => {
                        return Err(e);
                    },
                };
                match self.read8(0xFF00 + off as u16) {
                    Ok(v) => v,
                    Err(e) => {
                        return Err(e);
                    },
                }
            },
            LoadByteSource::CI => match self.read8(0xFF00 + self.registers.c as u16) {
                Ok(v) => v,
                Err(e) => {
                    return Err(e);
                },
            },
            LoadByteSource::HLI => match self.read8(self.registers.get_hl()) {
                Ok(v) => v,
                Err(e) => {
                    return Err(e);
                },
            },
            LoadByteSource::BCI => match self.read8(self.registers.get_bc()) {
                Ok(v) => v,
                Err(e) => {
                    return Err(e);
                },
            },
            LoadByteSource::DEI => match self.read8(self.registers.get_de()) {
                Ok(v) => v,
                Err(e) => {
                    return Err(e);
                },
            },
            LoadByteSource::HLINCR => {
                let addr = self.registers.get_hl();
                let v = match self.read8(addr) {
                    Ok(v) => v,
                    Err(e) => {
                        return Err(e);
                    },
                };
                self.registers.set_hl(addr.wrapping_add(1));
                v
            },
            LoadByteSource::HLDECR => {
                let addr = self.registers.get_hl();
                let v = match self.read8(addr) {
                    Ok(v) => v,
                    Err(e) => {
                        return Err(e);
                    },
                };
                self.registers.set_hl(addr.wrapping_sub(1));
                v
            },
        };
        Ok(v)
    }

    /// Stores a loaded byte into its target, with the post-increment and
    /// post-decrement forms moving HL after the write.
    fn ld_store(&mut self, tgt: LoadByteTarget, v: u8) -> (r: Result<(), Fault>)
        requires
            old(self).wf(),
        ensures
            final(self).wf(),
            final(self).gaux() == old(self).gaux(),
            final(self).pc == old(self).pc,
            final(self).sp == old(self).sp,
            final(self).is_halted == old(self).is_halted,
            final(self).interrupts_enabled == old(self).interrupts_enabled,
            match spec_ld_store(old(self).state().mem, old(self).pc, old(self).registers, tgt, v) {
                Ok((regs2, m)) => r == Ok::<(), Fault>(()) && final(self).registers == regs2
                    && final(self).state().mem == m,
                Err(e) => r == Err::<(), Fault>(e),
            },
    {
        match tgt {
            LoadByteTarget::A => {
                self.registers.a = v;
            },
            LoadByteTarget::B => {
                self.registers.b = v;
            },
            LoadByteTarget::C => {
                self.registers.c = v;
            },
            LoadByteTarget::D => {
                self.registers.d = v;
            },
            LoadByteTarget::E => {
                self.registers.e = v;
            },
            LoadByteTarget::H => {
                self.registers.h = v;
            },
            LoadByteTarget::L => {
                self.registers.l = v;
            },
            LoadByteTarget::N16I => {
                let addr = match self.read_next_word() {
                    Ok(a) => a,
                    Err(e) => {
                        return Err(e);
                    },
                };
                match self.write8(addr, v) {
                    Ok(()) => {},
                    Err(e) => {
                        return Err(e);
                    },
                }
            },
            LoadByteTarget::N8I => {
                let off = match self.read_next_byte() {
                    Ok(o) => o,
                    Err(e) => {
                        return Err(e);
                    },
                };
                match self.write8(0xFF00 + off as u16, v) {
                    Ok(()) => {},
                    Err(e) => {
                        return Err(e);
                    },
                }
            },
            LoadByteTarget::CI => {
                match self.write8(0xFF00 + self.registers.c as u16, v) {
                    Ok(()) => {},
                    Err(e) => {
                        return Err(e);
                    },
                }
            },
            LoadByteTarget::HLI => {
                match self.write8(self.registers.get_hl(), v) {
                    Ok(()) => {},
                    Err(e) => {
                        return Err(e);
                    },
                }
            },
            LoadByteTarget::BCI => {
                match self.write8(self.registers.get_bc(), v) {
                    Ok(()) => {},
                    Err(e) => {
                        return Err(e);
                    },
                }
            },
            LoadByteTarget::DEI => {
                match self.write8(self.registers.get_de(), v) {
                    Ok(()) => {},
                    Err(e) => {
                        return Err(e);
                    },
                }
            },
            LoadByteTarget::HLINCR => {
                let addr = self.registers.get_hl();
                match self.write8(addr, v) {
                    Ok(()) => {},
                    Err(e) => {
                        return Err(e);
                    },
                }
                self.registers.set_hl(addr.wrapping_add(1));
            },
            LoadByteTarget::HLDECR => {
                let addr = self.registers.get_hl();
                match self.write8(addr, v) {
                    Ok(()) => {},
                    Err(e) => {
                        return Err(e);
                    },
                }
                self.registers.set_hl(addr.wrapping_sub(1));
            },
        }
        Ok(())
    }

    /// One word load, over any of its operand shapes.
    fn exec_ld_word(&mut self, tgt: LoadWordTarget, src: LoadWordSource) -> (r: Result<(), Fault>)
        requires
            old(self).wf(),
        ensures
            final(self).wf(),
            final(self).gaux() == old(self).gaux(),
            match r {
                Ok(()) => spec_exec_ld_word(old(self).state(), tgt, src) == Ok::<CpuS, Fault>(
                    final(self).state(),
                ),
                Err(e) => spec_exec_ld_word(old(self).state(), tgt, src) == Err::<CpuS, Fault>(e),
            },
    {
        let len: u16 = 1 + (if src == LoadWordSource::D16 {
            2
        } else {
            0
        }) + (if tgt == LoadWordTarget::N16I {
            2
        } else {
            0
        });
        let v: u16 = match src {
            LoadWordSource::D16 => match self.read_next_word() {
                Ok(v) => v,
                Err(e) => {
                    return Err(e);
                },
            },
            LoadWordSource::SP => self.sp,
            LoadWordSource::HL => self.registers.get_hl(),
        };
        match tgt {
            LoadWordTarget::BC => {
                self.registers.set_bc(v);
            },
            LoadWordTarget::DE => {
                self.registers.set_de(v);
            },
            LoadWordTarget::HL => {
                self.registers.set_hl(v);
            },
            LoadWordTarget::SP => {
                self.sp = v;
            },
            LoadWordTarget::N16I => {
                let addr = match self.read_next_word() {
                    Ok(a) => a,
                    Err(e) => {
                        return Err(e);
                    },
                };
                match self.write8(addr, (v % 256) as u8) {
                    Ok(()) => {},
                    Err(e) => {
                        return Err(e);
                    },
                }
                match self.write8(addr.wrapping_add(1), (v / 256) as u8) {
                    Ok(()) => {},
                    Err(e) => {
                        return Err(e);
                    },
                }
            },
        }
        self.pc = self.pc.wrapping_add(len);
        Ok(())
    }

    /// One rotate, shift or swap of the extended table.
    fn exec_rot(&mut self, i: Instruction, t: PrefixTarget) -> (r: Result<(), Fault>)
        requires
            old(self).wf(),
        ensures
            final(self).wf(),
            final(self).gaux() == old(self).gaux(),
            match r {
                Ok(()) => spec_exec_rot(old(self).state(), i, t) == Ok::<CpuS, Fault>(
                    final(self).state(),
                ),
                Err(e) => spec_exec_rot(old(self).state(), i, t) == Err::<CpuS, Fault>(e),
            },
    {
        let v: u8 = match self.prefix_operand(t) {
            Ok(v) => v,
            Err(e) => {
                return Err(e);
            },
        };
        let (x, nf) = rot_apply(i, v, self.registers.f);
        match t {
            PrefixTarget::A => {
                self.registers.a = x;
            },
            PrefixTarget::B => {
                self.registers.b = x;
            },
            PrefixTarget::C => {
                self.registers.c = x;
            },
            PrefixTarget::D => {
                self.registers.d = x;
            },
            PrefixTarget::E => {
                self.registers.e = x;
            },
            PrefixTarget::H => {
                self.registers.h = x;
            },
            PrefixTarget::L => {
                self.registers.l = x;
            },
            PrefixTarget::HLI => {
                match self.write8(self.registers.get_hl(), x) {
                    Ok(()) => {},
                    Err(e) => {
                        return Err(e);
                    },
                }
            },
        }
        self.registers.f = nf;
        self.pc = self.pc.wrapping_add(2);
        Ok(())
    }

    /// The byte an extended-table operand names.
    fn prefix_operand(&self, t: PrefixTarget) -> (r: Result<u8, Fault>)
        requires
            self.wf(),
        ensures
            r == spec_prefix_val(self.state(), t),
    {
        match t {
            PrefixTarget::A => Ok(self.registers.a),
            PrefixTarget::B => Ok(self.registers.b),
            PrefixTarget::C => Ok(self.registers.c),
            PrefixTarget::D => Ok(self.registers.d),
            PrefixTarget::E => Ok(self.registers.e),
            PrefixTarget::H => Ok(self.registers.h),
            PrefixTarget::L => Ok(self.registers.l),
            PrefixTarget::HLI => self.read8(self.registers.get_hl()),
        }
    }

    /// One bit test: flags only, the operand untouched.
    fn exec_bit(&mut self, b: u8, t: PrefixTarget) -> (r: Result<(), Fault>)
        requires
            old(self).wf(),
        ensures
            final(self).wf(),
            final(self).gaux() == old(self).gaux(),
            match r {
                Ok(()) => spec_exec_bit(old(self).state(), b, t) == Ok::<CpuS, Fault>(
                    final(self).state(),
                ),
                Err(e) => spec_exec_bit(old(self).state(), b, t) == Err::<CpuS, Fault>(e),
            },
    {
        if b >= 8 {
            return Err(Fault::UnsupportedOperand);
        }
        let v: u8 = match self.prefix_operand(t) {
            Ok(v) => v,
            Err(e) => {
                return Err(e);
            },
        };
        let bv = bit_value(v, b);
        self.registers.f.zero = bv == 0;
        self.registers.f.subtract = false;
        self.registers.f.half_carry = true;
        self.pc = self.pc.wrapping_add(2);
        Ok(())
    }

    /// One bit clear or bit set: the operand is replaced, flags untouched.
    fn exec_setres(&mut self, b: u8, t: PrefixTarget, set: bool) -> (r: Result<(), Fault>)
        requires
            old(self).wf(),
        ensures
            final(self).wf(),
            final(self).gaux() == old(self).gaux(),
            match r {
                Ok(()) => spec_exec_setres(old(self).state(), b, t, set) == Ok::<CpuS, Fault>(
                    final(self).state(),
                ),
                Err(e) => spec_exec_setres(old(self).state(), b, t, set) == Err::<CpuS, Fault>(e),
            },
    {
        if b >= 8 {
            return Err(Fault::UnsupportedOperand);
        }
        let v: u8 = match self.prefix_operand(t) {
            Ok(v) => v,
            Err(e) => {
                return Err(e);
            },
        };
        let x = if set {
            set_bit_value(v, b)
        } else {
            res_bit_value(v, b)
        };
        match t {
            PrefixTarget::A => {
                self.registers.a = x;
            },
            PrefixTarget::B => {
                self.registers.b = x;
            },
            PrefixTarget::C => {
                self.registers.c = x;
            },
            PrefixTarget::D => {
                self.registers.d = x;
            },
            PrefixTarget::E => {
                self.registers.e = x;
            },
            PrefixTarget::H => {
                self.registers.h = x;
            },
            PrefixTarget::L => {
                self.registers.l = x;
            },
            PrefixTarget::HLI => {
                match self.write8(self.registers.get_hl(), x) {
                    Ok(()) => {},
                    Err(e) => {
                        return Err(e);
                    },
                }
            },
        }
        self.pc = self.pc.wrapping_add(2);
        Ok(())
    }

    /// A return: when taken, pops the counter; otherwise returns the
    /// address past the one-byte encoding. The caller stores the counter.
    pub fn return_(&mut self, should_jump: bool) -> (r: Result<u16, Fault>)
        requires
            old(self).wf(),
        ensures
            final(self).wf(),
            final(self).gaux() == old(self).gaux(),
            !should_jump ==> r == Ok::<u16, Fault>(old(self).pc.wrapping_add(1)) && final(self).state()
                == old(self).state(),
            should_jump ==> match spec_pop16(old(self).state()) {
                Err(e) => r == Err::<u16, Fault>(e) && final(self).state() == old(self).state(),
                Ok((v, s2)) => r == Ok::<u16, Fault>(v) && final(self).state() == s2,
            },
    {
        if should_jump {
            self.pop()
        } else {
            Ok(self.pc.wrapping_add(1))
        }
    }

    /// The 16-bit addition into HL.
    fn exec_addhl(&mut self, src: Source) -> (r: Result<(), Fault>)
        requires
            old(self).wf(),
        ensures
            final(self).wf(),
            final(self).gaux() == old(self).gaux(),
            match r {
                Ok(()) => spec_exec_addhl(old(self).state(), src) == Ok::<CpuS, Fault>(
                    final(self).state(),
                ),
                Err(e) => spec_exec_addhl(old(self).state(), src) == Err::<CpuS, Fault>(e),
            },
    {
        let v: u16 = match src {
            Target::BC => self.registers.get_bc(),
            Target::DE => self.registers.get_de(),
            Target::HL => self.registers.get_hl(),
            Target::SP => self.sp,
            _ => {
                return Err(Fault::UnsupportedOperand);
            },
        };
        let hl = self.registers.get_hl();
        let new_hl = hl.wrapping_add(v);
        self.registers.f.subtract = false;
        self.registers.f.half_carry = hl % 2048 + v % 2048 > 2047;
        self.registers.f.carry = hl as u32 + v as u32 > 65535;
        self.registers.set_hl(new_hl);
        self.pc = self.pc.wrapping_add(1);
        Ok(())
    }

    /// The signed immediate added into the stack pointer.
    fn exec_addsp(&mut self) -> (r: Result<(), Fault>)
        requires
            old(self).wf(),
        ensures
            final(self).wf(),
            final(self).gaux() == old(self).gaux(),
            match r {
                Ok(()) => spec_exec_addsp(old(self).state()) == Ok::<CpuS, Fault>(
                    final(self).state(),
                ),
                Err(e) => spec_exec_addsp(old(self).state()) == Err::<CpuS, Fault>(e),
            },
    {
        let d = match self.read_next_byte() {
            Ok(d) => d,
            Err(e) => {
                return Err(e);
            },
        };
        let new_sp = self.sp.wrapping_add(sign_extend(d));
        self.registers.f.zero = false;
        self.registers.f.subtract = false;
        self.registers.f.half_carry = self.sp % 16 + (d % 16) as u16 > 15;
        self.registers.f.carry = self.sp % 256 + d as u16 > 255;
        self.sp = new_sp;
        self.pc = self.pc.wrapping_add(2);
        Ok(())
    }

    /// The stack pointer plus the signed immediate, loaded into HL.
    fn exec_hlspn(&mut self) -> (r: Result<(), Fault>)
        requires
            old(self).wf(),
        ensures
            final(self).wf(),
            final(self).gaux() == old(self).gaux(),
            match r {
                Ok(()) => spec_exec_hlspn(old(self).state()) == Ok::<CpuS, Fault>(
                    final(self).state(),
                ),
                Err(e) => spec_exec_hlspn(old(self).state()) == Err::<CpuS, Fault>(e),
            },
    {
        let d = match self.read_next_byte() {
            Ok(d) => d,
            Err(e) => {
                return Err(e);
            },
        };
        let r2 = self.sp.wrapping_add(sign_extend(d));
        self.registers.f.zero = false;
        self.registers.f.subtract = false;
        self.registers.f.half_carry = self.sp % 16 + (d % 16) as u16 > 15;
        self.registers.f.carry = self.sp % 256 + d as u16 > 255;
        self.registers.set_hl(r2);
        self.pc = self.pc.wrapping_add(2);
        Ok(())
    }

    /// The decimal correction applied to the accumulator.
    fn exec_daa(&mut self) -> (r: Result<(), Fault>)
        requires
            old(self).wf(),
        ensures
            final(self).wf(),
            final(self).gaux() == old(self).gaux(),
            match r {
                Ok(()) => spec_exec_daa(old(self).state()) == Ok::<CpuS, Fault>(
                    final(self).state(),
                ),
                Err(e) => spec_exec_daa(old(self).state()) == Err::<CpuS, Fault>(e),
            },
    {
        let a = self.registers.a;
        let f = self.registers.f;
        if !f.subtract {
            let carry = f.carry || a > 0x99;
            let a1: u8 = if carry {
                ((a as u16 + 0x60) % 256) as u8
            } else {
                a
            };
            let a2: u8 = if f.half_carry || a1 % 16 > 9 {
                ((a1 as u16 + 6) % 256) as u8
            } else {
                a1
            };
            self.registers.a = a2;
            self.registers.f = FlagsRegister {
                zero: a2 == 0,
                subtract: false,
                half_carry: false,
                carry,
            };
        } else {
            let a1: u8 = if f.carry {
                proof {
                    vstd::arithmetic::div_mod::lemma_mod_add_multiples_vanish(a as int - 0x60, 256);
                }
                ((a as u16 + 256 - 0x60) % 256) as u8
            } else {
                a
            };
            let a2: u8 = if f.half_carry {
                proof {
                    vstd::arithmetic::div_mod::lemma_mod_add_multiples_vanish(a1 as int - 6, 256);
                }
                ((a1 as u16 + 256 - 6) % 256) as u8
            } else {
                a1
            };
            self.registers.a = a2;
            self.registers.f = FlagsRegister {
                zero: a2 == 0,
                subtract: true,
                half_carry: false,
                carry: f.carry,
            };
        }
        self.pc = self.pc.wrapping_add(1);
        Ok(())
    }

    /// Executes one decoded instruction: the machine afterwards is exactly
    /// what [`spec_execute`] says, or the fault is exactly the one it
    /// names. A halted machine executes nothing. The display timing
    /// unit's non-memory state is never touched.
    pub fn execute(&mut self, instruction: Instruction) -> (r: Result<(), Fault>)
        requires
            old(self).wf(),
        ensures
            final(self).wf(),
            final(self).gaux() == old(self).gaux(),
            match r {
                Ok(()) => spec_execute(old(self).state(), instruction) == Ok::<CpuS, Fault>(
                    final(self).state(),
                ),
                Err(e) => spec_execute(old(self).state(), instruction) == Err::<CpuS, Fault>(e),
            },
    {
        if self.is_halted {
            return Ok(());
        }
        match instruction {
            Instruction::NOP | Instruction::HALT | Instruction::STOP | Instruction::DI
                | Instruction::EI | Instruction::SCF | Instruction::CPL | Instruction::CCF
                | Instruction::JPHL | Instruction::RLCA | Instruction::RRCA | Instruction::RLA
                | Instruction::RRA | Instruction::JP(_) | Instruction::JR(_)
                | Instruction::CALL(_) | Instruction::RET(_) | Instruction::RETI
                | Instruction::RST(_) | Instruction::PUSH(_) | Instruction::POP(_) => self
                .exec_control(instruction),
            _ => self.exec_main(instruction),
        }
    }

    /// The control instructions: no-ops, flag touches, accumulator
    /// rotates, jumps, calls, returns, vectors and stack moves.
    #[verifier::rlimit(100)]
    fn exec_control(&mut self, instruction: Instruction) -> (r: Result<(), Fault>)
        requires
            old(self).wf(),
            !old(self).is_halted,
            spec_is_control(instruction),
        ensures
            final(self).wf(),
            final(self).gaux() == old(self).gaux(),
            match r {
                Ok(()) => spec_execute_control(old(self).state(), instruction) == Ok::<CpuS, Fault>(
                    final(self).state(),
                ),
                Err(e) => spec_execute_control(old(self).state(), instruction) == Err::<
                    CpuS,
                    Fault,
                >(e),
            },
    {
        match instruction {
            Instruction::NOP => {
                self.pc = self.pc.wrapping_add(1);
                Ok(())
            },
            Instruction::HALT => {
                self.is_halted = true;
                self.pc = self.pc.wrapping_add(1);
                Ok(())
            },
            Instruction::STOP => Err(Fault::Stop),
            Instruction::DI => {
                self.interrupts_enabled = false;
                self.pc = self.pc.wrapping_add(1);
                Ok(())
            },
            Instruction::EI => {
                self.interrupts_enabled = true;
                self.pc = self.pc.wrapping_add(1);
                Ok(())
            },
            Instruction::SCF => {
                self.registers.f.subtract = false;
                self.registers.f.half_carry = false;
                self.registers.f.carry = true;
                self.pc = self.pc.wrapping_add(1);
                Ok(())
            },
            Instruction::CPL => {
                self.registers.a = 255 - self.registers.a;
                self.registers.f.subtract = true;
                self.registers.f.half_carry = true;
                self.pc = self.pc.wrapping_add(1);
                Ok(())
            },
            Instruction::CCF => {
                self.registers.f.subtract = false;
                self.registers.f.half_carry = false;
                self.registers.f.carry = !self.registers.f.carry;
                self.pc = self.pc.wrapping_add(1);
                Ok(())
            },
            Instruction::RLCA => {
                let (x, nf) = rlc_of(self.registers.a);
                self.registers.a = x;
                self.registers.f = nf;
                self.pc = self.pc.wrapping_add(1);
                Ok(())
            },
            Instruction::RRCA => {
                let (x, nf) = rrc_of(self.registers.a);
                self.registers.a = x;
                self.registers.f = nf;
                self.pc = self.pc.wrapping_add(1);
                Ok(())
            },
            Instruction::RLA => {
                let (x, nf) = rl_of(self.registers.a, self.registers.f);
                self.registers.a = x;
                self.registers.f = nf;
                self.pc = self.pc.wrapping_add(1);
                Ok(())
            },
            Instruction::RRA => {
                let (x, nf) = rr_of(self.registers.a, self.registers.f);
                self.registers.a = x;
                self.registers.f = nf;
                self.pc = self.pc.wrapping_add(1);
                Ok(())
            },
            Instruction::PUSH(t) => {
                let v = match t {
                    StackTarget::BC => self.registers.get_bc(),
                    StackTarget::DE => self.registers.get_de(),
                    StackTarget::HL => self.registers.get_hl(),
                    StackTarget::AF => self.registers.get_af(),
                };
                match self.push(v) {
                    Err(e) => Err(e),
                    Ok(()) => {
                        self.pc = self.pc.wrapping_add(1);
                        Ok(())
                    },
                }
            },
            Instruction::POP(t) => {
                let v = match self.pop() {
                    Ok(v) => v,
                    Err(e) => {
                        return Err(e);
                    },
                };
                match t {
                    StackTarget::BC => self.registers.set_bc(v),
                    StackTarget::DE => self.registers.set_de(v),
                    StackTarget::HL => self.registers.set_hl(v),
                    StackTarget::AF => self.registers.set_af(v),
                }
                self.pc = self.pc.wrapping_add(1);
                Ok(())
            },
            Instruction::JP(test) => {
                let cond = self.should_jump(&test);
                match self.jump(cond) {
                    Err(e) => Err(e),
                    Ok(t2) => {
                        self.pc = t2;
                        Ok(())
                    },
                }
            },
            Instruction::JPHL => {
                self.pc = self.registers.get_hl();
                Ok(())
            },
            Instruction::JR(test) => {
                if self.should_jump(&test) {
                    let d = match self.read_next_byte() {
                        Ok(d) => d,
                        Err(e) => {
                            return Err(e);
                        },
                    };
                    self.pc = self.pc.wrapping_add(2).wrapping_add(sign_extend(d));
                } else {
                    self.pc = self.pc.wrapping_add(2);
                }
                Ok(())
            },
            Instruction::CALL(test) => {
                let cond = self.should_jump(&test);
                match self.call(cond) {
                    Err(e) => Err(e),
                    Ok(t2) => {
                        self.pc = t2;
                        Ok(())
                    },
                }
            },
            Instruction::RET(test) => {
                let cond = self.should_jump(&test);
                match self.return_(cond) {
                    Err(e) => Err(e),
                    Ok(t2) => {
                        self.pc = t2;
                        Ok(())
                    },
                }
            },
            Instruction::RETI => {
                let v = match self.pop() {
                    Ok(v) => v,
                    Err(e) => {
                        return Err(e);
                    },
                };
                self.pc = v;
                self.interrupts_enabled = true;
                Ok(())
            },
            Instruction::RST(v) => {
                let next = self.pc.wrapping_add(1);
                match self.push(next) {
                    Err(e) => Err(e),
                    Ok(()) => {
                        self.pc = v as u16;
                        Ok(())
                    },
                }
            },
            _ => Err(Fault::UnsupportedOperand),
        }
    }

    /// The data instructions, split once more for the prover: the
    /// arithmetic quarter and the transfer quarter.
    fn exec_main(&mut self, instruction: Instruction) -> (r: Result<(), Fault>)
        requires
            old(self).wf(),
            !old(self).is_halted,
            !spec_is_control(instruction),
        ensures
            final(self).wf(),
            final(self).gaux() == old(self).gaux(),
            match r {
                Ok(()) => spec_execute_main(old(self).state(), instruction) == Ok::<CpuS, Fault>(
                    final(self).state(),
                ),
                Err(e) => spec_execute_main(old(self).state(), instruction) == Err::<CpuS, Fault>(
                    e,
                ),
            },
    {
        match instruction {
            Instruction::ADD(_) | Instruction::ADC(_) | Instruction::SUB(_)
                | Instruction::SBC(_) | Instruction::AND(_) | Instruction::XOR(_)
                | Instruction::OR(_) | Instruction::CP(_) | Instruction::INC(_)
                | Instruction::DEC(_) | Instruction::ADDHL(_) | Instruction::ADDSP
                | Instruction::DAA => self.exec_arith(instruction),
            _ => self.exec_transfer(instruction),
        }
    }

    /// The arithmetic quarter: accumulator operations, increments,
    /// the 16-bit additions and the decimal correction.
    #[verifier::rlimit(100)]
    fn exec_arith(&mut self, instruction: Instruction) -> (r: Result<(), Fault>)
        requires
            old(self).wf(),
            spec_is_arith(instruction),
        ensures
            final(self).wf(),
            final(self).gaux() == old(self).gaux(),
            match r {
                Ok(()) => spec_execute_arith(old(self).state(), instruction) == Ok::<CpuS, Fault>(
                    final(self).state(),
                ),
                Err(e) => spec_execute_arith(old(self).state(), instruction) == Err::<CpuS, Fault>(e),
            },
    {
        match instruction {

            Instruction::ADD(t) => {
                let src = arith_src_of(t);
                self.exec_alu(instruction, src)
            },
            Instruction::ADC(src) => self.exec_alu(instruction, src),
            Instruction::SUB(src) => self.exec_alu(instruction, src),
            Instruction::SBC(src) => self.exec_alu(instruction, src),
            Instruction::AND(src) => self.exec_alu(instruction, src),
            Instruction::XOR(src) => self.exec_alu(instruction, src),
            Instruction::OR(src) => self.exec_alu(instruction, src),
            Instruction::CP(src) => self.exec_alu(instruction, src),
            Instruction::INC(t) => self.exec_inc(t),
            Instruction::DEC(t) => self.exec_dec(t),
            Instruction::ADDHL(src) => self.exec_addhl(src),
            Instruction::ADDSP => self.exec_addsp(),
            Instruction::DAA => self.exec_daa(),
            _ => Err(Fault::UnsupportedOperand),
        }
    }

    /// The transfer quarter: the load shapes and the extended-table
    /// rotates, shifts and bit operations.
    #[verifier::rlimit(100)]
    fn exec_transfer(&mut self, instruction: Instruction) -> (r: Result<(), Fault>)
        requires
            old(self).wf(),
            !spec_is_control(instruction),
            !spec_is_arith(instruction),
        ensures
            final(self).wf(),
            final(self).gaux() == old(self).gaux(),
            match r {
                Ok(()) => spec_execute_transfer(old(self).state(), instruction) == Ok::<CpuS, Fault>(
                    final(self).state(),
                ),
                Err(e) => spec_execute_transfer(old(self).state(), instruction) == Err::<CpuS, Fault>(e),
            },
    {
        match instruction {
            Instruction::LD(lt) => match lt {
                LoadType::Byte(tgt, src) => self.exec_ld_byte(tgt, src),
                LoadType::Word(tgt, src) => self.exec_ld_word(tgt, src),
                LoadType::HLFromSPN => self.exec_hlspn(),
            },
            Instruction::RLC(t) => self.exec_rot(instruction, t),
            Instruction::RRC(t) => self.exec_rot(instruction, t),
            Instruction::RL(t) => self.exec_rot(instruction, t),
            Instruction::RR(t) => self.exec_rot(instruction, t),
            Instruction::SLA(t) => self.exec_rot(instruction, t),
            Instruction::SRA(t) => self.exec_rot(instruction, t),
            Instruction::SWAP(t) => self.exec_rot(instruction, t),
            Instruction::SRL(t) => self.exec_rot(instruction, t),
            Instruction::BIT(b, t) => self.exec_bit(b, t),
            Instruction::RES(b, t) => self.exec_setres(b, t, false),
            Instruction::SETB(b, t) => self.exec_setres(b, t, true),
            _ => Err(Fault::UnsupportedOperand),
        }
    }

    /// One whole step of the engine: fetch at the counter, decode (through
    /// the extended table after the sentinel byte), execute. The machine
    /// afterwards is exactly what [`spec_step`] says, or the fault is
    /// exactly the one it names.
    pub fn step(&mut self) -> (r: Result<(), Fault>)
        requires
            old(self).wf(),
        ensures
            final(self).wf(),
            final(self).gaux() == old(self).gaux(),
            match r {
                Ok(()) => spec_step(old(self).state()) == Ok::<CpuS, Fault>(final(self).state()),
                Err(e) => spec_step(old(self).state()) == Err::<CpuS, Fault>(e),
            },
    {
        let b0 = match self.read8(self.pc) {
            Ok(b) => b,
            Err(e) => {
                return Err(e);
            },
        };
        if b0 == 0xCB {
            let b1 = match self.read8(self.pc.wrapping_add(1)) {
                Ok(b) => b,
                Err(e) => {
                    return Err(e);
                },
            };
            let instr = Instruction::from_byte_prefixed(b1);
            self.execute(instr)
        } else {
            match Instruction::from_byte_not_prefixed(b0) {
                Some(instr) => self.execute(instr),
                None => Err(Fault::UnknownInstruction(self.pc, b0)),
            }
        }
    }
}

/// The general source position an arithmetic operand stands for.
fn arith_src_of(t: ArithmeticTarget) -> (s: Source)
    ensures
        s == spec_arith_src(t),
{
    match t {
        ArithmeticTarget::A => Target::A,
        ArithmeticTarget::B => Target::B,
        ArithmeticTarget::C => Target::C,
        ArithmeticTarget::D => Target::D,
        ArithmeticTarget::E => Target::E,
        ArithmeticTarget::H => Target::H,
        ArithmeticTarget::L => Target::L,
        ArithmeticTarget::HLI => Target::IndirectHL,
        ArithmeticTarget::D8 => Target::D8,
    }
}

/// Sign-extends a displacement byte to sixteen bits.
fn sign_extend(d: u8) -> (r: u16)
    ensures
        r == spec_signext(d),
{
    if d < 128 {
        d as u16
    } else {
        d as u16 + 0xFF00
    }
}

/// Immediate bytes a byte-load source consumes.
fn ld_src_imm_len(src: LoadByteSource) -> (n: u16)
    ensures
        n == spec_ld_src_imm(src),
{
    match src {
        LoadByteSource::D8 => 1,
        LoadByteSource::N8I => 1,
        LoadByteSource::N16I => 2,
        _ => 0,
    }
}

/// Immediate bytes a byte-load target consumes.
fn ld_tgt_imm_len(tgt: LoadByteTarget) -> (n: u16)
    ensures
        n == spec_ld_tgt_imm(tgt),
{
    match tgt {
        LoadByteTarget::N8I => 1,
        LoadByteTarget::N16I => 2,
        _ => 0,
    }
}

fn rot_flags_of(r: u8, c: bool) -> (f: FlagsRegister)
    ensures
        f == spec_rot_flags(r, c),
{
    FlagsRegister { zero: r == 0, subtract: false, half_carry: false, carry: c }
}

fn rlc_of(v: u8) -> (r: (u8, FlagsRegister))
    ensures
        r == spec_rlc(v),
{
    let x = (v % 128) * 2 + v / 128;
    (x, rot_flags_of(x, v / 128 == 1))
}

fn rrc_of(v: u8) -> (r: (u8, FlagsRegister))
    ensures
        r == spec_rrc(v),
{
    let x = v / 2 + (v % 2) * 128;
    (x, rot_flags_of(x, v % 2 == 1))
}

fn rl_of(v: u8, f: FlagsRegister) -> (r: (u8, FlagsRegister))
    ensures
        r == spec_rl(v, f),
{
    let x = (v % 128) * 2 + if f.carry {
        1
    } else {
        0
    };
    (x, rot_flags_of(x, v / 128 == 1))
}

fn rr_of(v: u8, f: FlagsRegister) -> (r: (u8, FlagsRegister))
    ensures
        r == spec_rr(v, f),
{
    let x = v / 2 + if f.carry {
        128
    } else {
        0
    };
    (x, rot_flags_of(x, v % 2 == 1))
}

fn sla_of(v: u8) -> (r: (u8, FlagsRegister))
    ensures
        r == spec_sla(v),
{
    let x = (v % 128) * 2;
    (x, rot_flags_of(x, v / 128 == 1))
}

fn sra_of(v: u8) -> (r: (u8, FlagsRegister))
    ensures
        r == spec_sra(v),
{
    let x = v / 2 + (v / 128) * 128;
    (x, rot_flags_of(x, v % 2 == 1))
}

fn swap_of(v: u8) -> (r: (u8, FlagsRegister))
    ensures
        r == spec_swap(v),
{
    let x = (v % 16) * 16 + v / 16;
    (x, rot_flags_of(x, false))
}

fn srl_of(v: u8) -> (r: (u8, FlagsRegister))
    ensures
        r == spec_srl(v),
{
    let x = v / 2;
    (x, rot_flags_of(x, v % 2 == 1))
}

/// Applies the rotate, shift or swap an extended-table instruction names.
fn rot_apply(i: Instruction, v: u8, f: FlagsRegister) -> (r: (u8, FlagsRegister))
    ensures
        r == spec_rot_result(i, v, f),
{
    match i {
        Instruction::RLC(_) => rlc_of(v),
        Instruction::RRC(_) => rrc_of(v),
        Instruction::RL(_) => rl_of(v, f),
        Instruction::RR(_) => rr_of(v, f),
        Instruction::SLA(_) => sla_of(v),
        Instruction::SRA(_) => sra_of(v),
        Instruction::SWAP(_) => swap_of(v),
        Instruction::SRL(_) => srl_of(v),
        _ => (v, f),
    }
}

/// The value, zero or one, of bit `b` of `v`.
fn bit_value(v: u8, b: u8) -> (x: u8)
    requires
        b < 8,
    ensures
        x == spec_bit_val(v, b),
{
    match b {
        0 => v % 2,
        1 => (v / 2) % 2,
        2 => (v / 4) % 2,
        3 => (v / 8) % 2,
        4 => (v / 16) % 2,
        5 => (v / 32) % 2,
        6 => (v / 64) % 2,
        _ => (v / 128) % 2,
    }
}

/// The byte with bit `b` cleared.
fn res_bit_value(v: u8, b: u8) -> (x: u8)
    requires
        b < 8,
    ensures
        x == spec_res_bit(v, b),
{
    match b {
        0 => v - (v % 2),
        1 => v - ((v / 2) % 2) * 2,
        2 => v - ((v / 4) % 2) * 4,
        3 => v - ((v / 8) % 2) * 8,
        4 => v - ((v / 16) % 2) * 16,
        5 => v - ((v / 32) % 2) * 32,
        6 => v - ((v / 64) % 2) * 64,
        _ => v - ((v / 128) % 2) * 128,
    }
}

proof fn lemma_src8_no_operand_fault(s: CpuS, src: Source)
    requires
        crate::instruction::spec_is_src8(src),
    ensures
        spec_src8_val(s, src) != Err::<u8, Fault>(Fault::UnsupportedOperand),
{
}

proof fn lemma_ld_src_no_operand_fault(s: CpuS, src: LoadByteSource)
    ensures
        spec_ld_src_val(s, src) != Err::<(u8, Registers), Fault>(Fault::UnsupportedOperand),
{
}

proof fn lemma_ld_store_no_operand_fault(
    mem: MemS,
    pc: u16,
    regs: Registers,
    tgt: LoadByteTarget,
    v: u8,
)
    ensures
        spec_ld_store(mem, pc, regs, tgt, v) != Err::<(Registers, MemS), Fault>(
            Fault::UnsupportedOperand,
        ),
{
}

proof fn lemma_control_no_operand_fault(s: CpuS, i: Instruction)
    requires
        spec_is_control(i),
    ensures
        spec_execute_control(s, i) != Err::<CpuS, Fault>(Fault::UnsupportedOperand),
{
}

proof fn lemma_arith_no_operand_fault(s: CpuS, i: Instruction)
    requires
        spec_is_arith(i),
        crate::instruction::spec_instr_valid(i),
    ensures
        spec_execute_arith(s, i) != Err::<CpuS, Fault>(Fault::UnsupportedOperand),
{
    match i {
        Instruction::ADD(t) => {
            lemma_src8_no_operand_fault(s, spec_arith_src(t));
        },
        Instruction::ADC(src) => {
            lemma_src8_no_operand_fault(s, src);
        },
        Instruction::SUB(src) => {
            lemma_src8_no_operand_fault(s, src);
        },
        Instruction::SBC(src) => {
            lemma_src8_no_operand_fault(s, src);
        },
        Instruction::AND(src) => {
            lemma_src8_no_operand_fault(s, src);
        },
        Instruction::XOR(src) => {
            lemma_src8_no_operand_fault(s, src);
        },
        Instruction::OR(src) => {
            lemma_src8_no_operand_fault(s, src);
        },
        Instruction::CP(src) => {
            lemma_src8_no_operand_fault(s, src);
        },
        _ => {},
    }
}

proof fn lemma_transfer_no_operand_fault(s: CpuS, i: Instruction)
    requires
        !spec_is_control(i),
        !spec_is_arith(i),
        crate::instruction::spec_instr_valid(i),
    ensures
        spec_execute_transfer(s, i) != Err::<CpuS, Fault>(Fault::UnsupportedOperand),
{
    match i {
        Instruction::LD(lt) => match lt {
            LoadType::Byte(tgt, src) => {
                lemma_ld_src_no_operand_fault(s, src);
                match spec_ld_src_val(s, src) {
                    Err(_) => {},
                    Ok((v, regs1)) => {
                        lemma_ld_store_no_operand_fault(s.mem, s.pc, regs1, tgt, v);
                    },
                }
            },
            _ => {},
        },
        _ => {},
    }
}

/// The unsupported-operand fault is a table-mismatch check, not a
/// reachable outcome: a well-formed instruction — and the decoder makes
/// no other — never raises it, in any machine state.
pub proof fn lemma_valid_instruction_no_operand_fault(s: CpuS, i: Instruction)
    requires
        crate::instruction::spec_instr_valid(i),
    ensures
        spec_execute(s, i) != Err::<CpuS, Fault>(Fault::UnsupportedOperand),
{
    if !s.is_halted {
        if spec_is_control(i) {
            lemma_control_no_operand_fault(s, i);
        } else if spec_is_arith(i) {
            lemma_arith_no_operand_fault(s, i);
        } else {
            lemma_transfer_no_operand_fault(s, i);
        }
    }
}

/// Corollary at the step level: whatever one step returns, it is never
/// the unsupported-operand fault, because everything the decoder hands
/// the engine is well-formed.
pub proof fn lemma_step_no_operand_fault(s: CpuS)
    ensures
        spec_step(s) != Err::<CpuS, Fault>(Fault::UnsupportedOperand),
{
    match spec_read8(s.mem, s.pc) {
        Err(_) => {},
        Ok(b0) => {
            if b0 == 0xCB {
                match spec_read8(s.mem, s.pc.wrapping_add(1)) {
                    Err(_) => {},
                    Ok(b1) => {
                        crate::instruction::lemma_decode_total(b1, true);
                        lemma_valid_instruction_no_operand_fault(
                            s,
                            crate::instruction::spec_decode_prefixed(b1),
                        );
                    },
                }
            } else {
                match crate::instruction::spec_decode_base(b0) {
                    None => {},
                    Some(i) => {
                        crate::instruction::lemma_decode_total(b0, false);
                        lemma_valid_instruction_no_operand_fault(s, i);
                    },
                }
            }
        },
    }
}

/// Increment/decrement round trip: decrementing the incremented byte
/// restores it for every value, the zero flag is exact after each step —
/// in particular at the wrap boundaries 0xFF and 0x00 — and the carry
/// flag rides through both operations untouched.
pub proof fn lemma_inc_dec_roundtrip(v: u8, f: FlagsRegister)
    ensures
        spec_alu_dec(spec_alu_inc(v, f).0, spec_alu_inc(v, f).1).0 == v,
        spec_alu_inc(v, f).1.zero == (v == 255),
        spec_alu_dec(spec_alu_inc(v, f).0, spec_alu_inc(v, f).1).1.zero == (v == 0),
        spec_alu_dec(spec_alu_inc(v, f).0, spec_alu_inc(v, f).1).1.carry == f.carry,
{
}

/// Push/pop round trip: pushing a word and then popping from the
/// resulting stack pointer returns the word and restores the pointer,
/// whenever the two stack cells are writable.
pub proof fn lemma_push_pop_roundtrip(s: CpuS, v: u16)
    requires
        crate::memory_bus::spec_mem_wf(s.mem),
        spec_writable(s.sp.wrapping_sub(1)),
        spec_writable(s.sp.wrapping_sub(2)),
    ensures
        spec_push16(s, v) matches Ok(s2) && spec_pop16(s2) == Ok::<(u16, CpuS), Fault>(
            (v, CpuS { sp: s.sp, ..s2 }),
        ),
{
    vstd::arithmetic::div_mod::lemma_fundamental_div_mod(v as int, 256);
}

/// The byte with bit `b` set.
fn set_bit_value(v: u8, b: u8) -> (x: u8)
    requires
        b < 8,
    ensures
        x == spec_set_bit(v, b),
{
    match b {
        0 => v - (v % 2) + 1,
        1 => v - ((v / 2) % 2) * 2 + 2,
        2 => v - ((v / 4) % 2) * 4 + 4,
        3 => v - ((v / 8) % 2) * 8 + 8,
        4 => v - ((v / 16) % 2) * 16 + 16,
        5 => v - ((v / 32) % 2) * 32 + 32,
        6 => v - ((v / 64) % 2) * 64 + 64,
        _ => v - ((v / 128) % 2) * 128 + 128,
    }
}

} // verus!
