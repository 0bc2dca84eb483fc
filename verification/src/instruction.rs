//! Instruction decoding: maps an opcode byte (plus the prefixed flag that
//! selects the extended bit-operation table) to a structured instruction.
//! Decoding is a pure function of the byte; unassigned base-table slots
//! decode to `None`, and every extended-table slot is defined.

use vstd::prelude::*;

verus! {

/// An 8-bit register, register pair, stack pointer, memory-indirect or
/// immediate operand position.
#[derive(Clone, Copy, PartialEq, Eq, Structural, Debug)]
pub enum Target {
    A,
    B,
    C,
    D,
    E,
    H,
    L,
    AF,
    BC,
    DE,
    HL,
    SP,
    IndirectHL,
    D8,
}

/// Source operands use the same closed set of positions as targets.
pub type Source = Target;

/// Operand of the accumulator addition instruction.
#[derive(Clone, Copy, PartialEq, Eq, Structural, Debug)]
pub enum ArithmeticTarget {
    A,
    B,
    C,
    D,
    E,
    H,
    L,
    HLI,
    D8,
}

/// Operand of the extended-table rotate/shift/swap/bit instructions.
#[derive(Clone, Copy, PartialEq, Eq, Structural, Debug)]
pub enum PrefixTarget {
    A,
    B,
    C,
    D,
    E,
    H,
    L,
    HLI,
}

/// Flag condition of a jump, call or return.
#[derive(Clone, Copy, PartialEq, Eq, Structural, Debug)]
pub enum JumpTest {
    NotZero,
    Zero,
    NotCarry,
    Carry,
    Always,
}

#[derive(Clone, Copy, PartialEq, Eq, Structural, Debug)]
pub enum LoadByteTarget {
    A,
    B,
    C,
    D,
    E,
    H,
    L,
    N16I,
    HLI,
    BCI,
    DEI,
    N8I,
    CI,
    HLINCR,
    HLDECR,
}

#[derive(Clone, Copy, PartialEq, Eq, Structural, Debug)]
pub enum LoadByteSource {
    A,
    B,
    C,
    D,
    E,
    H,
    L,
    D8,
    N16I,
    N8I,
    HLI,
    BCI,
    DEI,
    CI,
    HLINCR,
    HLDECR,
}

#[derive(Clone, Copy, PartialEq, Eq, Structural, Debug)]
pub enum LoadWordTarget {
    BC,
    DE,
    HL,
    N16I,
    SP,
}

#[derive(Clone, Copy, PartialEq, Eq, Structural, Debug)]
pub enum LoadWordSource {
    D16,
    SP,
    HL,
}

/// The three shapes of load: byte loads, word loads, and the special
/// stack-pointer-plus-signed-immediate-into-HL form.
#[derive(Clone, Copy, PartialEq, Eq, Structural, Debug)]
pub enum LoadType {
    Byte(LoadByteTarget, LoadByteSource),
    Word(LoadWordTarget, LoadWordSource),
    HLFromSPN,
}

#[derive(Clone, Copy, PartialEq, Eq, Structural, Debug)]
pub enum StackTarget {
    BC,
    DE,
    HL,
    AF,
}

/// The closed set of instructions. `BIT`, `RES` and `SETB` carry an explicit
/// bit index, kept below 8 by the decoder; `RST` carries its low-memory
/// vector address. `SETB` is the bit-set operation of the extended table.
#[derive(Clone, Copy, PartialEq, Eq, Structural, Debug)]
pub enum Instruction {
    LD(LoadType),
    ADD(ArithmeticTarget),
    ADDHL(Source),
    ADDSP,
    ADC(Source),
    SUB(Source),
    SBC(Source),
    AND(Source),
    XOR(Source),
    OR(Source),
    CP(Source),
    DAA,
    SCF,
    CPL,
    CCF,
    INC(Target),
    DEC(Target),
    JP(JumpTest),
    JPHL,
    JR(JumpTest),
    PUSH(StackTarget),
    POP(StackTarget),
    CALL(JumpTest),
    RET(JumpTest),
    RETI,
    RST(u8),
    RLCA,
    RRCA,
    RLA,
    RRA,
    RLC(PrefixTarget),
    RRC(PrefixTarget),
    RL(PrefixTarget),
    RR(PrefixTarget),
    SLA(PrefixTarget),
    SRA(PrefixTarget),
    SWAP(PrefixTarget),
    SRL(PrefixTarget),
    BIT(u8, PrefixTarget),
    RES(u8, PrefixTarget),
    SETB(u8, PrefixTarget),
    NOP,
    STOP,
    HALT,
    DI,
    EI,
}

/// An 8-bit source position: the operand shapes the arithmetic, logic and
/// compare instructions accept.
pub open spec fn spec_is_src8(s: Source) -> bool {
    match s {
        Target::A | Target::B | Target::C | Target::D | Target::E | Target::H | Target::L
            | Target::IndirectHL | Target::D8 => true,
        _ => false,
    }
}

/// The operand positions the increment/decrement instructions accept.
pub open spec fn spec_is_inc_target(t: Target) -> bool {
    t != Target::AF && t != Target::D8
}

/// The word sources the 16-bit HL addition accepts.
pub open spec fn spec_is_word_src(s: Source) -> bool {
    match s {
        Target::BC | Target::DE | Target::HL | Target::SP => true,
        _ => false,
    }
}

/// A well-formed instruction: every operand position is one the execution
/// engine defines for that operation, and bit indices lie below 8. The
/// decoder only ever produces well-formed instructions, so the execution
/// engine's unsupported-operand fault is unreachable from decoded input.
pub open spec fn spec_instr_valid(i: Instruction) -> bool {
    match i {
        Instruction::ADDHL(s) => spec_is_word_src(s),
        Instruction::ADC(s) => spec_is_src8(s),
        Instruction::SUB(s) => spec_is_src8(s),
        Instruction::SBC(s) => spec_is_src8(s),
        Instruction::AND(s) => spec_is_src8(s),
        Instruction::XOR(s) => spec_is_src8(s),
        Instruction::OR(s) => spec_is_src8(s),
        Instruction::CP(s) => spec_is_src8(s),
        Instruction::INC(t) => spec_is_inc_target(t),
        Instruction::DEC(t) => spec_is_inc_target(t),
        Instruction::BIT(b, _) => b < 8,
        Instruction::RES(b, _) => b < 8,
        Instruction::SETB(b, _) => b < 8,
        Instruction::RST(v) => v % 8 == 0 && v < 64,
        _ => true,
    }
}

/// The eight-way register/memory-indirect operand encoding shared by both
/// opcode tables: 0 B, 1 C, 2 D, 3 E, 4 H, 5 L, 6 (HL), 7 A.
pub open spec fn spec_r8_prefix(i: u8) -> PrefixTarget {
    if i == 0 {
        PrefixTarget::B
    } else if i == 1 {
        PrefixTarget::C
    } else if i == 2 {
        PrefixTarget::D
    } else if i == 3 {
        PrefixTarget::E
    } else if i == 4 {
        PrefixTarget::H
    } else if i == 5 {
        PrefixTarget::L
    } else if i == 6 {
        PrefixTarget::HLI
    } else {
        PrefixTarget::A
    }
}

pub open spec fn spec_r8_source(i: u8) -> Source {
    if i == 0 {
        Target::B
    } else if i == 1 {
        Target::C
    } else if i == 2 {
        Target::D
    } else if i == 3 {
        Target::E
    } else if i == 4 {
        Target::H
    } else if i == 5 {
        Target::L
    } else if i == 6 {
        Target::IndirectHL
    } else {
        Target::A
    }
}

pub open spec fn spec_r8_arith(i: u8) -> ArithmeticTarget {
    if i == 0 {
        ArithmeticTarget::B
    } else if i == 1 {
        ArithmeticTarget::C
    } else if i == 2 {
        ArithmeticTarget::D
    } else if i == 3 {
        ArithmeticTarget::E
    } else if i == 4 {
        ArithmeticTarget::H
    } else if i == 5 {
        ArithmeticTarget::L
    } else if i == 6 {
        ArithmeticTarget::HLI
    } else {
        ArithmeticTarget::A
    }
}

pub open spec fn spec_r8_ld_target(i: u8) -> LoadByteTarget {
    if i == 0 {
        LoadByteTarget::B
    } else if i == 1 {
        LoadByteTarget::C
    } else if i == 2 {
        LoadByteTarget::D
    } else if i == 3 {
        LoadByteTarget::E
    } else if i == 4 {
        LoadByteTarget::H
    } else if i == 5 {
        LoadByteTarget::L
    } else if i == 6 {
        LoadByteTarget::HLI
    } else {
        LoadByteTarget::A
    }
}

pub open spec fn spec_r8_ld_source(i: u8) -> LoadByteSource {
    if i == 0 {
        LoadByteSource::B
    } else if i == 1 {
        LoadByteSource::C
    } else if i == 2 {
        LoadByteSource::D
    } else if i == 3 {
        LoadByteSource::E
    } else if i == 4 {
        LoadByteSource::H
    } else if i == 5 {
        LoadByteSource::L
    } else if i == 6 {
        LoadByteSource::HLI
    } else {
        LoadByteSource::A
    }
}

/// The extended (prefixed) table: all 256 slots defined. The top two bits
/// select rotate/shift group, BIT, RES or SETB; bits 5..3 pick the
/// rotate/shift kind or the bit index; bits 2..0 pick the operand.
pub open spec fn spec_decode_prefixed(byte: u8) -> Instruction {
    let t = spec_r8_prefix(byte % 8);
    let k = ((byte / 8) % 8) as u8;
    if byte < 0x40 {
        if k == 0 {
            Instruction::RLC(t)
        } else if k == 1 {
            Instruction::RRC(t)
        } else if k == 2 {
            Instruction::RL(t)
        } else if k == 3 {
            Instruction::RR(t)
        } else if k == 4 {
            Instruction::SLA(t)
        } else if k == 5 {
            Instruction::SRA(t)
        } else if k == 6 {
            Instruction::SWAP(t)
        } else {
            Instruction::SRL(t)
        }
    } else if byte < 0x80 {
        Instruction::BIT(k, t)
    } else if byte < 0xC0 {
        Instruction::RES(k, t)
    } else {
        Instruction::SETB(k, t)
    }
}

/// Base table, opcodes 0x00..=0x3F: every slot assigned.
pub open spec fn spec_decode_low(byte: u8) -> Instruction {
    match byte {
        0x00 => Instruction::NOP,
        0x01 => Instruction::LD(LoadType::Word(LoadWordTarget::BC, LoadWordSource::D16)),
        0x02 => Instruction::LD(LoadType::Byte(LoadByteTarget::BCI, LoadByteSource::A)),
        0x03 => Instruction::INC(Target::BC),
        0x04 => Instruction::INC(Target::B),
        0x05 => Instruction::DEC(Target::B),
        0x06 => Instruction::LD(LoadType::Byte(LoadByteTarget::B, LoadByteSource::D8)),
        0x07 => Instruction::RLCA,
        0x08 => Instruction::LD(LoadType::Word(LoadWordTarget::N16I, LoadWordSource::SP)),
        0x09 => Instruction::ADDHL(Target::BC),
        0x0A => Instruction::LD(LoadType::Byte(LoadByteTarget::A, LoadByteSource::BCI)),
        0x0B => Instruction::DEC(Target::BC),
        0x0C => Instruction::INC(Target::C),
        0x0D => Instruction::DEC(Target::C),
        0x0E => Instruction::LD(LoadType::Byte(LoadByteTarget::C, LoadByteSource::D8)),
        0x0F => Instruction::RRCA,
        0x10 => Instruction::STOP,
        0x11 => Instruction::LD(LoadType::Word(LoadWordTarget::DE, LoadWordSource::D16)),
        0x12 => Instruction::LD(LoadType::Byte(LoadByteTarget::DEI, LoadByteSource::A)),
        0x13 => Instruction::INC(Target::DE),
        0x14 => Instruction::INC(Target::D),
        0x15 => Instruction::DEC(Target::D),
        0x16 => Instruction::LD(LoadType::Byte(LoadByteTarget::D, LoadByteSource::D8)),
        0x17 => Instruction::RLA,
        0x18 => Instruction::JR(JumpTest::Always),
        0x19 => Instruction::ADDHL(Target::DE),
        0x1A => Instruction::LD(LoadType::Byte(LoadByteTarget::A, LoadByteSource::DEI)),
        0x1B => Instruction::DEC(Target::DE),
        0x1C => Instruction::INC(Target::E),
        0x1D => Instruction::DEC(Target::E),
        0x1E => Instruction::LD(LoadType::Byte(LoadByteTarget::E, LoadByteSource::D8)),
        0x1F => Instruction::RRA,
        0x20 => Instruction::JR(JumpTest::NotZero),
        0x21 => Instruction::LD(LoadType::Word(LoadWordTarget::HL, LoadWordSource::D16)),
        0x22 => Instruction::LD(LoadType::Byte(LoadByteTarget::HLINCR, LoadByteSource::A)),
        0x23 => Instruction::INC(Target::HL),
        0x24 => Instruction::INC(Target::H),
        0x25 => Instruction::DEC(Target::H),
        0x26 => Instruction::LD(LoadType::Byte(LoadByteTarget::H, LoadByteSource::D8)),
        0x27 => Instruction::DAA,
        0x28 => Instruction::JR(JumpTest::Zero),
        0x29 => Instruction::ADDHL(Target::HL),
        0x2A => Instruction::LD(LoadType::Byte(LoadByteTarget::A, LoadByteSource::HLINCR)),
        0x2B => Instruction::DEC(Target::HL),
        0x2C => Instruction::INC(Target::L),
        0x2D => Instruction::DEC(Target::L),
        0x2E => Instruction::LD(LoadType::Byte(LoadByteTarget::L, LoadByteSource::D8)),
        0x2F => Instruction::CPL,
        0x30 => Instruction::JR(JumpTest::NotCarry),
        0x31 => Instruction::LD(LoadType::Word(LoadWordTarget::SP, LoadWordSource::D16)),
        0x32 => Instruction::LD(LoadType::Byte(LoadByteTarget::HLDECR, LoadByteSource::A)),
        0x33 => Instruction::INC(Target::SP),
        0x34 => Instruction::INC(Target::IndirectHL),
        0x35 => Instruction::DEC(Target::IndirectHL),
        0x36 => Instruction::LD(LoadType::Byte(LoadByteTarget::HLI, LoadByteSource::D8)),
        0x37 => Instruction::SCF,
        0x38 => Instruction::JR(JumpTest::Carry),
        0x39 => Instruction::ADDHL(Target::SP),
        0x3A => Instruction::LD(LoadType::Byte(LoadByteTarget::A, LoadByteSource::HLDECR)),
        0x3B => Instruction::DEC(Target::SP),
        0x3C => Instruction::INC(Target::A),
        0x3D => Instruction::DEC(Target::A),
        0x3E => Instruction::LD(LoadType::Byte(LoadByteTarget::A, LoadByteSource::D8)),
        // 0x3F; the wildcard keeps the match exhaustive over the byte.
        _ => Instruction::CCF,
    }
}

/// Base table, opcodes 0x40..=0x7F: the register-to-register load block,
/// with HALT in the slot a memory-to-memory load would occupy.
pub open spec fn spec_decode_ld(byte: u8) -> Instruction {
    if byte == 0x76 {
        Instruction::HALT
    } else {
        Instruction::LD(
            LoadType::Byte(
                spec_r8_ld_target((((byte - 0x40) / 8) % 8) as u8),
                spec_r8_ld_source((byte % 8) as u8),
            ),
        )
    }
}

/// Base table, opcodes 0x80..=0xBF: the arithmetic/logic block.
pub open spec fn spec_decode_alu(byte: u8) -> Instruction {
    let k = (byte / 8) % 8;
    let s = (byte % 8) as u8;
    if k == 0 {
        Instruction::ADD(spec_r8_arith(s))
    } else if k == 1 {
        Instruction::ADC(spec_r8_source(s))
    } else if k == 2 {
        Instruction::SUB(spec_r8_source(s))
    } else if k == 3 {
        Instruction::SBC(spec_r8_source(s))
    } else if k == 4 {
        Instruction::AND(spec_r8_source(s))
    } else if k == 5 {
        Instruction::XOR(spec_r8_source(s))
    } else if k == 6 {
        Instruction::OR(spec_r8_source(s))
    } else {
        Instruction::CP(spec_r8_source(s))
    }
}

/// Base table, opcodes 0xC0..=0xFF: jumps, calls, returns, stack operations,
/// immediate arithmetic, the high-memory loads and the reset vectors. The
/// unassigned slots of this block decode to `None`, as does 0xCB, the
/// sentinel that announces the extended table.
pub open spec fn spec_decode_high(byte: u8) -> Option<Instruction> {
    match byte {
        0xC0 => Some(Instruction::RET(JumpTest::NotZero)),
        0xC1 => Some(Instruction::POP(StackTarget::BC)),
        0xC2 => Some(Instruction::JP(JumpTest::NotZero)),
        0xC3 => Some(Instruction::JP(JumpTest::Always)),
        0xC4 => Some(Instruction::CALL(JumpTest::NotZero)),
        0xC5 => Some(Instruction::PUSH(StackTarget::BC)),
        0xC6 => Some(Instruction::ADD(ArithmeticTarget::D8)),
        0xC7 => Some(Instruction::RST(0x00)),
        0xC8 => Some(Instruction::RET(JumpTest::Zero)),
        0xC9 => Some(Instruction::RET(JumpTest::Always)),
        0xCA => Some(Instruction::JP(JumpTest::Zero)),
        0xCC => Some(Instruction::CALL(JumpTest::Zero)),
        0xCD => Some(Instruction::CALL(JumpTest::Always)),
        0xCE => Some(Instruction::ADC(Target::D8)),
        0xCF => Some(Instruction::RST(0x08)),
        0xD0 => Some(Instruction::RET(JumpTest::NotCarry)),
        0xD1 => Some(Instruction::POP(StackTarget::DE)),
        0xD2 => Some(Instruction::JP(JumpTest::NotCarry)),
        0xD4 => Some(Instruction::CALL(JumpTest::NotCarry)),
        0xD5 => Some(Instruction::PUSH(StackTarget::DE)),
        0xD6 => Some(Instruction::SUB(Target::D8)),
        0xD7 => Some(Instruction::RST(0x10)),
        0xD8 => Some(Instruction::RET(JumpTest::Carry)),
        0xD9 => Some(Instruction::RETI),
        0xDA => Some(Instruction::JP(JumpTest::Carry)),
        0xDC => Some(Instruction::CALL(JumpTest::Carry)),
        0xDE => Some(Instruction::SBC(Target::D8)),
        0xDF => Some(Instruction::RST(0x18)),
        0xE0 => Some(Instruction::LD(LoadType::Byte(LoadByteTarget::N8I, LoadByteSource::A))),
        0xE1 => Some(Instruction::POP(StackTarget::HL)),
        0xE2 => Some(Instruction::LD(LoadType::Byte(LoadByteTarget::CI, LoadByteSource::A))),
        0xE5 => Some(Instruction::PUSH(StackTarget::HL)),
        0xE6 => Some(Instruction::AND(Target::D8)),
        0xE7 => Some(Instruction::RST(0x20)),
        0xE8 => Some(Instruction::ADDSP),
        0xE9 => Some(Instruction::JPHL),
        0xEA => Some(Instruction::LD(LoadType::Byte(LoadByteTarget::N16I, LoadByteSource::A))),
        0xEE => Some(Instruction::XOR(Target::D8)),
        0xEF => Some(Instruction::RST(0x28)),
        0xF0 => Some(Instruction::LD(LoadType::Byte(LoadByteTarget::A, LoadByteSource::N8I))),
        0xF1 => Some(Instruction::POP(StackTarget::AF)),
        0xF2 => Some(Instruction::LD(LoadType::Byte(LoadByteTarget::A, LoadByteSource::CI))),
        0xF3 => Some(Instruction::DI),
        0xF5 => Some(Instruction::PUSH(StackTarget::AF)),
        0xF6 => Some(Instruction::OR(Target::D8)),
        0xF7 => Some(Instruction::RST(0x30)),
        0xF8 => Some(Instruction::LD(LoadType::HLFromSPN)),
        0xF9 => Some(Instruction::LD(LoadType::Word(LoadWordTarget::SP, LoadWordSource::HL))),
        0xFA => Some(Instruction::LD(LoadType::Byte(LoadByteTarget::A, LoadByteSource::N16I))),
        0xFB => Some(Instruction::EI),
        0xFE => Some(Instruction::CP(Target::D8)),
        0xFF => Some(Instruction::RST(0x38)),
        _ => None,
    }
}

/// The base-table slots with no instruction assigned: the eleven open slots
/// of the upper block, and the sentinel byte that announces the extended
/// table.
pub open spec fn spec_unassigned(byte: u8) -> bool {
    byte == 0xCB || byte == 0xD3 || byte == 0xDB || byte == 0xDD || byte == 0xE3 || byte == 0xE4
        || byte == 0xEB || byte == 0xEC || byte == 0xED || byte == 0xF4 || byte == 0xFC || byte
        == 0xFD
}

/// The base (unprefixed) opcode table.
pub open spec fn spec_decode_base(byte: u8) -> Option<Instruction> {
    if byte < 0x40 {
        Some(spec_decode_low(byte))
    } else if byte < 0x80 {
        Some(spec_decode_ld(byte))
    } else if byte < 0xC0 {
        Some(spec_decode_alu(byte))
    } else {
        spec_decode_high(byte)
    }
}

/// What decoding returns for every opcode byte and either table.
pub open spec fn spec_decode(byte: u8, prefixed: bool) -> Option<Instruction> {
    if prefixed {
        Some(spec_decode_prefixed(byte))
    } else {
        spec_decode_base(byte)
    }
}

fn r8_prefix(i: u8) -> (t: PrefixTarget)
    ensures
        t == spec_r8_prefix(i),
{
    match i {
        0 => PrefixTarget::B,
        1 => PrefixTarget::C,
        2 => PrefixTarget::D,
        3 => PrefixTarget::E,
        4 => PrefixTarget::H,
        5 => PrefixTarget::L,
        6 => PrefixTarget::HLI,
        _ => PrefixTarget::A,
    }
}

fn r8_source(i: u8) -> (s: Source)
    ensures
        s == spec_r8_source(i),
        spec_is_src8(s),
{
    match i {
        0 => Target::B,
        1 => Target::C,
        2 => Target::D,
        3 => Target::E,
        4 => Target::H,
        5 => Target::L,
        6 => Target::IndirectHL,
        _ => Target::A,
    }
}

fn r8_arith(i: u8) -> (t: ArithmeticTarget)
    ensures
        t == spec_r8_arith(i),
{
    match i {
        0 => ArithmeticTarget::B,
        1 => ArithmeticTarget::C,
        2 => ArithmeticTarget::D,
        3 => ArithmeticTarget::E,
        4 => ArithmeticTarget::H,
        5 => ArithmeticTarget::L,
        6 => ArithmeticTarget::HLI,
        _ => ArithmeticTarget::A,
    }
}

fn r8_ld_target(i: u8) -> (t: LoadByteTarget)
    ensures
        t == spec_r8_ld_target(i),
{
    match i {
        0 => LoadByteTarget::B,
        1 => LoadByteTarget::C,
        2 => LoadByteTarget::D,
        3 => LoadByteTarget::E,
        4 => LoadByteTarget::H,
        5 => LoadByteTarget::L,
        6 => LoadByteTarget::HLI,
        _ => LoadByteTarget::A,
    }
}

fn r8_ld_source(i: u8) -> (s: LoadByteSource)
    ensures
        s == spec_r8_ld_source(i),
{
    match i {
        0 => LoadByteSource::B,
        1 => LoadByteSource::C,
        2 => LoadByteSource::D,
        3 => LoadByteSource::E,
        4 => LoadByteSource::H,
        5 => LoadByteSource::L,
        6 => LoadByteSource::HLI,
        _ => LoadByteSource::A,
    }
}

fn decode_low(byte: u8) -> (r: Instruction)
    requires
        byte < 0x40,
    ensures
        r == spec_decode_low(byte),
        spec_instr_valid(r),
{
    match byte {
        0x00 => Instruction::NOP,
        0x01 => Instruction::LD(LoadType::Word(LoadWordTarget::BC, LoadWordSource::D16)),
        0x02 => Instruction::LD(LoadType::Byte(LoadByteTarget::BCI, LoadByteSource::A)),
        0x03 => Instruction::INC(Target::BC),
        0x04 => Instruction::INC(Target::B),
        0x05 => Instruction::DEC(Target::B),
        0x06 => Instruction::LD(LoadType::Byte(LoadByteTarget::B, LoadByteSource::D8)),
        0x07 => Instruction::RLCA,
        0x08 => Instruction::LD(LoadType::Word(LoadWordTarget::N16I, LoadWordSource::SP)),
        0x09 => Instruction::ADDHL(Target::BC),
        0x0A => Instruction::LD(LoadType::Byte(LoadByteTarget::A, LoadByteSource::BCI)),
        0x0B => Instruction::DEC(Target::BC),
        0x0C => Instruction::INC(Target::C),
        0x0D => Instruction::DEC(Target::C),
        0x0E => Instruction::LD(LoadType::Byte(LoadByteTarget::C, LoadByteSource::D8)),
        0x0F => Instruction::RRCA,
        0x10 => Instruction::STOP,
        0x11 => Instruction::LD(LoadType::Word(LoadWordTarget::DE, LoadWordSource::D16)),
        0x12 => Instruction::LD(LoadType::Byte(LoadByteTarget::DEI, LoadByteSource::A)),
        0x13 => Instruction::INC(Target::DE),
        0x14 => Instruction::INC(Target::D),
        0x15 => Instruction::DEC(Target::D),
        0x16 => Instruction::LD(LoadType::Byte(LoadByteTarget::D, LoadByteSource::D8)),
        0x17 => Instruction::RLA,
        0x18 => Instruction::JR(JumpTest::Always),
        0x19 => Instruction::ADDHL(Target::DE),
        0x1A => Instruction::LD(LoadType::Byte(LoadByteTarget::A, LoadByteSource::DEI)),
        0x1B => Instruction::DEC(Target::DE),
        0x1C => Instruction::INC(Target::E),
        0x1D => Instruction::DEC(Target::E),
        0x1E => Instruction::LD(LoadType::Byte(LoadByteTarget::E, LoadByteSource::D8)),
        0x1F => Instruction::RRA,
        0x20 => Instruction::JR(JumpTest::NotZero),
        0x21 => Instruction::LD(LoadType::Word(LoadWordTarget::HL, LoadWordSource::D16)),
        0x22 => Instruction::LD(LoadType::Byte(LoadByteTarget::HLINCR, LoadByteSource::A)),
        0x23 => Instruction::INC(Target::HL),
        0x24 => Instruction::INC(Target::H),
        0x25 => Instruction::DEC(Target::H),
        0x26 => Instruction::LD(LoadType::Byte(LoadByteTarget::H, LoadByteSource::D8)),
        0x27 => Instruction::DAA,
        0x28 => Instruction::JR(JumpTest::Zero),
        0x29 => Instruction::ADDHL(Target::HL),
        0x2A => Instruction::LD(LoadType::Byte(LoadByteTarget::A, LoadByteSource::HLINCR)),
        0x2B => Instruction::DEC(Target::HL),
        0x2C => Instruction::INC(Target::L),
        0x2D => Instruction::DEC(Target::L),
        0x2E => Instruction::LD(LoadType::Byte(LoadByteTarget::L, LoadByteSource::D8)),
        0x2F => Instruction::CPL,
        0x30 => Instruction::JR(JumpTest::NotCarry),
        0x31 => Instruction::LD(LoadType::Word(LoadWordTarget::SP, LoadWordSource::D16)),
        0x32 => Instruction::LD(LoadType::Byte(LoadByteTarget::HLDECR, LoadByteSource::A)),
        0x33 => Instruction::INC(Target::SP),
        0x34 => Instruction::INC(Target::IndirectHL),
        0x35 => Instruction::DEC(Target::IndirectHL),
        0x36 => Instruction::LD(LoadType::Byte(LoadByteTarget::HLI, LoadByteSource::D8)),
        0x37 => Instruction::SCF,
        0x38 => Instruction::JR(JumpTest::Carry),
        0x39 => Instruction::ADDHL(Target::SP),
        0x3A => Instruction::LD(LoadType::Byte(LoadByteTarget::A, LoadByteSource::HLDECR)),
        0x3B => Instruction::DEC(Target::SP),
        0x3C => Instruction::INC(Target::A),
        0x3D => Instruction::DEC(Target::A),
        0x3E => Instruction::LD(LoadType::Byte(LoadByteTarget::A, LoadByteSource::D8)),
        // 0x3F; the wildcard keeps the match exhaustive over the byte.
        _ => Instruction::CCF,
    }
}

fn decode_high(byte: u8) -> (r: Option<Instruction>)
    requires
        byte >= 0xC0,
    ensures
        r == spec_decode_high(byte),
        r matches Some(i) ==> spec_instr_valid(i),
        r.is_none() <==> spec_unassigned(byte),
{
    match byte {
        0xC0 => Some(Instruction::RET(JumpTest::NotZero)),
        0xC1 => Some(Instruction::POP(StackTarget::BC)),
        0xC2 => Some(Instruction::JP(JumpTest::NotZero)),
        0xC3 => Some(Instruction::JP(JumpTest::Always)),
        0xC4 => Some(Instruction::CALL(JumpTest::NotZero)),
        0xC5 => Some(Instruction::PUSH(StackTarget::BC)),
        0xC6 => Some(Instruction::ADD(ArithmeticTarget::D8)),
        0xC7 => Some(Instruction::RST(0x00)),
        0xC8 => Some(Instruction::RET(JumpTest::Zero)),
        0xC9 => Some(Instruction::RET(JumpTest::Always)),
        0xCA => Some(Instruction::JP(JumpTest::Zero)),
        0xCC => Some(Instruction::CALL(JumpTest::Zero)),
        0xCD => Some(Instruction::CALL(JumpTest::Always)),
        0xCE => Some(Instruction::ADC(Target::D8)),
        0xCF => Some(Instruction::RST(0x08)),
        0xD0 => Some(Instruction::RET(JumpTest::NotCarry)),
        0xD1 => Some(Instruction::POP(StackTarget::DE)),
        0xD2 => Some(Instruction::JP(JumpTest::NotCarry)),
        0xD4 => Some(Instruction::CALL(JumpTest::NotCarry)),
        0xD5 => Some(Instruction::PUSH(StackTarget::DE)),
        0xD6 => Some(Instruction::SUB(Target::D8)),
        0xD7 => Some(Instruction::RST(0x10)),
        0xD8 => Some(Instruction::RET(JumpTest::Carry)),
        0xD9 => Some(Instruction::RETI),
        0xDA => Some(Instruction::JP(JumpTest::Carry)),
        0xDC => Some(Instruction::CALL(JumpTest::Carry)),
        0xDE => Some(Instruction::SBC(Target::D8)),
        0xDF => Some(Instruction::RST(0x18)),
        0xE0 => Some(Instruction::LD(LoadType::Byte(LoadByteTarget::N8I, LoadByteSource::A))),
        0xE1 => Some(Instruction::POP(StackTarget::HL)),
        0xE2 => Some(Instruction::LD(LoadType::Byte(LoadByteTarget::CI, LoadByteSource::A))),
        0xE5 => Some(Instruction::PUSH(StackTarget::HL)),
        0xE6 => Some(Instruction::AND(Target::D8)),
        0xE7 => Some(Instruction::RST(0x20)),
        0xE8 => Some(Instruction::ADDSP),
        0xE9 => Some(Instruction::JPHL),
        0xEA => Some(Instruction::LD(LoadType::Byte(LoadByteTarget::N16I, LoadByteSource::A))),
        0xEE => Some(Instruction::XOR(Target::D8)),
        0xEF => Some(Instruction::RST(0x28)),
        0xF0 => Some(Instruction::LD(LoadType::Byte(LoadByteTarget::A, LoadByteSource::N8I))),
        0xF1 => Some(Instruction::POP(StackTarget::AF)),
        0xF2 => Some(Instruction::LD(LoadType::Byte(LoadByteTarget::A, LoadByteSource::CI))),
        0xF3 => Some(Instruction::DI),
        0xF5 => Some(Instruction::PUSH(StackTarget::AF)),
        0xF6 => Some(Instruction::OR(Target::D8)),
        0xF7 => Some(Instruction::RST(0x30)),
        0xF8 => Some(Instruction::LD(LoadType::HLFromSPN)),
        0xF9 => Some(Instruction::LD(LoadType::Word(LoadWordTarget::SP, LoadWordSource::HL))),
        0xFA => Some(Instruction::LD(LoadType::Byte(LoadByteTarget::A, LoadByteSource::N16I))),
        0xFB => Some(Instruction::EI),
        0xFE => Some(Instruction::CP(Target::D8)),
        0xFF => Some(Instruction::RST(0x38)),
        _ => None,
    }
}

impl Instruction {
    /// Decodes one opcode byte against the base table, or against the
    /// extended table when `prefixed` holds. Pure: no state is read or
    /// consumed beyond the byte itself. Every extended-table slot is
    /// defined; a base-table slot is `None` exactly on the unassigned
    /// opcodes, and every decoded instruction is well-formed.
    pub fn from_byte(byte: u8, prefixed: bool) -> (r: Option<Instruction>)
        ensures
            r == spec_decode(byte, prefixed),
            prefixed ==> r.is_some(),
            !prefixed ==> (r.is_none() <==> spec_unassigned(byte)),
            r matches Some(i) ==> spec_instr_valid(i),
    {
        if prefixed {
            Some(Instruction::from_byte_prefixed(byte))
        } else {
            Instruction::from_byte_not_prefixed(byte)
        }
    }

    /// The extended (bit-operation) table: all 256 slots defined.
    pub fn from_byte_prefixed(byte: u8) -> (r: Instruction)
        ensures
            r == spec_decode_prefixed(byte),
            spec_instr_valid(r),
    {
        let t = r8_prefix(byte % 8);
        let k = (byte / 8) % 8;
        if byte < 0x40 {
            match k {
                0 => Instruction::RLC(t),
                1 => Instruction::RRC(t),
                2 => Instruction::RL(t),
                3 => Instruction::RR(t),
                4 => Instruction::SLA(t),
                5 => Instruction::SRA(t),
                6 => Instruction::SWAP(t),
                _ => Instruction::SRL(t),
            }
        } else if byte < 0x80 {
            Instruction::BIT(k, t)
        } else if byte < 0xC0 {
            Instruction::RES(k, t)
        } else {
            Instruction::SETB(k, t)
        }
    }

    /// The base table: unassigned slots return `None`.
    pub fn from_byte_not_prefixed(byte: u8) -> (r: Option<Instruction>)
        ensures
            r == spec_decode_base(byte),
            r.is_none() <==> spec_unassigned(byte),
            r matches Some(i) ==> spec_instr_valid(i),
    {
        if byte < 0x40 {
            Some(decode_low(byte))
        } else if byte < 0x80 {
            if byte == 0x76 {
                Some(Instruction::HALT)
            } else {
                let t = r8_ld_target(((byte - 0x40) / 8) % 8);
                let s = r8_ld_source(byte % 8);
                Some(Instruction::LD(LoadType::Byte(t, s)))
            }
        } else if byte < 0xC0 {
            let k = (byte / 8) % 8;
            let s = byte % 8;
            Some(
                match k {
                    0 => Instruction::ADD(r8_arith(s)),
                    1 => Instruction::ADC(r8_source(s)),
                    2 => Instruction::SUB(r8_source(s)),
                    3 => Instruction::SBC(r8_source(s)),
                    4 => Instruction::AND(r8_source(s)),
                    5 => Instruction::XOR(r8_source(s)),
                    6 => Instruction::OR(r8_source(s)),
                    _ => Instruction::CP(r8_source(s)),
                },
            )
        } else {
            decode_high(byte)
        }
    }
}

/// Decode totality: the extended table defines every slot; the base table
/// is `None` exactly on the unassigned opcodes; and everything either table
/// produces is a well-formed instruction.
pub proof fn lemma_decode_total(byte: u8, prefixed: bool)
    ensures
        prefixed ==> spec_decode(byte, prefixed).is_some(),
        !prefixed ==> (spec_decode(byte, prefixed).is_none() <==> spec_unassigned(byte)),
        spec_decode(byte, prefixed) matches Some(i) ==> spec_instr_valid(i),
{
}

} // verus!
