use rustboy::instruction::{
    ArithmeticTarget, Instruction, JumpTest, LoadByteSource, LoadByteTarget, LoadType,
    LoadWordSource, LoadWordTarget, PrefixTarget, StackTarget, Target,
};

fn unassigned(byte: u8) -> bool {
    matches!(
        byte,
        0xCB | 0xD3 | 0xDB | 0xDD | 0xE3 | 0xE4 | 0xEB | 0xEC | 0xED | 0xF4 | 0xFC | 0xFD
    )
}

#[test]
fn every_prefixed_opcode_decodes() {
    for byte in 0..=255u8 {
        assert!(Instruction::from_byte(byte, true).is_some());
    }
}

#[test]
fn base_table_is_none_exactly_on_unassigned_slots() {
    for byte in 0..=255u8 {
        let decoded = Instruction::from_byte(byte, false);
        assert_eq!(decoded.is_none(), unassigned(byte), "opcode {byte:#04x}");
    }
}

#[test]
fn base_table_spot_checks() {
    assert_eq!(Instruction::from_byte(0x00, false), Some(Instruction::NOP));
    assert_eq!(
        Instruction::from_byte(0x01, false),
        Some(Instruction::LD(LoadType::Word(LoadWordTarget::BC, LoadWordSource::D16)))
    );
    assert_eq!(Instruction::from_byte(0x07, false), Some(Instruction::RLCA));
    assert_eq!(
        Instruction::from_byte(0x08, false),
        Some(Instruction::LD(LoadType::Word(LoadWordTarget::N16I, LoadWordSource::SP)))
    );
    assert_eq!(Instruction::from_byte(0x10, false), Some(Instruction::STOP));
    assert_eq!(Instruction::from_byte(0x18, false), Some(Instruction::JR(JumpTest::Always)));
    assert_eq!(Instruction::from_byte(0x20, false), Some(Instruction::JR(JumpTest::NotZero)));
    assert_eq!(Instruction::from_byte(0x27, false), Some(Instruction::DAA));
    assert_eq!(
        Instruction::from_byte(0x2A, false),
        Some(Instruction::LD(LoadType::Byte(LoadByteTarget::A, LoadByteSource::HLINCR)))
    );
    assert_eq!(Instruction::from_byte(0x34, false), Some(Instruction::INC(Target::IndirectHL)));
    assert_eq!(Instruction::from_byte(0x39, false), Some(Instruction::ADDHL(Target::SP)));
    assert_eq!(
        Instruction::from_byte(0x42, false),
        Some(Instruction::LD(LoadType::Byte(LoadByteTarget::B, LoadByteSource::D)))
    );
    assert_eq!(Instruction::from_byte(0x76, false), Some(Instruction::HALT));
    assert_eq!(
        Instruction::from_byte(0x77, false),
        Some(Instruction::LD(LoadType::Byte(LoadByteTarget::HLI, LoadByteSource::A)))
    );
    assert_eq!(Instruction::from_byte(0x80, false), Some(Instruction::ADD(ArithmeticTarget::B)));
    assert_eq!(Instruction::from_byte(0x86, false), Some(Instruction::ADD(ArithmeticTarget::HLI)));
    assert_eq!(Instruction::from_byte(0x97, false), Some(Instruction::SUB(Target::A)));
    assert_eq!(Instruction::from_byte(0x9E, false), Some(Instruction::SBC(Target::IndirectHL)));
    assert_eq!(Instruction::from_byte(0xAF, false), Some(Instruction::XOR(Target::A)));
    assert_eq!(Instruction::from_byte(0xBE, false), Some(Instruction::CP(Target::IndirectHL)));
    assert_eq!(Instruction::from_byte(0xC3, false), Some(Instruction::JP(JumpTest::Always)));
    assert_eq!(Instruction::from_byte(0xC6, false), Some(Instruction::ADD(ArithmeticTarget::D8)));
    assert_eq!(Instruction::from_byte(0xC7, false), Some(Instruction::RST(0x00)));
    assert_eq!(Instruction::from_byte(0xCD, false), Some(Instruction::CALL(JumpTest::Always)));
    assert_eq!(Instruction::from_byte(0xD9, false), Some(Instruction::RETI));
    assert_eq!(
        Instruction::from_byte(0xE0, false),
        Some(Instruction::LD(LoadType::Byte(LoadByteTarget::N8I, LoadByteSource::A)))
    );
    assert_eq!(Instruction::from_byte(0xE8, false), Some(Instruction::ADDSP));
    assert_eq!(Instruction::from_byte(0xE9, false), Some(Instruction::JPHL));
    assert_eq!(Instruction::from_byte(0xF1, false), Some(Instruction::POP(StackTarget::AF)));
    assert_eq!(Instruction::from_byte(0xF3, false), Some(Instruction::DI));
    assert_eq!(Instruction::from_byte(0xF8, false), Some(Instruction::LD(LoadType::HLFromSPN)));
    assert_eq!(Instruction::from_byte(0xFB, false), Some(Instruction::EI));
    assert_eq!(Instruction::from_byte(0xFF, false), Some(Instruction::RST(0x38)));
}

#[test]
fn prefixed_table_spot_checks() {
    assert_eq!(Instruction::from_byte(0x00, true), Some(Instruction::RLC(PrefixTarget::B)));
    assert_eq!(Instruction::from_byte(0x11, true), Some(Instruction::RL(PrefixTarget::C)));
    assert_eq!(Instruction::from_byte(0x1E, true), Some(Instruction::RR(PrefixTarget::HLI)));
    assert_eq!(Instruction::from_byte(0x27, true), Some(Instruction::SLA(PrefixTarget::A)));
    assert_eq!(Instruction::from_byte(0x2C, true), Some(Instruction::SRA(PrefixTarget::H)));
    assert_eq!(Instruction::from_byte(0x37, true), Some(Instruction::SWAP(PrefixTarget::A)));
    assert_eq!(Instruction::from_byte(0x3F, true), Some(Instruction::SRL(PrefixTarget::A)));
    assert_eq!(Instruction::from_byte(0x40, true), Some(Instruction::BIT(0, PrefixTarget::B)));
    assert_eq!(Instruction::from_byte(0x7E, true), Some(Instruction::BIT(7, PrefixTarget::HLI)));
    assert_eq!(Instruction::from_byte(0x87, true), Some(Instruction::RES(0, PrefixTarget::A)));
    assert_eq!(Instruction::from_byte(0xFF, true), Some(Instruction::SETB(7, PrefixTarget::A)));
}
