use vstd::prelude::*;

verus! {

/// The documented instruction mnemonics.
#[derive(Clone, Copy, Debug, PartialEq, Eq, Structural)]
pub enum OpId {
    ADC,
    AND,
    ASL,
    BCC,
    BCS,
    BEQ,
    BIT,
    BMI,
    BNE,
    BPL,
    BRK,
    BVC,
    BVS,
    CLC,
    CLD,
    CLI,
    CLV,
    CMP,
    CPX,
    CPY,
    DEC,
    DEX,
    DEY,
    EOR,
    INC,
    INX,
    INY,
    JMP,
    JSR,
    LDA,
    LDX,
    LDY,
    LSR,
    NOP,
    ORA,
    PHA,
    PHP,
    PLA,
    PLP,
    ROL,
    ROR,
    RTI,
    RTS,
    SBC,
    SEC,
    SED,
    SEI,
    STA,
    STX,
    STY,
    TAX,
    TAY,
    TSX,
    TXA,
    TXS,
    TYA,
}

/// How an instruction's operand bytes become an address or a value.
#[derive(Clone, Copy, Debug, PartialEq, Eq, Structural)]
pub enum Addressing {
    Accumulator,
    Absolute,
    AbsoluteX,
    AbsoluteY,
    Immediate,
    Implied,
    Indirect,
    IndirectX,
    IndirectY,
    Relative,
    ZeroPage,
    ZeroPageX,
    ZeroPageY,
}

impl Addressing {
    /// Instruction length in bytes: the opcode byte plus the operand bytes.
    pub open spec fn spec_len(self) -> u8 {
        match self {
            Addressing::Accumulator | Addressing::Implied => 1,
            Addressing::Absolute | Addressing::AbsoluteX | Addressing::AbsoluteY | Addressing::Indirect => 3,
            _ => 2,
        }
    }

    pub fn len(self) -> (r: u8)
        ensures
            r == self.spec_len(),
    {
        match self {
            Addressing::Accumulator | Addressing::Implied => 1,
            Addressing::Absolute | Addressing::AbsoluteX | Addressing::AbsoluteY | Addressing::Indirect => 3,
            _ => 2,
        }
    }
}

/// Mnemonic and addressing mode of each valid opcode byte.
pub open spec fn opcode_table(code: u8) -> Option<(OpId, Addressing)> {
    match code {
        0x00 => Some((OpId::BRK, Addressing::Implied)),
        0x01 => Some((OpId::ORA, Addressing::IndirectX)),
        0x05 => Some((OpId::ORA, Addressing::ZeroPage)),
        0x06 => Some((OpId::ASL, Addressing::ZeroPage)),
        0x08 => Some((OpId::PHP, Addressing::Implied)),
        0x09 => Some((OpId::ORA, Addressing::Immediate)),
        0x0A => Some((OpId::ASL, Addressing::Accumulator)),
        0x0D => Some((OpId::ORA, Addressing::Absolute)),
        0x0E => Some((OpId::ASL, Addressing::Absolute)),
        0x10 => Some((OpId::BPL, Addressing::Relative)),
        0x11 => Some((OpId::ORA, Addressing::IndirectY)),
        0x15 => Some((OpId::ORA, Addressing::ZeroPageX)),
        0x16 => Some((OpId::ASL, Addressing::ZeroPageX)),
        0x18 => Some((OpId::CLC, Addressing::Implied)),
        0x19 => Some((OpId::ORA, Addressing::AbsoluteY)),
        0x1D => Some((OpId::ORA, Addressing::AbsoluteX)),
        0x1E => Some((OpId::ASL, Addressing::AbsoluteX)),
        0x20 => Some((OpId::JSR, Addressing::Absolute)),
        0x21 => Some((OpId::AND, Addressing::IndirectX)),
        0x24 => Some((OpId::BIT, Addressing::ZeroPage)),
        0x25 => Some((OpId::AND, Addressing::ZeroPage)),
        0x26 => Some((OpId::ROL, Addressing::ZeroPage)),
        0x28 => Some((OpId::PLP, Addressing::Implied)),
        0x29 => Some((OpId::AND, Addressing::Immediate)),
        0x2A => Some((OpId::ROL, Addressing::Accumulator)),
        0x2C => Some((OpId::BIT, Addressing::Absolute)),
        0x2D => Some((OpId::AND, Addressing::Absolute)),
        0x2E => Some((OpId::ROL, Addressing::Absolute)),
        0x30 => Some((OpId::BMI, Addressing::Relative)),
        0x31 => Some((OpId::AND, Addressing::IndirectY)),
        0x35 => Some((OpId::AND, Addressing::ZeroPageX)),
        0x36 => Some((OpId::ROL, Addressing::ZeroPageX)),
        0x38 => Some((OpId::SEC, Addressing::Implied)),
        0x39 => Some((OpId::AND, Addressing::AbsoluteY)),
        0x3D => Some((OpId::AND, Addressing::AbsoluteX)),
        0x3E => Some((OpId::ROL, Addressing::AbsoluteX)),
        0x40 => Some((OpId::RTI, Addressing::Implied)),
        0x41 => Some((OpId::EOR, Addressing::IndirectX)),
        0x45 => Some((OpId::EOR, Addressing::ZeroPage)),
        0x46 => Some((OpId::LSR, Addressing::ZeroPage)),
        0x48 => Some((OpId::PHA, Addressing::Implied)),
        0x49 => Some((OpId::EOR, Addressing::Immediate)),
        0x4A => Some((OpId::LSR, Addressing::Accumulator)),
        0x4C => Some((OpId::JMP, Addressing::Absolute)),
        0x4D => Some((OpId::EOR, Addressing::Absolute)),
        0x4E => Some((OpId::LSR, Addressing::Absolute)),
        0x50 => Some((OpId::BVC, Addressing::Relative)),
        0x51 => Some((OpId::EOR, Addressing::IndirectY)),
        0x55 => Some((OpId::EOR, Addressing::ZeroPageX)),
        0x56 => Some((OpId::LSR, Addressing::ZeroPageX)),
        0x58 => Some((OpId::CLI, Addressing::Implied)),
        0x59 => Some((OpId::EOR, Addressing::AbsoluteY)),
        0x5D => Some((OpId::EOR, Addressing::AbsoluteX)),
        0x5E => Some((OpId::LSR, Addressing::AbsoluteX)),
        0x60 => Some((OpId::RTS, Addressing::Implied)),
        0x61 => Some((OpId::ADC, Addressing::IndirectX)),
        0x65 => Some((OpId::ADC, Addressing::ZeroPage)),
        0x66 => Some((OpId::ROR, Addressing::ZeroPage)),
        0x68 => Some((OpId::PLA, Addressing::Implied)),
        0x69 => Some((OpId::ADC, Addressing::Immediate)),
        0x6A => Some((OpId::ROR, Addressing::Accumulator)),
        0x6C => Some((OpId::JMP, Addressing::Indirect)),
        0x6D => Some((OpId::ADC, Addressing::Absolute)),
        0x6E => Some((OpId::ROR, Addressing::Absolute)),
        0x70 => Some((OpId::BVS, Addressing::Relative)),
        0x71 => Some((OpId::ADC, Addressing::IndirectY)),
        0x75 => Some((OpId::ADC, Addressing::ZeroPageX)),
        0x76 => Some((OpId::ROR, Addressing::ZeroPageX)),
        0x78 => Some((OpId::SEI, Addressing::Implied)),
        0x79 => Some((OpId::ADC, Addressing::AbsoluteY)),
        0x7D => Some((OpId::ADC, Addressing::AbsoluteX)),
        0x7E => Some((OpId::ROR, Addressing::AbsoluteX)),
        0x81 => Some((OpId::STA, Addressing::IndirectX)),
        0x84 => Some((OpId::STY, Addressing::ZeroPage)),
        0x85 => Some((OpId::STA, Addressing::ZeroPage)),
        0x86 => Some((OpId::STX, Addressing::ZeroPage)),
        0x88 => Some((OpId::DEY, Addressing::Implied)),
        0x8A => Some((OpId::TXA, Addressing::Implied)),
        0x8C => Some((OpId::STY, Addressing::Absolute)),
        0x8D => Some((OpId::STA, Addressing::Absolute)),
        0x8E => Some((OpId::STX, Addressing::Absolute)),
        0x90 => Some((OpId::BCC, Addressing::Relative)),
        0x91 => Some((OpId::STA, Addressing::IndirectY)),
        0x94 => Some((OpId::STY, Addressing::ZeroPageX)),
        0x95 => Some((OpId::STA, Addressing::ZeroPageX)),
        0x96 => Some((OpId::STX, Addressing::ZeroPageY)),
        0x98 => Some((OpId::TYA, Addressing::Implied)),
        0x99 => Some((OpId::STA, Addressing::AbsoluteY)),
        0x9A => Some((OpId::TXS, Addressing::Implied)),
        0x9D => Some((OpId::STA, Addressing::AbsoluteX)),
        0xA0 => Some((OpId::LDY, Addressing::Immediate)),
        0xA1 => Some((OpId::LDA, Addressing::IndirectX)),
        0xA2 => Some((OpId::LDX, Addressing::Immediate)),
        0xA4 => Some((OpId::LDY, Addressing::ZeroPage)),
        0xA5 => Some((OpId::LDA, Addressing::ZeroPage)),
        0xA6 => Some((OpId::LDX, Addressing::ZeroPage)),
        0xA8 => Some((OpId::TAY, Addressing::Implied)),
        0xA9 => Some((OpId::LDA, Addressing::Immediate)),
        0xAA => Some((OpId::TAX, Addressing::Implied)),
        0xAC => Some((OpId::LDY, Addressing::Absolute)),
        0xAD => Some((OpId::LDA, Addressing::Absolute)),
        0xAE => Some((OpId::LDX, Addressing::Absolute)),
        0xB0 => Some((OpId::BCS, Addressing::Relative)),
        0xB1 => Some((OpId::LDA, Addressing::IndirectY)),
        0xB4 => Some((OpId::LDY, Addressing::ZeroPageX)),
        0xB5 => Some((OpId::LDA, Addressing::ZeroPageX)),
        0xB6 => Some((OpId::LDX, Addressing::ZeroPageY)),
        0xB8 => Some((OpId::CLV, Addressing::Implied)),
        0xB9 => Some((OpId::LDA, Addressing::AbsoluteY)),
        0xBA => Some((OpId::TSX, Addressing::Implied)),
        0xBC => Some((OpId::LDY, Addressing::AbsoluteX)),
        0xBD => Some((OpId::LDA, Addressing::AbsoluteX)),
        0xBE => Some((OpId::LDX, Addressing::AbsoluteY)),
        0xC0 => Some((OpId::CPY, Addressing::Immediate)),
        0xC1 => Some((OpId::CMP, Addressing::IndirectX)),
        0xC4 => Some((OpId::CPY, Addressing::ZeroPage)),
        0xC5 => Some((OpId::CMP, Addressing::ZeroPage)),
        0xC6 => Some((OpId::DEC, Addressing::ZeroPage)),
        0xC8 => Some((OpId::INY, Addressing::Implied)),
        0xC9 => Some((OpId::CMP, Addressing::Immediate)),
        0xCA => Some((OpId::DEX, Addressing::Implied)),
        0xCC => Some((OpId::CPY, Addressing::Absolute)),
        0xCD => Some((OpId::CMP, Addressing::Absolute)),
        0xCE => Some((OpId::DEC, Addressing::Absolute)),
        0xD0 => Some((OpId::BNE, Addressing::Relative)),
        0xD1 => Some((OpId::CMP, Addressing::IndirectY)),
        0xD5 => Some((OpId::CMP, Addressing::ZeroPageX)),
        0xD6 => Some((OpId::DEC, Addressing::ZeroPageX)),
        0xD8 => Some((OpId::CLD, Addressing::Implied)),
        0xD9 => Some((OpId::CMP, Addressing::AbsoluteY)),
        0xDD => Some((OpId::CMP, Addressing::AbsoluteX)),
        0xDE => Some((OpId::DEC, Addressing::AbsoluteX)),
        0xE0 => Some((OpId::CPX, Addressing::Immediate)),
        0xE1 => Some((OpId::SBC, Addressing::IndirectX)),
        0xE4 => Some((OpId::CPX, Addressing::ZeroPage)),
        0xE5 => Some((OpId::SBC, Addressing::ZeroPage)),
        0xE6 => Some((OpId::INC, Addressing::ZeroPage)),
        0xE8 => Some((OpId::INX, Addressing::Implied)),
        0xE9 => Some((OpId::SBC, Addressing::Immediate)),
        0xEA => Some((OpId::NOP, Addressing::Implied)),
        0xEC => Some((OpId::CPX, Addressing::Absolute)),
        0xED => Some((OpId::SBC, Addressing::Absolute)),
        0xEE => Some((OpId::INC, Addressing::Absolute)),
        0xF0 => Some((OpId::BEQ, Addressing::Relative)),
        0xF1 => Some((OpId::SBC, Addressing::IndirectY)),
        0xF5 => Some((OpId::SBC, Addressing::ZeroPageX)),
        0xF6 => Some((OpId::INC, Addressing::ZeroPageX)),
        0xF8 => Some((OpId::SED, Addressing::Implied)),
        0xF9 => Some((OpId::SBC, Addressing::AbsoluteY)),
        0xFD => Some((OpId::SBC, Addressing::AbsoluteX)),
        0xFE => Some((OpId::INC, Addressing::AbsoluteX)),
        _ => None,
    }
}

/// The metadata of one opcode byte.
#[derive(Clone, Copy, Debug, PartialEq, Eq, Structural)]
pub struct OpCode {
    pub id: OpId,
    pub addressing: Addressing,
    /// Total instruction length: 1, 2 or 3 bytes.
    pub bytes: u8,
}

impl OpCode {
    /// The opcode that `code` denotes, as `OpCode::get` returns it.
    pub open spec fn spec_get(code: u8) -> Option<OpCode> {
        match opcode_table(code) {
            Some((id, addressing)) => Some(OpCode { id, addressing, bytes: addressing.spec_len() }),
            None => None,
        }
    }

    /// Looks up the opcode for byte `code`; `None` for an invalid byte.
    pub fn get(code: u8) -> (r: Option<OpCode>)
        ensures
            r == OpCode::spec_get(code),
    {
        let (id, addressing) = match code {
            0x00 => (OpId::BRK, Addressing::Implied),
            0x01 => (OpId::ORA, Addressing::IndirectX),
            0x05 => (OpId::ORA, Addressing::ZeroPage),
            0x06 => (OpId::ASL, Addressing::ZeroPage),
            0x08 => (OpId::PHP, Addressing::Implied),
            0x09 => (OpId::ORA, Addressing::Immediate),
            0x0A => (OpId::ASL, Addressing::Accumulator),
            0x0D => (OpId::ORA, Addressing::Absolute),
            0x0E => (OpId::ASL, Addressing::Absolute),
            0x10 => (OpId::BPL, Addressing::Relative),
            0x11 => (OpId::ORA, Addressing::IndirectY),
            0x15 => (OpId::ORA, Addressing::ZeroPageX),
            0x16 => (OpId::ASL, Addressing::ZeroPageX),
            0x18 => (OpId::CLC, Addressing::Implied),
            0x19 => (OpId::ORA, Addressing::AbsoluteY),
            0x1D => (OpId::ORA, Addressing::AbsoluteX),
            0x1E => (OpId::ASL, Addressing::AbsoluteX),
            0x20 => (OpId::JSR, Addressing::Absolute),
            0x21 => (OpId::AND, Addressing::IndirectX),
            0x24 => (OpId::BIT, Addressing::ZeroPage),
            0x25 => (OpId::AND, Addressing::ZeroPage),
            0x26 => (OpId::ROL, Addressing::ZeroPage),
            0x28 => (OpId::PLP, Addressing::Implied),
            0x29 => (OpId::AND, Addressing::Immediate),
            0x2A => (OpId::ROL, Addressing::Accumulator),
            0x2C => (OpId::BIT, Addressing::Absolute),
            0x2D => (OpId::AND, Addressing::Absolute),
            0x2E => (OpId::ROL, Addressing::Absolute),
            0x30 => (OpId::BMI, Addressing::Relative),
            0x31 => (OpId::AND, Addressing::IndirectY),
            0x35 => (OpId::AND, Addressing::ZeroPageX),
            0x36 => (OpId::ROL, Addressing::ZeroPageX),
            0x38 => (OpId::SEC, Addressing::Implied),
            0x39 => (OpId::AND, Addressing::AbsoluteY),
            0x3D => (OpId::AND, Addressing::AbsoluteX),
            0x3E => (OpId::ROL, Addressing::AbsoluteX),
            0x40 => (OpId::RTI, Addressing::Implied),
            0x41 => (OpId::EOR, Addressing::IndirectX),
            0x45 => (OpId::EOR, Addressing::ZeroPage),
            0x46 => (OpId::LSR, Addressing::ZeroPage),
            0x48 => (OpId::PHA, Addressing::Implied),
            0x49 => (OpId::EOR, Addressing::Immediate),
            0x4A => (OpId::LSR, Addressing::Accumulator),
            0x4C => (OpId::JMP, Addressing::Absolute),
            0x4D => (OpId::EOR, Addressing::Absolute),
            0x4E => (OpId::LSR, Addressing::Absolute),
            0x50 => (OpId::BVC, Addressing::Relative),
            0x51 => (OpId::EOR, Addressing::IndirectY),
            0x55 => (OpId::EOR, Addressing::ZeroPageX),
            0x56 => (OpId::LSR, Addressing::ZeroPageX),
            0x58 => (OpId::CLI, Addressing::Implied),
            0x59 => (OpId::EOR, Addressing::AbsoluteY),
            0x5D => (OpId::EOR, Addressing::AbsoluteX),
            0x5E => (OpId::LSR, Addressing::AbsoluteX),
            0x60 => (OpId::RTS, Addressing::Implied),
            0x61 => (OpId::ADC, Addressing::IndirectX),
            0x65 => (OpId::ADC, Addressing::ZeroPage),
            0x66 => (OpId::ROR, Addressing::ZeroPage),
            0x68 => (OpId::PLA, Addressing::Implied),
            0x69 => (OpId::ADC, Addressing::Immediate),
            0x6A => (OpId::ROR, Addressing::Accumulator),
            0x6C => (OpId::JMP, Addressing::Indirect),
            0x6D => (OpId::ADC, Addressing::Absolute),
            0x6E => (OpId::ROR, Addressing::Absolute),
            0x70 => (OpId::BVS, Addressing::Relative),
            0x71 => (OpId::ADC, Addressing::IndirectY),
            0x75 => (OpId::ADC, Addressing::ZeroPageX),
            0x76 => (OpId::ROR, Addressing::ZeroPageX),
            0x78 => (OpId::SEI, Addressing::Implied),
            0x79 => (OpId::ADC, Addressing::AbsoluteY),
            0x7D => (OpId::ADC, Addressing::AbsoluteX),
            0x7E => (OpId::ROR, Addressing::AbsoluteX),
            0x81 => (OpId::STA, Addressing::IndirectX),
            0x84 => (OpId::STY, Addressing::ZeroPage),
            0x85 => (OpId::STA, Addressing::ZeroPage),
            0x86 => (OpId::STX, Addressing::ZeroPage),
            0x88 => (OpId::DEY, Addressing::Implied),
            0x8A => (OpId::TXA, Addressing::Implied),
            0x8C => (OpId::STY, Addressing::Absolute),
            0x8D => (OpId::STA, Addressing::Absolute),
            0x8E => (OpId::STX, Addressing::Absolute),
            0x90 => (OpId::BCC, Addressing::Relative),
            0x91 => (OpId::STA, Addressing::IndirectY),
            0x94 => (OpId::STY, Addressing::ZeroPageX),
            0x95 => (OpId::STA, Addressing::ZeroPageX),
            0x96 => (OpId::STX, Addressing::ZeroPageY),
            0x98 => (OpId::TYA, Addressing::Implied),
            0x99 => (OpId::STA, Addressing::AbsoluteY),
            0x9A => (OpId::TXS, Addressing::Implied),
            0x9D => (OpId::STA, Addressing::AbsoluteX),
            0xA0 => (OpId::LDY, Addressing::Immediate),
            0xA1 => (OpId::LDA, Addressing::IndirectX),
            0xA2 => (OpId::LDX, Addressing::Immediate),
            0xA4 => (OpId::LDY, Addressing::ZeroPage),
            0xA5 => (OpId::LDA, Addressing::ZeroPage),
            0xA6 => (OpId::LDX, Addressing::ZeroPage),
            0xA8 => (OpId::TAY, Addressing::Implied),
            0xA9 => (OpId::LDA, Addressing::Immediate),
            0xAA => (OpId::TAX, Addressing::Implied),
            0xAC => (OpId::LDY, Addressing::Absolute),
            0xAD => (OpId::LDA, Addressing::Absolute),
            0xAE => (OpId::LDX, Addressing::Absolute),
            0xB0 => (OpId::BCS, Addressing::Relative),
            0xB1 => (OpId::LDA, Addressing::IndirectY),
            0xB4 => (OpId::LDY, Addressing::ZeroPageX),
            0xB5 => (OpId::LDA, Addressing::ZeroPageX),
            0xB6 => (OpId::LDX, Addressing::ZeroPageY),
            0xB8 => (OpId::CLV, Addressing::Implied),
            0xB9 => (OpId::LDA, Addressing::AbsoluteY),
            0xBA => (OpId::TSX, Addressing::Implied),
            0xBC => (OpId::LDY, Addressing::AbsoluteX),
            0xBD => (OpId::LDA, Addressing::AbsoluteX),
            0xBE => (OpId::LDX, Addressing::AbsoluteY),
            0xC0 => (OpId::CPY, Addressing::Immediate),
            0xC1 => (OpId::CMP, Addressing::IndirectX),
            0xC4 => (OpId::CPY, Addressing::ZeroPage),
            0xC5 => (OpId::CMP, Addressing::ZeroPage),
            0xC6 => (OpId::DEC, Addressing::ZeroPage),
            0xC8 => (OpId::INY, Addressing::Implied),
            0xC9 => (OpId::CMP, Addressing::Immediate),
            0xCA => (OpId::DEX, Addressing::Implied),
            0xCC => (OpId::CPY, Addressing::Absolute),
            0xCD => (OpId::CMP, Addressing::Absolute),
            0xCE => (OpId::DEC, Addressing::Absolute),
            0xD0 => (OpId::BNE, Addressing::Relative),
            0xD1 => (OpId::CMP, Addressing::IndirectY),
            0xD5 => (OpId::CMP, Addressing::ZeroPageX),
            0xD6 => (OpId::DEC, Addressing::ZeroPageX),
            0xD8 => (OpId::CLD, Addressing::Implied),
            0xD9 => (OpId::CMP, Addressing::AbsoluteY),
            0xDD => (OpId::CMP, Addressing::AbsoluteX),
            0xDE => (OpId::DEC, Addressing::AbsoluteX),
            0xE0 => (OpId::CPX, Addressing::Immediate),
            0xE1 => (OpId::SBC, Addressing::IndirectX),
            0xE4 => (OpId::CPX, Addressing::ZeroPage),
            0xE5 => (OpId::SBC, Addressing::ZeroPage),
            0xE6 => (OpId::INC, Addressing::ZeroPage),
            0xE8 => (OpId::INX, Addressing::Implied),
            0xE9 => (OpId::SBC, Addressing::Immediate),
            0xEA => (OpId::NOP, Addressing::Implied),
            0xEC => (OpId::CPX, Addressing::Absolute),
            0xED => (OpId::SBC, Addressing::Absolute),
            0xEE => (OpId::INC, Addressing::Absolute),
            0xF0 => (OpId::BEQ, Addressing::Relative),
            0xF1 => (OpId::SBC, Addressing::IndirectY),
            0xF5 => (OpId::SBC, Addressing::ZeroPageX),
            0xF6 => (OpId::INC, Addressing::ZeroPageX),
            0xF8 => (OpId::SED, Addressing::Implied),
            0xF9 => (OpId::SBC, Addressing::AbsoluteY),
            0xFD => (OpId::SBC, Addressing::AbsoluteX),
            0xFE => (OpId::INC, Addressing::AbsoluteX),
            _ => {
                return None;
            },
        };
        Some(OpCode { id, addressing, bytes: addressing.len() })
    }
}

} // verus!
