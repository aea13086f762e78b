//! The 6502 instruction set: operations, addressing modes, and the
//! 256-entry opcode table (following the well-known opcode matrix,
//! unofficial slots included).

use vstd::prelude::*;

verus! {

/// Every operation the interpreter knows, official and unofficial.
#[derive(Clone, Copy, Debug, PartialEq, Eq, Structural)]
#[allow(clippy::upper_case_acronyms)]
pub enum Operation {
    ADC, AND, ASL, BCC, BCS, BEQ, BIT, BMI,
    BNE, BPL, BRK, BVC, BVS, CLC, CLD, CLI,
    CLV, CMP, CPX, CPY, DEC, DEX, DEY, EOR,
    INC, INX, INY, JMP, JSR, LDA, LDX, LDY,
    LSR, NOP, ORA, PHA, PHP, PLA, PLP, ROL,
    ROR, RTI, RTS, SBC, SEC, SED, SEI, STA,
    STX, STY, TAX, TAY, TSX, TXA, TXS, TYA,
    KIL, ISC, DCP, AXS, LAS, LAX, AHX, SAX,
    XAA, SHX, RRA, TAS, SHY, ARR, SRE, ALR,
    RLA, ANC, SLO,
}

/// The thirteen 6502 addressing modes.
#[derive(Clone, Copy, Debug, PartialEq, Eq, Structural)]
pub enum AddressMode {
    Implicit,
    Accumulator,
    Immediate,
    ZeroPage,
    ZeroPageX,
    ZeroPageY,
    Relative,
    Absolute,
    AbsoluteX,
    AbsoluteY,
    Indirect,
    IndirectX,
    IndirectY,
}

/// One opcode table entry: operation, addressing mode, documented base
/// cycle count, and whether a crossed page boundary costs one more cycle.
pub type Opcode = (Operation, AddressMode, u8, bool);

/// How many bytes an instruction in this mode occupies, opcode included.
pub open spec fn spec_byte_count(mode: AddressMode) -> u16 {
    match mode {
        AddressMode::Accumulator | AddressMode::Implicit => 1,
        AddressMode::ZeroPage
        | AddressMode::ZeroPageX
        | AddressMode::ZeroPageY
        | AddressMode::Relative
        | AddressMode::Immediate
        | AddressMode::Indirect
        | AddressMode::IndirectX
        | AddressMode::IndirectY => 2,
        AddressMode::Absolute | AddressMode::AbsoluteX | AddressMode::AbsoluteY => 3,
    }
}

impl AddressMode {
    /// Byte count of an instruction that uses this mode.
    pub fn byte_count(&self) -> (r: u16)
        ensures
            r == spec_byte_count(*self),
    {
        match self {
            AddressMode::Accumulator | AddressMode::Implicit => 1,
            AddressMode::ZeroPage
            | AddressMode::ZeroPageX
            | AddressMode::ZeroPageY
            | AddressMode::Relative
            | AddressMode::Immediate
            | AddressMode::Indirect
            | AddressMode::IndirectX
            | AddressMode::IndirectY => 2,
            AddressMode::Absolute | AddressMode::AbsoluteX | AddressMode::AbsoluteY => 3,
        }
    }
}

/// The table entry for an opcode byte.
#[verifier::opaque]
pub open spec fn spec_opcode(code: u8) -> Opcode {
    match code {
        0x00 => (Operation::BRK, AddressMode::Implicit, 7, false),
        0x01 => (Operation::ORA, AddressMode::IndirectX, 6, false),
        0x02 => (Operation::KIL, AddressMode::Implicit, 0, false),
        0x03 => (Operation::SLO, AddressMode::IndirectX, 8, false),
        0x04 => (Operation::NOP, AddressMode::ZeroPage, 3, false),
        0x05 => (Operation::ORA, AddressMode::ZeroPage, 3, false),
        0x06 => (Operation::ASL, AddressMode::ZeroPage, 5, false),
        0x07 => (Operation::SLO, AddressMode::ZeroPage, 5, false),
        0x08 => (Operation::PHP, AddressMode::Implicit, 3, false),
        0x09 => (Operation::ORA, AddressMode::Immediate, 2, false),
        0x0A => (Operation::ASL, AddressMode::Accumulator, 2, false),
        0x0B => (Operation::ANC, AddressMode::Immediate, 2, false),
        0x0C => (Operation::NOP, AddressMode::Absolute, 4, false),
        0x0D => (Operation::ORA, AddressMode::Absolute, 4, false),
        0x0E => (Operation::ASL, AddressMode::Absolute, 6, false),
        0x0F => (Operation::SLO, AddressMode::Absolute, 6, false),
        0x10 => (Operation::BPL, AddressMode::Relative, 2, true),
        0x11 => (Operation::ORA, AddressMode::IndirectY, 5, true),
        0x12 => (Operation::KIL, AddressMode::Implicit, 0, false),
        0x13 => (Operation::SLO, AddressMode::IndirectY, 8, false),
        0x14 => (Operation::NOP, AddressMode::ZeroPageX, 4, false),
        0x15 => (Operation::ORA, AddressMode::ZeroPageX, 4, false),
        0x16 => (Operation::ASL, AddressMode::ZeroPageX, 6, false),
        0x17 => (Operation::SLO, AddressMode::ZeroPageX, 6, false),
        0x18 => (Operation::CLC, AddressMode::Implicit, 2, false),
        0x19 => (Operation::ORA, AddressMode::AbsoluteY, 4, true),
        0x1A => (Operation::NOP, AddressMode::Implicit, 2, false),
        0x1B => (Operation::SLO, AddressMode::AbsoluteY, 7, false),
        0x1C => (Operation::NOP, AddressMode::AbsoluteX, 4, true),
        0x1D => (Operation::ORA, AddressMode::AbsoluteX, 4, true),
        0x1E => (Operation::ASL, AddressMode::AbsoluteX, 7, false),
        0x1F => (Operation::SLO, AddressMode::AbsoluteX, 7, false),
        0x20 => (Operation::JSR, AddressMode::Absolute, 6, false),
        0x21 => (Operation::AND, AddressMode::IndirectX, 6, false),
        0x22 => (Operation::KIL, AddressMode::Implicit, 0, false),
        0x23 => (Operation::RLA, AddressMode::IndirectX, 8, false),
        0x24 => (Operation::BIT, AddressMode::ZeroPage, 3, false),
        0x25 => (Operation::AND, AddressMode::ZeroPage, 3, false),
        0x26 => (Operation::ROL, AddressMode::ZeroPage, 5, false),
        0x27 => (Operation::RLA, AddressMode::ZeroPage, 5, false),
        0x28 => (Operation::PLP, AddressMode::Implicit, 4, false),
        0x29 => (Operation::AND, AddressMode::Immediate, 2, false),
        0x2A => (Operation::ROL, AddressMode::Accumulator, 2, false),
        0x2B => (Operation::ANC, AddressMode::Immediate, 2, false),
        0x2C => (Operation::BIT, AddressMode::Absolute, 4, false),
        0x2D => (Operation::AND, AddressMode::Absolute, 4, false),
        0x2E => (Operation::ROL, AddressMode::Absolute, 6, false),
        0x2F => (Operation::RLA, AddressMode::Absolute, 6, false),
        0x30 => (Operation::BMI, AddressMode::Relative, 2, true),
        0x31 => (Operation::AND, AddressMode::IndirectY, 5, true),
        0x32 => (Operation::KIL, AddressMode::Implicit, 0, false),
        0x33 => (Operation::RLA, AddressMode::IndirectY, 8, false),
        0x34 => (Operation::NOP, AddressMode::ZeroPageX, 4, false),
        0x35 => (Operation::AND, AddressMode::ZeroPageX, 4, false),
        0x36 => (Operation::ROL, AddressMode::ZeroPageX, 6, false),
        0x37 => (Operation::RLA, AddressMode::ZeroPageX, 6, false),
        0x38 => (Operation::SEC, AddressMode::Implicit, 2, false),
        0x39 => (Operation::AND, AddressMode::AbsoluteY, 4, true),
        0x3A => (Operation::NOP, AddressMode::Implicit, 2, false),
        0x3B => (Operation::RLA, AddressMode::AbsoluteY, 7, false),
        0x3C => (Operation::NOP, AddressMode::AbsoluteX, 4, true),
        0x3D => (Operation::AND, AddressMode::AbsoluteX, 4, true),
        0x3E => (Operation::ROL, AddressMode::AbsoluteX, 7, false),
        0x3F => (Operation::RLA, AddressMode::AbsoluteX, 7, false),
        0x40 => (Operation::RTI, AddressMode::Implicit, 6, false),
        0x41 => (Operation::EOR, AddressMode::IndirectX, 6, false),
        0x42 => (Operation::KIL, AddressMode::Implicit, 0, false),
        0x43 => (Operation::SRE, AddressMode::IndirectX, 8, false),
        0x44 => (Operation::NOP, AddressMode::ZeroPage, 3, false),
        0x45 => (Operation::EOR, AddressMode::ZeroPage, 3, false),
        0x46 => (Operation::LSR, AddressMode::ZeroPage, 5, false),
        0x47 => (Operation::SRE, AddressMode::ZeroPage, 5, false),
        0x48 => (Operation::PHA, AddressMode::Implicit, 3, false),
        0x49 => (Operation::EOR, AddressMode::Immediate, 2, false),
        0x4A => (Operation::LSR, AddressMode::Accumulator, 2, false),
        0x4B => (Operation::ALR, AddressMode::Immediate, 2, false),
        0x4C => (Operation::JMP, AddressMode::Absolute, 3, false),
        0x4D => (Operation::EOR, AddressMode::Absolute, 4, false),
        0x4E => (Operation::LSR, AddressMode::Absolute, 6, false),
        0x4F => (Operation::SRE, AddressMode::Absolute, 6, false),
        0x50 => (Operation::BVC, AddressMode::Relative, 2, true),
        0x51 => (Operation::EOR, AddressMode::IndirectY, 5, true),
        0x52 => (Operation::KIL, AddressMode::Implicit, 0, false),
        0x53 => (Operation::SRE, AddressMode::IndirectY, 8, false),
        0x54 => (Operation::NOP, AddressMode::ZeroPageX, 4, false),
        0x55 => (Operation::EOR, AddressMode::ZeroPageX, 4, false),
        0x56 => (Operation::LSR, AddressMode::ZeroPageX, 6, false),
        0x57 => (Operation::SRE, AddressMode::ZeroPageX, 6, false),
        0x58 => (Operation::CLI, AddressMode::Implicit, 2, false),
        0x59 => (Operation::EOR, AddressMode::AbsoluteY, 4, true),
        0x5A => (Operation::NOP, AddressMode::Implicit, 2, false),
        0x5B => (Operation::SRE, AddressMode::AbsoluteY, 7, false),
        0x5C => (Operation::NOP, AddressMode::AbsoluteX, 4, true),
        0x5D => (Operation::EOR, AddressMode::AbsoluteX, 4, true),
        0x5E => (Operation::LSR, AddressMode::AbsoluteX, 7, false),
        0x5F => (Operation::SRE, AddressMode::AbsoluteX, 7, false),
        0x60 => (Operation::RTS, AddressMode::Implicit, 6, false),
        0x61 => (Operation::ADC, AddressMode::IndirectX, 6, false),
        0x62 => (Operation::KIL, AddressMode::Implicit, 0, false),
        0x63 => (Operation::RRA, AddressMode::IndirectX, 8, false),
        0x64 => (Operation::NOP, AddressMode::ZeroPage, 3, false),
        0x65 => (Operation::ADC, AddressMode::ZeroPage, 3, false),
        0x66 => (Operation::ROR, AddressMode::ZeroPage, 5, false),
        0x67 => (Operation::RRA, AddressMode::ZeroPage, 5, false),
        0x68 => (Operation::PLA, AddressMode::Implicit, 4, false),
        0x69 => (Operation::ADC, AddressMode::Immediate, 2, false),
        0x6A => (Operation::ROR, AddressMode::Accumulator, 2, false),
        0x6B => (Operation::ARR, AddressMode::Immediate, 2, false),
        0x6C => (Operation::JMP, AddressMode::Indirect, 5, false),
        0x6D => (Operation::ADC, AddressMode::Absolute, 4, false),
        0x6E => (Operation::ROR, AddressMode::Absolute, 6, false),
        0x6F => (Operation::RRA, AddressMode::Absolute, 6, false),
        0x70 => (Operation::BVS, AddressMode::Relative, 2, true),
        0x71 => (Operation::ADC, AddressMode::IndirectY, 5, true),
        0x72 => (Operation::KIL, AddressMode::Implicit, 0, false),
        0x73 => (Operation::RRA, AddressMode::IndirectY, 8, false),
        0x74 => (Operation::NOP, AddressMode::ZeroPageX, 4, false),
        0x75 => (Operation::ADC, AddressMode::ZeroPageX, 4, false),
        0x76 => (Operation::ROR, AddressMode::ZeroPageX, 6, false),
        0x77 => (Operation::RRA, AddressMode::ZeroPageX, 6, false),
        0x78 => (Operation::SEI, AddressMode::Implicit, 2, false),
        0x79 => (Operation::ADC, AddressMode::AbsoluteY, 4, true),
        0x7A => (Operation::NOP, AddressMode::Implicit, 2, false),
        0x7B => (Operation::RRA, AddressMode::AbsoluteY, 7, false),
        0x7C => (Operation::NOP, AddressMode::AbsoluteX, 4, true),
        0x7D => (Operation::ADC, AddressMode::AbsoluteX, 4, true),
        0x7E => (Operation::ROR, AddressMode::AbsoluteX, 7, false),
        0x7F => (Operation::RRA, AddressMode::AbsoluteX, 7, false),
        0x80 => (Operation::NOP, AddressMode::Immediate, 2, false),
        0x81 => (Operation::STA, AddressMode::IndirectX, 6, false),
        0x82 => (Operation::NOP, AddressMode::Immediate, 2, false),
        0x83 => (Operation::SAX, AddressMode::IndirectX, 6, false),
        0x84 => (Operation::STY, AddressMode::ZeroPage, 3, false),
        0x85 => (Operation::STA, AddressMode::ZeroPage, 3, false),
        0x86 => (Operation::STX, AddressMode::ZeroPage, 3, false),
        0x87 => (Operation::SAX, AddressMode::ZeroPage, 3, false),
        0x88 => (Operation::DEY, AddressMode::Implicit, 2, false),
        0x89 => (Operation::NOP, AddressMode::Immediate, 2, false),
        0x8A => (Operation::TXA, AddressMode::Implicit, 2, false),
        0x8B => (Operation::XAA, AddressMode::Immediate, 2, false),
        0x8C => (Operation::STY, AddressMode::Absolute, 4, false),
        0x8D => (Operation::STA, AddressMode::Absolute, 4, false),
        0x8E => (Operation::STX, AddressMode::Absolute, 4, false),
        0x8F => (Operation::SAX, AddressMode::Absolute, 4, false),
        0x90 => (Operation::BCC, AddressMode::Relative, 2, true),
        0x91 => (Operation::STA, AddressMode::IndirectY, 6, false),
        0x92 => (Operation::KIL, AddressMode::Implicit, 0, false),
        0x93 => (Operation::AHX, AddressMode::IndirectY, 6, false),
        0x94 => (Operation::STY, AddressMode::ZeroPageX, 4, false),
        0x95 => (Operation::STA, AddressMode::ZeroPageX, 4, false),
        0x96 => (Operation::STX, AddressMode::ZeroPageY, 4, false),
        0x97 => (Operation::SAX, AddressMode::ZeroPageY, 4, false),
        0x98 => (Operation::TYA, AddressMode::Implicit, 2, false),
        0x99 => (Operation::STA, AddressMode::AbsoluteY, 5, false),
        0x9A => (Operation::TXS, AddressMode::Implicit, 2, false),
        0x9B => (Operation::TAS, AddressMode::AbsoluteY, 5, false),
        0x9C => (Operation::SHY, AddressMode::AbsoluteX, 5, false),
        0x9D => (Operation::STA, AddressMode::AbsoluteX, 5, false),
        0x9E => (Operation::SHX, AddressMode::AbsoluteY, 5, false),
        0x9F => (Operation::AHX, AddressMode::AbsoluteY, 5, false),
        0xA0 => (Operation::LDY, AddressMode::Immediate, 2, false),
        0xA1 => (Operation::LDA, AddressMode::IndirectX, 6, false),
        0xA2 => (Operation::LDX, AddressMode::Immediate, 2, false),
        0xA3 => (Operation::LAX, AddressMode::IndirectX, 6, false),
        0xA4 => (Operation::LDY, AddressMode::ZeroPage, 3, false),
        0xA5 => (Operation::LDA, AddressMode::ZeroPage, 3, false),
        0xA6 => (Operation::LDX, AddressMode::ZeroPage, 3, false),
        0xA7 => (Operation::LAX, AddressMode::ZeroPage, 3, false),
        0xA8 => (Operation::TAY, AddressMode::Implicit, 2, false),
        0xA9 => (Operation::LDA, AddressMode::Immediate, 2, false),
        0xAA => (Operation::TAX, AddressMode::Implicit, 2, false),
        0xAB => (Operation::LAX, AddressMode::Immediate, 2, false),
        0xAC => (Operation::LDY, AddressMode::Absolute, 4, false),
        0xAD => (Operation::LDA, AddressMode::Absolute, 4, false),
        0xAE => (Operation::LDX, AddressMode::Absolute, 4, false),
        0xAF => (Operation::LAX, AddressMode::Absolute, 4, false),
        0xB0 => (Operation::BCS, AddressMode::Relative, 2, true),
        0xB1 => (Operation::LDA, AddressMode::IndirectY, 5, true),
        0xB2 => (Operation::KIL, AddressMode::Implicit, 0, false),
        0xB3 => (Operation::LAX, AddressMode::IndirectY, 5, true),
        0xB4 => (Operation::LDY, AddressMode::ZeroPageX, 4, false),
        0xB5 => (Operation::LDA, AddressMode::ZeroPageX, 4, false),
        0xB6 => (Operation::LDX, AddressMode::ZeroPageY, 4, false),
        0xB7 => (Operation::LAX, AddressMode::ZeroPageY, 4, false),
        0xB8 => (Operation::CLV, AddressMode::Implicit, 2, false),
        0xB9 => (Operation::LDA, AddressMode::AbsoluteY, 4, true),
        0xBA => (Operation::TSX, AddressMode::Implicit, 2, false),
        0xBB => (Operation::LAS, AddressMode::AbsoluteY, 4, true),
        0xBC => (Operation::LDY, AddressMode::AbsoluteX, 4, true),
        0xBD => (Operation::LDA, AddressMode::AbsoluteX, 4, true),
        0xBE => (Operation::LDX, AddressMode::AbsoluteY, 4, true),
        0xBF => (Operation::LAX, AddressMode::AbsoluteY, 4, true),
        0xC0 => (Operation::CPY, AddressMode::Immediate, 2, false),
        0xC1 => (Operation::CMP, AddressMode::IndirectX, 6, false),
        0xC2 => (Operation::NOP, AddressMode::Immediate, 2, false),
        0xC3 => (Operation::DCP, AddressMode::IndirectX, 8, false),
        0xC4 => (Operation::CPY, AddressMode::ZeroPage, 3, false),
        0xC5 => (Operation::CMP, AddressMode::ZeroPage, 3, false),
        0xC6 => (Operation::DEC, AddressMode::ZeroPage, 5, false),
        0xC7 => (Operation::DCP, AddressMode::ZeroPage, 5, false),
        0xC8 => (Operation::INY, AddressMode::Implicit, 2, false),
        0xC9 => (Operation::CMP, AddressMode::Immediate, 2, false),
        0xCA => (Operation::DEX, AddressMode::Implicit, 2, false),
        0xCB => (Operation::AXS, AddressMode::Immediate, 2, false),
        0xCC => (Operation::CPY, AddressMode::Absolute, 4, false),
        0xCD => (Operation::CMP, AddressMode::Absolute, 4, false),
        0xCE => (Operation::DEC, AddressMode::Absolute, 6, false),
        0xCF => (Operation::DCP, AddressMode::Absolute, 6, false),
        0xD0 => (Operation::BNE, AddressMode::Relative, 2, true),
        0xD1 => (Operation::CMP, AddressMode::IndirectY, 5, true),
        0xD2 => (Operation::KIL, AddressMode::Implicit, 0, false),
        0xD3 => (Operation::DCP, AddressMode::IndirectY, 8, false),
        0xD4 => (Operation::NOP, AddressMode::ZeroPageX, 4, false),
        0xD5 => (Operation::CMP, AddressMode::ZeroPageX, 4, false),
        0xD6 => (Operation::DEC, AddressMode::ZeroPageX, 6, false),
        0xD7 => (Operation::DCP, AddressMode::ZeroPageX, 6, false),
        0xD8 => (Operation::CLD, AddressMode::Implicit, 2, false),
        0xD9 => (Operation::CMP, AddressMode::AbsoluteY, 4, true),
        0xDA => (Operation::NOP, AddressMode::Implicit, 2, false),
        0xDB => (Operation::DCP, AddressMode::AbsoluteY, 7, false),
        0xDC => (Operation::NOP, AddressMode::AbsoluteX, 4, true),
        0xDD => (Operation::CMP, AddressMode::AbsoluteX, 4, true),
        0xDE => (Operation::DEC, AddressMode::AbsoluteX, 7, false),
        0xDF => (Operation::DCP, AddressMode::AbsoluteX, 7, false),
        0xE0 => (Operation::CPX, AddressMode::Immediate, 2, false),
        0xE1 => (Operation::SBC, AddressMode::IndirectX, 6, false),
        0xE2 => (Operation::NOP, AddressMode::Immediate, 2, false),
        0xE3 => (Operation::ISC, AddressMode::IndirectX, 8, false),
        0xE4 => (Operation::CPX, AddressMode::ZeroPage, 3, false),
        0xE5 => (Operation::SBC, AddressMode::ZeroPage, 3, false),
        0xE6 => (Operation::INC, AddressMode::ZeroPage, 5, false),
        0xE7 => (Operation::ISC, AddressMode::ZeroPage, 5, false),
        0xE8 => (Operation::INX, AddressMode::Implicit, 2, false),
        0xE9 => (Operation::SBC, AddressMode::Immediate, 2, false),
        0xEA => (Operation::NOP, AddressMode::Implicit, 2, false),
        0xEB => (Operation::SBC, AddressMode::Immediate, 2, false),
        0xEC => (Operation::CPX, AddressMode::Absolute, 4, false),
        0xED => (Operation::SBC, AddressMode::Absolute, 4, false),
        0xEE => (Operation::INC, AddressMode::Absolute, 6, false),
        0xEF => (Operation::ISC, AddressMode::Absolute, 6, false),
        0xF0 => (Operation::BEQ, AddressMode::Relative, 2, true),
        0xF1 => (Operation::SBC, AddressMode::IndirectY, 5, true),
        0xF2 => (Operation::KIL, AddressMode::Implicit, 0, false),
        0xF3 => (Operation::ISC, AddressMode::IndirectY, 8, false),
        0xF4 => (Operation::NOP, AddressMode::ZeroPageX, 4, false),
        0xF5 => (Operation::SBC, AddressMode::ZeroPageX, 4, false),
        0xF6 => (Operation::INC, AddressMode::ZeroPageX, 6, false),
        0xF7 => (Operation::ISC, AddressMode::ZeroPageX, 6, false),
        0xF8 => (Operation::SED, AddressMode::Implicit, 2, false),
        0xF9 => (Operation::SBC, AddressMode::AbsoluteY, 4, true),
        0xFA => (Operation::NOP, AddressMode::Implicit, 2, false),
        0xFB => (Operation::ISC, AddressMode::AbsoluteY, 7, false),
        0xFC => (Operation::NOP, AddressMode::AbsoluteX, 4, true),
        0xFD => (Operation::SBC, AddressMode::AbsoluteX, 4, true),
        0xFE => (Operation::INC, AddressMode::AbsoluteX, 7, false),
        0xFF => (Operation::ISC, AddressMode::AbsoluteX, 7, false),
    }
}

/// Looks an opcode byte up in the table.
pub fn resolve(code: u8) -> (r: Opcode)
    ensures
        r == spec_opcode(code),
{
    proof {
        reveal(spec_opcode);
    }
    match code {
        0x00 => (Operation::BRK, AddressMode::Implicit, 7, false),
        0x01 => (Operation::ORA, AddressMode::IndirectX, 6, false),
        0x02 => (Operation::KIL, AddressMode::Implicit, 0, false),
        0x03 => (Operation::SLO, AddressMode::IndirectX, 8, false),
        0x04 => (Operation::NOP, AddressMode::ZeroPage, 3, false),
        0x05 => (Operation::ORA, AddressMode::ZeroPage, 3, false),
        0x06 => (Operation::ASL, AddressMode::ZeroPage, 5, false),
        0x07 => (Operation::SLO, AddressMode::ZeroPage, 5, false),
        0x08 => (Operation::PHP, AddressMode::Implicit, 3, false),
        0x09 => (Operation::ORA, AddressMode::Immediate, 2, false),
        0x0A => (Operation::ASL, AddressMode::Accumulator, 2, false),
        0x0B => (Operation::ANC, AddressMode::Immediate, 2, false),
        0x0C => (Operation::NOP, AddressMode::Absolute, 4, false),
        0x0D => (Operation::ORA, AddressMode::Absolute, 4, false),
        0x0E => (Operation::ASL, AddressMode::Absolute, 6, false),
        0x0F => (Operation::SLO, AddressMode::Absolute, 6, false),
        0x10 => (Operation::BPL, AddressMode::Relative, 2, true),
        0x11 => (Operation::ORA, AddressMode::IndirectY, 5, true),
        0x12 => (Operation::KIL, AddressMode::Implicit, 0, false),
        0x13 => (Operation::SLO, AddressMode::IndirectY, 8, false),
        0x14 => (Operation::NOP, AddressMode::ZeroPageX, 4, false),
        0x15 => (Operation::ORA, AddressMode::ZeroPageX, 4, false),
        0x16 => (Operation::ASL, AddressMode::ZeroPageX, 6, false),
        0x17 => (Operation::SLO, AddressMode::ZeroPageX, 6, false),
        0x18 => (Operation::CLC, AddressMode::Implicit, 2, false),
        0x19 => (Operation::ORA, AddressMode::AbsoluteY, 4, true),
        0x1A => (Operation::NOP, AddressMode::Implicit, 2, false),
        0x1B => (Operation::SLO, AddressMode::AbsoluteY, 7, false),
        0x1C => (Operation::NOP, AddressMode::AbsoluteX, 4, true),
        0x1D => (Operation::ORA, AddressMode::AbsoluteX, 4, true),
        0x1E => (Operation::ASL, AddressMode::AbsoluteX, 7, false),
        0x1F => (Operation::SLO, AddressMode::AbsoluteX, 7, false),
        0x20 => (Operation::JSR, AddressMode::Absolute, 6, false),
        0x21 => (Operation::AND, AddressMode::IndirectX, 6, false),
        0x22 => (Operation::KIL, AddressMode::Implicit, 0, false),
        0x23 => (Operation::RLA, AddressMode::IndirectX, 8, false),
        0x24 => (Operation::BIT, AddressMode::ZeroPage, 3, false),
        0x25 => (Operation::AND, AddressMode::ZeroPage, 3, false),
        0x26 => (Operation::ROL, AddressMode::ZeroPage, 5, false),
        0x27 => (Operation::RLA, AddressMode::ZeroPage, 5, false),
        0x28 => (Operation::PLP, AddressMode::Implicit, 4, false),
        0x29 => (Operation::AND, AddressMode::Immediate, 2, false),
        0x2A => (Operation::ROL, AddressMode::Accumulator, 2, false),
        0x2B => (Operation::ANC, AddressMode::Immediate, 2, false),
        0x2C => (Operation::BIT, AddressMode::Absolute, 4, false),
        0x2D => (Operation::AND, AddressMode::Absolute, 4, false),
        0x2E => (Operation::ROL, AddressMode::Absolute, 6, false),
        0x2F => (Operation::RLA, AddressMode::Absolute, 6, false),
        0x30 => (Operation::BMI, AddressMode::Relative, 2, true),
        0x31 => (Operation::AND, AddressMode::IndirectY, 5, true),
        0x32 => (Operation::KIL, AddressMode::Implicit, 0, false),
        0x33 => (Operation::RLA, AddressMode::IndirectY, 8, false),
        0x34 => (Operation::NOP, AddressMode::ZeroPageX, 4, false),
        0x35 => (Operation::AND, AddressMode::ZeroPageX, 4, false),
        0x36 => (Operation::ROL, AddressMode::ZeroPageX, 6, false),
        0x37 => (Operation::RLA, AddressMode::ZeroPageX, 6, false),
        0x38 => (Operation::SEC, AddressMode::Implicit, 2, false),
        0x39 => (Operation::AND, AddressMode::AbsoluteY, 4, true),
        0x3A => (Operation::NOP, AddressMode::Implicit, 2, false),
        0x3B => (Operation::RLA, AddressMode::AbsoluteY, 7, false),
        0x3C => (Operation::NOP, AddressMode::AbsoluteX, 4, true),
        0x3D => (Operation::AND, AddressMode::AbsoluteX, 4, true),
        0x3E => (Operation::ROL, AddressMode::AbsoluteX, 7, false),
        0x3F => (Operation::RLA, AddressMode::AbsoluteX, 7, false),
        0x40 => (Operation::RTI, AddressMode::Implicit, 6, false),
        0x41 => (Operation::EOR, AddressMode::IndirectX, 6, false),
        0x42 => (Operation::KIL, AddressMode::Implicit, 0, false),
        0x43 => (Operation::SRE, AddressMode::IndirectX, 8, false),
        0x44 => (Operation::NOP, AddressMode::ZeroPage, 3, false),
        0x45 => (Operation::EOR, AddressMode::ZeroPage, 3, false),
        0x46 => (Operation::LSR, AddressMode::ZeroPage, 5, false),
        0x47 => (Operation::SRE, AddressMode::ZeroPage, 5, false),
        0x48 => (Operation::PHA, AddressMode::Implicit, 3, false),
        0x49 => (Operation::EOR, AddressMode::Immediate, 2, false),
        0x4A => (Operation::LSR, AddressMode::Accumulator, 2, false),
        0x4B => (Operation::ALR, AddressMode::Immediate, 2, false),
        0x4C => (Operation::JMP, AddressMode::Absolute, 3, false),
        0x4D => (Operation::EOR, AddressMode::Absolute, 4, false),
        0x4E => (Operation::LSR, AddressMode::Absolute, 6, false),
        0x4F => (Operation::SRE, AddressMode::Absolute, 6, false),
        0x50 => (Operation::BVC, AddressMode::Relative, 2, true),
        0x51 => (Operation::EOR, AddressMode::IndirectY, 5, true),
        0x52 => (Operation::KIL, AddressMode::Implicit, 0, false),
        0x53 => (Operation::SRE, AddressMode::IndirectY, 8, false),
        0x54 => (Operation::NOP, AddressMode::ZeroPageX, 4, false),
        0x55 => (Operation::EOR, AddressMode::ZeroPageX, 4, false),
        0x56 => (Operation::LSR, AddressMode::ZeroPageX, 6, false),
        0x57 => (Operation::SRE, AddressMode::ZeroPageX, 6, false),
        0x58 => (Operation::CLI, AddressMode::Implicit, 2, false),
        0x59 => (Operation::EOR, AddressMode::AbsoluteY, 4, true),
        0x5A => (Operation::NOP, AddressMode::Implicit, 2, false),
        0x5B => (Operation::SRE, AddressMode::AbsoluteY, 7, false),
        0x5C => (Operation::NOP, AddressMode::AbsoluteX, 4, true),
        0x5D => (Operation::EOR, AddressMode::AbsoluteX, 4, true),
        0x5E => (Operation::LSR, AddressMode::AbsoluteX, 7, false),
        0x5F => (Operation::SRE, AddressMode::AbsoluteX, 7, false),
        0x60 => (Operation::RTS, AddressMode::Implicit, 6, false),
        0x61 => (Operation::ADC, AddressMode::IndirectX, 6, false),
        0x62 => (Operation::KIL, AddressMode::Implicit, 0, false),
        0x63 => (Operation::RRA, AddressMode::IndirectX, 8, false),
        0x64 => (Operation::NOP, AddressMode::ZeroPage, 3, false),
        0x65 => (Operation::ADC, AddressMode::ZeroPage, 3, false),
        0x66 => (Operation::ROR, AddressMode::ZeroPage, 5, false),
        0x67 => (Operation::RRA, AddressMode::ZeroPage, 5, false),
        0x68 => (Operation::PLA, AddressMode::Implicit, 4, false),
        0x69 => (Operation::ADC, AddressMode::Immediate, 2, false),
        0x6A => (Operation::ROR, AddressMode::Accumulator, 2, false),
        0x6B => (Operation::ARR, AddressMode::Immediate, 2, false),
        0x6C => (Operation::JMP, AddressMode::Indirect, 5, false),
        0x6D => (Operation::ADC, AddressMode::Absolute, 4, false),
        0x6E => (Operation::ROR, AddressMode::Absolute, 6, false),
        0x6F => (Operation::RRA, AddressMode::Absolute, 6, false),
        0x70 => (Operation::BVS, AddressMode::Relative, 2, true),
        0x71 => (Operation::ADC, AddressMode::IndirectY, 5, true),
        0x72 => (Operation::KIL, AddressMode::Implicit, 0, false),
        0x73 => (Operation::RRA, AddressMode::IndirectY, 8, false),
        0x74 => (Operation::NOP, AddressMode::ZeroPageX, 4, false),
        0x75 => (Operation::ADC, AddressMode::ZeroPageX, 4, false),
        0x76 => (Operation::ROR, AddressMode::ZeroPageX, 6, false),
        0x77 => (Operation::RRA, AddressMode::ZeroPageX, 6, false),
        0x78 => (Operation::SEI, AddressMode::Implicit, 2, false),
        0x79 => (Operation::ADC, AddressMode::AbsoluteY, 4, true),
        0x7A => (Operation::NOP, AddressMode::Implicit, 2, false),
        0x7B => (Operation::RRA, AddressMode::AbsoluteY, 7, false),
        0x7C => (Operation::NOP, AddressMode::AbsoluteX, 4, true),
        0x7D => (Operation::ADC, AddressMode::AbsoluteX, 4, true),
        0x7E => (Operation::ROR, AddressMode::AbsoluteX, 7, false),
        0x7F => (Operation::RRA, AddressMode::AbsoluteX, 7, false),
        0x80 => (Operation::NOP, AddressMode::Immediate, 2, false),
        0x81 => (Operation::STA, AddressMode::IndirectX, 6, false),
        0x82 => (Operation::NOP, AddressMode::Immediate, 2, false),
        0x83 => (Operation::SAX, AddressMode::IndirectX, 6, false),
        0x84 => (Operation::STY, AddressMode::ZeroPage, 3, false),
        0x85 => (Operation::STA, AddressMode::ZeroPage, 3, false),
        0x86 => (Operation::STX, AddressMode::ZeroPage, 3, false),
        0x87 => (Operation::SAX, AddressMode::ZeroPage, 3, false),
        0x88 => (Operation::DEY, AddressMode::Implicit, 2, false),
        0x89 => (Operation::NOP, AddressMode::Immediate, 2, false),
        0x8A => (Operation::TXA, AddressMode::Implicit, 2, false),
        0x8B => (Operation::XAA, AddressMode::Immediate, 2, false),
        0x8C => (Operation::STY, AddressMode::Absolute, 4, false),
        0x8D => (Operation::STA, AddressMode::Absolute, 4, false),
        0x8E => (Operation::STX, AddressMode::Absolute, 4, false),
        0x8F => (Operation::SAX, AddressMode::Absolute, 4, false),
        0x90 => (Operation::BCC, AddressMode::Relative, 2, true),
        0x91 => (Operation::STA, AddressMode::IndirectY, 6, false),
        0x92 => (Operation::KIL, AddressMode::Implicit, 0, false),
        0x93 => (Operation::AHX, AddressMode::IndirectY, 6, false),
        0x94 => (Operation::STY, AddressMode::ZeroPageX, 4, false),
        0x95 => (Operation::STA, AddressMode::ZeroPageX, 4, false),
        0x96 => (Operation::STX, AddressMode::ZeroPageY, 4, false),
        0x97 => (Operation::SAX, AddressMode::ZeroPageY, 4, false),
        0x98 => (Operation::TYA, AddressMode::Implicit, 2, false),
        0x99 => (Operation::STA, AddressMode::AbsoluteY, 5, false),
        0x9A => (Operation::TXS, AddressMode::Implicit, 2, false),
        0x9B => (Operation::TAS, AddressMode::AbsoluteY, 5, false),
        0x9C => (Operation::SHY, AddressMode::AbsoluteX, 5, false),
        0x9D => (Operation::STA, AddressMode::AbsoluteX, 5, false),
        0x9E => (Operation::SHX, AddressMode::AbsoluteY, 5, false),
        0x9F => (Operation::AHX, AddressMode::AbsoluteY, 5, false),
        0xA0 => (Operation::LDY, AddressMode::Immediate, 2, false),
        0xA1 => (Operation::LDA, AddressMode::IndirectX, 6, false),
        0xA2 => (Operation::LDX, AddressMode::Immediate, 2, false),
        0xA3 => (Operation::LAX, AddressMode::IndirectX, 6, false),
        0xA4 => (Operation::LDY, AddressMode::ZeroPage, 3, false),
        0xA5 => (Operation::LDA, AddressMode::ZeroPage, 3, false),
        0xA6 => (Operation::LDX, AddressMode::ZeroPage, 3, false),
        0xA7 => (Operation::LAX, AddressMode::ZeroPage, 3, false),
        0xA8 => (Operation::TAY, AddressMode::Implicit, 2, false),
        0xA9 => (Operation::LDA, AddressMode::Immediate, 2, false),
        0xAA => (Operation::TAX, AddressMode::Implicit, 2, false),
        0xAB => (Operation::LAX, AddressMode::Immediate, 2, false),
        0xAC => (Operation::LDY, AddressMode::Absolute, 4, false),
        0xAD => (Operation::LDA, AddressMode::Absolute, 4, false),
        0xAE => (Operation::LDX, AddressMode::Absolute, 4, false),
        0xAF => (Operation::LAX, AddressMode::Absolute, 4, false),
        0xB0 => (Operation::BCS, AddressMode::Relative, 2, true),
        0xB1 => (Operation::LDA, AddressMode::IndirectY, 5, true),
        0xB2 => (Operation::KIL, AddressMode::Implicit, 0, false),
        0xB3 => (Operation::LAX, AddressMode::IndirectY, 5, true),
        0xB4 => (Operation::LDY, AddressMode::ZeroPageX, 4, false),
        0xB5 => (Operation::LDA, AddressMode::ZeroPageX, 4, false),
        0xB6 => (Operation::LDX, AddressMode::ZeroPageY, 4, false),
        0xB7 => (Operation::LAX, AddressMode::ZeroPageY, 4, false),
        0xB8 => (Operation::CLV, AddressMode::Implicit, 2, false),
        0xB9 => (Operation::LDA, AddressMode::AbsoluteY, 4, true),
        0xBA => (Operation::TSX, AddressMode::Implicit, 2, false),
        0xBB => (Operation::LAS, AddressMode::AbsoluteY, 4, true),
        0xBC => (Operation::LDY, AddressMode::AbsoluteX, 4, true),
        0xBD => (Operation::LDA, AddressMode::AbsoluteX, 4, true),
        0xBE => (Operation::LDX, AddressMode::AbsoluteY, 4, true),
        0xBF => (Operation::LAX, AddressMode::AbsoluteY, 4, true),
        0xC0 => (Operation::CPY, AddressMode::Immediate, 2, false),
        0xC1 => (Operation::CMP, AddressMode::IndirectX, 6, false),
        0xC2 => (Operation::NOP, AddressMode::Immediate, 2, false),
        0xC3 => (Operation::DCP, AddressMode::IndirectX, 8, false),
        0xC4 => (Operation::CPY, AddressMode::ZeroPage, 3, false),
        0xC5 => (Operation::CMP, AddressMode::ZeroPage, 3, false),
        0xC6 => (Operation::DEC, AddressMode::ZeroPage, 5, false),
        0xC7 => (Operation::DCP, AddressMode::ZeroPage, 5, false),
        0xC8 => (Operation::INY, AddressMode::Implicit, 2, false),
        0xC9 => (Operation::CMP, AddressMode::Immediate, 2, false),
        0xCA => (Operation::DEX, AddressMode::Implicit, 2, false),
        0xCB => (Operation::AXS, AddressMode::Immediate, 2, false),
        0xCC => (Operation::CPY, AddressMode::Absolute, 4, false),
        0xCD => (Operation::CMP, AddressMode::Absolute, 4, false),
        0xCE => (Operation::DEC, AddressMode::Absolute, 6, false),
        0xCF => (Operation::DCP, AddressMode::Absolute, 6, false),
        0xD0 => (Operation::BNE, AddressMode::Relative, 2, true),
        0xD1 => (Operation::CMP, AddressMode::IndirectY, 5, true),
        0xD2 => (Operation::KIL, AddressMode::Implicit, 0, false),
        0xD3 => (Operation::DCP, AddressMode::IndirectY, 8, false),
        0xD4 => (Operation::NOP, AddressMode::ZeroPageX, 4, false),
        0xD5 => (Operation::CMP, AddressMode::ZeroPageX, 4, false),
        0xD6 => (Operation::DEC, AddressMode::ZeroPageX, 6, false),
        0xD7 => (Operation::DCP, AddressMode::ZeroPageX, 6, false),
        0xD8 => (Operation::CLD, AddressMode::Implicit, 2, false),
        0xD9 => (Operation::CMP, AddressMode::AbsoluteY, 4, true),
        0xDA => (Operation::NOP, AddressMode::Implicit, 2, false),
        0xDB => (Operation::DCP, AddressMode::AbsoluteY, 7, false),
        0xDC => (Operation::NOP, AddressMode::AbsoluteX, 4, true),
        0xDD => (Operation::CMP, AddressMode::AbsoluteX, 4, true),
        0xDE => (Operation::DEC, AddressMode::AbsoluteX, 7, false),
        0xDF => (Operation::DCP, AddressMode::AbsoluteX, 7, false),
        0xE0 => (Operation::CPX, AddressMode::Immediate, 2, false),
        0xE1 => (Operation::SBC, AddressMode::IndirectX, 6, false),
        0xE2 => (Operation::NOP, AddressMode::Immediate, 2, false),
        0xE3 => (Operation::ISC, AddressMode::IndirectX, 8, false),
        0xE4 => (Operation::CPX, AddressMode::ZeroPage, 3, false),
        0xE5 => (Operation::SBC, AddressMode::ZeroPage, 3, false),
        0xE6 => (Operation::INC, AddressMode::ZeroPage, 5, false),
        0xE7 => (Operation::ISC, AddressMode::ZeroPage, 5, false),
        0xE8 => (Operation::INX, AddressMode::Implicit, 2, false),
        0xE9 => (Operation::SBC, AddressMode::Immediate, 2, false),
        0xEA => (Operation::NOP, AddressMode::Implicit, 2, false),
        0xEB => (Operation::SBC, AddressMode::Immediate, 2, false),
        0xEC => (Operation::CPX, AddressMode::Absolute, 4, false),
        0xED => (Operation::SBC, AddressMode::Absolute, 4, false),
        0xEE => (Operation::INC, AddressMode::Absolute, 6, false),
        0xEF => (Operation::ISC, AddressMode::Absolute, 6, false),
        0xF0 => (Operation::BEQ, AddressMode::Relative, 2, true),
        0xF1 => (Operation::SBC, AddressMode::IndirectY, 5, true),
        0xF2 => (Operation::KIL, AddressMode::Implicit, 0, false),
        0xF3 => (Operation::ISC, AddressMode::IndirectY, 8, false),
        0xF4 => (Operation::NOP, AddressMode::ZeroPageX, 4, false),
        0xF5 => (Operation::SBC, AddressMode::ZeroPageX, 4, false),
        0xF6 => (Operation::INC, AddressMode::ZeroPageX, 6, false),
        0xF7 => (Operation::ISC, AddressMode::ZeroPageX, 6, false),
        0xF8 => (Operation::SED, AddressMode::Implicit, 2, false),
        0xF9 => (Operation::SBC, AddressMode::AbsoluteY, 4, true),
        0xFA => (Operation::NOP, AddressMode::Implicit, 2, false),
        0xFB => (Operation::ISC, AddressMode::AbsoluteY, 7, false),
        0xFC => (Operation::NOP, AddressMode::AbsoluteX, 4, true),
        0xFD => (Operation::SBC, AddressMode::AbsoluteX, 4, true),
        0xFE => (Operation::INC, AddressMode::AbsoluteX, 7, false),
        0xFF => (Operation::ISC, AddressMode::AbsoluteX, 7, false),
    }
}

} // verus!
