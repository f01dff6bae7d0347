//! Opcode decoding: the official 6502 instruction set with its base timing.
use vstd::prelude::*;

verus! {

/// The official 6502 mnemonics.
#[allow(non_camel_case_types)]
#[derive(Clone, Copy, Debug, PartialEq, Eq, Structural)]
pub enum Instr {
    ADC,
    AND,
    ASL,
    BCC,
    BCS,
    BEQ,
    BIT,
    BMI,
    BNE,
    BPL,
    BRK,
    BVC,
    BVS,
    CLC,
    CLD,
    CLI,
    CLV,
    CMP,
    CPX,
    CPY,
    DEC,
    DEX,
    DEY,
    EOR,
    INC,
    INX,
    INY,
    JMP,
    JSR,
    LDA,
    LDX,
    LDY,
    LSR,
    NOP,
    ORA,
    PHA,
    PHP,
    PLA,
    PLP,
    ROL,
    ROR,
    RTI,
    RTS,
    SBC,
    SEC,
    SED,
    SEI,
    STA,
    STX,
    STY,
    TAX,
    TAY,
    TSX,
    TXA,
    TXS,
    TYA,
}

/// How an instruction finds its operand.
#[allow(non_camel_case_types)]
#[derive(Clone, Copy, Debug, PartialEq, Eq, Structural)]
pub enum AddressMode {
    /// Implied: `CLD`.
    IMP,
    /// Accumulator: `ASL A`.
    ACC,
    /// Immediate: `AND #$12`.
    IMM,
    /// Zero page: `AND $12`.
    ZP,
    /// Zero page indexed by X: `AND $12,X`.
    ZPX,
    /// Zero page indexed by Y: `LDX $12,Y`.
    ZPY,
    /// Absolute: `AND $1234`.
    ABS,
    /// Absolute indexed by X: `AND $1234,X`.
    ABSX,
    /// Absolute indexed by Y: `AND $1234,Y`.
    ABSY,
    /// Indirect: `JMP ($1234)`.
    IND,
    /// Indexed indirect: `AND ($12,X)`.
    INDX,
    /// Indirect indexed: `AND ($12),Y`.
    INDY,
    /// Relative, for branches: `BCS *+5`.
    REL,
}

/// A decoded opcode: mnemonic, addressing mode and base cycle count.
#[derive(Clone, Copy, Debug, PartialEq, Eq, Structural)]
pub struct Instruction {
    pub instr: Instr,
    pub address_mode: AddressMode,
    pub cycles: u32,
}

/// The official opcode table: mnemonic, addressing mode and base cycles of
/// each of the 151 official opcodes; `None` for every other byte.
#[verifier::opaque]
pub open spec fn opcode_table(opcode: u8) -> Option<(Instr, AddressMode, u32)> {
    match opcode {
        0x00 => Some((Instr::BRK, AddressMode::IMP, 7)),
        0x01 => Some((Instr::ORA, AddressMode::INDX, 6)),
        0x05 => Some((Instr::ORA, AddressMode::ZP, 3)),
        0x06 => Some((Instr::ASL, AddressMode::ZP, 5)),
        0x08 => Some((Instr::PHP, AddressMode::IMP, 3)),
        0x09 => Some((Instr::ORA, AddressMode::IMM, 2)),
        0x0A => Some((Instr::ASL, AddressMode::ACC, 2)),
        0x0D => Some((Instr::ORA, AddressMode::ABS, 4)),
        0x0E => Some((Instr::ASL, AddressMode::ABS, 6)),
        0x10 => Some((Instr::BPL, AddressMode::REL, 2)),
        0x11 => Some((Instr::ORA, AddressMode::INDY, 5)),
        0x15 => Some((Instr::ORA, AddressMode::ZPX, 4)),
        0x16 => Some((Instr::ASL, AddressMode::ZPX, 6)),
        0x18 => Some((Instr::CLC, AddressMode::IMP, 2)),
        0x19 => Some((Instr::ORA, AddressMode::ABSY, 4)),
        0x1D => Some((Instr::ORA, AddressMode::ABSX, 4)),
        0x1E => Some((Instr::ASL, AddressMode::ABSX, 7)),
        0x20 => Some((Instr::JSR, AddressMode::ABS, 6)),
        0x21 => Some((Instr::AND, AddressMode::INDX, 6)),
        0x24 => Some((Instr::BIT, AddressMode::ZP, 3)),
        0x25 => Some((Instr::AND, AddressMode::ZP, 3)),
        0x26 => Some((Instr::ROL, AddressMode::ZP, 5)),
        0x28 => Some((Instr::PLP, AddressMode::IMP, 4)),
        0x29 => Some((Instr::AND, AddressMode::IMM, 2)),
        0x2A => Some((Instr::ROL, AddressMode::ACC, 2)),
        0x2C => Some((Instr::BIT, AddressMode::ABS, 4)),
        0x2D => Some((Instr::AND, AddressMode::ABS, 4)),
        0x2E => Some((Instr::ROL, AddressMode::ABS, 6)),
        0x30 => Some((Instr::BMI, AddressMode::REL, 2)),
        0x31 => Some((Instr::AND, AddressMode::INDY, 5)),
        0x35 => Some((Instr::AND, AddressMode::ZPX, 4)),
        0x36 => Some((Instr::ROL, AddressMode::ZPX, 6)),
        0x38 => Some((Instr::SEC, AddressMode::IMP, 2)),
        0x39 => Some((Instr::AND, AddressMode::ABSY, 4)),
        0x3D => Some((Instr::AND, AddressMode::ABSX, 4)),
        0x3E => Some((Instr::ROL, AddressMode::ABSX, 7)),
        0x40 => Some((Instr::RTI, AddressMode::IMP, 6)),
        0x41 => Some((Instr::EOR, AddressMode::INDX, 6)),
        0x45 => Some((Instr::EOR, AddressMode::ZP, 3)),
        0x46 => Some((Instr::LSR, AddressMode::ZP, 5)),
        0x48 => Some((Instr::PHA, AddressMode::IMP, 3)),
        0x49 => Some((Instr::EOR, AddressMode::IMM, 2)),
        0x4A => Some((Instr::LSR, AddressMode::ACC, 2)),
        0x4C => Some((Instr::JMP, AddressMode::ABS, 3)),
        0x4D => Some((Instr::EOR, AddressMode::ABS, 4)),
        0x4E => Some((Instr::LSR, AddressMode::ABS, 6)),
        0x50 => Some((Instr::BVC, AddressMode::REL, 2)),
        0x51 => Some((Instr::EOR, AddressMode::INDY, 5)),
        0x55 => Some((Instr::EOR, AddressMode::ZPX, 4)),
        0x56 => Some((Instr::LSR, AddressMode::ZPX, 6)),
        0x58 => Some((Instr::CLI, AddressMode::IMP, 2)),
        0x59 => Some((Instr::EOR, AddressMode::ABSY, 4)),
        0x5D => Some((Instr::EOR, AddressMode::ABSX, 4)),
        0x5E => Some((Instr::LSR, AddressMode::ABSX, 7)),
        0x60 => Some((Instr::RTS, AddressMode::IMP, 6)),
        0x61 => Some((Instr::ADC, AddressMode::INDX, 6)),
        0x65 => Some((Instr::ADC, AddressMode::ZP, 3)),
        0x66 => Some((Instr::ROR, AddressMode::ZP, 5)),
        0x68 => Some((Instr::PLA, AddressMode::IMP, 4)),
        0x69 => Some((Instr::ADC, AddressMode::IMM, 2)),
        0x6A => Some((Instr::ROR, AddressMode::ACC, 2)),
        0x6C => Some((Instr::JMP, AddressMode::IND, 5)),
        0x6D => Some((Instr::ADC, AddressMode::ABS, 4)),
        0x6E => Some((Instr::ROR, AddressMode::ABS, 6)),
        0x70 => Some((Instr::BVS, AddressMode::REL, 2)),
        0x71 => Some((Instr::ADC, AddressMode::INDY, 5)),
        0x75 => Some((Instr::ADC, AddressMode::ZPX, 4)),
        0x76 => Some((Instr::ROR, AddressMode::ZPX, 6)),
        0x78 => Some((Instr::SEI, AddressMode::IMP, 2)),
        0x79 => Some((Instr::ADC, AddressMode::ABSY, 4)),
        0x7D => Some((Instr::ADC, AddressMode::ABSX, 4)),
        0x7E => Some((Instr::ROR, AddressMode::ABSX, 7)),
        0x81 => Some((Instr::STA, AddressMode::INDX, 6)),
        0x84 => Some((Instr::STY, AddressMode::ZP, 3)),
        0x85 => Some((Instr::STA, AddressMode::ZP, 3)),
        0x86 => Some((Instr::STX, AddressMode::ZP, 3)),
        0x88 => Some((Instr::DEY, AddressMode::IMP, 2)),
        0x8A => Some((Instr::TXA, AddressMode::IMP, 2)),
        0x8C => Some((Instr::STY, AddressMode::ABS, 4)),
        0x8D => Some((Instr::STA, AddressMode::ABS, 4)),
        0x8E => Some((Instr::STX, AddressMode::ABS, 4)),
        0x90 => Some((Instr::BCC, AddressMode::REL, 2)),
        0x91 => Some((Instr::STA, AddressMode::INDY, 6)),
        0x94 => Some((Instr::STY, AddressMode::ZPX, 4)),
        0x95 => Some((Instr::STA, AddressMode::ZPX, 4)),
        0x96 => Some((Instr::STX, AddressMode::ZPY, 4)),
        0x98 => Some((Instr::TYA, AddressMode::IMP, 2)),
        0x99 => Some((Instr::STA, AddressMode::ABSY, 5)),
        0x9A => Some((Instr::TXS, AddressMode::IMP, 2)),
        0x9D => Some((Instr::STA, AddressMode::ABSX, 5)),
        0xA0 => Some((Instr::LDY, AddressMode::IMM, 2)),
        0xA1 => Some((Instr::LDA, AddressMode::INDX, 6)),
        0xA2 => Some((Instr::LDX, AddressMode::IMM, 2)),
        0xA4 => Some((Instr::LDY, AddressMode::ZP, 3)),
        0xA5 => Some((Instr::LDA, AddressMode::ZP, 3)),
        0xA6 => Some((Instr::LDX, AddressMode::ZP, 3)),
        0xA8 => Some((Instr::TAY, AddressMode::IMP, 2)),
        0xA9 => Some((Instr::LDA, AddressMode::IMM, 2)),
        0xAA => Some((Instr::TAX, AddressMode::IMP, 2)),
        0xAC => Some((Instr::LDY, AddressMode::ABS, 4)),
        0xAD => Some((Instr::LDA, AddressMode::ABS, 4)),
        0xAE => Some((Instr::LDX, AddressMode::ABS, 4)),
        0xB0 => Some((Instr::BCS, AddressMode::REL, 2)),
        0xB1 => Some((Instr::LDA, AddressMode::INDY, 5)),
        0xB4 => Some((Instr::LDY, AddressMode::ZPX, 4)),
        0xB5 => Some((Instr::LDA, AddressMode::ZPX, 4)),
        0xB6 => Some((Instr::LDX, AddressMode::ZPY, 4)),
        0xB8 => Some((Instr::CLV, AddressMode::IMP, 2)),
        0xB9 => Some((Instr::LDA, AddressMode::ABSY, 4)),
        0xBA => Some((Instr::TSX, AddressMode::IMP, 2)),
        0xBC => Some((Instr::LDY, AddressMode::ABSX, 4)),
        0xBD => Some((Instr::LDA, AddressMode::ABSX, 4)),
        0xBE => Some((Instr::LDX, AddressMode::ABSY, 4)),
        0xC0 => Some((Instr::CPY, AddressMode::IMM, 2)),
        0xC1 => Some((Instr::CMP, AddressMode::INDX, 6)),
        0xC4 => Some((Instr::CPY, AddressMode::ZP, 3)),
        0xC5 => Some((Instr::CMP, AddressMode::ZP, 3)),
        0xC6 => Some((Instr::DEC, AddressMode::ZP, 5)),
        0xC8 => Some((Instr::INY, AddressMode::IMP, 2)),
        0xC9 => Some((Instr::CMP, AddressMode::IMM, 2)),
        0xCA => Some((Instr::DEX, AddressMode::IMP, 2)),
        0xCC => Some((Instr::CPY, AddressMode::ABS, 4)),
        0xCD => Some((Instr::CMP, AddressMode::ABS, 4)),
        0xCE => Some((Instr::DEC, AddressMode::ABS, 6)),
        0xD0 => Some((Instr::BNE, AddressMode::REL, 2)),
        0xD1 => Some((Instr::CMP, AddressMode::INDY, 5)),
        0xD5 => Some((Instr::CMP, AddressMode::ZPX, 4)),
        0xD6 => Some((Instr::DEC, AddressMode::ZPX, 6)),
        0xD8 => Some((Instr::CLD, AddressMode::IMP, 2)),
        0xD9 => Some((Instr::CMP, AddressMode::ABSY, 4)),
        0xDD => Some((Instr::CMP, AddressMode::ABSX, 4)),
        0xDE => Some((Instr::DEC, AddressMode::ABSX, 7)),
        0xE0 => Some((Instr::CPX, AddressMode::IMM, 2)),
        0xE1 => Some((Instr::SBC, AddressMode::INDX, 6)),
        0xE4 => Some((Instr::CPX, AddressMode::ZP, 3)),
        0xE5 => Some((Instr::SBC, AddressMode::ZP, 3)),
        0xE6 => Some((Instr::INC, AddressMode::ZP, 5)),
        0xE8 => Some((Instr::INX, AddressMode::IMP, 2)),
        0xE9 => Some((Instr::SBC, AddressMode::IMM, 2)),
        0xEA => Some((Instr::NOP, AddressMode::IMP, 2)),
        0xEC => Some((Instr::CPX, AddressMode::ABS, 4)),
        0xED => Some((Instr::SBC, AddressMode::ABS, 4)),
        0xEE => Some((Instr::INC, AddressMode::ABS, 6)),
        0xF0 => Some((Instr::BEQ, AddressMode::REL, 2)),
        0xF1 => Some((Instr::SBC, AddressMode::INDY, 5)),
        0xF5 => Some((Instr::SBC, AddressMode::ZPX, 4)),
        0xF6 => Some((Instr::INC, AddressMode::ZPX, 6)),
        0xF8 => Some((Instr::SED, AddressMode::IMP, 2)),
        0xF9 => Some((Instr::SBC, AddressMode::ABSY, 4)),
        0xFD => Some((Instr::SBC, AddressMode::ABSX, 4)),
        0xFE => Some((Instr::INC, AddressMode::ABSX, 7)),
        _ => None,
    }
}

/// What `decode` returns for `opcode`.
pub open spec fn decode_spec(opcode: u8) -> Option<Instruction> {
    match opcode_table(opcode) {
        Some((i, m, c)) => Some(Instruction { instr: i, address_mode: m, cycles: c }),
        None => None,
    }
}

/// Decodes an opcode; `None` for a byte with no official meaning.
pub fn decode(opcode: u8) -> (r: Option<Instruction>)
    ensures
        r == decode_spec(opcode),
        r matches Some(i) ==> 2 <= i.cycles <= 7,
{
    match decode_impl(opcode) {
        Some((instr, address_mode, cycles)) => Some(Instruction { instr, address_mode, cycles }),
        None => None,
    }
}

fn decode_impl(opcode: u8) -> (r: Option<(Instr, AddressMode, u32)>)
    ensures
        r == opcode_table(opcode),
        r matches Some(t) ==> 2 <= t.2 <= 7,
{
    reveal(opcode_table);
    match opcode {
        0x00 => Some((Instr::BRK, AddressMode::IMP, 7)),
        0x01 => Some((Instr::ORA, AddressMode::INDX, 6)),
        0x05 => Some((Instr::ORA, AddressMode::ZP, 3)),
        0x06 => Some((Instr::ASL, AddressMode::ZP, 5)),
        0x08 => Some((Instr::PHP, AddressMode::IMP, 3)),
        0x09 => Some((Instr::ORA, AddressMode::IMM, 2)),
        0x0A => Some((Instr::ASL, AddressMode::ACC, 2)),
        0x0D => Some((Instr::ORA, AddressMode::ABS, 4)),
        0x0E => Some((Instr::ASL, AddressMode::ABS, 6)),
        0x10 => Some((Instr::BPL, AddressMode::REL, 2)),
        0x11 => Some((Instr::ORA, AddressMode::INDY, 5)),
        0x15 => Some((Instr::ORA, AddressMode::ZPX, 4)),
        0x16 => Some((Instr::ASL, AddressMode::ZPX, 6)),
        0x18 => Some((Instr::CLC, AddressMode::IMP, 2)),
        0x19 => Some((Instr::ORA, AddressMode::ABSY, 4)),
        0x1D => Some((Instr::ORA, AddressMode::ABSX, 4)),
        0x1E => Some((Instr::ASL, AddressMode::ABSX, 7)),
        0x20 => Some((Instr::JSR, AddressMode::ABS, 6)),
        0x21 => Some((Instr::AND, AddressMode::INDX, 6)),
        0x24 => Some((Instr::BIT, AddressMode::ZP, 3)),
        0x25 => Some((Instr::AND, AddressMode::ZP, 3)),
        0x26 => Some((Instr::ROL, AddressMode::ZP, 5)),
        0x28 => Some((Instr::PLP, AddressMode::IMP, 4)),
        0x29 => Some((Instr::AND, AddressMode::IMM, 2)),
        0x2A => Some((Instr::ROL, AddressMode::ACC, 2)),
        0x2C => Some((Instr::BIT, AddressMode::ABS, 4)),
        0x2D => Some((Instr::AND, AddressMode::ABS, 4)),
        0x2E => Some((Instr::ROL, AddressMode::ABS, 6)),
        0x30 => Some((Instr::BMI, AddressMode::REL, 2)),
        0x31 => Some((Instr::AND, AddressMode::INDY, 5)),
        0x35 => Some((Instr::AND, AddressMode::ZPX, 4)),
        0x36 => Some((Instr::ROL, AddressMode::ZPX, 6)),
        0x38 => Some((Instr::SEC, AddressMode::IMP, 2)),
        0x39 => Some((Instr::AND, AddressMode::ABSY, 4)),
        0x3D => Some((Instr::AND, AddressMode::ABSX, 4)),
        0x3E => Some((Instr::ROL, AddressMode::ABSX, 7)),
        0x40 => Some((Instr::RTI, AddressMode::IMP, 6)),
        0x41 => Some((Instr::EOR, AddressMode::INDX, 6)),
        0x45 => Some((Instr::EOR, AddressMode::ZP, 3)),
        0x46 => Some((Instr::LSR, AddressMode::ZP, 5)),
        0x48 => Some((Instr::PHA, AddressMode::IMP, 3)),
        0x49 => Some((Instr::EOR, AddressMode::IMM, 2)),
        0x4A => Some((Instr::LSR, AddressMode::ACC, 2)),
        0x4C => Some((Instr::JMP, AddressMode::ABS, 3)),
        0x4D => Some((Instr::EOR, AddressMode::ABS, 4)),
        0x4E => Some((Instr::LSR, AddressMode::ABS, 6)),
        0x50 => Some((Instr::BVC, AddressMode::REL, 2)),
        0x51 => Some((Instr::EOR, AddressMode::INDY, 5)),
        0x55 => Some((Instr::EOR, AddressMode::ZPX, 4)),
        0x56 => Some((Instr::LSR, AddressMode::ZPX, 6)),
        0x58 => Some((Instr::CLI, AddressMode::IMP, 2)),
        0x59 => Some((Instr::EOR, AddressMode::ABSY, 4)),
        0x5D => Some((Instr::EOR, AddressMode::ABSX, 4)),
        0x5E => Some((Instr::LSR, AddressMode::ABSX, 7)),
        0x60 => Some((Instr::RTS, AddressMode::IMP, 6)),
        0x61 => Some((Instr::ADC, AddressMode::INDX, 6)),
        0x65 => Some((Instr::ADC, AddressMode::ZP, 3)),
        0x66 => Some((Instr::ROR, AddressMode::ZP, 5)),
        0x68 => Some((Instr::PLA, AddressMode::IMP, 4)),
        0x69 => Some((Instr::ADC, AddressMode::IMM, 2)),
        0x6A => Some((Instr::ROR, AddressMode::ACC, 2)),
        0x6C => Some((Instr::JMP, AddressMode::IND, 5)),
        0x6D => Some((Instr::ADC, AddressMode::ABS, 4)),
        0x6E => Some((Instr::ROR, AddressMode::ABS, 6)),
        0x70 => Some((Instr::BVS, AddressMode::REL, 2)),
        0x71 => Some((Instr::ADC, AddressMode::INDY, 5)),
        0x75 => Some((Instr::ADC, AddressMode::ZPX, 4)),
        0x76 => Some((Instr::ROR, AddressMode::ZPX, 6)),
        0x78 => Some((Instr::SEI, AddressMode::IMP, 2)),
        0x79 => Some((Instr::ADC, AddressMode::ABSY, 4)),
        0x7D => Some((Instr::ADC, AddressMode::ABSX, 4)),
        0x7E => Some((Instr::ROR, AddressMode::ABSX, 7)),
        0x81 => Some((Instr::STA, AddressMode::INDX, 6)),
        0x84 => Some((Instr::STY, AddressMode::ZP, 3)),
        0x85 => Some((Instr::STA, AddressMode::ZP, 3)),
        0x86 => Some((Instr::STX, AddressMode::ZP, 3)),
        0x88 => Some((Instr::DEY, AddressMode::IMP, 2)),
        0x8A => Some((Instr::TXA, AddressMode::IMP, 2)),
        0x8C => Some((Instr::STY, AddressMode::ABS, 4)),
        0x8D => Some((Instr::STA, AddressMode::ABS, 4)),
        0x8E => Some((Instr::STX, AddressMode::ABS, 4)),
        0x90 => Some((Instr::BCC, AddressMode::REL, 2)),
        0x91 => Some((Instr::STA, AddressMode::INDY, 6)),
        0x94 => Some((Instr::STY, AddressMode::ZPX, 4)),
        0x95 => Some((Instr::STA, AddressMode::ZPX, 4)),
        0x96 => Some((Instr::STX, AddressMode::ZPY, 4)),
        0x98 => Some((Instr::TYA, AddressMode::IMP, 2)),
        0x99 => Some((Instr::STA, AddressMode::ABSY, 5)),
        0x9A => Some((Instr::TXS, AddressMode::IMP, 2)),
        0x9D => Some((Instr::STA, AddressMode::ABSX, 5)),
        0xA0 => Some((Instr::LDY, AddressMode::IMM, 2)),
        0xA1 => Some((Instr::LDA, AddressMode::INDX, 6)),
        0xA2 => Some((Instr::LDX, AddressMode::IMM, 2)),
        0xA4 => Some((Instr::LDY, AddressMode::ZP, 3)),
        0xA5 => Some((Instr::LDA, AddressMode::ZP, 3)),
        0xA6 => Some((Instr::LDX, AddressMode::ZP, 3)),
        0xA8 => Some((Instr::TAY, AddressMode::IMP, 2)),
        0xA9 => Some((Instr::LDA, AddressMode::IMM, 2)),
        0xAA => Some((Instr::TAX, AddressMode::IMP, 2)),
        0xAC => Some((Instr::LDY, AddressMode::ABS, 4)),
        0xAD => Some((Instr::LDA, AddressMode::ABS, 4)),
        0xAE => Some((Instr::LDX, AddressMode::ABS, 4)),
        0xB0 => Some((Instr::BCS, AddressMode::REL, 2)),
        0xB1 => Some((Instr::LDA, AddressMode::INDY, 5)),
        0xB4 => Some((Instr::LDY, AddressMode::ZPX, 4)),
        0xB5 => Some((Instr::LDA, AddressMode::ZPX, 4)),
        0xB6 => Some((Instr::LDX, AddressMode::ZPY, 4)),
        0xB8 => Some((Instr::CLV, AddressMode::IMP, 2)),
        0xB9 => Some((Instr::LDA, AddressMode::ABSY, 4)),
        0xBA => Some((Instr::TSX, AddressMode::IMP, 2)),
        0xBC => Some((Instr::LDY, AddressMode::ABSX, 4)),
        0xBD => Some((Instr::LDA, AddressMode::ABSX, 4)),
        0xBE => Some((Instr::LDX, AddressMode::ABSY, 4)),
        0xC0 => Some((Instr::CPY, AddressMode::IMM, 2)),
        0xC1 => Some((Instr::CMP, AddressMode::INDX, 6)),
        0xC4 => Some((Instr::CPY, AddressMode::ZP, 3)),
        0xC5 => Some((Instr::CMP, AddressMode::ZP, 3)),
        0xC6 => Some((Instr::DEC, AddressMode::ZP, 5)),
        0xC8 => Some((Instr::INY, AddressMode::IMP, 2)),
        0xC9 => Some((Instr::CMP, AddressMode::IMM, 2)),
        0xCA => Some((Instr::DEX, AddressMode::IMP, 2)),
        0xCC => Some((Instr::CPY, AddressMode::ABS, 4)),
        0xCD => Some((Instr::CMP, AddressMode::ABS, 4)),
        0xCE => Some((Instr::DEC, AddressMode::ABS, 6)),
        0xD0 => Some((Instr::BNE, AddressMode::REL, 2)),
        0xD1 => Some((Instr::CMP, AddressMode::INDY, 5)),
        0xD5 => Some((Instr::CMP, AddressMode::ZPX, 4)),
        0xD6 => Some((Instr::DEC, AddressMode::ZPX, 6)),
        0xD8 => Some((Instr::CLD, AddressMode::IMP, 2)),
        0xD9 => Some((Instr::CMP, AddressMode::ABSY, 4)),
        0xDD => Some((Instr::CMP, AddressMode::ABSX, 4)),
        0xDE => Some((Instr::DEC, AddressMode::ABSX, 7)),
        0xE0 => Some((Instr::CPX, AddressMode::IMM, 2)),
        0xE1 => Some((Instr::SBC, AddressMode::INDX, 6)),
        0xE4 => Some((Instr::CPX, AddressMode::ZP, 3)),
        0xE5 => Some((Instr::SBC, AddressMode::ZP, 3)),
        0xE6 => Some((Instr::INC, AddressMode::ZP, 5)),
        0xE8 => Some((Instr::INX, AddressMode::IMP, 2)),
        0xE9 => Some((Instr::SBC, AddressMode::IMM, 2)),
        0xEA => Some((Instr::NOP, AddressMode::IMP, 2)),
        0xEC => Some((Instr::CPX, AddressMode::ABS, 4)),
        0xED => Some((Instr::SBC, AddressMode::ABS, 4)),
        0xEE => Some((Instr::INC, AddressMode::ABS, 6)),
        0xF0 => Some((Instr::BEQ, AddressMode::REL, 2)),
        0xF1 => Some((Instr::SBC, AddressMode::INDY, 5)),
        0xF5 => Some((Instr::SBC, AddressMode::ZPX, 4)),
        0xF6 => Some((Instr::INC, AddressMode::ZPX, 6)),
        0xF8 => Some((Instr::SED, AddressMode::IMP, 2)),
        0xF9 => Some((Instr::SBC, AddressMode::ABSY, 4)),
        0xFD => Some((Instr::SBC, AddressMode::ABSX, 4)),
        0xFE => Some((Instr::INC, AddressMode::ABSX, 7)),
        _ => None,
    }
}

} // verus!
