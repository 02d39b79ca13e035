//! Static opcode table: each instruction byte maps to its mnemonic,
//! addressing mode and base cycle count. The remaining unofficial bytes
//! run in lenient mode: they sit in the table as NOPs whose mode gives
//! the canonical operand length and whose cycle count is the canonical
//! one; bytes outside the table decode to `None` and run as one-byte
//! NOPs.

use vstd::prelude::*;

verus! {

#[derive(Clone, Copy, PartialEq, Eq, Structural, Debug)]
pub enum Instruction {
    ADC,
    AND,
    ASL,
    BCC,
    BCS,
    BEQ,
    BIT,
    BMI,
    BNE,
    BPL,
    BRK,
    BVC,
    BVS,
    CLC,
    CLD,
    CLI,
    CLV,
    CMP,
    CPX,
    CPY,
    DCP,
    DEC,
    DEX,
    DEY,
    EOR,
    INC,
    INX,
    INY,
    ISB,
    JMP,
    JSR,
    LAX,
    LDA,
    LDX,
    LDY,
    LSR,
    NOP,
    ORA,
    PHA,
    PHP,
    PLA,
    PLP,
    RLA,
    ROL,
    ROR,
    RRA,
    RTI,
    RTS,
    SAX,
    SBC,
    SEC,
    SED,
    SEI,
    SLO,
    SRE,
    STA,
    STX,
    STY,
    TAX,
    TAY,
    TSX,
    TXA,
    TXS,
    TYA,
}

#[derive(Clone, Copy, PartialEq, Eq, Structural, Debug)]
pub enum Addressing {
    Implied,
    Accumulator,
    Immediate,
    ZeroPage,
    ZeroPageX,
    ZeroPageY,
    Absolute,
    AbsoluteX,
    AbsoluteY,
    Relative,
    IndirectAbsolute,
    IndexedIndirect,
    IndirectIndexed,
}

#[derive(Clone, Copy, PartialEq, Eq, Structural, Debug)]
pub struct Opcode {
    pub name: Instruction,
    pub mode: Addressing,
    pub cycle: u16,
}

/// The decode table as a function of the instruction byte.
#[verifier::opaque]
pub open spec fn spec_opcode(value: u8) -> Option<Opcode> {
    match value {
        0x00u8 => Some(Opcode { name: Instruction::BRK, mode: Addressing::Implied, cycle: 7 }),
        0x01u8 => Some(Opcode { name: Instruction::ORA, mode: Addressing::IndexedIndirect, cycle: 6 }),
        0x03u8 => Some(Opcode { name: Instruction::SLO, mode: Addressing::IndexedIndirect, cycle: 8 }),
        0x04u8 => Some(Opcode { name: Instruction::NOP, mode: Addressing::ZeroPage, cycle: 3 }),
        0x05u8 => Some(Opcode { name: Instruction::ORA, mode: Addressing::ZeroPage, cycle: 3 }),
        0x06u8 => Some(Opcode { name: Instruction::ASL, mode: Addressing::ZeroPage, cycle: 5 }),
        0x07u8 => Some(Opcode { name: Instruction::SLO, mode: Addressing::ZeroPage, cycle: 5 }),
        0x08u8 => Some(Opcode { name: Instruction::PHP, mode: Addressing::Implied, cycle: 3 }),
        0x09u8 => Some(Opcode { name: Instruction::ORA, mode: Addressing::Immediate, cycle: 2 }),
        0x0Au8 => Some(Opcode { name: Instruction::ASL, mode: Addressing::Accumulator, cycle: 2 }),
        0x0Cu8 => Some(Opcode { name: Instruction::NOP, mode: Addressing::Absolute, cycle: 4 }),
        0x0Du8 => Some(Opcode { name: Instruction::ORA, mode: Addressing::Absolute, cycle: 4 }),
        0x0Eu8 => Some(Opcode { name: Instruction::ASL, mode: Addressing::Absolute, cycle: 6 }),
        0x0Fu8 => Some(Opcode { name: Instruction::SLO, mode: Addressing::Absolute, cycle: 6 }),
        0x10u8 => Some(Opcode { name: Instruction::BPL, mode: Addressing::Relative, cycle: 2 }),
        0x11u8 => Some(Opcode { name: Instruction::ORA, mode: Addressing::IndirectIndexed, cycle: 5 }),
        0x13u8 => Some(Opcode { name: Instruction::SLO, mode: Addressing::IndirectIndexed, cycle: 8 }),
        0x14u8 => Some(Opcode { name: Instruction::NOP, mode: Addressing::ZeroPageX, cycle: 4 }),
        0x15u8 => Some(Opcode { name: Instruction::ORA, mode: Addressing::ZeroPageX, cycle: 4 }),
        0x16u8 => Some(Opcode { name: Instruction::ASL, mode: Addressing::ZeroPageX, cycle: 6 }),
        0x17u8 => Some(Opcode { name: Instruction::SLO, mode: Addressing::ZeroPageX, cycle: 6 }),
        0x18u8 => Some(Opcode { name: Instruction::CLC, mode: Addressing::Implied, cycle: 2 }),
        0x19u8 => Some(Opcode { name: Instruction::ORA, mode: Addressing::AbsoluteY, cycle: 4 }),
        0x1Au8 => Some(Opcode { name: Instruction::NOP, mode: Addressing::Implied, cycle: 2 }),
        0x1Bu8 => Some(Opcode { name: Instruction::SLO, mode: Addressing::AbsoluteY, cycle: 7 }),
        0x1Cu8 => Some(Opcode { name: Instruction::NOP, mode: Addressing::AbsoluteX, cycle: 4 }),
        0x1Du8 => Some(Opcode { name: Instruction::ORA, mode: Addressing::AbsoluteX, cycle: 4 }),
        0x1Eu8 => Some(Opcode { name: Instruction::ASL, mode: Addressing::AbsoluteX, cycle: 7 }),
        0x1Fu8 => Some(Opcode { name: Instruction::SLO, mode: Addressing::AbsoluteX, cycle: 7 }),
        0x20u8 => Some(Opcode { name: Instruction::JSR, mode: Addressing::Absolute, cycle: 6 }),
        0x21u8 => Some(Opcode { name: Instruction::AND, mode: Addressing::IndexedIndirect, cycle: 6 }),
        0x23u8 => Some(Opcode { name: Instruction::RLA, mode: Addressing::IndexedIndirect, cycle: 8 }),
        0x24u8 => Some(Opcode { name: Instruction::BIT, mode: Addressing::ZeroPage, cycle: 3 }),
        0x25u8 => Some(Opcode { name: Instruction::AND, mode: Addressing::ZeroPage, cycle: 3 }),
        0x26u8 => Some(Opcode { name: Instruction::ROL, mode: Addressing::ZeroPage, cycle: 5 }),
        0x27u8 => Some(Opcode { name: Instruction::RLA, mode: Addressing::ZeroPage, cycle: 5 }),
        0x28u8 => Some(Opcode { name: Instruction::PLP, mode: Addressing::Implied, cycle: 4 }),
        0x29u8 => Some(Opcode { name: Instruction::AND, mode: Addressing::Immediate, cycle: 2 }),
        0x2Au8 => Some(Opcode { name: Instruction::ROL, mode: Addressing::Accumulator, cycle: 2 }),
        0x2Cu8 => Some(Opcode { name: Instruction::BIT, mode: Addressing::Absolute, cycle: 4 }),
        0x2Du8 => Some(Opcode { name: Instruction::AND, mode: Addressing::Absolute, cycle: 4 }),
        0x2Eu8 => Some(Opcode { name: Instruction::ROL, mode: Addressing::Absolute, cycle: 6 }),
        0x2Fu8 => Some(Opcode { name: Instruction::RLA, mode: Addressing::Absolute, cycle: 6 }),
        0x30u8 => Some(Opcode { name: Instruction::BMI, mode: Addressing::Relative, cycle: 2 }),
        0x31u8 => Some(Opcode { name: Instruction::AND, mode: Addressing::IndirectIndexed, cycle: 5 }),
        0x33u8 => Some(Opcode { name: Instruction::RLA, mode: Addressing::IndirectIndexed, cycle: 8 }),
        0x34u8 => Some(Opcode { name: Instruction::NOP, mode: Addressing::ZeroPageX, cycle: 4 }),
        0x35u8 => Some(Opcode { name: Instruction::AND, mode: Addressing::ZeroPageX, cycle: 4 }),
        0x36u8 => Some(Opcode { name: Instruction::ROL, mode: Addressing::ZeroPageX, cycle: 6 }),
        0x37u8 => Some(Opcode { name: Instruction::RLA, mode: Addressing::ZeroPageX, cycle: 6 }),
        0x38u8 => Some(Opcode { name: Instruction::SEC, mode: Addressing::Implied, cycle: 2 }),
        0x39u8 => Some(Opcode { name: Instruction::AND, mode: Addressing::AbsoluteY, cycle: 4 }),
        0x3Au8 => Some(Opcode { name: Instruction::NOP, mode: Addressing::Implied, cycle: 2 }),
        0x3Bu8 => Some(Opcode { name: Instruction::RLA, mode: Addressing::AbsoluteY, cycle: 7 }),
        0x3Cu8 => Some(Opcode { name: Instruction::NOP, mode: Addressing::AbsoluteX, cycle: 4 }),
        0x3Du8 => Some(Opcode { name: Instruction::AND, mode: Addressing::AbsoluteX, cycle: 4 }),
        0x3Eu8 => Some(Opcode { name: Instruction::ROL, mode: Addressing::AbsoluteX, cycle: 7 }),
        0x3Fu8 => Some(Opcode { name: Instruction::RLA, mode: Addressing::AbsoluteX, cycle: 7 }),
        0x40u8 => Some(Opcode { name: Instruction::RTI, mode: Addressing::Implied, cycle: 6 }),
        0x41u8 => Some(Opcode { name: Instruction::EOR, mode: Addressing::IndexedIndirect, cycle: 6 }),
        0x43u8 => Some(Opcode { name: Instruction::SRE, mode: Addressing::IndexedIndirect, cycle: 8 }),
        0x44u8 => Some(Opcode { name: Instruction::NOP, mode: Addressing::ZeroPage, cycle: 3 }),
        0x45u8 => Some(Opcode { name: Instruction::EOR, mode: Addressing::ZeroPage, cycle: 3 }),
        0x46u8 => Some(Opcode { name: Instruction::LSR, mode: Addressing::ZeroPage, cycle: 5 }),
        0x47u8 => Some(Opcode { name: Instruction::SRE, mode: Addressing::ZeroPage, cycle: 5 }),
        0x48u8 => Some(Opcode { name: Instruction::PHA, mode: Addressing::Implied, cycle: 3 }),
        0x49u8 => Some(Opcode { name: Instruction::EOR, mode: Addressing::Immediate, cycle: 2 }),
        0x4Au8 => Some(Opcode { name: Instruction::LSR, mode: Addressing::Accumulator, cycle: 2 }),
        0x4Cu8 => Some(Opcode { name: Instruction::JMP, mode: Addressing::Absolute, cycle: 3 }),
        0x4Du8 => Some(Opcode { name: Instruction::EOR, mode: Addressing::Absolute, cycle: 4 }),
        0x4Eu8 => Some(Opcode { name: Instruction::LSR, mode: Addressing::Absolute, cycle: 6 }),
        0x4Fu8 => Some(Opcode { name: Instruction::SRE, mode: Addressing::Absolute, cycle: 6 }),
        0x50u8 => Some(Opcode { name: Instruction::BVC, mode: Addressing::Relative, cycle: 2 }),
        0x51u8 => Some(Opcode { name: Instruction::EOR, mode: Addressing::IndirectIndexed, cycle: 5 }),
        0x53u8 => Some(Opcode { name: Instruction::SRE, mode: Addressing::IndirectIndexed, cycle: 8 }),
        0x54u8 => Some(Opcode { name: Instruction::NOP, mode: Addressing::ZeroPageX, cycle: 4 }),
        0x55u8 => Some(Opcode { name: Instruction::EOR, mode: Addressing::ZeroPageX, cycle: 4 }),
        0x56u8 => Some(Opcode { name: Instruction::LSR, mode: Addressing::ZeroPageX, cycle: 6 }),
        0x57u8 => Some(Opcode { name: Instruction::SRE, mode: Addressing::ZeroPageX, cycle: 6 }),
        0x58u8 => Some(Opcode { name: Instruction::CLI, mode: Addressing::Implied, cycle: 2 }),
        0x59u8 => Some(Opcode { name: Instruction::EOR, mode: Addressing::AbsoluteY, cycle: 4 }),
        0x5Au8 => Some(Opcode { name: Instruction::NOP, mode: Addressing::Implied, cycle: 2 }),
        0x5Bu8 => Some(Opcode { name: Instruction::SRE, mode: Addressing::AbsoluteY, cycle: 7 }),
        0x5Cu8 => Some(Opcode { name: Instruction::NOP, mode: Addressing::AbsoluteX, cycle: 4 }),
        0x5Du8 => Some(Opcode { name: Instruction::EOR, mode: Addressing::AbsoluteX, cycle: 4 }),
        0x5Eu8 => Some(Opcode { name: Instruction::LSR, mode: Addressing::AbsoluteX, cycle: 7 }),
        0x5Fu8 => Some(Opcode { name: Instruction::SRE, mode: Addressing::AbsoluteX, cycle: 7 }),
        0x60u8 => Some(Opcode { name: Instruction::RTS, mode: Addressing::Implied, cycle: 6 }),
        0x61u8 => Some(Opcode { name: Instruction::ADC, mode: Addressing::IndexedIndirect, cycle: 6 }),
        0x63u8 => Some(Opcode { name: Instruction::RRA, mode: Addressing::IndexedIndirect, cycle: 8 }),
        0x64u8 => Some(Opcode { name: Instruction::NOP, mode: Addressing::ZeroPage, cycle: 3 }),
        0x65u8 => Some(Opcode { name: Instruction::ADC, mode: Addressing::ZeroPage, cycle: 3 }),
        0x66u8 => Some(Opcode { name: Instruction::ROR, mode: Addressing::ZeroPage, cycle: 5 }),
        0x67u8 => Some(Opcode { name: Instruction::RRA, mode: Addressing::ZeroPage, cycle: 5 }),
        0x68u8 => Some(Opcode { name: Instruction::PLA, mode: Addressing::Implied, cycle: 4 }),
        0x69u8 => Some(Opcode { name: Instruction::ADC, mode: Addressing::Immediate, cycle: 2 }),
        0x6Au8 => Some(Opcode { name: Instruction::ROR, mode: Addressing::Accumulator, cycle: 2 }),
        0x6Cu8 => Some(Opcode { name: Instruction::JMP, mode: Addressing::IndirectAbsolute, cycle: 5 }),
        0x6Du8 => Some(Opcode { name: Instruction::ADC, mode: Addressing::Absolute, cycle: 4 }),
        0x6Eu8 => Some(Opcode { name: Instruction::ROR, mode: Addressing::Absolute, cycle: 6 }),
        0x6Fu8 => Some(Opcode { name: Instruction::RRA, mode: Addressing::Absolute, cycle: 6 }),
        0x70u8 => Some(Opcode { name: Instruction::BVS, mode: Addressing::Relative, cycle: 2 }),
        0x71u8 => Some(Opcode { name: Instruction::ADC, mode: Addressing::IndirectIndexed, cycle: 5 }),
        0x73u8 => Some(Opcode { name: Instruction::RRA, mode: Addressing::IndirectIndexed, cycle: 8 }),
        0x74u8 => Some(Opcode { name: Instruction::NOP, mode: Addressing::ZeroPageX, cycle: 4 }),
        0x75u8 => Some(Opcode { name: Instruction::ADC, mode: Addressing::ZeroPageX, cycle: 4 }),
        0x76u8 => Some(Opcode { name: Instruction::ROR, mode: Addressing::ZeroPageX, cycle: 6 }),
        0x77u8 => Some(Opcode { name: Instruction::RRA, mode: Addressing::ZeroPageX, cycle: 6 }),
        0x78u8 => Some(Opcode { name: Instruction::SEI, mode: Addressing::Implied, cycle: 2 }),
        0x79u8 => Some(Opcode { name: Instruction::ADC, mode: Addressing::AbsoluteY, cycle: 4 }),
        0x7Au8 => Some(Opcode { name: Instruction::NOP, mode: Addressing::Implied, cycle: 2 }),
        0x7Bu8 => Some(Opcode { name: Instruction::RRA, mode: Addressing::AbsoluteY, cycle: 7 }),
        0x7Cu8 => Some(Opcode { name: Instruction::NOP, mode: Addressing::AbsoluteX, cycle: 4 }),
        0x7Du8 => Some(Opcode { name: Instruction::ADC, mode: Addressing::AbsoluteX, cycle: 4 }),
        0x7Eu8 => Some(Opcode { name: Instruction::ROR, mode: Addressing::AbsoluteX, cycle: 7 }),
        0x7Fu8 => Some(Opcode { name: Instruction::RRA, mode: Addressing::AbsoluteX, cycle: 7 }),
        0x80u8 => Some(Opcode { name: Instruction::NOP, mode: Addressing::Immediate, cycle: 2 }),
        0x81u8 => Some(Opcode { name: Instruction::STA, mode: Addressing::IndexedIndirect, cycle: 6 }),
        0x82u8 => Some(Opcode { name: Instruction::NOP, mode: Addressing::Immediate, cycle: 2 }),
        0x83u8 => Some(Opcode { name: Instruction::SAX, mode: Addressing::IndexedIndirect, cycle: 6 }),
        0x84u8 => Some(Opcode { name: Instruction::STY, mode: Addressing::ZeroPage, cycle: 3 }),
        0x85u8 => Some(Opcode { name: Instruction::STA, mode: Addressing::ZeroPage, cycle: 3 }),
        0x86u8 => Some(Opcode { name: Instruction::STX, mode: Addressing::ZeroPage, cycle: 3 }),
        0x87u8 => Some(Opcode { name: Instruction::SAX, mode: Addressing::ZeroPage, cycle: 3 }),
        0x88u8 => Some(Opcode { name: Instruction::DEY, mode: Addressing::Implied, cycle: 2 }),
        0x89u8 => Some(Opcode { name: Instruction::NOP, mode: Addressing::Immediate, cycle: 2 }),
        0x8Au8 => Some(Opcode { name: Instruction::TXA, mode: Addressing::Implied, cycle: 2 }),
        0x8Cu8 => Some(Opcode { name: Instruction::STY, mode: Addressing::Absolute, cycle: 4 }),
        0x8Du8 => Some(Opcode { name: Instruction::STA, mode: Addressing::Absolute, cycle: 4 }),
        0x8Eu8 => Some(Opcode { name: Instruction::STX, mode: Addressing::Absolute, cycle: 4 }),
        0x8Fu8 => Some(Opcode { name: Instruction::SAX, mode: Addressing::Absolute, cycle: 4 }),
        0x90u8 => Some(Opcode { name: Instruction::BCC, mode: Addressing::Relative, cycle: 2 }),
        0x91u8 => Some(Opcode { name: Instruction::STA, mode: Addressing::IndirectIndexed, cycle: 6 }),
        0x93u8 => Some(Opcode { name: Instruction::NOP, mode: Addressing::ZeroPage, cycle: 6 }),
        0x94u8 => Some(Opcode { name: Instruction::STY, mode: Addressing::ZeroPageX, cycle: 4 }),
        0x95u8 => Some(Opcode { name: Instruction::STA, mode: Addressing::ZeroPageX, cycle: 4 }),
        0x96u8 => Some(Opcode { name: Instruction::STX, mode: Addressing::ZeroPageY, cycle: 4 }),
        0x97u8 => Some(Opcode { name: Instruction::SAX, mode: Addressing::ZeroPageY, cycle: 4 }),
        0x98u8 => Some(Opcode { name: Instruction::TYA, mode: Addressing::Implied, cycle: 2 }),
        0x99u8 => Some(Opcode { name: Instruction::STA, mode: Addressing::AbsoluteY, cycle: 5 }),
        0x9Au8 => Some(Opcode { name: Instruction::TXS, mode: Addressing::Implied, cycle: 2 }),
        0x9Bu8 => Some(Opcode { name: Instruction::NOP, mode: Addressing::Absolute, cycle: 5 }),
        0x9Cu8 => Some(Opcode { name: Instruction::NOP, mode: Addressing::Absolute, cycle: 5 }),
        0x9Du8 => Some(Opcode { name: Instruction::STA, mode: Addressing::AbsoluteX, cycle: 5 }),
        0x9Eu8 => Some(Opcode { name: Instruction::NOP, mode: Addressing::Absolute, cycle: 5 }),
        0x9Fu8 => Some(Opcode { name: Instruction::NOP, mode: Addressing::Absolute, cycle: 5 }),
        0xA0u8 => Some(Opcode { name: Instruction::LDY, mode: Addressing::Immediate, cycle: 2 }),
        0xA1u8 => Some(Opcode { name: Instruction::LDA, mode: Addressing::IndexedIndirect, cycle: 6 }),
        0xA2u8 => Some(Opcode { name: Instruction::LDX, mode: Addressing::Immediate, cycle: 2 }),
        0xA3u8 => Some(Opcode { name: Instruction::LAX, mode: Addressing::IndexedIndirect, cycle: 6 }),
        0xA4u8 => Some(Opcode { name: Instruction::LDY, mode: Addressing::ZeroPage, cycle: 3 }),
        0xA5u8 => Some(Opcode { name: Instruction::LDA, mode: Addressing::ZeroPage, cycle: 3 }),
        0xA6u8 => Some(Opcode { name: Instruction::LDX, mode: Addressing::ZeroPage, cycle: 3 }),
        0xA7u8 => Some(Opcode { name: Instruction::LAX, mode: Addressing::ZeroPage, cycle: 3 }),
        0xA8u8 => Some(Opcode { name: Instruction::TAY, mode: Addressing::Implied, cycle: 2 }),
        0xA9u8 => Some(Opcode { name: Instruction::LDA, mode: Addressing::Immediate, cycle: 2 }),
        0xAAu8 => Some(Opcode { name: Instruction::TAX, mode: Addressing::Implied, cycle: 2 }),
        0xABu8 => Some(Opcode { name: Instruction::NOP, mode: Addressing::Immediate, cycle: 2 }),
        0xACu8 => Some(Opcode { name: Instruction::LDY, mode: Addressing::Absolute, cycle: 4 }),
        0xADu8 => Some(Opcode { name: Instruction::LDA, mode: Addressing::Absolute, cycle: 4 }),
        0xAEu8 => Some(Opcode { name: Instruction::LDX, mode: Addressing::Absolute, cycle: 4 }),
        0xAFu8 => Some(Opcode { name: Instruction::LAX, mode: Addressing::Absolute, cycle: 4 }),
        0xB0u8 => Some(Opcode { name: Instruction::BCS, mode: Addressing::Relative, cycle: 2 }),
        0xB1u8 => Some(Opcode { name: Instruction::LDA, mode: Addressing::IndirectIndexed, cycle: 5 }),
        0xB3u8 => Some(Opcode { name: Instruction::LAX, mode: Addressing::IndirectIndexed, cycle: 5 }),
        0xB4u8 => Some(Opcode { name: Instruction::LDY, mode: Addressing::ZeroPageX, cycle: 4 }),
        0xB5u8 => Some(Opcode { name: Instruction::LDA, mode: Addressing::ZeroPageX, cycle: 4 }),
        0xB6u8 => Some(Opcode { name: Instruction::LDX, mode: Addressing::ZeroPageY, cycle: 4 }),
        0xB7u8 => Some(Opcode { name: Instruction::LAX, mode: Addressing::ZeroPageY, cycle: 4 }),
        0xB8u8 => Some(Opcode { name: Instruction::CLV, mode: Addressing::Implied, cycle: 2 }),
        0xB9u8 => Some(Opcode { name: Instruction::LDA, mode: Addressing::AbsoluteY, cycle: 4 }),
        0xBAu8 => Some(Opcode { name: Instruction::TSX, mode: Addressing::Implied, cycle: 2 }),
        0xBBu8 => Some(Opcode { name: Instruction::NOP, mode: Addressing::AbsoluteY, cycle: 4 }),
        0xBCu8 => Some(Opcode { name: Instruction::LDY, mode: Addressing::AbsoluteX, cycle: 4 }),
        0xBDu8 => Some(Opcode { name: Instruction::LDA, mode: Addressing::AbsoluteX, cycle: 4 }),
        0xBEu8 => Some(Opcode { name: Instruction::LDX, mode: Addressing::AbsoluteY, cycle: 4 }),
        0xBFu8 => Some(Opcode { name: Instruction::LAX, mode: Addressing::AbsoluteY, cycle: 4 }),
        0xC0u8 => Some(Opcode { name: Instruction::CPY, mode: Addressing::Immediate, cycle: 2 }),
        0xC1u8 => Some(Opcode { name: Instruction::CMP, mode: Addressing::IndexedIndirect, cycle: 6 }),
        0xC2u8 => Some(Opcode { name: Instruction::NOP, mode: Addressing::Immediate, cycle: 2 }),
        0xC3u8 => Some(Opcode { name: Instruction::DCP, mode: Addressing::IndexedIndirect, cycle: 8 }),
        0xC4u8 => Some(Opcode { name: Instruction::CPY, mode: Addressing::ZeroPage, cycle: 3 }),
        0xC5u8 => Some(Opcode { name: Instruction::CMP, mode: Addressing::ZeroPage, cycle: 3 }),
        0xC6u8 => Some(Opcode { name: Instruction::DEC, mode: Addressing::ZeroPage, cycle: 5 }),
        0xC7u8 => Some(Opcode { name: Instruction::DCP, mode: Addressing::ZeroPage, cycle: 5 }),
        0xC8u8 => Some(Opcode { name: Instruction::INY, mode: Addressing::Implied, cycle: 2 }),
        0xC9u8 => Some(Opcode { name: Instruction::CMP, mode: Addressing::Immediate, cycle: 2 }),
        0xCAu8 => Some(Opcode { name: Instruction::DEX, mode: Addressing::Implied, cycle: 2 }),
        0xCBu8 => Some(Opcode { name: Instruction::NOP, mode: Addressing::Immediate, cycle: 2 }),
        0xCCu8 => Some(Opcode { name: Instruction::CPY, mode: Addressing::Absolute, cycle: 4 }),
        0xCDu8 => Some(Opcode { name: Instruction::CMP, mode: Addressing::Absolute, cycle: 4 }),
        0xCEu8 => Some(Opcode { name: Instruction::DEC, mode: Addressing::Absolute, cycle: 6 }),
        0xCFu8 => Some(Opcode { name: Instruction::DCP, mode: Addressing::Absolute, cycle: 6 }),
        0xD0u8 => Some(Opcode { name: Instruction::BNE, mode: Addressing::Relative, cycle: 2 }),
        0xD1u8 => Some(Opcode { name: Instruction::CMP, mode: Addressing::IndirectIndexed, cycle: 5 }),
        0xD3u8 => Some(Opcode { name: Instruction::DCP, mode: Addressing::IndirectIndexed, cycle: 8 }),
        0xD4u8 => Some(Opcode { name: Instruction::NOP, mode: Addressing::ZeroPageX, cycle: 4 }),
        0xD5u8 => Some(Opcode { name: Instruction::CMP, mode: Addressing::ZeroPageX, cycle: 4 }),
        0xD6u8 => Some(Opcode { name: Instruction::DEC, mode: Addressing::ZeroPageX, cycle: 6 }),
        0xD7u8 => Some(Opcode { name: Instruction::DCP, mode: Addressing::ZeroPageX, cycle: 6 }),
        0xD8u8 => Some(Opcode { name: Instruction::CLD, mode: Addressing::Implied, cycle: 2 }),
        0xD9u8 => Some(Opcode { name: Instruction::CMP, mode: Addressing::AbsoluteY, cycle: 4 }),
        0xDAu8 => Some(Opcode { name: Instruction::NOP, mode: Addressing::Implied, cycle: 2 }),
        0xDBu8 => Some(Opcode { name: Instruction::DCP, mode: Addressing::AbsoluteY, cycle: 7 }),
        0xDCu8 => Some(Opcode { name: Instruction::NOP, mode: Addressing::AbsoluteX, cycle: 4 }),
        0xDDu8 => Some(Opcode { name: Instruction::CMP, mode: Addressing::AbsoluteX, cycle: 4 }),
        0xDEu8 => Some(Opcode { name: Instruction::DEC, mode: Addressing::AbsoluteX, cycle: 7 }),
        0xDFu8 => Some(Opcode { name: Instruction::DCP, mode: Addressing::AbsoluteX, cycle: 7 }),
        0xE0u8 => Some(Opcode { name: Instruction::CPX, mode: Addressing::Immediate, cycle: 2 }),
        0xE1u8 => Some(Opcode { name: Instruction::SBC, mode: Addressing::IndexedIndirect, cycle: 6 }),
        0xE2u8 => Some(Opcode { name: Instruction::NOP, mode: Addressing::Immediate, cycle: 2 }),
        0xE3u8 => Some(Opcode { name: Instruction::ISB, mode: Addressing::IndexedIndirect, cycle: 8 }),
        0xE4u8 => Some(Opcode { name: Instruction::CPX, mode: Addressing::ZeroPage, cycle: 3 }),
        0xE5u8 => Some(Opcode { name: Instruction::SBC, mode: Addressing::ZeroPage, cycle: 3 }),
        0xE6u8 => Some(Opcode { name: Instruction::INC, mode: Addressing::ZeroPage, cycle: 5 }),
        0xE7u8 => Some(Opcode { name: Instruction::ISB, mode: Addressing::ZeroPage, cycle: 5 }),
        0xE8u8 => Some(Opcode { name: Instruction::INX, mode: Addressing::Implied, cycle: 2 }),
        0xE9u8 => Some(Opcode { name: Instruction::SBC, mode: Addressing::Immediate, cycle: 2 }),
        0xEAu8 => Some(Opcode { name: Instruction::NOP, mode: Addressing::Implied, cycle: 2 }),
        0xEBu8 => Some(Opcode { name: Instruction::SBC, mode: Addressing::Immediate, cycle: 2 }),
        0xECu8 => Some(Opcode { name: Instruction::CPX, mode: Addressing::Absolute, cycle: 4 }),
        0xEDu8 => Some(Opcode { name: Instruction::SBC, mode: Addressing::Absolute, cycle: 4 }),
        0xEEu8 => Some(Opcode { name: Instruction::INC, mode: Addressing::Absolute, cycle: 6 }),
        0xEFu8 => Some(Opcode { name: Instruction::ISB, mode: Addressing::Absolute, cycle: 6 }),
        0xF0u8 => Some(Opcode { name: Instruction::BEQ, mode: Addressing::Relative, cycle: 2 }),
        0xF1u8 => Some(Opcode { name: Instruction::SBC, mode: Addressing::IndirectIndexed, cycle: 5 }),
        0xF3u8 => Some(Opcode { name: Instruction::ISB, mode: Addressing::IndirectIndexed, cycle: 8 }),
        0xF4u8 => Some(Opcode { name: Instruction::NOP, mode: Addressing::ZeroPageX, cycle: 4 }),
        0xF5u8 => Some(Opcode { name: Instruction::SBC, mode: Addressing::ZeroPageX, cycle: 4 }),
        0xF6u8 => Some(Opcode { name: Instruction::INC, mode: Addressing::ZeroPageX, cycle: 6 }),
        0xF7u8 => Some(Opcode { name: Instruction::ISB, mode: Addressing::ZeroPageX, cycle: 6 }),
        0xF8u8 => Some(Opcode { name: Instruction::SED, mode: Addressing::Implied, cycle: 2 }),
        0xF9u8 => Some(Opcode { name: Instruction::SBC, mode: Addressing::AbsoluteY, cycle: 4 }),
        0xFAu8 => Some(Opcode { name: Instruction::NOP, mode: Addressing::Implied, cycle: 2 }),
        0xFBu8 => Some(Opcode { name: Instruction::ISB, mode: Addressing::AbsoluteY, cycle: 7 }),
        0xFCu8 => Some(Opcode { name: Instruction::NOP, mode: Addressing::AbsoluteX, cycle: 4 }),
        0xFDu8 => Some(Opcode { name: Instruction::SBC, mode: Addressing::AbsoluteX, cycle: 4 }),
        0xFEu8 => Some(Opcode { name: Instruction::INC, mode: Addressing::AbsoluteX, cycle: 7 }),
        0xFFu8 => Some(Opcode { name: Instruction::ISB, mode: Addressing::AbsoluteX, cycle: 7 }),
        _ => None,
    }
}

/// Looks the instruction byte up in the static table.
#[verifier::rlimit(100)]
#[verifier::spinoff_prover]
pub fn opcode_lookup(value: u8) -> (r: Option<Opcode>)
    ensures
        r == spec_opcode(value),
{
    proof {
        reveal(spec_opcode);
    }
    match value {
        0x00u8 => Some(Opcode { name: Instruction::BRK, mode: Addressing::Implied, cycle: 7 }),
        0x01u8 => Some(Opcode { name: Instruction::ORA, mode: Addressing::IndexedIndirect, cycle: 6 }),
        0x03u8 => Some(Opcode { name: Instruction::SLO, mode: Addressing::IndexedIndirect, cycle: 8 }),
        0x04u8 => Some(Opcode { name: Instruction::NOP, mode: Addressing::ZeroPage, cycle: 3 }),
        0x05u8 => Some(Opcode { name: Instruction::ORA, mode: Addressing::ZeroPage, cycle: 3 }),
        0x06u8 => Some(Opcode { name: Instruction::ASL, mode: Addressing::ZeroPage, cycle: 5 }),
        0x07u8 => Some(Opcode { name: Instruction::SLO, mode: Addressing::ZeroPage, cycle: 5 }),
        0x08u8 => Some(Opcode { name: Instruction::PHP, mode: Addressing::Implied, cycle: 3 }),
        0x09u8 => Some(Opcode { name: Instruction::ORA, mode: Addressing::Immediate, cycle: 2 }),
        0x0Au8 => Some(Opcode { name: Instruction::ASL, mode: Addressing::Accumulator, cycle: 2 }),
        0x0Cu8 => Some(Opcode { name: Instruction::NOP, mode: Addressing::Absolute, cycle: 4 }),
        0x0Du8 => Some(Opcode { name: Instruction::ORA, mode: Addressing::Absolute, cycle: 4 }),
        0x0Eu8 => Some(Opcode { name: Instruction::ASL, mode: Addressing::Absolute, cycle: 6 }),
        0x0Fu8 => Some(Opcode { name: Instruction::SLO, mode: Addressing::Absolute, cycle: 6 }),
        0x10u8 => Some(Opcode { name: Instruction::BPL, mode: Addressing::Relative, cycle: 2 }),
        0x11u8 => Some(Opcode { name: Instruction::ORA, mode: Addressing::IndirectIndexed, cycle: 5 }),
        0x13u8 => Some(Opcode { name: Instruction::SLO, mode: Addressing::IndirectIndexed, cycle: 8 }),
        0x14u8 => Some(Opcode { name: Instruction::NOP, mode: Addressing::ZeroPageX, cycle: 4 }),
        0x15u8 => Some(Opcode { name: Instruction::ORA, mode: Addressing::ZeroPageX, cycle: 4 }),
        0x16u8 => Some(Opcode { name: Instruction::ASL, mode: Addressing::ZeroPageX, cycle: 6 }),
        0x17u8 => Some(Opcode { name: Instruction::SLO, mode: Addressing::ZeroPageX, cycle: 6 }),
        0x18u8 => Some(Opcode { name: Instruction::CLC, mode: Addressing::Implied, cycle: 2 }),
        0x19u8 => Some(Opcode { name: Instruction::ORA, mode: Addressing::AbsoluteY, cycle: 4 }),
        0x1Au8 => Some(Opcode { name: Instruction::NOP, mode: Addressing::Implied, cycle: 2 }),
        0x1Bu8 => Some(Opcode { name: Instruction::SLO, mode: Addressing::AbsoluteY, cycle: 7 }),
        0x1Cu8 => Some(Opcode { name: Instruction::NOP, mode: Addressing::AbsoluteX, cycle: 4 }),
        0x1Du8 => Some(Opcode { name: Instruction::ORA, mode: Addressing::AbsoluteX, cycle: 4 }),
        0x1Eu8 => Some(Opcode { name: Instruction::ASL, mode: Addressing::AbsoluteX, cycle: 7 }),
        0x1Fu8 => Some(Opcode { name: Instruction::SLO, mode: Addressing::AbsoluteX, cycle: 7 }),
        0x20u8 => Some(Opcode { name: Instruction::JSR, mode: Addressing::Absolute, cycle: 6 }),
        0x21u8 => Some(Opcode { name: Instruction::AND, mode: Addressing::IndexedIndirect, cycle: 6 }),
        0x23u8 => Some(Opcode { name: Instruction::RLA, mode: Addressing::IndexedIndirect, cycle: 8 }),
        0x24u8 => Some(Opcode { name: Instruction::BIT, mode: Addressing::ZeroPage, cycle: 3 }),
        0x25u8 => Some(Opcode { name: Instruction::AND, mode: Addressing::ZeroPage, cycle: 3 }),
        0x26u8 => Some(Opcode { name: Instruction::ROL, mode: Addressing::ZeroPage, cycle: 5 }),
        0x27u8 => Some(Opcode { name: Instruction::RLA, mode: Addressing::ZeroPage, cycle: 5 }),
        0x28u8 => Some(Opcode { name: Instruction::PLP, mode: Addressing::Implied, cycle: 4 }),
        0x29u8 => Some(Opcode { name: Instruction::AND, mode: Addressing::Immediate, cycle: 2 }),
        0x2Au8 => Some(Opcode { name: Instruction::ROL, mode: Addressing::Accumulator, cycle: 2 }),
        0x2Cu8 => Some(Opcode { name: Instruction::BIT, mode: Addressing::Absolute, cycle: 4 }),
        0x2Du8 => Some(Opcode { name: Instruction::AND, mode: Addressing::Absolute, cycle: 4 }),
        0x2Eu8 => Some(Opcode { name: Instruction::ROL, mode: Addressing::Absolute, cycle: 6 }),
        0x2Fu8 => Some(Opcode { name: Instruction::RLA, mode: Addressing::Absolute, cycle: 6 }),
        0x30u8 => Some(Opcode { name: Instruction::BMI, mode: Addressing::Relative, cycle: 2 }),
        0x31u8 => Some(Opcode { name: Instruction::AND, mode: Addressing::IndirectIndexed, cycle: 5 }),
        0x33u8 => Some(Opcode { name: Instruction::RLA, mode: Addressing::IndirectIndexed, cycle: 8 }),
        0x34u8 => Some(Opcode { name: Instruction::NOP, mode: Addressing::ZeroPageX, cycle: 4 }),
        0x35u8 => Some(Opcode { name: Instruction::AND, mode: Addressing::ZeroPageX, cycle: 4 }),
        0x36u8 => Some(Opcode { name: Instruction::ROL, mode: Addressing::ZeroPageX, cycle: 6 }),
        0x37u8 => Some(Opcode { name: Instruction::RLA, mode: Addressing::ZeroPageX, cycle: 6 }),
        0x38u8 => Some(Opcode { name: Instruction::SEC, mode: Addressing::Implied, cycle: 2 }),
        0x39u8 => Some(Opcode { name: Instruction::AND, mode: Addressing::AbsoluteY, cycle: 4 }),
        0x3Au8 => Some(Opcode { name: Instruction::NOP, mode: Addressing::Implied, cycle: 2 }),
        0x3Bu8 => Some(Opcode { name: Instruction::RLA, mode: Addressing::AbsoluteY, cycle: 7 }),
        0x3Cu8 => Some(Opcode { name: Instruction::NOP, mode: Addressing::AbsoluteX, cycle: 4 }),
        0x3Du8 => Some(Opcode { name: Instruction::AND, mode: Addressing::AbsoluteX, cycle: 4 }),
        0x3Eu8 => Some(Opcode { name: Instruction::ROL, mode: Addressing::AbsoluteX, cycle: 7 }),
        0x3Fu8 => Some(Opcode { name: Instruction::RLA, mode: Addressing::AbsoluteX, cycle: 7 }),
        0x40u8 => Some(Opcode { name: Instruction::RTI, mode: Addressing::Implied, cycle: 6 }),
        0x41u8 => Some(Opcode { name: Instruction::EOR, mode: Addressing::IndexedIndirect, cycle: 6 }),
        0x43u8 => Some(Opcode { name: Instruction::SRE, mode: Addressing::IndexedIndirect, cycle: 8 }),
        0x44u8 => Some(Opcode { name: Instruction::NOP, mode: Addressing::ZeroPage, cycle: 3 }),
        0x45u8 => Some(Opcode { name: Instruction::EOR, mode: Addressing::ZeroPage, cycle: 3 }),
        0x46u8 => Some(Opcode { name: Instruction::LSR, mode: Addressing::ZeroPage, cycle: 5 }),
        0x47u8 => Some(Opcode { name: Instruction::SRE, mode: Addressing::ZeroPage, cycle: 5 }),
        0x48u8 => Some(Opcode { name: Instruction::PHA, mode: Addressing::Implied, cycle: 3 }),
        0x49u8 => Some(Opcode { name: Instruction::EOR, mode: Addressing::Immediate, cycle: 2 }),
        0x4Au8 => Some(Opcode { name: Instruction::LSR, mode: Addressing::Accumulator, cycle: 2 }),
        0x4Cu8 => Some(Opcode { name: Instruction::JMP, mode: Addressing::Absolute, cycle: 3 }),
        0x4Du8 => Some(Opcode { name: Instruction::EOR, mode: Addressing::Absolute, cycle: 4 }),
        0x4Eu8 => Some(Opcode { name: Instruction::LSR, mode: Addressing::Absolute, cycle: 6 }),
        0x4Fu8 => Some(Opcode { name: Instruction::SRE, mode: Addressing::Absolute, cycle: 6 }),
        0x50u8 => Some(Opcode { name: Instruction::BVC, mode: Addressing::Relative, cycle: 2 }),
        0x51u8 => Some(Opcode { name: Instruction::EOR, mode: Addressing::IndirectIndexed, cycle: 5 }),
        0x53u8 => Some(Opcode { name: Instruction::SRE, mode: Addressing::IndirectIndexed, cycle: 8 }),
        0x54u8 => Some(Opcode { name: Instruction::NOP, mode: Addressing::ZeroPageX, cycle: 4 }),
        0x55u8 => Some(Opcode { name: Instruction::EOR, mode: Addressing::ZeroPageX, cycle: 4 }),
        0x56u8 => Some(Opcode { name: Instruction::LSR, mode: Addressing::ZeroPageX, cycle: 6 }),
        0x57u8 => Some(Opcode { name: Instruction::SRE, mode: Addressing::ZeroPageX, cycle: 6 }),
        0x58u8 => Some(Opcode { name: Instruction::CLI, mode: Addressing::Implied, cycle: 2 }),
        0x59u8 => Some(Opcode { name: Instruction::EOR, mode: Addressing::AbsoluteY, cycle: 4 }),
        0x5Au8 => Some(Opcode { name: Instruction::NOP, mode: Addressing::Implied, cycle: 2 }),
        0x5Bu8 => Some(Opcode { name: Instruction::SRE, mode: Addressing::AbsoluteY, cycle: 7 }),
        0x5Cu8 => Some(Opcode { name: Instruction::NOP, mode: Addressing::AbsoluteX, cycle: 4 }),
        0x5Du8 => Some(Opcode { name: Instruction::EOR, mode: Addressing::AbsoluteX, cycle: 4 }),
        0x5Eu8 => Some(Opcode { name: Instruction::LSR, mode: Addressing::AbsoluteX, cycle: 7 }),
        0x5Fu8 => Some(Opcode { name: Instruction::SRE, mode: Addressing::AbsoluteX, cycle: 7 }),
        0x60u8 => Some(Opcode { name: Instruction::RTS, mode: Addressing::Implied, cycle: 6 }),
        0x61u8 => Some(Opcode { name: Instruction::ADC, mode: Addressing::IndexedIndirect, cycle: 6 }),
        0x63u8 => Some(Opcode { name: Instruction::RRA, mode: Addressing::IndexedIndirect, cycle: 8 }),
        0x64u8 => Some(Opcode { name: Instruction::NOP, mode: Addressing::ZeroPage, cycle: 3 }),
        0x65u8 => Some(Opcode { name: Instruction::ADC, mode: Addressing::ZeroPage, cycle: 3 }),
        0x66u8 => Some(Opcode { name: Instruction::ROR, mode: Addressing::ZeroPage, cycle: 5 }),
        0x67u8 => Some(Opcode { name: Instruction::RRA, mode: Addressing::ZeroPage, cycle: 5 }),
        0x68u8 => Some(Opcode { name: Instruction::PLA, mode: Addressing::Implied, cycle: 4 }),
        0x69u8 => Some(Opcode { name: Instruction::ADC, mode: Addressing::Immediate, cycle: 2 }),
        0x6Au8 => Some(Opcode { name: Instruction::ROR, mode: Addressing::Accumulator, cycle: 2 }),
        0x6Cu8 => Some(Opcode { name: Instruction::JMP, mode: Addressing::IndirectAbsolute, cycle: 5 }),
        0x6Du8 => Some(Opcode { name: Instruction::ADC, mode: Addressing::Absolute, cycle: 4 }),
        0x6Eu8 => Some(Opcode { name: Instruction::ROR, mode: Addressing::Absolute, cycle: 6 }),
        0x6Fu8 => Some(Opcode { name: Instruction::RRA, mode: Addressing::Absolute, cycle: 6 }),
        0x70u8 => Some(Opcode { name: Instruction::BVS, mode: Addressing::Relative, cycle: 2 }),
        0x71u8 => Some(Opcode { name: Instruction::ADC, mode: Addressing::IndirectIndexed, cycle: 5 }),
        0x73u8 => Some(Opcode { name: Instruction::RRA, mode: Addressing::IndirectIndexed, cycle: 8 }),
        0x74u8 => Some(Opcode { name: Instruction::NOP, mode: Addressing::ZeroPageX, cycle: 4 }),
        0x75u8 => Some(Opcode { name: Instruction::ADC, mode: Addressing::ZeroPageX, cycle: 4 }),
        0x76u8 => Some(Opcode { name: Instruction::ROR, mode: Addressing::ZeroPageX, cycle: 6 }),
        0x77u8 => Some(Opcode { name: Instruction::RRA, mode: Addressing::ZeroPageX, cycle: 6 }),
        0x78u8 => Some(Opcode { name: Instruction::SEI, mode: Addressing::Implied, cycle: 2 }),
        0x79u8 => Some(Opcode { name: Instruction::ADC, mode: Addressing::AbsoluteY, cycle: 4 }),
        0x7Au8 => Some(Opcode { name: Instruction::NOP, mode: Addressing::Implied, cycle: 2 }),
        0x7Bu8 => Some(Opcode { name: Instruction::RRA, mode: Addressing::AbsoluteY, cycle: 7 }),
        0x7Cu8 => Some(Opcode { name: Instruction::NOP, mode: Addressing::AbsoluteX, cycle: 4 }),
        0x7Du8 => Some(Opcode { name: Instruction::ADC, mode: Addressing::AbsoluteX, cycle: 4 }),
        0x7Eu8 => Some(Opcode { name: Instruction::ROR, mode: Addressing::AbsoluteX, cycle: 7 }),
        0x7Fu8 => Some(Opcode { name: Instruction::RRA, mode: Addressing::AbsoluteX, cycle: 7 }),
        0x80u8 => Some(Opcode { name: Instruction::NOP, mode: Addressing::Immediate, cycle: 2 }),
        0x81u8 => Some(Opcode { name: Instruction::STA, mode: Addressing::IndexedIndirect, cycle: 6 }),
        0x82u8 => Some(Opcode { name: Instruction::NOP, mode: Addressing::Immediate, cycle: 2 }),
        0x83u8 => Some(Opcode { name: Instruction::SAX, mode: Addressing::IndexedIndirect, cycle: 6 }),
        0x84u8 => Some(Opcode { name: Instruction::STY, mode: Addressing::ZeroPage, cycle: 3 }),
        0x85u8 => Some(Opcode { name: Instruction::STA, mode: Addressing::ZeroPage, cycle: 3 }),
        0x86u8 => Some(Opcode { name: Instruction::STX, mode: Addressing::ZeroPage, cycle: 3 }),
        0x87u8 => Some(Opcode { name: Instruction::SAX, mode: Addressing::ZeroPage, cycle: 3 }),
        0x88u8 => Some(Opcode { name: Instruction::DEY, mode: Addressing::Implied, cycle: 2 }),
        0x89u8 => Some(Opcode { name: Instruction::NOP, mode: Addressing::Immediate, cycle: 2 }),
        0x8Au8 => Some(Opcode { name: Instruction::TXA, mode: Addressing::Implied, cycle: 2 }),
        0x8Cu8 => Some(Opcode { name: Instruction::STY, mode: Addressing::Absolute, cycle: 4 }),
        0x8Du8 => Some(Opcode { name: Instruction::STA, mode: Addressing::Absolute, cycle: 4 }),
        0x8Eu8 => Some(Opcode { name: Instruction::STX, mode: Addressing::Absolute, cycle: 4 }),
        0x8Fu8 => Some(Opcode { name: Instruction::SAX, mode: Addressing::Absolute, cycle: 4 }),
        0x90u8 => Some(Opcode { name: Instruction::BCC, mode: Addressing::Relative, cycle: 2 }),
        0x91u8 => Some(Opcode { name: Instruction::STA, mode: Addressing::IndirectIndexed, cycle: 6 }),
        0x93u8 => Some(Opcode { name: Instruction::NOP, mode: Addressing::ZeroPage, cycle: 6 }),
        0x94u8 => Some(Opcode { name: Instruction::STY, mode: Addressing::ZeroPageX, cycle: 4 }),
        0x95u8 => Some(Opcode { name: Instruction::STA, mode: Addressing::ZeroPageX, cycle: 4 }),
        0x96u8 => Some(Opcode { name: Instruction::STX, mode: Addressing::ZeroPageY, cycle: 4 }),
        0x97u8 => Some(Opcode { name: Instruction::SAX, mode: Addressing::ZeroPageY, cycle: 4 }),
        0x98u8 => Some(Opcode { name: Instruction::TYA, mode: Addressing::Implied, cycle: 2 }),
        0x99u8 => Some(Opcode { name: Instruction::STA, mode: Addressing::AbsoluteY, cycle: 5 }),
        0x9Au8 => Some(Opcode { name: Instruction::TXS, mode: Addressing::Implied, cycle: 2 }),
        0x9Bu8 => Some(Opcode { name: Instruction::NOP, mode: Addressing::Absolute, cycle: 5 }),
        0x9Cu8 => Some(Opcode { name: Instruction::NOP, mode: Addressing::Absolute, cycle: 5 }),
        0x9Du8 => Some(Opcode { name: Instruction::STA, mode: Addressing::AbsoluteX, cycle: 5 }),
        0x9Eu8 => Some(Opcode { name: Instruction::NOP, mode: Addressing::Absolute, cycle: 5 }),
        0x9Fu8 => Some(Opcode { name: Instruction::NOP, mode: Addressing::Absolute, cycle: 5 }),
        0xA0u8 => Some(Opcode { name: Instruction::LDY, mode: Addressing::Immediate, cycle: 2 }),
        0xA1u8 => Some(Opcode { name: Instruction::LDA, mode: Addressing::IndexedIndirect, cycle: 6 }),
        0xA2u8 => Some(Opcode { name: Instruction::LDX, mode: Addressing::Immediate, cycle: 2 }),
        0xA3u8 => Some(Opcode { name: Instruction::LAX, mode: Addressing::IndexedIndirect, cycle: 6 }),
        0xA4u8 => Some(Opcode { name: Instruction::LDY, mode: Addressing::ZeroPage, cycle: 3 }),
        0xA5u8 => Some(Opcode { name: Instruction::LDA, mode: Addressing::ZeroPage, cycle: 3 }),
        0xA6u8 => Some(Opcode { name: Instruction::LDX, mode: Addressing::ZeroPage, cycle: 3 }),
        0xA7u8 => Some(Opcode { name: Instruction::LAX, mode: Addressing::ZeroPage, cycle: 3 }),
        0xA8u8 => Some(Opcode { name: Instruction::TAY, mode: Addressing::Implied, cycle: 2 }),
        0xA9u8 => Some(Opcode { name: Instruction::LDA, mode: Addressing::Immediate, cycle: 2 }),
        0xAAu8 => Some(Opcode { name: Instruction::TAX, mode: Addressing::Implied, cycle: 2 }),
        0xABu8 => Some(Opcode { name: Instruction::NOP, mode: Addressing::Immediate, cycle: 2 }),
        0xACu8 => Some(Opcode { name: Instruction::LDY, mode: Addressing::Absolute, cycle: 4 }),
        0xADu8 => Some(Opcode { name: Instruction::LDA, mode: Addressing::Absolute, cycle: 4 }),
        0xAEu8 => Some(Opcode { name: Instruction::LDX, mode: Addressing::Absolute, cycle: 4 }),
        0xAFu8 => Some(Opcode { name: Instruction::LAX, mode: Addressing::Absolute, cycle: 4 }),
        0xB0u8 => Some(Opcode { name: Instruction::BCS, mode: Addressing::Relative, cycle: 2 }),
        0xB1u8 => Some(Opcode { name: Instruction::LDA, mode: Addressing::IndirectIndexed, cycle: 5 }),
        0xB3u8 => Some(Opcode { name: Instruction::LAX, mode: Addressing::IndirectIndexed, cycle: 5 }),
        0xB4u8 => Some(Opcode { name: Instruction::LDY, mode: Addressing::ZeroPageX, cycle: 4 }),
        0xB5u8 => Some(Opcode { name: Instruction::LDA, mode: Addressing::ZeroPageX, cycle: 4 }),
        0xB6u8 => Some(Opcode { name: Instruction::LDX, mode: Addressing::ZeroPageY, cycle: 4 }),
        0xB7u8 => Some(Opcode { name: Instruction::LAX, mode: Addressing::ZeroPageY, cycle: 4 }),
        0xB8u8 => Some(Opcode { name: Instruction::CLV, mode: Addressing::Implied, cycle: 2 }),
        0xB9u8 => Some(Opcode { name: Instruction::LDA, mode: Addressing::AbsoluteY, cycle: 4 }),
        0xBAu8 => Some(Opcode { name: Instruction::TSX, mode: Addressing::Implied, cycle: 2 }),
        0xBBu8 => Some(Opcode { name: Instruction::NOP, mode: Addressing::AbsoluteY, cycle: 4 }),
        0xBCu8 => Some(Opcode { name: Instruction::LDY, mode: Addressing::AbsoluteX, cycle: 4 }),
        0xBDu8 => Some(Opcode { name: Instruction::LDA, mode: Addressing::AbsoluteX, cycle: 4 }),
        0xBEu8 => Some(Opcode { name: Instruction::LDX, mode: Addressing::AbsoluteY, cycle: 4 }),
        0xBFu8 => Some(Opcode { name: Instruction::LAX, mode: Addressing::AbsoluteY, cycle: 4 }),
        0xC0u8 => Some(Opcode { name: Instruction::CPY, mode: Addressing::Immediate, cycle: 2 }),
        0xC1u8 => Some(Opcode { name: Instruction::CMP, mode: Addressing::IndexedIndirect, cycle: 6 }),
        0xC2u8 => Some(Opcode { name: Instruction::NOP, mode: Addressing::Immediate, cycle: 2 }),
        0xC3u8 => Some(Opcode { name: Instruction::DCP, mode: Addressing::IndexedIndirect, cycle: 8 }),
        0xC4u8 => Some(Opcode { name: Instruction::CPY, mode: Addressing::ZeroPage, cycle: 3 }),
        0xC5u8 => Some(Opcode { name: Instruction::CMP, mode: Addressing::ZeroPage, cycle: 3 }),
        0xC6u8 => Some(Opcode { name: Instruction::DEC, mode: Addressing::ZeroPage, cycle: 5 }),
        0xC7u8 => Some(Opcode { name: Instruction::DCP, mode: Addressing::ZeroPage, cycle: 5 }),
        0xC8u8 => Some(Opcode { name: Instruction::INY, mode: Addressing::Implied, cycle: 2 }),
        0xC9u8 => Some(Opcode { name: Instruction::CMP, mode: Addressing::Immediate, cycle: 2 }),
        0xCAu8 => Some(Opcode { name: Instruction::DEX, mode: Addressing::Implied, cycle: 2 }),
        0xCBu8 => Some(Opcode { name: Instruction::NOP, mode: Addressing::Immediate, cycle: 2 }),
        0xCCu8 => Some(Opcode { name: Instruction::CPY, mode: Addressing::Absolute, cycle: 4 }),
        0xCDu8 => Some(Opcode { name: Instruction::CMP, mode: Addressing::Absolute, cycle: 4 }),
        0xCEu8 => Some(Opcode { name: Instruction::DEC, mode: Addressing::Absolute, cycle: 6 }),
        0xCFu8 => Some(Opcode { name: Instruction::DCP, mode: Addressing::Absolute, cycle: 6 }),
        0xD0u8 => Some(Opcode { name: Instruction::BNE, mode: Addressing::Relative, cycle: 2 }),
        0xD1u8 => Some(Opcode { name: Instruction::CMP, mode: Addressing::IndirectIndexed, cycle: 5 }),
        0xD3u8 => Some(Opcode { name: Instruction::DCP, mode: Addressing::IndirectIndexed, cycle: 8 }),
        0xD4u8 => Some(Opcode { name: Instruction::NOP, mode: Addressing::ZeroPageX, cycle: 4 }),
        0xD5u8 => Some(Opcode { name: Instruction::CMP, mode: Addressing::ZeroPageX, cycle: 4 }),
        0xD6u8 => Some(Opcode { name: Instruction::DEC, mode: Addressing::ZeroPageX, cycle: 6 }),
        0xD7u8 => Some(Opcode { name: Instruction::DCP, mode: Addressing::ZeroPageX, cycle: 6 }),
        0xD8u8 => Some(Opcode { name: Instruction::CLD, mode: Addressing::Implied, cycle: 2 }),
        0xD9u8 => Some(Opcode { name: Instruction::CMP, mode: Addressing::AbsoluteY, cycle: 4 }),
        0xDAu8 => Some(Opcode { name: Instruction::NOP, mode: Addressing::Implied, cycle: 2 }),
        0xDBu8 => Some(Opcode { name: Instruction::DCP, mode: Addressing::AbsoluteY, cycle: 7 }),
        0xDCu8 => Some(Opcode { name: Instruction::NOP, mode: Addressing::AbsoluteX, cycle: 4 }),
        0xDDu8 => Some(Opcode { name: Instruction::CMP, mode: Addressing::AbsoluteX, cycle: 4 }),
        0xDEu8 => Some(Opcode { name: Instruction::DEC, mode: Addressing::AbsoluteX, cycle: 7 }),
        0xDFu8 => Some(Opcode { name: Instruction::DCP, mode: Addressing::AbsoluteX, cycle: 7 }),
        0xE0u8 => Some(Opcode { name: Instruction::CPX, mode: Addressing::Immediate, cycle: 2 }),
        0xE1u8 => Some(Opcode { name: Instruction::SBC, mode: Addressing::IndexedIndirect, cycle: 6 }),
        0xE2u8 => Some(Opcode { name: Instruction::NOP, mode: Addressing::Immediate, cycle: 2 }),
        0xE3u8 => Some(Opcode { name: Instruction::ISB, mode: Addressing::IndexedIndirect, cycle: 8 }),
        0xE4u8 => Some(Opcode { name: Instruction::CPX, mode: Addressing::ZeroPage, cycle: 3 }),
        0xE5u8 => Some(Opcode { name: Instruction::SBC, mode: Addressing::ZeroPage, cycle: 3 }),
        0xE6u8 => Some(Opcode { name: Instruction::INC, mode: Addressing::ZeroPage, cycle: 5 }),
        0xE7u8 => Some(Opcode { name: Instruction::ISB, mode: Addressing::ZeroPage, cycle: 5 }),
        0xE8u8 => Some(Opcode { name: Instruction::INX, mode: Addressing::Implied, cycle: 2 }),
        0xE9u8 => Some(Opcode { name: Instruction::SBC, mode: Addressing::Immediate, cycle: 2 }),
        0xEAu8 => Some(Opcode { name: Instruction::NOP, mode: Addressing::Implied, cycle: 2 }),
        0xEBu8 => Some(Opcode { name: Instruction::SBC, mode: Addressing::Immediate, cycle: 2 }),
        0xECu8 => Some(Opcode { name: Instruction::CPX, mode: Addressing::Absolute, cycle: 4 }),
        0xEDu8 => Some(Opcode { name: Instruction::SBC, mode: Addressing::Absolute, cycle: 4 }),
        0xEEu8 => Some(Opcode { name: Instruction::INC, mode: Addressing::Absolute, cycle: 6 }),
        0xEFu8 => Some(Opcode { name: Instruction::ISB, mode: Addressing::Absolute, cycle: 6 }),
        0xF0u8 => Some(Opcode { name: Instruction::BEQ, mode: Addressing::Relative, cycle: 2 }),
        0xF1u8 => Some(Opcode { name: Instruction::SBC, mode: Addressing::IndirectIndexed, cycle: 5 }),
        0xF3u8 => Some(Opcode { name: Instruction::ISB, mode: Addressing::IndirectIndexed, cycle: 8 }),
        0xF4u8 => Some(Opcode { name: Instruction::NOP, mode: Addressing::ZeroPageX, cycle: 4 }),
        0xF5u8 => Some(Opcode { name: Instruction::SBC, mode: Addressing::ZeroPageX, cycle: 4 }),
        0xF6u8 => Some(Opcode { name: Instruction::INC, mode: Addressing::ZeroPageX, cycle: 6 }),
        0xF7u8 => Some(Opcode { name: Instruction::ISB, mode: Addressing::ZeroPageX, cycle: 6 }),
        0xF8u8 => Some(Opcode { name: Instruction::SED, mode: Addressing::Implied, cycle: 2 }),
        0xF9u8 => Some(Opcode { name: Instruction::SBC, mode: Addressing::AbsoluteY, cycle: 4 }),
        0xFAu8 => Some(Opcode { name: Instruction::NOP, mode: Addressing::Implied, cycle: 2 }),
        0xFBu8 => Some(Opcode { name: Instruction::ISB, mode: Addressing::AbsoluteY, cycle: 7 }),
        0xFCu8 => Some(Opcode { name: Instruction::NOP, mode: Addressing::AbsoluteX, cycle: 4 }),
        0xFDu8 => Some(Opcode { name: Instruction::SBC, mode: Addressing::AbsoluteX, cycle: 4 }),
        0xFEu8 => Some(Opcode { name: Instruction::INC, mode: Addressing::AbsoluteX, cycle: 7 }),
        0xFFu8 => Some(Opcode { name: Instruction::ISB, mode: Addressing::AbsoluteX, cycle: 7 }),
        _ => None,
    }
}

} // verus!
