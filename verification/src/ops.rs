//! The opcode table: a total map from every opcode byte to its instruction
//! descriptor.  Official opcodes carry their documented lengths and base
//! cycle counts; the undocumented ones games rely on are included and
//! flagged; the few bytes with no defined behaviour at all are folded into a
//! one-byte, two-cycle undocumented no-op, which keeps every fetch distinct
//! from a break.

use vstd::prelude::*;
use crate::cpu::AddressingMode;

verus! {

/// Instruction mnemonics, undocumented ones included.
#[derive(Clone, Copy, Debug, PartialEq, Eq, Structural)]
pub enum Mnemonic {
    ADC,
    AND,
    ASL,
    BCC,
    BCS,
    BEQ,
    BIT,
    BMI,
    BNE,
    BPL,
    BRK,
    BVC,
    BVS,
    CLC,
    CLD,
    CLI,
    CLV,
    CMP,
    CPX,
    CPY,
    DCP,
    DEC,
    DEX,
    DEY,
    EOR,
    INC,
    INX,
    INY,
    ISB,
    JMP,
    JSR,
    LAX,
    LDA,
    LDX,
    LDY,
    LSR,
    NOP,
    ORA,
    PHA,
    PHP,
    PLA,
    PLP,
    RLA,
    ROL,
    ROR,
    RRA,
    RTI,
    RTS,
    SAX,
    SBC,
    SEC,
    SED,
    SEI,
    SLO,
    SRE,
    STA,
    STX,
    STY,
    TAX,
    TAY,
    TSX,
    TXA,
    TXS,
    TYA,
}

/// One row of the opcode table.
#[derive(Clone, Copy, Debug, PartialEq, Eq, Structural)]
pub struct Op {
    /// The opcode byte itself.
    pub code: u8,
    /// The operation the byte names.
    pub ins: Mnemonic,
    /// Whether the opcode is undocumented (traced with a star).
    pub undoc: bool,
    /// Instruction length in bytes, operand included.
    pub len: u8,
    /// Base cycle count, before page-cross and branch extras.
    pub cycles: u8,
    /// How the operand byte(s) name the operand.
    pub mode: AddressingMode,
}

/// The table row for an opcode byte.
#[verifier::opaque]
pub open spec fn spec_op(code: u8) -> Op {
    match code {
        0x00 => Op { code: 0x00, ins: Mnemonic::BRK, undoc: false, len: 1, cycles: 7, mode: AddressingMode::NoneAddressing },
        0x01 => Op { code: 0x01, ins: Mnemonic::ORA, undoc: false, len: 2, cycles: 6, mode: AddressingMode::Indirect_X },
        0x03 => Op { code: 0x03, ins: Mnemonic::SLO, undoc: true, len: 2, cycles: 8, mode: AddressingMode::Indirect_X },
        0x04 => Op { code: 0x04, ins: Mnemonic::NOP, undoc: true, len: 2, cycles: 3, mode: AddressingMode::ZeroPage },
        0x05 => Op { code: 0x05, ins: Mnemonic::ORA, undoc: false, len: 2, cycles: 3, mode: AddressingMode::ZeroPage },
        0x06 => Op { code: 0x06, ins: Mnemonic::ASL, undoc: false, len: 2, cycles: 5, mode: AddressingMode::ZeroPage },
        0x07 => Op { code: 0x07, ins: Mnemonic::SLO, undoc: true, len: 2, cycles: 5, mode: AddressingMode::ZeroPage },
        0x08 => Op { code: 0x08, ins: Mnemonic::PHP, undoc: false, len: 1, cycles: 3, mode: AddressingMode::NoneAddressing },
        0x09 => Op { code: 0x09, ins: Mnemonic::ORA, undoc: false, len: 2, cycles: 2, mode: AddressingMode::Immediate },
        0x0A => Op { code: 0x0A, ins: Mnemonic::ASL, undoc: false, len: 1, cycles: 2, mode: AddressingMode::NoneAddressing },
        0x0C => Op { code: 0x0C, ins: Mnemonic::NOP, undoc: true, len: 3, cycles: 4, mode: AddressingMode::Absolute },
        0x0D => Op { code: 0x0D, ins: Mnemonic::ORA, undoc: false, len: 3, cycles: 4, mode: AddressingMode::Absolute },
        0x0E => Op { code: 0x0E, ins: Mnemonic::ASL, undoc: false, len: 3, cycles: 6, mode: AddressingMode::Absolute },
        0x0F => Op { code: 0x0F, ins: Mnemonic::SLO, undoc: true, len: 3, cycles: 6, mode: AddressingMode::Absolute },
        0x10 => Op { code: 0x10, ins: Mnemonic::BPL, undoc: false, len: 2, cycles: 2, mode: AddressingMode::NoneAddressing },
        0x11 => Op { code: 0x11, ins: Mnemonic::ORA, undoc: false, len: 2, cycles: 5, mode: AddressingMode::Indirect_Y },
        0x13 => Op { code: 0x13, ins: Mnemonic::SLO, undoc: true, len: 2, cycles: 8, mode: AddressingMode::Indirect_Y },
        0x14 => Op { code: 0x14, ins: Mnemonic::NOP, undoc: true, len: 2, cycles: 4, mode: AddressingMode::ZeroPage_X },
        0x15 => Op { code: 0x15, ins: Mnemonic::ORA, undoc: false, len: 2, cycles: 4, mode: AddressingMode::ZeroPage_X },
        0x16 => Op { code: 0x16, ins: Mnemonic::ASL, undoc: false, len: 2, cycles: 6, mode: AddressingMode::ZeroPage_X },
        0x17 => Op { code: 0x17, ins: Mnemonic::SLO, undoc: true, len: 2, cycles: 6, mode: AddressingMode::ZeroPage_X },
        0x18 => Op { code: 0x18, ins: Mnemonic::CLC, undoc: false, len: 1, cycles: 2, mode: AddressingMode::NoneAddressing },
        0x19 => Op { code: 0x19, ins: Mnemonic::ORA, undoc: false, len: 3, cycles: 4, mode: AddressingMode::Absolute_Y },
        0x1A => Op { code: 0x1A, ins: Mnemonic::NOP, undoc: true, len: 1, cycles: 2, mode: AddressingMode::NoneAddressing },
        0x1B => Op { code: 0x1B, ins: Mnemonic::SLO, undoc: true, len: 3, cycles: 7, mode: AddressingMode::Absolute_Y },
        0x1C => Op { code: 0x1C, ins: Mnemonic::NOP, undoc: true, len: 3, cycles: 4, mode: AddressingMode::Absolute_X },
        0x1D => Op { code: 0x1D, ins: Mnemonic::ORA, undoc: false, len: 3, cycles: 4, mode: AddressingMode::Absolute_X },
        0x1E => Op { code: 0x1E, ins: Mnemonic::ASL, undoc: false, len: 3, cycles: 7, mode: AddressingMode::Absolute_X },
        0x1F => Op { code: 0x1F, ins: Mnemonic::SLO, undoc: true, len: 3, cycles: 7, mode: AddressingMode::Absolute_X },
        0x20 => Op { code: 0x20, ins: Mnemonic::JSR, undoc: false, len: 3, cycles: 6, mode: AddressingMode::NoneAddressing },
        0x21 => Op { code: 0x21, ins: Mnemonic::AND, undoc: false, len: 2, cycles: 6, mode: AddressingMode::Indirect_X },
        0x23 => Op { code: 0x23, ins: Mnemonic::RLA, undoc: true, len: 2, cycles: 8, mode: AddressingMode::Indirect_X },
        0x24 => Op { code: 0x24, ins: Mnemonic::BIT, undoc: false, len: 2, cycles: 3, mode: AddressingMode::ZeroPage },
        0x25 => Op { code: 0x25, ins: Mnemonic::AND, undoc: false, len: 2, cycles: 3, mode: AddressingMode::ZeroPage },
        0x26 => Op { code: 0x26, ins: Mnemonic::ROL, undoc: false, len: 2, cycles: 5, mode: AddressingMode::ZeroPage },
        0x27 => Op { code: 0x27, ins: Mnemonic::RLA, undoc: true, len: 2, cycles: 5, mode: AddressingMode::ZeroPage },
        0x28 => Op { code: 0x28, ins: Mnemonic::PLP, undoc: false, len: 1, cycles: 4, mode: AddressingMode::NoneAddressing },
        0x29 => Op { code: 0x29, ins: Mnemonic::AND, undoc: false, len: 2, cycles: 2, mode: AddressingMode::Immediate },
        0x2A => Op { code: 0x2A, ins: Mnemonic::ROL, undoc: false, len: 1, cycles: 2, mode: AddressingMode::NoneAddressing },
        0x2C => Op { code: 0x2C, ins: Mnemonic::BIT, undoc: false, len: 3, cycles: 4, mode: AddressingMode::Absolute },
        0x2D => Op { code: 0x2D, ins: Mnemonic::AND, undoc: false, len: 3, cycles: 4, mode: AddressingMode::Absolute },
        0x2E => Op { code: 0x2E, ins: Mnemonic::ROL, undoc: false, len: 3, cycles: 6, mode: AddressingMode::Absolute },
        0x2F => Op { code: 0x2F, ins: Mnemonic::RLA, undoc: true, len: 3, cycles: 6, mode: AddressingMode::Absolute },
        0x30 => Op { code: 0x30, ins: Mnemonic::BMI, undoc: false, len: 2, cycles: 2, mode: AddressingMode::NoneAddressing },
        0x31 => Op { code: 0x31, ins: Mnemonic::AND, undoc: false, len: 2, cycles: 5, mode: AddressingMode::Indirect_Y },
        0x33 => Op { code: 0x33, ins: Mnemonic::RLA, undoc: true, len: 2, cycles: 8, mode: AddressingMode::Indirect_Y },
        0x34 => Op { code: 0x34, ins: Mnemonic::NOP, undoc: true, len: 2, cycles: 4, mode: AddressingMode::ZeroPage_X },
        0x35 => Op { code: 0x35, ins: Mnemonic::AND, undoc: false, len: 2, cycles: 4, mode: AddressingMode::ZeroPage_X },
        0x36 => Op { code: 0x36, ins: Mnemonic::ROL, undoc: false, len: 2, cycles: 6, mode: AddressingMode::ZeroPage_X },
        0x37 => Op { code: 0x37, ins: Mnemonic::RLA, undoc: true, len: 2, cycles: 6, mode: AddressingMode::ZeroPage_X },
        0x38 => Op { code: 0x38, ins: Mnemonic::SEC, undoc: false, len: 1, cycles: 2, mode: AddressingMode::NoneAddressing },
        0x39 => Op { code: 0x39, ins: Mnemonic::AND, undoc: false, len: 3, cycles: 4, mode: AddressingMode::Absolute_Y },
        0x3A => Op { code: 0x3A, ins: Mnemonic::NOP, undoc: true, len: 1, cycles: 2, mode: AddressingMode::NoneAddressing },
        0x3B => Op { code: 0x3B, ins: Mnemonic::RLA, undoc: true, len: 3, cycles: 7, mode: AddressingMode::Absolute_Y },
        0x3C => Op { code: 0x3C, ins: Mnemonic::NOP, undoc: true, len: 3, cycles: 4, mode: AddressingMode::Absolute_X },
        0x3D => Op { code: 0x3D, ins: Mnemonic::AND, undoc: false, len: 3, cycles: 4, mode: AddressingMode::Absolute_X },
        0x3E => Op { code: 0x3E, ins: Mnemonic::ROL, undoc: false, len: 3, cycles: 7, mode: AddressingMode::Absolute_X },
        0x3F => Op { code: 0x3F, ins: Mnemonic::RLA, undoc: true, len: 3, cycles: 7, mode: AddressingMode::Absolute_X },
        0x40 => Op { code: 0x40, ins: Mnemonic::RTI, undoc: false, len: 1, cycles: 6, mode: AddressingMode::NoneAddressing },
        0x41 => Op { code: 0x41, ins: Mnemonic::EOR, undoc: false, len: 2, cycles: 6, mode: AddressingMode::Indirect_X },
        0x43 => Op { code: 0x43, ins: Mnemonic::SRE, undoc: true, len: 2, cycles: 8, mode: AddressingMode::Indirect_X },
        0x44 => Op { code: 0x44, ins: Mnemonic::NOP, undoc: true, len: 2, cycles: 3, mode: AddressingMode::ZeroPage },
        0x45 => Op { code: 0x45, ins: Mnemonic::EOR, undoc: false, len: 2, cycles: 3, mode: AddressingMode::ZeroPage },
        0x46 => Op { code: 0x46, ins: Mnemonic::LSR, undoc: false, len: 2, cycles: 5, mode: AddressingMode::ZeroPage },
        0x47 => Op { code: 0x47, ins: Mnemonic::SRE, undoc: true, len: 2, cycles: 5, mode: AddressingMode::ZeroPage },
        0x48 => Op { code: 0x48, ins: Mnemonic::PHA, undoc: false, len: 1, cycles: 3, mode: AddressingMode::NoneAddressing },
        0x49 => Op { code: 0x49, ins: Mnemonic::EOR, undoc: false, len: 2, cycles: 2, mode: AddressingMode::Immediate },
        0x4A => Op { code: 0x4A, ins: Mnemonic::LSR, undoc: false, len: 1, cycles: 2, mode: AddressingMode::NoneAddressing },
        0x4C => Op { code: 0x4C, ins: Mnemonic::JMP, undoc: false, len: 3, cycles: 3, mode: AddressingMode::NoneAddressing },
        0x4D => Op { code: 0x4D, ins: Mnemonic::EOR, undoc: false, len: 3, cycles: 4, mode: AddressingMode::Absolute },
        0x4E => Op { code: 0x4E, ins: Mnemonic::LSR, undoc: false, len: 3, cycles: 6, mode: AddressingMode::Absolute },
        0x4F => Op { code: 0x4F, ins: Mnemonic::SRE, undoc: true, len: 3, cycles: 6, mode: AddressingMode::Absolute },
        0x50 => Op { code: 0x50, ins: Mnemonic::BVC, undoc: false, len: 2, cycles: 2, mode: AddressingMode::NoneAddressing },
        0x51 => Op { code: 0x51, ins: Mnemonic::EOR, undoc: false, len: 2, cycles: 5, mode: AddressingMode::Indirect_Y },
        0x53 => Op { code: 0x53, ins: Mnemonic::SRE, undoc: true, len: 2, cycles: 8, mode: AddressingMode::Indirect_Y },
        0x54 => Op { code: 0x54, ins: Mnemonic::NOP, undoc: true, len: 2, cycles: 4, mode: AddressingMode::ZeroPage_X },
        0x55 => Op { code: 0x55, ins: Mnemonic::EOR, undoc: false, len: 2, cycles: 4, mode: AddressingMode::ZeroPage_X },
        0x56 => Op { code: 0x56, ins: Mnemonic::LSR, undoc: false, len: 2, cycles: 6, mode: AddressingMode::ZeroPage_X },
        0x57 => Op { code: 0x57, ins: Mnemonic::SRE, undoc: true, len: 2, cycles: 6, mode: AddressingMode::ZeroPage_X },
        0x58 => Op { code: 0x58, ins: Mnemonic::CLI, undoc: false, len: 1, cycles: 2, mode: AddressingMode::NoneAddressing },
        0x59 => Op { code: 0x59, ins: Mnemonic::EOR, undoc: false, len: 3, cycles: 4, mode: AddressingMode::Absolute_Y },
        0x5A => Op { code: 0x5A, ins: Mnemonic::NOP, undoc: true, len: 1, cycles: 2, mode: AddressingMode::NoneAddressing },
        0x5B => Op { code: 0x5B, ins: Mnemonic::SRE, undoc: true, len: 3, cycles: 7, mode: AddressingMode::Absolute_Y },
        0x5C => Op { code: 0x5C, ins: Mnemonic::NOP, undoc: true, len: 3, cycles: 4, mode: AddressingMode::Absolute_X },
        0x5D => Op { code: 0x5D, ins: Mnemonic::EOR, undoc: false, len: 3, cycles: 4, mode: AddressingMode::Absolute_X },
        0x5E => Op { code: 0x5E, ins: Mnemonic::LSR, undoc: false, len: 3, cycles: 7, mode: AddressingMode::Absolute_X },
        0x5F => Op { code: 0x5F, ins: Mnemonic::SRE, undoc: true, len: 3, cycles: 7, mode: AddressingMode::Absolute_X },
        0x60 => Op { code: 0x60, ins: Mnemonic::RTS, undoc: false, len: 1, cycles: 6, mode: AddressingMode::NoneAddressing },
        0x61 => Op { code: 0x61, ins: Mnemonic::ADC, undoc: false, len: 2, cycles: 6, mode: AddressingMode::Indirect_X },
        0x63 => Op { code: 0x63, ins: Mnemonic::RRA, undoc: true, len: 2, cycles: 8, mode: AddressingMode::Indirect_X },
        0x64 => Op { code: 0x64, ins: Mnemonic::NOP, undoc: true, len: 2, cycles: 3, mode: AddressingMode::ZeroPage },
        0x65 => Op { code: 0x65, ins: Mnemonic::ADC, undoc: false, len: 2, cycles: 3, mode: AddressingMode::ZeroPage },
        0x66 => Op { code: 0x66, ins: Mnemonic::ROR, undoc: false, len: 2, cycles: 5, mode: AddressingMode::ZeroPage },
        0x67 => Op { code: 0x67, ins: Mnemonic::RRA, undoc: true, len: 2, cycles: 5, mode: AddressingMode::ZeroPage },
        0x68 => Op { code: 0x68, ins: Mnemonic::PLA, undoc: false, len: 1, cycles: 4, mode: AddressingMode::NoneAddressing },
        0x69 => Op { code: 0x69, ins: Mnemonic::ADC, undoc: false, len: 2, cycles: 2, mode: AddressingMode::Immediate },
        0x6A => Op { code: 0x6A, ins: Mnemonic::ROR, undoc: false, len: 1, cycles: 2, mode: AddressingMode::NoneAddressing },
        0x6C => Op { code: 0x6C, ins: Mnemonic::JMP, undoc: false, len: 3, cycles: 5, mode: AddressingMode::NoneAddressing },
        0x6D => Op { code: 0x6D, ins: Mnemonic::ADC, undoc: false, len: 3, cycles: 4, mode: AddressingMode::Absolute },
        0x6E => Op { code: 0x6E, ins: Mnemonic::ROR, undoc: false, len: 3, cycles: 6, mode: AddressingMode::Absolute },
        0x6F => Op { code: 0x6F, ins: Mnemonic::RRA, undoc: true, len: 3, cycles: 6, mode: AddressingMode::Absolute },
        0x70 => Op { code: 0x70, ins: Mnemonic::BVS, undoc: false, len: 2, cycles: 2, mode: AddressingMode::NoneAddressing },
        0x71 => Op { code: 0x71, ins: Mnemonic::ADC, undoc: false, len: 2, cycles: 5, mode: AddressingMode::Indirect_Y },
        0x73 => Op { code: 0x73, ins: Mnemonic::RRA, undoc: true, len: 2, cycles: 8, mode: AddressingMode::Indirect_Y },
        0x74 => Op { code: 0x74, ins: Mnemonic::NOP, undoc: true, len: 2, cycles: 4, mode: AddressingMode::ZeroPage_X },
        0x75 => Op { code: 0x75, ins: Mnemonic::ADC, undoc: false, len: 2, cycles: 4, mode: AddressingMode::ZeroPage_X },
        0x76 => Op { code: 0x76, ins: Mnemonic::ROR, undoc: false, len: 2, cycles: 6, mode: AddressingMode::ZeroPage_X },
        0x77 => Op { code: 0x77, ins: Mnemonic::RRA, undoc: true, len: 2, cycles: 6, mode: AddressingMode::ZeroPage_X },
        0x78 => Op { code: 0x78, ins: Mnemonic::SEI, undoc: false, len: 1, cycles: 2, mode: AddressingMode::NoneAddressing },
        0x79 => Op { code: 0x79, ins: Mnemonic::ADC, undoc: false, len: 3, cycles: 4, mode: AddressingMode::Absolute_Y },
        0x7A => Op { code: 0x7A, ins: Mnemonic::NOP, undoc: true, len: 1, cycles: 2, mode: AddressingMode::NoneAddressing },
        0x7B => Op { code: 0x7B, ins: Mnemonic::RRA, undoc: true, len: 3, cycles: 7, mode: AddressingMode::Absolute_Y },
        0x7C => Op { code: 0x7C, ins: Mnemonic::NOP, undoc: true, len: 3, cycles: 4, mode: AddressingMode::Absolute_X },
        0x7D => Op { code: 0x7D, ins: Mnemonic::ADC, undoc: false, len: 3, cycles: 4, mode: AddressingMode::Absolute_X },
        0x7E => Op { code: 0x7E, ins: Mnemonic::ROR, undoc: false, len: 3, cycles: 7, mode: AddressingMode::Absolute_X },
        0x7F => Op { code: 0x7F, ins: Mnemonic::RRA, undoc: true, len: 3, cycles: 7, mode: AddressingMode::Absolute_X },
        0x80 => Op { code: 0x80, ins: Mnemonic::NOP, undoc: true, len: 2, cycles: 2, mode: AddressingMode::Immediate },
        0x81 => Op { code: 0x81, ins: Mnemonic::STA, undoc: false, len: 2, cycles: 6, mode: AddressingMode::Indirect_X },
        0x83 => Op { code: 0x83, ins: Mnemonic::SAX, undoc: true, len: 2, cycles: 6, mode: AddressingMode::Indirect_X },
        0x84 => Op { code: 0x84, ins: Mnemonic::STY, undoc: false, len: 2, cycles: 3, mode: AddressingMode::ZeroPage },
        0x85 => Op { code: 0x85, ins: Mnemonic::STA, undoc: false, len: 2, cycles: 3, mode: AddressingMode::ZeroPage },
        0x86 => Op { code: 0x86, ins: Mnemonic::STX, undoc: false, len: 2, cycles: 3, mode: AddressingMode::ZeroPage },
        0x87 => Op { code: 0x87, ins: Mnemonic::SAX, undoc: true, len: 2, cycles: 3, mode: AddressingMode::ZeroPage },
        0x88 => Op { code: 0x88, ins: Mnemonic::DEY, undoc: false, len: 1, cycles: 2, mode: AddressingMode::NoneAddressing },
        0x8A => Op { code: 0x8A, ins: Mnemonic::TXA, undoc: false, len: 1, cycles: 2, mode: AddressingMode::NoneAddressing },
        0x8C => Op { code: 0x8C, ins: Mnemonic::STY, undoc: false, len: 3, cycles: 4, mode: AddressingMode::Absolute },
        0x8D => Op { code: 0x8D, ins: Mnemonic::STA, undoc: false, len: 3, cycles: 4, mode: AddressingMode::Absolute },
        0x8E => Op { code: 0x8E, ins: Mnemonic::STX, undoc: false, len: 3, cycles: 4, mode: AddressingMode::Absolute },
        0x8F => Op { code: 0x8F, ins: Mnemonic::SAX, undoc: true, len: 3, cycles: 4, mode: AddressingMode::Absolute },
        0x90 => Op { code: 0x90, ins: Mnemonic::BCC, undoc: false, len: 2, cycles: 2, mode: AddressingMode::NoneAddressing },
        0x91 => Op { code: 0x91, ins: Mnemonic::STA, undoc: false, len: 2, cycles: 6, mode: AddressingMode::Indirect_Y },
        0x94 => Op { code: 0x94, ins: Mnemonic::STY, undoc: false, len: 2, cycles: 4, mode: AddressingMode::ZeroPage_X },
        0x95 => Op { code: 0x95, ins: Mnemonic::STA, undoc: false, len: 2, cycles: 4, mode: AddressingMode::ZeroPage_X },
        0x96 => Op { code: 0x96, ins: Mnemonic::STX, undoc: false, len: 2, cycles: 4, mode: AddressingMode::ZeroPage_Y },
        0x97 => Op { code: 0x97, ins: Mnemonic::SAX, undoc: true, len: 2, cycles: 4, mode: AddressingMode::ZeroPage_Y },
        0x98 => Op { code: 0x98, ins: Mnemonic::TYA, undoc: false, len: 1, cycles: 2, mode: AddressingMode::NoneAddressing },
        0x99 => Op { code: 0x99, ins: Mnemonic::STA, undoc: false, len: 3, cycles: 5, mode: AddressingMode::Absolute_Y },
        0x9A => Op { code: 0x9A, ins: Mnemonic::TXS, undoc: false, len: 1, cycles: 2, mode: AddressingMode::NoneAddressing },
        0x9D => Op { code: 0x9D, ins: Mnemonic::STA, undoc: false, len: 3, cycles: 5, mode: AddressingMode::Absolute_X },
        0xA0 => Op { code: 0xA0, ins: Mnemonic::LDY, undoc: false, len: 2, cycles: 2, mode: AddressingMode::Immediate },
        0xA1 => Op { code: 0xA1, ins: Mnemonic::LDA, undoc: false, len: 2, cycles: 6, mode: AddressingMode::Indirect_X },
        0xA2 => Op { code: 0xA2, ins: Mnemonic::LDX, undoc: false, len: 2, cycles: 2, mode: AddressingMode::Immediate },
        0xA3 => Op { code: 0xA3, ins: Mnemonic::LAX, undoc: true, len: 2, cycles: 6, mode: AddressingMode::Indirect_X },
        0xA4 => Op { code: 0xA4, ins: Mnemonic::LDY, undoc: false, len: 2, cycles: 3, mode: AddressingMode::ZeroPage },
        0xA5 => Op { code: 0xA5, ins: Mnemonic::LDA, undoc: false, len: 2, cycles: 3, mode: AddressingMode::ZeroPage },
        0xA6 => Op { code: 0xA6, ins: Mnemonic::LDX, undoc: false, len: 2, cycles: 3, mode: AddressingMode::ZeroPage },
        0xA7 => Op { code: 0xA7, ins: Mnemonic::LAX, undoc: true, len: 2, cycles: 3, mode: AddressingMode::ZeroPage },
        0xA8 => Op { code: 0xA8, ins: Mnemonic::TAY, undoc: false, len: 1, cycles: 2, mode: AddressingMode::NoneAddressing },
        0xA9 => Op { code: 0xA9, ins: Mnemonic::LDA, undoc: false, len: 2, cycles: 2, mode: AddressingMode::Immediate },
        0xAA => Op { code: 0xAA, ins: Mnemonic::TAX, undoc: false, len: 1, cycles: 2, mode: AddressingMode::NoneAddressing },
        0xAC => Op { code: 0xAC, ins: Mnemonic::LDY, undoc: false, len: 3, cycles: 4, mode: AddressingMode::Absolute },
        0xAD => Op { code: 0xAD, ins: Mnemonic::LDA, undoc: false, len: 3, cycles: 4, mode: AddressingMode::Absolute },
        0xAE => Op { code: 0xAE, ins: Mnemonic::LDX, undoc: false, len: 3, cycles: 4, mode: AddressingMode::Absolute },
        0xAF => Op { code: 0xAF, ins: Mnemonic::LAX, undoc: true, len: 3, cycles: 4, mode: AddressingMode::Absolute },
        0xB0 => Op { code: 0xB0, ins: Mnemonic::BCS, undoc: false, len: 2, cycles: 2, mode: AddressingMode::NoneAddressing },
        0xB1 => Op { code: 0xB1, ins: Mnemonic::LDA, undoc: false, len: 2, cycles: 5, mode: AddressingMode::Indirect_Y },
        0xB3 => Op { code: 0xB3, ins: Mnemonic::LAX, undoc: true, len: 2, cycles: 5, mode: AddressingMode::Indirect_Y },
        0xB4 => Op { code: 0xB4, ins: Mnemonic::LDY, undoc: false, len: 2, cycles: 4, mode: AddressingMode::ZeroPage_X },
        0xB5 => Op { code: 0xB5, ins: Mnemonic::LDA, undoc: false, len: 2, cycles: 4, mode: AddressingMode::ZeroPage_X },
        0xB6 => Op { code: 0xB6, ins: Mnemonic::LDX, undoc: false, len: 2, cycles: 4, mode: AddressingMode::ZeroPage_Y },
        0xB7 => Op { code: 0xB7, ins: Mnemonic::LAX, undoc: true, len: 2, cycles: 4, mode: AddressingMode::ZeroPage_Y },
        0xB8 => Op { code: 0xB8, ins: Mnemonic::CLV, undoc: false, len: 1, cycles: 2, mode: AddressingMode::NoneAddressing },
        0xB9 => Op { code: 0xB9, ins: Mnemonic::LDA, undoc: false, len: 3, cycles: 4, mode: AddressingMode::Absolute_Y },
        0xBA => Op { code: 0xBA, ins: Mnemonic::TSX, undoc: false, len: 1, cycles: 2, mode: AddressingMode::NoneAddressing },
        0xBC => Op { code: 0xBC, ins: Mnemonic::LDY, undoc: false, len: 3, cycles: 4, mode: AddressingMode::Absolute_X },
        0xBD => Op { code: 0xBD, ins: Mnemonic::LDA, undoc: false, len: 3, cycles: 4, mode: AddressingMode::Absolute_X },
        0xBE => Op { code: 0xBE, ins: Mnemonic::LDX, undoc: false, len: 3, cycles: 4, mode: AddressingMode::Absolute_Y },
        0xBF => Op { code: 0xBF, ins: Mnemonic::LAX, undoc: true, len: 3, cycles: 4, mode: AddressingMode::Absolute_Y },
        0xC0 => Op { code: 0xC0, ins: Mnemonic::CPY, undoc: false, len: 2, cycles: 2, mode: AddressingMode::Immediate },
        0xC1 => Op { code: 0xC1, ins: Mnemonic::CMP, undoc: false, len: 2, cycles: 6, mode: AddressingMode::Indirect_X },
        0xC3 => Op { code: 0xC3, ins: Mnemonic::DCP, undoc: true, len: 2, cycles: 8, mode: AddressingMode::Indirect_X },
        0xC4 => Op { code: 0xC4, ins: Mnemonic::CPY, undoc: false, len: 2, cycles: 3, mode: AddressingMode::ZeroPage },
        0xC5 => Op { code: 0xC5, ins: Mnemonic::CMP, undoc: false, len: 2, cycles: 3, mode: AddressingMode::ZeroPage },
        0xC6 => Op { code: 0xC6, ins: Mnemonic::DEC, undoc: false, len: 2, cycles: 5, mode: AddressingMode::ZeroPage },
        0xC7 => Op { code: 0xC7, ins: Mnemonic::DCP, undoc: true, len: 2, cycles: 5, mode: AddressingMode::ZeroPage },
        0xC8 => Op { code: 0xC8, ins: Mnemonic::INY, undoc: false, len: 1, cycles: 2, mode: AddressingMode::NoneAddressing },
        0xC9 => Op { code: 0xC9, ins: Mnemonic::CMP, undoc: false, len: 2, cycles: 2, mode: AddressingMode::Immediate },
        0xCA => Op { code: 0xCA, ins: Mnemonic::DEX, undoc: false, len: 1, cycles: 2, mode: AddressingMode::NoneAddressing },
        0xCC => Op { code: 0xCC, ins: Mnemonic::CPY, undoc: false, len: 3, cycles: 4, mode: AddressingMode::Absolute },
        0xCD => Op { code: 0xCD, ins: Mnemonic::CMP, undoc: false, len: 3, cycles: 4, mode: AddressingMode::Absolute },
        0xCE => Op { code: 0xCE, ins: Mnemonic::DEC, undoc: false, len: 3, cycles: 6, mode: AddressingMode::Absolute },
        0xCF => Op { code: 0xCF, ins: Mnemonic::DCP, undoc: true, len: 3, cycles: 6, mode: AddressingMode::Absolute },
        0xD0 => Op { code: 0xD0, ins: Mnemonic::BNE, undoc: false, len: 2, cycles: 2, mode: AddressingMode::NoneAddressing },
        0xD1 => Op { code: 0xD1, ins: Mnemonic::CMP, undoc: false, len: 2, cycles: 5, mode: AddressingMode::Indirect_Y },
        0xD3 => Op { code: 0xD3, ins: Mnemonic::DCP, undoc: true, len: 2, cycles: 8, mode: AddressingMode::Indirect_Y },
        0xD4 => Op { code: 0xD4, ins: Mnemonic::NOP, undoc: true, len: 2, cycles: 4, mode: AddressingMode::ZeroPage_X },
        0xD5 => Op { code: 0xD5, ins: Mnemonic::CMP, undoc: false, len: 2, cycles: 4, mode: AddressingMode::ZeroPage_X },
        0xD6 => Op { code: 0xD6, ins: Mnemonic::DEC, undoc: false, len: 2, cycles: 6, mode: AddressingMode::ZeroPage_X },
        0xD7 => Op { code: 0xD7, ins: Mnemonic::DCP, undoc: true, len: 2, cycles: 6, mode: AddressingMode::ZeroPage_X },
        0xD8 => Op { code: 0xD8, ins: Mnemonic::CLD, undoc: false, len: 1, cycles: 2, mode: AddressingMode::NoneAddressing },
        0xD9 => Op { code: 0xD9, ins: Mnemonic::CMP, undoc: false, len: 3, cycles: 4, mode: AddressingMode::Absolute_Y },
        0xDA => Op { code: 0xDA, ins: Mnemonic::NOP, undoc: true, len: 1, cycles: 2, mode: AddressingMode::NoneAddressing },
        0xDB => Op { code: 0xDB, ins: Mnemonic::DCP, undoc: true, len: 3, cycles: 7, mode: AddressingMode::Absolute_Y },
        0xDC => Op { code: 0xDC, ins: Mnemonic::NOP, undoc: true, len: 3, cycles: 4, mode: AddressingMode::Absolute_X },
        0xDD => Op { code: 0xDD, ins: Mnemonic::CMP, undoc: false, len: 3, cycles: 4, mode: AddressingMode::Absolute_X },
        0xDE => Op { code: 0xDE, ins: Mnemonic::DEC, undoc: false, len: 3, cycles: 7, mode: AddressingMode::Absolute_X },
        0xDF => Op { code: 0xDF, ins: Mnemonic::DCP, undoc: true, len: 3, cycles: 7, mode: AddressingMode::Absolute_X },
        0xE0 => Op { code: 0xE0, ins: Mnemonic::CPX, undoc: false, len: 2, cycles: 2, mode: AddressingMode::Immediate },
        0xE1 => Op { code: 0xE1, ins: Mnemonic::SBC, undoc: false, len: 2, cycles: 6, mode: AddressingMode::Indirect_X },
        0xE3 => Op { code: 0xE3, ins: Mnemonic::ISB, undoc: true, len: 2, cycles: 8, mode: AddressingMode::Indirect_X },
        0xE4 => Op { code: 0xE4, ins: Mnemonic::CPX, undoc: false, len: 2, cycles: 3, mode: AddressingMode::ZeroPage },
        0xE5 => Op { code: 0xE5, ins: Mnemonic::SBC, undoc: false, len: 2, cycles: 3, mode: AddressingMode::ZeroPage },
        0xE6 => Op { code: 0xE6, ins: Mnemonic::INC, undoc: false, len: 2, cycles: 5, mode: AddressingMode::ZeroPage },
        0xE7 => Op { code: 0xE7, ins: Mnemonic::ISB, undoc: true, len: 2, cycles: 5, mode: AddressingMode::ZeroPage },
        0xE8 => Op { code: 0xE8, ins: Mnemonic::INX, undoc: false, len: 1, cycles: 2, mode: AddressingMode::NoneAddressing },
        0xE9 => Op { code: 0xE9, ins: Mnemonic::SBC, undoc: false, len: 2, cycles: 2, mode: AddressingMode::Immediate },
        0xEA => Op { code: 0xEA, ins: Mnemonic::NOP, undoc: false, len: 1, cycles: 2, mode: AddressingMode::NoneAddressing },
        0xEB => Op { code: 0xEB, ins: Mnemonic::SBC, undoc: true, len: 2, cycles: 2, mode: AddressingMode::Immediate },
        0xEC => Op { code: 0xEC, ins: Mnemonic::CPX, undoc: false, len: 3, cycles: 4, mode: AddressingMode::Absolute },
        0xED => Op { code: 0xED, ins: Mnemonic::SBC, undoc: false, len: 3, cycles: 4, mode: AddressingMode::Absolute },
        0xEE => Op { code: 0xEE, ins: Mnemonic::INC, undoc: false, len: 3, cycles: 6, mode: AddressingMode::Absolute },
        0xEF => Op { code: 0xEF, ins: Mnemonic::ISB, undoc: true, len: 3, cycles: 6, mode: AddressingMode::Absolute },
        0xF0 => Op { code: 0xF0, ins: Mnemonic::BEQ, undoc: false, len: 2, cycles: 2, mode: AddressingMode::NoneAddressing },
        0xF1 => Op { code: 0xF1, ins: Mnemonic::SBC, undoc: false, len: 2, cycles: 5, mode: AddressingMode::Indirect_Y },
        0xF3 => Op { code: 0xF3, ins: Mnemonic::ISB, undoc: true, len: 2, cycles: 8, mode: AddressingMode::Indirect_Y },
        0xF4 => Op { code: 0xF4, ins: Mnemonic::NOP, undoc: true, len: 2, cycles: 4, mode: AddressingMode::ZeroPage_X },
        0xF5 => Op { code: 0xF5, ins: Mnemonic::SBC, undoc: false, len: 2, cycles: 4, mode: AddressingMode::ZeroPage_X },
        0xF6 => Op { code: 0xF6, ins: Mnemonic::INC, undoc: false, len: 2, cycles: 6, mode: AddressingMode::ZeroPage_X },
        0xF7 => Op { code: 0xF7, ins: Mnemonic::ISB, undoc: true, len: 2, cycles: 6, mode: AddressingMode::ZeroPage_X },
        0xF8 => Op { code: 0xF8, ins: Mnemonic::SED, undoc: false, len: 1, cycles: 2, mode: AddressingMode::NoneAddressing },
        0xF9 => Op { code: 0xF9, ins: Mnemonic::SBC, undoc: false, len: 3, cycles: 4, mode: AddressingMode::Absolute_Y },
        0xFA => Op { code: 0xFA, ins: Mnemonic::NOP, undoc: true, len: 1, cycles: 2, mode: AddressingMode::NoneAddressing },
        0xFB => Op { code: 0xFB, ins: Mnemonic::ISB, undoc: true, len: 3, cycles: 7, mode: AddressingMode::Absolute_Y },
        0xFC => Op { code: 0xFC, ins: Mnemonic::NOP, undoc: true, len: 3, cycles: 4, mode: AddressingMode::Absolute_X },
        0xFD => Op { code: 0xFD, ins: Mnemonic::SBC, undoc: false, len: 3, cycles: 4, mode: AddressingMode::Absolute_X },
        0xFE => Op { code: 0xFE, ins: Mnemonic::INC, undoc: false, len: 3, cycles: 7, mode: AddressingMode::Absolute_X },
        0xFF => Op { code: 0xFF, ins: Mnemonic::ISB, undoc: true, len: 3, cycles: 7, mode: AddressingMode::Absolute_X },
        _ => Op { code, ins: Mnemonic::NOP, undoc: true, len: 1, cycles: 2, mode: AddressingMode::NoneAddressing },
    }
}

/// Look an opcode byte up in the table.
#[verifier::rlimit(50)]
pub fn opcode_entry(code: u8) -> (op: Op)
    ensures
        op == spec_op(code),
{
    proof {
        reveal(spec_op);
    }
    match code {
        0x00 => Op { code: 0x00, ins: Mnemonic::BRK, undoc: false, len: 1, cycles: 7, mode: AddressingMode::NoneAddressing },
        0x01 => Op { code: 0x01, ins: Mnemonic::ORA, undoc: false, len: 2, cycles: 6, mode: AddressingMode::Indirect_X },
        0x03 => Op { code: 0x03, ins: Mnemonic::SLO, undoc: true, len: 2, cycles: 8, mode: AddressingMode::Indirect_X },
        0x04 => Op { code: 0x04, ins: Mnemonic::NOP, undoc: true, len: 2, cycles: 3, mode: AddressingMode::ZeroPage },
        0x05 => Op { code: 0x05, ins: Mnemonic::ORA, undoc: false, len: 2, cycles: 3, mode: AddressingMode::ZeroPage },
        0x06 => Op { code: 0x06, ins: Mnemonic::ASL, undoc: false, len: 2, cycles: 5, mode: AddressingMode::ZeroPage },
        0x07 => Op { code: 0x07, ins: Mnemonic::SLO, undoc: true, len: 2, cycles: 5, mode: AddressingMode::ZeroPage },
        0x08 => Op { code: 0x08, ins: Mnemonic::PHP, undoc: false, len: 1, cycles: 3, mode: AddressingMode::NoneAddressing },
        0x09 => Op { code: 0x09, ins: Mnemonic::ORA, undoc: false, len: 2, cycles: 2, mode: AddressingMode::Immediate },
        0x0A => Op { code: 0x0A, ins: Mnemonic::ASL, undoc: false, len: 1, cycles: 2, mode: AddressingMode::NoneAddressing },
        0x0C => Op { code: 0x0C, ins: Mnemonic::NOP, undoc: true, len: 3, cycles: 4, mode: AddressingMode::Absolute },
        0x0D => Op { code: 0x0D, ins: Mnemonic::ORA, undoc: false, len: 3, cycles: 4, mode: AddressingMode::Absolute },
        0x0E => Op { code: 0x0E, ins: Mnemonic::ASL, undoc: false, len: 3, cycles: 6, mode: AddressingMode::Absolute },
        0x0F => Op { code: 0x0F, ins: Mnemonic::SLO, undoc: true, len: 3, cycles: 6, mode: AddressingMode::Absolute },
        0x10 => Op { code: 0x10, ins: Mnemonic::BPL, undoc: false, len: 2, cycles: 2, mode: AddressingMode::NoneAddressing },
        0x11 => Op { code: 0x11, ins: Mnemonic::ORA, undoc: false, len: 2, cycles: 5, mode: AddressingMode::Indirect_Y },
        0x13 => Op { code: 0x13, ins: Mnemonic::SLO, undoc: true, len: 2, cycles: 8, mode: AddressingMode::Indirect_Y },
        0x14 => Op { code: 0x14, ins: Mnemonic::NOP, undoc: true, len: 2, cycles: 4, mode: AddressingMode::ZeroPage_X },
        0x15 => Op { code: 0x15, ins: Mnemonic::ORA, undoc: false, len: 2, cycles: 4, mode: AddressingMode::ZeroPage_X },
        0x16 => Op { code: 0x16, ins: Mnemonic::ASL, undoc: false, len: 2, cycles: 6, mode: AddressingMode::ZeroPage_X },
        0x17 => Op { code: 0x17, ins: Mnemonic::SLO, undoc: true, len: 2, cycles: 6, mode: AddressingMode::ZeroPage_X },
        0x18 => Op { code: 0x18, ins: Mnemonic::CLC, undoc: false, len: 1, cycles: 2, mode: AddressingMode::NoneAddressing },
        0x19 => Op { code: 0x19, ins: Mnemonic::ORA, undoc: false, len: 3, cycles: 4, mode: AddressingMode::Absolute_Y },
        0x1A => Op { code: 0x1A, ins: Mnemonic::NOP, undoc: true, len: 1, cycles: 2, mode: AddressingMode::NoneAddressing },
        0x1B => Op { code: 0x1B, ins: Mnemonic::SLO, undoc: true, len: 3, cycles: 7, mode: AddressingMode::Absolute_Y },
        0x1C => Op { code: 0x1C, ins: Mnemonic::NOP, undoc: true, len: 3, cycles: 4, mode: AddressingMode::Absolute_X },
        0x1D => Op { code: 0x1D, ins: Mnemonic::ORA, undoc: false, len: 3, cycles: 4, mode: AddressingMode::Absolute_X },
        0x1E => Op { code: 0x1E, ins: Mnemonic::ASL, undoc: false, len: 3, cycles: 7, mode: AddressingMode::Absolute_X },
        0x1F => Op { code: 0x1F, ins: Mnemonic::SLO, undoc: true, len: 3, cycles: 7, mode: AddressingMode::Absolute_X },
        0x20 => Op { code: 0x20, ins: Mnemonic::JSR, undoc: false, len: 3, cycles: 6, mode: AddressingMode::NoneAddressing },
        0x21 => Op { code: 0x21, ins: Mnemonic::AND, undoc: false, len: 2, cycles: 6, mode: AddressingMode::Indirect_X },
        0x23 => Op { code: 0x23, ins: Mnemonic::RLA, undoc: true, len: 2, cycles: 8, mode: AddressingMode::Indirect_X },
        0x24 => Op { code: 0x24, ins: Mnemonic::BIT, undoc: false, len: 2, cycles: 3, mode: AddressingMode::ZeroPage },
        0x25 => Op { code: 0x25, ins: Mnemonic::AND, undoc: false, len: 2, cycles: 3, mode: AddressingMode::ZeroPage },
        0x26 => Op { code: 0x26, ins: Mnemonic::ROL, undoc: false, len: 2, cycles: 5, mode: AddressingMode::ZeroPage },
        0x27 => Op { code: 0x27, ins: Mnemonic::RLA, undoc: true, len: 2, cycles: 5, mode: AddressingMode::ZeroPage },
        0x28 => Op { code: 0x28, ins: Mnemonic::PLP, undoc: false, len: 1, cycles: 4, mode: AddressingMode::NoneAddressing },
        0x29 => Op { code: 0x29, ins: Mnemonic::AND, undoc: false, len: 2, cycles: 2, mode: AddressingMode::Immediate },
        0x2A => Op { code: 0x2A, ins: Mnemonic::ROL, undoc: false, len: 1, cycles: 2, mode: AddressingMode::NoneAddressing },
        0x2C => Op { code: 0x2C, ins: Mnemonic::BIT, undoc: false, len: 3, cycles: 4, mode: AddressingMode::Absolute },
        0x2D => Op { code: 0x2D, ins: Mnemonic::AND, undoc: false, len: 3, cycles: 4, mode: AddressingMode::Absolute },
        0x2E => Op { code: 0x2E, ins: Mnemonic::ROL, undoc: false, len: 3, cycles: 6, mode: AddressingMode::Absolute },
        0x2F => Op { code: 0x2F, ins: Mnemonic::RLA, undoc: true, len: 3, cycles: 6, mode: AddressingMode::Absolute },
        0x30 => Op { code: 0x30, ins: Mnemonic::BMI, undoc: false, len: 2, cycles: 2, mode: AddressingMode::NoneAddressing },
        0x31 => Op { code: 0x31, ins: Mnemonic::AND, undoc: false, len: 2, cycles: 5, mode: AddressingMode::Indirect_Y },
        0x33 => Op { code: 0x33, ins: Mnemonic::RLA, undoc: true, len: 2, cycles: 8, mode: AddressingMode::Indirect_Y },
        0x34 => Op { code: 0x34, ins: Mnemonic::NOP, undoc: true, len: 2, cycles: 4, mode: AddressingMode::ZeroPage_X },
        0x35 => Op { code: 0x35, ins: Mnemonic::AND, undoc: false, len: 2, cycles: 4, mode: AddressingMode::ZeroPage_X },
        0x36 => Op { code: 0x36, ins: Mnemonic::ROL, undoc: false, len: 2, cycles: 6, mode: AddressingMode::ZeroPage_X },
        0x37 => Op { code: 0x37, ins: Mnemonic::RLA, undoc: true, len: 2, cycles: 6, mode: AddressingMode::ZeroPage_X },
        0x38 => Op { code: 0x38, ins: Mnemonic::SEC, undoc: false, len: 1, cycles: 2, mode: AddressingMode::NoneAddressing },
        0x39 => Op { code: 0x39, ins: Mnemonic::AND, undoc: false, len: 3, cycles: 4, mode: AddressingMode::Absolute_Y },
        0x3A => Op { code: 0x3A, ins: Mnemonic::NOP, undoc: true, len: 1, cycles: 2, mode: AddressingMode::NoneAddressing },
        0x3B => Op { code: 0x3B, ins: Mnemonic::RLA, undoc: true, len: 3, cycles: 7, mode: AddressingMode::Absolute_Y },
        0x3C => Op { code: 0x3C, ins: Mnemonic::NOP, undoc: true, len: 3, cycles: 4, mode: AddressingMode::Absolute_X },
        0x3D => Op { code: 0x3D, ins: Mnemonic::AND, undoc: false, len: 3, cycles: 4, mode: AddressingMode::Absolute_X },
        0x3E => Op { code: 0x3E, ins: Mnemonic::ROL, undoc: false, len: 3, cycles: 7, mode: AddressingMode::Absolute_X },
        0x3F => Op { code: 0x3F, ins: Mnemonic::RLA, undoc: true, len: 3, cycles: 7, mode: AddressingMode::Absolute_X },
        0x40 => Op { code: 0x40, ins: Mnemonic::RTI, undoc: false, len: 1, cycles: 6, mode: AddressingMode::NoneAddressing },
        0x41 => Op { code: 0x41, ins: Mnemonic::EOR, undoc: false, len: 2, cycles: 6, mode: AddressingMode::Indirect_X },
        0x43 => Op { code: 0x43, ins: Mnemonic::SRE, undoc: true, len: 2, cycles: 8, mode: AddressingMode::Indirect_X },
        0x44 => Op { code: 0x44, ins: Mnemonic::NOP, undoc: true, len: 2, cycles: 3, mode: AddressingMode::ZeroPage },
        0x45 => Op { code: 0x45, ins: Mnemonic::EOR, undoc: false, len: 2, cycles: 3, mode: AddressingMode::ZeroPage },
        0x46 => Op { code: 0x46, ins: Mnemonic::LSR, undoc: false, len: 2, cycles: 5, mode: AddressingMode::ZeroPage },
        0x47 => Op { code: 0x47, ins: Mnemonic::SRE, undoc: true, len: 2, cycles: 5, mode: AddressingMode::ZeroPage },
        0x48 => Op { code: 0x48, ins: Mnemonic::PHA, undoc: false, len: 1, cycles: 3, mode: AddressingMode::NoneAddressing },
        0x49 => Op { code: 0x49, ins: Mnemonic::EOR, undoc: false, len: 2, cycles: 2, mode: AddressingMode::Immediate },
        0x4A => Op { code: 0x4A, ins: Mnemonic::LSR, undoc: false, len: 1, cycles: 2, mode: AddressingMode::NoneAddressing },
        0x4C => Op { code: 0x4C, ins: Mnemonic::JMP, undoc: false, len: 3, cycles: 3, mode: AddressingMode::NoneAddressing },
        0x4D => Op { code: 0x4D, ins: Mnemonic::EOR, undoc: false, len: 3, cycles: 4, mode: AddressingMode::Absolute },
        0x4E => Op { code: 0x4E, ins: Mnemonic::LSR, undoc: false, len: 3, cycles: 6, mode: AddressingMode::Absolute },
        0x4F => Op { code: 0x4F, ins: Mnemonic::SRE, undoc: true, len: 3, cycles: 6, mode: AddressingMode::Absolute },
        0x50 => Op { code: 0x50, ins: Mnemonic::BVC, undoc: false, len: 2, cycles: 2, mode: AddressingMode::NoneAddressing },
        0x51 => Op { code: 0x51, ins: Mnemonic::EOR, undoc: false, len: 2, cycles: 5, mode: AddressingMode::Indirect_Y },
        0x53 => Op { code: 0x53, ins: Mnemonic::SRE, undoc: true, len: 2, cycles: 8, mode: AddressingMode::Indirect_Y },
        0x54 => Op { code: 0x54, ins: Mnemonic::NOP, undoc: true, len: 2, cycles: 4, mode: AddressingMode::ZeroPage_X },
        0x55 => Op { code: 0x55, ins: Mnemonic::EOR, undoc: false, len: 2, cycles: 4, mode: AddressingMode::ZeroPage_X },
        0x56 => Op { code: 0x56, ins: Mnemonic::LSR, undoc: false, len: 2, cycles: 6, mode: AddressingMode::ZeroPage_X },
        0x57 => Op { code: 0x57, ins: Mnemonic::SRE, undoc: true, len: 2, cycles: 6, mode: AddressingMode::ZeroPage_X },
        0x58 => Op { code: 0x58, ins: Mnemonic::CLI, undoc: false, len: 1, cycles: 2, mode: AddressingMode::NoneAddressing },
        0x59 => Op { code: 0x59, ins: Mnemonic::EOR, undoc: false, len: 3, cycles: 4, mode: AddressingMode::Absolute_Y },
        0x5A => Op { code: 0x5A, ins: Mnemonic::NOP, undoc: true, len: 1, cycles: 2, mode: AddressingMode::NoneAddressing },
        0x5B => Op { code: 0x5B, ins: Mnemonic::SRE, undoc: true, len: 3, cycles: 7, mode: AddressingMode::Absolute_Y },
        0x5C => Op { code: 0x5C, ins: Mnemonic::NOP, undoc: true, len: 3, cycles: 4, mode: AddressingMode::Absolute_X },
        0x5D => Op { code: 0x5D, ins: Mnemonic::EOR, undoc: false, len: 3, cycles: 4, mode: AddressingMode::Absolute_X },
        0x5E => Op { code: 0x5E, ins: Mnemonic::LSR, undoc: false, len: 3, cycles: 7, mode: AddressingMode::Absolute_X },
        0x5F => Op { code: 0x5F, ins: Mnemonic::SRE, undoc: true, len: 3, cycles: 7, mode: AddressingMode::Absolute_X },
        0x60 => Op { code: 0x60, ins: Mnemonic::RTS, undoc: false, len: 1, cycles: 6, mode: AddressingMode::NoneAddressing },
        0x61 => Op { code: 0x61, ins: Mnemonic::ADC, undoc: false, len: 2, cycles: 6, mode: AddressingMode::Indirect_X },
        0x63 => Op { code: 0x63, ins: Mnemonic::RRA, undoc: true, len: 2, cycles: 8, mode: AddressingMode::Indirect_X },
        0x64 => Op { code: 0x64, ins: Mnemonic::NOP, undoc: true, len: 2, cycles: 3, mode: AddressingMode::ZeroPage },
        0x65 => Op { code: 0x65, ins: Mnemonic::ADC, undoc: false, len: 2, cycles: 3, mode: AddressingMode::ZeroPage },
        0x66 => Op { code: 0x66, ins: Mnemonic::ROR, undoc: false, len: 2, cycles: 5, mode: AddressingMode::ZeroPage },
        0x67 => Op { code: 0x67, ins: Mnemonic::RRA, undoc: true, len: 2, cycles: 5, mode: AddressingMode::ZeroPage },
        0x68 => Op { code: 0x68, ins: Mnemonic::PLA, undoc: false, len: 1, cycles: 4, mode: AddressingMode::NoneAddressing },
        0x69 => Op { code: 0x69, ins: Mnemonic::ADC, undoc: false, len: 2, cycles: 2, mode: AddressingMode::Immediate },
        0x6A => Op { code: 0x6A, ins: Mnemonic::ROR, undoc: false, len: 1, cycles: 2, mode: AddressingMode::NoneAddressing },
        0x6C => Op { code: 0x6C, ins: Mnemonic::JMP, undoc: false, len: 3, cycles: 5, mode: AddressingMode::NoneAddressing },
        0x6D => Op { code: 0x6D, ins: Mnemonic::ADC, undoc: false, len: 3, cycles: 4, mode: AddressingMode::Absolute },
        0x6E => Op { code: 0x6E, ins: Mnemonic::ROR, undoc: false, len: 3, cycles: 6, mode: AddressingMode::Absolute },
        0x6F => Op { code: 0x6F, ins: Mnemonic::RRA, undoc: true, len: 3, cycles: 6, mode: AddressingMode::Absolute },
        0x70 => Op { code: 0x70, ins: Mnemonic::BVS, undoc: false, len: 2, cycles: 2, mode: AddressingMode::NoneAddressing },
        0x71 => Op { code: 0x71, ins: Mnemonic::ADC, undoc: false, len: 2, cycles: 5, mode: AddressingMode::Indirect_Y },
        0x73 => Op { code: 0x73, ins: Mnemonic::RRA, undoc: true, len: 2, cycles: 8, mode: AddressingMode::Indirect_Y },
        0x74 => Op { code: 0x74, ins: Mnemonic::NOP, undoc: true, len: 2, cycles: 4, mode: AddressingMode::ZeroPage_X },
        0x75 => Op { code: 0x75, ins: Mnemonic::ADC, undoc: false, len: 2, cycles: 4, mode: AddressingMode::ZeroPage_X },
        0x76 => Op { code: 0x76, ins: Mnemonic::ROR, undoc: false, len: 2, cycles: 6, mode: AddressingMode::ZeroPage_X },
        0x77 => Op { code: 0x77, ins: Mnemonic::RRA, undoc: true, len: 2, cycles: 6, mode: AddressingMode::ZeroPage_X },
        0x78 => Op { code: 0x78, ins: Mnemonic::SEI, undoc: false, len: 1, cycles: 2, mode: AddressingMode::NoneAddressing },
        0x79 => Op { code: 0x79, ins: Mnemonic::ADC, undoc: false, len: 3, cycles: 4, mode: AddressingMode::Absolute_Y },
        0x7A => Op { code: 0x7A, ins: Mnemonic::NOP, undoc: true, len: 1, cycles: 2, mode: AddressingMode::NoneAddressing },
        0x7B => Op { code: 0x7B, ins: Mnemonic::RRA, undoc: true, len: 3, cycles: 7, mode: AddressingMode::Absolute_Y },
        0x7C => Op { code: 0x7C, ins: Mnemonic::NOP, undoc: true, len: 3, cycles: 4, mode: AddressingMode::Absolute_X },
        0x7D => Op { code: 0x7D, ins: Mnemonic::ADC, undoc: false, len: 3, cycles: 4, mode: AddressingMode::Absolute_X },
        0x7E => Op { code: 0x7E, ins: Mnemonic::ROR, undoc: false, len: 3, cycles: 7, mode: AddressingMode::Absolute_X },
        0x7F => Op { code: 0x7F, ins: Mnemonic::RRA, undoc: true, len: 3, cycles: 7, mode: AddressingMode::Absolute_X },
        0x80 => Op { code: 0x80, ins: Mnemonic::NOP, undoc: true, len: 2, cycles: 2, mode: AddressingMode::Immediate },
        0x81 => Op { code: 0x81, ins: Mnemonic::STA, undoc: false, len: 2, cycles: 6, mode: AddressingMode::Indirect_X },
        0x83 => Op { code: 0x83, ins: Mnemonic::SAX, undoc: true, len: 2, cycles: 6, mode: AddressingMode::Indirect_X },
        0x84 => Op { code: 0x84, ins: Mnemonic::STY, undoc: false, len: 2, cycles: 3, mode: AddressingMode::ZeroPage },
        0x85 => Op { code: 0x85, ins: Mnemonic::STA, undoc: false, len: 2, cycles: 3, mode: AddressingMode::ZeroPage },
        0x86 => Op { code: 0x86, ins: Mnemonic::STX, undoc: false, len: 2, cycles: 3, mode: AddressingMode::ZeroPage },
        0x87 => Op { code: 0x87, ins: Mnemonic::SAX, undoc: true, len: 2, cycles: 3, mode: AddressingMode::ZeroPage },
        0x88 => Op { code: 0x88, ins: Mnemonic::DEY, undoc: false, len: 1, cycles: 2, mode: AddressingMode::NoneAddressing },
        0x8A => Op { code: 0x8A, ins: Mnemonic::TXA, undoc: false, len: 1, cycles: 2, mode: AddressingMode::NoneAddressing },
        0x8C => Op { code: 0x8C, ins: Mnemonic::STY, undoc: false, len: 3, cycles: 4, mode: AddressingMode::Absolute },
        0x8D => Op { code: 0x8D, ins: Mnemonic::STA, undoc: false, len: 3, cycles: 4, mode: AddressingMode::Absolute },
        0x8E => Op { code: 0x8E, ins: Mnemonic::STX, undoc: false, len: 3, cycles: 4, mode: AddressingMode::Absolute },
        0x8F => Op { code: 0x8F, ins: Mnemonic::SAX, undoc: true, len: 3, cycles: 4, mode: AddressingMode::Absolute },
        0x90 => Op { code: 0x90, ins: Mnemonic::BCC, undoc: false, len: 2, cycles: 2, mode: AddressingMode::NoneAddressing },
        0x91 => Op { code: 0x91, ins: Mnemonic::STA, undoc: false, len: 2, cycles: 6, mode: AddressingMode::Indirect_Y },
        0x94 => Op { code: 0x94, ins: Mnemonic::STY, undoc: false, len: 2, cycles: 4, mode: AddressingMode::ZeroPage_X },
        0x95 => Op { code: 0x95, ins: Mnemonic::STA, undoc: false, len: 2, cycles: 4, mode: AddressingMode::ZeroPage_X },
        0x96 => Op { code: 0x96, ins: Mnemonic::STX, undoc: false, len: 2, cycles: 4, mode: AddressingMode::ZeroPage_Y },
        0x97 => Op { code: 0x97, ins: Mnemonic::SAX, undoc: true, len: 2, cycles: 4, mode: AddressingMode::ZeroPage_Y },
        0x98 => Op { code: 0x98, ins: Mnemonic::TYA, undoc: false, len: 1, cycles: 2, mode: AddressingMode::NoneAddressing },
        0x99 => Op { code: 0x99, ins: Mnemonic::STA, undoc: false, len: 3, cycles: 5, mode: AddressingMode::Absolute_Y },
        0x9A => Op { code: 0x9A, ins: Mnemonic::TXS, undoc: false, len: 1, cycles: 2, mode: AddressingMode::NoneAddressing },
        0x9D => Op { code: 0x9D, ins: Mnemonic::STA, undoc: false, len: 3, cycles: 5, mode: AddressingMode::Absolute_X },
        0xA0 => Op { code: 0xA0, ins: Mnemonic::LDY, undoc: false, len: 2, cycles: 2, mode: AddressingMode::Immediate },
        0xA1 => Op { code: 0xA1, ins: Mnemonic::LDA, undoc: false, len: 2, cycles: 6, mode: AddressingMode::Indirect_X },
        0xA2 => Op { code: 0xA2, ins: Mnemonic::LDX, undoc: false, len: 2, cycles: 2, mode: AddressingMode::Immediate },
        0xA3 => Op { code: 0xA3, ins: Mnemonic::LAX, undoc: true, len: 2, cycles: 6, mode: AddressingMode::Indirect_X },
        0xA4 => Op { code: 0xA4, ins: Mnemonic::LDY, undoc: false, len: 2, cycles: 3, mode: AddressingMode::ZeroPage },
        0xA5 => Op { code: 0xA5, ins: Mnemonic::LDA, undoc: false, len: 2, cycles: 3, mode: AddressingMode::ZeroPage },
        0xA6 => Op { code: 0xA6, ins: Mnemonic::LDX, undoc: false, len: 2, cycles: 3, mode: AddressingMode::ZeroPage },
        0xA7 => Op { code: 0xA7, ins: Mnemonic::LAX, undoc: true, len: 2, cycles: 3, mode: AddressingMode::ZeroPage },
        0xA8 => Op { code: 0xA8, ins: Mnemonic::TAY, undoc: false, len: 1, cycles: 2, mode: AddressingMode::NoneAddressing },
        0xA9 => Op { code: 0xA9, ins: Mnemonic::LDA, undoc: false, len: 2, cycles: 2, mode: AddressingMode::Immediate },
        0xAA => Op { code: 0xAA, ins: Mnemonic::TAX, undoc: false, len: 1, cycles: 2, mode: AddressingMode::NoneAddressing },
        0xAC => Op { code: 0xAC, ins: Mnemonic::LDY, undoc: false, len: 3, cycles: 4, mode: AddressingMode::Absolute },
        0xAD => Op { code: 0xAD, ins: Mnemonic::LDA, undoc: false, len: 3, cycles: 4, mode: AddressingMode::Absolute },
        0xAE => Op { code: 0xAE, ins: Mnemonic::LDX, undoc: false, len: 3, cycles: 4, mode: AddressingMode::Absolute },
        0xAF => Op { code: 0xAF, ins: Mnemonic::LAX, undoc: true, len: 3, cycles: 4, mode: AddressingMode::Absolute },
        0xB0 => Op { code: 0xB0, ins: Mnemonic::BCS, undoc: false, len: 2, cycles: 2, mode: AddressingMode::NoneAddressing },
        0xB1 => Op { code: 0xB1, ins: Mnemonic::LDA, undoc: false, len: 2, cycles: 5, mode: AddressingMode::Indirect_Y },
        0xB3 => Op { code: 0xB3, ins: Mnemonic::LAX, undoc: true, len: 2, cycles: 5, mode: AddressingMode::Indirect_Y },
        0xB4 => Op { code: 0xB4, ins: Mnemonic::LDY, undoc: false, len: 2, cycles: 4, mode: AddressingMode::ZeroPage_X },
        0xB5 => Op { code: 0xB5, ins: Mnemonic::LDA, undoc: false, len: 2, cycles: 4, mode: AddressingMode::ZeroPage_X },
        0xB6 => Op { code: 0xB6, ins: Mnemonic::LDX, undoc: false, len: 2, cycles: 4, mode: AddressingMode::ZeroPage_Y },
        0xB7 => Op { code: 0xB7, ins: Mnemonic::LAX, undoc: true, len: 2, cycles: 4, mode: AddressingMode::ZeroPage_Y },
        0xB8 => Op { code: 0xB8, ins: Mnemonic::CLV, undoc: false, len: 1, cycles: 2, mode: AddressingMode::NoneAddressing },
        0xB9 => Op { code: 0xB9, ins: Mnemonic::LDA, undoc: false, len: 3, cycles: 4, mode: AddressingMode::Absolute_Y },
        0xBA => Op { code: 0xBA, ins: Mnemonic::TSX, undoc: false, len: 1, cycles: 2, mode: AddressingMode::NoneAddressing },
        0xBC => Op { code: 0xBC, ins: Mnemonic::LDY, undoc: false, len: 3, cycles: 4, mode: AddressingMode::Absolute_X },
        0xBD => Op { code: 0xBD, ins: Mnemonic::LDA, undoc: false, len: 3, cycles: 4, mode: AddressingMode::Absolute_X },
        0xBE => Op { code: 0xBE, ins: Mnemonic::LDX, undoc: false, len: 3, cycles: 4, mode: AddressingMode::Absolute_Y },
        0xBF => Op { code: 0xBF, ins: Mnemonic::LAX, undoc: true, len: 3, cycles: 4, mode: AddressingMode::Absolute_Y },
        0xC0 => Op { code: 0xC0, ins: Mnemonic::CPY, undoc: false, len: 2, cycles: 2, mode: AddressingMode::Immediate },
        0xC1 => Op { code: 0xC1, ins: Mnemonic::CMP, undoc: false, len: 2, cycles: 6, mode: AddressingMode::Indirect_X },
        0xC3 => Op { code: 0xC3, ins: Mnemonic::DCP, undoc: true, len: 2, cycles: 8, mode: AddressingMode::Indirect_X },
        0xC4 => Op { code: 0xC4, ins: Mnemonic::CPY, undoc: false, len: 2, cycles: 3, mode: AddressingMode::ZeroPage },
        0xC5 => Op { code: 0xC5, ins: Mnemonic::CMP, undoc: false, len: 2, cycles: 3, mode: AddressingMode::ZeroPage },
        0xC6 => Op { code: 0xC6, ins: Mnemonic::DEC, undoc: false, len: 2, cycles: 5, mode: AddressingMode::ZeroPage },
        0xC7 => Op { code: 0xC7, ins: Mnemonic::DCP, undoc: true, len: 2, cycles: 5, mode: AddressingMode::ZeroPage },
        0xC8 => Op { code: 0xC8, ins: Mnemonic::INY, undoc: false, len: 1, cycles: 2, mode: AddressingMode::NoneAddressing },
        0xC9 => Op { code: 0xC9, ins: Mnemonic::CMP, undoc: false, len: 2, cycles: 2, mode: AddressingMode::Immediate },
        0xCA => Op { code: 0xCA, ins: Mnemonic::DEX, undoc: false, len: 1, cycles: 2, mode: AddressingMode::NoneAddressing },
        0xCC => Op { code: 0xCC, ins: Mnemonic::CPY, undoc: false, len: 3, cycles: 4, mode: AddressingMode::Absolute },
        0xCD => Op { code: 0xCD, ins: Mnemonic::CMP, undoc: false, len: 3, cycles: 4, mode: AddressingMode::Absolute },
        0xCE => Op { code: 0xCE, ins: Mnemonic::DEC, undoc: false, len: 3, cycles: 6, mode: AddressingMode::Absolute },
        0xCF => Op { code: 0xCF, ins: Mnemonic::DCP, undoc: true, len: 3, cycles: 6, mode: AddressingMode::Absolute },
        0xD0 => Op { code: 0xD0, ins: Mnemonic::BNE, undoc: false, len: 2, cycles: 2, mode: AddressingMode::NoneAddressing },
        0xD1 => Op { code: 0xD1, ins: Mnemonic::CMP, undoc: false, len: 2, cycles: 5, mode: AddressingMode::Indirect_Y },
        0xD3 => Op { code: 0xD3, ins: Mnemonic::DCP, undoc: true, len: 2, cycles: 8, mode: AddressingMode::Indirect_Y },
        0xD4 => Op { code: 0xD4, ins: Mnemonic::NOP, undoc: true, len: 2, cycles: 4, mode: AddressingMode::ZeroPage_X },
        0xD5 => Op { code: 0xD5, ins: Mnemonic::CMP, undoc: false, len: 2, cycles: 4, mode: AddressingMode::ZeroPage_X },
        0xD6 => Op { code: 0xD6, ins: Mnemonic::DEC, undoc: false, len: 2, cycles: 6, mode: AddressingMode::ZeroPage_X },
        0xD7 => Op { code: 0xD7, ins: Mnemonic::DCP, undoc: true, len: 2, cycles: 6, mode: AddressingMode::ZeroPage_X },
        0xD8 => Op { code: 0xD8, ins: Mnemonic::CLD, undoc: false, len: 1, cycles: 2, mode: AddressingMode::NoneAddressing },
        0xD9 => Op { code: 0xD9, ins: Mnemonic::CMP, undoc: false, len: 3, cycles: 4, mode: AddressingMode::Absolute_Y },
        0xDA => Op { code: 0xDA, ins: Mnemonic::NOP, undoc: true, len: 1, cycles: 2, mode: AddressingMode::NoneAddressing },
        0xDB => Op { code: 0xDB, ins: Mnemonic::DCP, undoc: true, len: 3, cycles: 7, mode: AddressingMode::Absolute_Y },
        0xDC => Op { code: 0xDC, ins: Mnemonic::NOP, undoc: true, len: 3, cycles: 4, mode: AddressingMode::Absolute_X },
        0xDD => Op { code: 0xDD, ins: Mnemonic::CMP, undoc: false, len: 3, cycles: 4, mode: AddressingMode::Absolute_X },
        0xDE => Op { code: 0xDE, ins: Mnemonic::DEC, undoc: false, len: 3, cycles: 7, mode: AddressingMode::Absolute_X },
        0xDF => Op { code: 0xDF, ins: Mnemonic::DCP, undoc: true, len: 3, cycles: 7, mode: AddressingMode::Absolute_X },
        0xE0 => Op { code: 0xE0, ins: Mnemonic::CPX, undoc: false, len: 2, cycles: 2, mode: AddressingMode::Immediate },
        0xE1 => Op { code: 0xE1, ins: Mnemonic::SBC, undoc: false, len: 2, cycles: 6, mode: AddressingMode::Indirect_X },
        0xE3 => Op { code: 0xE3, ins: Mnemonic::ISB, undoc: true, len: 2, cycles: 8, mode: AddressingMode::Indirect_X },
        0xE4 => Op { code: 0xE4, ins: Mnemonic::CPX, undoc: false, len: 2, cycles: 3, mode: AddressingMode::ZeroPage },
        0xE5 => Op { code: 0xE5, ins: Mnemonic::SBC, undoc: false, len: 2, cycles: 3, mode: AddressingMode::ZeroPage },
        0xE6 => Op { code: 0xE6, ins: Mnemonic::INC, undoc: false, len: 2, cycles: 5, mode: AddressingMode::ZeroPage },
        0xE7 => Op { code: 0xE7, ins: Mnemonic::ISB, undoc: true, len: 2, cycles: 5, mode: AddressingMode::ZeroPage },
        0xE8 => Op { code: 0xE8, ins: Mnemonic::INX, undoc: false, len: 1, cycles: 2, mode: AddressingMode::NoneAddressing },
        0xE9 => Op { code: 0xE9, ins: Mnemonic::SBC, undoc: false, len: 2, cycles: 2, mode: AddressingMode::Immediate },
        0xEA => Op { code: 0xEA, ins: Mnemonic::NOP, undoc: false, len: 1, cycles: 2, mode: AddressingMode::NoneAddressing },
        0xEB => Op { code: 0xEB, ins: Mnemonic::SBC, undoc: true, len: 2, cycles: 2, mode: AddressingMode::Immediate },
        0xEC => Op { code: 0xEC, ins: Mnemonic::CPX, undoc: false, len: 3, cycles: 4, mode: AddressingMode::Absolute },
        0xED => Op { code: 0xED, ins: Mnemonic::SBC, undoc: false, len: 3, cycles: 4, mode: AddressingMode::Absolute },
        0xEE => Op { code: 0xEE, ins: Mnemonic::INC, undoc: false, len: 3, cycles: 6, mode: AddressingMode::Absolute },
        0xEF => Op { code: 0xEF, ins: Mnemonic::ISB, undoc: true, len: 3, cycles: 6, mode: AddressingMode::Absolute },
        0xF0 => Op { code: 0xF0, ins: Mnemonic::BEQ, undoc: false, len: 2, cycles: 2, mode: AddressingMode::NoneAddressing },
        0xF1 => Op { code: 0xF1, ins: Mnemonic::SBC, undoc: false, len: 2, cycles: 5, mode: AddressingMode::Indirect_Y },
        0xF3 => Op { code: 0xF3, ins: Mnemonic::ISB, undoc: true, len: 2, cycles: 8, mode: AddressingMode::Indirect_Y },
        0xF4 => Op { code: 0xF4, ins: Mnemonic::NOP, undoc: true, len: 2, cycles: 4, mode: AddressingMode::ZeroPage_X },
        0xF5 => Op { code: 0xF5, ins: Mnemonic::SBC, undoc: false, len: 2, cycles: 4, mode: AddressingMode::ZeroPage_X },
        0xF6 => Op { code: 0xF6, ins: Mnemonic::INC, undoc: false, len: 2, cycles: 6, mode: AddressingMode::ZeroPage_X },
        0xF7 => Op { code: 0xF7, ins: Mnemonic::ISB, undoc: true, len: 2, cycles: 6, mode: AddressingMode::ZeroPage_X },
        0xF8 => Op { code: 0xF8, ins: Mnemonic::SED, undoc: false, len: 1, cycles: 2, mode: AddressingMode::NoneAddressing },
        0xF9 => Op { code: 0xF9, ins: Mnemonic::SBC, undoc: false, len: 3, cycles: 4, mode: AddressingMode::Absolute_Y },
        0xFA => Op { code: 0xFA, ins: Mnemonic::NOP, undoc: true, len: 1, cycles: 2, mode: AddressingMode::NoneAddressing },
        0xFB => Op { code: 0xFB, ins: Mnemonic::ISB, undoc: true, len: 3, cycles: 7, mode: AddressingMode::Absolute_Y },
        0xFC => Op { code: 0xFC, ins: Mnemonic::NOP, undoc: true, len: 3, cycles: 4, mode: AddressingMode::Absolute_X },
        0xFD => Op { code: 0xFD, ins: Mnemonic::SBC, undoc: false, len: 3, cycles: 4, mode: AddressingMode::Absolute_X },
        0xFE => Op { code: 0xFE, ins: Mnemonic::INC, undoc: false, len: 3, cycles: 7, mode: AddressingMode::Absolute_X },
        0xFF => Op { code: 0xFF, ins: Mnemonic::ISB, undoc: true, len: 3, cycles: 7, mode: AddressingMode::Absolute_X },
        _ => Op { code, ins: Mnemonic::NOP, undoc: true, len: 1, cycles: 2, mode: AddressingMode::NoneAddressing },
    }
}

/// Every table row records the byte it is indexed by, an instruction length
/// of one to three bytes, and at least two base cycles.
pub proof fn lemma_op_table_shape(code: u8)
    ensures
        spec_op(code).code == code,
        1 <= spec_op(code).len <= 3,
        2 <= spec_op(code).cycles <= 8,
{
    reveal(spec_op);
}

/// Every instruction that takes a memory operand is listed in the table
/// with a real addressing mode.
pub proof fn lemma_op_operand_mode(code: u8)
    ensures
        ({
            let op = spec_op(code);
            (op.ins == Mnemonic::LDA
                || op.ins == Mnemonic::LDX
                || op.ins == Mnemonic::LDY
                || op.ins == Mnemonic::STA
                || op.ins == Mnemonic::STX
                || op.ins == Mnemonic::STY
                || op.ins == Mnemonic::ADC
                || op.ins == Mnemonic::SBC
                || op.ins == Mnemonic::AND
                || op.ins == Mnemonic::ORA
                || op.ins == Mnemonic::EOR
                || op.ins == Mnemonic::CMP
                || op.ins == Mnemonic::CPX
                || op.ins == Mnemonic::CPY
                || op.ins == Mnemonic::INC
                || op.ins == Mnemonic::DEC
                || op.ins == Mnemonic::BIT
                || op.ins == Mnemonic::LAX
                || op.ins == Mnemonic::SAX
                || op.ins == Mnemonic::DCP
                || op.ins == Mnemonic::ISB
                || op.ins == Mnemonic::SLO
                || op.ins == Mnemonic::RLA
                || op.ins == Mnemonic::SRE
                || op.ins == Mnemonic::RRA) ==> op.mode != AddressingMode::NoneAddressing
        }),
{
    reveal(spec_op);
}

} // verus!

