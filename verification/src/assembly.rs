//! The instruction descriptor table: one immutable record per opcode byte,
//! giving its operation, byte length, base cycle cost, and addressing mode.

use vstd::prelude::*;

use crate::bus::{bus_read, bus_read16, bus_tick, bus_write, writable, BusFault, BusView};
use crate::cpu::{adc_spec, compare_spec, nmi_spec, resolve_op, sbc_spec, sets_pc, sign_extend,
    write_fault, zn_update, AddressingMode, CpuState, StepOutcome, BREAK, CARRY, CPU, DECIMAL_MODE,
    INTERRUPT_DISABLE, NEGATIVE, OVERFLOW, STACK, UNUSED, ZERO};
use crate::ppu::{set_bit, PpuView};

verus! {

/// The operation an opcode performs. Undocumented operations carry the
/// names the community research settled on.
#[allow(non_camel_case_types)]
#[derive(Debug, Clone, Copy, PartialEq, Eq, Structural)]
pub enum Mnemonic {
    ADC,
    AHX,
    ALR,
    ANC,
    AND,
    ARR,
    ASL,
    AXS,
    BCC,
    BCS,
    BEQ,
    BIT,
    BMI,
    BNE,
    BPL,
    BRK,
    BVC,
    BVS,
    CLC,
    CLD,
    CLI,
    CLV,
    CMP,
    CPX,
    CPY,
    DCP,
    DEC,
    DEX,
    DEY,
    EOR,
    INC,
    INX,
    INY,
    ISB,
    JMP,
    JSR,
    LAS,
    LAX,
    LDA,
    LDX,
    LDY,
    LSR,
    LXA,
    NOP,
    ORA,
    PHA,
    PHP,
    PLA,
    PLP,
    RLA,
    ROL,
    ROR,
    RRA,
    RTI,
    RTS,
    SAX,
    SBC,
    SEC,
    SED,
    SEI,
    SHX,
    SHY,
    SLO,
    SRE,
    STA,
    STX,
    STY,
    TAS,
    TAX,
    TAY,
    TSX,
    TXA,
    TXS,
    TYA,
    XAA,
}

/// One row of the descriptor table.
#[derive(Debug, Clone, Copy, PartialEq, Eq, Structural)]
pub struct OpCode {
    pub code: u8,
    pub mnemonic: Mnemonic,
    pub len: u8,
    pub cycles: u8,
    pub mode: AddressingMode,
    pub official: bool,
}

/// The descriptor for each opcode byte. Every byte decodes to exactly one
/// descriptor; the undocumented operations use the cycle counts of the
/// community opcode reference.
pub open spec fn opcode_spec(code: u8) -> OpCode {
    match code {
        0x00 => OpCode { code, mnemonic: Mnemonic::BRK, len: 1, cycles: 7, mode: AddressingMode::NoneAddressing, official: true },
        0x01 => OpCode { code, mnemonic: Mnemonic::ORA, len: 2, cycles: 6, mode: AddressingMode::IndirectX, official: true },
        0x02 | 0x12 | 0x1a | 0x22 | 0x32 | 0x3a | 0x42 | 0x52 | 0x5a | 0x62 | 0x72 | 0x7a | 0x92 | 0xb2 | 0xd2 | 0xda | 0xf2 | 0xfa => OpCode { code, mnemonic: Mnemonic::NOP, len: 1, cycles: 2, mode: AddressingMode::NoneAddressing, official: false },
        0x03 => OpCode { code, mnemonic: Mnemonic::SLO, len: 2, cycles: 8, mode: AddressingMode::IndirectX, official: false },
        0x04 | 0x44 | 0x64 => OpCode { code, mnemonic: Mnemonic::NOP, len: 2, cycles: 3, mode: AddressingMode::ZeroPage, official: false },
        0x05 => OpCode { code, mnemonic: Mnemonic::ORA, len: 2, cycles: 3, mode: AddressingMode::ZeroPage, official: true },
        0x06 => OpCode { code, mnemonic: Mnemonic::ASL, len: 2, cycles: 5, mode: AddressingMode::ZeroPage, official: true },
        0x07 => OpCode { code, mnemonic: Mnemonic::SLO, len: 2, cycles: 5, mode: AddressingMode::ZeroPage, official: false },
        0x08 => OpCode { code, mnemonic: Mnemonic::PHP, len: 1, cycles: 3, mode: AddressingMode::NoneAddressing, official: true },
        0x09 => OpCode { code, mnemonic: Mnemonic::ORA, len: 2, cycles: 2, mode: AddressingMode::Immediate, official: true },
        0x0a => OpCode { code, mnemonic: Mnemonic::ASL, len: 1, cycles: 2, mode: AddressingMode::NoneAddressing, official: true },
        0x0b | 0x2b => OpCode { code, mnemonic: Mnemonic::ANC, len: 2, cycles: 2, mode: AddressingMode::Immediate, official: false },
        0x0c => OpCode { code, mnemonic: Mnemonic::NOP, len: 3, cycles: 4, mode: AddressingMode::Absolute, official: false },
        0x0d => OpCode { code, mnemonic: Mnemonic::ORA, len: 3, cycles: 4, mode: AddressingMode::Absolute, official: true },
        0x0e => OpCode { code, mnemonic: Mnemonic::ASL, len: 3, cycles: 6, mode: AddressingMode::Absolute, official: true },
        0x0f => OpCode { code, mnemonic: Mnemonic::SLO, len: 3, cycles: 6, mode: AddressingMode::Absolute, official: false },
        0x10 => OpCode { code, mnemonic: Mnemonic::BPL, len: 2, cycles: 2, mode: AddressingMode::NoneAddressing, official: true },
        0x11 => OpCode { code, mnemonic: Mnemonic::ORA, len: 2, cycles: 5, mode: AddressingMode::IndirectY, official: true },
        0x13 => OpCode { code, mnemonic: Mnemonic::SLO, len: 2, cycles: 8, mode: AddressingMode::IndirectY, official: false },
        0x14 | 0x34 | 0x54 | 0x74 | 0xd4 | 0xf4 => OpCode { code, mnemonic: Mnemonic::NOP, len: 2, cycles: 4, mode: AddressingMode::ZeroPageX, official: false },
        0x15 => OpCode { code, mnemonic: Mnemonic::ORA, len: 2, cycles: 4, mode: AddressingMode::ZeroPageX, official: true },
        0x16 => OpCode { code, mnemonic: Mnemonic::ASL, len: 2, cycles: 6, mode: AddressingMode::ZeroPageX, official: true },
        0x17 => OpCode { code, mnemonic: Mnemonic::SLO, len: 2, cycles: 6, mode: AddressingMode::ZeroPageX, official: false },
        0x18 => OpCode { code, mnemonic: Mnemonic::CLC, len: 1, cycles: 2, mode: AddressingMode::NoneAddressing, official: true },
        0x19 => OpCode { code, mnemonic: Mnemonic::ORA, len: 3, cycles: 4, mode: AddressingMode::AbsoluteY, official: true },
        0x1b => OpCode { code, mnemonic: Mnemonic::SLO, len: 3, cycles: 7, mode: AddressingMode::AbsoluteY, official: false },
        0x1c | 0x3c | 0x5c | 0x7c | 0xdc | 0xfc => OpCode { code, mnemonic: Mnemonic::NOP, len: 3, cycles: 4, mode: AddressingMode::AbsoluteX, official: false },
        0x1d => OpCode { code, mnemonic: Mnemonic::ORA, len: 3, cycles: 4, mode: AddressingMode::AbsoluteX, official: true },
        0x1e => OpCode { code, mnemonic: Mnemonic::ASL, len: 3, cycles: 7, mode: AddressingMode::AbsoluteX, official: true },
        0x1f => OpCode { code, mnemonic: Mnemonic::SLO, len: 3, cycles: 7, mode: AddressingMode::AbsoluteX, official: false },
        0x20 => OpCode { code, mnemonic: Mnemonic::JSR, len: 3, cycles: 6, mode: AddressingMode::NoneAddressing, official: true },
        0x21 => OpCode { code, mnemonic: Mnemonic::AND, len: 2, cycles: 6, mode: AddressingMode::IndirectX, official: true },
        0x23 => OpCode { code, mnemonic: Mnemonic::RLA, len: 2, cycles: 8, mode: AddressingMode::IndirectX, official: false },
        0x24 => OpCode { code, mnemonic: Mnemonic::BIT, len: 2, cycles: 3, mode: AddressingMode::ZeroPage, official: true },
        0x25 => OpCode { code, mnemonic: Mnemonic::AND, len: 2, cycles: 3, mode: AddressingMode::ZeroPage, official: true },
        0x26 => OpCode { code, mnemonic: Mnemonic::ROL, len: 2, cycles: 5, mode: AddressingMode::ZeroPage, official: true },
        0x27 => OpCode { code, mnemonic: Mnemonic::RLA, len: 2, cycles: 5, mode: AddressingMode::ZeroPage, official: false },
        0x28 => OpCode { code, mnemonic: Mnemonic::PLP, len: 1, cycles: 4, mode: AddressingMode::NoneAddressing, official: true },
        0x29 => OpCode { code, mnemonic: Mnemonic::AND, len: 2, cycles: 2, mode: AddressingMode::Immediate, official: true },
        0x2a => OpCode { code, mnemonic: Mnemonic::ROL, len: 1, cycles: 2, mode: AddressingMode::NoneAddressing, official: true },
        0x2c => OpCode { code, mnemonic: Mnemonic::BIT, len: 3, cycles: 4, mode: AddressingMode::Absolute, official: true },
        0x2d => OpCode { code, mnemonic: Mnemonic::AND, len: 3, cycles: 4, mode: AddressingMode::Absolute, official: true },
        0x2e => OpCode { code, mnemonic: Mnemonic::ROL, len: 3, cycles: 6, mode: AddressingMode::Absolute, official: true },
        0x2f => OpCode { code, mnemonic: Mnemonic::RLA, len: 3, cycles: 6, mode: AddressingMode::Absolute, official: false },
        0x30 => OpCode { code, mnemonic: Mnemonic::BMI, len: 2, cycles: 2, mode: AddressingMode::NoneAddressing, official: true },
        0x31 => OpCode { code, mnemonic: Mnemonic::AND, len: 2, cycles: 5, mode: AddressingMode::IndirectY, official: true },
        0x33 => OpCode { code, mnemonic: Mnemonic::RLA, len: 2, cycles: 8, mode: AddressingMode::IndirectY, official: false },
        0x35 => OpCode { code, mnemonic: Mnemonic::AND, len: 2, cycles: 4, mode: AddressingMode::ZeroPageX, official: true },
        0x36 => OpCode { code, mnemonic: Mnemonic::ROL, len: 2, cycles: 6, mode: AddressingMode::ZeroPageX, official: true },
        0x37 => OpCode { code, mnemonic: Mnemonic::RLA, len: 2, cycles: 6, mode: AddressingMode::ZeroPageX, official: false },
        0x38 => OpCode { code, mnemonic: Mnemonic::SEC, len: 1, cycles: 2, mode: AddressingMode::NoneAddressing, official: true },
        0x39 => OpCode { code, mnemonic: Mnemonic::AND, len: 3, cycles: 4, mode: AddressingMode::AbsoluteY, official: true },
        0x3b => OpCode { code, mnemonic: Mnemonic::RLA, len: 3, cycles: 7, mode: AddressingMode::AbsoluteY, official: false },
        0x3d => OpCode { code, mnemonic: Mnemonic::AND, len: 3, cycles: 4, mode: AddressingMode::AbsoluteX, official: true },
        0x3e => OpCode { code, mnemonic: Mnemonic::ROL, len: 3, cycles: 7, mode: AddressingMode::AbsoluteX, official: true },
        0x3f => OpCode { code, mnemonic: Mnemonic::RLA, len: 3, cycles: 7, mode: AddressingMode::AbsoluteX, official: false },
        0x40 => OpCode { code, mnemonic: Mnemonic::RTI, len: 1, cycles: 6, mode: AddressingMode::NoneAddressing, official: true },
        0x41 => OpCode { code, mnemonic: Mnemonic::EOR, len: 2, cycles: 6, mode: AddressingMode::IndirectX, official: true },
        0x43 => OpCode { code, mnemonic: Mnemonic::SRE, len: 2, cycles: 8, mode: AddressingMode::IndirectX, official: false },
        0x45 => OpCode { code, mnemonic: Mnemonic::EOR, len: 2, cycles: 3, mode: AddressingMode::ZeroPage, official: true },
        0x46 => OpCode { code, mnemonic: Mnemonic::LSR, len: 2, cycles: 5, mode: AddressingMode::ZeroPage, official: true },
        0x47 => OpCode { code, mnemonic: Mnemonic::SRE, len: 2, cycles: 5, mode: AddressingMode::ZeroPage, official: false },
        0x48 => OpCode { code, mnemonic: Mnemonic::PHA, len: 1, cycles: 3, mode: AddressingMode::NoneAddressing, official: true },
        0x49 => OpCode { code, mnemonic: Mnemonic::EOR, len: 2, cycles: 2, mode: AddressingMode::Immediate, official: true },
        0x4a => OpCode { code, mnemonic: Mnemonic::LSR, len: 1, cycles: 2, mode: AddressingMode::NoneAddressing, official: true },
        0x4b => OpCode { code, mnemonic: Mnemonic::ALR, len: 2, cycles: 2, mode: AddressingMode::Immediate, official: false },
        0x4c => OpCode { code, mnemonic: Mnemonic::JMP, len: 3, cycles: 3, mode: AddressingMode::NoneAddressing, official: true },
        0x4d => OpCode { code, mnemonic: Mnemonic::EOR, len: 3, cycles: 4, mode: AddressingMode::Absolute, official: true },
        0x4e => OpCode { code, mnemonic: Mnemonic::LSR, len: 3, cycles: 6, mode: AddressingMode::Absolute, official: true },
        0x4f => OpCode { code, mnemonic: Mnemonic::SRE, len: 3, cycles: 6, mode: AddressingMode::Absolute, official: false },
        0x50 => OpCode { code, mnemonic: Mnemonic::BVC, len: 2, cycles: 2, mode: AddressingMode::NoneAddressing, official: true },
        0x51 => OpCode { code, mnemonic: Mnemonic::EOR, len: 2, cycles: 5, mode: AddressingMode::IndirectY, official: true },
        0x53 => OpCode { code, mnemonic: Mnemonic::SRE, len: 2, cycles: 8, mode: AddressingMode::IndirectY, official: false },
        0x55 => OpCode { code, mnemonic: Mnemonic::EOR, len: 2, cycles: 4, mode: AddressingMode::ZeroPageX, official: true },
        0x56 => OpCode { code, mnemonic: Mnemonic::LSR, len: 2, cycles: 6, mode: AddressingMode::ZeroPageX, official: true },
        0x57 => OpCode { code, mnemonic: Mnemonic::SRE, len: 2, cycles: 6, mode: AddressingMode::ZeroPageX, official: false },
        0x58 => OpCode { code, mnemonic: Mnemonic::CLI, len: 1, cycles: 2, mode: AddressingMode::NoneAddressing, official: true },
        0x59 => OpCode { code, mnemonic: Mnemonic::EOR, len: 3, cycles: 4, mode: AddressingMode::AbsoluteY, official: true },
        0x5b => OpCode { code, mnemonic: Mnemonic::SRE, len: 3, cycles: 7, mode: AddressingMode::AbsoluteY, official: false },
        0x5d => OpCode { code, mnemonic: Mnemonic::EOR, len: 3, cycles: 4, mode: AddressingMode::AbsoluteX, official: true },
        0x5e => OpCode { code, mnemonic: Mnemonic::LSR, len: 3, cycles: 7, mode: AddressingMode::AbsoluteX, official: true },
        0x5f => OpCode { code, mnemonic: Mnemonic::SRE, len: 3, cycles: 7, mode: AddressingMode::AbsoluteX, official: false },
        0x60 => OpCode { code, mnemonic: Mnemonic::RTS, len: 1, cycles: 6, mode: AddressingMode::NoneAddressing, official: true },
        0x61 => OpCode { code, mnemonic: Mnemonic::ADC, len: 2, cycles: 6, mode: AddressingMode::IndirectX, official: true },
        0x63 => OpCode { code, mnemonic: Mnemonic::RRA, len: 2, cycles: 8, mode: AddressingMode::IndirectX, official: false },
        0x65 => OpCode { code, mnemonic: Mnemonic::ADC, len: 2, cycles: 3, mode: AddressingMode::ZeroPage, official: true },
        0x66 => OpCode { code, mnemonic: Mnemonic::ROR, len: 2, cycles: 5, mode: AddressingMode::ZeroPage, official: true },
        0x67 => OpCode { code, mnemonic: Mnemonic::RRA, len: 2, cycles: 5, mode: AddressingMode::ZeroPage, official: false },
        0x68 => OpCode { code, mnemonic: Mnemonic::PLA, len: 1, cycles: 4, mode: AddressingMode::NoneAddressing, official: true },
        0x69 => OpCode { code, mnemonic: Mnemonic::ADC, len: 2, cycles: 2, mode: AddressingMode::Immediate, official: true },
        0x6a => OpCode { code, mnemonic: Mnemonic::ROR, len: 1, cycles: 2, mode: AddressingMode::NoneAddressing, official: true },
        0x6b => OpCode { code, mnemonic: Mnemonic::ARR, len: 2, cycles: 2, mode: AddressingMode::Immediate, official: false },
        0x6c => OpCode { code, mnemonic: Mnemonic::JMP, len: 3, cycles: 5, mode: AddressingMode::NoneAddressing, official: true },
        0x6d => OpCode { code, mnemonic: Mnemonic::ADC, len: 3, cycles: 4, mode: AddressingMode::Absolute, official: true },
        0x6e => OpCode { code, mnemonic: Mnemonic::ROR, len: 3, cycles: 6, mode: AddressingMode::Absolute, official: true },
        0x6f => OpCode { code, mnemonic: Mnemonic::RRA, len: 3, cycles: 6, mode: AddressingMode::Absolute, official: false },
        0x70 => OpCode { code, mnemonic: Mnemonic::BVS, len: 2, cycles: 2, mode: AddressingMode::NoneAddressing, official: true },
        0x71 => OpCode { code, mnemonic: Mnemonic::ADC, len: 2, cycles: 5, mode: AddressingMode::IndirectY, official: true },
        0x73 => OpCode { code, mnemonic: Mnemonic::RRA, len: 2, cycles: 8, mode: AddressingMode::IndirectY, official: false },
        0x75 => OpCode { code, mnemonic: Mnemonic::ADC, len: 2, cycles: 4, mode: AddressingMode::ZeroPageX, official: true },
        0x76 => OpCode { code, mnemonic: Mnemonic::ROR, len: 2, cycles: 6, mode: AddressingMode::ZeroPageX, official: true },
        0x77 => OpCode { code, mnemonic: Mnemonic::RRA, len: 2, cycles: 6, mode: AddressingMode::ZeroPageX, official: false },
        0x78 => OpCode { code, mnemonic: Mnemonic::SEI, len: 1, cycles: 2, mode: AddressingMode::NoneAddressing, official: true },
        0x79 => OpCode { code, mnemonic: Mnemonic::ADC, len: 3, cycles: 4, mode: AddressingMode::AbsoluteY, official: true },
        0x7b => OpCode { code, mnemonic: Mnemonic::RRA, len: 3, cycles: 7, mode: AddressingMode::AbsoluteY, official: false },
        0x7d => OpCode { code, mnemonic: Mnemonic::ADC, len: 3, cycles: 4, mode: AddressingMode::AbsoluteX, official: true },
        0x7e => OpCode { code, mnemonic: Mnemonic::ROR, len: 3, cycles: 7, mode: AddressingMode::AbsoluteX, official: true },
        0x7f => OpCode { code, mnemonic: Mnemonic::RRA, len: 3, cycles: 7, mode: AddressingMode::AbsoluteX, official: false },
        0x80 | 0x82 | 0x89 | 0xc2 | 0xe2 => OpCode { code, mnemonic: Mnemonic::NOP, len: 2, cycles: 2, mode: AddressingMode::Immediate, official: false },
        0x81 => OpCode { code, mnemonic: Mnemonic::STA, len: 2, cycles: 6, mode: AddressingMode::IndirectX, official: true },
        0x83 => OpCode { code, mnemonic: Mnemonic::SAX, len: 2, cycles: 6, mode: AddressingMode::IndirectX, official: false },
        0x84 => OpCode { code, mnemonic: Mnemonic::STY, len: 2, cycles: 3, mode: AddressingMode::ZeroPage, official: true },
        0x85 => OpCode { code, mnemonic: Mnemonic::STA, len: 2, cycles: 3, mode: AddressingMode::ZeroPage, official: true },
        0x86 => OpCode { code, mnemonic: Mnemonic::STX, len: 2, cycles: 3, mode: AddressingMode::ZeroPage, official: true },
        0x87 => OpCode { code, mnemonic: Mnemonic::SAX, len: 2, cycles: 3, mode: AddressingMode::ZeroPage, official: false },
        0x88 => OpCode { code, mnemonic: Mnemonic::DEY, len: 1, cycles: 2, mode: AddressingMode::NoneAddressing, official: true },
        0x8a => OpCode { code, mnemonic: Mnemonic::TXA, len: 1, cycles: 2, mode: AddressingMode::NoneAddressing, official: true },
        0x8b => OpCode { code, mnemonic: Mnemonic::XAA, len: 2, cycles: 2, mode: AddressingMode::Immediate, official: false },
        0x8c => OpCode { code, mnemonic: Mnemonic::STY, len: 3, cycles: 4, mode: AddressingMode::Absolute, official: true },
        0x8d => OpCode { code, mnemonic: Mnemonic::STA, len: 3, cycles: 4, mode: AddressingMode::Absolute, official: true },
        0x8e => OpCode { code, mnemonic: Mnemonic::STX, len: 3, cycles: 4, mode: AddressingMode::Absolute, official: true },
        0x8f => OpCode { code, mnemonic: Mnemonic::SAX, len: 3, cycles: 4, mode: AddressingMode::Absolute, official: false },
        0x90 => OpCode { code, mnemonic: Mnemonic::BCC, len: 2, cycles: 2, mode: AddressingMode::NoneAddressing, official: true },
        0x91 => OpCode { code, mnemonic: Mnemonic::STA, len: 2, cycles: 6, mode: AddressingMode::IndirectY, official: true },
        0x93 => OpCode { code, mnemonic: Mnemonic::AHX, len: 2, cycles: 6, mode: AddressingMode::IndirectY, official: false },
        0x94 => OpCode { code, mnemonic: Mnemonic::STY, len: 2, cycles: 4, mode: AddressingMode::ZeroPageX, official: true },
        0x95 => OpCode { code, mnemonic: Mnemonic::STA, len: 2, cycles: 4, mode: AddressingMode::ZeroPageX, official: true },
        0x96 => OpCode { code, mnemonic: Mnemonic::STX, len: 2, cycles: 4, mode: AddressingMode::ZeroPageY, official: true },
        0x97 => OpCode { code, mnemonic: Mnemonic::SAX, len: 2, cycles: 4, mode: AddressingMode::ZeroPageY, official: false },
        0x98 => OpCode { code, mnemonic: Mnemonic::TYA, len: 1, cycles: 2, mode: AddressingMode::NoneAddressing, official: true },
        0x99 => OpCode { code, mnemonic: Mnemonic::STA, len: 3, cycles: 5, mode: AddressingMode::AbsoluteY, official: true },
        0x9a => OpCode { code, mnemonic: Mnemonic::TXS, len: 1, cycles: 2, mode: AddressingMode::NoneAddressing, official: true },
        0x9b => OpCode { code, mnemonic: Mnemonic::TAS, len: 3, cycles: 5, mode: AddressingMode::AbsoluteY, official: false },
        0x9c => OpCode { code, mnemonic: Mnemonic::SHY, len: 3, cycles: 5, mode: AddressingMode::AbsoluteX, official: false },
        0x9d => OpCode { code, mnemonic: Mnemonic::STA, len: 3, cycles: 5, mode: AddressingMode::AbsoluteX, official: true },
        0x9e => OpCode { code, mnemonic: Mnemonic::SHX, len: 3, cycles: 5, mode: AddressingMode::AbsoluteY, official: false },
        0x9f => OpCode { code, mnemonic: Mnemonic::AHX, len: 3, cycles: 5, mode: AddressingMode::AbsoluteY, official: false },
        0xa0 => OpCode { code, mnemonic: Mnemonic::LDY, len: 2, cycles: 2, mode: AddressingMode::Immediate, official: true },
        0xa1 => OpCode { code, mnemonic: Mnemonic::LDA, len: 2, cycles: 6, mode: AddressingMode::IndirectX, official: true },
        0xa2 => OpCode { code, mnemonic: Mnemonic::LDX, len: 2, cycles: 2, mode: AddressingMode::Immediate, official: true },
        0xa3 => OpCode { code, mnemonic: Mnemonic::LAX, len: 2, cycles: 6, mode: AddressingMode::IndirectX, official: false },
        0xa4 => OpCode { code, mnemonic: Mnemonic::LDY, len: 2, cycles: 3, mode: AddressingMode::ZeroPage, official: true },
        0xa5 => OpCode { code, mnemonic: Mnemonic::LDA, len: 2, cycles: 3, mode: AddressingMode::ZeroPage, official: true },
        0xa6 => OpCode { code, mnemonic: Mnemonic::LDX, len: 2, cycles: 3, mode: AddressingMode::ZeroPage, official: true },
        0xa7 => OpCode { code, mnemonic: Mnemonic::LAX, len: 2, cycles: 3, mode: AddressingMode::ZeroPage, official: false },
        0xa8 => OpCode { code, mnemonic: Mnemonic::TAY, len: 1, cycles: 2, mode: AddressingMode::NoneAddressing, official: true },
        0xa9 => OpCode { code, mnemonic: Mnemonic::LDA, len: 2, cycles: 2, mode: AddressingMode::Immediate, official: true },
        0xaa => OpCode { code, mnemonic: Mnemonic::TAX, len: 1, cycles: 2, mode: AddressingMode::NoneAddressing, official: true },
        0xab => OpCode { code, mnemonic: Mnemonic::LXA, len: 2, cycles: 2, mode: AddressingMode::Immediate, official: false },
        0xac => OpCode { code, mnemonic: Mnemonic::LDY, len: 3, cycles: 4, mode: AddressingMode::Absolute, official: true },
        0xad => OpCode { code, mnemonic: Mnemonic::LDA, len: 3, cycles: 4, mode: AddressingMode::Absolute, official: true },
        0xae => OpCode { code, mnemonic: Mnemonic::LDX, len: 3, cycles: 4, mode: AddressingMode::Absolute, official: true },
        0xaf => OpCode { code, mnemonic: Mnemonic::LAX, len: 3, cycles: 4, mode: AddressingMode::Absolute, official: false },
        0xb0 => OpCode { code, mnemonic: Mnemonic::BCS, len: 2, cycles: 2, mode: AddressingMode::NoneAddressing, official: true },
        0xb1 => OpCode { code, mnemonic: Mnemonic::LDA, len: 2, cycles: 5, mode: AddressingMode::IndirectY, official: true },
        0xb3 => OpCode { code, mnemonic: Mnemonic::LAX, len: 2, cycles: 5, mode: AddressingMode::IndirectY, official: false },
        0xb4 => OpCode { code, mnemonic: Mnemonic::LDY, len: 2, cycles: 4, mode: AddressingMode::ZeroPageX, official: true },
        0xb5 => OpCode { code, mnemonic: Mnemonic::LDA, len: 2, cycles: 4, mode: AddressingMode::ZeroPageX, official: true },
        0xb6 => OpCode { code, mnemonic: Mnemonic::LDX, len: 2, cycles: 4, mode: AddressingMode::ZeroPageY, official: true },
        0xb7 => OpCode { code, mnemonic: Mnemonic::LAX, len: 2, cycles: 4, mode: AddressingMode::ZeroPageY, official: false },
        0xb8 => OpCode { code, mnemonic: Mnemonic::CLV, len: 1, cycles: 2, mode: AddressingMode::NoneAddressing, official: true },
        0xb9 => OpCode { code, mnemonic: Mnemonic::LDA, len: 3, cycles: 4, mode: AddressingMode::AbsoluteY, official: true },
        0xba => OpCode { code, mnemonic: Mnemonic::TSX, len: 1, cycles: 2, mode: AddressingMode::NoneAddressing, official: true },
        0xbb => OpCode { code, mnemonic: Mnemonic::LAS, len: 3, cycles: 4, mode: AddressingMode::AbsoluteY, official: false },
        0xbc => OpCode { code, mnemonic: Mnemonic::LDY, len: 3, cycles: 4, mode: AddressingMode::AbsoluteX, official: true },
        0xbd => OpCode { code, mnemonic: Mnemonic::LDA, len: 3, cycles: 4, mode: AddressingMode::AbsoluteX, official: true },
        0xbe => OpCode { code, mnemonic: Mnemonic::LDX, len: 3, cycles: 4, mode: AddressingMode::AbsoluteY, official: true },
        0xbf => OpCode { code, mnemonic: Mnemonic::LAX, len: 3, cycles: 4, mode: AddressingMode::AbsoluteY, official: false },
        0xc0 => OpCode { code, mnemonic: Mnemonic::CPY, len: 2, cycles: 2, mode: AddressingMode::Immediate, official: true },
        0xc1 => OpCode { code, mnemonic: Mnemonic::CMP, len: 2, cycles: 6, mode: AddressingMode::IndirectX, official: true },
        0xc3 => OpCode { code, mnemonic: Mnemonic::DCP, len: 2, cycles: 8, mode: AddressingMode::IndirectX, official: false },
        0xc4 => OpCode { code, mnemonic: Mnemonic::CPY, len: 2, cycles: 3, mode: AddressingMode::ZeroPage, official: true },
        0xc5 => OpCode { code, mnemonic: Mnemonic::CMP, len: 2, cycles: 3, mode: AddressingMode::ZeroPage, official: true },
        0xc6 => OpCode { code, mnemonic: Mnemonic::DEC, len: 2, cycles: 5, mode: AddressingMode::ZeroPage, official: true },
        0xc7 => OpCode { code, mnemonic: Mnemonic::DCP, len: 2, cycles: 5, mode: AddressingMode::ZeroPage, official: false },
        0xc8 => OpCode { code, mnemonic: Mnemonic::INY, len: 1, cycles: 2, mode: AddressingMode::NoneAddressing, official: true },
        0xc9 => OpCode { code, mnemonic: Mnemonic::CMP, len: 2, cycles: 2, mode: AddressingMode::Immediate, official: true },
        0xca => OpCode { code, mnemonic: Mnemonic::DEX, len: 1, cycles: 2, mode: AddressingMode::NoneAddressing, official: true },
        0xcb => OpCode { code, mnemonic: Mnemonic::AXS, len: 2, cycles: 2, mode: AddressingMode::Immediate, official: false },
        0xcc => OpCode { code, mnemonic: Mnemonic::CPY, len: 3, cycles: 4, mode: AddressingMode::Absolute, official: true },
        0xcd => OpCode { code, mnemonic: Mnemonic::CMP, len: 3, cycles: 4, mode: AddressingMode::Absolute, official: true },
        0xce => OpCode { code, mnemonic: Mnemonic::DEC, len: 3, cycles: 6, mode: AddressingMode::Absolute, official: true },
        0xcf => OpCode { code, mnemonic: Mnemonic::DCP, len: 3, cycles: 6, mode: AddressingMode::Absolute, official: false },
        0xd0 => OpCode { code, mnemonic: Mnemonic::BNE, len: 2, cycles: 2, mode: AddressingMode::NoneAddressing, official: true },
        0xd1 => OpCode { code, mnemonic: Mnemonic::CMP, len: 2, cycles: 5, mode: AddressingMode::IndirectY, official: true },
        0xd3 => OpCode { code, mnemonic: Mnemonic::DCP, len: 2, cycles: 8, mode: AddressingMode::IndirectY, official: false },
        0xd5 => OpCode { code, mnemonic: Mnemonic::CMP, len: 2, cycles: 4, mode: AddressingMode::ZeroPageX, official: true },
        0xd6 => OpCode { code, mnemonic: Mnemonic::DEC, len: 2, cycles: 6, mode: AddressingMode::ZeroPageX, official: true },
        0xd7 => OpCode { code, mnemonic: Mnemonic::DCP, len: 2, cycles: 6, mode: AddressingMode::ZeroPageX, official: false },
        0xd8 => OpCode { code, mnemonic: Mnemonic::CLD, len: 1, cycles: 2, mode: AddressingMode::NoneAddressing, official: true },
        0xd9 => OpCode { code, mnemonic: Mnemonic::CMP, len: 3, cycles: 4, mode: AddressingMode::AbsoluteY, official: true },
        0xdb => OpCode { code, mnemonic: Mnemonic::DCP, len: 3, cycles: 7, mode: AddressingMode::AbsoluteY, official: false },
        0xdd => OpCode { code, mnemonic: Mnemonic::CMP, len: 3, cycles: 4, mode: AddressingMode::AbsoluteX, official: true },
        0xde => OpCode { code, mnemonic: Mnemonic::DEC, len: 3, cycles: 7, mode: AddressingMode::AbsoluteX, official: true },
        0xdf => OpCode { code, mnemonic: Mnemonic::DCP, len: 3, cycles: 7, mode: AddressingMode::AbsoluteX, official: false },
        0xe0 => OpCode { code, mnemonic: Mnemonic::CPX, len: 2, cycles: 2, mode: AddressingMode::Immediate, official: true },
        0xe1 => OpCode { code, mnemonic: Mnemonic::SBC, len: 2, cycles: 6, mode: AddressingMode::IndirectX, official: true },
        0xe3 => OpCode { code, mnemonic: Mnemonic::ISB, len: 2, cycles: 8, mode: AddressingMode::IndirectX, official: false },
        0xe4 => OpCode { code, mnemonic: Mnemonic::CPX, len: 2, cycles: 3, mode: AddressingMode::ZeroPage, official: true },
        0xe5 => OpCode { code, mnemonic: Mnemonic::SBC, len: 2, cycles: 3, mode: AddressingMode::ZeroPage, official: true },
        0xe6 => OpCode { code, mnemonic: Mnemonic::INC, len: 2, cycles: 5, mode: AddressingMode::ZeroPage, official: true },
        0xe7 => OpCode { code, mnemonic: Mnemonic::ISB, len: 2, cycles: 5, mode: AddressingMode::ZeroPage, official: false },
        0xe8 => OpCode { code, mnemonic: Mnemonic::INX, len: 1, cycles: 2, mode: AddressingMode::NoneAddressing, official: true },
        0xe9 => OpCode { code, mnemonic: Mnemonic::SBC, len: 2, cycles: 2, mode: AddressingMode::Immediate, official: true },
        0xea => OpCode { code, mnemonic: Mnemonic::NOP, len: 1, cycles: 2, mode: AddressingMode::NoneAddressing, official: true },
        0xeb => OpCode { code, mnemonic: Mnemonic::SBC, len: 2, cycles: 2, mode: AddressingMode::Immediate, official: false },
        0xec => OpCode { code, mnemonic: Mnemonic::CPX, len: 3, cycles: 4, mode: AddressingMode::Absolute, official: true },
        0xed => OpCode { code, mnemonic: Mnemonic::SBC, len: 3, cycles: 4, mode: AddressingMode::Absolute, official: true },
        0xee => OpCode { code, mnemonic: Mnemonic::INC, len: 3, cycles: 6, mode: AddressingMode::Absolute, official: true },
        0xef => OpCode { code, mnemonic: Mnemonic::ISB, len: 3, cycles: 6, mode: AddressingMode::Absolute, official: false },
        0xf0 => OpCode { code, mnemonic: Mnemonic::BEQ, len: 2, cycles: 2, mode: AddressingMode::NoneAddressing, official: true },
        0xf1 => OpCode { code, mnemonic: Mnemonic::SBC, len: 2, cycles: 5, mode: AddressingMode::IndirectY, official: true },
        0xf3 => OpCode { code, mnemonic: Mnemonic::ISB, len: 2, cycles: 8, mode: AddressingMode::IndirectY, official: false },
        0xf5 => OpCode { code, mnemonic: Mnemonic::SBC, len: 2, cycles: 4, mode: AddressingMode::ZeroPageX, official: true },
        0xf6 => OpCode { code, mnemonic: Mnemonic::INC, len: 2, cycles: 6, mode: AddressingMode::ZeroPageX, official: true },
        0xf7 => OpCode { code, mnemonic: Mnemonic::ISB, len: 2, cycles: 6, mode: AddressingMode::ZeroPageX, official: false },
        0xf8 => OpCode { code, mnemonic: Mnemonic::SED, len: 1, cycles: 2, mode: AddressingMode::NoneAddressing, official: true },
        0xf9 => OpCode { code, mnemonic: Mnemonic::SBC, len: 3, cycles: 4, mode: AddressingMode::AbsoluteY, official: true },
        0xfb => OpCode { code, mnemonic: Mnemonic::ISB, len: 3, cycles: 7, mode: AddressingMode::AbsoluteY, official: false },
        0xfd => OpCode { code, mnemonic: Mnemonic::SBC, len: 3, cycles: 4, mode: AddressingMode::AbsoluteX, official: true },
        0xfe => OpCode { code, mnemonic: Mnemonic::INC, len: 3, cycles: 7, mode: AddressingMode::AbsoluteX, official: true },
        0xff => OpCode { code, mnemonic: Mnemonic::ISB, len: 3, cycles: 7, mode: AddressingMode::AbsoluteX, official: false },
    }
}

impl OpCode {
    fn new(code: u8, mnemonic: Mnemonic, len: u8, cycles: u8, mode: AddressingMode, official: bool) -> (r: OpCode)
        ensures
            r == (OpCode { code, mnemonic, len, cycles, mode, official }),
    {
        OpCode { code, mnemonic, len, cycles, mode, official }
    }
}

/// The descriptor of one opcode byte, as the table states it.
#[verifier::rlimit(60)]
pub fn opcode_entry(code: u8) -> (r: OpCode)
    ensures
        r == opcode_spec(code),
        r.code == code,
        1 <= r.len <= 3,
        1 <= r.cycles <= 8,
{
    match code {
        0x00 => OpCode { code, mnemonic: Mnemonic::BRK, len: 1, cycles: 7, mode: AddressingMode::NoneAddressing, official: true },
        0x01 => OpCode { code, mnemonic: Mnemonic::ORA, len: 2, cycles: 6, mode: AddressingMode::IndirectX, official: true },
        0x02 | 0x12 | 0x1a | 0x22 | 0x32 | 0x3a | 0x42 | 0x52 | 0x5a | 0x62 | 0x72 | 0x7a | 0x92 | 0xb2 | 0xd2 | 0xda | 0xf2 | 0xfa => OpCode { code, mnemonic: Mnemonic::NOP, len: 1, cycles: 2, mode: AddressingMode::NoneAddressing, official: false },
        0x03 => OpCode { code, mnemonic: Mnemonic::SLO, len: 2, cycles: 8, mode: AddressingMode::IndirectX, official: false },
        0x04 | 0x44 | 0x64 => OpCode { code, mnemonic: Mnemonic::NOP, len: 2, cycles: 3, mode: AddressingMode::ZeroPage, official: false },
        0x05 => OpCode { code, mnemonic: Mnemonic::ORA, len: 2, cycles: 3, mode: AddressingMode::ZeroPage, official: true },
        0x06 => OpCode { code, mnemonic: Mnemonic::ASL, len: 2, cycles: 5, mode: AddressingMode::ZeroPage, official: true },
        0x07 => OpCode { code, mnemonic: Mnemonic::SLO, len: 2, cycles: 5, mode: AddressingMode::ZeroPage, official: false },
        0x08 => OpCode { code, mnemonic: Mnemonic::PHP, len: 1, cycles: 3, mode: AddressingMode::NoneAddressing, official: true },
        0x09 => OpCode { code, mnemonic: Mnemonic::ORA, len: 2, cycles: 2, mode: AddressingMode::Immediate, official: true },
        0x0a => OpCode { code, mnemonic: Mnemonic::ASL, len: 1, cycles: 2, mode: AddressingMode::NoneAddressing, official: true },
        0x0b | 0x2b => OpCode { code, mnemonic: Mnemonic::ANC, len: 2, cycles: 2, mode: AddressingMode::Immediate, official: false },
        0x0c => OpCode { code, mnemonic: Mnemonic::NOP, len: 3, cycles: 4, mode: AddressingMode::Absolute, official: false },
        0x0d => OpCode { code, mnemonic: Mnemonic::ORA, len: 3, cycles: 4, mode: AddressingMode::Absolute, official: true },
        0x0e => OpCode { code, mnemonic: Mnemonic::ASL, len: 3, cycles: 6, mode: AddressingMode::Absolute, official: true },
        0x0f => OpCode { code, mnemonic: Mnemonic::SLO, len: 3, cycles: 6, mode: AddressingMode::Absolute, official: false },
        0x10 => OpCode { code, mnemonic: Mnemonic::BPL, len: 2, cycles: 2, mode: AddressingMode::NoneAddressing, official: true },
        0x11 => OpCode { code, mnemonic: Mnemonic::ORA, len: 2, cycles: 5, mode: AddressingMode::IndirectY, official: true },
        0x13 => OpCode { code, mnemonic: Mnemonic::SLO, len: 2, cycles: 8, mode: AddressingMode::IndirectY, official: false },
        0x14 | 0x34 | 0x54 | 0x74 | 0xd4 | 0xf4 => OpCode { code, mnemonic: Mnemonic::NOP, len: 2, cycles: 4, mode: AddressingMode::ZeroPageX, official: false },
        0x15 => OpCode { code, mnemonic: Mnemonic::ORA, len: 2, cycles: 4, mode: AddressingMode::ZeroPageX, official: true },
        0x16 => OpCode { code, mnemonic: Mnemonic::ASL, len: 2, cycles: 6, mode: AddressingMode::ZeroPageX, official: true },
        0x17 => OpCode { code, mnemonic: Mnemonic::SLO, len: 2, cycles: 6, mode: AddressingMode::ZeroPageX, official: false },
        0x18 => OpCode { code, mnemonic: Mnemonic::CLC, len: 1, cycles: 2, mode: AddressingMode::NoneAddressing, official: true },
        0x19 => OpCode { code, mnemonic: Mnemonic::ORA, len: 3, cycles: 4, mode: AddressingMode::AbsoluteY, official: true },
        0x1b => OpCode { code, mnemonic: Mnemonic::SLO, len: 3, cycles: 7, mode: AddressingMode::AbsoluteY, official: false },
        0x1c | 0x3c | 0x5c | 0x7c | 0xdc | 0xfc => OpCode { code, mnemonic: Mnemonic::NOP, len: 3, cycles: 4, mode: AddressingMode::AbsoluteX, official: false },
        0x1d => OpCode { code, mnemonic: Mnemonic::ORA, len: 3, cycles: 4, mode: AddressingMode::AbsoluteX, official: true },
        0x1e => OpCode { code, mnemonic: Mnemonic::ASL, len: 3, cycles: 7, mode: AddressingMode::AbsoluteX, official: true },
        0x1f => OpCode { code, mnemonic: Mnemonic::SLO, len: 3, cycles: 7, mode: AddressingMode::AbsoluteX, official: false },
        0x20 => OpCode { code, mnemonic: Mnemonic::JSR, len: 3, cycles: 6, mode: AddressingMode::NoneAddressing, official: true },
        0x21 => OpCode { code, mnemonic: Mnemonic::AND, len: 2, cycles: 6, mode: AddressingMode::IndirectX, official: true },
        0x23 => OpCode { code, mnemonic: Mnemonic::RLA, len: 2, cycles: 8, mode: AddressingMode::IndirectX, official: false },
        0x24 => OpCode { code, mnemonic: Mnemonic::BIT, len: 2, cycles: 3, mode: AddressingMode::ZeroPage, official: true },
        0x25 => OpCode { code, mnemonic: Mnemonic::AND, len: 2, cycles: 3, mode: AddressingMode::ZeroPage, official: true },
        0x26 => OpCode { code, mnemonic: Mnemonic::ROL, len: 2, cycles: 5, mode: AddressingMode::ZeroPage, official: true },
        0x27 => OpCode { code, mnemonic: Mnemonic::RLA, len: 2, cycles: 5, mode: AddressingMode::ZeroPage, official: false },
        0x28 => OpCode { code, mnemonic: Mnemonic::PLP, len: 1, cycles: 4, mode: AddressingMode::NoneAddressing, official: true },
        0x29 => OpCode { code, mnemonic: Mnemonic::AND, len: 2, cycles: 2, mode: AddressingMode::Immediate, official: true },
        0x2a => OpCode { code, mnemonic: Mnemonic::ROL, len: 1, cycles: 2, mode: AddressingMode::NoneAddressing, official: true },
        0x2c => OpCode { code, mnemonic: Mnemonic::BIT, len: 3, cycles: 4, mode: AddressingMode::Absolute, official: true },
        0x2d => OpCode { code, mnemonic: Mnemonic::AND, len: 3, cycles: 4, mode: AddressingMode::Absolute, official: true },
        0x2e => OpCode { code, mnemonic: Mnemonic::ROL, len: 3, cycles: 6, mode: AddressingMode::Absolute, official: true },
        0x2f => OpCode { code, mnemonic: Mnemonic::RLA, len: 3, cycles: 6, mode: AddressingMode::Absolute, official: false },
        0x30 => OpCode { code, mnemonic: Mnemonic::BMI, len: 2, cycles: 2, mode: AddressingMode::NoneAddressing, official: true },
        0x31 => OpCode { code, mnemonic: Mnemonic::AND, len: 2, cycles: 5, mode: AddressingMode::IndirectY, official: true },
        0x33 => OpCode { code, mnemonic: Mnemonic::RLA, len: 2, cycles: 8, mode: AddressingMode::IndirectY, official: false },
        0x35 => OpCode { code, mnemonic: Mnemonic::AND, len: 2, cycles: 4, mode: AddressingMode::ZeroPageX, official: true },
        0x36 => OpCode { code, mnemonic: Mnemonic::ROL, len: 2, cycles: 6, mode: AddressingMode::ZeroPageX, official: true },
        0x37 => OpCode { code, mnemonic: Mnemonic::RLA, len: 2, cycles: 6, mode: AddressingMode::ZeroPageX, official: false },
        0x38 => OpCode { code, mnemonic: Mnemonic::SEC, len: 1, cycles: 2, mode: AddressingMode::NoneAddressing, official: true },
        0x39 => OpCode { code, mnemonic: Mnemonic::AND, len: 3, cycles: 4, mode: AddressingMode::AbsoluteY, official: true },
        0x3b => OpCode { code, mnemonic: Mnemonic::RLA, len: 3, cycles: 7, mode: AddressingMode::AbsoluteY, official: false },
        0x3d => OpCode { code, mnemonic: Mnemonic::AND, len: 3, cycles: 4, mode: AddressingMode::AbsoluteX, official: true },
        0x3e => OpCode { code, mnemonic: Mnemonic::ROL, len: 3, cycles: 7, mode: AddressingMode::AbsoluteX, official: true },
        0x3f => OpCode { code, mnemonic: Mnemonic::RLA, len: 3, cycles: 7, mode: AddressingMode::AbsoluteX, official: false },
        0x40 => OpCode { code, mnemonic: Mnemonic::RTI, len: 1, cycles: 6, mode: AddressingMode::NoneAddressing, official: true },
        0x41 => OpCode { code, mnemonic: Mnemonic::EOR, len: 2, cycles: 6, mode: AddressingMode::IndirectX, official: true },
        0x43 => OpCode { code, mnemonic: Mnemonic::SRE, len: 2, cycles: 8, mode: AddressingMode::IndirectX, official: false },
        0x45 => OpCode { code, mnemonic: Mnemonic::EOR, len: 2, cycles: 3, mode: AddressingMode::ZeroPage, official: true },
        0x46 => OpCode { code, mnemonic: Mnemonic::LSR, len: 2, cycles: 5, mode: AddressingMode::ZeroPage, official: true },
        0x47 => OpCode { code, mnemonic: Mnemonic::SRE, len: 2, cycles: 5, mode: AddressingMode::ZeroPage, official: false },
        0x48 => OpCode { code, mnemonic: Mnemonic::PHA, len: 1, cycles: 3, mode: AddressingMode::NoneAddressing, official: true },
        0x49 => OpCode { code, mnemonic: Mnemonic::EOR, len: 2, cycles: 2, mode: AddressingMode::Immediate, official: true },
        0x4a => OpCode { code, mnemonic: Mnemonic::LSR, len: 1, cycles: 2, mode: AddressingMode::NoneAddressing, official: true },
        0x4b => OpCode { code, mnemonic: Mnemonic::ALR, len: 2, cycles: 2, mode: AddressingMode::Immediate, official: false },
        0x4c => OpCode { code, mnemonic: Mnemonic::JMP, len: 3, cycles: 3, mode: AddressingMode::NoneAddressing, official: true },
        0x4d => OpCode { code, mnemonic: Mnemonic::EOR, len: 3, cycles: 4, mode: AddressingMode::Absolute, official: true },
        0x4e => OpCode { code, mnemonic: Mnemonic::LSR, len: 3, cycles: 6, mode: AddressingMode::Absolute, official: true },
        0x4f => OpCode { code, mnemonic: Mnemonic::SRE, len: 3, cycles: 6, mode: AddressingMode::Absolute, official: false },
        0x50 => OpCode { code, mnemonic: Mnemonic::BVC, len: 2, cycles: 2, mode: AddressingMode::NoneAddressing, official: true },
        0x51 => OpCode { code, mnemonic: Mnemonic::EOR, len: 2, cycles: 5, mode: AddressingMode::IndirectY, official: true },
        0x53 => OpCode { code, mnemonic: Mnemonic::SRE, len: 2, cycles: 8, mode: AddressingMode::IndirectY, official: false },
        0x55 => OpCode { code, mnemonic: Mnemonic::EOR, len: 2, cycles: 4, mode: AddressingMode::ZeroPageX, official: true },
        0x56 => OpCode { code, mnemonic: Mnemonic::LSR, len: 2, cycles: 6, mode: AddressingMode::ZeroPageX, official: true },
        0x57 => OpCode { code, mnemonic: Mnemonic::SRE, len: 2, cycles: 6, mode: AddressingMode::ZeroPageX, official: false },
        0x58 => OpCode { code, mnemonic: Mnemonic::CLI, len: 1, cycles: 2, mode: AddressingMode::NoneAddressing, official: true },
        0x59 => OpCode { code, mnemonic: Mnemonic::EOR, len: 3, cycles: 4, mode: AddressingMode::AbsoluteY, official: true },
        0x5b => OpCode { code, mnemonic: Mnemonic::SRE, len: 3, cycles: 7, mode: AddressingMode::AbsoluteY, official: false },
        0x5d => OpCode { code, mnemonic: Mnemonic::EOR, len: 3, cycles: 4, mode: AddressingMode::AbsoluteX, official: true },
        0x5e => OpCode { code, mnemonic: Mnemonic::LSR, len: 3, cycles: 7, mode: AddressingMode::AbsoluteX, official: true },
        0x5f => OpCode { code, mnemonic: Mnemonic::SRE, len: 3, cycles: 7, mode: AddressingMode::AbsoluteX, official: false },
        0x60 => OpCode { code, mnemonic: Mnemonic::RTS, len: 1, cycles: 6, mode: AddressingMode::NoneAddressing, official: true },
        0x61 => OpCode { code, mnemonic: Mnemonic::ADC, len: 2, cycles: 6, mode: AddressingMode::IndirectX, official: true },
        0x63 => OpCode { code, mnemonic: Mnemonic::RRA, len: 2, cycles: 8, mode: AddressingMode::IndirectX, official: false },
        0x65 => OpCode { code, mnemonic: Mnemonic::ADC, len: 2, cycles: 3, mode: AddressingMode::ZeroPage, official: true },
        0x66 => OpCode { code, mnemonic: Mnemonic::ROR, len: 2, cycles: 5, mode: AddressingMode::ZeroPage, official: true },
        0x67 => OpCode { code, mnemonic: Mnemonic::RRA, len: 2, cycles: 5, mode: AddressingMode::ZeroPage, official: false },
        0x68 => OpCode { code, mnemonic: Mnemonic::PLA, len: 1, cycles: 4, mode: AddressingMode::NoneAddressing, official: true },
        0x69 => OpCode { code, mnemonic: Mnemonic::ADC, len: 2, cycles: 2, mode: AddressingMode::Immediate, official: true },
        0x6a => OpCode { code, mnemonic: Mnemonic::ROR, len: 1, cycles: 2, mode: AddressingMode::NoneAddressing, official: true },
        0x6b => OpCode { code, mnemonic: Mnemonic::ARR, len: 2, cycles: 2, mode: AddressingMode::Immediate, official: false },
        0x6c => OpCode { code, mnemonic: Mnemonic::JMP, len: 3, cycles: 5, mode: AddressingMode::NoneAddressing, official: true },
        0x6d => OpCode { code, mnemonic: Mnemonic::ADC, len: 3, cycles: 4, mode: AddressingMode::Absolute, official: true },
        0x6e => OpCode { code, mnemonic: Mnemonic::ROR, len: 3, cycles: 6, mode: AddressingMode::Absolute, official: true },
        0x6f => OpCode { code, mnemonic: Mnemonic::RRA, len: 3, cycles: 6, mode: AddressingMode::Absolute, official: false },
        0x70 => OpCode { code, mnemonic: Mnemonic::BVS, len: 2, cycles: 2, mode: AddressingMode::NoneAddressing, official: true },
        0x71 => OpCode { code, mnemonic: Mnemonic::ADC, len: 2, cycles: 5, mode: AddressingMode::IndirectY, official: true },
        0x73 => OpCode { code, mnemonic: Mnemonic::RRA, len: 2, cycles: 8, mode: AddressingMode::IndirectY, official: false },
        0x75 => OpCode { code, mnemonic: Mnemonic::ADC, len: 2, cycles: 4, mode: AddressingMode::ZeroPageX, official: true },
        0x76 => OpCode { code, mnemonic: Mnemonic::ROR, len: 2, cycles: 6, mode: AddressingMode::ZeroPageX, official: true },
        0x77 => OpCode { code, mnemonic: Mnemonic::RRA, len: 2, cycles: 6, mode: AddressingMode::ZeroPageX, official: false },
        0x78 => OpCode { code, mnemonic: Mnemonic::SEI, len: 1, cycles: 2, mode: AddressingMode::NoneAddressing, official: true },
        0x79 => OpCode { code, mnemonic: Mnemonic::ADC, len: 3, cycles: 4, mode: AddressingMode::AbsoluteY, official: true },
        0x7b => OpCode { code, mnemonic: Mnemonic::RRA, len: 3, cycles: 7, mode: AddressingMode::AbsoluteY, official: false },
        0x7d => OpCode { code, mnemonic: Mnemonic::ADC, len: 3, cycles: 4, mode: AddressingMode::AbsoluteX, official: true },
        0x7e => OpCode { code, mnemonic: Mnemonic::ROR, len: 3, cycles: 7, mode: AddressingMode::AbsoluteX, official: true },
        0x7f => OpCode { code, mnemonic: Mnemonic::RRA, len: 3, cycles: 7, mode: AddressingMode::AbsoluteX, official: false },
        0x80 | 0x82 | 0x89 | 0xc2 | 0xe2 => OpCode { code, mnemonic: Mnemonic::NOP, len: 2, cycles: 2, mode: AddressingMode::Immediate, official: false },
        0x81 => OpCode { code, mnemonic: Mnemonic::STA, len: 2, cycles: 6, mode: AddressingMode::IndirectX, official: true },
        0x83 => OpCode { code, mnemonic: Mnemonic::SAX, len: 2, cycles: 6, mode: AddressingMode::IndirectX, official: false },
        0x84 => OpCode { code, mnemonic: Mnemonic::STY, len: 2, cycles: 3, mode: AddressingMode::ZeroPage, official: true },
        0x85 => OpCode { code, mnemonic: Mnemonic::STA, len: 2, cycles: 3, mode: AddressingMode::ZeroPage, official: true },
        0x86 => OpCode { code, mnemonic: Mnemonic::STX, len: 2, cycles: 3, mode: AddressingMode::ZeroPage, official: true },
        0x87 => OpCode { code, mnemonic: Mnemonic::SAX, len: 2, cycles: 3, mode: AddressingMode::ZeroPage, official: false },
        0x88 => OpCode { code, mnemonic: Mnemonic::DEY, len: 1, cycles: 2, mode: AddressingMode::NoneAddressing, official: true },
        0x8a => OpCode { code, mnemonic: Mnemonic::TXA, len: 1, cycles: 2, mode: AddressingMode::NoneAddressing, official: true },
        0x8b => OpCode { code, mnemonic: Mnemonic::XAA, len: 2, cycles: 2, mode: AddressingMode::Immediate, official: false },
        0x8c => OpCode { code, mnemonic: Mnemonic::STY, len: 3, cycles: 4, mode: AddressingMode::Absolute, official: true },
        0x8d => OpCode { code, mnemonic: Mnemonic::STA, len: 3, cycles: 4, mode: AddressingMode::Absolute, official: true },
        0x8e => OpCode { code, mnemonic: Mnemonic::STX, len: 3, cycles: 4, mode: AddressingMode::Absolute, official: true },
        0x8f => OpCode { code, mnemonic: Mnemonic::SAX, len: 3, cycles: 4, mode: AddressingMode::Absolute, official: false },
        0x90 => OpCode { code, mnemonic: Mnemonic::BCC, len: 2, cycles: 2, mode: AddressingMode::NoneAddressing, official: true },
        0x91 => OpCode { code, mnemonic: Mnemonic::STA, len: 2, cycles: 6, mode: AddressingMode::IndirectY, official: true },
        0x93 => OpCode { code, mnemonic: Mnemonic::AHX, len: 2, cycles: 6, mode: AddressingMode::IndirectY, official: false },
        0x94 => OpCode { code, mnemonic: Mnemonic::STY, len: 2, cycles: 4, mode: AddressingMode::ZeroPageX, official: true },
        0x95 => OpCode { code, mnemonic: Mnemonic::STA, len: 2, cycles: 4, mode: AddressingMode::ZeroPageX, official: true },
        0x96 => OpCode { code, mnemonic: Mnemonic::STX, len: 2, cycles: 4, mode: AddressingMode::ZeroPageY, official: true },
        0x97 => OpCode { code, mnemonic: Mnemonic::SAX, len: 2, cycles: 4, mode: AddressingMode::ZeroPageY, official: false },
        0x98 => OpCode { code, mnemonic: Mnemonic::TYA, len: 1, cycles: 2, mode: AddressingMode::NoneAddressing, official: true },
        0x99 => OpCode { code, mnemonic: Mnemonic::STA, len: 3, cycles: 5, mode: AddressingMode::AbsoluteY, official: true },
        0x9a => OpCode { code, mnemonic: Mnemonic::TXS, len: 1, cycles: 2, mode: AddressingMode::NoneAddressing, official: true },
        0x9b => OpCode { code, mnemonic: Mnemonic::TAS, len: 3, cycles: 5, mode: AddressingMode::AbsoluteY, official: false },
        0x9c => OpCode { code, mnemonic: Mnemonic::SHY, len: 3, cycles: 5, mode: AddressingMode::AbsoluteX, official: false },
        0x9d => OpCode { code, mnemonic: Mnemonic::STA, len: 3, cycles: 5, mode: AddressingMode::AbsoluteX, official: true },
        0x9e => OpCode { code, mnemonic: Mnemonic::SHX, len: 3, cycles: 5, mode: AddressingMode::AbsoluteY, official: false },
        0x9f => OpCode { code, mnemonic: Mnemonic::AHX, len: 3, cycles: 5, mode: AddressingMode::AbsoluteY, official: false },
        0xa0 => OpCode { code, mnemonic: Mnemonic::LDY, len: 2, cycles: 2, mode: AddressingMode::Immediate, official: true },
        0xa1 => OpCode { code, mnemonic: Mnemonic::LDA, len: 2, cycles: 6, mode: AddressingMode::IndirectX, official: true },
        0xa2 => OpCode { code, mnemonic: Mnemonic::LDX, len: 2, cycles: 2, mode: AddressingMode::Immediate, official: true },
        0xa3 => OpCode { code, mnemonic: Mnemonic::LAX, len: 2, cycles: 6, mode: AddressingMode::IndirectX, official: false },
        0xa4 => OpCode { code, mnemonic: Mnemonic::LDY, len: 2, cycles: 3, mode: AddressingMode::ZeroPage, official: true },
        0xa5 => OpCode { code, mnemonic: Mnemonic::LDA, len: 2, cycles: 3, mode: AddressingMode::ZeroPage, official: true },
        0xa6 => OpCode { code, mnemonic: Mnemonic::LDX, len: 2, cycles: 3, mode: AddressingMode::ZeroPage, official: true },
        0xa7 => OpCode { code, mnemonic: Mnemonic::LAX, len: 2, cycles: 3, mode: AddressingMode::ZeroPage, official: false },
        0xa8 => OpCode { code, mnemonic: Mnemonic::TAY, len: 1, cycles: 2, mode: AddressingMode::NoneAddressing, official: true },
        0xa9 => OpCode { code, mnemonic: Mnemonic::LDA, len: 2, cycles: 2, mode: AddressingMode::Immediate, official: true },
        0xaa => OpCode { code, mnemonic: Mnemonic::TAX, len: 1, cycles: 2, mode: AddressingMode::NoneAddressing, official: true },
        0xab => OpCode { code, mnemonic: Mnemonic::LXA, len: 2, cycles: 2, mode: AddressingMode::Immediate, official: false },
        0xac => OpCode { code, mnemonic: Mnemonic::LDY, len: 3, cycles: 4, mode: AddressingMode::Absolute, official: true },
        0xad => OpCode { code, mnemonic: Mnemonic::LDA, len: 3, cycles: 4, mode: AddressingMode::Absolute, official: true },
        0xae => OpCode { code, mnemonic: Mnemonic::LDX, len: 3, cycles: 4, mode: AddressingMode::Absolute, official: true },
        0xaf => OpCode { code, mnemonic: Mnemonic::LAX, len: 3, cycles: 4, mode: AddressingMode::Absolute, official: false },
        0xb0 => OpCode { code, mnemonic: Mnemonic::BCS, len: 2, cycles: 2, mode: AddressingMode::NoneAddressing, official: true },
        0xb1 => OpCode { code, mnemonic: Mnemonic::LDA, len: 2, cycles: 5, mode: AddressingMode::IndirectY, official: true },
        0xb3 => OpCode { code, mnemonic: Mnemonic::LAX, len: 2, cycles: 5, mode: AddressingMode::IndirectY, official: false },
        0xb4 => OpCode { code, mnemonic: Mnemonic::LDY, len: 2, cycles: 4, mode: AddressingMode::ZeroPageX, official: true },
        0xb5 => OpCode { code, mnemonic: Mnemonic::LDA, len: 2, cycles: 4, mode: AddressingMode::ZeroPageX, official: true },
        0xb6 => OpCode { code, mnemonic: Mnemonic::LDX, len: 2, cycles: 4, mode: AddressingMode::ZeroPageY, official: true },
        0xb7 => OpCode { code, mnemonic: Mnemonic::LAX, len: 2, cycles: 4, mode: AddressingMode::ZeroPageY, official: false },
        0xb8 => OpCode { code, mnemonic: Mnemonic::CLV, len: 1, cycles: 2, mode: AddressingMode::NoneAddressing, official: true },
        0xb9 => OpCode { code, mnemonic: Mnemonic::LDA, len: 3, cycles: 4, mode: AddressingMode::AbsoluteY, official: true },
        0xba => OpCode { code, mnemonic: Mnemonic::TSX, len: 1, cycles: 2, mode: AddressingMode::NoneAddressing, official: true },
        0xbb => OpCode { code, mnemonic: Mnemonic::LAS, len: 3, cycles: 4, mode: AddressingMode::AbsoluteY, official: false },
        0xbc => OpCode { code, mnemonic: Mnemonic::LDY, len: 3, cycles: 4, mode: AddressingMode::AbsoluteX, official: true },
        0xbd => OpCode { code, mnemonic: Mnemonic::LDA, len: 3, cycles: 4, mode: AddressingMode::AbsoluteX, official: true },
        0xbe => OpCode { code, mnemonic: Mnemonic::LDX, len: 3, cycles: 4, mode: AddressingMode::AbsoluteY, official: true },
        0xbf => OpCode { code, mnemonic: Mnemonic::LAX, len: 3, cycles: 4, mode: AddressingMode::AbsoluteY, official: false },
        0xc0 => OpCode { code, mnemonic: Mnemonic::CPY, len: 2, cycles: 2, mode: AddressingMode::Immediate, official: true },
        0xc1 => OpCode { code, mnemonic: Mnemonic::CMP, len: 2, cycles: 6, mode: AddressingMode::IndirectX, official: true },
        0xc3 => OpCode { code, mnemonic: Mnemonic::DCP, len: 2, cycles: 8, mode: AddressingMode::IndirectX, official: false },
        0xc4 => OpCode { code, mnemonic: Mnemonic::CPY, len: 2, cycles: 3, mode: AddressingMode::ZeroPage, official: true },
        0xc5 => OpCode { code, mnemonic: Mnemonic::CMP, len: 2, cycles: 3, mode: AddressingMode::ZeroPage, official: true },
        0xc6 => OpCode { code, mnemonic: Mnemonic::DEC, len: 2, cycles: 5, mode: AddressingMode::ZeroPage, official: true },
        0xc7 => OpCode { code, mnemonic: Mnemonic::DCP, len: 2, cycles: 5, mode: AddressingMode::ZeroPage, official: false },
        0xc8 => OpCode { code, mnemonic: Mnemonic::INY, len: 1, cycles: 2, mode: AddressingMode::NoneAddressing, official: true },
        0xc9 => OpCode { code, mnemonic: Mnemonic::CMP, len: 2, cycles: 2, mode: AddressingMode::Immediate, official: true },
        0xca => OpCode { code, mnemonic: Mnemonic::DEX, len: 1, cycles: 2, mode: AddressingMode::NoneAddressing, official: true },
        0xcb => OpCode { code, mnemonic: Mnemonic::AXS, len: 2, cycles: 2, mode: AddressingMode::Immediate, official: false },
        0xcc => OpCode { code, mnemonic: Mnemonic::CPY, len: 3, cycles: 4, mode: AddressingMode::Absolute, official: true },
        0xcd => OpCode { code, mnemonic: Mnemonic::CMP, len: 3, cycles: 4, mode: AddressingMode::Absolute, official: true },
        0xce => OpCode { code, mnemonic: Mnemonic::DEC, len: 3, cycles: 6, mode: AddressingMode::Absolute, official: true },
        0xcf => OpCode { code, mnemonic: Mnemonic::DCP, len: 3, cycles: 6, mode: AddressingMode::Absolute, official: false },
        0xd0 => OpCode { code, mnemonic: Mnemonic::BNE, len: 2, cycles: 2, mode: AddressingMode::NoneAddressing, official: true },
        0xd1 => OpCode { code, mnemonic: Mnemonic::CMP, len: 2, cycles: 5, mode: AddressingMode::IndirectY, official: true },
        0xd3 => OpCode { code, mnemonic: Mnemonic::DCP, len: 2, cycles: 8, mode: AddressingMode::IndirectY, official: false },
        0xd5 => OpCode { code, mnemonic: Mnemonic::CMP, len: 2, cycles: 4, mode: AddressingMode::ZeroPageX, official: true },
        0xd6 => OpCode { code, mnemonic: Mnemonic::DEC, len: 2, cycles: 6, mode: AddressingMode::ZeroPageX, official: true },
        0xd7 => OpCode { code, mnemonic: Mnemonic::DCP, len: 2, cycles: 6, mode: AddressingMode::ZeroPageX, official: false },
        0xd8 => OpCode { code, mnemonic: Mnemonic::CLD, len: 1, cycles: 2, mode: AddressingMode::NoneAddressing, official: true },
        0xd9 => OpCode { code, mnemonic: Mnemonic::CMP, len: 3, cycles: 4, mode: AddressingMode::AbsoluteY, official: true },
        0xdb => OpCode { code, mnemonic: Mnemonic::DCP, len: 3, cycles: 7, mode: AddressingMode::AbsoluteY, official: false },
        0xdd => OpCode { code, mnemonic: Mnemonic::CMP, len: 3, cycles: 4, mode: AddressingMode::AbsoluteX, official: true },
        0xde => OpCode { code, mnemonic: Mnemonic::DEC, len: 3, cycles: 7, mode: AddressingMode::AbsoluteX, official: true },
        0xdf => OpCode { code, mnemonic: Mnemonic::DCP, len: 3, cycles: 7, mode: AddressingMode::AbsoluteX, official: false },
        0xe0 => OpCode { code, mnemonic: Mnemonic::CPX, len: 2, cycles: 2, mode: AddressingMode::Immediate, official: true },
        0xe1 => OpCode { code, mnemonic: Mnemonic::SBC, len: 2, cycles: 6, mode: AddressingMode::IndirectX, official: true },
        0xe3 => OpCode { code, mnemonic: Mnemonic::ISB, len: 2, cycles: 8, mode: AddressingMode::IndirectX, official: false },
        0xe4 => OpCode { code, mnemonic: Mnemonic::CPX, len: 2, cycles: 3, mode: AddressingMode::ZeroPage, official: true },
        0xe5 => OpCode { code, mnemonic: Mnemonic::SBC, len: 2, cycles: 3, mode: AddressingMode::ZeroPage, official: true },
        0xe6 => OpCode { code, mnemonic: Mnemonic::INC, len: 2, cycles: 5, mode: AddressingMode::ZeroPage, official: true },
        0xe7 => OpCode { code, mnemonic: Mnemonic::ISB, len: 2, cycles: 5, mode: AddressingMode::ZeroPage, official: false },
        0xe8 => OpCode { code, mnemonic: Mnemonic::INX, len: 1, cycles: 2, mode: AddressingMode::NoneAddressing, official: true },
        0xe9 => OpCode { code, mnemonic: Mnemonic::SBC, len: 2, cycles: 2, mode: AddressingMode::Immediate, official: true },
        0xea => OpCode { code, mnemonic: Mnemonic::NOP, len: 1, cycles: 2, mode: AddressingMode::NoneAddressing, official: true },
        0xeb => OpCode { code, mnemonic: Mnemonic::SBC, len: 2, cycles: 2, mode: AddressingMode::Immediate, official: false },
        0xec => OpCode { code, mnemonic: Mnemonic::CPX, len: 3, cycles: 4, mode: AddressingMode::Absolute, official: true },
        0xed => OpCode { code, mnemonic: Mnemonic::SBC, len: 3, cycles: 4, mode: AddressingMode::Absolute, official: true },
        0xee => OpCode { code, mnemonic: Mnemonic::INC, len: 3, cycles: 6, mode: AddressingMode::Absolute, official: true },
        0xef => OpCode { code, mnemonic: Mnemonic::ISB, len: 3, cycles: 6, mode: AddressingMode::Absolute, official: false },
        0xf0 => OpCode { code, mnemonic: Mnemonic::BEQ, len: 2, cycles: 2, mode: AddressingMode::NoneAddressing, official: true },
        0xf1 => OpCode { code, mnemonic: Mnemonic::SBC, len: 2, cycles: 5, mode: AddressingMode::IndirectY, official: true },
        0xf3 => OpCode { code, mnemonic: Mnemonic::ISB, len: 2, cycles: 8, mode: AddressingMode::IndirectY, official: false },
        0xf5 => OpCode { code, mnemonic: Mnemonic::SBC, len: 2, cycles: 4, mode: AddressingMode::ZeroPageX, official: true },
        0xf6 => OpCode { code, mnemonic: Mnemonic::INC, len: 2, cycles: 6, mode: AddressingMode::ZeroPageX, official: true },
        0xf7 => OpCode { code, mnemonic: Mnemonic::ISB, len: 2, cycles: 6, mode: AddressingMode::ZeroPageX, official: false },
        0xf8 => OpCode { code, mnemonic: Mnemonic::SED, len: 1, cycles: 2, mode: AddressingMode::NoneAddressing, official: true },
        0xf9 => OpCode { code, mnemonic: Mnemonic::SBC, len: 3, cycles: 4, mode: AddressingMode::AbsoluteY, official: true },
        0xfb => OpCode { code, mnemonic: Mnemonic::ISB, len: 3, cycles: 7, mode: AddressingMode::AbsoluteY, official: false },
        0xfd => OpCode { code, mnemonic: Mnemonic::SBC, len: 3, cycles: 4, mode: AddressingMode::AbsoluteX, official: true },
        0xfe => OpCode { code, mnemonic: Mnemonic::INC, len: 3, cycles: 7, mode: AddressingMode::AbsoluteX, official: true },
        0xff => OpCode { code, mnemonic: Mnemonic::ISB, len: 3, cycles: 7, mode: AddressingMode::AbsoluteX, official: false },
    }
}

/// The descriptor table, built once per session and held immutably.
pub struct Assembler {
    pub opcodes: Vec<OpCode>,
}

impl Assembler {
    /// The table holds one entry per opcode byte, at its own index.
    pub open spec fn wf(self) -> bool {
        &&& self.opcodes@.len() == 256
        &&& forall|i: int|
            0 <= i < 256 ==> #[trigger] self.opcodes@[i] == opcode_spec(i as u8)
        &&& forall|i: int| 0 <= i < 256 ==> (#[trigger] self.opcodes@[i]).code == i
        &&& forall|i: int| 0 <= i < 256 ==> 1 <= (#[trigger] self.opcodes@[i]).len <= 3
        &&& forall|i: int| 0 <= i < 256 ==> 1 <= (#[trigger] self.opcodes@[i]).cycles <= 8
    }

    pub fn new() -> (r: Assembler)
        ensures
            r.wf(),
    {
        let mut opcodes: Vec<OpCode> = Vec::new();
        let mut i: usize = 0;
        while i < 256
            invariant
                i <= 256,
                opcodes@.len() == i,
                forall|j: int| 0 <= j < i ==> #[trigger] opcodes@[j] == opcode_spec(j as u8),
                forall|j: int| 0 <= j < i ==> (#[trigger] opcodes@[j]).code == j,
                forall|j: int| 0 <= j < i ==> 1 <= (#[trigger] opcodes@[j]).len <= 3,
                forall|j: int| 0 <= j < i ==> 1 <= (#[trigger] opcodes@[j]).cycles <= 8,
            decreases 256 - i,
        {
            opcodes.push(opcode_entry(i as u8));
            i = i + 1;
        }
        Assembler { opcodes }
    }

    /// The unique descriptor of an opcode byte.
    pub fn lookup(&self, code: u8) -> (r: &OpCode)
        requires
            self.wf(),
        ensures
            *r == opcode_spec(code),
            r.code == code,
            1 <= r.len <= 3,
            1 <= r.cycles <= 8,
    {
        &self.opcodes[code as usize]
    }
}

/// Decoding is a function: the descriptor table holds exactly one entry
/// per distinct opcode byte (the entry at index `i` carries code `i`, so
/// two equal codes name the same entry), and every entry's byte length
/// lies in 1..=3.
pub proof fn lemma_descriptor_table_unique(a: Assembler)
    requires
        a.wf(),
    ensures
        forall|i: int, j: int|
            0 <= i < 256 && 0 <= j < 256 && (#[trigger] a.opcodes@[i]).code == (
            #[trigger] a.opcodes@[j]).code ==> i == j,
        forall|i: int| 0 <= i < 256 ==> 1 <= (#[trigger] a.opcodes@[i]).len <= 3,
{
}

} // verus!

verus! {

impl Assembler {
    #[verifier::rlimit(100)]
    #[verifier::spinoff_prover]
    fn dispatch_r0(&self, cpu: &mut CPU, code: u8) -> (r: Result<StepOutcome, BusFault>)
        requires
            self.wf(),
            old(cpu).wf(),
            code != 0x00,
            0x00 <= code <= 0x1f,
        ensures
            final(cpu).wf(),
            r matches Ok(o) ==> !o.halted,
            r is Ok ==> final(cpu).bus@.cycles == old(
                cpu,
            ).bus@.cycles.wrapping_add(opcode_spec(code).cycles as usize),
            r is Ok && !sets_pc(code) ==> final(cpu).register_pc == old(
                cpu,
            ).register_pc.wrapping_add((opcode_spec(code).len - 1) as u16),
            r matches Ok(o) ==> (interpret_spec(old(cpu).spec_state(), code) matches Ok(e)
                && final(cpu).spec_state() == e.0 && o == e.1),
            r matches Err(f) ==> (interpret_spec(old(cpu).spec_state(), code) matches Err(e)
                && f == e.0 && final(cpu).spec_state() == e.1),
    {
        broadcast use crate::bus::lemma_bus_read_keeps_cycles;
        broadcast use crate::bus::lemma_bus_write_keeps_cycles;
        broadcast use crate::bus::lemma_bus_read16_keeps_cycles;

        let pc_state = cpu.register_pc;
        let opcode = self.lookup(code);

        match code {
            0x0a => {
                cpu.asl_accumulator();
            },
            0x06 | 0x16 | 0x0e | 0x1e => {
                cpu.asl(opcode.mode)?;
            },
            0x10 => {
                cpu.bpl();
            },
            0x18 => {
                cpu.clc();
            },
            0x09 | 0x05 | 0x15 | 0x0d | 0x1d | 0x19 | 0x01 | 0x11 => {
                cpu.ora(opcode.mode);
            },
            0x08 => {
                cpu.php();
            },
            0x07 | 0x17 | 0x0f | 0x1f | 0x1b | 0x03 | 0x13 => {
                cpu.slo(opcode.mode)?;
            },
            0x0b => {
                cpu.anc(opcode.mode);
            },
            0x04 | 0x14 | 0x0c | 0x1c => {
                cpu.nop_read(opcode.mode);
            },
            0x02 | 0x12 | 0x1a => {
                // implied no-operation
            },
            _ => {
                // unreachable under the range bound on `code`
            },
        }

        let frame = cpu.update_pc(opcode, pc_state);
        Ok(StepOutcome { halted: false, frame })
    }

    #[verifier::rlimit(100)]
    #[verifier::spinoff_prover]
    fn dispatch_r1(&self, cpu: &mut CPU, code: u8) -> (r: Result<StepOutcome, BusFault>)
        requires
            self.wf(),
            old(cpu).wf(),
            0x20 <= code <= 0x3f,
        ensures
            final(cpu).wf(),
            r matches Ok(o) ==> !o.halted,
            r is Ok ==> final(cpu).bus@.cycles == old(
                cpu,
            ).bus@.cycles.wrapping_add(opcode_spec(code).cycles as usize),
            r is Ok && !sets_pc(code) ==> final(cpu).register_pc == old(
                cpu,
            ).register_pc.wrapping_add((opcode_spec(code).len - 1) as u16),
            r matches Ok(o) ==> (interpret_spec(old(cpu).spec_state(), code) matches Ok(e)
                && final(cpu).spec_state() == e.0 && o == e.1),
            r matches Err(f) ==> (interpret_spec(old(cpu).spec_state(), code) matches Err(e)
                && f == e.0 && final(cpu).spec_state() == e.1),
    {
        broadcast use crate::bus::lemma_bus_read_keeps_cycles;
        broadcast use crate::bus::lemma_bus_write_keeps_cycles;
        broadcast use crate::bus::lemma_bus_read16_keeps_cycles;

        let pc_state = cpu.register_pc;
        let opcode = self.lookup(code);

        match code {
            0x29 | 0x25 | 0x35 | 0x2d | 0x3d | 0x39 | 0x21 | 0x31 => {
                cpu.and(opcode.mode);
            },
            0x24 | 0x2c => {
                cpu.bit(opcode.mode);
            },
            0x30 => {
                cpu.bmi();
            },
            0x20 => {
                cpu.jsr();
            },
            0x28 => {
                cpu.plp();
            },
            0x2a => {
                cpu.rol_accumulator();
            },
            0x26 | 0x36 | 0x2e | 0x3e => {
                cpu.rol(opcode.mode)?;
            },
            0x38 => {
                cpu.sec();
            },
            0x27 | 0x37 | 0x2f | 0x3f | 0x3b | 0x33 | 0x23 => {
                cpu.rla(opcode.mode)?;
            },
            0x2b => {
                cpu.anc(opcode.mode);
            },
            0x34 | 0x3c => {
                cpu.nop_read(opcode.mode);
            },
            0x22 | 0x32 | 0x3a => {
                // implied no-operation
            },
            _ => {
                // unreachable under the range bound on `code`
            },
        }

        let frame = cpu.update_pc(opcode, pc_state);
        Ok(StepOutcome { halted: false, frame })
    }

    #[verifier::rlimit(100)]
    #[verifier::spinoff_prover]
    fn dispatch_r2(&self, cpu: &mut CPU, code: u8) -> (r: Result<StepOutcome, BusFault>)
        requires
            self.wf(),
            old(cpu).wf(),
            0x40 <= code <= 0x5f,
        ensures
            final(cpu).wf(),
            r matches Ok(o) ==> !o.halted,
            r is Ok ==> final(cpu).bus@.cycles == old(
                cpu,
            ).bus@.cycles.wrapping_add(opcode_spec(code).cycles as usize),
            r is Ok && !sets_pc(code) ==> final(cpu).register_pc == old(
                cpu,
            ).register_pc.wrapping_add((opcode_spec(code).len - 1) as u16),
            r matches Ok(o) ==> (interpret_spec(old(cpu).spec_state(), code) matches Ok(e)
                && final(cpu).spec_state() == e.0 && o == e.1),
            r matches Err(f) ==> (interpret_spec(old(cpu).spec_state(), code) matches Err(e)
                && f == e.0 && final(cpu).spec_state() == e.1),
    {
        broadcast use crate::bus::lemma_bus_read_keeps_cycles;
        broadcast use crate::bus::lemma_bus_write_keeps_cycles;
        broadcast use crate::bus::lemma_bus_read16_keeps_cycles;

        let pc_state = cpu.register_pc;
        let opcode = self.lookup(code);

        match code {
            0x50 => {
                cpu.bvc();
            },
            0x58 => {
                cpu.cli();
            },
            0x49 | 0x45 | 0x55 | 0x4d | 0x5d | 0x59 | 0x41 | 0x51 => {
                cpu.eor(opcode.mode);
            },
            0x4c => {
                cpu.jmp_absolute();
            },
            0x4a => {
                cpu.lsr_accumulator();
            },
            0x46 | 0x56 | 0x4e | 0x5e => {
                cpu.lsr(opcode.mode)?;
            },
            0x48 => {
                cpu.pha();
            },
            0x40 => {
                cpu.rti();
            },
            0x47 | 0x57 | 0x4f | 0x5f | 0x5b | 0x43 | 0x53 => {
                cpu.sre(opcode.mode)?;
            },
            0x4b => {
                cpu.alr(opcode.mode);
            },
            0x44 | 0x54 | 0x5c => {
                cpu.nop_read(opcode.mode);
            },
            0x42 | 0x52 | 0x5a => {
                // implied no-operation
            },
            _ => {
                // unreachable under the range bound on `code`
            },
        }

        let frame = cpu.update_pc(opcode, pc_state);
        Ok(StepOutcome { halted: false, frame })
    }

    #[verifier::rlimit(100)]
    #[verifier::spinoff_prover]
    fn dispatch_r3(&self, cpu: &mut CPU, code: u8) -> (r: Result<StepOutcome, BusFault>)
        requires
            self.wf(),
            old(cpu).wf(),
            0x60 <= code <= 0x7f,
        ensures
            final(cpu).wf(),
            r matches Ok(o) ==> !o.halted,
            r is Ok ==> final(cpu).bus@.cycles == old(
                cpu,
            ).bus@.cycles.wrapping_add(opcode_spec(code).cycles as usize),
            r is Ok && !sets_pc(code) ==> final(cpu).register_pc == old(
                cpu,
            ).register_pc.wrapping_add((opcode_spec(code).len - 1) as u16),
            r matches Ok(o) ==> (interpret_spec(old(cpu).spec_state(), code) matches Ok(e)
                && final(cpu).spec_state() == e.0 && o == e.1),
            r matches Err(f) ==> (interpret_spec(old(cpu).spec_state(), code) matches Err(e)
                && f == e.0 && final(cpu).spec_state() == e.1),
    {
        broadcast use crate::bus::lemma_bus_read_keeps_cycles;
        broadcast use crate::bus::lemma_bus_write_keeps_cycles;
        broadcast use crate::bus::lemma_bus_read16_keeps_cycles;

        let pc_state = cpu.register_pc;
        let opcode = self.lookup(code);

        match code {
            0x69 | 0x65 | 0x75 | 0x6d | 0x7d | 0x79 | 0x61 | 0x71 => {
                cpu.adc(opcode.mode);
            },
            0x70 => {
                cpu.bvs();
            },
            0x6c => {
                cpu.jmp_indirect();
            },
            0x68 => {
                cpu.pla();
            },
            0x6a => {
                cpu.ror_accumulator();
            },
            0x66 | 0x76 | 0x6e | 0x7e => {
                cpu.ror(opcode.mode)?;
            },
            0x60 => {
                cpu.rts();
            },
            0x78 => {
                cpu.sei();
            },
            0x6b => {
                cpu.arr(opcode.mode);
            },
            0x64 | 0x74 | 0x7c => {
                cpu.nop_read(opcode.mode);
            },
            0x67 | 0x77 | 0x6f | 0x7f | 0x7b | 0x63 | 0x73 => {
                cpu.rra(opcode.mode)?;
            },
            0x62 | 0x72 | 0x7a => {
                // implied no-operation
            },
            _ => {
                // unreachable under the range bound on `code`
            },
        }

        let frame = cpu.update_pc(opcode, pc_state);
        Ok(StepOutcome { halted: false, frame })
    }

    #[verifier::rlimit(100)]
    #[verifier::spinoff_prover]
    fn dispatch_r4(&self, cpu: &mut CPU, code: u8) -> (r: Result<StepOutcome, BusFault>)
        requires
            self.wf(),
            old(cpu).wf(),
            0x80 <= code <= 0x9f,
        ensures
            final(cpu).wf(),
            r matches Ok(o) ==> !o.halted,
            r is Ok ==> final(cpu).bus@.cycles == old(
                cpu,
            ).bus@.cycles.wrapping_add(opcode_spec(code).cycles as usize),
            r is Ok && !sets_pc(code) ==> final(cpu).register_pc == old(
                cpu,
            ).register_pc.wrapping_add((opcode_spec(code).len - 1) as u16),
            r matches Ok(o) ==> (interpret_spec(old(cpu).spec_state(), code) matches Ok(e)
                && final(cpu).spec_state() == e.0 && o == e.1),
            r matches Err(f) ==> (interpret_spec(old(cpu).spec_state(), code) matches Err(e)
                && f == e.0 && final(cpu).spec_state() == e.1),
    {
        broadcast use crate::bus::lemma_bus_read_keeps_cycles;
        broadcast use crate::bus::lemma_bus_write_keeps_cycles;
        broadcast use crate::bus::lemma_bus_read16_keeps_cycles;

        let pc_state = cpu.register_pc;
        let opcode = self.lookup(code);

        match code {
            0x90 => {
                cpu.bcc();
            },
            0x88 => {
                cpu.dey();
            },
            0x85 | 0x95 | 0x8d | 0x9d | 0x99 | 0x81 | 0x91 => {
                cpu.sta(opcode.mode)?;
            },
            0x86 | 0x96 | 0x8e => {
                cpu.stx(opcode.mode)?;
            },
            0x84 | 0x94 | 0x8c => {
                cpu.sty(opcode.mode)?;
            },
            0x8a => {
                cpu.txa();
            },
            0x9a => {
                cpu.txs();
            },
            0x98 => {
                cpu.tya();
            },
            0x80 | 0x82 | 0x89 => {
                // immediate no-operation: the operand byte is skipped
            },
            0x92 => {
                // implied no-operation
            },
            0x87 | 0x97 | 0x8f | 0x83 => {
                cpu.sax(opcode.mode)?;
            },
            0x8b => {
                cpu.xaa(opcode.mode);
            },
            0x9b => {
                cpu.tas()?;
            },
            0x93 => {
                cpu.axa_indirect()?;
            },
            0x9f => {
                cpu.axa_absolute()?;
            },
            0x9e => {
                cpu.sxa()?;
            },
            0x9c => {
                cpu.sya()?;
            },
            _ => {
                // unreachable under the range bound on `code`
            },
        }

        let frame = cpu.update_pc(opcode, pc_state);
        Ok(StepOutcome { halted: false, frame })
    }

    #[verifier::rlimit(100)]
    #[verifier::spinoff_prover]
    fn dispatch_r5(&self, cpu: &mut CPU, code: u8) -> (r: Result<StepOutcome, BusFault>)
        requires
            self.wf(),
            old(cpu).wf(),
            0xa0 <= code <= 0xbf,
        ensures
            final(cpu).wf(),
            r matches Ok(o) ==> !o.halted,
            r is Ok ==> final(cpu).bus@.cycles == old(
                cpu,
            ).bus@.cycles.wrapping_add(opcode_spec(code).cycles as usize),
            r is Ok && !sets_pc(code) ==> final(cpu).register_pc == old(
                cpu,
            ).register_pc.wrapping_add((opcode_spec(code).len - 1) as u16),
            r matches Ok(o) ==> (interpret_spec(old(cpu).spec_state(), code) matches Ok(e)
                && final(cpu).spec_state() == e.0 && o == e.1),
            r matches Err(f) ==> (interpret_spec(old(cpu).spec_state(), code) matches Err(e)
                && f == e.0 && final(cpu).spec_state() == e.1),
    {
        broadcast use crate::bus::lemma_bus_read_keeps_cycles;
        broadcast use crate::bus::lemma_bus_write_keeps_cycles;
        broadcast use crate::bus::lemma_bus_read16_keeps_cycles;

        let pc_state = cpu.register_pc;
        let opcode = self.lookup(code);

        match code {
            0xb0 => {
                cpu.bcs();
            },
            0xb8 => {
                cpu.clv();
            },
            0xa9 | 0xa5 | 0xb5 | 0xad | 0xbd | 0xb9 | 0xa1 | 0xb1 => {
                cpu.lda(opcode.mode);
            },
            0xa2 | 0xa6 | 0xb6 | 0xae | 0xbe => {
                cpu.ldx(opcode.mode);
            },
            0xa0 | 0xa4 | 0xb4 | 0xac | 0xbc => {
                cpu.ldy(opcode.mode);
            },
            0xaa => {
                cpu.tax();
            },
            0xa8 => {
                cpu.tay();
            },
            0xba => {
                cpu.tsx();
            },
            0xb2 => {
                // implied no-operation
            },
            0xa7 | 0xb7 | 0xaf | 0xbf | 0xa3 | 0xb3 => {
                cpu.lax(opcode.mode);
            },
            0xab => {
                cpu.lxa(opcode.mode);
            },
            0xbb => {
                cpu.las(opcode.mode);
            },
            _ => {
                // unreachable under the range bound on `code`
            },
        }

        let frame = cpu.update_pc(opcode, pc_state);
        Ok(StepOutcome { halted: false, frame })
    }

    #[verifier::rlimit(100)]
    #[verifier::spinoff_prover]
    fn dispatch_r6(&self, cpu: &mut CPU, code: u8) -> (r: Result<StepOutcome, BusFault>)
        requires
            self.wf(),
            old(cpu).wf(),
            0xc0 <= code <= 0xdf,
        ensures
            final(cpu).wf(),
            r matches Ok(o) ==> !o.halted,
            r is Ok ==> final(cpu).bus@.cycles == old(
                cpu,
            ).bus@.cycles.wrapping_add(opcode_spec(code).cycles as usize),
            r is Ok && !sets_pc(code) ==> final(cpu).register_pc == old(
                cpu,
            ).register_pc.wrapping_add((opcode_spec(code).len - 1) as u16),
            r matches Ok(o) ==> (interpret_spec(old(cpu).spec_state(), code) matches Ok(e)
                && final(cpu).spec_state() == e.0 && o == e.1),
            r matches Err(f) ==> (interpret_spec(old(cpu).spec_state(), code) matches Err(e)
                && f == e.0 && final(cpu).spec_state() == e.1),
    {
        broadcast use crate::bus::lemma_bus_read_keeps_cycles;
        broadcast use crate::bus::lemma_bus_write_keeps_cycles;
        broadcast use crate::bus::lemma_bus_read16_keeps_cycles;

        let pc_state = cpu.register_pc;
        let opcode = self.lookup(code);

        match code {
            0xd0 => {
                cpu.bne();
            },
            0xd8 => {
                cpu.cld();
            },
            0xc9 | 0xc5 | 0xd5 | 0xcd | 0xdd | 0xd9 | 0xc1 | 0xd1 => {
                cpu.cmp(opcode.mode);
            },
            0xc0 | 0xc4 | 0xcc => {
                cpu.cpy(opcode.mode);
            },
            0xc6 | 0xd6 | 0xce | 0xde => {
                cpu.dec(opcode.mode)?;
            },
            0xca => {
                cpu.dex();
            },
            0xc8 => {
                cpu.iny();
            },
            0xc7 | 0xd7 | 0xcf | 0xdf | 0xdb | 0xd3 | 0xc3 => {
                cpu.dcp(opcode.mode)?;
            },
            0xc2 => {
                // immediate no-operation: the operand byte is skipped
            },
            0xcb => {
                cpu.axs(opcode.mode);
            },
            0xd4 | 0xdc => {
                cpu.nop_read(opcode.mode);
            },
            0xd2 | 0xda => {
                // implied no-operation
            },
            _ => {
                // unreachable under the range bound on `code`
            },
        }

        let frame = cpu.update_pc(opcode, pc_state);
        Ok(StepOutcome { halted: false, frame })
    }

    #[verifier::rlimit(100)]
    #[verifier::spinoff_prover]
    fn dispatch_r7(&self, cpu: &mut CPU, code: u8) -> (r: Result<StepOutcome, BusFault>)
        requires
            self.wf(),
            old(cpu).wf(),
            0xe0 <= code <= 0xff,
        ensures
            final(cpu).wf(),
            r matches Ok(o) ==> !o.halted,
            r is Ok ==> final(cpu).bus@.cycles == old(
                cpu,
            ).bus@.cycles.wrapping_add(opcode_spec(code).cycles as usize),
            r is Ok && !sets_pc(code) ==> final(cpu).register_pc == old(
                cpu,
            ).register_pc.wrapping_add((opcode_spec(code).len - 1) as u16),
            r matches Ok(o) ==> (interpret_spec(old(cpu).spec_state(), code) matches Ok(e)
                && final(cpu).spec_state() == e.0 && o == e.1),
            r matches Err(f) ==> (interpret_spec(old(cpu).spec_state(), code) matches Err(e)
                && f == e.0 && final(cpu).spec_state() == e.1),
    {
        broadcast use crate::bus::lemma_bus_read_keeps_cycles;
        broadcast use crate::bus::lemma_bus_write_keeps_cycles;
        broadcast use crate::bus::lemma_bus_read16_keeps_cycles;

        let pc_state = cpu.register_pc;
        let opcode = self.lookup(code);

        match code {
            0xf0 => {
                cpu.beq();
            },
            0xe0 | 0xe4 | 0xec => {
                cpu.cpx(opcode.mode);
            },
            0xe6 | 0xf6 | 0xee | 0xfe => {
                cpu.inc(opcode.mode)?;
            },
            0xe8 => {
                cpu.inx();
            },
            0xea => {
                // official no-operation
            },
            0xe9 | 0xe5 | 0xf5 | 0xed | 0xfd | 0xf9 | 0xe1 | 0xf1 => {
                cpu.sbc(opcode.mode);
            },
            0xf8 => {
                cpu.sed();
            },
            0xe2 => {
                // immediate no-operation: the operand byte is skipped
            },
            0xeb => {
                cpu.unofficial_sbc(opcode.mode);
            },
            0xf4 | 0xfc => {
                cpu.nop_read(opcode.mode);
            },
            0xe7 | 0xf7 | 0xef | 0xff | 0xfb | 0xe3 | 0xf3 => {
                cpu.isb(opcode.mode)?;
            },
            0xf2 | 0xfa => {
                // implied no-operation
            },
            _ => {
                // unreachable under the range bound on `code`
            },
        }

        let frame = cpu.update_pc(opcode, pc_state);
        Ok(StepOutcome { halted: false, frame })
    }

    /// Executes one decoded instruction on the processor: dispatches to
    /// the opcode's handler, spends the instruction's base cycles, and
    /// advances the counter past the operand bytes unless the handler
    /// moved it. The force-break opcode ends the program immediately,
    /// spending nothing. A handler's refused write surfaces as the fault.
    /// The whole effect, opcode by opcode, is `interpret_spec`.
    pub fn interpret(&self, cpu: &mut CPU, code: u8) -> (r: Result<StepOutcome, BusFault>)
        requires
            self.wf(),
            old(cpu).wf(),
        ensures
            final(cpu).wf(),
            code == 0x00 ==> (*final(cpu) == *old(cpu) && r == Result::<StepOutcome,
            BusFault>::Ok(StepOutcome { halted: true, frame: false })),
            code != 0x00 ==> (r matches Ok(o) ==> !o.halted),
            r is Ok && code != 0x00 ==> final(cpu).bus@.cycles == old(
                cpu,
            ).bus@.cycles.wrapping_add(opcode_spec(code).cycles as usize),
            r is Ok && code != 0x00 && !sets_pc(code) ==> final(cpu).register_pc == old(
                cpu,
            ).register_pc.wrapping_add((opcode_spec(code).len - 1) as u16),
            r matches Ok(o) ==> (interpret_spec(old(cpu).spec_state(), code) matches Ok(e)
                && final(cpu).spec_state() == e.0 && o == e.1),
            r matches Err(f) ==> (interpret_spec(old(cpu).spec_state(), code) matches Err(e)
                && f == e.0 && final(cpu).spec_state() == e.1),
    {
        if code == 0x00 {
            Ok(StepOutcome { halted: true, frame: false })
        }
        else if code <= 0x1f {
            self.dispatch_r0(cpu, code)
        }
        else if code <= 0x3f {
            self.dispatch_r1(cpu, code)
        }
        else if code <= 0x5f {
            self.dispatch_r2(cpu, code)
        }
        else if code <= 0x7f {
            self.dispatch_r3(cpu, code)
        }
        else if code <= 0x9f {
            self.dispatch_r4(cpu, code)
        }
        else if code <= 0xbf {
            self.dispatch_r5(cpu, code)
        }
        else if code <= 0xdf {
            self.dispatch_r6(cpu, code)
        }
        else {
            self.dispatch_r7(cpu, code)
        }
    }
}

} // verus!

verus! {

/// The shared tail of every instruction: the base cycles are spent and,
/// when the handler left the counter where it stood, the counter advances
/// past the operand bytes. The outcome reports a frame completed by the
/// cycles.
pub open spec fn epilogue(s: CpuState, pc_before: u16, code: u8) -> (CpuState, StepOutcome) {
    let t = bus_tick(s.bus, opcode_spec(code).cycles);
    let pc2 = if pc_before == s.pc {
        s.pc.wrapping_add((opcode_spec(code).len - 1) as u16)
    } else {
        s.pc
    };
    (CpuState { bus: t.0, pc: pc2, ..s }, StepOutcome { halted: false, frame: t.1 })
}

/// The effect of executing one instruction from a machine state: for each
/// opcode byte, the operation the descriptor table assigns to it, spelled
/// out over the bus model. A refused write yields the fault together with
/// the state at the moment of refusal.
pub open spec fn interpret_spec(s: CpuState, code: u8) -> Result<
    (CpuState, StepOutcome),
    (BusFault, CpuState),
> {
    match code {
        0x00 => Ok((s, StepOutcome { halted: true, frame: false })),
        0x69 | 0x65 | 0x75 | 0x6d | 0x7d | 0x79 | 0x61 | 0x71 => {
            let r1 = resolve_op(s.bus, s.x, s.y, s.pc, opcode_spec(code).mode);
            let rd = bus_read(r1.0, r1.1);
            let e = adc_spec(s.a, rd.1, s.p);
            let after = CpuState { a: e.0, p: e.1, bus: rd.0, ..s };
            Ok(epilogue(after, s.pc, code))
        },
        0x29 | 0x25 | 0x35 | 0x2d | 0x3d | 0x39 | 0x21 | 0x31 => {
            let r1 = resolve_op(s.bus, s.x, s.y, s.pc, opcode_spec(code).mode);
            let rd = bus_read(r1.0, r1.1);
            let v = rd.1 & s.a;
            let after = CpuState { a: v, p: zn_update(s.p, v), bus: rd.0, ..s };
            Ok(epilogue(after, s.pc, code))
        },
        0x49 | 0x45 | 0x55 | 0x4d | 0x5d | 0x59 | 0x41 | 0x51 => {
            let r1 = resolve_op(s.bus, s.x, s.y, s.pc, opcode_spec(code).mode);
            let rd = bus_read(r1.0, r1.1);
            let v = rd.1 ^ s.a;
            let after = CpuState { a: v, p: zn_update(s.p, v), bus: rd.0, ..s };
            Ok(epilogue(after, s.pc, code))
        },
        0x09 | 0x05 | 0x15 | 0x0d | 0x1d | 0x19 | 0x01 | 0x11 => {
            let r1 = resolve_op(s.bus, s.x, s.y, s.pc, opcode_spec(code).mode);
            let rd = bus_read(r1.0, r1.1);
            let v = rd.1 | s.a;
            let after = CpuState { a: v, p: zn_update(s.p, v), bus: rd.0, ..s };
            Ok(epilogue(after, s.pc, code))
        },
        0xa9 | 0xa5 | 0xb5 | 0xad | 0xbd | 0xb9 | 0xa1 | 0xb1 => {
            let r1 = resolve_op(s.bus, s.x, s.y, s.pc, opcode_spec(code).mode);
            let rd = bus_read(r1.0, r1.1);
            let after = CpuState { a: rd.1, p: zn_update(s.p, rd.1), bus: rd.0, ..s };
            Ok(epilogue(after, s.pc, code))
        },
        0xa2 | 0xa6 | 0xb6 | 0xae | 0xbe => {
            let r1 = resolve_op(s.bus, s.x, s.y, s.pc, opcode_spec(code).mode);
            let rd = bus_read(r1.0, r1.1);
            let after = CpuState { x: rd.1, p: zn_update(s.p, rd.1), bus: rd.0, ..s };
            Ok(epilogue(after, s.pc, code))
        },
        0xa0 | 0xa4 | 0xb4 | 0xac | 0xbc => {
            let r1 = resolve_op(s.bus, s.x, s.y, s.pc, opcode_spec(code).mode);
            let rd = bus_read(r1.0, r1.1);
            let after = CpuState { y: rd.1, p: zn_update(s.p, rd.1), bus: rd.0, ..s };
            Ok(epilogue(after, s.pc, code))
        },
        0xc9 | 0xc5 | 0xd5 | 0xcd | 0xdd | 0xd9 | 0xc1 | 0xd1 => {
            let r1 = resolve_op(s.bus, s.x, s.y, s.pc, opcode_spec(code).mode);
            let rd = bus_read(r1.0, r1.1);
            let after = CpuState { p: compare_spec(s.p, rd.1, s.a), bus: rd.0, ..s };
            Ok(epilogue(after, s.pc, code))
        },
        0xe0 | 0xe4 | 0xec => {
            let r1 = resolve_op(s.bus, s.x, s.y, s.pc, opcode_spec(code).mode);
            let rd = bus_read(r1.0, r1.1);
            let after = CpuState { p: compare_spec(s.p, rd.1, s.x), bus: rd.0, ..s };
            Ok(epilogue(after, s.pc, code))
        },
        0xc0 | 0xc4 | 0xcc => {
            let r1 = resolve_op(s.bus, s.x, s.y, s.pc, opcode_spec(code).mode);
            let rd = bus_read(r1.0, r1.1);
            let after = CpuState { p: compare_spec(s.p, rd.1, s.y), bus: rd.0, ..s };
            Ok(epilogue(after, s.pc, code))
        },
        0xe9 | 0xe5 | 0xf5 | 0xed | 0xfd | 0xf9 | 0xe1 | 0xf1 | 0xeb => {
            let r1 = resolve_op(s.bus, s.x, s.y, s.pc, opcode_spec(code).mode);
            let rd = bus_read(r1.0, r1.1);
            let e = sbc_spec(s.a, rd.1, s.p);
            let after = CpuState { a: e.0, p: e.1, bus: rd.0, ..s };
            Ok(epilogue(after, s.pc, code))
        },
        0x24 | 0x2c => {
            let r1 = resolve_op(s.bus, s.x, s.y, s.pc, opcode_spec(code).mode);
            let rd = bus_read(r1.0, r1.1);
            let after = CpuState {
                p: set_bit(
                    set_bit(set_bit(s.p, ZERO, s.a & rd.1 == 0), NEGATIVE, rd.1 & 0x80 != 0),
                    OVERFLOW,
                    rd.1 & 0x40 != 0,
                ),
                bus: rd.0,
                ..s
            };
            Ok(epilogue(after, s.pc, code))
        },
        0xa7 | 0xb7 | 0xaf | 0xbf | 0xa3 | 0xb3 => {
            let r1 = resolve_op(s.bus, s.x, s.y, s.pc, opcode_spec(code).mode);
            let rd = bus_read(r1.0, r1.1);
            let after = CpuState { a: rd.1, x: rd.1, p: zn_update(s.p, rd.1), bus: rd.0, ..s };
            Ok(epilogue(after, s.pc, code))
        },
        0x0b | 0x2b => {
            let r1 = resolve_op(s.bus, s.x, s.y, s.pc, opcode_spec(code).mode);
            let rd = bus_read(r1.0, r1.1);
            let v = rd.1 & s.a;
            let p1 = zn_update(s.p, v);
            let after = CpuState { a: v, p: set_bit(p1, CARRY, p1 & NEGATIVE != 0), bus: rd.0, ..s };
            Ok(epilogue(after, s.pc, code))
        },
        0x4b => {
            let r1 = resolve_op(s.bus, s.x, s.y, s.pc, opcode_spec(code).mode);
            let rd = bus_read(r1.0, r1.1);
            let v = rd.1 & s.a;
            let p1 = zn_update(s.p, v);
            let after = CpuState {
                a: v >> 1,
                p: zn_update(set_bit(p1, CARRY, v & 1 == 1), v >> 1),
                bus: rd.0,
                ..s
            };
            Ok(epilogue(after, s.pc, code))
        },
        0x6b => {
            let r1 = resolve_op(s.bus, s.x, s.y, s.pc, opcode_spec(code).mode);
            let rd = bus_read(r1.0, r1.1);
            let v = rd.1 & s.a;
            let p1 = zn_update(s.p, v);
            let nv = if p1 & CARRY != 0 {
                (v >> 1) | 0x80u8
            } else {
                v >> 1
            };
            let p2 = zn_update(set_bit(p1, CARRY, v & 1 == 1), nv);
            let bit_5 = (nv >> 5) & 1;
            let bit_6 = (nv >> 6) & 1;
            let p4 = set_bit(set_bit(p2, CARRY, bit_6 == 1), OVERFLOW, bit_5 ^ bit_6 == 1);
            let after = CpuState { a: nv, p: zn_update(p4, nv), bus: rd.0, ..s };
            Ok(epilogue(after, s.pc, code))
        },
        0xcb => {
            let r1 = resolve_op(s.bus, s.x, s.y, s.pc, opcode_spec(code).mode);
            let rd = bus_read(r1.0, r1.1);
            let x_and_a = s.x & s.a;
            let result = x_and_a.wrapping_sub(rd.1);
            let after = CpuState {
                x: result,
                p: zn_update(set_bit(s.p, CARRY, rd.1 <= x_and_a), result),
                bus: rd.0,
                ..s
            };
            Ok(epilogue(after, s.pc, code))
        },
        0xab => {
            let r1 = resolve_op(s.bus, s.x, s.y, s.pc, opcode_spec(code).mode);
            let rd = bus_read(r1.0, r1.1);
            let after = CpuState { a: rd.1, x: rd.1, p: zn_update(zn_update(s.p, rd.1), rd.1), bus: rd.0, ..s };
            Ok(epilogue(after, s.pc, code))
        },
        0x8b => {
            let r1 = resolve_op(s.bus, s.x, s.y, s.pc, opcode_spec(code).mode);
            let rd = bus_read(r1.0, r1.1);
            let after = CpuState { a: rd.1 & s.x, p: zn_update(zn_update(s.p, s.x), rd.1 & s.x), bus: rd.0, ..s };
            Ok(epilogue(after, s.pc, code))
        },
        0xbb => {
            let r1 = resolve_op(s.bus, s.x, s.y, s.pc, opcode_spec(code).mode);
            let rd = bus_read(r1.0, r1.1);
            let v = rd.1 & s.sp;
            let after = CpuState { a: v, x: v, sp: v, p: zn_update(s.p, v), bus: rd.0, ..s };
            Ok(epilogue(after, s.pc, code))
        },
        0x04 | 0x44 | 0x64 | 0x14 | 0x34 | 0x54 | 0x74 | 0xd4 | 0xf4 | 0x0c | 0x1c | 0x3c | 0x5c | 0x7c | 0xdc | 0xfc => {
            let r1 = resolve_op(s.bus, s.x, s.y, s.pc, opcode_spec(code).mode);
            let rd = bus_read(r1.0, r1.1);
            let after = CpuState { bus: rd.0, ..s };
            Ok(epilogue(after, s.pc, code))
        },
        0x06 | 0x16 | 0x0e | 0x1e => {
            let r1 = resolve_op(s.bus, s.x, s.y, s.pc, opcode_spec(code).mode);
            let rd = bus_read(r1.0, r1.1);
            let nv = rd.1 << 1;
            let pnew = zn_update(set_bit(s.p, CARRY, rd.1 & 0x80 != 0), nv);
            if writable(r1.1) {
                let after = CpuState { bus: bus_write(rd.0, r1.1, nv), p: pnew, ..s };
                Ok(epilogue(after, s.pc, code))
            } else {
                Err((write_fault(r1.1), CpuState { bus: rd.0, ..s }))
            }
        },
        0x46 | 0x56 | 0x4e | 0x5e => {
            let r1 = resolve_op(s.bus, s.x, s.y, s.pc, opcode_spec(code).mode);
            let rd = bus_read(r1.0, r1.1);
            let nv = rd.1 >> 1;
            let pnew = zn_update(set_bit(s.p, CARRY, rd.1 & 1 == 1), nv);
            if writable(r1.1) {
                let after = CpuState { bus: bus_write(rd.0, r1.1, nv), p: pnew, ..s };
                Ok(epilogue(after, s.pc, code))
            } else {
                Err((write_fault(r1.1), CpuState { bus: rd.0, ..s }))
            }
        },
        0x26 | 0x36 | 0x2e | 0x3e => {
            let r1 = resolve_op(s.bus, s.x, s.y, s.pc, opcode_spec(code).mode);
            let rd = bus_read(r1.0, r1.1);
            let nv = if s.p & CARRY != 0 {
                (rd.1 << 1) | 1u8
            } else {
                rd.1 << 1
            };
            let pnew = zn_update(set_bit(s.p, CARRY, rd.1 & 0x80 != 0), nv);
            if writable(r1.1) {
                let after = CpuState { bus: bus_write(rd.0, r1.1, nv), p: pnew, ..s };
                Ok(epilogue(after, s.pc, code))
            } else {
                Err((write_fault(r1.1), CpuState { bus: rd.0, ..s }))
            }
        },
        0x66 | 0x76 | 0x6e | 0x7e => {
            let r1 = resolve_op(s.bus, s.x, s.y, s.pc, opcode_spec(code).mode);
            let rd = bus_read(r1.0, r1.1);
            let nv = if s.p & CARRY != 0 {
                (rd.1 >> 1) | 0x80u8
            } else {
                rd.1 >> 1
            };
            let pnew = zn_update(set_bit(s.p, CARRY, rd.1 & 1 == 1), nv);
            if writable(r1.1) {
                let after = CpuState { bus: bus_write(rd.0, r1.1, nv), p: pnew, ..s };
                Ok(epilogue(after, s.pc, code))
            } else {
                Err((write_fault(r1.1), CpuState { bus: rd.0, ..s }))
            }
        },
        0xe6 | 0xf6 | 0xee | 0xfe => {
            let r1 = resolve_op(s.bus, s.x, s.y, s.pc, opcode_spec(code).mode);
            let rd = bus_read(r1.0, r1.1);
            let nv = rd.1.wrapping_add(1);
            let pnew = zn_update(s.p, nv);
            if writable(r1.1) {
                let after = CpuState { bus: bus_write(rd.0, r1.1, nv), p: pnew, ..s };
                Ok(epilogue(after, s.pc, code))
            } else {
                Err((write_fault(r1.1), CpuState { bus: rd.0, ..s }))
            }
        },
        0xc6 | 0xd6 | 0xce | 0xde => {
            let r1 = resolve_op(s.bus, s.x, s.y, s.pc, opcode_spec(code).mode);
            let rd = bus_read(r1.0, r1.1);
            let nv = rd.1.wrapping_sub(1);
            let pnew = zn_update(s.p, nv);
            if writable(r1.1) {
                let after = CpuState { bus: bus_write(rd.0, r1.1, nv), p: pnew, ..s };
                Ok(epilogue(after, s.pc, code))
            } else {
                Err((write_fault(r1.1), CpuState { bus: rd.0, ..s }))
            }
        },
        0xc7 | 0xd7 | 0xcf | 0xdf | 0xdb | 0xd3 | 0xc3 => {
            let r1 = resolve_op(s.bus, s.x, s.y, s.pc, opcode_spec(code).mode);
            let rd = bus_read(r1.0, r1.1);
            let nv = rd.1.wrapping_sub(1);
            let pnew = compare_spec(s.p, nv, s.a);
            if writable(r1.1) {
                let after = CpuState { bus: bus_write(rd.0, r1.1, nv), p: pnew, ..s };
                Ok(epilogue(after, s.pc, code))
            } else {
                Err((write_fault(r1.1), CpuState { bus: rd.0, ..s }))
            }
        },
        0x27 | 0x37 | 0x2f | 0x3f | 0x3b | 0x33 | 0x23 => {
            let r1 = resolve_op(s.bus, s.x, s.y, s.pc, opcode_spec(code).mode);
            let rd = bus_read(r1.0, r1.1);
            let nv = if s.p & CARRY != 0 {
                (rd.1 << 1) | 1u8
            } else {
                rd.1 << 1
            };
            let anew = nv & s.a;
            let pnew = zn_update(zn_update(set_bit(s.p, CARRY, rd.1 & 0x80 != 0), nv), anew);
            if writable(r1.1) {
                let after = CpuState { bus: bus_write(rd.0, r1.1, nv), a: anew, p: pnew, ..s };
                Ok(epilogue(after, s.pc, code))
            } else {
                Err((write_fault(r1.1), CpuState { bus: rd.0, ..s }))
            }
        },
        0x07 | 0x17 | 0x0f | 0x1f | 0x1b | 0x03 | 0x13 => {
            let r1 = resolve_op(s.bus, s.x, s.y, s.pc, opcode_spec(code).mode);
            let rd = bus_read(r1.0, r1.1);
            let nv = rd.1 << 1;
            let anew = nv | s.a;
            let pnew = zn_update(zn_update(set_bit(s.p, CARRY, rd.1 & 0x80 != 0), nv), anew);
            if writable(r1.1) {
                let after = CpuState { bus: bus_write(rd.0, r1.1, nv), a: anew, p: pnew, ..s };
                Ok(epilogue(after, s.pc, code))
            } else {
                Err((write_fault(r1.1), CpuState { bus: rd.0, ..s }))
            }
        },
        0x47 | 0x57 | 0x4f | 0x5f | 0x5b | 0x43 | 0x53 => {
            let r1 = resolve_op(s.bus, s.x, s.y, s.pc, opcode_spec(code).mode);
            let rd = bus_read(r1.0, r1.1);
            let nv = rd.1 >> 1;
            let anew = nv ^ s.a;
            let pnew = zn_update(zn_update(set_bit(s.p, CARRY, rd.1 & 1 == 1), nv), anew);
            if writable(r1.1) {
                let after = CpuState { bus: bus_write(rd.0, r1.1, nv), a: anew, p: pnew, ..s };
                Ok(epilogue(after, s.pc, code))
            } else {
                Err((write_fault(r1.1), CpuState { bus: rd.0, ..s }))
            }
        },
        0x67 | 0x77 | 0x6f | 0x7f | 0x7b | 0x63 | 0x73 => {
            let r1 = resolve_op(s.bus, s.x, s.y, s.pc, opcode_spec(code).mode);
            let rd = bus_read(r1.0, r1.1);
            let nv = if s.p & CARRY != 0 {
                (rd.1 >> 1) | 0x80u8
            } else {
                rd.1 >> 1
            };
            let p1 = zn_update(set_bit(s.p, CARRY, rd.1 & 1 == 1), nv);
            let e = adc_spec(s.a, nv, p1);
            let anew = e.0;
            let pnew = e.1;
            if writable(r1.1) {
                let after = CpuState { bus: bus_write(rd.0, r1.1, nv), a: anew, p: pnew, ..s };
                Ok(epilogue(after, s.pc, code))
            } else {
                Err((write_fault(r1.1), CpuState { bus: rd.0, ..s }))
            }
        },
        0xe7 | 0xf7 | 0xef | 0xff | 0xfb | 0xe3 | 0xf3 => {
            let r1 = resolve_op(s.bus, s.x, s.y, s.pc, opcode_spec(code).mode);
            let rd = bus_read(r1.0, r1.1);
            let nv = rd.1.wrapping_add(1);
            let e = sbc_spec(s.a, nv, zn_update(s.p, nv));
            let anew = e.0;
            let pnew = e.1;
            if writable(r1.1) {
                let after = CpuState { bus: bus_write(rd.0, r1.1, nv), a: anew, p: pnew, ..s };
                Ok(epilogue(after, s.pc, code))
            } else {
                Err((write_fault(r1.1), CpuState { bus: rd.0, ..s }))
            }
        },
        0x85 | 0x95 | 0x8d | 0x9d | 0x99 | 0x81 | 0x91 => {
            let r1 = resolve_op(s.bus, s.x, s.y, s.pc, opcode_spec(code).mode);
            let v = s.a;
            if writable(r1.1) {
                Ok(epilogue(CpuState { bus: bus_write(r1.0, r1.1, v), ..s }, s.pc, code))
            } else {
                Err((write_fault(r1.1), CpuState { bus: r1.0, ..s }))
            }
        },
        0x86 | 0x96 | 0x8e => {
            let r1 = resolve_op(s.bus, s.x, s.y, s.pc, opcode_spec(code).mode);
            let v = s.x;
            if writable(r1.1) {
                Ok(epilogue(CpuState { bus: bus_write(r1.0, r1.1, v), ..s }, s.pc, code))
            } else {
                Err((write_fault(r1.1), CpuState { bus: r1.0, ..s }))
            }
        },
        0x84 | 0x94 | 0x8c => {
            let r1 = resolve_op(s.bus, s.x, s.y, s.pc, opcode_spec(code).mode);
            let v = s.y;
            if writable(r1.1) {
                Ok(epilogue(CpuState { bus: bus_write(r1.0, r1.1, v), ..s }, s.pc, code))
            } else {
                Err((write_fault(r1.1), CpuState { bus: r1.0, ..s }))
            }
        },
        0x87 | 0x97 | 0x8f | 0x83 => {
            let r1 = resolve_op(s.bus, s.x, s.y, s.pc, opcode_spec(code).mode);
            let v = s.a & s.x;
            if writable(r1.1) {
                Ok(epilogue(CpuState { bus: bus_write(r1.0, r1.1, v), ..s }, s.pc, code))
            } else {
                Err((write_fault(r1.1), CpuState { bus: r1.0, ..s }))
            }
        },
        0x90 => {
            let after = if s.p & CARRY == 0 {
                let rd = bus_read(s.bus, s.pc);
                CpuState { bus: rd.0, pc: s.pc.wrapping_add(1).wrapping_add(sign_extend(rd.1)), ..s }
            } else {
                s
            };
            Ok(epilogue(after, s.pc, code))
        },
        0xb0 => {
            let after = if s.p & CARRY != 0 {
                let rd = bus_read(s.bus, s.pc);
                CpuState { bus: rd.0, pc: s.pc.wrapping_add(1).wrapping_add(sign_extend(rd.1)), ..s }
            } else {
                s
            };
            Ok(epilogue(after, s.pc, code))
        },
        0xf0 => {
            let after = if s.p & ZERO != 0 {
                let rd = bus_read(s.bus, s.pc);
                CpuState { bus: rd.0, pc: s.pc.wrapping_add(1).wrapping_add(sign_extend(rd.1)), ..s }
            } else {
                s
            };
            Ok(epilogue(after, s.pc, code))
        },
        0xd0 => {
            let after = if s.p & ZERO == 0 {
                let rd = bus_read(s.bus, s.pc);
                CpuState { bus: rd.0, pc: s.pc.wrapping_add(1).wrapping_add(sign_extend(rd.1)), ..s }
            } else {
                s
            };
            Ok(epilogue(after, s.pc, code))
        },
        0x30 => {
            let after = if s.p & NEGATIVE != 0 {
                let rd = bus_read(s.bus, s.pc);
                CpuState { bus: rd.0, pc: s.pc.wrapping_add(1).wrapping_add(sign_extend(rd.1)), ..s }
            } else {
                s
            };
            Ok(epilogue(after, s.pc, code))
        },
        0x10 => {
            let after = if s.p & NEGATIVE == 0 {
                let rd = bus_read(s.bus, s.pc);
                CpuState { bus: rd.0, pc: s.pc.wrapping_add(1).wrapping_add(sign_extend(rd.1)), ..s }
            } else {
                s
            };
            Ok(epilogue(after, s.pc, code))
        },
        0x50 => {
            let after = if s.p & OVERFLOW == 0 {
                let rd = bus_read(s.bus, s.pc);
                CpuState { bus: rd.0, pc: s.pc.wrapping_add(1).wrapping_add(sign_extend(rd.1)), ..s }
            } else {
                s
            };
            Ok(epilogue(after, s.pc, code))
        },
        0x70 => {
            let after = if s.p & OVERFLOW != 0 {
                let rd = bus_read(s.bus, s.pc);
                CpuState { bus: rd.0, pc: s.pc.wrapping_add(1).wrapping_add(sign_extend(rd.1)), ..s }
            } else {
                s
            };
            Ok(epilogue(after, s.pc, code))
        },
        0xaa => {
            let after = CpuState { x: s.a, p: zn_update(s.p, s.a), ..s };
            Ok(epilogue(after, s.pc, code))
        },
        0xa8 => {
            let after = CpuState { y: s.a, p: zn_update(s.p, s.a), ..s };
            Ok(epilogue(after, s.pc, code))
        },
        0xba => {
            let after = CpuState { x: s.sp, p: zn_update(s.p, s.sp), ..s };
            Ok(epilogue(after, s.pc, code))
        },
        0x8a => {
            let after = CpuState { a: s.x, p: zn_update(s.p, s.x), ..s };
            Ok(epilogue(after, s.pc, code))
        },
        0x9a => {
            let after = CpuState { sp: s.x, ..s };
            Ok(epilogue(after, s.pc, code))
        },
        0x98 => {
            let after = CpuState { a: s.y, p: zn_update(s.p, s.y), ..s };
            Ok(epilogue(after, s.pc, code))
        },
        0xe8 => {
            let after = CpuState { x: s.x.wrapping_add(1), p: zn_update(s.p, s.x.wrapping_add(1)), ..s };
            Ok(epilogue(after, s.pc, code))
        },
        0xc8 => {
            let after = CpuState { y: s.y.wrapping_add(1), p: zn_update(s.p, s.y.wrapping_add(1)), ..s };
            Ok(epilogue(after, s.pc, code))
        },
        0xca => {
            let after = CpuState { x: s.x.wrapping_sub(1), p: zn_update(s.p, s.x.wrapping_sub(1)), ..s };
            Ok(epilogue(after, s.pc, code))
        },
        0x88 => {
            let after = CpuState { y: s.y.wrapping_sub(1), p: zn_update(s.p, s.y.wrapping_sub(1)), ..s };
            Ok(epilogue(after, s.pc, code))
        },
        0x18 => {
            let after = CpuState { p: s.p & !CARRY, ..s };
            Ok(epilogue(after, s.pc, code))
        },
        0x38 => {
            let after = CpuState { p: s.p | CARRY, ..s };
            Ok(epilogue(after, s.pc, code))
        },
        0x58 => {
            let after = CpuState { p: s.p & !INTERRUPT_DISABLE, ..s };
            Ok(epilogue(after, s.pc, code))
        },
        0x78 => {
            let after = CpuState { p: s.p | INTERRUPT_DISABLE, ..s };
            Ok(epilogue(after, s.pc, code))
        },
        0xd8 => {
            let after = CpuState { p: s.p & !DECIMAL_MODE, ..s };
            Ok(epilogue(after, s.pc, code))
        },
        0xf8 => {
            let after = CpuState { p: s.p | DECIMAL_MODE, ..s };
            Ok(epilogue(after, s.pc, code))
        },
        0xb8 => {
            let after = CpuState { p: s.p & !OVERFLOW, ..s };
            Ok(epilogue(after, s.pc, code))
        },
        0x0a => {
            let after = CpuState { a: s.a << 1, p: zn_update(set_bit(s.p, CARRY, s.a & 0x80 != 0), s.a << 1), ..s };
            Ok(epilogue(after, s.pc, code))
        },
        0x4a => {
            let after = CpuState { a: s.a >> 1, p: zn_update(set_bit(s.p, CARRY, s.a & 1 == 1), s.a >> 1), ..s };
            Ok(epilogue(after, s.pc, code))
        },
        0x2a => {
            let nv = if s.p & CARRY != 0 {
                (s.a << 1) | 1u8
            } else {
                s.a << 1
            };
            let after = CpuState { a: nv, p: zn_update(set_bit(s.p, CARRY, s.a & 0x80 != 0), nv), ..s };
            Ok(epilogue(after, s.pc, code))
        },
        0x6a => {
            let nv = if s.p & CARRY != 0 {
                (s.a >> 1) | 0x80u8
            } else {
                s.a >> 1
            };
            let after = CpuState { a: nv, p: zn_update(set_bit(s.p, CARRY, s.a & 1 == 1), nv), ..s };
            Ok(epilogue(after, s.pc, code))
        },
        0xea | 0x80 | 0x82 | 0x89 | 0xc2 | 0xe2 | 0x02 | 0x12 | 0x22 | 0x32 | 0x42 | 0x52 | 0x62
            | 0x72 | 0x92 | 0xb2 | 0xd2 | 0xf2 | 0x1a | 0x3a | 0x5a | 0x7a | 0xda | 0xfa => Ok(
            epilogue(s, s.pc, code),
        ),
        0x48 => {
            let after = CpuState {
                bus: bus_write(s.bus, (STACK + s.sp as u16) as u16, s.a),
                sp: s.sp.wrapping_sub(1),
                ..s
            };
            Ok(epilogue(after, s.pc, code))
        },
        0x08 => {
            let after = CpuState {
                bus: bus_write(s.bus, (STACK + s.sp as u16) as u16, s.p | BREAK | UNUSED),
                sp: s.sp.wrapping_sub(1),
                ..s
            };
            Ok(epilogue(after, s.pc, code))
        },
        0x68 => {
            let rd = bus_read(s.bus, (STACK + s.sp.wrapping_add(1) as u16) as u16);
            let after = CpuState {
                bus: rd.0,
                a: rd.1,
                p: zn_update(s.p, rd.1),
                sp: s.sp.wrapping_add(1),
                ..s
            };
            Ok(epilogue(after, s.pc, code))
        },
        0x28 => {
            let rd = bus_read(s.bus, (STACK + s.sp.wrapping_add(1) as u16) as u16);
            let after = CpuState {
                bus: rd.0,
                p: (rd.1 & !BREAK) | UNUSED,
                sp: s.sp.wrapping_add(1),
                ..s
            };
            Ok(epilogue(after, s.pc, code))
        },
        0x4c => {
            let rd = bus_read16(s.bus, s.pc);
            Ok(epilogue(CpuState { bus: rd.0, pc: rd.1, ..s }, s.pc, code))
        },
        0x6c => {
            let rd = bus_read16(s.bus, s.pc);
            let t = if rd.1 & 0x00FF == 0x00FF {
                let lo = bus_read(rd.0, rd.1);
                let hi = bus_read(lo.0, rd.1 & 0xFF00);
                (hi.0, (((hi.1 as u16) << 8) | (lo.1 as u16)))
            } else {
                bus_read16(rd.0, rd.1)
            };
            Ok(epilogue(CpuState { bus: t.0, pc: t.1, ..s }, s.pc, code))
        },
        0x20 => {
            let pushed = bus_write(
                bus_write(
                    s.bus,
                    (STACK + s.sp as u16) as u16,
                    (s.pc.wrapping_add(1) >> 8) as u8,
                ),
                (STACK + s.sp.wrapping_sub(1) as u16) as u16,
                (s.pc.wrapping_add(1) & 0xff) as u8,
            );
            let rd = bus_read16(pushed, s.pc);
            Ok(epilogue(CpuState { bus: rd.0, pc: rd.1, sp: s.sp.wrapping_sub(2), ..s }, s.pc, code))
        },
        0x60 => {
            let lo = bus_read(s.bus, (STACK + s.sp.wrapping_add(1) as u16) as u16);
            let hi = bus_read(lo.0, (STACK + s.sp.wrapping_add(2) as u16) as u16);
            let after = CpuState {
                bus: hi.0,
                pc: ((((hi.1 as u16) << 8) | (lo.1 as u16))).wrapping_add(1),
                sp: s.sp.wrapping_add(2),
                ..s
            };
            Ok(epilogue(after, s.pc, code))
        },
        0x40 => {
            let pp = bus_read(s.bus, (STACK + s.sp.wrapping_add(1) as u16) as u16);
            let lo = bus_read(pp.0, (STACK + s.sp.wrapping_add(2) as u16) as u16);
            let hi = bus_read(lo.0, (STACK + s.sp.wrapping_add(3) as u16) as u16);
            let after = CpuState {
                bus: hi.0,
                p: (pp.1 & !BREAK) | UNUSED,
                pc: ((hi.1 as u16) << 8) | (lo.1 as u16),
                sp: s.sp.wrapping_add(3),
                ..s
            };
            Ok(epilogue(after, s.pc, code))
        },
        0x9b => {
            let rd = bus_read16(s.bus, s.pc);
            let addr = rd.1.wrapping_add(s.y as u16);
            let nsp = s.x & s.a;
            let v = ((addr >> 8) as u8).wrapping_add(1) & nsp;
            if writable(addr) {
                Ok(epilogue(CpuState { bus: bus_write(rd.0, addr, v), sp: nsp, ..s }, s.pc, code))
            } else {
                Err((write_fault(addr), CpuState { bus: rd.0, sp: nsp, ..s }))
            }
        },
        0x93 => {
            let pos = bus_read(s.bus, s.pc);
            let rd = bus_read16(pos.0, pos.1 as u16);
            let addr = rd.1.wrapping_add(s.y as u16);
            let v = (s.x & s.a) & ((addr >> 8) as u8);
            if writable(addr) {
                Ok(epilogue(CpuState { bus: bus_write(rd.0, addr, v), ..s }, s.pc, code))
            } else {
                Err((write_fault(addr), CpuState { bus: rd.0, ..s }))
            }
        },
        0x9f => {
            let rd = bus_read16(s.bus, s.pc);
            let addr = rd.1.wrapping_add(s.y as u16);
            let v = (s.x & s.a) & ((addr >> 8) as u8);
            if writable(addr) {
                Ok(epilogue(CpuState { bus: bus_write(rd.0, addr, v), ..s }, s.pc, code))
            } else {
                Err((write_fault(addr), CpuState { bus: rd.0, ..s }))
            }
        },
        0x9e => {
            let rd = bus_read16(s.bus, s.pc);
            let addr = rd.1.wrapping_add(s.y as u16);
            let v = s.x & ((addr >> 8) as u8).wrapping_add(1);
            if writable(addr) {
                Ok(epilogue(CpuState { bus: bus_write(rd.0, addr, v), ..s }, s.pc, code))
            } else {
                Err((write_fault(addr), CpuState { bus: rd.0, ..s }))
            }
        },
        0x9c => {
            let rd = bus_read16(s.bus, s.pc);
            let addr = rd.1.wrapping_add(s.x as u16);
            let v = s.x & ((addr >> 8) as u8).wrapping_add(1);
            if writable(addr) {
                Ok(epilogue(CpuState { bus: bus_write(rd.0, addr, v), ..s }, s.pc, code))
            } else {
                Err((write_fault(addr), CpuState { bus: rd.0, ..s }))
            }
        },
    }
}

/// The effect of one whole machine step: a pending graphics interrupt is
/// consumed and serviced, then the byte under the counter is fetched and
/// executed; the frame report joins both phases.
pub open spec fn step_spec(s: CpuState) -> Result<(CpuState, StepOutcome), (BusFault, CpuState)> {
    let cleared = CpuState {
        bus: BusView { ppu: PpuView { nmi_interrupt: None, ..s.bus.ppu }, ..s.bus },
        ..s
    };
    let serviced = if s.bus.ppu.nmi_interrupt is Some {
        nmi_spec(cleared)
    } else {
        (cleared, false)
    };
    let s1 = serviced.0;
    let fetch = bus_read(s1.bus, s1.pc);
    let s2 = CpuState { bus: fetch.0, pc: s1.pc.wrapping_add(1), ..s1 };
    match interpret_spec(s2, fetch.1) {
        Ok(e) => Ok(
            (e.0, StepOutcome { halted: e.1.halted, frame: e.1.frame || serviced.1 }),
        ),
        Err(e) => Err(e),
    }
}

} // verus!
