//! The opcode table: a total lookup from each of the 256 opcode byte values
//! to its instruction descriptor. Entries are immutable decode data; opcode
//! byte values with no assigned instruction map to the reserved `Invalid`
//! sentinel.

use vstd::prelude::*;

use crate::gameboy_cpu::Reg;

verus! {

/// The operation kinds the decode table can name. `Invalid` is the reserved
/// sentinel for opcode byte values with no assigned instruction. Kinds other
/// than `NOP`, `LD` and `ADD` are decode-table placeholders: they are legal
/// table entries, but executing them is not part of this core's behavioral
/// contract.
#[derive(Clone, Copy, PartialEq, Eq, Structural, Debug)]
pub enum Opcode {
    Invalid,
    NOP,
    LD,
    ADD,
    ADC,
    INC,
    DEC,
    RLCA,
    RRA,
    JR,
    RRCA,
    STOP,
    RLA,
    LDI,
    DAA,
    CPL,
    LDD,
    SCF,
    CCF,
    HALT,
    SUB,
    SBC,
    AND,
    XOR,
    OR,
    CP,
    RET,
    POP,
    JP,
    CALL,
    PUSH,
    RST,
    PREFIX,
    RETI,
    LDH,
    DI,
    LDHL,
    EI,
}

/// An instruction operand descriptor: how the operand's value is to be
/// found, relative to the instruction's own address where immediate bytes
/// are involved.
#[derive(Clone, Copy, PartialEq, Eq, Structural, Debug)]
pub enum Operand {
    /// No operand in this position.
    Unused,
    /// The value held directly by the named register.
    Value(Reg),
    /// The byte at the 16-bit address formed from the named register's
    /// value, zero-extended if the register is 8 bits wide.
    DerefReg(Reg),
    /// The immediate byte following the opcode.
    Imm8,
    /// The byte at `0xFF00 | imm`, where `imm` is the immediate byte
    /// following the opcode.
    DerefImm8,
    /// The 16-bit immediate spanning the two bytes following the opcode,
    /// most-significant byte first.
    Imm16,
    /// The byte at the 16-bit immediate address; reserved, with no defined
    /// resolution in this core.
    DerefImm16,
}

/// One opcode's immutable decode record: its operation kind, destination and
/// source operand descriptors, byte-width for program-counter advancement,
/// and base cycle cost.
#[derive(Clone, Copy, PartialEq, Eq, Structural, Debug)]
pub struct Instr {
    pub opcode: Opcode,
    pub dst: Operand,
    pub src: Operand,
    pub width: u8,
    pub cycles: u32,
}

/// The instruction descriptor the decode table assigns to opcode byte `op`.
pub open spec fn instr_spec(op: u8) -> Instr {
    match op {
        0x00 => Instr { opcode: Opcode::NOP, dst: Operand::Unused, src: Operand::Unused, width: 1, cycles: 4 },
        0x01 => Instr { opcode: Opcode::LD, dst: Operand::Value(Reg::BC), src: Operand::Imm16, width: 3, cycles: 12 },
        0x02 => Instr { opcode: Opcode::LD, dst: Operand::DerefReg(Reg::BC), src: Operand::Value(Reg::A), width: 1, cycles: 8 },
        0x03 => Instr { opcode: Opcode::INC, dst: Operand::Value(Reg::BC), src: Operand::Unused, width: 1, cycles: 8 },
        0x04 => Instr { opcode: Opcode::INC, dst: Operand::Value(Reg::B), src: Operand::Unused, width: 1, cycles: 4 },
        0x05 => Instr { opcode: Opcode::DEC, dst: Operand::Value(Reg::B), src: Operand::Unused, width: 1, cycles: 4 },
        0x06 => Instr { opcode: Opcode::LD, dst: Operand::Value(Reg::B), src: Operand::Imm8, width: 2, cycles: 8 },
        0x07 => Instr { opcode: Opcode::RLCA, dst: Operand::Unused, src: Operand::Unused, width: 1, cycles: 4 },
        0x08 => Instr { opcode: Opcode::LD, dst: Operand::DerefImm16, src: Operand::Value(Reg::SP), width: 3, cycles: 20 },
        0x09 => Instr { opcode: Opcode::ADD, dst: Operand::Value(Reg::HL), src: Operand::Value(Reg::BC), width: 1, cycles: 8 },
        0x0A => Instr { opcode: Opcode::LD, dst: Operand::Value(Reg::A), src: Operand::DerefReg(Reg::BC), width: 1, cycles: 8 },
        0x0B => Instr { opcode: Opcode::DEC, dst: Operand::Value(Reg::BC), src: Operand::Unused, width: 1, cycles: 8 },
        0x0C => Instr { opcode: Opcode::INC, dst: Operand::Value(Reg::C), src: Operand::Unused, width: 1, cycles: 4 },
        0x0D => Instr { opcode: Opcode::DEC, dst: Operand::Value(Reg::C), src: Operand::Unused, width: 1, cycles: 4 },
        0x0E => Instr { opcode: Opcode::LD, dst: Operand::Value(Reg::C), src: Operand::Imm8, width: 2, cycles: 8 },
        0x0F => Instr { opcode: Opcode::RRCA, dst: Operand::Unused, src: Operand::Unused, width: 1, cycles: 4 },
        0x10 => Instr { opcode: Opcode::STOP, dst: Operand::Unused, src: Operand::Unused, width: 2, cycles: 4 },
        0x11 => Instr { opcode: Opcode::LD, dst: Operand::Value(Reg::DE), src: Operand::Imm16, width: 3, cycles: 12 },
        0x12 => Instr { opcode: Opcode::LD, dst: Operand::DerefReg(Reg::DE), src: Operand::Value(Reg::A), width: 1, cycles: 8 },
        0x13 => Instr { opcode: Opcode::INC, dst: Operand::Value(Reg::DE), src: Operand::Unused, width: 1, cycles: 8 },
        0x14 => Instr { opcode: Opcode::INC, dst: Operand::Value(Reg::D), src: Operand::Unused, width: 1, cycles: 4 },
        0x15 => Instr { opcode: Opcode::DEC, dst: Operand::Value(Reg::D), src: Operand::Unused, width: 1, cycles: 4 },
        0x16 => Instr { opcode: Opcode::LD, dst: Operand::Value(Reg::D), src: Operand::Imm8, width: 2, cycles: 8 },
        0x17 => Instr { opcode: Opcode::RLA, dst: Operand::Unused, src: Operand::Unused, width: 1, cycles: 4 },
        0x18 => Instr { opcode: Opcode::JR, dst: Operand::Unused, src: Operand::Imm8, width: 2, cycles: 12 },
        0x19 => Instr { opcode: Opcode::ADD, dst: Operand::Value(Reg::HL), src: Operand::Value(Reg::DE), width: 1, cycles: 8 },
        0x1A => Instr { opcode: Opcode::LD, dst: Operand::Value(Reg::A), src: Operand::DerefReg(Reg::DE), width: 1, cycles: 8 },
        0x1B => Instr { opcode: Opcode::DEC, dst: Operand::Value(Reg::DE), src: Operand::Unused, width: 1, cycles: 8 },
        0x1C => Instr { opcode: Opcode::INC, dst: Operand::Value(Reg::E), src: Operand::Unused, width: 1, cycles: 4 },
        0x1D => Instr { opcode: Opcode::DEC, dst: Operand::Value(Reg::E), src: Operand::Unused, width: 1, cycles: 4 },
        0x1E => Instr { opcode: Opcode::LD, dst: Operand::Value(Reg::E), src: Operand::Imm8, width: 2, cycles: 8 },
        0x1F => Instr { opcode: Opcode::RRA, dst: Operand::Unused, src: Operand::Unused, width: 1, cycles: 4 },
        0x20 => Instr { opcode: Opcode::JR, dst: Operand::Unused, src: Operand::Imm8, width: 2, cycles: 8 },
        0x21 => Instr { opcode: Opcode::LD, dst: Operand::Value(Reg::HL), src: Operand::Imm16, width: 3, cycles: 12 },
        0x22 => Instr { opcode: Opcode::LDI, dst: Operand::DerefReg(Reg::HL), src: Operand::Value(Reg::A), width: 1, cycles: 8 },
        0x23 => Instr { opcode: Opcode::INC, dst: Operand::Value(Reg::HL), src: Operand::Unused, width: 1, cycles: 8 },
        0x24 => Instr { opcode: Opcode::INC, dst: Operand::Value(Reg::H), src: Operand::Unused, width: 1, cycles: 4 },
        0x25 => Instr { opcode: Opcode::DEC, dst: Operand::Value(Reg::H), src: Operand::Unused, width: 1, cycles: 4 },
        0x26 => Instr { opcode: Opcode::LD, dst: Operand::Value(Reg::H), src: Operand::Imm8, width: 2, cycles: 8 },
        0x27 => Instr { opcode: Opcode::DAA, dst: Operand::Unused, src: Operand::Unused, width: 1, cycles: 4 },
        0x28 => Instr { opcode: Opcode::JR, dst: Operand::Unused, src: Operand::Imm8, width: 2, cycles: 8 },
        0x29 => Instr { opcode: Opcode::ADD, dst: Operand::Value(Reg::HL), src: Operand::Value(Reg::HL), width: 1, cycles: 8 },
        0x2A => Instr { opcode: Opcode::LDI, dst: Operand::Value(Reg::A), src: Operand::DerefReg(Reg::HL), width: 1, cycles: 8 },
        0x2B => Instr { opcode: Opcode::DEC, dst: Operand::Value(Reg::HL), src: Operand::Unused, width: 1, cycles: 8 },
        0x2C => Instr { opcode: Opcode::INC, dst: Operand::Value(Reg::L), src: Operand::Unused, width: 1, cycles: 4 },
        0x2D => Instr { opcode: Opcode::DEC, dst: Operand::Value(Reg::L), src: Operand::Unused, width: 1, cycles: 4 },
        0x2E => Instr { opcode: Opcode::LD, dst: Operand::Value(Reg::L), src: Operand::Imm8, width: 2, cycles: 8 },
        0x2F => Instr { opcode: Opcode::CPL, dst: Operand::Unused, src: Operand::Unused, width: 1, cycles: 4 },
        0x30 => Instr { opcode: Opcode::JR, dst: Operand::Unused, src: Operand::Imm8, width: 2, cycles: 8 },
        0x31 => Instr { opcode: Opcode::LD, dst: Operand::Value(Reg::SP), src: Operand::Imm16, width: 3, cycles: 12 },
        0x32 => Instr { opcode: Opcode::LDD, dst: Operand::DerefReg(Reg::HL), src: Operand::Value(Reg::A), width: 1, cycles: 8 },
        0x33 => Instr { opcode: Opcode::INC, dst: Operand::Value(Reg::SP), src: Operand::Unused, width: 1, cycles: 8 },
        0x34 => Instr { opcode: Opcode::INC, dst: Operand::DerefReg(Reg::HL), src: Operand::Unused, width: 1, cycles: 12 },
        0x35 => Instr { opcode: Opcode::DEC, dst: Operand::DerefReg(Reg::HL), src: Operand::Unused, width: 1, cycles: 12 },
        0x36 => Instr { opcode: Opcode::LD, dst: Operand::DerefReg(Reg::HL), src: Operand::Imm8, width: 2, cycles: 12 },
        0x37 => Instr { opcode: Opcode::SCF, dst: Operand::Unused, src: Operand::Unused, width: 1, cycles: 4 },
        0x38 => Instr { opcode: Opcode::JR, dst: Operand::Unused, src: Operand::Imm8, width: 2, cycles: 8 },
        0x39 => Instr { opcode: Opcode::ADD, dst: Operand::Value(Reg::HL), src: Operand::Value(Reg::SP), width: 1, cycles: 8 },
        0x3A => Instr { opcode: Opcode::LDD, dst: Operand::Value(Reg::A), src: Operand::DerefReg(Reg::HL), width: 1, cycles: 8 },
        0x3B => Instr { opcode: Opcode::DEC, dst: Operand::Value(Reg::SP), src: Operand::Unused, width: 1, cycles: 8 },
        0x3C => Instr { opcode: Opcode::INC, dst: Operand::Value(Reg::A), src: Operand::Unused, width: 1, cycles: 4 },
        0x3D => Instr { opcode: Opcode::DEC, dst: Operand::Value(Reg::A), src: Operand::Unused, width: 1, cycles: 4 },
        0x3E => Instr { opcode: Opcode::LD, dst: Operand::Value(Reg::A), src: Operand::Imm8, width: 2, cycles: 8 },
        0x3F => Instr { opcode: Opcode::CCF, dst: Operand::Unused, src: Operand::Unused, width: 1, cycles: 4 },
        0x40 => Instr { opcode: Opcode::LD, dst: Operand::Value(Reg::B), src: Operand::Value(Reg::B), width: 1, cycles: 4 },
        0x41 => Instr { opcode: Opcode::LD, dst: Operand::Value(Reg::B), src: Operand::Value(Reg::C), width: 1, cycles: 4 },
        0x42 => Instr { opcode: Opcode::LD, dst: Operand::Value(Reg::B), src: Operand::Value(Reg::D), width: 1, cycles: 4 },
        0x43 => Instr { opcode: Opcode::LD, dst: Operand::Value(Reg::B), src: Operand::Value(Reg::E), width: 1, cycles: 4 },
        0x44 => Instr { opcode: Opcode::LD, dst: Operand::Value(Reg::B), src: Operand::Value(Reg::H), width: 1, cycles: 4 },
        0x45 => Instr { opcode: Opcode::LD, dst: Operand::Value(Reg::B), src: Operand::Value(Reg::L), width: 1, cycles: 4 },
        0x46 => Instr { opcode: Opcode::LD, dst: Operand::Value(Reg::B), src: Operand::DerefReg(Reg::HL), width: 1, cycles: 8 },
        0x47 => Instr { opcode: Opcode::LD, dst: Operand::Value(Reg::B), src: Operand::Value(Reg::A), width: 1, cycles: 4 },
        0x48 => Instr { opcode: Opcode::LD, dst: Operand::Value(Reg::C), src: Operand::Value(Reg::B), width: 1, cycles: 4 },
        0x49 => Instr { opcode: Opcode::LD, dst: Operand::Value(Reg::C), src: Operand::Value(Reg::C), width: 1, cycles: 4 },
        0x4A => Instr { opcode: Opcode::LD, dst: Operand::Value(Reg::C), src: Operand::Value(Reg::D), width: 1, cycles: 4 },
        0x4B => Instr { opcode: Opcode::LD, dst: Operand::Value(Reg::C), src: Operand::Value(Reg::E), width: 1, cycles: 4 },
        0x4C => Instr { opcode: Opcode::LD, dst: Operand::Value(Reg::C), src: Operand::Value(Reg::H), width: 1, cycles: 4 },
        0x4D => Instr { opcode: Opcode::LD, dst: Operand::Value(Reg::C), src: Operand::Value(Reg::L), width: 1, cycles: 4 },
        0x4E => Instr { opcode: Opcode::LD, dst: Operand::Value(Reg::C), src: Operand::DerefReg(Reg::HL), width: 1, cycles: 8 },
        0x4F => Instr { opcode: Opcode::LD, dst: Operand::Value(Reg::C), src: Operand::Value(Reg::A), width: 1, cycles: 4 },
        0x50 => Instr { opcode: Opcode::LD, dst: Operand::Value(Reg::D), src: Operand::Value(Reg::B), width: 1, cycles: 4 },
        0x51 => Instr { opcode: Opcode::LD, dst: Operand::Value(Reg::D), src: Operand::Value(Reg::C), width: 1, cycles: 4 },
        0x52 => Instr { opcode: Opcode::LD, dst: Operand::Value(Reg::D), src: Operand::Value(Reg::D), width: 1, cycles: 4 },
        0x53 => Instr { opcode: Opcode::LD, dst: Operand::Value(Reg::D), src: Operand::Value(Reg::E), width: 1, cycles: 4 },
        0x54 => Instr { opcode: Opcode::LD, dst: Operand::Value(Reg::D), src: Operand::Value(Reg::H), width: 1, cycles: 4 },
        0x55 => Instr { opcode: Opcode::LD, dst: Operand::Value(Reg::D), src: Operand::Value(Reg::L), width: 1, cycles: 4 },
        0x56 => Instr { opcode: Opcode::LD, dst: Operand::Value(Reg::D), src: Operand::DerefReg(Reg::HL), width: 1, cycles: 8 },
        0x57 => Instr { opcode: Opcode::LD, dst: Operand::Value(Reg::D), src: Operand::Value(Reg::A), width: 1, cycles: 4 },
        0x58 => Instr { opcode: Opcode::LD, dst: Operand::Value(Reg::E), src: Operand::Value(Reg::B), width: 1, cycles: 4 },
        0x59 => Instr { opcode: Opcode::LD, dst: Operand::Value(Reg::E), src: Operand::Value(Reg::C), width: 1, cycles: 4 },
        0x5A => Instr { opcode: Opcode::LD, dst: Operand::Value(Reg::E), src: Operand::Value(Reg::D), width: 1, cycles: 4 },
        0x5B => Instr { opcode: Opcode::LD, dst: Operand::Value(Reg::E), src: Operand::Value(Reg::E), width: 1, cycles: 4 },
        0x5C => Instr { opcode: Opcode::LD, dst: Operand::Value(Reg::E), src: Operand::Value(Reg::H), width: 1, cycles: 4 },
        0x5D => Instr { opcode: Opcode::LD, dst: Operand::Value(Reg::E), src: Operand::Value(Reg::L), width: 1, cycles: 4 },
        0x5E => Instr { opcode: Opcode::LD, dst: Operand::Value(Reg::E), src: Operand::DerefReg(Reg::HL), width: 1, cycles: 8 },
        0x5F => Instr { opcode: Opcode::LD, dst: Operand::Value(Reg::E), src: Operand::Value(Reg::A), width: 1, cycles: 4 },
        0x60 => Instr { opcode: Opcode::LD, dst: Operand::Value(Reg::H), src: Operand::Value(Reg::B), width: 1, cycles: 4 },
        0x61 => Instr { opcode: Opcode::LD, dst: Operand::Value(Reg::H), src: Operand::Value(Reg::C), width: 1, cycles: 4 },
        0x62 => Instr { opcode: Opcode::LD, dst: Operand::Value(Reg::H), src: Operand::Value(Reg::D), width: 1, cycles: 4 },
        0x63 => Instr { opcode: Opcode::LD, dst: Operand::Value(Reg::H), src: Operand::Value(Reg::E), width: 1, cycles: 4 },
        0x64 => Instr { opcode: Opcode::LD, dst: Operand::Value(Reg::H), src: Operand::Value(Reg::H), width: 1, cycles: 4 },
        0x65 => Instr { opcode: Opcode::LD, dst: Operand::Value(Reg::H), src: Operand::Value(Reg::L), width: 1, cycles: 4 },
        0x66 => Instr { opcode: Opcode::LD, dst: Operand::Value(Reg::H), src: Operand::DerefReg(Reg::HL), width: 1, cycles: 8 },
        0x67 => Instr { opcode: Opcode::LD, dst: Operand::Value(Reg::H), src: Operand::Value(Reg::A), width: 1, cycles: 4 },
        0x68 => Instr { opcode: Opcode::LD, dst: Operand::Value(Reg::L), src: Operand::Value(Reg::B), width: 1, cycles: 4 },
        0x69 => Instr { opcode: Opcode::LD, dst: Operand::Value(Reg::L), src: Operand::Value(Reg::C), width: 1, cycles: 4 },
        0x6A => Instr { opcode: Opcode::LD, dst: Operand::Value(Reg::L), src: Operand::Value(Reg::D), width: 1, cycles: 4 },
        0x6B => Instr { opcode: Opcode::LD, dst: Operand::Value(Reg::L), src: Operand::Value(Reg::E), width: 1, cycles: 4 },
        0x6C => Instr { opcode: Opcode::LD, dst: Operand::Value(Reg::L), src: Operand::Value(Reg::H), width: 1, cycles: 4 },
        0x6D => Instr { opcode: Opcode::LD, dst: Operand::Value(Reg::L), src: Operand::Value(Reg::L), width: 1, cycles: 4 },
        0x6E => Instr { opcode: Opcode::LD, dst: Operand::Value(Reg::L), src: Operand::DerefReg(Reg::HL), width: 1, cycles: 8 },
        0x6F => Instr { opcode: Opcode::LD, dst: Operand::Value(Reg::L), src: Operand::Value(Reg::A), width: 1, cycles: 4 },
        0x70 => Instr { opcode: Opcode::LD, dst: Operand::DerefReg(Reg::HL), src: Operand::Value(Reg::B), width: 1, cycles: 8 },
        0x71 => Instr { opcode: Opcode::LD, dst: Operand::DerefReg(Reg::HL), src: Operand::Value(Reg::C), width: 1, cycles: 8 },
        0x72 => Instr { opcode: Opcode::LD, dst: Operand::DerefReg(Reg::HL), src: Operand::Value(Reg::D), width: 1, cycles: 8 },
        0x73 => Instr { opcode: Opcode::LD, dst: Operand::DerefReg(Reg::HL), src: Operand::Value(Reg::E), width: 1, cycles: 8 },
        0x74 => Instr { opcode: Opcode::LD, dst: Operand::DerefReg(Reg::HL), src: Operand::Value(Reg::H), width: 1, cycles: 8 },
        0x75 => Instr { opcode: Opcode::LD, dst: Operand::DerefReg(Reg::HL), src: Operand::Value(Reg::L), width: 1, cycles: 8 },
        0x76 => Instr { opcode: Opcode::HALT, dst: Operand::Unused, src: Operand::Unused, width: 1, cycles: 4 },
        0x77 => Instr { opcode: Opcode::LD, dst: Operand::DerefReg(Reg::HL), src: Operand::Value(Reg::A), width: 1, cycles: 8 },
        0x78 => Instr { opcode: Opcode::LD, dst: Operand::Value(Reg::A), src: Operand::Value(Reg::B), width: 1, cycles: 4 },
        0x79 => Instr { opcode: Opcode::LD, dst: Operand::Value(Reg::A), src: Operand::Value(Reg::C), width: 1, cycles: 4 },
        0x7A => Instr { opcode: Opcode::LD, dst: Operand::Value(Reg::A), src: Operand::Value(Reg::D), width: 1, cycles: 4 },
        0x7B => Instr { opcode: Opcode::LD, dst: Operand::Value(Reg::A), src: Operand::Value(Reg::E), width: 1, cycles: 4 },
        0x7C => Instr { opcode: Opcode::LD, dst: Operand::Value(Reg::A), src: Operand::Value(Reg::H), width: 1, cycles: 4 },
        0x7D => Instr { opcode: Opcode::LD, dst: Operand::Value(Reg::A), src: Operand::Value(Reg::L), width: 1, cycles: 4 },
        0x7E => Instr { opcode: Opcode::LD, dst: Operand::Value(Reg::A), src: Operand::DerefReg(Reg::HL), width: 1, cycles: 8 },
        0x7F => Instr { opcode: Opcode::LD, dst: Operand::Value(Reg::A), src: Operand::Value(Reg::A), width: 1, cycles: 4 },
        0x80 => Instr { opcode: Opcode::ADD, dst: Operand::Value(Reg::A), src: Operand::Value(Reg::B), width: 1, cycles: 4 },
        0x81 => Instr { opcode: Opcode::ADD, dst: Operand::Value(Reg::A), src: Operand::Value(Reg::C), width: 1, cycles: 4 },
        0x82 => Instr { opcode: Opcode::ADD, dst: Operand::Value(Reg::A), src: Operand::Value(Reg::D), width: 1, cycles: 4 },
        0x83 => Instr { opcode: Opcode::ADD, dst: Operand::Value(Reg::A), src: Operand::Value(Reg::E), width: 1, cycles: 4 },
        0x84 => Instr { opcode: Opcode::ADD, dst: Operand::Value(Reg::A), src: Operand::Value(Reg::H), width: 1, cycles: 4 },
        0x85 => Instr { opcode: Opcode::ADD, dst: Operand::Value(Reg::A), src: Operand::Value(Reg::L), width: 1, cycles: 4 },
        0x86 => Instr { opcode: Opcode::ADD, dst: Operand::Value(Reg::A), src: Operand::DerefReg(Reg::HL), width: 1, cycles: 8 },
        0x87 => Instr { opcode: Opcode::ADD, dst: Operand::Value(Reg::A), src: Operand::Value(Reg::A), width: 1, cycles: 4 },
        0x88 => Instr { opcode: Opcode::ADC, dst: Operand::Value(Reg::A), src: Operand::Value(Reg::B), width: 1, cycles: 4 },
        0x89 => Instr { opcode: Opcode::ADC, dst: Operand::Value(Reg::A), src: Operand::Value(Reg::C), width: 1, cycles: 4 },
        0x8A => Instr { opcode: Opcode::ADC, dst: Operand::Value(Reg::A), src: Operand::Value(Reg::D), width: 1, cycles: 4 },
        0x8B => Instr { opcode: Opcode::ADC, dst: Operand::Value(Reg::A), src: Operand::Value(Reg::E), width: 1, cycles: 4 },
        0x8C => Instr { opcode: Opcode::ADC, dst: Operand::Value(Reg::A), src: Operand::Value(Reg::H), width: 1, cycles: 4 },
        0x8D => Instr { opcode: Opcode::ADC, dst: Operand::Value(Reg::A), src: Operand::Value(Reg::L), width: 1, cycles: 4 },
        0x8E => Instr { opcode: Opcode::ADC, dst: Operand::Value(Reg::A), src: Operand::DerefReg(Reg::HL), width: 1, cycles: 8 },
        0x8F => Instr { opcode: Opcode::ADC, dst: Operand::Value(Reg::A), src: Operand::Value(Reg::A), width: 1, cycles: 4 },
        0x90 => Instr { opcode: Opcode::SUB, dst: Operand::Value(Reg::A), src: Operand::Value(Reg::B), width: 1, cycles: 4 },
        0x91 => Instr { opcode: Opcode::SUB, dst: Operand::Value(Reg::A), src: Operand::Value(Reg::C), width: 1, cycles: 4 },
        0x92 => Instr { opcode: Opcode::SUB, dst: Operand::Value(Reg::A), src: Operand::Value(Reg::D), width: 1, cycles: 4 },
        0x93 => Instr { opcode: Opcode::SUB, dst: Operand::Value(Reg::A), src: Operand::Value(Reg::E), width: 1, cycles: 4 },
        0x94 => Instr { opcode: Opcode::SUB, dst: Operand::Value(Reg::A), src: Operand::Value(Reg::H), width: 1, cycles: 4 },
        0x95 => Instr { opcode: Opcode::SUB, dst: Operand::Value(Reg::A), src: Operand::Value(Reg::L), width: 1, cycles: 4 },
        0x96 => Instr { opcode: Opcode::SUB, dst: Operand::Value(Reg::A), src: Operand::DerefReg(Reg::HL), width: 1, cycles: 8 },
        0x97 => Instr { opcode: Opcode::SUB, dst: Operand::Value(Reg::A), src: Operand::Value(Reg::A), width: 1, cycles: 4 },
        0x98 => Instr { opcode: Opcode::SBC, dst: Operand::Value(Reg::A), src: Operand::Value(Reg::B), width: 1, cycles: 4 },
        0x99 => Instr { opcode: Opcode::SBC, dst: Operand::Value(Reg::A), src: Operand::Value(Reg::C), width: 1, cycles: 4 },
        0x9A => Instr { opcode: Opcode::SBC, dst: Operand::Value(Reg::A), src: Operand::Value(Reg::D), width: 1, cycles: 4 },
        0x9B => Instr { opcode: Opcode::SBC, dst: Operand::Value(Reg::A), src: Operand::Value(Reg::E), width: 1, cycles: 4 },
        0x9C => Instr { opcode: Opcode::SBC, dst: Operand::Value(Reg::A), src: Operand::Value(Reg::H), width: 1, cycles: 4 },
        0x9D => Instr { opcode: Opcode::SBC, dst: Operand::Value(Reg::A), src: Operand::Value(Reg::L), width: 1, cycles: 4 },
        0x9E => Instr { opcode: Opcode::SBC, dst: Operand::Value(Reg::A), src: Operand::DerefReg(Reg::HL), width: 1, cycles: 8 },
        0x9F => Instr { opcode: Opcode::SBC, dst: Operand::Value(Reg::A), src: Operand::Value(Reg::A), width: 1, cycles: 4 },
        0xA0 => Instr { opcode: Opcode::AND, dst: Operand::Value(Reg::A), src: Operand::Value(Reg::B), width: 1, cycles: 4 },
        0xA1 => Instr { opcode: Opcode::AND, dst: Operand::Value(Reg::A), src: Operand::Value(Reg::C), width: 1, cycles: 4 },
        0xA2 => Instr { opcode: Opcode::AND, dst: Operand::Value(Reg::A), src: Operand::Value(Reg::D), width: 1, cycles: 4 },
        0xA3 => Instr { opcode: Opcode::AND, dst: Operand::Value(Reg::A), src: Operand::Value(Reg::E), width: 1, cycles: 4 },
        0xA4 => Instr { opcode: Opcode::AND, dst: Operand::Value(Reg::A), src: Operand::Value(Reg::H), width: 1, cycles: 4 },
        0xA5 => Instr { opcode: Opcode::AND, dst: Operand::Value(Reg::A), src: Operand::Value(Reg::L), width: 1, cycles: 4 },
        0xA6 => Instr { opcode: Opcode::AND, dst: Operand::Value(Reg::A), src: Operand::DerefReg(Reg::HL), width: 1, cycles: 8 },
        0xA7 => Instr { opcode: Opcode::AND, dst: Operand::Value(Reg::A), src: Operand::Value(Reg::A), width: 1, cycles: 4 },
        0xA8 => Instr { opcode: Opcode::XOR, dst: Operand::Value(Reg::A), src: Operand::Value(Reg::B), width: 1, cycles: 4 },
        0xA9 => Instr { opcode: Opcode::XOR, dst: Operand::Value(Reg::A), src: Operand::Value(Reg::C), width: 1, cycles: 4 },
        0xAA => Instr { opcode: Opcode::XOR, dst: Operand::Value(Reg::A), src: Operand::Value(Reg::D), width: 1, cycles: 4 },
        0xAB => Instr { opcode: Opcode::XOR, dst: Operand::Value(Reg::A), src: Operand::Value(Reg::E), width: 1, cycles: 4 },
        0xAC => Instr { opcode: Opcode::XOR, dst: Operand::Value(Reg::A), src: Operand::Value(Reg::H), width: 1, cycles: 4 },
        0xAD => Instr { opcode: Opcode::XOR, dst: Operand::Value(Reg::A), src: Operand::Value(Reg::L), width: 1, cycles: 4 },
        0xAE => Instr { opcode: Opcode::XOR, dst: Operand::Value(Reg::A), src: Operand::DerefReg(Reg::HL), width: 1, cycles: 8 },
        0xAF => Instr { opcode: Opcode::XOR, dst: Operand::Value(Reg::A), src: Operand::Value(Reg::A), width: 1, cycles: 4 },
        0xB0 => Instr { opcode: Opcode::OR, dst: Operand::Value(Reg::A), src: Operand::Value(Reg::B), width: 1, cycles: 4 },
        0xB1 => Instr { opcode: Opcode::OR, dst: Operand::Value(Reg::A), src: Operand::Value(Reg::C), width: 1, cycles: 4 },
        0xB2 => Instr { opcode: Opcode::OR, dst: Operand::Value(Reg::A), src: Operand::Value(Reg::D), width: 1, cycles: 4 },
        0xB3 => Instr { opcode: Opcode::OR, dst: Operand::Value(Reg::A), src: Operand::Value(Reg::E), width: 1, cycles: 4 },
        0xB4 => Instr { opcode: Opcode::OR, dst: Operand::Value(Reg::A), src: Operand::Value(Reg::H), width: 1, cycles: 4 },
        0xB5 => Instr { opcode: Opcode::OR, dst: Operand::Value(Reg::A), src: Operand::Value(Reg::L), width: 1, cycles: 4 },
        0xB6 => Instr { opcode: Opcode::OR, dst: Operand::Value(Reg::A), src: Operand::DerefReg(Reg::HL), width: 1, cycles: 8 },
        0xB7 => Instr { opcode: Opcode::OR, dst: Operand::Value(Reg::A), src: Operand::Value(Reg::A), width: 1, cycles: 4 },
        0xB8 => Instr { opcode: Opcode::CP, dst: Operand::Value(Reg::A), src: Operand::Value(Reg::B), width: 1, cycles: 4 },
        0xB9 => Instr { opcode: Opcode::CP, dst: Operand::Value(Reg::A), src: Operand::Value(Reg::C), width: 1, cycles: 4 },
        0xBA => Instr { opcode: Opcode::CP, dst: Operand::Value(Reg::A), src: Operand::Value(Reg::D), width: 1, cycles: 4 },
        0xBB => Instr { opcode: Opcode::CP, dst: Operand::Value(Reg::A), src: Operand::Value(Reg::E), width: 1, cycles: 4 },
        0xBC => Instr { opcode: Opcode::CP, dst: Operand::Value(Reg::A), src: Operand::Value(Reg::H), width: 1, cycles: 4 },
        0xBD => Instr { opcode: Opcode::CP, dst: Operand::Value(Reg::A), src: Operand::Value(Reg::L), width: 1, cycles: 4 },
        0xBE => Instr { opcode: Opcode::CP, dst: Operand::Value(Reg::A), src: Operand::DerefReg(Reg::HL), width: 1, cycles: 8 },
        0xBF => Instr { opcode: Opcode::CP, dst: Operand::Value(Reg::A), src: Operand::Value(Reg::A), width: 1, cycles: 4 },
        0xC0 => Instr { opcode: Opcode::RET, dst: Operand::Unused, src: Operand::Unused, width: 1, cycles: 8 },
        0xC1 => Instr { opcode: Opcode::POP, dst: Operand::Value(Reg::BC), src: Operand::Unused, width: 1, cycles: 12 },
        0xC2 => Instr { opcode: Opcode::JP, dst: Operand::Unused, src: Operand::Imm16, width: 3, cycles: 12 },
        0xC3 => Instr { opcode: Opcode::JP, dst: Operand::Unused, src: Operand::Imm16, width: 3, cycles: 16 },
        0xC4 => Instr { opcode: Opcode::CALL, dst: Operand::Unused, src: Operand::Imm16, width: 3, cycles: 12 },
        0xC5 => Instr { opcode: Opcode::PUSH, dst: Operand::Unused, src: Operand::Value(Reg::BC), width: 1, cycles: 16 },
        0xC6 => Instr { opcode: Opcode::ADD, dst: Operand::Value(Reg::A), src: Operand::Imm8, width: 2, cycles: 8 },
        0xC7 => Instr { opcode: Opcode::RST, dst: Operand::Unused, src: Operand::Unused, width: 1, cycles: 16 },
        0xC8 => Instr { opcode: Opcode::RET, dst: Operand::Unused, src: Operand::Unused, width: 1, cycles: 8 },
        0xC9 => Instr { opcode: Opcode::RET, dst: Operand::Unused, src: Operand::Unused, width: 1, cycles: 16 },
        0xCA => Instr { opcode: Opcode::JP, dst: Operand::Unused, src: Operand::Imm16, width: 3, cycles: 12 },
        0xCB => Instr { opcode: Opcode::PREFIX, dst: Operand::Unused, src: Operand::Unused, width: 1, cycles: 4 },
        0xCC => Instr { opcode: Opcode::CALL, dst: Operand::Unused, src: Operand::Imm16, width: 3, cycles: 12 },
        0xCD => Instr { opcode: Opcode::CALL, dst: Operand::Unused, src: Operand::Imm16, width: 3, cycles: 24 },
        0xCE => Instr { opcode: Opcode::ADC, dst: Operand::Value(Reg::A), src: Operand::Imm8, width: 2, cycles: 8 },
        0xCF => Instr { opcode: Opcode::RST, dst: Operand::Unused, src: Operand::Unused, width: 1, cycles: 16 },
        0xD0 => Instr { opcode: Opcode::RET, dst: Operand::Unused, src: Operand::Unused, width: 1, cycles: 8 },
        0xD1 => Instr { opcode: Opcode::POP, dst: Operand::Value(Reg::DE), src: Operand::Unused, width: 1, cycles: 12 },
        0xD2 => Instr { opcode: Opcode::JP, dst: Operand::Unused, src: Operand::Imm16, width: 3, cycles: 12 },
        0xD4 => Instr { opcode: Opcode::CALL, dst: Operand::Unused, src: Operand::Imm16, width: 3, cycles: 12 },
        0xD5 => Instr { opcode: Opcode::PUSH, dst: Operand::Unused, src: Operand::Value(Reg::DE), width: 1, cycles: 16 },
        0xD6 => Instr { opcode: Opcode::SUB, dst: Operand::Value(Reg::A), src: Operand::Imm8, width: 2, cycles: 8 },
        0xD7 => Instr { opcode: Opcode::RST, dst: Operand::Unused, src: Operand::Unused, width: 1, cycles: 16 },
        0xD8 => Instr { opcode: Opcode::RET, dst: Operand::Unused, src: Operand::Unused, width: 1, cycles: 8 },
        0xD9 => Instr { opcode: Opcode::RETI, dst: Operand::Unused, src: Operand::Unused, width: 1, cycles: 16 },
        0xDA => Instr { opcode: Opcode::JP, dst: Operand::Unused, src: Operand::Imm16, width: 3, cycles: 12 },
        0xDC => Instr { opcode: Opcode::CALL, dst: Operand::Unused, src: Operand::Imm16, width: 3, cycles: 12 },
        0xDE => Instr { opcode: Opcode::SBC, dst: Operand::Value(Reg::A), src: Operand::Imm8, width: 2, cycles: 8 },
        0xDF => Instr { opcode: Opcode::RST, dst: Operand::Unused, src: Operand::Unused, width: 1, cycles: 16 },
        0xE0 => Instr { opcode: Opcode::LDH, dst: Operand::DerefImm8, src: Operand::Value(Reg::A), width: 2, cycles: 12 },
        0xE1 => Instr { opcode: Opcode::POP, dst: Operand::Value(Reg::HL), src: Operand::Unused, width: 1, cycles: 12 },
        0xE2 => Instr { opcode: Opcode::LD, dst: Operand::DerefReg(Reg::C), src: Operand::Value(Reg::A), width: 1, cycles: 8 },
        0xE5 => Instr { opcode: Opcode::PUSH, dst: Operand::Unused, src: Operand::Value(Reg::HL), width: 1, cycles: 16 },
        0xE6 => Instr { opcode: Opcode::AND, dst: Operand::Value(Reg::A), src: Operand::Imm8, width: 2, cycles: 8 },
        0xE7 => Instr { opcode: Opcode::RST, dst: Operand::Unused, src: Operand::Unused, width: 1, cycles: 16 },
        0xE8 => Instr { opcode: Opcode::ADD, dst: Operand::Value(Reg::SP), src: Operand::Imm8, width: 2, cycles: 16 },
        0xE9 => Instr { opcode: Opcode::JP, dst: Operand::Unused, src: Operand::Value(Reg::HL), width: 1, cycles: 4 },
        0xEA => Instr { opcode: Opcode::LD, dst: Operand::DerefImm16, src: Operand::Value(Reg::A), width: 3, cycles: 16 },
        0xEE => Instr { opcode: Opcode::XOR, dst: Operand::Value(Reg::A), src: Operand::Imm8, width: 2, cycles: 8 },
        0xEF => Instr { opcode: Opcode::RST, dst: Operand::Unused, src: Operand::Unused, width: 1, cycles: 16 },
        0xF0 => Instr { opcode: Opcode::LDH, dst: Operand::Value(Reg::A), src: Operand::DerefImm8, width: 2, cycles: 12 },
        0xF1 => Instr { opcode: Opcode::POP, dst: Operand::Value(Reg::AF), src: Operand::Unused, width: 1, cycles: 12 },
        0xF2 => Instr { opcode: Opcode::LD, dst: Operand::Value(Reg::A), src: Operand::DerefReg(Reg::C), width: 1, cycles: 8 },
        0xF3 => Instr { opcode: Opcode::DI, dst: Operand::Unused, src: Operand::Unused, width: 1, cycles: 4 },
        0xF5 => Instr { opcode: Opcode::PUSH, dst: Operand::Unused, src: Operand::Value(Reg::AF), width: 1, cycles: 16 },
        0xF6 => Instr { opcode: Opcode::OR, dst: Operand::Value(Reg::A), src: Operand::Imm8, width: 2, cycles: 8 },
        0xF7 => Instr { opcode: Opcode::RST, dst: Operand::Unused, src: Operand::Unused, width: 1, cycles: 16 },
        0xF8 => Instr { opcode: Opcode::LDHL, dst: Operand::Value(Reg::HL), src: Operand::Imm8, width: 2, cycles: 12 },
        0xF9 => Instr { opcode: Opcode::LD, dst: Operand::Value(Reg::SP), src: Operand::Value(Reg::HL), width: 1, cycles: 8 },
        0xFA => Instr { opcode: Opcode::LD, dst: Operand::Value(Reg::A), src: Operand::DerefImm16, width: 3, cycles: 16 },
        0xFB => Instr { opcode: Opcode::EI, dst: Operand::Unused, src: Operand::Unused, width: 1, cycles: 4 },
        0xFE => Instr { opcode: Opcode::CP, dst: Operand::Value(Reg::A), src: Operand::Imm8, width: 2, cycles: 8 },
        0xFF => Instr { opcode: Opcode::RST, dst: Operand::Unused, src: Operand::Unused, width: 1, cycles: 16 },
        _ => Instr { opcode: Opcode::Invalid, dst: Operand::Unused, src: Operand::Unused, width: 1, cycles: 0 },
    }
}

/// Looks the opcode byte up in the decode table.
pub fn instruction_lookup(op: u8) -> (r: Instr)
    ensures
        r == instr_spec(op),
{
    match op {
        0x00 => Instr { opcode: Opcode::NOP, dst: Operand::Unused, src: Operand::Unused, width: 1, cycles: 4 },
        0x01 => Instr { opcode: Opcode::LD, dst: Operand::Value(Reg::BC), src: Operand::Imm16, width: 3, cycles: 12 },
        0x02 => Instr { opcode: Opcode::LD, dst: Operand::DerefReg(Reg::BC), src: Operand::Value(Reg::A), width: 1, cycles: 8 },
        0x03 => Instr { opcode: Opcode::INC, dst: Operand::Value(Reg::BC), src: Operand::Unused, width: 1, cycles: 8 },
        0x04 => Instr { opcode: Opcode::INC, dst: Operand::Value(Reg::B), src: Operand::Unused, width: 1, cycles: 4 },
        0x05 => Instr { opcode: Opcode::DEC, dst: Operand::Value(Reg::B), src: Operand::Unused, width: 1, cycles: 4 },
        0x06 => Instr { opcode: Opcode::LD, dst: Operand::Value(Reg::B), src: Operand::Imm8, width: 2, cycles: 8 },
        0x07 => Instr { opcode: Opcode::RLCA, dst: Operand::Unused, src: Operand::Unused, width: 1, cycles: 4 },
        0x08 => Instr { opcode: Opcode::LD, dst: Operand::DerefImm16, src: Operand::Value(Reg::SP), width: 3, cycles: 20 },
        0x09 => Instr { opcode: Opcode::ADD, dst: Operand::Value(Reg::HL), src: Operand::Value(Reg::BC), width: 1, cycles: 8 },
        0x0A => Instr { opcode: Opcode::LD, dst: Operand::Value(Reg::A), src: Operand::DerefReg(Reg::BC), width: 1, cycles: 8 },
        0x0B => Instr { opcode: Opcode::DEC, dst: Operand::Value(Reg::BC), src: Operand::Unused, width: 1, cycles: 8 },
        0x0C => Instr { opcode: Opcode::INC, dst: Operand::Value(Reg::C), src: Operand::Unused, width: 1, cycles: 4 },
        0x0D => Instr { opcode: Opcode::DEC, dst: Operand::Value(Reg::C), src: Operand::Unused, width: 1, cycles: 4 },
        0x0E => Instr { opcode: Opcode::LD, dst: Operand::Value(Reg::C), src: Operand::Imm8, width: 2, cycles: 8 },
        0x0F => Instr { opcode: Opcode::RRCA, dst: Operand::Unused, src: Operand::Unused, width: 1, cycles: 4 },
        0x10 => Instr { opcode: Opcode::STOP, dst: Operand::Unused, src: Operand::Unused, width: 2, cycles: 4 },
        0x11 => Instr { opcode: Opcode::LD, dst: Operand::Value(Reg::DE), src: Operand::Imm16, width: 3, cycles: 12 },
        0x12 => Instr { opcode: Opcode::LD, dst: Operand::DerefReg(Reg::DE), src: Operand::Value(Reg::A), width: 1, cycles: 8 },
        0x13 => Instr { opcode: Opcode::INC, dst: Operand::Value(Reg::DE), src: Operand::Unused, width: 1, cycles: 8 },
        0x14 => Instr { opcode: Opcode::INC, dst: Operand::Value(Reg::D), src: Operand::Unused, width: 1, cycles: 4 },
        0x15 => Instr { opcode: Opcode::DEC, dst: Operand::Value(Reg::D), src: Operand::Unused, width: 1, cycles: 4 },
        0x16 => Instr { opcode: Opcode::LD, dst: Operand::Value(Reg::D), src: Operand::Imm8, width: 2, cycles: 8 },
        0x17 => Instr { opcode: Opcode::RLA, dst: Operand::Unused, src: Operand::Unused, width: 1, cycles: 4 },
        0x18 => Instr { opcode: Opcode::JR, dst: Operand::Unused, src: Operand::Imm8, width: 2, cycles: 12 },
        0x19 => Instr { opcode: Opcode::ADD, dst: Operand::Value(Reg::HL), src: Operand::Value(Reg::DE), width: 1, cycles: 8 },
        0x1A => Instr { opcode: Opcode::LD, dst: Operand::Value(Reg::A), src: Operand::DerefReg(Reg::DE), width: 1, cycles: 8 },
        0x1B => Instr { opcode: Opcode::DEC, dst: Operand::Value(Reg::DE), src: Operand::Unused, width: 1, cycles: 8 },
        0x1C => Instr { opcode: Opcode::INC, dst: Operand::Value(Reg::E), src: Operand::Unused, width: 1, cycles: 4 },
        0x1D => Instr { opcode: Opcode::DEC, dst: Operand::Value(Reg::E), src: Operand::Unused, width: 1, cycles: 4 },
        0x1E => Instr { opcode: Opcode::LD, dst: Operand::Value(Reg::E), src: Operand::Imm8, width: 2, cycles: 8 },
        0x1F => Instr { opcode: Opcode::RRA, dst: Operand::Unused, src: Operand::Unused, width: 1, cycles: 4 },
        0x20 => Instr { opcode: Opcode::JR, dst: Operand::Unused, src: Operand::Imm8, width: 2, cycles: 8 },
        0x21 => Instr { opcode: Opcode::LD, dst: Operand::Value(Reg::HL), src: Operand::Imm16, width: 3, cycles: 12 },
        0x22 => Instr { opcode: Opcode::LDI, dst: Operand::DerefReg(Reg::HL), src: Operand::Value(Reg::A), width: 1, cycles: 8 },
        0x23 => Instr { opcode: Opcode::INC, dst: Operand::Value(Reg::HL), src: Operand::Unused, width: 1, cycles: 8 },
        0x24 => Instr { opcode: Opcode::INC, dst: Operand::Value(Reg::H), src: Operand::Unused, width: 1, cycles: 4 },
        0x25 => Instr { opcode: Opcode::DEC, dst: Operand::Value(Reg::H), src: Operand::Unused, width: 1, cycles: 4 },
        0x26 => Instr { opcode: Opcode::LD, dst: Operand::Value(Reg::H), src: Operand::Imm8, width: 2, cycles: 8 },
        0x27 => Instr { opcode: Opcode::DAA, dst: Operand::Unused, src: Operand::Unused, width: 1, cycles: 4 },
        0x28 => Instr { opcode: Opcode::JR, dst: Operand::Unused, src: Operand::Imm8, width: 2, cycles: 8 },
        0x29 => Instr { opcode: Opcode::ADD, dst: Operand::Value(Reg::HL), src: Operand::Value(Reg::HL), width: 1, cycles: 8 },
        0x2A => Instr { opcode: Opcode::LDI, dst: Operand::Value(Reg::A), src: Operand::DerefReg(Reg::HL), width: 1, cycles: 8 },
        0x2B => Instr { opcode: Opcode::DEC, dst: Operand::Value(Reg::HL), src: Operand::Unused, width: 1, cycles: 8 },
        0x2C => Instr { opcode: Opcode::INC, dst: Operand::Value(Reg::L), src: Operand::Unused, width: 1, cycles: 4 },
        0x2D => Instr { opcode: Opcode::DEC, dst: Operand::Value(Reg::L), src: Operand::Unused, width: 1, cycles: 4 },
        0x2E => Instr { opcode: Opcode::LD, dst: Operand::Value(Reg::L), src: Operand::Imm8, width: 2, cycles: 8 },
        0x2F => Instr { opcode: Opcode::CPL, dst: Operand::Unused, src: Operand::Unused, width: 1, cycles: 4 },
        0x30 => Instr { opcode: Opcode::JR, dst: Operand::Unused, src: Operand::Imm8, width: 2, cycles: 8 },
        0x31 => Instr { opcode: Opcode::LD, dst: Operand::Value(Reg::SP), src: Operand::Imm16, width: 3, cycles: 12 },
        0x32 => Instr { opcode: Opcode::LDD, dst: Operand::DerefReg(Reg::HL), src: Operand::Value(Reg::A), width: 1, cycles: 8 },
        0x33 => Instr { opcode: Opcode::INC, dst: Operand::Value(Reg::SP), src: Operand::Unused, width: 1, cycles: 8 },
        0x34 => Instr { opcode: Opcode::INC, dst: Operand::DerefReg(Reg::HL), src: Operand::Unused, width: 1, cycles: 12 },
        0x35 => Instr { opcode: Opcode::DEC, dst: Operand::DerefReg(Reg::HL), src: Operand::Unused, width: 1, cycles: 12 },
        0x36 => Instr { opcode: Opcode::LD, dst: Operand::DerefReg(Reg::HL), src: Operand::Imm8, width: 2, cycles: 12 },
        0x37 => Instr { opcode: Opcode::SCF, dst: Operand::Unused, src: Operand::Unused, width: 1, cycles: 4 },
        0x38 => Instr { opcode: Opcode::JR, dst: Operand::Unused, src: Operand::Imm8, width: 2, cycles: 8 },
        0x39 => Instr { opcode: Opcode::ADD, dst: Operand::Value(Reg::HL), src: Operand::Value(Reg::SP), width: 1, cycles: 8 },
        0x3A => Instr { opcode: Opcode::LDD, dst: Operand::Value(Reg::A), src: Operand::DerefReg(Reg::HL), width: 1, cycles: 8 },
        0x3B => Instr { opcode: Opcode::DEC, dst: Operand::Value(Reg::SP), src: Operand::Unused, width: 1, cycles: 8 },
        0x3C => Instr { opcode: Opcode::INC, dst: Operand::Value(Reg::A), src: Operand::Unused, width: 1, cycles: 4 },
        0x3D => Instr { opcode: Opcode::DEC, dst: Operand::Value(Reg::A), src: Operand::Unused, width: 1, cycles: 4 },
        0x3E => Instr { opcode: Opcode::LD, dst: Operand::Value(Reg::A), src: Operand::Imm8, width: 2, cycles: 8 },
        0x3F => Instr { opcode: Opcode::CCF, dst: Operand::Unused, src: Operand::Unused, width: 1, cycles: 4 },
        0x40 => Instr { opcode: Opcode::LD, dst: Operand::Value(Reg::B), src: Operand::Value(Reg::B), width: 1, cycles: 4 },
        0x41 => Instr { opcode: Opcode::LD, dst: Operand::Value(Reg::B), src: Operand::Value(Reg::C), width: 1, cycles: 4 },
        0x42 => Instr { opcode: Opcode::LD, dst: Operand::Value(Reg::B), src: Operand::Value(Reg::D), width: 1, cycles: 4 },
        0x43 => Instr { opcode: Opcode::LD, dst: Operand::Value(Reg::B), src: Operand::Value(Reg::E), width: 1, cycles: 4 },
        0x44 => Instr { opcode: Opcode::LD, dst: Operand::Value(Reg::B), src: Operand::Value(Reg::H), width: 1, cycles: 4 },
        0x45 => Instr { opcode: Opcode::LD, dst: Operand::Value(Reg::B), src: Operand::Value(Reg::L), width: 1, cycles: 4 },
        0x46 => Instr { opcode: Opcode::LD, dst: Operand::Value(Reg::B), src: Operand::DerefReg(Reg::HL), width: 1, cycles: 8 },
        0x47 => Instr { opcode: Opcode::LD, dst: Operand::Value(Reg::B), src: Operand::Value(Reg::A), width: 1, cycles: 4 },
        0x48 => Instr { opcode: Opcode::LD, dst: Operand::Value(Reg::C), src: Operand::Value(Reg::B), width: 1, cycles: 4 },
        0x49 => Instr { opcode: Opcode::LD, dst: Operand::Value(Reg::C), src: Operand::Value(Reg::C), width: 1, cycles: 4 },
        0x4A => Instr { opcode: Opcode::LD, dst: Operand::Value(Reg::C), src: Operand::Value(Reg::D), width: 1, cycles: 4 },
        0x4B => Instr { opcode: Opcode::LD, dst: Operand::Value(Reg::C), src: Operand::Value(Reg::E), width: 1, cycles: 4 },
        0x4C => Instr { opcode: Opcode::LD, dst: Operand::Value(Reg::C), src: Operand::Value(Reg::H), width: 1, cycles: 4 },
        0x4D => Instr { opcode: Opcode::LD, dst: Operand::Value(Reg::C), src: Operand::Value(Reg::L), width: 1, cycles: 4 },
        0x4E => Instr { opcode: Opcode::LD, dst: Operand::Value(Reg::C), src: Operand::DerefReg(Reg::HL), width: 1, cycles: 8 },
        0x4F => Instr { opcode: Opcode::LD, dst: Operand::Value(Reg::C), src: Operand::Value(Reg::A), width: 1, cycles: 4 },
        0x50 => Instr { opcode: Opcode::LD, dst: Operand::Value(Reg::D), src: Operand::Value(Reg::B), width: 1, cycles: 4 },
        0x51 => Instr { opcode: Opcode::LD, dst: Operand::Value(Reg::D), src: Operand::Value(Reg::C), width: 1, cycles: 4 },
        0x52 => Instr { opcode: Opcode::LD, dst: Operand::Value(Reg::D), src: Operand::Value(Reg::D), width: 1, cycles: 4 },
        0x53 => Instr { opcode: Opcode::LD, dst: Operand::Value(Reg::D), src: Operand::Value(Reg::E), width: 1, cycles: 4 },
        0x54 => Instr { opcode: Opcode::LD, dst: Operand::Value(Reg::D), src: Operand::Value(Reg::H), width: 1, cycles: 4 },
        0x55 => Instr { opcode: Opcode::LD, dst: Operand::Value(Reg::D), src: Operand::Value(Reg::L), width: 1, cycles: 4 },
        0x56 => Instr { opcode: Opcode::LD, dst: Operand::Value(Reg::D), src: Operand::DerefReg(Reg::HL), width: 1, cycles: 8 },
        0x57 => Instr { opcode: Opcode::LD, dst: Operand::Value(Reg::D), src: Operand::Value(Reg::A), width: 1, cycles: 4 },
        0x58 => Instr { opcode: Opcode::LD, dst: Operand::Value(Reg::E), src: Operand::Value(Reg::B), width: 1, cycles: 4 },
        0x59 => Instr { opcode: Opcode::LD, dst: Operand::Value(Reg::E), src: Operand::Value(Reg::C), width: 1, cycles: 4 },
        0x5A => Instr { opcode: Opcode::LD, dst: Operand::Value(Reg::E), src: Operand::Value(Reg::D), width: 1, cycles: 4 },
        0x5B => Instr { opcode: Opcode::LD, dst: Operand::Value(Reg::E), src: Operand::Value(Reg::E), width: 1, cycles: 4 },
        0x5C => Instr { opcode: Opcode::LD, dst: Operand::Value(Reg::E), src: Operand::Value(Reg::H), width: 1, cycles: 4 },
        0x5D => Instr { opcode: Opcode::LD, dst: Operand::Value(Reg::E), src: Operand::Value(Reg::L), width: 1, cycles: 4 },
        0x5E => Instr { opcode: Opcode::LD, dst: Operand::Value(Reg::E), src: Operand::DerefReg(Reg::HL), width: 1, cycles: 8 },
        0x5F => Instr { opcode: Opcode::LD, dst: Operand::Value(Reg::E), src: Operand::Value(Reg::A), width: 1, cycles: 4 },
        0x60 => Instr { opcode: Opcode::LD, dst: Operand::Value(Reg::H), src: Operand::Value(Reg::B), width: 1, cycles: 4 },
        0x61 => Instr { opcode: Opcode::LD, dst: Operand::Value(Reg::H), src: Operand::Value(Reg::C), width: 1, cycles: 4 },
        0x62 => Instr { opcode: Opcode::LD, dst: Operand::Value(Reg::H), src: Operand::Value(Reg::D), width: 1, cycles: 4 },
        0x63 => Instr { opcode: Opcode::LD, dst: Operand::Value(Reg::H), src: Operand::Value(Reg::E), width: 1, cycles: 4 },
        0x64 => Instr { opcode: Opcode::LD, dst: Operand::Value(Reg::H), src: Operand::Value(Reg::H), width: 1, cycles: 4 },
        0x65 => Instr { opcode: Opcode::LD, dst: Operand::Value(Reg::H), src: Operand::Value(Reg::L), width: 1, cycles: 4 },
        0x66 => Instr { opcode: Opcode::LD, dst: Operand::Value(Reg::H), src: Operand::DerefReg(Reg::HL), width: 1, cycles: 8 },
        0x67 => Instr { opcode: Opcode::LD, dst: Operand::Value(Reg::H), src: Operand::Value(Reg::A), width: 1, cycles: 4 },
        0x68 => Instr { opcode: Opcode::LD, dst: Operand::Value(Reg::L), src: Operand::Value(Reg::B), width: 1, cycles: 4 },
        0x69 => Instr { opcode: Opcode::LD, dst: Operand::Value(Reg::L), src: Operand::Value(Reg::C), width: 1, cycles: 4 },
        0x6A => Instr { opcode: Opcode::LD, dst: Operand::Value(Reg::L), src: Operand::Value(Reg::D), width: 1, cycles: 4 },
        0x6B => Instr { opcode: Opcode::LD, dst: Operand::Value(Reg::L), src: Operand::Value(Reg::E), width: 1, cycles: 4 },
        0x6C => Instr { opcode: Opcode::LD, dst: Operand::Value(Reg::L), src: Operand::Value(Reg::H), width: 1, cycles: 4 },
        0x6D => Instr { opcode: Opcode::LD, dst: Operand::Value(Reg::L), src: Operand::Value(Reg::L), width: 1, cycles: 4 },
        0x6E => Instr { opcode: Opcode::LD, dst: Operand::Value(Reg::L), src: Operand::DerefReg(Reg::HL), width: 1, cycles: 8 },
        0x6F => Instr { opcode: Opcode::LD, dst: Operand::Value(Reg::L), src: Operand::Value(Reg::A), width: 1, cycles: 4 },
        0x70 => Instr { opcode: Opcode::LD, dst: Operand::DerefReg(Reg::HL), src: Operand::Value(Reg::B), width: 1, cycles: 8 },
        0x71 => Instr { opcode: Opcode::LD, dst: Operand::DerefReg(Reg::HL), src: Operand::Value(Reg::C), width: 1, cycles: 8 },
        0x72 => Instr { opcode: Opcode::LD, dst: Operand::DerefReg(Reg::HL), src: Operand::Value(Reg::D), width: 1, cycles: 8 },
        0x73 => Instr { opcode: Opcode::LD, dst: Operand::DerefReg(Reg::HL), src: Operand::Value(Reg::E), width: 1, cycles: 8 },
        0x74 => Instr { opcode: Opcode::LD, dst: Operand::DerefReg(Reg::HL), src: Operand::Value(Reg::H), width: 1, cycles: 8 },
        0x75 => Instr { opcode: Opcode::LD, dst: Operand::DerefReg(Reg::HL), src: Operand::Value(Reg::L), width: 1, cycles: 8 },
        0x76 => Instr { opcode: Opcode::HALT, dst: Operand::Unused, src: Operand::Unused, width: 1, cycles: 4 },
        0x77 => Instr { opcode: Opcode::LD, dst: Operand::DerefReg(Reg::HL), src: Operand::Value(Reg::A), width: 1, cycles: 8 },
        0x78 => Instr { opcode: Opcode::LD, dst: Operand::Value(Reg::A), src: Operand::Value(Reg::B), width: 1, cycles: 4 },
        0x79 => Instr { opcode: Opcode::LD, dst: Operand::Value(Reg::A), src: Operand::Value(Reg::C), width: 1, cycles: 4 },
        0x7A => Instr { opcode: Opcode::LD, dst: Operand::Value(Reg::A), src: Operand::Value(Reg::D), width: 1, cycles: 4 },
        0x7B => Instr { opcode: Opcode::LD, dst: Operand::Value(Reg::A), src: Operand::Value(Reg::E), width: 1, cycles: 4 },
        0x7C => Instr { opcode: Opcode::LD, dst: Operand::Value(Reg::A), src: Operand::Value(Reg::H), width: 1, cycles: 4 },
        0x7D => Instr { opcode: Opcode::LD, dst: Operand::Value(Reg::A), src: Operand::Value(Reg::L), width: 1, cycles: 4 },
        0x7E => Instr { opcode: Opcode::LD, dst: Operand::Value(Reg::A), src: Operand::DerefReg(Reg::HL), width: 1, cycles: 8 },
        0x7F => Instr { opcode: Opcode::LD, dst: Operand::Value(Reg::A), src: Operand::Value(Reg::A), width: 1, cycles: 4 },
        0x80 => Instr { opcode: Opcode::ADD, dst: Operand::Value(Reg::A), src: Operand::Value(Reg::B), width: 1, cycles: 4 },
        0x81 => Instr { opcode: Opcode::ADD, dst: Operand::Value(Reg::A), src: Operand::Value(Reg::C), width: 1, cycles: 4 },
        0x82 => Instr { opcode: Opcode::ADD, dst: Operand::Value(Reg::A), src: Operand::Value(Reg::D), width: 1, cycles: 4 },
        0x83 => Instr { opcode: Opcode::ADD, dst: Operand::Value(Reg::A), src: Operand::Value(Reg::E), width: 1, cycles: 4 },
        0x84 => Instr { opcode: Opcode::ADD, dst: Operand::Value(Reg::A), src: Operand::Value(Reg::H), width: 1, cycles: 4 },
        0x85 => Instr { opcode: Opcode::ADD, dst: Operand::Value(Reg::A), src: Operand::Value(Reg::L), width: 1, cycles: 4 },
        0x86 => Instr { opcode: Opcode::ADD, dst: Operand::Value(Reg::A), src: Operand::DerefReg(Reg::HL), width: 1, cycles: 8 },
        0x87 => Instr { opcode: Opcode::ADD, dst: Operand::Value(Reg::A), src: Operand::Value(Reg::A), width: 1, cycles: 4 },
        0x88 => Instr { opcode: Opcode::ADC, dst: Operand::Value(Reg::A), src: Operand::Value(Reg::B), width: 1, cycles: 4 },
        0x89 => Instr { opcode: Opcode::ADC, dst: Operand::Value(Reg::A), src: Operand::Value(Reg::C), width: 1, cycles: 4 },
        0x8A => Instr { opcode: Opcode::ADC, dst: Operand::Value(Reg::A), src: Operand::Value(Reg::D), width: 1, cycles: 4 },
        0x8B => Instr { opcode: Opcode::ADC, dst: Operand::Value(Reg::A), src: Operand::Value(Reg::E), width: 1, cycles: 4 },
        0x8C => Instr { opcode: Opcode::ADC, dst: Operand::Value(Reg::A), src: Operand::Value(Reg::H), width: 1, cycles: 4 },
        0x8D => Instr { opcode: Opcode::ADC, dst: Operand::Value(Reg::A), src: Operand::Value(Reg::L), width: 1, cycles: 4 },
        0x8E => Instr { opcode: Opcode::ADC, dst: Operand::Value(Reg::A), src: Operand::DerefReg(Reg::HL), width: 1, cycles: 8 },
        0x8F => Instr { opcode: Opcode::ADC, dst: Operand::Value(Reg::A), src: Operand::Value(Reg::A), width: 1, cycles: 4 },
        0x90 => Instr { opcode: Opcode::SUB, dst: Operand::Value(Reg::A), src: Operand::Value(Reg::B), width: 1, cycles: 4 },
        0x91 => Instr { opcode: Opcode::SUB, dst: Operand::Value(Reg::A), src: Operand::Value(Reg::C), width: 1, cycles: 4 },
        0x92 => Instr { opcode: Opcode::SUB, dst: Operand::Value(Reg::A), src: Operand::Value(Reg::D), width: 1, cycles: 4 },
        0x93 => Instr { opcode: Opcode::SUB, dst: Operand::Value(Reg::A), src: Operand::Value(Reg::E), width: 1, cycles: 4 },
        0x94 => Instr { opcode: Opcode::SUB, dst: Operand::Value(Reg::A), src: Operand::Value(Reg::H), width: 1, cycles: 4 },
        0x95 => Instr { opcode: Opcode::SUB, dst: Operand::Value(Reg::A), src: Operand::Value(Reg::L), width: 1, cycles: 4 },
        0x96 => Instr { opcode: Opcode::SUB, dst: Operand::Value(Reg::A), src: Operand::DerefReg(Reg::HL), width: 1, cycles: 8 },
        0x97 => Instr { opcode: Opcode::SUB, dst: Operand::Value(Reg::A), src: Operand::Value(Reg::A), width: 1, cycles: 4 },
        0x98 => Instr { opcode: Opcode::SBC, dst: Operand::Value(Reg::A), src: Operand::Value(Reg::B), width: 1, cycles: 4 },
        0x99 => Instr { opcode: Opcode::SBC, dst: Operand::Value(Reg::A), src: Operand::Value(Reg::C), width: 1, cycles: 4 },
        0x9A => Instr { opcode: Opcode::SBC, dst: Operand::Value(Reg::A), src: Operand::Value(Reg::D), width: 1, cycles: 4 },
        0x9B => Instr { opcode: Opcode::SBC, dst: Operand::Value(Reg::A), src: Operand::Value(Reg::E), width: 1, cycles: 4 },
        0x9C => Instr { opcode: Opcode::SBC, dst: Operand::Value(Reg::A), src: Operand::Value(Reg::H), width: 1, cycles: 4 },
        0x9D => Instr { opcode: Opcode::SBC, dst: Operand::Value(Reg::A), src: Operand::Value(Reg::L), width: 1, cycles: 4 },
        0x9E => Instr { opcode: Opcode::SBC, dst: Operand::Value(Reg::A), src: Operand::DerefReg(Reg::HL), width: 1, cycles: 8 },
        0x9F => Instr { opcode: Opcode::SBC, dst: Operand::Value(Reg::A), src: Operand::Value(Reg::A), width: 1, cycles: 4 },
        0xA0 => Instr { opcode: Opcode::AND, dst: Operand::Value(Reg::A), src: Operand::Value(Reg::B), width: 1, cycles: 4 },
        0xA1 => Instr { opcode: Opcode::AND, dst: Operand::Value(Reg::A), src: Operand::Value(Reg::C), width: 1, cycles: 4 },
        0xA2 => Instr { opcode: Opcode::AND, dst: Operand::Value(Reg::A), src: Operand::Value(Reg::D), width: 1, cycles: 4 },
        0xA3 => Instr { opcode: Opcode::AND, dst: Operand::Value(Reg::A), src: Operand::Value(Reg::E), width: 1, cycles: 4 },
        0xA4 => Instr { opcode: Opcode::AND, dst: Operand::Value(Reg::A), src: Operand::Value(Reg::H), width: 1, cycles: 4 },
        0xA5 => Instr { opcode: Opcode::AND, dst: Operand::Value(Reg::A), src: Operand::Value(Reg::L), width: 1, cycles: 4 },
        0xA6 => Instr { opcode: Opcode::AND, dst: Operand::Value(Reg::A), src: Operand::DerefReg(Reg::HL), width: 1, cycles: 8 },
        0xA7 => Instr { opcode: Opcode::AND, dst: Operand::Value(Reg::A), src: Operand::Value(Reg::A), width: 1, cycles: 4 },
        0xA8 => Instr { opcode: Opcode::XOR, dst: Operand::Value(Reg::A), src: Operand::Value(Reg::B), width: 1, cycles: 4 },
        0xA9 => Instr { opcode: Opcode::XOR, dst: Operand::Value(Reg::A), src: Operand::Value(Reg::C), width: 1, cycles: 4 },
        0xAA => Instr { opcode: Opcode::XOR, dst: Operand::Value(Reg::A), src: Operand::Value(Reg::D), width: 1, cycles: 4 },
        0xAB => Instr { opcode: Opcode::XOR, dst: Operand::Value(Reg::A), src: Operand::Value(Reg::E), width: 1, cycles: 4 },
        0xAC => Instr { opcode: Opcode::XOR, dst: Operand::Value(Reg::A), src: Operand::Value(Reg::H), width: 1, cycles: 4 },
        0xAD => Instr { opcode: Opcode::XOR, dst: Operand::Value(Reg::A), src: Operand::Value(Reg::L), width: 1, cycles: 4 },
        0xAE => Instr { opcode: Opcode::XOR, dst: Operand::Value(Reg::A), src: Operand::DerefReg(Reg::HL), width: 1, cycles: 8 },
        0xAF => Instr { opcode: Opcode::XOR, dst: Operand::Value(Reg::A), src: Operand::Value(Reg::A), width: 1, cycles: 4 },
        0xB0 => Instr { opcode: Opcode::OR, dst: Operand::Value(Reg::A), src: Operand::Value(Reg::B), width: 1, cycles: 4 },
        0xB1 => Instr { opcode: Opcode::OR, dst: Operand::Value(Reg::A), src: Operand::Value(Reg::C), width: 1, cycles: 4 },
        0xB2 => Instr { opcode: Opcode::OR, dst: Operand::Value(Reg::A), src: Operand::Value(Reg::D), width: 1, cycles: 4 },
        0xB3 => Instr { opcode: Opcode::OR, dst: Operand::Value(Reg::A), src: Operand::Value(Reg::E), width: 1, cycles: 4 },
        0xB4 => Instr { opcode: Opcode::OR, dst: Operand::Value(Reg::A), src: Operand::Value(Reg::H), width: 1, cycles: 4 },
        0xB5 => Instr { opcode: Opcode::OR, dst: Operand::Value(Reg::A), src: Operand::Value(Reg::L), width: 1, cycles: 4 },
        0xB6 => Instr { opcode: Opcode::OR, dst: Operand::Value(Reg::A), src: Operand::DerefReg(Reg::HL), width: 1, cycles: 8 },
        0xB7 => Instr { opcode: Opcode::OR, dst: Operand::Value(Reg::A), src: Operand::Value(Reg::A), width: 1, cycles: 4 },
        0xB8 => Instr { opcode: Opcode::CP, dst: Operand::Value(Reg::A), src: Operand::Value(Reg::B), width: 1, cycles: 4 },
        0xB9 => Instr { opcode: Opcode::CP, dst: Operand::Value(Reg::A), src: Operand::Value(Reg::C), width: 1, cycles: 4 },
        0xBA => Instr { opcode: Opcode::CP, dst: Operand::Value(Reg::A), src: Operand::Value(Reg::D), width: 1, cycles: 4 },
        0xBB => Instr { opcode: Opcode::CP, dst: Operand::Value(Reg::A), src: Operand::Value(Reg::E), width: 1, cycles: 4 },
        0xBC => Instr { opcode: Opcode::CP, dst: Operand::Value(Reg::A), src: Operand::Value(Reg::H), width: 1, cycles: 4 },
        0xBD => Instr { opcode: Opcode::CP, dst: Operand::Value(Reg::A), src: Operand::Value(Reg::L), width: 1, cycles: 4 },
        0xBE => Instr { opcode: Opcode::CP, dst: Operand::Value(Reg::A), src: Operand::DerefReg(Reg::HL), width: 1, cycles: 8 },
        0xBF => Instr { opcode: Opcode::CP, dst: Operand::Value(Reg::A), src: Operand::Value(Reg::A), width: 1, cycles: 4 },
        0xC0 => Instr { opcode: Opcode::RET, dst: Operand::Unused, src: Operand::Unused, width: 1, cycles: 8 },
        0xC1 => Instr { opcode: Opcode::POP, dst: Operand::Value(Reg::BC), src: Operand::Unused, width: 1, cycles: 12 },
        0xC2 => Instr { opcode: Opcode::JP, dst: Operand::Unused, src: Operand::Imm16, width: 3, cycles: 12 },
        0xC3 => Instr { opcode: Opcode::JP, dst: Operand::Unused, src: Operand::Imm16, width: 3, cycles: 16 },
        0xC4 => Instr { opcode: Opcode::CALL, dst: Operand::Unused, src: Operand::Imm16, width: 3, cycles: 12 },
        0xC5 => Instr { opcode: Opcode::PUSH, dst: Operand::Unused, src: Operand::Value(Reg::BC), width: 1, cycles: 16 },
        0xC6 => Instr { opcode: Opcode::ADD, dst: Operand::Value(Reg::A), src: Operand::Imm8, width: 2, cycles: 8 },
        0xC7 => Instr { opcode: Opcode::RST, dst: Operand::Unused, src: Operand::Unused, width: 1, cycles: 16 },
        0xC8 => Instr { opcode: Opcode::RET, dst: Operand::Unused, src: Operand::Unused, width: 1, cycles: 8 },
        0xC9 => Instr { opcode: Opcode::RET, dst: Operand::Unused, src: Operand::Unused, width: 1, cycles: 16 },
        0xCA => Instr { opcode: Opcode::JP, dst: Operand::Unused, src: Operand::Imm16, width: 3, cycles: 12 },
        0xCB => Instr { opcode: Opcode::PREFIX, dst: Operand::Unused, src: Operand::Unused, width: 1, cycles: 4 },
        0xCC => Instr { opcode: Opcode::CALL, dst: Operand::Unused, src: Operand::Imm16, width: 3, cycles: 12 },
        0xCD => Instr { opcode: Opcode::CALL, dst: Operand::Unused, src: Operand::Imm16, width: 3, cycles: 24 },
        0xCE => Instr { opcode: Opcode::ADC, dst: Operand::Value(Reg::A), src: Operand::Imm8, width: 2, cycles: 8 },
        0xCF => Instr { opcode: Opcode::RST, dst: Operand::Unused, src: Operand::Unused, width: 1, cycles: 16 },
        0xD0 => Instr { opcode: Opcode::RET, dst: Operand::Unused, src: Operand::Unused, width: 1, cycles: 8 },
        0xD1 => Instr { opcode: Opcode::POP, dst: Operand::Value(Reg::DE), src: Operand::Unused, width: 1, cycles: 12 },
        0xD2 => Instr { opcode: Opcode::JP, dst: Operand::Unused, src: Operand::Imm16, width: 3, cycles: 12 },
        0xD4 => Instr { opcode: Opcode::CALL, dst: Operand::Unused, src: Operand::Imm16, width: 3, cycles: 12 },
        0xD5 => Instr { opcode: Opcode::PUSH, dst: Operand::Unused, src: Operand::Value(Reg::DE), width: 1, cycles: 16 },
        0xD6 => Instr { opcode: Opcode::SUB, dst: Operand::Value(Reg::A), src: Operand::Imm8, width: 2, cycles: 8 },
        0xD7 => Instr { opcode: Opcode::RST, dst: Operand::Unused, src: Operand::Unused, width: 1, cycles: 16 },
        0xD8 => Instr { opcode: Opcode::RET, dst: Operand::Unused, src: Operand::Unused, width: 1, cycles: 8 },
        0xD9 => Instr { opcode: Opcode::RETI, dst: Operand::Unused, src: Operand::Unused, width: 1, cycles: 16 },
        0xDA => Instr { opcode: Opcode::JP, dst: Operand::Unused, src: Operand::Imm16, width: 3, cycles: 12 },
        0xDC => Instr { opcode: Opcode::CALL, dst: Operand::Unused, src: Operand::Imm16, width: 3, cycles: 12 },
        0xDE => Instr { opcode: Opcode::SBC, dst: Operand::Value(Reg::A), src: Operand::Imm8, width: 2, cycles: 8 },
        0xDF => Instr { opcode: Opcode::RST, dst: Operand::Unused, src: Operand::Unused, width: 1, cycles: 16 },
        0xE0 => Instr { opcode: Opcode::LDH, dst: Operand::DerefImm8, src: Operand::Value(Reg::A), width: 2, cycles: 12 },
        0xE1 => Instr { opcode: Opcode::POP, dst: Operand::Value(Reg::HL), src: Operand::Unused, width: 1, cycles: 12 },
        0xE2 => Instr { opcode: Opcode::LD, dst: Operand::DerefReg(Reg::C), src: Operand::Value(Reg::A), width: 1, cycles: 8 },
        0xE5 => Instr { opcode: Opcode::PUSH, dst: Operand::Unused, src: Operand::Value(Reg::HL), width: 1, cycles: 16 },
        0xE6 => Instr { opcode: Opcode::AND, dst: Operand::Value(Reg::A), src: Operand::Imm8, width: 2, cycles: 8 },
        0xE7 => Instr { opcode: Opcode::RST, dst: Operand::Unused, src: Operand::Unused, width: 1, cycles: 16 },
        0xE8 => Instr { opcode: Opcode::ADD, dst: Operand::Value(Reg::SP), src: Operand::Imm8, width: 2, cycles: 16 },
        0xE9 => Instr { opcode: Opcode::JP, dst: Operand::Unused, src: Operand::Value(Reg::HL), width: 1, cycles: 4 },
        0xEA => Instr { opcode: Opcode::LD, dst: Operand::DerefImm16, src: Operand::Value(Reg::A), width: 3, cycles: 16 },
        0xEE => Instr { opcode: Opcode::XOR, dst: Operand::Value(Reg::A), src: Operand::Imm8, width: 2, cycles: 8 },
        0xEF => Instr { opcode: Opcode::RST, dst: Operand::Unused, src: Operand::Unused, width: 1, cycles: 16 },
        0xF0 => Instr { opcode: Opcode::LDH, dst: Operand::Value(Reg::A), src: Operand::DerefImm8, width: 2, cycles: 12 },
        0xF1 => Instr { opcode: Opcode::POP, dst: Operand::Value(Reg::AF), src: Operand::Unused, width: 1, cycles: 12 },
        0xF2 => Instr { opcode: Opcode::LD, dst: Operand::Value(Reg::A), src: Operand::DerefReg(Reg::C), width: 1, cycles: 8 },
        0xF3 => Instr { opcode: Opcode::DI, dst: Operand::Unused, src: Operand::Unused, width: 1, cycles: 4 },
        0xF5 => Instr { opcode: Opcode::PUSH, dst: Operand::Unused, src: Operand::Value(Reg::AF), width: 1, cycles: 16 },
        0xF6 => Instr { opcode: Opcode::OR, dst: Operand::Value(Reg::A), src: Operand::Imm8, width: 2, cycles: 8 },
        0xF7 => Instr { opcode: Opcode::RST, dst: Operand::Unused, src: Operand::Unused, width: 1, cycles: 16 },
        0xF8 => Instr { opcode: Opcode::LDHL, dst: Operand::Value(Reg::HL), src: Operand::Imm8, width: 2, cycles: 12 },
        0xF9 => Instr { opcode: Opcode::LD, dst: Operand::Value(Reg::SP), src: Operand::Value(Reg::HL), width: 1, cycles: 8 },
        0xFA => Instr { opcode: Opcode::LD, dst: Operand::Value(Reg::A), src: Operand::DerefImm16, width: 3, cycles: 16 },
        0xFB => Instr { opcode: Opcode::EI, dst: Operand::Unused, src: Operand::Unused, width: 1, cycles: 4 },
        0xFE => Instr { opcode: Opcode::CP, dst: Operand::Value(Reg::A), src: Operand::Imm8, width: 2, cycles: 8 },
        0xFF => Instr { opcode: Opcode::RST, dst: Operand::Unused, src: Operand::Unused, width: 1, cycles: 16 },
        _ => Instr { opcode: Opcode::Invalid, dst: Operand::Unused, src: Operand::Unused, width: 1, cycles: 0 },
    }
}

} // verus!
