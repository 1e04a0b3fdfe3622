//! The opcode table: for each of the 256 opcode bytes, the operation, the
//! addressing mode and the base cycle count.
use vstd::prelude::*;

use super::addr_modes::Kind;
use super::operations::Op;

verus! {

/// One entry of the opcode table.
#[derive(Clone, Copy, Debug, PartialEq, Eq, Structural)]
pub struct Opcode {
    pub op: Op,
    pub mode: Kind,
    /// Base cycle count.
    pub cycles: u8,
}

pub open spec fn entry(op: Op, mode: Kind, cycles: u8) -> Opcode {
    Opcode { op, mode, cycles }
}

/// The descriptor of `opcode`: the official opcodes and the undocumented
/// NOPs; every other byte is the safe no-op `XXX`, in implied mode, with no
/// cycles. The table is written one row (high nibble) at a time.
pub open spec fn opcode_info(opcode: u8) -> Opcode {
    match opcode / 16 {
        0 => row_0(opcode),
        1 => row_1(opcode),
        2 => row_2(opcode),
        3 => row_3(opcode),
        4 => row_4(opcode),
        5 => row_5(opcode),
        6 => row_6(opcode),
        7 => row_7(opcode),
        8 => row_8(opcode),
        9 => row_9(opcode),
        10 => row_a(opcode),
        11 => row_b(opcode),
        12 => row_c(opcode),
        13 => row_d(opcode),
        14 => row_e(opcode),
        _ => row_f(opcode),
    }
}

pub open spec fn row_0(opcode: u8) -> Opcode {
    match opcode {
        0x00 => entry(Op::BRK, Kind::IMP, 7),
        0x01 => entry(Op::ORA, Kind::IZX, 6),
        0x04 => entry(Op::NOP, Kind::ZP0, 3),
        0x05 => entry(Op::ORA, Kind::ZP0, 3),
        0x06 => entry(Op::ASL, Kind::ZP0, 5),
        0x08 => entry(Op::PHP, Kind::IMP, 3),
        0x09 => entry(Op::ORA, Kind::IMM, 2),
        0x0A => entry(Op::ASL, Kind::IMP, 2),
        0x0C => entry(Op::NOP, Kind::ABS, 4),
        0x0D => entry(Op::ORA, Kind::ABS, 4),
        0x0E => entry(Op::ASL, Kind::ABS, 6),
        _ => entry(Op::XXX, Kind::IMP, 0),
    }
}

pub open spec fn row_1(opcode: u8) -> Opcode {
    match opcode {
        0x10 => entry(Op::BPL, Kind::REL, 2),
        0x11 => entry(Op::ORA, Kind::IZY, 5),
        0x14 => entry(Op::NOP, Kind::ZPX, 4),
        0x15 => entry(Op::ORA, Kind::ZPX, 4),
        0x16 => entry(Op::ASL, Kind::ZPX, 6),
        0x18 => entry(Op::CLC, Kind::IMP, 2),
        0x19 => entry(Op::ORA, Kind::ABY, 4),
        0x1A => entry(Op::NOP, Kind::IMP, 2),
        0x1C => entry(Op::NOP, Kind::ABX, 4),
        0x1D => entry(Op::ORA, Kind::ABX, 4),
        0x1E => entry(Op::ASL, Kind::ABX, 7),
        _ => entry(Op::XXX, Kind::IMP, 0),
    }
}

pub open spec fn row_2(opcode: u8) -> Opcode {
    match opcode {
        0x20 => entry(Op::JSR, Kind::ABS, 6),
        0x21 => entry(Op::AND, Kind::IZX, 6),
        0x24 => entry(Op::BIT, Kind::ZP0, 3),
        0x25 => entry(Op::AND, Kind::ZP0, 3),
        0x26 => entry(Op::ROL, Kind::ZP0, 5),
        0x28 => entry(Op::PLP, Kind::IMP, 4),
        0x29 => entry(Op::AND, Kind::IMM, 2),
        0x2A => entry(Op::ROL, Kind::IMP, 2),
        0x2C => entry(Op::BIT, Kind::ABS, 4),
        0x2D => entry(Op::AND, Kind::ABS, 4),
        0x2E => entry(Op::ROL, Kind::ABS, 6),
        _ => entry(Op::XXX, Kind::IMP, 0),
    }
}

pub open spec fn row_3(opcode: u8) -> Opcode {
    match opcode {
        0x30 => entry(Op::BMI, Kind::REL, 2),
        0x31 => entry(Op::AND, Kind::IZY, 5),
        0x34 => entry(Op::NOP, Kind::ZPX, 4),
        0x35 => entry(Op::AND, Kind::ZPX, 4),
        0x36 => entry(Op::ROL, Kind::ZPX, 6),
        0x38 => entry(Op::SEC, Kind::IMP, 2),
        0x39 => entry(Op::AND, Kind::ABY, 4),
        0x3A => entry(Op::NOP, Kind::IMP, 2),
        0x3C => entry(Op::NOP, Kind::ABX, 4),
        0x3D => entry(Op::AND, Kind::ABX, 4),
        0x3E => entry(Op::ROL, Kind::ABX, 7),
        _ => entry(Op::XXX, Kind::IMP, 0),
    }
}

pub open spec fn row_4(opcode: u8) -> Opcode {
    match opcode {
        0x40 => entry(Op::RTI, Kind::IMP, 6),
        0x41 => entry(Op::EOR, Kind::IZX, 6),
        0x44 => entry(Op::NOP, Kind::ZP0, 3),
        0x45 => entry(Op::EOR, Kind::ZP0, 3),
        0x46 => entry(Op::LSR, Kind::ZP0, 5),
        0x48 => entry(Op::PHA, Kind::IMP, 3),
        0x49 => entry(Op::EOR, Kind::IMM, 2),
        0x4A => entry(Op::LSR, Kind::IMP, 2),
        0x4C => entry(Op::JMP, Kind::ABS, 3),
        0x4D => entry(Op::EOR, Kind::ABS, 4),
        0x4E => entry(Op::LSR, Kind::ABS, 6),
        _ => entry(Op::XXX, Kind::IMP, 0),
    }
}

pub open spec fn row_5(opcode: u8) -> Opcode {
    match opcode {
        0x50 => entry(Op::BVC, Kind::REL, 2),
        0x51 => entry(Op::EOR, Kind::IZY, 5),
        0x54 => entry(Op::NOP, Kind::ZPX, 4),
        0x55 => entry(Op::EOR, Kind::ZPX, 4),
        0x56 => entry(Op::LSR, Kind::ZPX, 6),
        0x58 => entry(Op::CLI, Kind::IMP, 2),
        0x59 => entry(Op::EOR, Kind::ABY, 4),
        0x5A => entry(Op::NOP, Kind::IMP, 2),
        0x5C => entry(Op::NOP, Kind::ABX, 4),
        0x5D => entry(Op::EOR, Kind::ABX, 4),
        0x5E => entry(Op::LSR, Kind::ABX, 7),
        _ => entry(Op::XXX, Kind::IMP, 0),
    }
}

pub open spec fn row_6(opcode: u8) -> Opcode {
    match opcode {
        0x60 => entry(Op::RTS, Kind::IMP, 6),
        0x61 => entry(Op::ADC, Kind::IZX, 6),
        0x64 => entry(Op::NOP, Kind::ZP0, 3),
        0x65 => entry(Op::ADC, Kind::ZP0, 3),
        0x66 => entry(Op::ROR, Kind::ZP0, 5),
        0x68 => entry(Op::PLA, Kind::IMP, 4),
        0x69 => entry(Op::ADC, Kind::IMM, 2),
        0x6A => entry(Op::ROR, Kind::IMP, 2),
        0x6C => entry(Op::JMP, Kind::IND, 5),
        0x6D => entry(Op::ADC, Kind::ABS, 4),
        0x6E => entry(Op::ROR, Kind::ABS, 6),
        _ => entry(Op::XXX, Kind::IMP, 0),
    }
}

pub open spec fn row_7(opcode: u8) -> Opcode {
    match opcode {
        0x70 => entry(Op::BVS, Kind::REL, 2),
        0x71 => entry(Op::ADC, Kind::IZY, 5),
        0x74 => entry(Op::NOP, Kind::ZPX, 4),
        0x75 => entry(Op::ADC, Kind::ZPX, 4),
        0x76 => entry(Op::ROR, Kind::ZPX, 6),
        0x78 => entry(Op::SEI, Kind::IMP, 2),
        0x79 => entry(Op::ADC, Kind::ABY, 4),
        0x7A => entry(Op::NOP, Kind::IMP, 2),
        0x7C => entry(Op::NOP, Kind::ABX, 4),
        0x7D => entry(Op::ADC, Kind::ABX, 4),
        0x7E => entry(Op::ROR, Kind::ABX, 7),
        _ => entry(Op::XXX, Kind::IMP, 0),
    }
}

pub open spec fn row_8(opcode: u8) -> Opcode {
    match opcode {
        0x80 => entry(Op::NOP, Kind::IMM, 2),
        0x81 => entry(Op::STA, Kind::IZX, 6),
        0x82 => entry(Op::NOP, Kind::IMM, 2),
        0x84 => entry(Op::STY, Kind::ZP0, 3),
        0x85 => entry(Op::STA, Kind::ZP0, 3),
        0x86 => entry(Op::STX, Kind::ZP0, 3),
        0x88 => entry(Op::DEY, Kind::IMP, 2),
        0x89 => entry(Op::NOP, Kind::IMM, 2),
        0x8A => entry(Op::TXA, Kind::IMP, 2),
        0x8C => entry(Op::STY, Kind::ABS, 4),
        0x8D => entry(Op::STA, Kind::ABS, 4),
        0x8E => entry(Op::STX, Kind::ABS, 4),
        _ => entry(Op::XXX, Kind::IMP, 0),
    }
}

pub open spec fn row_9(opcode: u8) -> Opcode {
    match opcode {
        0x90 => entry(Op::BCC, Kind::REL, 2),
        0x91 => entry(Op::STA, Kind::IZY, 6),
        0x94 => entry(Op::STY, Kind::ZPX, 4),
        0x95 => entry(Op::STA, Kind::ZPX, 4),
        0x96 => entry(Op::STX, Kind::ZPY, 4),
        0x98 => entry(Op::TYA, Kind::IMP, 2),
        0x99 => entry(Op::STA, Kind::ABY, 5),
        0x9A => entry(Op::TXS, Kind::IMP, 2),
        0x9D => entry(Op::STA, Kind::ABX, 5),
        _ => entry(Op::XXX, Kind::IMP, 0),
    }
}

pub open spec fn row_a(opcode: u8) -> Opcode {
    match opcode {
        0xA0 => entry(Op::LDY, Kind::IMM, 2),
        0xA1 => entry(Op::LDA, Kind::IZX, 6),
        0xA2 => entry(Op::LDX, Kind::IMM, 2),
        0xA4 => entry(Op::LDY, Kind::ZP0, 3),
        0xA5 => entry(Op::LDA, Kind::ZP0, 3),
        0xA6 => entry(Op::LDX, Kind::ZP0, 3),
        0xA8 => entry(Op::TAY, Kind::IMP, 2),
        0xA9 => entry(Op::LDA, Kind::IMM, 2),
        0xAA => entry(Op::TAX, Kind::IMP, 2),
        0xAC => entry(Op::LDY, Kind::ABS, 4),
        0xAD => entry(Op::LDA, Kind::ABS, 4),
        0xAE => entry(Op::LDX, Kind::ABS, 4),
        _ => entry(Op::XXX, Kind::IMP, 0),
    }
}

pub open spec fn row_b(opcode: u8) -> Opcode {
    match opcode {
        0xB0 => entry(Op::BCS, Kind::REL, 2),
        0xB1 => entry(Op::LDA, Kind::IZY, 5),
        0xB4 => entry(Op::LDY, Kind::ZPX, 4),
        0xB5 => entry(Op::LDA, Kind::ZPX, 4),
        0xB6 => entry(Op::LDX, Kind::ZPY, 4),
        0xB8 => entry(Op::CLV, Kind::IMP, 2),
        0xB9 => entry(Op::LDA, Kind::ABY, 4),
        0xBA => entry(Op::TSX, Kind::IMP, 2),
        0xBC => entry(Op::LDY, Kind::ABX, 4),
        0xBD => entry(Op::LDA, Kind::ABX, 4),
        0xBE => entry(Op::LDX, Kind::ABY, 4),
        _ => entry(Op::XXX, Kind::IMP, 0),
    }
}

pub open spec fn row_c(opcode: u8) -> Opcode {
    match opcode {
        0xC0 => entry(Op::CPY, Kind::IMM, 2),
        0xC1 => entry(Op::CMP, Kind::IZX, 6),
        0xC2 => entry(Op::NOP, Kind::IMM, 2),
        0xC4 => entry(Op::CPY, Kind::ZP0, 3),
        0xC5 => entry(Op::CMP, Kind::ZP0, 3),
        0xC6 => entry(Op::DEC, Kind::ZP0, 5),
        0xC8 => entry(Op::INY, Kind::IMP, 2),
        0xC9 => entry(Op::CMP, Kind::IMM, 2),
        0xCA => entry(Op::DEX, Kind::IMP, 2),
        0xCC => entry(Op::CPY, Kind::ABS, 4),
        0xCD => entry(Op::CMP, Kind::ABS, 4),
        0xCE => entry(Op::DEC, Kind::ABS, 6),
        _ => entry(Op::XXX, Kind::IMP, 0),
    }
}

pub open spec fn row_d(opcode: u8) -> Opcode {
    match opcode {
        0xD0 => entry(Op::BNE, Kind::REL, 2),
        0xD1 => entry(Op::CMP, Kind::IZY, 5),
        0xD4 => entry(Op::NOP, Kind::ZPX, 4),
        0xD5 => entry(Op::CMP, Kind::ZPX, 4),
        0xD6 => entry(Op::DEC, Kind::ZPX, 6),
        0xD8 => entry(Op::CLD, Kind::IMP, 2),
        0xD9 => entry(Op::CMP, Kind::ABY, 4),
        0xDA => entry(Op::NOP, Kind::IMP, 2),
        0xDC => entry(Op::NOP, Kind::ABX, 4),
        0xDD => entry(Op::CMP, Kind::ABX, 4),
        0xDE => entry(Op::DEC, Kind::ABX, 7),
        _ => entry(Op::XXX, Kind::IMP, 0),
    }
}

pub open spec fn row_e(opcode: u8) -> Opcode {
    match opcode {
        0xE0 => entry(Op::CPX, Kind::IMM, 2),
        0xE1 => entry(Op::SBC, Kind::IZX, 6),
        0xE2 => entry(Op::NOP, Kind::IMM, 2),
        0xE4 => entry(Op::CPX, Kind::ZP0, 3),
        0xE5 => entry(Op::SBC, Kind::ZP0, 3),
        0xE6 => entry(Op::INC, Kind::ZP0, 5),
        0xE8 => entry(Op::INX, Kind::IMP, 2),
        0xE9 => entry(Op::SBC, Kind::IMM, 2),
        0xEA => entry(Op::NOP, Kind::IMP, 2),
        0xEC => entry(Op::CPX, Kind::ABS, 4),
        0xED => entry(Op::SBC, Kind::ABS, 4),
        0xEE => entry(Op::INC, Kind::ABS, 6),
        _ => entry(Op::XXX, Kind::IMP, 0),
    }
}

pub open spec fn row_f(opcode: u8) -> Opcode {
    match opcode {
        0xF0 => entry(Op::BEQ, Kind::REL, 2),
        0xF1 => entry(Op::SBC, Kind::IZY, 5),
        0xF4 => entry(Op::NOP, Kind::ZPX, 4),
        0xF5 => entry(Op::SBC, Kind::ZPX, 4),
        0xF6 => entry(Op::INC, Kind::ZPX, 6),
        0xF8 => entry(Op::SED, Kind::IMP, 2),
        0xF9 => entry(Op::SBC, Kind::ABY, 4),
        0xFA => entry(Op::NOP, Kind::IMP, 2),
        0xFC => entry(Op::NOP, Kind::ABX, 4),
        0xFD => entry(Op::SBC, Kind::ABX, 4),
        0xFE => entry(Op::INC, Kind::ABX, 7),
        _ => entry(Op::XXX, Kind::IMP, 0),
    }
}

fn make(op: Op, mode: Kind, cycles: u8) -> (r: Opcode)
    ensures
        r == entry(op, mode, cycles),
{
    Opcode { op, mode, cycles }
}

/// Looks `opcode` up in the table.
pub fn lookup(opcode: u8) -> (r: Opcode)
    ensures
        r == opcode_info(opcode),
{
    match opcode / 16 {
        0 => lookup_row_0(opcode),
        1 => lookup_row_1(opcode),
        2 => lookup_row_2(opcode),
        3 => lookup_row_3(opcode),
        4 => lookup_row_4(opcode),
        5 => lookup_row_5(opcode),
        6 => lookup_row_6(opcode),
        7 => lookup_row_7(opcode),
        8 => lookup_row_8(opcode),
        9 => lookup_row_9(opcode),
        10 => lookup_row_a(opcode),
        11 => lookup_row_b(opcode),
        12 => lookup_row_c(opcode),
        13 => lookup_row_d(opcode),
        14 => lookup_row_e(opcode),
        _ => lookup_row_f(opcode),
    }
}

fn lookup_row_0(opcode: u8) -> (r: Opcode)
    ensures
        r == row_0(opcode),
{
    match opcode {
        0x00 => make(Op::BRK, Kind::IMP, 7),
        0x01 => make(Op::ORA, Kind::IZX, 6),
        0x04 => make(Op::NOP, Kind::ZP0, 3),
        0x05 => make(Op::ORA, Kind::ZP0, 3),
        0x06 => make(Op::ASL, Kind::ZP0, 5),
        0x08 => make(Op::PHP, Kind::IMP, 3),
        0x09 => make(Op::ORA, Kind::IMM, 2),
        0x0A => make(Op::ASL, Kind::IMP, 2),
        0x0C => make(Op::NOP, Kind::ABS, 4),
        0x0D => make(Op::ORA, Kind::ABS, 4),
        0x0E => make(Op::ASL, Kind::ABS, 6),
        _ => make(Op::XXX, Kind::IMP, 0),
    }
}

fn lookup_row_1(opcode: u8) -> (r: Opcode)
    ensures
        r == row_1(opcode),
{
    match opcode {
        0x10 => make(Op::BPL, Kind::REL, 2),
        0x11 => make(Op::ORA, Kind::IZY, 5),
        0x14 => make(Op::NOP, Kind::ZPX, 4),
        0x15 => make(Op::ORA, Kind::ZPX, 4),
        0x16 => make(Op::ASL, Kind::ZPX, 6),
        0x18 => make(Op::CLC, Kind::IMP, 2),
        0x19 => make(Op::ORA, Kind::ABY, 4),
        0x1A => make(Op::NOP, Kind::IMP, 2),
        0x1C => make(Op::NOP, Kind::ABX, 4),
        0x1D => make(Op::ORA, Kind::ABX, 4),
        0x1E => make(Op::ASL, Kind::ABX, 7),
        _ => make(Op::XXX, Kind::IMP, 0),
    }
}

fn lookup_row_2(opcode: u8) -> (r: Opcode)
    ensures
        r == row_2(opcode),
{
    match opcode {
        0x20 => make(Op::JSR, Kind::ABS, 6),
        0x21 => make(Op::AND, Kind::IZX, 6),
        0x24 => make(Op::BIT, Kind::ZP0, 3),
        0x25 => make(Op::AND, Kind::ZP0, 3),
        0x26 => make(Op::ROL, Kind::ZP0, 5),
        0x28 => make(Op::PLP, Kind::IMP, 4),
        0x29 => make(Op::AND, Kind::IMM, 2),
        0x2A => make(Op::ROL, Kind::IMP, 2),
        0x2C => make(Op::BIT, Kind::ABS, 4),
        0x2D => make(Op::AND, Kind::ABS, 4),
        0x2E => make(Op::ROL, Kind::ABS, 6),
        _ => make(Op::XXX, Kind::IMP, 0),
    }
}

fn lookup_row_3(opcode: u8) -> (r: Opcode)
    ensures
        r == row_3(opcode),
{
    match opcode {
        0x30 => make(Op::BMI, Kind::REL, 2),
        0x31 => make(Op::AND, Kind::IZY, 5),
        0x34 => make(Op::NOP, Kind::ZPX, 4),
        0x35 => make(Op::AND, Kind::ZPX, 4),
        0x36 => make(Op::ROL, Kind::ZPX, 6),
        0x38 => make(Op::SEC, Kind::IMP, 2),
        0x39 => make(Op::AND, Kind::ABY, 4),
        0x3A => make(Op::NOP, Kind::IMP, 2),
        0x3C => make(Op::NOP, Kind::ABX, 4),
        0x3D => make(Op::AND, Kind::ABX, 4),
        0x3E => make(Op::ROL, Kind::ABX, 7),
        _ => make(Op::XXX, Kind::IMP, 0),
    }
}

fn lookup_row_4(opcode: u8) -> (r: Opcode)
    ensures
        r == row_4(opcode),
{
    match opcode {
        0x40 => make(Op::RTI, Kind::IMP, 6),
        0x41 => make(Op::EOR, Kind::IZX, 6),
        0x44 => make(Op::NOP, Kind::ZP0, 3),
        0x45 => make(Op::EOR, Kind::ZP0, 3),
        0x46 => make(Op::LSR, Kind::ZP0, 5),
        0x48 => make(Op::PHA, Kind::IMP, 3),
        0x49 => make(Op::EOR, Kind::IMM, 2),
        0x4A => make(Op::LSR, Kind::IMP, 2),
        0x4C => make(Op::JMP, Kind::ABS, 3),
        0x4D => make(Op::EOR, Kind::ABS, 4),
        0x4E => make(Op::LSR, Kind::ABS, 6),
        _ => make(Op::XXX, Kind::IMP, 0),
    }
}

fn lookup_row_5(opcode: u8) -> (r: Opcode)
    ensures
        r == row_5(opcode),
{
    match opcode {
        0x50 => make(Op::BVC, Kind::REL, 2),
        0x51 => make(Op::EOR, Kind::IZY, 5),
        0x54 => make(Op::NOP, Kind::ZPX, 4),
        0x55 => make(Op::EOR, Kind::ZPX, 4),
        0x56 => make(Op::LSR, Kind::ZPX, 6),
        0x58 => make(Op::CLI, Kind::IMP, 2),
        0x59 => make(Op::EOR, Kind::ABY, 4),
        0x5A => make(Op::NOP, Kind::IMP, 2),
        0x5C => make(Op::NOP, Kind::ABX, 4),
        0x5D => make(Op::EOR, Kind::ABX, 4),
        0x5E => make(Op::LSR, Kind::ABX, 7),
        _ => make(Op::XXX, Kind::IMP, 0),
    }
}

fn lookup_row_6(opcode: u8) -> (r: Opcode)
    ensures
        r == row_6(opcode),
{
    match opcode {
        0x60 => make(Op::RTS, Kind::IMP, 6),
        0x61 => make(Op::ADC, Kind::IZX, 6),
        0x64 => make(Op::NOP, Kind::ZP0, 3),
        0x65 => make(Op::ADC, Kind::ZP0, 3),
        0x66 => make(Op::ROR, Kind::ZP0, 5),
        0x68 => make(Op::PLA, Kind::IMP, 4),
        0x69 => make(Op::ADC, Kind::IMM, 2),
        0x6A => make(Op::ROR, Kind::IMP, 2),
        0x6C => make(Op::JMP, Kind::IND, 5),
        0x6D => make(Op::ADC, Kind::ABS, 4),
        0x6E => make(Op::ROR, Kind::ABS, 6),
        _ => make(Op::XXX, Kind::IMP, 0),
    }
}

fn lookup_row_7(opcode: u8) -> (r: Opcode)
    ensures
        r == row_7(opcode),
{
    match opcode {
        0x70 => make(Op::BVS, Kind::REL, 2),
        0x71 => make(Op::ADC, Kind::IZY, 5),
        0x74 => make(Op::NOP, Kind::ZPX, 4),
        0x75 => make(Op::ADC, Kind::ZPX, 4),
        0x76 => make(Op::ROR, Kind::ZPX, 6),
        0x78 => make(Op::SEI, Kind::IMP, 2),
        0x79 => make(Op::ADC, Kind::ABY, 4),
        0x7A => make(Op::NOP, Kind::IMP, 2),
        0x7C => make(Op::NOP, Kind::ABX, 4),
        0x7D => make(Op::ADC, Kind::ABX, 4),
        0x7E => make(Op::ROR, Kind::ABX, 7),
        _ => make(Op::XXX, Kind::IMP, 0),
    }
}

fn lookup_row_8(opcode: u8) -> (r: Opcode)
    ensures
        r == row_8(opcode),
{
    match opcode {
        0x80 => make(Op::NOP, Kind::IMM, 2),
        0x81 => make(Op::STA, Kind::IZX, 6),
        0x82 => make(Op::NOP, Kind::IMM, 2),
        0x84 => make(Op::STY, Kind::ZP0, 3),
        0x85 => make(Op::STA, Kind::ZP0, 3),
        0x86 => make(Op::STX, Kind::ZP0, 3),
        0x88 => make(Op::DEY, Kind::IMP, 2),
        0x89 => make(Op::NOP, Kind::IMM, 2),
        0x8A => make(Op::TXA, Kind::IMP, 2),
        0x8C => make(Op::STY, Kind::ABS, 4),
        0x8D => make(Op::STA, Kind::ABS, 4),
        0x8E => make(Op::STX, Kind::ABS, 4),
        _ => make(Op::XXX, Kind::IMP, 0),
    }
}

fn lookup_row_9(opcode: u8) -> (r: Opcode)
    ensures
        r == row_9(opcode),
{
    match opcode {
        0x90 => make(Op::BCC, Kind::REL, 2),
        0x91 => make(Op::STA, Kind::IZY, 6),
        0x94 => make(Op::STY, Kind::ZPX, 4),
        0x95 => make(Op::STA, Kind::ZPX, 4),
        0x96 => make(Op::STX, Kind::ZPY, 4),
        0x98 => make(Op::TYA, Kind::IMP, 2),
        0x99 => make(Op::STA, Kind::ABY, 5),
        0x9A => make(Op::TXS, Kind::IMP, 2),
        0x9D => make(Op::STA, Kind::ABX, 5),
        _ => make(Op::XXX, Kind::IMP, 0),
    }
}

fn lookup_row_a(opcode: u8) -> (r: Opcode)
    ensures
        r == row_a(opcode),
{
    match opcode {
        0xA0 => make(Op::LDY, Kind::IMM, 2),
        0xA1 => make(Op::LDA, Kind::IZX, 6),
        0xA2 => make(Op::LDX, Kind::IMM, 2),
        0xA4 => make(Op::LDY, Kind::ZP0, 3),
        0xA5 => make(Op::LDA, Kind::ZP0, 3),
        0xA6 => make(Op::LDX, Kind::ZP0, 3),
        0xA8 => make(Op::TAY, Kind::IMP, 2),
        0xA9 => make(Op::LDA, Kind::IMM, 2),
        0xAA => make(Op::TAX, Kind::IMP, 2),
        0xAC => make(Op::LDY, Kind::ABS, 4),
        0xAD => make(Op::LDA, Kind::ABS, 4),
        0xAE => make(Op::LDX, Kind::ABS, 4),
        _ => make(Op::XXX, Kind::IMP, 0),
    }
}

fn lookup_row_b(opcode: u8) -> (r: Opcode)
    ensures
        r == row_b(opcode),
{
    match opcode {
        0xB0 => make(Op::BCS, Kind::REL, 2),
        0xB1 => make(Op::LDA, Kind::IZY, 5),
        0xB4 => make(Op::LDY, Kind::ZPX, 4),
        0xB5 => make(Op::LDA, Kind::ZPX, 4),
        0xB6 => make(Op::LDX, Kind::ZPY, 4),
        0xB8 => make(Op::CLV, Kind::IMP, 2),
        0xB9 => make(Op::LDA, Kind::ABY, 4),
        0xBA => make(Op::TSX, Kind::IMP, 2),
        0xBC => make(Op::LDY, Kind::ABX, 4),
        0xBD => make(Op::LDA, Kind::ABX, 4),
        0xBE => make(Op::LDX, Kind::ABY, 4),
        _ => make(Op::XXX, Kind::IMP, 0),
    }
}

fn lookup_row_c(opcode: u8) -> (r: Opcode)
    ensures
        r == row_c(opcode),
{
    match opcode {
        0xC0 => make(Op::CPY, Kind::IMM, 2),
        0xC1 => make(Op::CMP, Kind::IZX, 6),
        0xC2 => make(Op::NOP, Kind::IMM, 2),
        0xC4 => make(Op::CPY, Kind::ZP0, 3),
        0xC5 => make(Op::CMP, Kind::ZP0, 3),
        0xC6 => make(Op::DEC, Kind::ZP0, 5),
        0xC8 => make(Op::INY, Kind::IMP, 2),
        0xC9 => make(Op::CMP, Kind::IMM, 2),
        0xCA => make(Op::DEX, Kind::IMP, 2),
        0xCC => make(Op::CPY, Kind::ABS, 4),
        0xCD => make(Op::CMP, Kind::ABS, 4),
        0xCE => make(Op::DEC, Kind::ABS, 6),
        _ => make(Op::XXX, Kind::IMP, 0),
    }
}

fn lookup_row_d(opcode: u8) -> (r: Opcode)
    ensures
        r == row_d(opcode),
{
    match opcode {
        0xD0 => make(Op::BNE, Kind::REL, 2),
        0xD1 => make(Op::CMP, Kind::IZY, 5),
        0xD4 => make(Op::NOP, Kind::ZPX, 4),
        0xD5 => make(Op::CMP, Kind::ZPX, 4),
        0xD6 => make(Op::DEC, Kind::ZPX, 6),
        0xD8 => make(Op::CLD, Kind::IMP, 2),
        0xD9 => make(Op::CMP, Kind::ABY, 4),
        0xDA => make(Op::NOP, Kind::IMP, 2),
        0xDC => make(Op::NOP, Kind::ABX, 4),
        0xDD => make(Op::CMP, Kind::ABX, 4),
        0xDE => make(Op::DEC, Kind::ABX, 7),
        _ => make(Op::XXX, Kind::IMP, 0),
    }
}

fn lookup_row_e(opcode: u8) -> (r: Opcode)
    ensures
        r == row_e(opcode),
{
    match opcode {
        0xE0 => make(Op::CPX, Kind::IMM, 2),
        0xE1 => make(Op::SBC, Kind::IZX, 6),
        0xE2 => make(Op::NOP, Kind::IMM, 2),
        0xE4 => make(Op::CPX, Kind::ZP0, 3),
        0xE5 => make(Op::SBC, Kind::ZP0, 3),
        0xE6 => make(Op::INC, Kind::ZP0, 5),
        0xE8 => make(Op::INX, Kind::IMP, 2),
        0xE9 => make(Op::SBC, Kind::IMM, 2),
        0xEA => make(Op::NOP, Kind::IMP, 2),
        0xEC => make(Op::CPX, Kind::ABS, 4),
        0xED => make(Op::SBC, Kind::ABS, 4),
        0xEE => make(Op::INC, Kind::ABS, 6),
        _ => make(Op::XXX, Kind::IMP, 0),
    }
}

fn lookup_row_f(opcode: u8) -> (r: Opcode)
    ensures
        r == row_f(opcode),
{
    match opcode {
        0xF0 => make(Op::BEQ, Kind::REL, 2),
        0xF1 => make(Op::SBC, Kind::IZY, 5),
        0xF4 => make(Op::NOP, Kind::ZPX, 4),
        0xF5 => make(Op::SBC, Kind::ZPX, 4),
        0xF6 => make(Op::INC, Kind::ZPX, 6),
        0xF8 => make(Op::SED, Kind::IMP, 2),
        0xF9 => make(Op::SBC, Kind::ABY, 4),
        0xFA => make(Op::NOP, Kind::IMP, 2),
        0xFC => make(Op::NOP, Kind::ABX, 4),
        0xFD => make(Op::SBC, Kind::ABX, 4),
        0xFE => make(Op::INC, Kind::ABX, 7),
        _ => make(Op::XXX, Kind::IMP, 0),
    }
}

} // verus!
