//! The disassembler: a listing of the instructions in an address range,
//! keyed by their start address.
use vstd::prelude::*;

use std::collections::BTreeMap;

use super::addr_modes::{length, sign_extend, Kind};
use super::opcodes::{lookup, opcode_info};
use super::operations::mnemonic;
use super::{Cpu, CpuCore};

verus! {

/// The hexadecimal digit of `d` (0..=15), upper case.
pub open spec fn hex_digit(d: u8) -> &'static str {
    match d {
        0 => "0",
        1 => "1",
        2 => "2",
        3 => "3",
        4 => "4",
        5 => "5",
        6 => "6",
        7 => "7",
        8 => "8",
        9 => "9",
        10 => "A",
        11 => "B",
        12 => "C",
        13 => "D",
        14 => "E",
        _ => "F",
    }
}

/// `v` as two hexadecimal digits.
pub open spec fn hex2(v: u8) -> Seq<char> {
    hex_digit(v / 16)@ + hex_digit(v % 16)@
}

/// `v` as four hexadecimal digits.
pub open spec fn hex4(v: u16) -> Seq<char> {
    hex2((v / 256) as u8) + hex2((v % 256) as u8)
}

/// The byte at `addr`, addresses wrapping past `0xFFFF`.
pub open spec fn byte_at(mem: Seq<u8>, addr: int) -> u8 {
    mem[addr % 0x10000]
}

/// What an operand in mode `k` starts with.
pub open spec fn operand_prefix(k: Kind) -> &'static str {
    match k {
        Kind::IMP => "",
        Kind::IMM => "#$",
        Kind::IZX | Kind::IZY | Kind::IND => "($",
        _ => "$",
    }
}

/// What an operand in mode `k` ends with: the index register, if any, and
/// the mode's tag.
pub open spec fn operand_suffix(k: Kind) -> &'static str {
    match k {
        Kind::IMP => " {IMP}",
        Kind::IMM => " {IMM}",
        Kind::ZP0 => " {ZP0}",
        Kind::ZPX => ", X {ZPX}",
        Kind::ZPY => ", Y {ZPY}",
        Kind::IZX => ", X) {IZX}",
        Kind::IZY => "), Y {IZY}",
        Kind::ABS => " {ABS}",
        Kind::ABX => ", X {ABX}",
        Kind::ABY => ", Y {ABY}",
        Kind::IND => ") {IND}",
        Kind::REL => "] {REL}",
    }
}

/// The value of an operand in mode `k` whose bytes start at `addr`: one or
/// two bytes in hexadecimal; for a branch, the offset byte and then the
/// target address.
pub open spec fn operand_value(mem: Seq<u8>, k: Kind, addr: int) -> Seq<char> {
    let b = byte_at(mem, addr);
    let w = (byte_at(mem, addr + 1) * 256 + b) as u16;
    match k {
        Kind::IMP => Seq::empty(),
        Kind::ABS | Kind::ABX | Kind::ABY | Kind::IND => hex4(w),
        Kind::REL => hex2(b) + " [$"@ + hex4(((addr + 1 + sign_extend(b)) % 0x10000) as u16),
        _ => hex2(b),
    }
}

/// The line of the instruction at `addr`: `$AAAA: MNE <operand> {MODE}`.
#[verifier::opaque]
pub open spec fn line_at(mem: Seq<u8>, addr: u16) -> Seq<char> {
    let e = opcode_info(byte_at(mem, addr as int));
    "$"@ + hex4(addr) + ": "@ + mnemonic(e.op)@ + " "@ + operand_prefix(e.mode)@ + operand_value(
        mem,
        e.mode,
        addr + 1,
    ) + operand_suffix(e.mode)@
}

/// `acc` with the lines of the instructions from `addr` up to `stop`, each
/// starting where the one before ends.
pub open spec fn listing(mem: Seq<u8>, addr: int, stop: int, acc: Map<u16, Seq<char>>) -> Map<
    u16,
    Seq<char>,
>
    decreases 0x10003 - addr,
{
    if addr > stop || addr < 0 || addr > 0xFFFF {
        acc
    } else {
        let next = addr + length(opcode_info(byte_at(mem, addr)).mode);
        listing(mem, next, stop, acc.insert(addr as u16, line_at(mem, addr as u16)))
    }
}

/// The lines of a map of strings, as character sequences.
pub open spec fn texts(m: Map<u16, String>) -> Map<u16, Seq<char>> {
    m.map_values(|s: String| s@)
}

fn hex_digit_str(d: u8) -> (r: &'static str)
    ensures
        r == hex_digit(d),
{
    match d {
        0 => "0",
        1 => "1",
        2 => "2",
        3 => "3",
        4 => "4",
        5 => "5",
        6 => "6",
        7 => "7",
        8 => "8",
        9 => "9",
        10 => "A",
        11 => "B",
        12 => "C",
        13 => "D",
        14 => "E",
        _ => "F",
    }
}

fn prefix_str(k: Kind) -> (r: &'static str)
    ensures
        r == operand_prefix(k),
{
    match k {
        Kind::IMP => "",
        Kind::IMM => "#$",
        Kind::IZX | Kind::IZY | Kind::IND => "($",
        _ => "$",
    }
}

fn suffix_str(k: Kind) -> (r: &'static str)
    ensures
        r == operand_suffix(k),
{
    match k {
        Kind::IMP => " {IMP}",
        Kind::IMM => " {IMM}",
        Kind::ZP0 => " {ZP0}",
        Kind::ZPX => ", X {ZPX}",
        Kind::ZPY => ", Y {ZPY}",
        Kind::IZX => ", X) {IZX}",
        Kind::IZY => "), Y {IZY}",
        Kind::ABS => " {ABS}",
        Kind::ABX => ", X {ABX}",
        Kind::ABY => ", Y {ABY}",
        Kind::IND => ") {IND}",
        Kind::REL => "] {REL}",
    }
}

fn push_hex2(s: &mut String, v: u8)
    ensures
        final(s)@ == old(s)@ + hex2(v),
{
    s.append(hex_digit_str(v / 16));
    s.append(hex_digit_str(v % 16));
    assert(final(s)@ =~= old(s)@ + hex2(v));
}

fn push_hex4(s: &mut String, v: u16)
    ensures
        final(s)@ == old(s)@ + hex4(v),
{
    push_hex2(s, (v / 256) as u8);
    push_hex2(s, (v % 256) as u8);
    assert(final(s)@ =~= old(s)@ + hex4(v));
}

impl CpuCore {
    /// The byte at `addr + offset`, addresses wrapping past `0xFFFF`.
    fn byte_after(&self, addr: u16, offset: u16) -> (r: u8)
        requires
            offset <= 2,
        ensures
            r == byte_at(self@.mem, addr + offset),
    {
        self.read(addr.wrapping_add(offset))
    }

    /// Appends the value of the operand of the instruction at `addr`, in
    /// mode `k`.
    fn push_operand_value(&self, line: &mut String, k: Kind, addr: u16)
        ensures
            final(line)@ == old(line)@ + operand_value(self@.mem, k, addr + 1),
    {
        let b = self.byte_after(addr, 1);
        match k {
            Kind::IMP => {
                assert(line@ =~= old(line)@ + operand_value(self@.mem, k, addr + 1));
            },
            Kind::ABS | Kind::ABX | Kind::ABY | Kind::IND => {
                let w = self.byte_after(addr, 2) as u16 * 256 + b as u16;
                push_hex4(line, w);
            },
            Kind::REL => {
                let offset: u16 = if b >= 0x80 { b as u16 + 0xFF00 } else { b as u16 };
                let target = addr.wrapping_add(2).wrapping_add(offset);
                assert(target == ((addr + 1 + 1 + sign_extend(b)) % 0x10000) as u16);
                push_hex2(line, b);
                line.append(" [$");
                push_hex4(line, target);
                assert(line@ =~= old(line)@ + operand_value(self@.mem, k, addr + 1));
            },
            _ => push_hex2(line, b),
        }
    }

    /// The line of the instruction at `addr` (see `line_at`).
    pub fn line_at(&self, addr: u16) -> (r: String)
        ensures
            r@ == line_at(self@.mem, addr),
    {
        let e = lookup(self.read(addr));
        let mut line = String::from_str("$");
        push_hex4(&mut line, addr);
        line.append(": ");
        line.append(e.op.name());
        line.append(" ");
        line.append(prefix_str(e.mode));
        self.push_operand_value(&mut line, e.mode, addr);
        line.append(suffix_str(e.mode));
        reveal(line_at);
        assert(line@ =~= line_at(self@.mem, addr));
        line
    }
}

impl Cpu {
    /// The listing of the instructions from `start_addr` up to `stop_addr`:
    /// each starts where the one before ends, and its line is keyed by its
    /// address. Memory and registers are left as they are.
    pub fn disassemble(&self, start_addr: u16, stop_addr: u16) -> (r: BTreeMap<u16, String>)
        ensures
            texts(r@) == listing(self.core@.mem, start_addr as int, stop_addr as int, Map::empty()),
    {
        let mut addr: u32 = start_addr as u32;
        let mut lines: BTreeMap<u16, String> = BTreeMap::new();
        assert(texts(lines@) =~= Map::empty());
        while addr <= stop_addr as u32
            invariant
                addr <= 0x10002,
                listing(self.core@.mem, addr as int, stop_addr as int, texts(lines@)) == listing(
                    self.core@.mem,
                    start_addr as int,
                    stop_addr as int,
                    Map::empty(),
                ),
            decreases 0x10003 - addr,
        {
            let a = addr as u16;
            let line = self.core.line_at(a);
            let ghost before = lines@;
            lines.insert(a, line);
            assert(texts(lines@) =~= texts(before).insert(a, line@));
            let len: u32 = match lookup(self.core.read(a)).mode {
                Kind::IMP => 1,
                Kind::ABS | Kind::ABX | Kind::ABY | Kind::IND => 3,
                _ => 2,
            };
            addr = addr + len;
        }
        lines
    }
}

} // verus!
