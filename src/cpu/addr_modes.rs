//! The twelve addressing modes. Each reads its operand bytes at PC, moves PC
//! past them, resolves `addr_abs` (or `addr_rel`, or `fetched` for implied
//! mode) and reports whether indexing crossed a page.
use vstd::prelude::*;

use super::{add16, inc16, page, word, CpuCore, CpuState};

verus! {

#[derive(Clone, Copy, Debug, PartialEq, Eq, Structural)]
pub enum Kind {
    IMP,
    IMM,
    ZP0,
    ZPX,
    ZPY,
    REL,
    ABS,
    ABX,
    ABY,
    IND,
    IZX,
    IZY,
}

/// Number of bytes an instruction in mode `k` takes, opcode included.
pub open spec fn length(k: Kind) -> nat {
    match k {
        Kind::IMP => 1,
        Kind::ABS | Kind::ABX | Kind::ABY | Kind::IND => 3,
        _ => 2,
    }
}

/// `b` sign-extended to 16 bits.
pub open spec fn sign_extend(b: u8) -> u16 {
    if b >= 0x80 { (b + 0xFF00) as u16 } else { b as u16 }
}

/// The state after mode `k` has resolved its operand, and whether a page
/// was crossed.
#[verifier::opaque]
pub open spec fn mode_effect(k: Kind, s: CpuState) -> (CpuState, bool) {
    let pc1 = inc16(s.pc);
    let pc2 = inc16(pc1);
    let b = s.read(s.pc);
    match k {
        Kind::IMP => (CpuState { fetched: s.a, ..s }, false),
        Kind::IMM => (CpuState { addr_abs: s.pc, pc: pc1, ..s }, false),
        Kind::ZP0 => (CpuState { addr_abs: b as u16, pc: pc1, ..s }, false),
        Kind::ZPX => (CpuState { addr_abs: ((b + s.x) % 256) as u16, pc: pc1, ..s }, false),
        Kind::ZPY => (CpuState { addr_abs: ((b + s.y) % 256) as u16, pc: pc1, ..s }, false),
        Kind::REL => (CpuState { addr_rel: sign_extend(b), pc: pc1, ..s }, false),
        Kind::ABS => (CpuState { addr_abs: s.read16(s.pc), pc: pc2, ..s }, false),
        Kind::ABX => {
            let base = s.read16(s.pc);
            let t = add16(base, s.x as u16);
            (CpuState { addr_abs: t, pc: pc2, ..s }, page(t) != page(base))
        },
        Kind::ABY => {
            let base = s.read16(s.pc);
            let t = add16(base, s.y as u16);
            (CpuState { addr_abs: t, pc: pc2, ..s }, page(t) != page(base))
        },
        Kind::IND => {
            let ptr = s.read16(s.pc);
            // the high byte comes from the start of the pointer's own page
            // when the pointer ends a page
            let hi_addr = if ptr % 256 == 0xFF { (ptr - 0xFF) as u16 } else { (ptr + 1) as u16 };
            (CpuState { addr_abs: word(s.read(hi_addr), s.read(ptr)), pc: pc2, ..s }, false)
        },
        Kind::IZX => {
            let zp = (b + s.x) % 256;
            let t = word(s.read(((zp + 1) % 256) as u16), s.read(zp as u16));
            (CpuState { addr_abs: t, pc: pc1, ..s }, false)
        },
        Kind::IZY => {
            let base = word(s.read(((b + 1) % 256) as u16), s.read(b as u16));
            let t = add16(base, s.y as u16);
            (CpuState { addr_abs: t, pc: pc1, ..s }, page(t) != page(base))
        },
    }
}

impl Kind {
    /// Runs this mode on `cpu`.
    pub fn run(self, cpu: &mut CpuCore) -> (r: bool)
        ensures
            (final(cpu)@, r) == mode_effect(self, old(cpu)@),
    {
        match self {
            Kind::IMP => IMP {}.run(cpu),
            Kind::IMM => IMM {}.run(cpu),
            Kind::ZP0 => ZP0 {}.run(cpu),
            Kind::ZPX => ZPX {}.run(cpu),
            Kind::ZPY => ZPY {}.run(cpu),
            Kind::REL => REL {}.run(cpu),
            Kind::ABS => ABS {}.run(cpu),
            Kind::ABX => ABX {}.run(cpu),
            Kind::ABY => ABY {}.run(cpu),
            Kind::IND => IND {}.run(cpu),
            Kind::IZX => IZX {}.run(cpu),
            Kind::IZY => IZY {}.run(cpu),
        }
    }
}

/// Reads the operand byte at PC and moves PC past it.
fn operand_byte(cpu: &mut CpuCore) -> (r: u8)
    ensures
        r == old(cpu)@.read(old(cpu)@.pc),
        final(cpu)@ == (CpuState { pc: inc16(old(cpu)@.pc), ..old(cpu)@ }),
{
    let b = cpu.read(cpu.pc);
    cpu.pc = cpu.pc.wrapping_add(1);
    b
}

/// Reads the little-endian operand word at PC and moves PC past it.
fn operand_word(cpu: &mut CpuCore) -> (r: u16)
    ensures
        r == old(cpu)@.read16(old(cpu)@.pc),
        final(cpu)@ == (CpuState { pc: inc16(inc16(old(cpu)@.pc)), ..old(cpu)@ }),
{
    let w = cpu.read16(cpu.pc);
    cpu.pc = cpu.pc.wrapping_add(2);
    w
}

/// Implied: the operand is A.
pub struct IMP {}

impl IMP {
    pub fn run(&self, cpu: &mut CpuCore) -> (r: bool)
        ensures
            (final(cpu)@, r) == mode_effect(Kind::IMP, old(cpu)@),
    {
        reveal(mode_effect);
        cpu.fetched = cpu.a;
        false
    }

    pub fn kind(&self) -> (r: Kind)
        ensures
            r == Kind::IMP,
    {
        Kind::IMP
    }
}

/// Immediate: the operand is the byte after the opcode.
pub struct IMM {}

impl IMM {
    pub fn run(&self, cpu: &mut CpuCore) -> (r: bool)
        ensures
            (final(cpu)@, r) == mode_effect(Kind::IMM, old(cpu)@),
    {
        reveal(mode_effect);
        cpu.addr_abs = cpu.pc;
        cpu.pc = cpu.pc.wrapping_add(1);
        false
    }

    pub fn kind(&self) -> (r: Kind)
        ensures
            r == Kind::IMM,
    {
        Kind::IMM
    }
}

/// Zero page.
pub struct ZP0 {}

impl ZP0 {
    pub fn run(&self, cpu: &mut CpuCore) -> (r: bool)
        ensures
            (final(cpu)@, r) == mode_effect(Kind::ZP0, old(cpu)@),
    {
        reveal(mode_effect);
        cpu.addr_abs = operand_byte(cpu) as u16;
        false
    }

    pub fn kind(&self) -> (r: Kind)
        ensures
            r == Kind::ZP0,
    {
        Kind::ZP0
    }
}

/// Zero page indexed by X, wrapping inside the zero page.
pub struct ZPX {}

impl ZPX {
    pub fn run(&self, cpu: &mut CpuCore) -> (r: bool)
        ensures
            (final(cpu)@, r) == mode_effect(Kind::ZPX, old(cpu)@),
    {
        reveal(mode_effect);
        let b = operand_byte(cpu) as u16;
        cpu.addr_abs = (b + cpu.x as u16) % 256;
        false
    }

    pub fn kind(&self) -> (r: Kind)
        ensures
            r == Kind::ZPX,
    {
        Kind::ZPX
    }
}

/// Zero page indexed by Y, wrapping inside the zero page.
pub struct ZPY {}

impl ZPY {
    pub fn run(&self, cpu: &mut CpuCore) -> (r: bool)
        ensures
            (final(cpu)@, r) == mode_effect(Kind::ZPY, old(cpu)@),
    {
        reveal(mode_effect);
        let b = operand_byte(cpu) as u16;
        cpu.addr_abs = (b + cpu.y as u16) % 256;
        false
    }

    pub fn kind(&self) -> (r: Kind)
        ensures
            r == Kind::ZPY,
    {
        Kind::ZPY
    }
}

/// Relative: a signed 8-bit branch offset.
pub struct REL {}

impl REL {
    pub fn run(&self, cpu: &mut CpuCore) -> (r: bool)
        ensures
            (final(cpu)@, r) == mode_effect(Kind::REL, old(cpu)@),
    {
        reveal(mode_effect);
        let b = operand_byte(cpu);
        // the offset lies in -128..=127, so it is sign-extended
        cpu.addr_rel = if b >= 0x80 { b as u16 + 0xFF00 } else { b as u16 };
        false
    }

    pub fn kind(&self) -> (r: Kind)
        ensures
            r == Kind::REL,
    {
        Kind::REL
    }
}

/// Absolute.
pub struct ABS {}

impl ABS {
    pub fn run(&self, cpu: &mut CpuCore) -> (r: bool)
        ensures
            (final(cpu)@, r) == mode_effect(Kind::ABS, old(cpu)@),
    {
        reveal(mode_effect);
        cpu.addr_abs = operand_word(cpu);
        false
    }

    pub fn kind(&self) -> (r: Kind)
        ensures
            r == Kind::ABS,
    {
        Kind::ABS
    }
}

/// Absolute indexed by X; crossing a page may cost a cycle.
pub struct ABX {}

impl ABX {
    pub fn run(&self, cpu: &mut CpuCore) -> (r: bool)
        ensures
            (final(cpu)@, r) == mode_effect(Kind::ABX, old(cpu)@),
    {
        reveal(mode_effect);
        let base = operand_word(cpu);
        cpu.addr_abs = base.wrapping_add(cpu.x as u16);
        cpu.addr_abs / 256 != base / 256
    }

    pub fn kind(&self) -> (r: Kind)
        ensures
            r == Kind::ABX,
    {
        Kind::ABX
    }
}

/// Absolute indexed by Y; crossing a page may cost a cycle.
pub struct ABY {}

impl ABY {
    pub fn run(&self, cpu: &mut CpuCore) -> (r: bool)
        ensures
            (final(cpu)@, r) == mode_effect(Kind::ABY, old(cpu)@),
    {
        reveal(mode_effect);
        let base = operand_word(cpu);
        cpu.addr_abs = base.wrapping_add(cpu.y as u16);
        cpu.addr_abs / 256 != base / 256
    }

    pub fn kind(&self) -> (r: Kind)
        ensures
            r == Kind::ABY,
    {
        Kind::ABY
    }
}

/// Indirect, with the hardware's page-wrap bug: a pointer at `0xXXFF` takes
/// its high byte from `0xXX00`.
pub struct IND {}

impl IND {
    pub fn run(&self, cpu: &mut CpuCore) -> (r: bool)
        ensures
            (final(cpu)@, r) == mode_effect(Kind::IND, old(cpu)@),
    {
        reveal(mode_effect);
        let ptr = operand_word(cpu);
        let hi_addr = if ptr % 256 == 0xFF { ptr - 0xFF } else { ptr + 1 };
        let low = cpu.read(ptr) as u16;
        let high = cpu.read(hi_addr) as u16;
        cpu.addr_abs = high * 256 + low;
        false
    }

    pub fn kind(&self) -> (r: Kind)
        ensures
            r == Kind::IND,
    {
        Kind::IND
    }
}

/// Indexed indirect: the pointer sits in the zero page at operand + X.
pub struct IZX {}

impl IZX {
    pub fn run(&self, cpu: &mut CpuCore) -> (r: bool)
        ensures
            (final(cpu)@, r) == mode_effect(Kind::IZX, old(cpu)@),
    {
        reveal(mode_effect);
        let b = operand_byte(cpu) as u16;
        let zp = (b + cpu.x as u16) % 256;
        let low = cpu.read(zp) as u16;
        let high = cpu.read((zp + 1) % 256) as u16;
        cpu.addr_abs = high * 256 + low;
        false
    }

    pub fn kind(&self) -> (r: Kind)
        ensures
            r == Kind::IZX,
    {
        Kind::IZX
    }
}

/// Indirect indexed: the zero-page pointer plus Y; crossing a page may cost
/// a cycle.
pub struct IZY {}

impl IZY {
    pub fn run(&self, cpu: &mut CpuCore) -> (r: bool)
        ensures
            (final(cpu)@, r) == mode_effect(Kind::IZY, old(cpu)@),
    {
        reveal(mode_effect);
        let zp = operand_byte(cpu) as u16;
        let low = cpu.read(zp) as u16;
        let high = cpu.read((zp + 1) % 256) as u16;
        let base = high * 256 + low;
        cpu.addr_abs = base.wrapping_add(cpu.y as u16);
        cpu.addr_abs / 256 != base / 256
    }

    pub fn kind(&self) -> (r: Kind)
        ensures
            r == Kind::IZY,
    {
        Kind::IZY
    }
}

} // verus!
