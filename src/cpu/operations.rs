//! The 6502 operations. Each runs after the addressing mode and reports
//! whether it may take the extra cycle of a page cross.
use vstd::prelude::*;

use super::addr_modes::Kind;
use super::{add16, dec8, inc16, inc8, page, word, CpuCore, CpuState, Flags};

verus! {

#[derive(Clone, Copy, Debug, PartialEq, Eq, Structural)]
pub enum Op {
    XXX,
    ADC,
    AND,
    ASL,
    BCC,
    BCS,
    BEQ,
    BIT,
    BMI,
    BNE,
    BPL,
    BRK,
    BVC,
    BVS,
    CLC,
    CLD,
    CLI,
    CLV,
    CMP,
    CPX,
    CPY,
    DEC,
    DEX,
    DEY,
    EOR,
    INC,
    INX,
    INY,
    JMP,
    JSR,
    LDA,
    LDX,
    LDY,
    LSR,
    NOP,
    ORA,
    PHA,
    PHP,
    PLA,
    PLP,
    ROL,
    ROR,
    RTI,
    RTS,
    SBC,
    SEC,
    SED,
    SEI,
    STA,
    STX,
    STY,
    TAX,
    TAY,
    TSX,
    TXA,
    TXS,
    TYA,
}

/// Opcodes of the undocumented absolute-X NOPs, which take the page-cross
/// cycle.
pub open spec fn is_abx_nop(opcode: u8) -> bool {
    opcode == 0x1C || opcode == 0x3C || opcode == 0x5C || opcode == 0x7C || opcode == 0xDC
        || opcode == 0xFC
}

/// ADC of `m`: `t = A + m + C`; C is `t > 0xFF`, Z is `t & 0xFF == 0`, V is
/// `!(A ^ m) & (A ^ t) & 0x80`, N is `t & 0x80`; A becomes `t & 0xFF`.
pub open spec fn add_with_carry(s: CpuState, m: u8) -> CpuState {
    let a = s.a as u16;
    let t = (s.a + m + (if s.flag(Flags::C) { 1int } else { 0 })) as u16;
    let s1 = s.set_flag(Flags::C, t > 255).set_flag(Flags::Z, t % 256 == 0).set_flag(
        Flags::V,
        (!(a ^ m as u16) & (a ^ t)) & 0x80 != 0,
    ).set_flag(Flags::N, t & 0x80 != 0);
    CpuState { a: (t % 256) as u8, ..s1 }
}

/// CMP, CPX, CPY of register value `r` with `m`.
pub open spec fn compare(s: CpuState, r: u8, m: u8) -> CpuState {
    s.set_flag(Flags::C, r >= m).set_flag(Flags::Z, r == m).set_flag(
        Flags::N,
        ((r - m + 256) % 256) as u8 & 0x80 != 0,
    )
}

/// A branch: when `cond` holds, one more cycle, PC moves by `addr_rel`, and
/// one more cycle if that changes its page.
pub open spec fn branch(s: CpuState, cond: bool) -> CpuState {
    if cond {
        let t = add16(s.pc, s.addr_rel);
        CpuState {
            cycles: s.cycles + 1 + (if page(t) != page(s.pc) { 1nat } else { 0 }),
            addr_abs: t,
            pc: t,
            ..s
        }
    } else {
        s
    }
}

/// The result `r` of a shift or rotate put back (into A in implied mode,
/// else at `addr_abs`), with C set to `carry` and Z, N from `r`.
pub open spec fn shift_store(s: CpuState, implied: bool, r: u8, carry: bool) -> CpuState {
    let s1 = if implied { CpuState { a: r, ..s } } else { s.write(s.addr_abs, r) };
    s1.set_flag(Flags::C, carry).set_zn(r)
}

/// The status byte as PLP and RTI restore it: B ignored, U forced.
pub open spec fn restored_status(st: u8) -> u8 {
    (st & !Flags::B) | Flags::U
}

/// The state after operation `op` in mode `mode`, and whether the operation
/// may take the page-cross cycle.
#[verifier::opaque]
pub open spec fn op_effect(op: Op, s: CpuState, mode: Kind) -> (CpuState, bool) {
    let implied = mode == Kind::IMP;
    let (sf, m) = s.fetch(implied);
    match op {
        Op::XXX => (s, false),
        Op::LDA => (CpuState { a: m, ..sf }.set_zn(m), true),
        Op::LDX => (CpuState { x: m, ..sf }.set_zn(m), true),
        Op::LDY => (CpuState { y: m, ..sf }.set_zn(m), true),
        Op::STA => (s.write(s.addr_abs, s.a), false),
        Op::STX => (s.write(s.addr_abs, s.x), false),
        Op::STY => (s.write(s.addr_abs, s.y), false),
        Op::ADC => (add_with_carry(sf, m), true),
        Op::SBC => (add_with_carry(sf, m ^ 0xFF), true),
        Op::AND => (CpuState { a: s.a & m, ..sf }.set_zn(s.a & m), true),
        Op::ORA => (CpuState { a: s.a | m, ..sf }.set_zn(s.a | m), true),
        Op::EOR => (CpuState { a: s.a ^ m, ..sf }.set_zn(s.a ^ m), true),
        Op::BIT => (
            sf.set_flag(Flags::Z, s.a & m == 0).set_flag(Flags::V, m & 0x40 != 0).set_flag(
                Flags::N,
                m & 0x80 != 0,
            ),
            false,
        ),
        Op::CMP => (compare(sf, s.a, m), true),
        Op::CPX => (compare(sf, s.x, m), false),
        Op::CPY => (compare(sf, s.y, m), false),
        Op::BCC => (branch(s, !s.flag(Flags::C)), false),
        Op::BCS => (branch(s, s.flag(Flags::C)), false),
        Op::BNE => (branch(s, !s.flag(Flags::Z)), false),
        Op::BEQ => (branch(s, s.flag(Flags::Z)), false),
        Op::BPL => (branch(s, !s.flag(Flags::N)), false),
        Op::BMI => (branch(s, s.flag(Flags::N)), false),
        Op::BVC => (branch(s, !s.flag(Flags::V)), false),
        Op::BVS => (branch(s, s.flag(Flags::V)), false),
        Op::INC => {
            let v = inc8(s.read(s.addr_abs));
            (s.write(s.addr_abs, v).set_zn(v), false)
        },
        Op::DEC => {
            let v = dec8(s.read(s.addr_abs));
            (s.write(s.addr_abs, v).set_zn(v), false)
        },
        Op::INX => (CpuState { x: inc8(s.x), ..s }.set_zn(inc8(s.x)), false),
        Op::INY => (CpuState { y: inc8(s.y), ..s }.set_zn(inc8(s.y)), false),
        Op::DEX => (CpuState { x: dec8(s.x), ..s }.set_zn(dec8(s.x)), false),
        Op::DEY => (CpuState { y: dec8(s.y), ..s }.set_zn(dec8(s.y)), false),
        Op::ASL => (shift_store(sf, implied, ((m * 2) % 256) as u8, m >= 0x80), false),
        Op::LSR => (shift_store(sf, implied, m / 2, m % 2 == 1), false),
        Op::ROL => (
            shift_store(
                sf,
                implied,
                ((m * 2) % 256 + (if s.flag(Flags::C) { 1int } else { 0 })) as u8,
                m >= 0x80,
            ),
            false,
        ),
        Op::ROR => (
            shift_store(
                sf,
                implied,
                (m / 2 + (if s.flag(Flags::C) { 0x80int } else { 0 })) as u8,
                m % 2 == 1,
            ),
            false,
        ),
        Op::JMP => (CpuState { pc: s.addr_abs, ..s }, false),
        Op::JSR => {
            let ret = (if s.pc == 0 { 0xFFFFint } else { s.pc - 1 }) as u16;
            let s1 = s.push((ret / 256) as u8).push((ret % 256) as u8);
            (CpuState { pc: s.addr_abs, ..s1 }, false)
        },
        Op::RTS => {
            let (s1, lo) = s.pop();
            let (s2, hi) = s1.pop();
            (CpuState { pc: inc16(word(hi, lo)), ..s2 }, false)
        },
        Op::RTI => {
            let (s1, st) = s.pop();
            let (s2, lo) = s1.pop();
            let (s3, hi) = s2.pop();
            (CpuState { status: restored_status(st), pc: word(hi, lo), ..s3 }, false)
        },
        Op::BRK => {
            let ret = inc16(s.pc);
            let s1 = s.push((ret / 256) as u8).push((ret % 256) as u8).push(
                s.status | Flags::B | Flags::U,
            ).set_flag(Flags::I, true);
            (CpuState { pc: s1.read16(0xFFFE), ..s1 }, false)
        },
        Op::PHA => (s.push(s.a), false),
        Op::PHP => (s.push(s.status | Flags::B | Flags::U), false),
        Op::PLA => {
            let (s1, v) = s.pop();
            (CpuState { a: v, ..s1 }.set_zn(v), false)
        },
        Op::PLP => {
            let (s1, v) = s.pop();
            (CpuState { status: restored_status(v), ..s1 }, false)
        },
        Op::CLC => (s.set_flag(Flags::C, false), false),
        Op::SEC => (s.set_flag(Flags::C, true), false),
        Op::CLI => (s.set_flag(Flags::I, false), false),
        Op::SEI => (s.set_flag(Flags::I, true), false),
        Op::CLV => (s.set_flag(Flags::V, false), false),
        Op::CLD => (s.set_flag(Flags::D, false), false),
        Op::SED => (s.set_flag(Flags::D, true), false),
        Op::TAX => (CpuState { x: s.a, ..s }.set_zn(s.a), false),
        Op::TAY => (CpuState { y: s.a, ..s }.set_zn(s.a), false),
        Op::TXA => (CpuState { a: s.x, ..s }.set_zn(s.x), false),
        Op::TYA => (CpuState { a: s.y, ..s }.set_zn(s.y), false),
        Op::TSX => (CpuState { x: s.sp, ..s }.set_zn(s.sp), false),
        Op::TXS => (CpuState { sp: s.x, ..s }, false),
        Op::NOP => (s, is_abx_nop(s.opcode)),
    }
}

impl Op {
    /// Runs this operation on `cpu`, after the addressing mode `mode`. The
    /// dispatch goes through groups of about ten operations, which keeps
    /// each proof small.
    pub fn run(self, cpu: &mut CpuCore, mode: Kind) -> (r: bool)
        requires
            old(cpu).cycles + 2 <= usize::MAX,
        ensures
            (final(cpu)@, r) == op_effect(self, old(cpu)@, mode),
    {
        match self {
            Op::XXX | Op::LDA | Op::LDX | Op::LDY | Op::STA | Op::STX | Op::STY | Op::ADC
                | Op::SBC | Op::AND => run_loads_stores_arith(self, cpu, mode),
            Op::ORA | Op::EOR | Op::BIT | Op::CMP | Op::CPX | Op::CPY | Op::BCC | Op::BCS
                | Op::BNE | Op::BEQ => run_logic_compares_branches(self, cpu, mode),
            Op::BPL | Op::BMI | Op::BVC | Op::BVS | Op::INC | Op::DEC | Op::INX | Op::INY
                | Op::DEX | Op::DEY => run_branches_steps(self, cpu, mode),
            Op::ASL | Op::LSR | Op::ROL | Op::ROR | Op::JMP | Op::JSR | Op::RTS | Op::RTI
                | Op::BRK | Op::PHA => run_shifts_jumps(self, cpu, mode),
            Op::PHP | Op::PLA | Op::PLP | Op::CLC | Op::SEC | Op::CLI | Op::SEI | Op::CLV
                | Op::CLD | Op::SED => run_stack_flags(self, cpu, mode),
            Op::TAX | Op::TAY | Op::TXA | Op::TYA | Op::TSX | Op::TXS
                | Op::NOP => run_transfers(self, cpu, mode),
        }
    }

    /// The three-letter mnemonic.
    pub fn name(self) -> (r: &'static str)
        ensures
            r == mnemonic(self),
    {
        match self {
            Op::XXX => "XXX",
            Op::LDA => "LDA",
            Op::LDX => "LDX",
            Op::LDY => "LDY",
            Op::STA => "STA",
            Op::STX => "STX",
            Op::STY => "STY",
            Op::ADC => "ADC",
            Op::SBC => "SBC",
            Op::AND => "AND",
            Op::ORA => "ORA",
            Op::EOR => "EOR",
            Op::BIT => "BIT",
            Op::CMP => "CMP",
            Op::CPX => "CPX",
            Op::CPY => "CPY",
            Op::BCC => "BCC",
            Op::BCS => "BCS",
            Op::BNE => "BNE",
            Op::BEQ => "BEQ",
            Op::BPL => "BPL",
            Op::BMI => "BMI",
            Op::BVC => "BVC",
            Op::BVS => "BVS",
            Op::INC => "INC",
            Op::DEC => "DEC",
            Op::INX => "INX",
            Op::INY => "INY",
            Op::DEX => "DEX",
            Op::DEY => "DEY",
            Op::ASL => "ASL",
            Op::LSR => "LSR",
            Op::ROL => "ROL",
            Op::ROR => "ROR",
            Op::JMP => "JMP",
            Op::JSR => "JSR",
            Op::RTS => "RTS",
            Op::RTI => "RTI",
            Op::BRK => "BRK",
            Op::PHA => "PHA",
            Op::PHP => "PHP",
            Op::PLA => "PLA",
            Op::PLP => "PLP",
            Op::CLC => "CLC",
            Op::SEC => "SEC",
            Op::CLI => "CLI",
            Op::SEI => "SEI",
            Op::CLV => "CLV",
            Op::CLD => "CLD",
            Op::SED => "SED",
            Op::TAX => "TAX",
            Op::TAY => "TAY",
            Op::TXA => "TXA",
            Op::TYA => "TYA",
            Op::TSX => "TSX",
            Op::TXS => "TXS",
            Op::NOP => "NOP",
        }
    }
}

/// The three-letter mnemonic of `op`.
pub open spec fn mnemonic(op: Op) -> &'static str {
    match op {
        Op::XXX => "XXX",
        Op::LDA => "LDA",
        Op::LDX => "LDX",
        Op::LDY => "LDY",
        Op::STA => "STA",
        Op::STX => "STX",
        Op::STY => "STY",
        Op::ADC => "ADC",
        Op::SBC => "SBC",
        Op::AND => "AND",
        Op::ORA => "ORA",
        Op::EOR => "EOR",
        Op::BIT => "BIT",
        Op::CMP => "CMP",
        Op::CPX => "CPX",
        Op::CPY => "CPY",
        Op::BCC => "BCC",
        Op::BCS => "BCS",
        Op::BNE => "BNE",
        Op::BEQ => "BEQ",
        Op::BPL => "BPL",
        Op::BMI => "BMI",
        Op::BVC => "BVC",
        Op::BVS => "BVS",
        Op::INC => "INC",
        Op::DEC => "DEC",
        Op::INX => "INX",
        Op::INY => "INY",
        Op::DEX => "DEX",
        Op::DEY => "DEY",
        Op::ASL => "ASL",
        Op::LSR => "LSR",
        Op::ROL => "ROL",
        Op::ROR => "ROR",
        Op::JMP => "JMP",
        Op::JSR => "JSR",
        Op::RTS => "RTS",
        Op::RTI => "RTI",
        Op::BRK => "BRK",
        Op::PHA => "PHA",
        Op::PHP => "PHP",
        Op::PLA => "PLA",
        Op::PLP => "PLP",
        Op::CLC => "CLC",
        Op::SEC => "SEC",
        Op::CLI => "CLI",
        Op::SEI => "SEI",
        Op::CLV => "CLV",
        Op::CLD => "CLD",
        Op::SED => "SED",
        Op::TAX => "TAX",
        Op::TAY => "TAY",
        Op::TXA => "TXA",
        Op::TYA => "TYA",
        Op::TSX => "TSX",
        Op::TXS => "TXS",
        Op::NOP => "NOP",
    }
}

fn run_loads_stores_arith(op: Op, cpu: &mut CpuCore, mode: Kind) -> (r: bool)
    requires
        op == Op::XXX || op == Op::LDA || op == Op::LDX || op == Op::LDY || op == Op::STA
            || op == Op::STX || op == Op::STY || op == Op::ADC || op == Op::SBC
            || op == Op::AND,
        old(cpu).cycles + 2 <= usize::MAX,
    ensures
        (final(cpu)@, r) == op_effect(op, old(cpu)@, mode),
{
    match op {
        Op::XXX => XXX {}.run(cpu, mode),
        Op::LDA => LDA {}.run(cpu, mode),
        Op::LDX => LDX {}.run(cpu, mode),
        Op::LDY => LDY {}.run(cpu, mode),
        Op::STA => STA {}.run(cpu, mode),
        Op::STX => STX {}.run(cpu, mode),
        Op::STY => STY {}.run(cpu, mode),
        Op::ADC => ADC {}.run(cpu, mode),
        Op::SBC => SBC {}.run(cpu, mode),
        Op::AND => AND {}.run(cpu, mode),
        _ => false,
    }
}

fn run_logic_compares_branches(op: Op, cpu: &mut CpuCore, mode: Kind) -> (r: bool)
    requires
        op == Op::ORA || op == Op::EOR || op == Op::BIT || op == Op::CMP || op == Op::CPX
            || op == Op::CPY || op == Op::BCC || op == Op::BCS || op == Op::BNE
            || op == Op::BEQ,
        old(cpu).cycles + 2 <= usize::MAX,
    ensures
        (final(cpu)@, r) == op_effect(op, old(cpu)@, mode),
{
    match op {
        Op::ORA => ORA {}.run(cpu, mode),
        Op::EOR => EOR {}.run(cpu, mode),
        Op::BIT => BIT {}.run(cpu, mode),
        Op::CMP => CMP {}.run(cpu, mode),
        Op::CPX => CPX {}.run(cpu, mode),
        Op::CPY => CPY {}.run(cpu, mode),
        Op::BCC => BCC {}.run(cpu, mode),
        Op::BCS => BCS {}.run(cpu, mode),
        Op::BNE => BNE {}.run(cpu, mode),
        Op::BEQ => BEQ {}.run(cpu, mode),
        _ => false,
    }
}

fn run_branches_steps(op: Op, cpu: &mut CpuCore, mode: Kind) -> (r: bool)
    requires
        op == Op::BPL || op == Op::BMI || op == Op::BVC || op == Op::BVS || op == Op::INC
            || op == Op::DEC || op == Op::INX || op == Op::INY || op == Op::DEX
            || op == Op::DEY,
        old(cpu).cycles + 2 <= usize::MAX,
    ensures
        (final(cpu)@, r) == op_effect(op, old(cpu)@, mode),
{
    match op {
        Op::BPL => BPL {}.run(cpu, mode),
        Op::BMI => BMI {}.run(cpu, mode),
        Op::BVC => BVC {}.run(cpu, mode),
        Op::BVS => BVS {}.run(cpu, mode),
        Op::INC => INC {}.run(cpu, mode),
        Op::DEC => DEC {}.run(cpu, mode),
        Op::INX => INX {}.run(cpu, mode),
        Op::INY => INY {}.run(cpu, mode),
        Op::DEX => DEX {}.run(cpu, mode),
        Op::DEY => DEY {}.run(cpu, mode),
        _ => false,
    }
}

fn run_shifts_jumps(op: Op, cpu: &mut CpuCore, mode: Kind) -> (r: bool)
    requires
        op == Op::ASL || op == Op::LSR || op == Op::ROL || op == Op::ROR || op == Op::JMP
            || op == Op::JSR || op == Op::RTS || op == Op::RTI || op == Op::BRK
            || op == Op::PHA,
        old(cpu).cycles + 2 <= usize::MAX,
    ensures
        (final(cpu)@, r) == op_effect(op, old(cpu)@, mode),
{
    match op {
        Op::ASL => ASL {}.run(cpu, mode),
        Op::LSR => LSR {}.run(cpu, mode),
        Op::ROL => ROL {}.run(cpu, mode),
        Op::ROR => ROR {}.run(cpu, mode),
        Op::JMP => JMP {}.run(cpu, mode),
        Op::JSR => JSR {}.run(cpu, mode),
        Op::RTS => RTS {}.run(cpu, mode),
        Op::RTI => RTI {}.run(cpu, mode),
        Op::BRK => BRK {}.run(cpu, mode),
        Op::PHA => PHA {}.run(cpu, mode),
        _ => false,
    }
}

fn run_stack_flags(op: Op, cpu: &mut CpuCore, mode: Kind) -> (r: bool)
    requires
        op == Op::PHP || op == Op::PLA || op == Op::PLP || op == Op::CLC || op == Op::SEC
            || op == Op::CLI || op == Op::SEI || op == Op::CLV || op == Op::CLD
            || op == Op::SED,
        old(cpu).cycles + 2 <= usize::MAX,
    ensures
        (final(cpu)@, r) == op_effect(op, old(cpu)@, mode),
{
    match op {
        Op::PHP => PHP {}.run(cpu, mode),
        Op::PLA => PLA {}.run(cpu, mode),
        Op::PLP => PLP {}.run(cpu, mode),
        Op::CLC => CLC {}.run(cpu, mode),
        Op::SEC => SEC {}.run(cpu, mode),
        Op::CLI => CLI {}.run(cpu, mode),
        Op::SEI => SEI {}.run(cpu, mode),
        Op::CLV => CLV {}.run(cpu, mode),
        Op::CLD => CLD {}.run(cpu, mode),
        Op::SED => SED {}.run(cpu, mode),
        _ => false,
    }
}

fn run_transfers(op: Op, cpu: &mut CpuCore, mode: Kind) -> (r: bool)
    requires
        op == Op::TAX || op == Op::TAY || op == Op::TXA || op == Op::TYA || op == Op::TSX
            || op == Op::TXS || op == Op::NOP,
        old(cpu).cycles + 2 <= usize::MAX,
    ensures
        (final(cpu)@, r) == op_effect(op, old(cpu)@, mode),
{
    match op {
        Op::TAX => TAX {}.run(cpu, mode),
        Op::TAY => TAY {}.run(cpu, mode),
        Op::TXA => TXA {}.run(cpu, mode),
        Op::TYA => TYA {}.run(cpu, mode),
        Op::TSX => TSX {}.run(cpu, mode),
        Op::TXS => TXS {}.run(cpu, mode),
        Op::NOP => NOP {}.run(cpu, mode),
        _ => false,
    }
}

fn run_add_with_carry(cpu: &mut CpuCore, m: u8)
    ensures
        final(cpu)@ == add_with_carry(old(cpu)@, m),
{
    let a = cpu.a as u16;
    let m16 = m as u16;
    let c: u16 = if cpu.get_flag(Flags::C) { 1 } else { 0 };
    let t = a + m16 + c;
    cpu.set_flag(Flags::C, t > 255);
    cpu.set_flag(Flags::Z, t % 256 == 0);
    cpu.set_flag(Flags::V, (!(a ^ m16) & (a ^ t)) & 0x80 != 0);
    cpu.set_flag(Flags::N, t & 0x80 != 0);
    cpu.a = (t % 256) as u8;
}

fn run_compare(cpu: &mut CpuCore, r: u8, m: u8)
    ensures
        final(cpu)@ == compare(old(cpu)@, r, m),
{
    cpu.set_flag(Flags::C, r >= m);
    cpu.set_flag(Flags::Z, r == m);
    cpu.set_flag(Flags::N, r.wrapping_sub(m) & 0x80 != 0);
}

fn run_branch(cpu: &mut CpuCore, cond: bool)
    requires
        old(cpu).cycles + 2 <= usize::MAX,
    ensures
        final(cpu)@ == branch(old(cpu)@, cond),
{
    if cond {
        cpu.cycles = cpu.cycles + 1;
        let t = cpu.pc.wrapping_add(cpu.addr_rel);
        if t / 256 != cpu.pc / 256 {
            cpu.cycles = cpu.cycles + 1;
        }
        cpu.addr_abs = t;
        cpu.pc = t;
    }
}

fn run_shift_store(cpu: &mut CpuCore, implied: bool, r: u8, carry: bool)
    ensures
        final(cpu)@ == shift_store(old(cpu)@, implied, r, carry),
{
    if implied {
        cpu.a = r;
    } else {
        cpu.write(cpu.addr_abs, r);
    }
    cpu.set_flag(Flags::C, carry);
    cpu.set_zn(r);
}

/// Stands for every opcode the table lacks: does nothing.
pub struct XXX {}

impl XXX {
    pub fn run(&self, cpu: &mut CpuCore, mode: Kind) -> (r: bool)
        ensures
            (final(cpu)@, r) == op_effect(Op::XXX, old(cpu)@, mode),
    {
        reveal(op_effect);
        false
    }
}

/// Load A.
pub struct LDA {}

impl LDA {
    pub fn run(&self, cpu: &mut CpuCore, mode: Kind) -> (r: bool)
        ensures
            (final(cpu)@, r) == op_effect(Op::LDA, old(cpu)@, mode),
    {
        reveal(op_effect);
        let m = cpu.fetch(mode == Kind::IMP);
        cpu.a = m;
        cpu.set_zn(m);
        true
    }
}

/// Load X.
pub struct LDX {}

impl LDX {
    pub fn run(&self, cpu: &mut CpuCore, mode: Kind) -> (r: bool)
        ensures
            (final(cpu)@, r) == op_effect(Op::LDX, old(cpu)@, mode),
    {
        reveal(op_effect);
        let m = cpu.fetch(mode == Kind::IMP);
        cpu.x = m;
        cpu.set_zn(m);
        true
    }
}

/// Load Y.
pub struct LDY {}

impl LDY {
    pub fn run(&self, cpu: &mut CpuCore, mode: Kind) -> (r: bool)
        ensures
            (final(cpu)@, r) == op_effect(Op::LDY, old(cpu)@, mode),
    {
        reveal(op_effect);
        let m = cpu.fetch(mode == Kind::IMP);
        cpu.y = m;
        cpu.set_zn(m);
        true
    }
}

/// Store A.
pub struct STA {}

impl STA {
    pub fn run(&self, cpu: &mut CpuCore, mode: Kind) -> (r: bool)
        ensures
            (final(cpu)@, r) == op_effect(Op::STA, old(cpu)@, mode),
    {
        reveal(op_effect);
        cpu.write(cpu.addr_abs, cpu.a);
        false
    }
}

/// Store X.
pub struct STX {}

impl STX {
    pub fn run(&self, cpu: &mut CpuCore, mode: Kind) -> (r: bool)
        ensures
            (final(cpu)@, r) == op_effect(Op::STX, old(cpu)@, mode),
    {
        reveal(op_effect);
        cpu.write(cpu.addr_abs, cpu.x);
        false
    }
}

/// Store Y.
pub struct STY {}

impl STY {
    pub fn run(&self, cpu: &mut CpuCore, mode: Kind) -> (r: bool)
        ensures
            (final(cpu)@, r) == op_effect(Op::STY, old(cpu)@, mode),
    {
        reveal(op_effect);
        cpu.write(cpu.addr_abs, cpu.y);
        false
    }
}

/// Add with carry.
pub struct ADC {}

impl ADC {
    pub fn run(&self, cpu: &mut CpuCore, mode: Kind) -> (r: bool)
        ensures
            (final(cpu)@, r) == op_effect(Op::ADC, old(cpu)@, mode),
    {
        reveal(op_effect);
        let m = cpu.fetch(mode == Kind::IMP);
        run_add_with_carry(cpu, m);
        true
    }
}

/// Subtract with borrow: ADC of the inverted operand.
pub struct SBC {}

impl SBC {
    pub fn run(&self, cpu: &mut CpuCore, mode: Kind) -> (r: bool)
        ensures
            (final(cpu)@, r) == op_effect(Op::SBC, old(cpu)@, mode),
    {
        reveal(op_effect);
        let m = cpu.fetch(mode == Kind::IMP);
        run_add_with_carry(cpu, m ^ 0xFF);
        true
    }
}

/// A AND operand.
pub struct AND {}

impl AND {
    pub fn run(&self, cpu: &mut CpuCore, mode: Kind) -> (r: bool)
        ensures
            (final(cpu)@, r) == op_effect(Op::AND, old(cpu)@, mode),
    {
        reveal(op_effect);
        let m = cpu.fetch(mode == Kind::IMP);
        cpu.a = cpu.a & m;
        cpu.set_zn(cpu.a);
        true
    }
}

/// A OR operand.
pub struct ORA {}

impl ORA {
    pub fn run(&self, cpu: &mut CpuCore, mode: Kind) -> (r: bool)
        ensures
            (final(cpu)@, r) == op_effect(Op::ORA, old(cpu)@, mode),
    {
        reveal(op_effect);
        let m = cpu.fetch(mode == Kind::IMP);
        cpu.a = cpu.a | m;
        cpu.set_zn(cpu.a);
        true
    }
}

/// A XOR operand.
pub struct EOR {}

impl EOR {
    pub fn run(&self, cpu: &mut CpuCore, mode: Kind) -> (r: bool)
        ensures
            (final(cpu)@, r) == op_effect(Op::EOR, old(cpu)@, mode),
    {
        reveal(op_effect);
        let m = cpu.fetch(mode == Kind::IMP);
        cpu.a = cpu.a ^ m;
        cpu.set_zn(cpu.a);
        true
    }
}

/// Bit test: Z from A AND operand, V and N from the operand's bits 6 and 7.
pub struct BIT {}

impl BIT {
    pub fn run(&self, cpu: &mut CpuCore, mode: Kind) -> (r: bool)
        ensures
            (final(cpu)@, r) == op_effect(Op::BIT, old(cpu)@, mode),
    {
        reveal(op_effect);
        let a = cpu.a;
        let m = cpu.fetch(mode == Kind::IMP);
        cpu.set_flag(Flags::Z, a & m == 0);
        cpu.set_flag(Flags::V, m & 0x40 != 0);
        cpu.set_flag(Flags::N, m & 0x80 != 0);
        false
    }
}

/// Compare A.
pub struct CMP {}

impl CMP {
    pub fn run(&self, cpu: &mut CpuCore, mode: Kind) -> (r: bool)
        ensures
            (final(cpu)@, r) == op_effect(Op::CMP, old(cpu)@, mode),
    {
        reveal(op_effect);
        let r = cpu.a;
        let m = cpu.fetch(mode == Kind::IMP);
        run_compare(cpu, r, m);
        true
    }
}

/// Compare X.
pub struct CPX {}

impl CPX {
    pub fn run(&self, cpu: &mut CpuCore, mode: Kind) -> (r: bool)
        ensures
            (final(cpu)@, r) == op_effect(Op::CPX, old(cpu)@, mode),
    {
        reveal(op_effect);
        let r = cpu.x;
        let m = cpu.fetch(mode == Kind::IMP);
        run_compare(cpu, r, m);
        false
    }
}

/// Compare Y.
pub struct CPY {}

impl CPY {
    pub fn run(&self, cpu: &mut CpuCore, mode: Kind) -> (r: bool)
        ensures
            (final(cpu)@, r) == op_effect(Op::CPY, old(cpu)@, mode),
    {
        reveal(op_effect);
        let r = cpu.y;
        let m = cpu.fetch(mode == Kind::IMP);
        run_compare(cpu, r, m);
        false
    }
}

/// Branch if carry clear.
pub struct BCC {}

impl BCC {
    pub fn run(&self, cpu: &mut CpuCore, mode: Kind) -> (r: bool)
        requires
            old(cpu).cycles + 2 <= usize::MAX,
        ensures
            (final(cpu)@, r) == op_effect(Op::BCC, old(cpu)@, mode),
    {
        reveal(op_effect);
        let cond = !cpu.get_flag(Flags::C);
        run_branch(cpu, cond);
        false
    }
}

/// Branch if carry set.
pub struct BCS {}

impl BCS {
    pub fn run(&self, cpu: &mut CpuCore, mode: Kind) -> (r: bool)
        requires
            old(cpu).cycles + 2 <= usize::MAX,
        ensures
            (final(cpu)@, r) == op_effect(Op::BCS, old(cpu)@, mode),
    {
        reveal(op_effect);
        let cond = cpu.get_flag(Flags::C);
        run_branch(cpu, cond);
        false
    }
}

/// Branch if not equal (Z clear).
pub struct BNE {}

impl BNE {
    pub fn run(&self, cpu: &mut CpuCore, mode: Kind) -> (r: bool)
        requires
            old(cpu).cycles + 2 <= usize::MAX,
        ensures
            (final(cpu)@, r) == op_effect(Op::BNE, old(cpu)@, mode),
    {
        reveal(op_effect);
        let cond = !cpu.get_flag(Flags::Z);
        run_branch(cpu, cond);
        false
    }
}

/// Branch if equal (Z set).
pub struct BEQ {}

impl BEQ {
    pub fn run(&self, cpu: &mut CpuCore, mode: Kind) -> (r: bool)
        requires
            old(cpu).cycles + 2 <= usize::MAX,
        ensures
            (final(cpu)@, r) == op_effect(Op::BEQ, old(cpu)@, mode),
    {
        reveal(op_effect);
        let cond = cpu.get_flag(Flags::Z);
        run_branch(cpu, cond);
        false
    }
}

/// Branch if plus (N clear).
pub struct BPL {}

impl BPL {
    pub fn run(&self, cpu: &mut CpuCore, mode: Kind) -> (r: bool)
        requires
            old(cpu).cycles + 2 <= usize::MAX,
        ensures
            (final(cpu)@, r) == op_effect(Op::BPL, old(cpu)@, mode),
    {
        reveal(op_effect);
        let cond = !cpu.get_flag(Flags::N);
        run_branch(cpu, cond);
        false
    }
}

/// Branch if minus (N set).
pub struct BMI {}

impl BMI {
    pub fn run(&self, cpu: &mut CpuCore, mode: Kind) -> (r: bool)
        requires
            old(cpu).cycles + 2 <= usize::MAX,
        ensures
            (final(cpu)@, r) == op_effect(Op::BMI, old(cpu)@, mode),
    {
        reveal(op_effect);
        let cond = cpu.get_flag(Flags::N);
        run_branch(cpu, cond);
        false
    }
}

/// Branch if overflow clear.
pub struct BVC {}

impl BVC {
    pub fn run(&self, cpu: &mut CpuCore, mode: Kind) -> (r: bool)
        requires
            old(cpu).cycles + 2 <= usize::MAX,
        ensures
            (final(cpu)@, r) == op_effect(Op::BVC, old(cpu)@, mode),
    {
        reveal(op_effect);
        let cond = !cpu.get_flag(Flags::V);
        run_branch(cpu, cond);
        false
    }
}

/// Branch if overflow set.
pub struct BVS {}

impl BVS {
    pub fn run(&self, cpu: &mut CpuCore, mode: Kind) -> (r: bool)
        requires
            old(cpu).cycles + 2 <= usize::MAX,
        ensures
            (final(cpu)@, r) == op_effect(Op::BVS, old(cpu)@, mode),
    {
        reveal(op_effect);
        let cond = cpu.get_flag(Flags::V);
        run_branch(cpu, cond);
        false
    }
}

/// Increment memory.
pub struct INC {}

impl INC {
    pub fn run(&self, cpu: &mut CpuCore, mode: Kind) -> (r: bool)
        ensures
            (final(cpu)@, r) == op_effect(Op::INC, old(cpu)@, mode),
    {
        reveal(op_effect);
        let v = cpu.read(cpu.addr_abs).wrapping_add(1);
        cpu.write(cpu.addr_abs, v);
        cpu.set_zn(v);
        false
    }
}

/// Decrement memory.
pub struct DEC {}

impl DEC {
    pub fn run(&self, cpu: &mut CpuCore, mode: Kind) -> (r: bool)
        ensures
            (final(cpu)@, r) == op_effect(Op::DEC, old(cpu)@, mode),
    {
        reveal(op_effect);
        let v = cpu.read(cpu.addr_abs).wrapping_sub(1);
        cpu.write(cpu.addr_abs, v);
        cpu.set_zn(v);
        false
    }
}

/// Increment X.
pub struct INX {}

impl INX {
    pub fn run(&self, cpu: &mut CpuCore, mode: Kind) -> (r: bool)
        ensures
            (final(cpu)@, r) == op_effect(Op::INX, old(cpu)@, mode),
    {
        reveal(op_effect);
        cpu.x = cpu.x.wrapping_add(1);
        cpu.set_zn(cpu.x);
        false
    }
}

/// Increment Y.
pub struct INY {}

impl INY {
    pub fn run(&self, cpu: &mut CpuCore, mode: Kind) -> (r: bool)
        ensures
            (final(cpu)@, r) == op_effect(Op::INY, old(cpu)@, mode),
    {
        reveal(op_effect);
        cpu.y = cpu.y.wrapping_add(1);
        cpu.set_zn(cpu.y);
        false
    }
}

/// Decrement X.
pub struct DEX {}

impl DEX {
    pub fn run(&self, cpu: &mut CpuCore, mode: Kind) -> (r: bool)
        ensures
            (final(cpu)@, r) == op_effect(Op::DEX, old(cpu)@, mode),
    {
        reveal(op_effect);
        cpu.x = cpu.x.wrapping_sub(1);
        cpu.set_zn(cpu.x);
        false
    }
}

/// Decrement Y.
pub struct DEY {}

impl DEY {
    pub fn run(&self, cpu: &mut CpuCore, mode: Kind) -> (r: bool)
        ensures
            (final(cpu)@, r) == op_effect(Op::DEY, old(cpu)@, mode),
    {
        reveal(op_effect);
        cpu.y = cpu.y.wrapping_sub(1);
        cpu.set_zn(cpu.y);
        false
    }
}

/// Arithmetic shift left.
pub struct ASL {}

impl ASL {
    pub fn run(&self, cpu: &mut CpuCore, mode: Kind) -> (r: bool)
        ensures
            (final(cpu)@, r) == op_effect(Op::ASL, old(cpu)@, mode),
    {
        reveal(op_effect);
        let implied = mode == Kind::IMP;
        let m = cpu.fetch(implied);
        let r = ((m as u16 * 2) % 256) as u8;
        run_shift_store(cpu, implied, r, m >= 0x80);
        false
    }
}

/// Logical shift right.
pub struct LSR {}

impl LSR {
    pub fn run(&self, cpu: &mut CpuCore, mode: Kind) -> (r: bool)
        ensures
            (final(cpu)@, r) == op_effect(Op::LSR, old(cpu)@, mode),
    {
        reveal(op_effect);
        let implied = mode == Kind::IMP;
        let m = cpu.fetch(implied);
        run_shift_store(cpu, implied, m / 2, m % 2 == 1);
        false
    }
}

/// Rotate left through carry.
pub struct ROL {}

impl ROL {
    pub fn run(&self, cpu: &mut CpuCore, mode: Kind) -> (r: bool)
        ensures
            (final(cpu)@, r) == op_effect(Op::ROL, old(cpu)@, mode),
    {
        reveal(op_effect);
        let implied = mode == Kind::IMP;
        let c: u16 = if cpu.get_flag(Flags::C) { 1 } else { 0 };
        let m = cpu.fetch(implied);
        let r = ((m as u16 * 2) % 256 + c) as u8;
        run_shift_store(cpu, implied, r, m >= 0x80);
        false
    }
}

/// Rotate right through carry.
pub struct ROR {}

impl ROR {
    pub fn run(&self, cpu: &mut CpuCore, mode: Kind) -> (r: bool)
        ensures
            (final(cpu)@, r) == op_effect(Op::ROR, old(cpu)@, mode),
    {
        reveal(op_effect);
        let implied = mode == Kind::IMP;
        let c: u8 = if cpu.get_flag(Flags::C) { 0x80 } else { 0 };
        let m = cpu.fetch(implied);
        run_shift_store(cpu, implied, m / 2 + c, m % 2 == 1);
        false
    }
}

/// Jump.
pub struct JMP {}

impl JMP {
    pub fn run(&self, cpu: &mut CpuCore, mode: Kind) -> (r: bool)
        ensures
            (final(cpu)@, r) == op_effect(Op::JMP, old(cpu)@, mode),
    {
        reveal(op_effect);
        cpu.pc = cpu.addr_abs;
        false
    }
}

/// Jump to subroutine: pushes PC - 1, high byte first.
pub struct JSR {}

impl JSR {
    pub fn run(&self, cpu: &mut CpuCore, mode: Kind) -> (r: bool)
        ensures
            (final(cpu)@, r) == op_effect(Op::JSR, old(cpu)@, mode),
    {
        reveal(op_effect);
        let ret = cpu.pc.wrapping_sub(1);
        cpu.push((ret / 256) as u8);
        cpu.push((ret % 256) as u8);
        cpu.pc = cpu.addr_abs;
        false
    }
}

/// Return from subroutine: pops the low, then the high byte, and adds one.
pub struct RTS {}

impl RTS {
    pub fn run(&self, cpu: &mut CpuCore, mode: Kind) -> (r: bool)
        ensures
            (final(cpu)@, r) == op_effect(Op::RTS, old(cpu)@, mode),
    {
        reveal(op_effect);
        let lo = cpu.pop() as u16;
        let hi = cpu.pop() as u16;
        cpu.pc = (hi * 256 + lo).wrapping_add(1);
        false
    }
}

/// Return from interrupt: pops the status (B ignored, U forced), then PC.
pub struct RTI {}

impl RTI {
    pub fn run(&self, cpu: &mut CpuCore, mode: Kind) -> (r: bool)
        ensures
            (final(cpu)@, r) == op_effect(Op::RTI, old(cpu)@, mode),
    {
        reveal(op_effect);
        let st = cpu.pop();
        cpu.status = (st & !Flags::B) | Flags::U;
        let lo = cpu.pop() as u16;
        let hi = cpu.pop() as u16;
        cpu.pc = hi * 256 + lo;
        false
    }
}

/// Break: pushes PC + 1 and the status with B and U, sets I, and jumps
/// through the vector at `0xFFFE`.
pub struct BRK {}

impl BRK {
    pub fn run(&self, cpu: &mut CpuCore, mode: Kind) -> (r: bool)
        ensures
            (final(cpu)@, r) == op_effect(Op::BRK, old(cpu)@, mode),
    {
        reveal(op_effect);
        let ret = cpu.pc.wrapping_add(1);
        let st = cpu.status | Flags::B | Flags::U;
        cpu.push((ret / 256) as u8);
        cpu.push((ret % 256) as u8);
        cpu.push(st);
        cpu.set_flag(Flags::I, true);
        cpu.pc = cpu.read16(0xFFFE);
        false
    }
}

/// Push A.
pub struct PHA {}

impl PHA {
    pub fn run(&self, cpu: &mut CpuCore, mode: Kind) -> (r: bool)
        ensures
            (final(cpu)@, r) == op_effect(Op::PHA, old(cpu)@, mode),
    {
        reveal(op_effect);
        cpu.push(cpu.a);
        false
    }
}

/// Push the status, with B and U set.
pub struct PHP {}

impl PHP {
    pub fn run(&self, cpu: &mut CpuCore, mode: Kind) -> (r: bool)
        ensures
            (final(cpu)@, r) == op_effect(Op::PHP, old(cpu)@, mode),
    {
        reveal(op_effect);
        cpu.push(cpu.status | Flags::B | Flags::U);
        false
    }
}

/// Pull A.
pub struct PLA {}

impl PLA {
    pub fn run(&self, cpu: &mut CpuCore, mode: Kind) -> (r: bool)
        ensures
            (final(cpu)@, r) == op_effect(Op::PLA, old(cpu)@, mode),
    {
        reveal(op_effect);
        let v = cpu.pop();
        cpu.a = v;
        cpu.set_zn(v);
        false
    }
}

/// Pull the status (B ignored, U forced).
pub struct PLP {}

impl PLP {
    pub fn run(&self, cpu: &mut CpuCore, mode: Kind) -> (r: bool)
        ensures
            (final(cpu)@, r) == op_effect(Op::PLP, old(cpu)@, mode),
    {
        reveal(op_effect);
        let v = cpu.pop();
        cpu.status = (v & !Flags::B) | Flags::U;
        false
    }
}

/// Clear carry.
pub struct CLC {}

impl CLC {
    pub fn run(&self, cpu: &mut CpuCore, mode: Kind) -> (r: bool)
        ensures
            (final(cpu)@, r) == op_effect(Op::CLC, old(cpu)@, mode),
    {
        reveal(op_effect);
        cpu.set_flag(Flags::C, false);
        false
    }
}

/// Set carry.
pub struct SEC {}

impl SEC {
    pub fn run(&self, cpu: &mut CpuCore, mode: Kind) -> (r: bool)
        ensures
            (final(cpu)@, r) == op_effect(Op::SEC, old(cpu)@, mode),
    {
        reveal(op_effect);
        cpu.set_flag(Flags::C, true);
        false
    }
}

/// Clear interrupt disable.
pub struct CLI {}

impl CLI {
    pub fn run(&self, cpu: &mut CpuCore, mode: Kind) -> (r: bool)
        ensures
            (final(cpu)@, r) == op_effect(Op::CLI, old(cpu)@, mode),
    {
        reveal(op_effect);
        cpu.set_flag(Flags::I, false);
        false
    }
}

/// Set interrupt disable.
pub struct SEI {}

impl SEI {
    pub fn run(&self, cpu: &mut CpuCore, mode: Kind) -> (r: bool)
        ensures
            (final(cpu)@, r) == op_effect(Op::SEI, old(cpu)@, mode),
    {
        reveal(op_effect);
        cpu.set_flag(Flags::I, true);
        false
    }
}

/// Clear overflow.
pub struct CLV {}

impl CLV {
    pub fn run(&self, cpu: &mut CpuCore, mode: Kind) -> (r: bool)
        ensures
            (final(cpu)@, r) == op_effect(Op::CLV, old(cpu)@, mode),
    {
        reveal(op_effect);
        cpu.set_flag(Flags::V, false);
        false
    }
}

/// Clear decimal.
pub struct CLD {}

impl CLD {
    pub fn run(&self, cpu: &mut CpuCore, mode: Kind) -> (r: bool)
        ensures
            (final(cpu)@, r) == op_effect(Op::CLD, old(cpu)@, mode),
    {
        reveal(op_effect);
        cpu.set_flag(Flags::D, false);
        false
    }
}

/// Set decimal.
pub struct SED {}

impl SED {
    pub fn run(&self, cpu: &mut CpuCore, mode: Kind) -> (r: bool)
        ensures
            (final(cpu)@, r) == op_effect(Op::SED, old(cpu)@, mode),
    {
        reveal(op_effect);
        cpu.set_flag(Flags::D, true);
        false
    }
}

/// Transfer A to X.
pub struct TAX {}

impl TAX {
    pub fn run(&self, cpu: &mut CpuCore, mode: Kind) -> (r: bool)
        ensures
            (final(cpu)@, r) == op_effect(Op::TAX, old(cpu)@, mode),
    {
        reveal(op_effect);
        cpu.x = cpu.a;
        cpu.set_zn(cpu.a);
        false
    }
}

/// Transfer A to Y.
pub struct TAY {}

impl TAY {
    pub fn run(&self, cpu: &mut CpuCore, mode: Kind) -> (r: bool)
        ensures
            (final(cpu)@, r) == op_effect(Op::TAY, old(cpu)@, mode),
    {
        reveal(op_effect);
        cpu.y = cpu.a;
        cpu.set_zn(cpu.a);
        false
    }
}

/// Transfer X to A.
pub struct TXA {}

impl TXA {
    pub fn run(&self, cpu: &mut CpuCore, mode: Kind) -> (r: bool)
        ensures
            (final(cpu)@, r) == op_effect(Op::TXA, old(cpu)@, mode),
    {
        reveal(op_effect);
        cpu.a = cpu.x;
        cpu.set_zn(cpu.x);
        false
    }
}

/// Transfer Y to A.
pub struct TYA {}

impl TYA {
    pub fn run(&self, cpu: &mut CpuCore, mode: Kind) -> (r: bool)
        ensures
            (final(cpu)@, r) == op_effect(Op::TYA, old(cpu)@, mode),
    {
        reveal(op_effect);
        cpu.a = cpu.y;
        cpu.set_zn(cpu.y);
        false
    }
}

/// Transfer SP to X.
pub struct TSX {}

impl TSX {
    pub fn run(&self, cpu: &mut CpuCore, mode: Kind) -> (r: bool)
        ensures
            (final(cpu)@, r) == op_effect(Op::TSX, old(cpu)@, mode),
    {
        reveal(op_effect);
        cpu.x = cpu.sp;
        cpu.set_zn(cpu.sp);
        false
    }
}

/// Transfer X to SP; no flag changes.
pub struct TXS {}

impl TXS {
    pub fn run(&self, cpu: &mut CpuCore, mode: Kind) -> (r: bool)
        ensures
            (final(cpu)@, r) == op_effect(Op::TXS, old(cpu)@, mode),
    {
        reveal(op_effect);
        cpu.sp = cpu.x;
        false
    }
}

/// No operation; the undocumented absolute-X forms take the page-cross cycle.
pub struct NOP {}

impl NOP {
    pub fn run(&self, cpu: &mut CpuCore, mode: Kind) -> (r: bool)
        ensures
            (final(cpu)@, r) == op_effect(Op::NOP, old(cpu)@, mode),
    {
        reveal(op_effect);
        match cpu.opcode {
            0x1C | 0x3C | 0x5C | 0x7C | 0xDC | 0xFC => true,
            _ => false,
        }
    }
}

} // verus!
