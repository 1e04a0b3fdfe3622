use vstd::prelude::*;

use crate::bus::Bus;

use self::addr_modes::mode_effect;
use self::opcodes::{lookup, opcode_info};
use self::operations::op_effect;

pub mod addr_modes;
pub mod disassembler;
pub mod flags;
pub mod laws;
pub mod opcodes;
pub mod operations;

pub use self::flags as Flags;

verus! {

/// `v + 1` modulo 2^16.
pub open spec fn inc16(v: u16) -> u16 {
    if v == 0xFFFF { 0 } else { (v + 1) as u16 }
}

/// `a + b` modulo 2^16.
pub open spec fn add16(a: u16, b: u16) -> u16 {
    ((a + b) % 0x10000) as u16
}

/// `v + 1` modulo 2^8.
pub open spec fn inc8(v: u8) -> u8 {
    if v == 0xFF { 0 } else { (v + 1) as u8 }
}

/// `v - 1` modulo 2^8.
pub open spec fn dec8(v: u8) -> u8 {
    if v == 0 { 0xFF } else { (v - 1) as u8 }
}

/// The page (high byte) of an address.
pub open spec fn page(v: u16) -> int {
    v as int / 256
}

/// The 16-bit value with high byte `hi` and low byte `lo`.
pub open spec fn word(hi: u8, lo: u8) -> u16 {
    (hi * 256 + lo) as u16
}

/// `st` with the bits of `f` set (`on`) or cleared.
pub open spec fn with_flag(st: u8, f: u8, on: bool) -> u8 {
    if on { st | f } else { st & !f }
}

/// The CPU as the contracts see it: registers, the scratch values that pass
/// from the addressing phase to the operation phase, the cycle counters and
/// the 64 KiB of the bus.
pub struct CpuState {
    pub a: u8,
    pub x: u8,
    pub y: u8,
    pub sp: u8,
    pub pc: u16,
    pub status: u8,
    pub fetched: u8,
    pub addr_abs: u16,
    pub addr_rel: u16,
    pub opcode: u8,
    pub cycles: nat,
    pub clock_count: u64,
    pub mem: Seq<u8>,
}

impl CpuState {
    pub open spec fn read(self, addr: u16) -> u8 {
        self.mem[addr as int]
    }

    /// The little-endian word at `addr` and `addr + 1` (wrapping).
    pub open spec fn read16(self, addr: u16) -> u16 {
        word(self.read(inc16(addr)), self.read(addr))
    }

    pub open spec fn flag(self, f: u8) -> bool {
        self.status & f == f
    }

    pub open spec fn set_flag(self, f: u8, on: bool) -> CpuState {
        CpuState { status: with_flag(self.status, f, on), ..self }
    }

    /// Z and N set from `v`.
    pub open spec fn set_zn(self, v: u8) -> CpuState {
        self.set_flag(Flags::Z, v == 0).set_flag(Flags::N, v & 0x80 != 0)
    }

    pub open spec fn write(self, addr: u16, v: u8) -> CpuState {
        CpuState { mem: self.mem.update(addr as int, v), ..self }
    }

    /// `v` stored at `0x0100 + SP`, then SP decremented (mod 256).
    pub open spec fn push(self, v: u8) -> CpuState {
        CpuState { mem: self.mem.update(0x100 + self.sp, v), sp: dec8(self.sp), ..self }
    }

    /// SP incremented (mod 256), then the byte at `0x0100 + SP`.
    pub open spec fn pop(self) -> (CpuState, u8) {
        let sp = inc8(self.sp);
        (CpuState { sp: sp, ..self }, self.mem[0x100 + sp])
    }

    /// The operand of the current instruction: `fetched` (A, put there by
    /// IMP) in implied mode, else the byte at `addr_abs`, which is stored
    /// into `fetched`.
    pub open spec fn fetch(self, implied: bool) -> (CpuState, u8) {
        if implied {
            (self, self.fetched)
        } else {
            let v = self.read(self.addr_abs);
            (CpuState { fetched: v, ..self }, v)
        }
    }
}

/// Registers, scratch values and cycle counters of the 6502, with the bus
/// it reads and writes.
pub struct CpuCore {
    pub a: u8,
    pub x: u8,
    pub y: u8,
    pub sp: u8,
    pub pc: u16,
    pub status: u8,
    /// The operand after address resolution.
    pub fetched: u8,
    /// The resolved effective address.
    pub addr_abs: u16,
    /// The sign-extended branch offset.
    pub addr_rel: u16,
    /// The opcode of the current instruction.
    pub opcode: u8,
    /// Ticks still owed before the current instruction is complete.
    pub cycles: usize,
    /// Ticks since reset.
    pub clock_count: u64,
    pub bus: Bus,
}

impl View for CpuCore {
    type V = CpuState;

    open spec fn view(&self) -> CpuState {
        CpuState {
            a: self.a,
            x: self.x,
            y: self.y,
            sp: self.sp,
            pc: self.pc,
            status: self.status,
            fetched: self.fetched,
            addr_abs: self.addr_abs,
            addr_rel: self.addr_rel,
            opcode: self.opcode,
            cycles: self.cycles as nat,
            clock_count: self.clock_count,
            mem: self.bus.ram@,
        }
    }
}

impl CpuCore {
    /// A core on `bus` with every register, flag and counter zero.
    pub fn new(bus: Bus) -> (r: CpuCore)
        ensures
            r@ == (CpuState {
                a: 0,
                x: 0,
                y: 0,
                sp: 0,
                pc: 0,
                status: 0,
                fetched: 0,
                addr_abs: 0,
                addr_rel: 0,
                opcode: 0,
                cycles: 0,
                clock_count: 0,
                mem: bus.ram@,
            }),
    {
        CpuCore {
            a: 0,
            x: 0,
            y: 0,
            sp: 0,
            pc: 0,
            status: 0,
            fetched: 0,
            addr_abs: 0,
            addr_rel: 0,
            opcode: 0,
            cycles: 0,
            clock_count: 0,
            bus,
        }
    }

    pub fn read(&self, addr: u16) -> (r: u8)
        ensures
            r == self@.read(addr),
    {
        self.bus.read(addr)
    }

    /// The little-endian word at `addr` and `addr + 1` (wrapping).
    pub fn read16(&self, addr: u16) -> (r: u16)
        ensures
            r == self@.read16(addr),
    {
        let low = self.read(addr) as u16;
        let high = self.read(addr.wrapping_add(1)) as u16;
        high * 256 + low
    }

    pub fn write(&mut self, addr: u16, value: u8)
        ensures
            final(self)@ == old(self)@.write(addr, value),
    {
        self.bus.write(addr, value);
    }

    /// Whether every bit of `flag` is set in the status register.
    pub fn get_flag(&self, flag: u8) -> (r: bool)
        ensures
            r == self@.flag(flag),
    {
        self.status & flag == flag
    }

    /// Sets (`on_off`) or clears every bit of `flag` in the status register.
    pub fn set_flag(&mut self, flag: u8, on_off: bool)
        ensures
            final(self)@ == old(self)@.set_flag(flag, on_off),
    {
        if on_off {
            self.status = self.status | flag;
        } else {
            self.status = self.status & !flag;
        }
    }

    /// Sets Z and N from `v`.
    pub fn set_zn(&mut self, v: u8)
        ensures
            final(self)@ == old(self)@.set_zn(v),
    {
        self.set_flag(Flags::Z, v == 0);
        self.set_flag(Flags::N, v & 0x80 != 0);
    }

    pub fn push(&mut self, v: u8)
        ensures
            final(self)@ == old(self)@.push(v),
    {
        self.write(0x100 + self.sp as u16, v);
        self.sp = self.sp.wrapping_sub(1);
    }

    pub fn pop(&mut self) -> (r: u8)
        ensures
            (final(self)@, r) == old(self)@.pop(),
    {
        self.sp = self.sp.wrapping_add(1);
        self.read(0x100 + self.sp as u16)
    }

    /// The operand of the current instruction (see `CpuState::fetch`).
    pub fn fetch(&mut self, implied: bool) -> (r: u8)
        ensures
            (final(self)@, r) == old(self)@.fetch(implied),
    {
        if !implied {
            self.fetched = self.read(self.addr_abs);
        }
        self.fetched
    }

    /// Loads PC from the reset vector at `0xFFFC`, clears A, X, Y and the
    /// scratch values, sets SP to `0xFD`, the status to U alone, and owes 8
    /// cycles.
    pub fn reset(&mut self)
        ensures
            final(self)@ == (CpuState {
                a: 0,
                x: 0,
                y: 0,
                sp: 0xFD,
                pc: old(self)@.read16(0xFFFC),
                status: Flags::U,
                fetched: 0,
                addr_abs: 0,
                addr_rel: 0,
                cycles: 8,
                clock_count: 0,
                ..old(self)@
            }),
    {
        self.pc = self.read16(0xFFFC);
        self.a = 0;
        self.x = 0;
        self.y = 0;
        self.sp = 0xFD;
        self.status = Flags::U;
        self.addr_rel = 0;
        self.addr_abs = 0;
        self.fetched = 0;
        self.cycles = 8;
        self.clock_count = 0;
    }

    /// Runs the instruction at PC: the first tick of `decode`.
    fn execute(&mut self)
        ensures
            final(self)@ == decode(old(self)@),
    {
        let opcode = self.read(self.pc);
        self.opcode = opcode;
        self.set_flag(Flags::U, true);
        self.pc = self.pc.wrapping_add(1);
        let e = lookup(opcode);
        self.cycles = e.cycles as usize;
        proof {
            self::laws::lemma_mode_frame(e.mode, self@);
            let s2 = mode_effect(e.mode, self@).0;
            self::laws::lemma_op_frame(e.op, s2, e.mode);
        }
        let extra_mode = e.mode.run(self);
        let extra_op = e.op.run(self, e.mode);
        if extra_mode && extra_op {
            self.cycles = self.cycles + 1;
        }
    }

    /// Whether the current instruction has used all its cycles.
    pub fn complete(&self) -> (r: bool)
        ensures
            r == (self.cycles == 0),
    {
        self.cycles == 0
    }
}

/// The start of an instruction's first tick: the opcode at PC is read and PC
/// moves past it, U is forced, and the table's base cycle count is owed.
pub open spec fn begin(s: CpuState) -> CpuState {
    let opcode = s.read(s.pc);
    CpuState {
        opcode: opcode,
        pc: inc16(s.pc),
        cycles: opcode_info(opcode).cycles as nat,
        ..s.set_flag(Flags::U, true)
    }
}

/// An instruction's first tick: after `begin`, the addressing mode and the
/// operation run, and one cycle is added when both report a page cross.
pub open spec fn decode(s: CpuState) -> CpuState {
    let e = opcode_info(s.read(s.pc));
    let (s2, extra_mode) = mode_effect(e.mode, begin(s));
    let (s3, extra_op) = op_effect(e.op, s2, e.mode);
    CpuState { cycles: s3.cycles + (if extra_mode && extra_op { 1nat } else { 0 }), ..s3 }
}

/// One clock tick: a new instruction runs when none is pending; then one
/// owed cycle is paid (none when the instruction owed none) and the tick is
/// counted.
pub open spec fn tick(s: CpuState) -> CpuState {
    let s1 = if s.cycles == 0 { decode(s) } else { s };
    CpuState {
        cycles: if s1.cycles == 0 { 0 } else { (s1.cycles - 1) as nat },
        clock_count: if s.clock_count == u64::MAX { 0 } else { (s.clock_count + 1) as u64 },
        ..s1
    }
}

/// An interrupt: PC (high byte first) and the status (B clear, U set) are
/// pushed, I is set, PC is loaded from `vector`, and `cycles` are owed.
pub open spec fn interrupt(s: CpuState, vector: u16, cycles: nat) -> CpuState {
    let s1 = s.push((s.pc / 256) as u8).push((s.pc % 256) as u8).push(
        (s.status & !Flags::B) | Flags::U,
    ).set_flag(Flags::I, true);
    CpuState { pc: s1.read16(vector), cycles: cycles, ..s1 }
}

/// A 6502 driven one clock tick at a time.
pub struct Cpu {
    pub core: CpuCore,
}

impl Cpu {
    /// The bus the CPU reads and writes.
    pub fn bus(&self) -> (r: &Bus)
        ensures
            r == &self.core.bus,
    {
        &self.core.bus
    }

    /// The bus, for loaders and debuggers that change memory between ticks.
    pub fn bus_mut(&mut self) -> (r: &mut Bus)
        ensures
            *r == old(self).core.bus,
            *final(self) == (Cpu { core: CpuCore { bus: *final(r), ..old(self).core } }),
    {
        &mut self.core.bus
    }

    /// A CPU on `bus`, with every register and counter zero; `reset` is to be
    /// called before the first `clock`.
    pub fn new(bus: Bus) -> (r: Cpu)
        ensures
            r.core@ == (CpuState {
                a: 0,
                x: 0,
                y: 0,
                sp: 0,
                pc: 0,
                status: 0,
                fetched: 0,
                addr_abs: 0,
                addr_rel: 0,
                opcode: 0,
                cycles: 0,
                clock_count: 0,
                mem: bus.ram@,
            }),
    {
        Cpu { core: CpuCore::new(bus) }
    }

    /// One clock tick. An instruction takes effect on its first tick; the
    /// ticks it still owes after that change nothing but the counters. U is
    /// set after every instruction, and stays set once it is (as from
    /// `reset` on).
    pub fn clock(&mut self)
        ensures
            final(self).core@ == tick(old(self).core@),
            old(self).core.cycles == 0 ==> final(self).core.status & Flags::U == Flags::U,
            old(self).core.status & Flags::U == Flags::U ==> final(self).core.status & Flags::U
                == Flags::U,
    {
        if self.core.cycles == 0 {
            self.core.execute();
            proof {
                let s = old(self).core@;
                let e = opcode_info(s.read(s.pc));
                self::laws::lemma_mode_frame(e.mode, begin(s));
                self::laws::lemma_op_frame(e.op, mode_effect(e.mode, begin(s)).0, e.mode);
                self::laws::lemma_decode_keeps_u(s);
            }
        }
        if self.core.cycles > 0 {
            self.core.cycles = self.core.cycles - 1;
        }
        self.core.clock_count = self.core.clock_count.wrapping_add(1);
    }

    /// See `CpuCore::reset`.
    pub fn reset(&mut self)
        ensures
            final(self).core@ == (CpuState {
                a: 0,
                x: 0,
                y: 0,
                sp: 0xFD,
                pc: old(self).core@.read16(0xFFFC),
                status: Flags::U,
                fetched: 0,
                addr_abs: 0,
                addr_rel: 0,
                cycles: 8,
                clock_count: 0,
                ..old(self).core@
            }),
    {
        self.core.reset()
    }

    /// A maskable interrupt: taken only while I is clear, through the vector
    /// at `0xFFFE`, for 7 cycles.
    pub fn irq(&mut self)
        ensures
            final(self).core@ == if old(self).core@.flag(Flags::I) {
                old(self).core@
            } else {
                interrupt(old(self).core@, 0xFFFE, 7)
            },
    {
        if !self.core.get_flag(Flags::I) {
            self.interrupt(0xFFFE, 7);
        }
    }

    /// A non-maskable interrupt, through the vector at `0xFFFA`, for 8 cycles.
    pub fn nmi(&mut self)
        ensures
            final(self).core@ == interrupt(old(self).core@, 0xFFFA, 8),
    {
        self.interrupt(0xFFFA, 8);
    }

    fn interrupt(&mut self, vector: u16, cycles: usize)
        ensures
            final(self).core@ == interrupt(old(self).core@, vector, cycles as nat),
    {
        let core = &mut self.core;
        let pc = core.pc;
        let st = (core.status & !Flags::B) | Flags::U;
        core.push((pc / 256) as u8);
        core.push((pc % 256) as u8);
        core.push(st);
        core.set_flag(Flags::I, true);
        core.pc = core.read16(vector);
        core.cycles = cycles;
    }

    /// Whether the current instruction has used all its cycles.
    pub fn complete(&self) -> (r: bool)
        ensures
            r == (self.core.cycles == 0),
    {
        self.core.complete()
    }
}

} // verus!
