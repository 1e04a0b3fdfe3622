//! Facts about whole instructions, proved from the definitions of `decode`
//! and `tick`.
use vstd::prelude::*;

use super::addr_modes::{mode_effect, Kind};
use super::opcodes::opcode_info;
use super::operations::{op_effect, restored_status, Op};
use super::{begin, decode, tick, with_flag, CpuState, Flags};

verus! {

/// Whether `op` is one of the eight conditional branches, which add their
/// own cycles when taken.
pub open spec fn is_branch(op: Op) -> bool {
    op == Op::BCC || op == Op::BCS || op == Op::BEQ || op == Op::BNE || op == Op::BMI || op
        == Op::BPL || op == Op::BVC || op == Op::BVS
}

/// Setting or clearing any flag but U leaves U as it was.
pub broadcast proof fn lemma_with_flag_keeps_u(st: u8, f: u8, on: bool)
    requires
        f == Flags::C || f == Flags::Z || f == Flags::I || f == Flags::D || f == Flags::B || f
            == Flags::V || f == Flags::N,
    ensures
        #[trigger] with_flag(st, f, on) & Flags::U == st & Flags::U,
{
    if on {
        assert((st | f) & 0x20 == st & 0x20) by (bit_vector)
            requires
                f == 1 || f == 2 || f == 4 || f == 8 || f == 16 || f == 64 || f == 128,
        ;
    } else {
        assert((st & !f) & 0x20 == st & 0x20) by (bit_vector)
            requires
                f == 1 || f == 2 || f == 4 || f == 8 || f == 16 || f == 64 || f == 128,
        ;
    }
}

/// An addressing mode changes neither the status, nor the cycle counters.
pub proof fn lemma_mode_frame(k: Kind, s: CpuState)
    ensures
        mode_effect(k, s).0.status == s.status,
        mode_effect(k, s).0.cycles == s.cycles,
        mode_effect(k, s).0.clock_count == s.clock_count,
{
    reveal(mode_effect);
}

/// An operation leaves the tick counter alone, adds at most two cycles (only
/// a branch adds any), and keeps U set. The proof goes through the same
/// groups of operations as `Op::run`.
pub proof fn lemma_op_frame(op: Op, s: CpuState, mode: Kind)
    ensures
        ({
            let r = op_effect(op, s, mode).0;
            &&& r.clock_count == s.clock_count
            &&& s.cycles <= r.cycles <= s.cycles + 2
            &&& !is_branch(op) ==> r.cycles == s.cycles
            &&& s.status & Flags::U == Flags::U ==> r.status & Flags::U == Flags::U
        }),
{
    match op {
        Op::XXX | Op::LDA | Op::LDX | Op::LDY | Op::STA | Op::STX | Op::STY | Op::ADC | Op::SBC
            | Op::AND => lemma_ops_frame_0(op, s, mode),
        Op::ORA | Op::EOR | Op::BIT | Op::CMP | Op::CPX | Op::CPY | Op::BCC | Op::BCS | Op::BNE
            | Op::BEQ => lemma_ops_frame_1(op, s, mode),
        Op::BPL | Op::BMI | Op::BVC | Op::BVS | Op::INC | Op::DEC | Op::INX | Op::INY | Op::DEX
            | Op::DEY => lemma_ops_frame_2(op, s, mode),
        Op::ASL | Op::LSR | Op::ROL | Op::ROR | Op::JMP | Op::JSR | Op::RTS | Op::RTI | Op::BRK
            | Op::PHA => lemma_ops_frame_3(op, s, mode),
        Op::PHP | Op::PLA | Op::PLP | Op::CLC | Op::SEC | Op::CLI | Op::SEI | Op::CLV | Op::CLD
            | Op::SED => lemma_ops_frame_4(op, s, mode),
        Op::TAX | Op::TAY | Op::TXA | Op::TYA | Op::TSX | Op::TXS
            | Op::NOP => lemma_ops_frame_5(op, s, mode),
    }
}

proof fn lemma_ops_frame_0(op: Op, s: CpuState, mode: Kind)
    requires
        op == Op::XXX || op == Op::LDA || op == Op::LDX || op == Op::LDY || op == Op::STA
            || op == Op::STX || op == Op::STY || op == Op::ADC || op == Op::SBC
            || op == Op::AND,
    ensures
        ({
            let r = op_effect(op, s, mode).0;
            &&& r.clock_count == s.clock_count
            &&& s.cycles <= r.cycles <= s.cycles + 2
            &&& !is_branch(op) ==> r.cycles == s.cycles
            &&& s.status & Flags::U == Flags::U ==> r.status & Flags::U == Flags::U
        }),
{
    reveal(op_effect);
    broadcast use lemma_with_flag_keeps_u;

}

proof fn lemma_ops_frame_1(op: Op, s: CpuState, mode: Kind)
    requires
        op == Op::ORA || op == Op::EOR || op == Op::BIT || op == Op::CMP || op == Op::CPX
            || op == Op::CPY || op == Op::BCC || op == Op::BCS || op == Op::BNE
            || op == Op::BEQ,
    ensures
        ({
            let r = op_effect(op, s, mode).0;
            &&& r.clock_count == s.clock_count
            &&& s.cycles <= r.cycles <= s.cycles + 2
            &&& !is_branch(op) ==> r.cycles == s.cycles
            &&& s.status & Flags::U == Flags::U ==> r.status & Flags::U == Flags::U
        }),
{
    reveal(op_effect);
    broadcast use lemma_with_flag_keeps_u;

}

proof fn lemma_ops_frame_2(op: Op, s: CpuState, mode: Kind)
    requires
        op == Op::BPL || op == Op::BMI || op == Op::BVC || op == Op::BVS || op == Op::INC
            || op == Op::DEC || op == Op::INX || op == Op::INY || op == Op::DEX
            || op == Op::DEY,
    ensures
        ({
            let r = op_effect(op, s, mode).0;
            &&& r.clock_count == s.clock_count
            &&& s.cycles <= r.cycles <= s.cycles + 2
            &&& !is_branch(op) ==> r.cycles == s.cycles
            &&& s.status & Flags::U == Flags::U ==> r.status & Flags::U == Flags::U
        }),
{
    reveal(op_effect);
    broadcast use lemma_with_flag_keeps_u;

}

proof fn lemma_ops_frame_3(op: Op, s: CpuState, mode: Kind)
    requires
        op == Op::ASL || op == Op::LSR || op == Op::ROL || op == Op::ROR || op == Op::JMP
            || op == Op::JSR || op == Op::RTS || op == Op::RTI || op == Op::BRK
            || op == Op::PHA,
    ensures
        ({
            let r = op_effect(op, s, mode).0;
            &&& r.clock_count == s.clock_count
            &&& s.cycles <= r.cycles <= s.cycles + 2
            &&& !is_branch(op) ==> r.cycles == s.cycles
            &&& s.status & Flags::U == Flags::U ==> r.status & Flags::U == Flags::U
        }),
{
    reveal(op_effect);
    broadcast use lemma_with_flag_keeps_u;

    assert forall|st: u8| #[trigger] restored_status(st) & Flags::U == Flags::U by {
        assert(((st & !0x10u8) | 0x20u8) & 0x20u8 == 0x20u8) by (bit_vector);
    }
}

proof fn lemma_ops_frame_4(op: Op, s: CpuState, mode: Kind)
    requires
        op == Op::PHP || op == Op::PLA || op == Op::PLP || op == Op::CLC || op == Op::SEC
            || op == Op::CLI || op == Op::SEI || op == Op::CLV || op == Op::CLD
            || op == Op::SED,
    ensures
        ({
            let r = op_effect(op, s, mode).0;
            &&& r.clock_count == s.clock_count
            &&& s.cycles <= r.cycles <= s.cycles + 2
            &&& !is_branch(op) ==> r.cycles == s.cycles
            &&& s.status & Flags::U == Flags::U ==> r.status & Flags::U == Flags::U
        }),
{
    reveal(op_effect);
    broadcast use lemma_with_flag_keeps_u;

    assert forall|st: u8| #[trigger] restored_status(st) & Flags::U == Flags::U by {
        assert(((st & !0x10u8) | 0x20u8) & 0x20u8 == 0x20u8) by (bit_vector);
    }
}

proof fn lemma_ops_frame_5(op: Op, s: CpuState, mode: Kind)
    requires
        op == Op::TAX || op == Op::TAY || op == Op::TXA || op == Op::TYA || op == Op::TSX
            || op == Op::TXS || op == Op::NOP,
    ensures
        ({
            let r = op_effect(op, s, mode).0;
            &&& r.clock_count == s.clock_count
            &&& s.cycles <= r.cycles <= s.cycles + 2
            &&& !is_branch(op) ==> r.cycles == s.cycles
            &&& s.status & Flags::U == Flags::U ==> r.status & Flags::U == Flags::U
        }),
{
    reveal(op_effect);
    broadcast use lemma_with_flag_keeps_u;

}

/// After an instruction's first tick, U reads as 1.
pub proof fn lemma_decode_keeps_u(s: CpuState)
    ensures
        decode(s).status & Flags::U == Flags::U,
{
    let st = s.status;
    assert((st | 0x20u8) & 0x20u8 == 0x20u8) by (bit_vector);
    let e = opcode_info(s.read(s.pc));
    let (s2, _) = mode_effect(e.mode, begin(s));
    lemma_mode_frame(e.mode, begin(s));
    lemma_op_frame(e.op, s2, e.mode);
}

/// Right after an instruction's first tick, the cycles owed are its base
/// count plus one when both the addressing mode and the operation report a
/// page cross (a taken branch adds its own cycles, so branches are left
/// out); each later tick pays exactly one, and changes nothing else but the
/// tick counter, until none is owed.
pub proof fn lemma_cycle_accounting(s: CpuState)
    ensures
        ({
            let e = opcode_info(s.read(s.pc));
            let (s2, extra_mode) = mode_effect(e.mode, begin(s));
            let (_, extra_op) = op_effect(e.op, s2, e.mode);
            !is_branch(e.op) ==> decode(s).cycles == e.cycles + (if extra_mode && extra_op {
                1int
            } else {
                0
            })
        }),
        s.cycles > 0 ==> tick(s) == (CpuState {
            cycles: (s.cycles - 1) as nat,
            clock_count: tick(s).clock_count,
            ..s
        }),
{
    let e = opcode_info(s.read(s.pc));
    let (s2, _) = mode_effect(e.mode, begin(s));
    lemma_mode_frame(e.mode, begin(s));
    lemma_op_frame(e.op, s2, e.mode);
}

} // verus!
