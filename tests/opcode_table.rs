use yane::cpu::addr_modes::Kind;
use yane::cpu::opcodes::lookup;
use yane::cpu::operations::Op;

#[test]
fn table_entries() {
    let lda = lookup(0xA9);
    assert_eq!(lda.op, Op::LDA);
    assert_eq!(lda.mode, Kind::IMM);
    assert_eq!(lda.cycles, 2);
    let jmp = lookup(0x6C);
    assert_eq!(jmp.op, Op::JMP);
    assert_eq!(jmp.mode, Kind::IND);
    assert_eq!(jmp.cycles, 5);
    let sta = lookup(0x91);
    assert_eq!((sta.op, sta.mode, sta.cycles), (Op::STA, Kind::IZY, 6));
    let nop = lookup(0xFC);
    assert_eq!((nop.op, nop.mode, nop.cycles), (Op::NOP, Kind::ABX, 4));
    let kil = lookup(0x02);
    assert_eq!((kil.op, kil.mode, kil.cycles), (Op::XXX, Kind::IMP, 0));
    assert_eq!(Op::BNE.name(), "BNE");
}

#[test]
fn official_opcodes_count() {
    let mut official = 0;
    for b in 0..=255u8 {
        let e = lookup(b);
        if e.op != Op::XXX && e.op != Op::NOP {
            official += 1;
        }
    }
    // 151 official opcodes, of which one (0xEA) is NOP
    assert_eq!(official, 150);
}
