use yane::bus::Bus;
use yane::cpu::Cpu;

fn cpu_with(origin: u16, program: &[u8]) -> Cpu {
    let mut bus = Bus::new();
    for (i, b) in program.iter().enumerate() {
        bus.write(origin.wrapping_add(i as u16), *b);
    }
    Cpu::new(bus)
}

#[test]
fn lists_a_program() {
    let program = [
        0xA2, 0x0A, 0x8E, 0x00, 0x00, 0xA2, 0x03, 0x8E, 0x01, 0x00, 0xAC, 0x00, 0x00, 0xA9, 0x00,
        0x18, 0x6D, 0x01, 0x00, 0x88, 0xD0, 0xFA, 0x8D, 0x02, 0x00, 0xEA, 0xEA, 0xEA,
    ];
    let cpu = cpu_with(0x8000, &program);
    let lines = cpu.disassemble(0x8000, 0x801B);
    assert_eq!(lines.len(), 14);
    assert_eq!(lines[&0x8000], "$8000: LDX #$0A {IMM}");
    assert_eq!(lines[&0x8002], "$8002: STX $0000 {ABS}");
    assert_eq!(lines[&0x800F], "$800F: CLC  {IMP}");
    assert_eq!(lines[&0x8010], "$8010: ADC $0001 {ABS}");
    assert_eq!(lines[&0x8014], "$8014: BNE $FA [$8010] {REL}");
    assert_eq!(lines[&0x801B], "$801B: NOP  {IMP}");
    assert!(!lines.contains_key(&0x8001));
}

#[test]
fn operand_formats() {
    let program = [
        0xB5, 0x10, // LDA $10, X
        0xB6, 0x20, // LDX $20, Y
        0xA1, 0x30, // LDA ($30, X)
        0xB1, 0x40, // LDA ($40), Y
        0xBD, 0x34, 0x12, // LDA $1234, X
        0xB9, 0xCD, 0xAB, // LDA $ABCD, Y
        0x6C, 0xFF, 0x30, // JMP ($30FF)
        0xA5, 0x7F, // LDA $7F
        0x02, // undefined
    ];
    let cpu = cpu_with(0x0200, &program);
    let lines = cpu.disassemble(0x0200, 0x0213);
    let got: Vec<&str> = lines.values().map(|s| s.as_str()).collect();
    assert_eq!(
        got,
        vec![
            "$0200: LDA $10, X {ZPX}",
            "$0202: LDX $20, Y {ZPY}",
            "$0204: LDA ($30, X) {IZX}",
            "$0206: LDA ($40), Y {IZY}",
            "$0208: LDA $1234, X {ABX}",
            "$020B: LDA $ABCD, Y {ABY}",
            "$020E: JMP ($30FF) {IND}",
            "$0211: LDA $7F {ZP0}",
            "$0213: XXX  {IMP}",
        ]
    );
}

#[test]
fn whole_address_space_terminates() {
    let cpu = cpu_with(0x0000, &[]);
    let lines = cpu.disassemble(0x0000, 0xFFFF);
    // every zero byte is BRK, one byte long
    assert_eq!(lines.len(), 65536);
    assert_eq!(lines[&0xFFFF], "$FFFF: BRK  {IMP}");
}

#[test]
fn forward_branch_target() {
    let cpu = cpu_with(0x80F0, &[0xD0, 0x7F]);
    let lines = cpu.disassemble(0x80F0, 0x80F0);
    assert_eq!(lines.len(), 1);
    assert_eq!(lines[&0x80F0], "$80F0: BNE $7F [$8171] {REL}");
}

#[test]
fn disassembly_leaves_state_alone() {
    let mut cpu = cpu_with(0x8000, &[0xA9, 0x01]);
    cpu.core.a = 0x55;
    let _ = cpu.disassemble(0x8000, 0x8001);
    assert_eq!(cpu.core.a, 0x55);
    assert_eq!(cpu.bus().read(0x8000), 0xA9);
}
