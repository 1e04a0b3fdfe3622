use yane::bus::Bus;
use yane::cpu::{Cpu, Flags};

/// A CPU whose memory holds `program` at `origin`, with the reset vector
/// pointing there, after `reset`.
fn cpu_with(origin: u16, program: &[u8], setup: &[(u16, u8)]) -> Cpu {
    let mut bus = Bus::new();
    for (i, b) in program.iter().enumerate() {
        bus.write(origin.wrapping_add(i as u16), *b);
    }
    for (addr, v) in setup {
        bus.write(*addr, *v);
    }
    bus.write(0xFFFC, (origin & 0xFF) as u8);
    bus.write(0xFFFD, (origin >> 8) as u8);
    let mut cpu = Cpu::new(bus);
    cpu.reset();
    cpu
}

/// Pays the cycles still owed.
fn drain(cpu: &mut Cpu) {
    while !cpu.complete() {
        cpu.clock();
    }
}

/// Runs one whole instruction and returns the ticks it took.
fn step(cpu: &mut Cpu) -> u32 {
    drain(cpu);
    let mut n = 0;
    loop {
        cpu.clock();
        n += 1;
        if cpu.complete() {
            return n;
        }
    }
}

#[test]
fn immediate_load_and_branch_loop() {
    let program = [
        0xA2, 0x0A, 0x8E, 0x00, 0x00, 0xA2, 0x03, 0x8E, 0x01, 0x00, 0xAC, 0x00, 0x00, 0xA9, 0x00,
        0x18, 0x6D, 0x01, 0x00, 0x88, 0xD0, 0xFA, 0x8D, 0x02, 0x00, 0xEA, 0xEA, 0xEA,
    ];
    let mut cpu = cpu_with(0x8000, &program, &[]);
    let mut guard = 0;
    while cpu.core.pc != 0x8019 {
        step(&mut cpu);
        guard += 1;
        assert!(guard < 1000);
    }
    assert_eq!(cpu.bus().read(0x0002), 0x1E);
    assert_eq!(cpu.core.a, 0x1E);
    assert_eq!(cpu.core.x, 0x03);
    assert_eq!(cpu.core.y, 0x00);
    assert!(cpu.core.get_flag(Flags::Z));
    assert!(!cpu.core.get_flag(Flags::N));
}

#[test]
fn adc_overflow() {
    let mut cpu = cpu_with(0x8000, &[0x65, 0x00], &[(0x0000, 0x01)]);
    drain(&mut cpu);
    cpu.core.a = 0x7F;
    cpu.core.set_flag(Flags::C, false);
    step(&mut cpu);
    assert_eq!(cpu.core.a, 0x80);
    assert!(cpu.core.get_flag(Flags::N));
    assert!(cpu.core.get_flag(Flags::V));
    assert!(!cpu.core.get_flag(Flags::Z));
    assert!(!cpu.core.get_flag(Flags::C));
}

#[test]
fn adc_carry_out_and_zero() {
    let mut cpu = cpu_with(0x8000, &[0x69, 0x01], &[]);
    drain(&mut cpu);
    cpu.core.a = 0xFF;
    step(&mut cpu);
    assert_eq!(cpu.core.a, 0x00);
    assert!(cpu.core.get_flag(Flags::C));
    assert!(cpu.core.get_flag(Flags::Z));
    assert!(!cpu.core.get_flag(Flags::V));
}

#[test]
fn sbc_without_borrow() {
    // SEC; SBC #$03
    let mut cpu = cpu_with(0x8000, &[0x38, 0xE9, 0x03], &[]);
    drain(&mut cpu);
    cpu.core.a = 0x05;
    step(&mut cpu);
    step(&mut cpu);
    assert_eq!(cpu.core.a, 0x02);
    assert!(cpu.core.get_flag(Flags::C));
    assert!(!cpu.core.get_flag(Flags::N));
}

#[test]
fn indirect_jmp_page_wrap_bug() {
    let mut cpu = cpu_with(
        0x8000,
        &[0x6C, 0xFF, 0x30],
        &[(0x30FF, 0x40), (0x3000, 0x80), (0x3100, 0x50)],
    );
    let ticks = step(&mut cpu);
    assert_eq!(cpu.core.pc, 0x8040);
    assert_eq!(ticks, 5);
}

#[test]
fn izy_page_cross_costs_a_cycle() {
    let mut cpu = cpu_with(
        0x8000,
        &[0xB1, 0x20],
        &[(0x0020, 0x80), (0x0021, 0x00), (0x017F, 0x42)],
    );
    drain(&mut cpu);
    cpu.core.y = 0xFF;
    let ticks = step(&mut cpu);
    assert_eq!(cpu.core.a, 0x42);
    assert_eq!(ticks, 6);
}

#[test]
fn store_never_pays_page_cross() {
    // STA $20FF,X with X = 1 crosses into page 0x21
    let mut cpu = cpu_with(0x8000, &[0x9D, 0xFF, 0x20], &[]);
    drain(&mut cpu);
    cpu.core.a = 0x99;
    cpu.core.x = 0x01;
    let ticks = step(&mut cpu);
    assert_eq!(cpu.bus().read(0x2100), 0x99);
    assert_eq!(ticks, 5);
}

#[test]
fn branch_taken_across_a_page() {
    let mut cpu = cpu_with(0x80F0, &[0xD0, 0x7F], &[]);
    assert!(!cpu.core.get_flag(Flags::Z));
    let ticks = step(&mut cpu);
    assert_eq!(cpu.core.pc, 0x8171);
    assert_eq!(ticks, 4);
}

#[test]
fn branch_not_taken_costs_base() {
    // BEQ +4 with Z clear
    let mut cpu = cpu_with(0x8000, &[0xF0, 0x04], &[]);
    let ticks = step(&mut cpu);
    assert_eq!(cpu.core.pc, 0x8002);
    assert_eq!(ticks, 2);
}

#[test]
fn branch_backwards_within_page() {
    // BNE -2 loops onto itself: taken, no page cross
    let mut cpu = cpu_with(0x8010, &[0xD0, 0xFE], &[]);
    let ticks = step(&mut cpu);
    assert_eq!(cpu.core.pc, 0x8010);
    assert_eq!(ticks, 3);
}

#[test]
fn reset_state() {
    let mut cpu = cpu_with(0xC123, &[], &[]);
    cpu.core.a = 1;
    cpu.core.x = 2;
    cpu.core.y = 3;
    cpu.core.sp = 4;
    cpu.core.status = 0xFF;
    cpu.reset();
    assert_eq!(cpu.core.a, 0);
    assert_eq!(cpu.core.x, 0);
    assert_eq!(cpu.core.y, 0);
    assert_eq!(cpu.core.sp, 0xFD);
    assert_eq!(cpu.core.status, 0x20);
    assert_eq!(cpu.core.pc, 0xC123);
    assert_eq!(cpu.core.cycles, 8);
    assert!(!cpu.complete());
}

#[test]
fn cycles_count_down_one_per_tick() {
    // LDA $10FF,X with X = 1: base 4 plus the page cross
    let mut cpu = cpu_with(0x8000, &[0xBD, 0xFF, 0x10], &[]);
    drain(&mut cpu);
    cpu.core.x = 1;
    cpu.clock();
    assert_eq!(cpu.core.cycles, 4);
    let mut expected = 4;
    while expected > 0 {
        let pc = cpu.core.pc;
        let a = cpu.core.a;
        cpu.clock();
        expected -= 1;
        assert_eq!(cpu.core.cycles, expected);
        assert_eq!(cpu.core.pc, pc);
        assert_eq!(cpu.core.a, a);
    }
    assert!(cpu.complete());
}

#[test]
fn unused_flag_reads_one_after_each_operation() {
    // PLP pulls 0x00, then CLC
    let mut cpu = cpu_with(0x8000, &[0x28, 0x18], &[(0x01FE, 0x00)]);
    cpu.core.status = 0x00;
    step(&mut cpu);
    assert!(cpu.core.get_flag(Flags::U));
    assert!(!cpu.core.get_flag(Flags::B));
    cpu.core.status = 0x00;
    step(&mut cpu);
    assert!(cpu.core.get_flag(Flags::U));
}

#[test]
fn undefined_opcode_is_a_safe_no_op() {
    let mut cpu = cpu_with(0x8000, &[0x02], &[]);
    drain(&mut cpu);
    let a = cpu.core.a;
    let ticks = step(&mut cpu);
    assert_eq!(ticks, 1);
    assert_eq!(cpu.core.pc, 0x8001);
    assert_eq!(cpu.core.a, a);
    assert_eq!(cpu.core.sp, 0xFD);
}

#[test]
fn jsr_and_rts() {
    // JSR $9000; at $9000: RTS
    let mut cpu = cpu_with(0x8000, &[0x20, 0x00, 0x90], &[(0x9000, 0x60)]);
    assert_eq!(step(&mut cpu), 6);
    assert_eq!(cpu.core.pc, 0x9000);
    assert_eq!(cpu.core.sp, 0xFB);
    assert_eq!(cpu.bus().read(0x01FD), 0x80);
    assert_eq!(cpu.bus().read(0x01FC), 0x02);
    assert_eq!(step(&mut cpu), 6);
    assert_eq!(cpu.core.pc, 0x8003);
    assert_eq!(cpu.core.sp, 0xFD);
}

#[test]
fn pha_pla_round_trip() {
    // PHA; LDA #$00; PLA
    let mut cpu = cpu_with(0x8000, &[0x48, 0xA9, 0x00, 0x68], &[]);
    drain(&mut cpu);
    cpu.core.a = 0x84;
    step(&mut cpu);
    step(&mut cpu);
    assert_eq!(cpu.core.a, 0);
    assert!(cpu.core.get_flag(Flags::Z));
    step(&mut cpu);
    assert_eq!(cpu.core.a, 0x84);
    assert!(cpu.core.get_flag(Flags::N));
    assert!(!cpu.core.get_flag(Flags::Z));
}

#[test]
fn compare_sets_carry_zero_negative() {
    // CMP #$10 with A = 0x10, then CPX #$05 with X = 0x03
    let mut cpu = cpu_with(0x8000, &[0xC9, 0x10, 0xE0, 0x05], &[]);
    drain(&mut cpu);
    cpu.core.a = 0x10;
    cpu.core.x = 0x03;
    step(&mut cpu);
    assert!(cpu.core.get_flag(Flags::C));
    assert!(cpu.core.get_flag(Flags::Z));
    assert!(!cpu.core.get_flag(Flags::N));
    step(&mut cpu);
    assert!(!cpu.core.get_flag(Flags::C));
    assert!(!cpu.core.get_flag(Flags::Z));
    assert!(cpu.core.get_flag(Flags::N));
}

#[test]
fn shifts_on_accumulator_and_memory() {
    // ASL A; LSR $10; ROL A (carry in); ROR $11
    let mut cpu = cpu_with(
        0x8000,
        &[0x0A, 0x46, 0x10, 0x2A, 0x66, 0x11],
        &[(0x0010, 0x03), (0x0011, 0x02)],
    );
    drain(&mut cpu);
    cpu.core.a = 0x81;
    step(&mut cpu);
    assert_eq!(cpu.core.a, 0x02);
    assert!(cpu.core.get_flag(Flags::C));
    step(&mut cpu);
    assert_eq!(cpu.bus().read(0x0010), 0x01);
    assert!(cpu.core.get_flag(Flags::C));
    step(&mut cpu);
    assert_eq!(cpu.core.a, 0x05);
    assert!(!cpu.core.get_flag(Flags::C));
    step(&mut cpu);
    assert_eq!(cpu.bus().read(0x0011), 0x01);
    assert!(!cpu.core.get_flag(Flags::C));
}

#[test]
fn logic_and_transfers() {
    // LDA #$F0; AND #$3C; ORA #$01; EOR #$FF; TAX; INX; TXS; TSX
    let mut cpu = cpu_with(
        0x8000,
        &[0xA9, 0xF0, 0x29, 0x3C, 0x09, 0x01, 0x49, 0xFF, 0xAA, 0xE8, 0x9A, 0xBA],
        &[],
    );
    for _ in 0..4 {
        step(&mut cpu);
    }
    assert_eq!(cpu.core.a, 0xCE);
    step(&mut cpu);
    assert_eq!(cpu.core.x, 0xCE);
    step(&mut cpu);
    assert_eq!(cpu.core.x, 0xCF);
    step(&mut cpu);
    assert_eq!(cpu.core.sp, 0xCF);
    step(&mut cpu);
    assert_eq!(cpu.core.x, 0xCF);
    assert!(cpu.core.get_flag(Flags::N));
}

#[test]
fn inc_dec_memory_wrap() {
    // INC $10 (0xFF -> 0x00); DEC $11 (0x00 -> 0xFF)
    let mut cpu = cpu_with(0x8000, &[0xE6, 0x10, 0xC6, 0x11], &[(0x0010, 0xFF)]);
    step(&mut cpu);
    assert_eq!(cpu.bus().read(0x0010), 0x00);
    assert!(cpu.core.get_flag(Flags::Z));
    step(&mut cpu);
    assert_eq!(cpu.bus().read(0x0011), 0xFF);
    assert!(cpu.core.get_flag(Flags::N));
}

#[test]
fn brk_pushes_and_jumps_through_vector() {
    let mut cpu = cpu_with(0x8000, &[0x00], &[(0xFFFE, 0x34), (0xFFFF, 0x12)]);
    assert_eq!(step(&mut cpu), 7);
    assert_eq!(cpu.core.pc, 0x1234);
    assert!(cpu.core.get_flag(Flags::I));
    assert_eq!(cpu.bus().read(0x01FD), 0x80);
    assert_eq!(cpu.bus().read(0x01FC), 0x02);
    assert_eq!(cpu.bus().read(0x01FB), 0x30);
    assert_eq!(cpu.core.sp, 0xFA);
}

#[test]
fn irq_masked_and_taken() {
    let mut cpu = cpu_with(0x8000, &[], &[(0xFFFE, 0x00), (0xFFFF, 0x90)]);
    drain(&mut cpu);
    cpu.core.set_flag(Flags::I, true);
    cpu.irq();
    assert_eq!(cpu.core.pc, 0x8000);
    cpu.core.set_flag(Flags::I, false);
    cpu.irq();
    assert_eq!(cpu.core.pc, 0x9000);
    assert_eq!(cpu.core.cycles, 7);
    assert_eq!(cpu.bus().read(0x01FB), 0x20);
    assert!(cpu.core.get_flag(Flags::I));
}

#[test]
fn nmi_always_taken() {
    let mut cpu = cpu_with(0x8000, &[], &[(0xFFFA, 0x00), (0xFFFB, 0xA0)]);
    drain(&mut cpu);
    cpu.core.set_flag(Flags::I, true);
    cpu.nmi();
    assert_eq!(cpu.core.pc, 0xA000);
    assert_eq!(cpu.core.cycles, 8);
    assert_eq!(cpu.bus().read(0x01FD), 0x80);
    assert_eq!(cpu.bus().read(0x01FC), 0x00);
}

#[test]
fn rti_restores_status_and_pc() {
    // stack holds status 0xD3 (B set), then PC 0x1234
    let mut cpu = cpu_with(
        0x8000,
        &[0x40],
        &[(0x01FE, 0xD3), (0x01FF, 0x34), (0x0100, 0x12)],
    );
    assert_eq!(step(&mut cpu), 6);
    assert_eq!(cpu.core.pc, 0x1234);
    assert_eq!(cpu.core.status, 0xE3);
}

#[test]
fn page_cross_nop_takes_the_extra_cycle() {
    // NOP $10FF,X (0x1C) with X = 1, and NOP $10FF (0x0C)
    let mut cpu = cpu_with(0x8000, &[0x1C, 0xFF, 0x10, 0x0C, 0xFF, 0x10], &[]);
    drain(&mut cpu);
    cpu.core.x = 1;
    assert_eq!(step(&mut cpu), 5);
    assert_eq!(step(&mut cpu), 4);
    assert_eq!(cpu.core.pc, 0x8006);
}
