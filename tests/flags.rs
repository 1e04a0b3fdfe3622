use yane::bus::Bus;
use yane::cpu::{CpuCore, Flags};

#[test]
fn test_get_empty_flag() {
    let cpu = CpuCore::new(Bus::new());
    assert!(!cpu.get_flag(Flags::C));
    assert!(!cpu.get_flag(Flags::Z));
    assert!(!cpu.get_flag(Flags::I));
    assert!(!cpu.get_flag(Flags::D));
    assert!(!cpu.get_flag(Flags::B));
    assert!(!cpu.get_flag(Flags::U));
    assert!(!cpu.get_flag(Flags::V));
    assert!(!cpu.get_flag(Flags::N));
}

#[test]
fn test_set_get_flags() {
    let mut cpu = CpuCore::new(Bus::new());
    cpu.set_flag(Flags::C, true);
    cpu.set_flag(Flags::V, true);
    assert!(cpu.get_flag(Flags::C));
    assert!(!cpu.get_flag(Flags::Z));
    assert!(!cpu.get_flag(Flags::I));
    assert!(!cpu.get_flag(Flags::D));
    assert!(!cpu.get_flag(Flags::B));
    assert!(!cpu.get_flag(Flags::U));
    assert!(cpu.get_flag(Flags::V));
    assert!(!cpu.get_flag(Flags::N));
}

#[test]
fn test_set_get_flags2() {
    let mut cpu = CpuCore::new(Bus::new());
    cpu.set_flag(Flags::I | Flags::N, true);
    assert!(!cpu.get_flag(Flags::C));
    assert!(!cpu.get_flag(Flags::Z));
    assert!(cpu.get_flag(Flags::I));
    assert!(!cpu.get_flag(Flags::D));
    assert!(!cpu.get_flag(Flags::B));
    assert!(!cpu.get_flag(Flags::U));
    assert!(!cpu.get_flag(Flags::V));
    assert!(cpu.get_flag(Flags::N));
}

#[test]
fn clearing_a_flag_keeps_the_others() {
    let mut cpu = CpuCore::new(Bus::new());
    cpu.set_flag(Flags::C | Flags::Z | Flags::N, true);
    cpu.set_flag(Flags::Z, false);
    assert!(cpu.get_flag(Flags::C));
    assert!(!cpu.get_flag(Flags::Z));
    assert!(cpu.get_flag(Flags::N));
    assert_eq!(cpu.status, 0x81);
}

#[test]
fn bus_starts_zeroed_and_stores_bytes() {
    let mut bus = Bus::new();
    assert_eq!(bus.read(0x0000), 0);
    assert_eq!(bus.read(0xFFFF), 0);
    bus.write(0xFFFF, 0xAB);
    bus.write(0x1234, 0x56);
    assert_eq!(bus.read(0xFFFF), 0xAB);
    assert_eq!(bus.read(0x1234), 0x56);
    assert_eq!(bus.read(0x1235), 0);
}

#[test]
fn bus_load_wraps_past_the_top() {
    let mut bus = Bus::new();
    bus.write(0x0002, 0x77);
    bus.load(0xFFFE, &[1, 2, 3]);
    assert_eq!(bus.read(0xFFFE), 1);
    assert_eq!(bus.read(0xFFFF), 2);
    assert_eq!(bus.read(0x0000), 3);
    assert_eq!(bus.read(0x0001), 0);
    assert_eq!(bus.read(0x0002), 0x77);
}
