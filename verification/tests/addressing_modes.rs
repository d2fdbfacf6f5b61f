//! Effective-address computation, store/load round trips through each
//! non-immediate addressing mode, and trace formatting.

use breeze_core::addressing::AddressingMode;
use breeze_core::cpu::{AddressSpace, Cpu};
use breeze_core::snes::RamBus;

fn blank_cpu() -> Cpu<RamBus> {
    let mut bus = RamBus::new();
    bus.store(0, 0xFFFC, 0x00);
    bus.store(0, 0xFFFD, 0x80);
    Cpu::new(bus)
}

fn roundtrip_byte(cpu: &mut Cpu<RamBus>, am: AddressingMode, value: u8) -> u8 {
    am.clone().storeb(cpu, value);
    am.loadb(cpu)
}

#[test]
fn absolute_addresses_the_data_bank() {
    let mut cpu = blank_cpu();
    cpu.dbr = 0x12;
    let am = AddressingMode::Absolute(0x3456);
    assert_eq!(am.address(&mut cpu), (0x12, 0x3456));
}

#[test]
fn absolute_long_carries_its_own_bank() {
    let mut cpu = blank_cpu();
    cpu.dbr = 0x12;
    let am = AddressingMode::AbsoluteLong(0x7E, 0x0010);
    assert_eq!(am.address(&mut cpu), (0x7E, 0x0010));
}

#[test]
fn absolute_long_indexed_crosses_banks() {
    let mut cpu = blank_cpu();
    cpu.x = 0x0020;
    let am = AddressingMode::AbsLongIndexedX(0x01, 0xFFF0);
    assert_eq!(am.address(&mut cpu), (0x02, 0x0010));
}

#[test]
fn direct_adds_the_direct_page_register_in_bank_zero() {
    let mut cpu = blank_cpu();
    cpu.d = 0x0100;
    cpu.dbr = 0x44;
    let am = AddressingMode::Direct(0x10);
    assert_eq!(am.address(&mut cpu), (0x00, 0x0110));
}

#[test]
fn direct_wraps_inside_the_bank() {
    let mut cpu = blank_cpu();
    cpu.d = 0xFFF0;
    let am = AddressingMode::Direct(0x20);
    assert_eq!(am.address(&mut cpu), (0x00, 0x0010));
}

#[test]
fn direct_indexed_adds_x_with_wraparound() {
    let mut cpu = blank_cpu();
    cpu.d = 0xFF00;
    cpu.x = 0x0200;
    let am = AddressingMode::DirectIndexedX(0x10);
    assert_eq!(am.address(&mut cpu), (0x00, 0x0110));
}

#[test]
fn relative_adds_a_signed_displacement_to_pc() {
    let mut cpu = blank_cpu();
    cpu.pbr = 0x03;
    cpu.pc = 0x8000;
    assert_eq!(AddressingMode::Rel(-2).address(&mut cpu), (0x03, 0x7FFE));
    assert_eq!(AddressingMode::Rel(5).address(&mut cpu), (0x03, 0x8005));
}

#[test]
fn indirect_long_indexed_reads_a_24_bit_pointer() {
    let mut cpu = blank_cpu();
    cpu.d = 0x0020;
    cpu.y = 0x0005;
    cpu.mem.store(0, 0x0021, 0x00); // pointer at D + 1: $7e:4000
    cpu.mem.store(0, 0x0022, 0x40);
    cpu.mem.store(0, 0x0023, 0x7E);
    let am = AddressingMode::IndirectLongIdx(0x01);
    assert_eq!(am.address(&mut cpu), (0x7E, 0x4005));
}

#[test]
fn byte_round_trips_through_every_non_immediate_mode() {
    let mut cpu = blank_cpu();
    cpu.dbr = 0x01;
    cpu.d = 0x0100;
    cpu.x = 0x0004;
    cpu.mem.store(0, 0x0131, 0x00); // pointer for the indirect mode: $02:5000
    cpu.mem.store(0, 0x0132, 0x50);
    cpu.mem.store(0, 0x0133, 0x02);
    cpu.y = 0x0002;
    assert_eq!(roundtrip_byte(&mut cpu, AddressingMode::Absolute(0x2000), 0x11), 0x11);
    assert_eq!(roundtrip_byte(&mut cpu, AddressingMode::AbsoluteLong(0x7E, 0x10), 0x22), 0x22);
    assert_eq!(
        roundtrip_byte(&mut cpu, AddressingMode::AbsLongIndexedX(0x7E, 0x20), 0x33),
        0x33,
    );
    assert_eq!(roundtrip_byte(&mut cpu, AddressingMode::AbsIndexedX(0x3000), 0x44), 0x44);
    assert_eq!(roundtrip_byte(&mut cpu, AddressingMode::Direct(0x10), 0x55), 0x55);
    assert_eq!(roundtrip_byte(&mut cpu, AddressingMode::DirectIndexedX(0x20), 0x66), 0x66);
    assert_eq!(roundtrip_byte(&mut cpu, AddressingMode::Rel(4), 0x77), 0x77);
    assert_eq!(roundtrip_byte(&mut cpu, AddressingMode::IndirectLongIdx(0x31), 0x88), 0x88);
}

#[test]
fn word_round_trips_little_endian() {
    let mut cpu = blank_cpu();
    let am = AddressingMode::Absolute(0x2000);
    am.clone().storew(&mut cpu, 0xBEEF);
    assert_eq!(cpu.mem.load(0, 0x2000), 0xEF);
    assert_eq!(cpu.mem.load(0, 0x2001), 0xBE);
    assert_eq!(am.loadw(&mut cpu), 0xBEEF);
}

#[test]
fn immediates_yield_their_literal() {
    let mut cpu = blank_cpu();
    assert_eq!(AddressingMode::Immediate(0x1234).loadw(&mut cpu), 0x1234);
    assert_eq!(AddressingMode::Immediate8(0x56).loadb(&mut cpu), 0x56);
}

#[test]
fn format_prints_each_mode() {
    let mut bus = RamBus::new();
    bus.store(0, 0xFFFC, 0x00);
    bus.store(0, 0xFFFD, 0x80);
    let cpu = Cpu::new(bus);
    assert_eq!(AddressingMode::Immediate(0x1234).format(&cpu), "#$1234");
    assert_eq!(AddressingMode::Immediate8(0x5).format(&cpu), "#$05");
    assert_eq!(AddressingMode::Absolute(0xBEEF).format(&cpu), "$BEEF");
    assert_eq!(AddressingMode::AbsoluteLong(0x7E, 0x0010).format(&cpu), "$7E:0010");
    assert_eq!(AddressingMode::AbsLongIndexedX(0x7E, 0x0010).format(&cpu), "$7E:0010,x");
    assert_eq!(AddressingMode::AbsIndexedX(0x00A0).format(&cpu), "$00A0,x");
    assert_eq!(AddressingMode::Direct(0x7F).format(&cpu), "$7F");
    assert_eq!(AddressingMode::DirectIndexedX(0x80).format(&cpu), "$80,x");
    assert_eq!(AddressingMode::IndirectLongIdx(0xAB).format(&cpu), "[$AB],y");
    assert_eq!(AddressingMode::Rel(5).format(&cpu), "+5");
    assert_eq!(AddressingMode::Rel(0).format(&cpu), "+0");
    assert_eq!(AddressingMode::Rel(-3).format(&cpu), "-3");
    assert_eq!(AddressingMode::Rel(-128).format(&cpu), "-128");
    assert_eq!(AddressingMode::Rel(127).format(&cpu), "+127");
}
