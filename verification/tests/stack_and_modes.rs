//! Stack discipline, emulation-mode behaviour, and subroutine control flow.

use breeze_core::cpu::{AddressSpace, Cpu, Trap};
use breeze_core::snes::RamBus;

fn cpu_with(program: &[u8]) -> Cpu<RamBus> {
    let mut bus = RamBus::new();
    bus.store(0, 0xFFFC, 0x00);
    bus.store(0, 0xFFFD, 0x80);
    for (i, b) in program.iter().enumerate() {
        bus.store(0, 0x8000 + i as u16, *b);
    }
    Cpu::new(bus)
}

fn step(cpu: &mut Cpu<RamBus>) -> u8 {
    cpu.dispatch().expect("instruction faulted")
}

#[test]
fn push_then_pop_word_returns_original_and_restores_pointer() {
    // native mode, 16-bit accumulator
    let mut cpu = cpu_with(&[0x18, 0xFB, 0xC2, 0x30, 0xA9, 0x34, 0x12, 0x48, 0xA9, 0xFF, 0xFF,
        0x68]);
    step(&mut cpu);
    step(&mut cpu);
    step(&mut cpu);
    step(&mut cpu); // lda #$1234
    let s_before = cpu.s;
    step(&mut cpu); // pha
    step(&mut cpu); // lda #$ffff
    step(&mut cpu); // pla
    assert_eq!(cpu.a, 0x1234);
    assert_eq!(cpu.s, s_before);
}

#[test]
fn pushed_bytes_pop_in_reverse_order() {
    // 8-bit accumulator: push $aa then $bb; pops yield $bb then $aa.
    let mut cpu = cpu_with(&[0xA9, 0xAA, 0x48, 0xA9, 0xBB, 0x48, 0x68, 0xAA, 0x68]);
    let s_before = cpu.s;
    step(&mut cpu);
    step(&mut cpu); // pha ($aa)
    step(&mut cpu);
    step(&mut cpu); // pha ($bb)
    step(&mut cpu); // pla
    assert_eq!(cpu.a & 0xFF, 0xBB);
    step(&mut cpu); // tax (keep the first pop)
    step(&mut cpu); // pla
    assert_eq!(cpu.a & 0xFF, 0xAA);
    assert_eq!(cpu.s, s_before);
}

#[test]
fn word_push_stores_high_byte_first() {
    // jsr pushes the program bank, then the return address high then low,
    // so a pop sequence yields low then high.
    let mut cpu = cpu_with(&[0x20, 0x05, 0x80]);
    step(&mut cpu);
    assert_eq!(cpu.pc, 0x8005);
    assert_eq!(cpu.s, 0x01FD);
    assert_eq!(cpu.mem.load(0, 0x0100), 0x00); // program bank
    assert_eq!(cpu.mem.load(0, 0x01FF), 0x80); // return address, high
    assert_eq!(cpu.mem.load(0, 0x01FE), 0x03); // return address, low
}

#[test]
fn jsr_then_rts_returns_past_the_operand() {
    let mut cpu = cpu_with(&[0x20, 0x05, 0x80, 0x18, 0x00, 0x60]);
    let s_before = cpu.s;
    step(&mut cpu); // jsr $8005
    step(&mut cpu); // rts
    assert_eq!(cpu.pc, 0x8003);
    assert_eq!(cpu.pbr, 0x00);
    assert_eq!(cpu.s, s_before);
    step(&mut cpu); // the clc after the call site runs next
    assert!(!cpu.p.carry());
}

#[test]
fn php_plp_round_trips_the_status_byte() {
    let mut cpu = cpu_with(&[0x08, 0xA9, 0x00, 0x28]);
    let p_before = cpu.p.0;
    step(&mut cpu); // php
    step(&mut cpu); // lda #$00 changes Z
    step(&mut cpu); // plp
    assert_eq!(cpu.p.0, p_before);
}

#[test]
fn forcing_emulation_clamps_stack_to_page_one() {
    // Enter native mode, point S far away, then force emulation mode back
    // on: S's high byte must come back as 0x01 whatever it was before.
    let mut cpu = cpu_with(&[0x18, 0xFB, 0xC2, 0x30, 0xA9, 0x45, 0x23, 0x1B, 0xE2, 0x01, 0xFB]);
    step(&mut cpu); // clc
    step(&mut cpu); // xce: native mode
    step(&mut cpu); // rep #$30
    step(&mut cpu); // lda #$2345
    step(&mut cpu); // tcs
    assert_eq!(cpu.s, 0x2345);
    step(&mut cpu); // sep #$01: set carry
    step(&mut cpu); // xce: back to emulation mode
    assert!(cpu.emulation);
    assert_eq!(cpu.s, 0x0145);
    assert_eq!(cpu.s & 0xFF00, 0x0100);
}

#[test]
fn xce_swaps_carry_and_emulation() {
    let mut cpu = cpu_with(&[0x18, 0xFB]);
    assert!(cpu.emulation);
    step(&mut cpu); // clc
    step(&mut cpu); // xce
    assert!(!cpu.emulation);
    assert!(cpu.p.carry()); // the old emulation flag landed in carry
}

#[test]
fn stack_outside_page_one_faults_in_emulation_mode() {
    let mut cpu = cpu_with(&[0x48]);
    cpu.s = 0x0200;
    assert_eq!(cpu.dispatch(), Err(Trap::EmulationStackPage));
}

#[test]
fn emulation_stack_wraps_inside_page_one() {
    let mut cpu = cpu_with(&[0xA9, 0x5C, 0x48]);
    cpu.s = 0x0100;
    step(&mut cpu);
    step(&mut cpu); // pha: stores at $0100, S wraps to $01ff
    assert_eq!(cpu.s, 0x01FF);
    assert_eq!(cpu.mem.load(0, 0x0100), 0x5C);
}

#[test]
fn tcs_in_emulation_mode_stays_in_page_one() {
    // The stack-page invariant is categorical in emulation mode: a transfer
    // from a 16-bit-looking accumulator moves only the low byte.
    let mut cpu = cpu_with(&[0x1B, 0x48]);
    cpu.a = 0x1234;
    step(&mut cpu); // tcs
    assert_eq!(cpu.s, 0x0134);
    assert_eq!(cpu.s & 0xFF00, 0x0100);
    step(&mut cpu); // pha still works: the stack never left page 1
    assert_eq!(cpu.s, 0x0133);
}

#[test]
fn reset_state_matches_the_datasheet() {
    let cpu = cpu_with(&[]);
    assert_eq!(cpu.a, 0);
    assert_eq!(cpu.x, 0);
    assert_eq!(cpu.y, 0);
    assert_eq!(cpu.s, 0x0100);
    assert_eq!(cpu.dbr, 0);
    assert_eq!(cpu.pbr, 0);
    assert_eq!(cpu.d, 0);
    assert_eq!(cpu.p.0, 0x34); // 8-bit registers, IRQs disabled
    assert!(cpu.emulation);
}

#[test]
fn trigger_nmi_pushes_state_and_jumps_through_the_vector() {
    let mut cpu = cpu_with(&[]);
    cpu.mem.store(0, 0xFFFA, 0x00);
    cpu.mem.store(0, 0xFFFB, 0x90);
    let p_before = cpu.p.0;
    cpu.trigger_nmi().expect("interrupt entry faulted");
    assert_eq!(cpu.pc, 0x9000);
    assert_eq!(cpu.pbr, 0);
    assert!(cpu.p.irq_disable());
    assert_eq!(cpu.s, 0x01FD); // return address and status pushed
    assert_eq!(cpu.mem.load(0, 0x01FE), p_before);
}
