//! Opcode-level tests: flag semantics, arithmetic, loads and branches.

use breeze_core::cpu::{AddressSpace, Cpu, Trap};
use breeze_core::snes::RamBus;

/// A CPU reset to 0x8000 with the given program there.
fn cpu_with(program: &[u8]) -> Cpu<RamBus> {
    let mut bus = RamBus::new();
    bus.store(0, 0xFFFC, 0x00);
    bus.store(0, 0xFFFD, 0x80);
    for (i, b) in program.iter().enumerate() {
        bus.store(0, 0x8000 + i as u16, *b);
    }
    Cpu::new(bus)
}

fn step(cpu: &mut Cpu<RamBus>) -> u8 {
    cpu.dispatch().expect("instruction faulted")
}

/// Puts the CPU in native mode with 16-bit accumulator and index registers.
fn go_wide(cpu: &mut Cpu<RamBus>) {
    // clc; xce; rep #$30
    assert_eq!(cpu.mem.load(0, cpu.pc), 0x18);
    step(cpu);
    step(cpu);
    step(cpu);
    assert!(!cpu.emulation);
    assert_eq!(cpu.p.0 & 0x30, 0);
}

#[test]
fn lda_zero_sets_zero_clears_negative() {
    let mut cpu = cpu_with(&[0xA9, 0x00]);
    cpu.p.0 |= 0x80; // stale negative flag must be cleared
    step(&mut cpu);
    assert_eq!(cpu.a & 0xFF, 0);
    assert!(cpu.p.zero());
    assert!(!cpu.p.negative());
}

#[test]
fn lda_sign_bit_sets_negative_clears_zero() {
    let mut cpu = cpu_with(&[0xA9, 0x80]);
    cpu.p.0 |= 0x02; // stale zero flag must be cleared
    step(&mut cpu);
    assert_eq!(cpu.a & 0xFF, 0x80);
    assert!(!cpu.p.zero());
    assert!(cpu.p.negative());
}

#[test]
fn lda_wide_uses_bit_15_as_sign() {
    let mut cpu = cpu_with(&[0x18, 0xFB, 0xC2, 0x30, 0xA9, 0x00, 0x80]);
    go_wide(&mut cpu);
    step(&mut cpu); // lda #$8000
    assert_eq!(cpu.a, 0x8000);
    assert!(cpu.p.negative());
    assert!(!cpu.p.zero());
}

#[test]
fn ldx_and_ldy_set_nz_from_value() {
    let mut cpu = cpu_with(&[0xA2, 0x00, 0xA0, 0xFF]);
    step(&mut cpu); // ldx #$00
    assert!(cpu.p.zero());
    step(&mut cpu); // ldy #$ff
    assert!(!cpu.p.zero());
    assert!(cpu.p.negative());
    assert_eq!(cpu.y & 0xFF, 0xFF);
}

#[test]
fn iny_wraps_to_zero_and_sets_zero_flag() {
    let mut cpu = cpu_with(&[0xA0, 0xFF, 0xC8]);
    step(&mut cpu); // ldy #$ff
    step(&mut cpu); // iny
    assert_eq!(cpu.y & 0xFF, 0);
    assert!(cpu.p.zero());
    assert!(!cpu.p.negative());
}

#[test]
fn clear_carry_consumes_twelve_master_cycles() {
    // The table's base figure for the clear-carry opcode is 2 CPU cycles;
    // scaled by the CPU-to-master ratio of 6 that is exactly 12.
    let mut cpu = cpu_with(&[0x18]);
    cpu.p.set_carry(true);
    let cy = step(&mut cpu);
    assert_eq!(cy, 12);
    assert!(!cpu.p.carry());
}

#[test]
fn adc_sets_carry_on_unsigned_overflow() {
    let mut cpu = cpu_with(&[0xA9, 0xFF, 0x69, 0x01]);
    step(&mut cpu);
    cpu.p.set_carry(true);
    step(&mut cpu); // $ff + $01 + carry = $101
    assert_eq!(cpu.a & 0xFF, 0x01);
    assert!(cpu.p.carry());
    assert!(!cpu.p.zero());
    assert!(!cpu.p.negative());
}

#[test]
fn adc_sets_zero_when_the_sum_wraps_to_zero() {
    let mut cpu = cpu_with(&[0xA9, 0xFF, 0x69, 0x01]);
    step(&mut cpu);
    cpu.p.set_carry(false);
    cpu.p.0 |= 0x80; // stale negative flag must be cleared
    step(&mut cpu); // $ff + $01 = $100: low byte 0
    assert_eq!(cpu.a & 0xFF, 0x00);
    assert!(cpu.p.zero());
    assert!(!cpu.p.negative());
    assert!(cpu.p.carry());
}

#[test]
fn adc_sets_overflow_on_signed_overflow() {
    let mut cpu = cpu_with(&[0xA9, 0x40, 0x69, 0x40]);
    step(&mut cpu);
    cpu.p.set_carry(false);
    step(&mut cpu); // $40 + $40 = $80: positive + positive gives negative
    assert_eq!(cpu.a & 0xFF, 0x80);
    assert!(cpu.p.overflow());
    assert!(!cpu.p.carry());
    assert!(cpu.p.negative());
    assert!(!cpu.p.zero());
}

#[test]
fn cmp_equal_sets_zero_and_carry() {
    let mut cpu = cpu_with(&[0xA9, 0x42, 0xCD, 0x00, 0x20]);
    cpu.mem.store(0, 0x2000, 0x42);
    step(&mut cpu);
    step(&mut cpu);
    assert!(cpu.p.zero());
    assert!(cpu.p.carry());
    assert!(!cpu.p.negative());
}

#[test]
fn cmp_below_clears_carry_sets_negative() {
    let mut cpu = cpu_with(&[0xA9, 0x10, 0xCD, 0x00, 0x20]);
    cpu.mem.store(0, 0x2000, 0x20);
    step(&mut cpu);
    step(&mut cpu); // $10 - $20 = $f0
    assert!(!cpu.p.zero());
    assert!(!cpu.p.carry());
    assert!(cpu.p.negative());
}

#[test]
fn cpx_compares_index_register() {
    let mut cpu = cpu_with(&[0xA2, 0x05, 0xE0, 0x03]);
    step(&mut cpu);
    step(&mut cpu); // cpx #$03
    assert!(!cpu.p.zero());
    assert!(cpu.p.carry());
}

#[test]
fn rol_rotates_accumulator_and_carries_bit_seven() {
    let mut cpu = cpu_with(&[0xA9, 0x80, 0x2A]);
    step(&mut cpu);
    step(&mut cpu); // rotate left: $80 -> $01, carry from bit 7
    assert_eq!(cpu.a & 0xFF, 0x01);
    assert!(cpu.p.carry());
    assert!(!cpu.p.zero());
}

#[test]
fn and_with_absolute_long_operand() {
    let mut cpu = cpu_with(&[0xA9, 0xF0, 0x2F, 0x00, 0x20, 0x00]);
    cpu.mem.store(0, 0x2000, 0x3C);
    step(&mut cpu);
    step(&mut cpu); // and $00:2000
    assert_eq!(cpu.a & 0xFF, 0x30);
    assert!(!cpu.p.zero());
    assert!(!cpu.p.negative());
}

#[test]
fn lda_indirect_long_indexed_reads_through_pointer() {
    let mut cpu = cpu_with(&[0xA0, 0x02, 0xB7, 0x00]);
    cpu.d = 0x0010;
    // 24-bit pointer at the direct page: $00:3000
    cpu.mem.store(0, 0x0010, 0x00);
    cpu.mem.store(0, 0x0011, 0x30);
    cpu.mem.store(0, 0x0012, 0x00);
    cpu.mem.store(0, 0x3002, 0x99);
    step(&mut cpu); // ldy #$02
    step(&mut cpu); // lda [$00],y
    assert_eq!(cpu.a & 0xFF, 0x99);
}

#[test]
fn sta_absolute_writes_memory() {
    let mut cpu = cpu_with(&[0xA9, 0x77, 0x8D, 0x00, 0x20]);
    step(&mut cpu);
    step(&mut cpu);
    assert_eq!(cpu.mem.load(0, 0x2000), 0x77);
}

#[test]
fn sta_wide_stores_a_little_endian_word() {
    let mut cpu = cpu_with(&[0x18, 0xFB, 0xC2, 0x30, 0xA9, 0xCD, 0xAB, 0x8D, 0x00, 0x20]);
    go_wide(&mut cpu);
    step(&mut cpu); // lda #$abcd
    step(&mut cpu); // sta $2000
    assert_eq!(cpu.mem.load(0, 0x2000), 0xCD);
    assert_eq!(cpu.mem.load(0, 0x2001), 0xAB);
}

#[test]
fn ldx_wide_reads_a_two_byte_immediate() {
    let mut cpu = cpu_with(&[0x18, 0xFB, 0xC2, 0x30, 0xA2, 0x34, 0x12]);
    go_wide(&mut cpu);
    step(&mut cpu); // ldx #$1234
    assert_eq!(cpu.x, 0x1234);
    assert_eq!(cpu.pc, 0x8007);
}

#[test]
fn sta_direct_respects_the_direct_page_register() {
    let mut cpu = cpu_with(&[0xA9, 0x5A, 0x85, 0x10]);
    cpu.d = 0x0300;
    step(&mut cpu);
    step(&mut cpu); // sta $10
    assert_eq!(cpu.mem.load(0, 0x0310), 0x5A);
}

#[test]
fn stz_stores_a_zero_byte() {
    let mut cpu = cpu_with(&[0x9C, 0x00, 0x20]);
    cpu.mem.store(0, 0x2000, 0xAB);
    step(&mut cpu);
    assert_eq!(cpu.mem.load(0, 0x2000), 0x00);
}

#[test]
fn bne_taken_when_zero_clear() {
    let mut cpu = cpu_with(&[0xA9, 0x01, 0xD0, 0x10]);
    step(&mut cpu);
    step(&mut cpu);
    assert_eq!(cpu.pc, 0x8014);
}

#[test]
fn bne_not_taken_when_zero_set() {
    let mut cpu = cpu_with(&[0xA9, 0x00, 0xD0, 0x10]);
    step(&mut cpu);
    step(&mut cpu);
    assert_eq!(cpu.pc, 0x8004);
}

#[test]
fn bra_branches_backward() {
    let mut cpu = cpu_with(&[0x80, 0xFE]);
    step(&mut cpu); // bra -2: jump to itself
    assert_eq!(cpu.pc, 0x8000);
}

#[test]
fn bvs_follows_the_overflow_flag() {
    let mut cpu = cpu_with(&[0x70, 0x06]);
    cpu.p.set_overflow(true);
    step(&mut cpu);
    assert_eq!(cpu.pc, 0x8008);
}

#[test]
fn tax_transfers_and_sets_flags() {
    let mut cpu = cpu_with(&[0xA9, 0x80, 0xAA]);
    step(&mut cpu);
    step(&mut cpu);
    assert_eq!(cpu.x & 0xFF, 0x80);
    assert!(cpu.p.negative());
}

#[test]
fn tcd_and_tcs_transfer_the_full_accumulator() {
    let mut cpu = cpu_with(&[0x18, 0xFB, 0xC2, 0x30, 0xA9, 0x34, 0x12, 0x5B, 0x1B]);
    go_wide(&mut cpu);
    step(&mut cpu); // lda #$1234
    step(&mut cpu); // tcd
    assert_eq!(cpu.d, 0x1234);
    step(&mut cpu); // tcs
    assert_eq!(cpu.s, 0x1234);
}

#[test]
fn rep_and_sep_adjust_status_bits_in_native_mode() {
    let mut cpu = cpu_with(&[0x18, 0xFB, 0xC2, 0x30, 0xE2, 0x20]);
    go_wide(&mut cpu);
    step(&mut cpu); // sep #$20
    assert_ne!(cpu.p.0 & 0x20, 0);
}

#[test]
fn rep_in_emulation_mode_is_a_privileged_fault() {
    let mut cpu = cpu_with(&[0xC2, 0x20]);
    assert_eq!(cpu.dispatch(), Err(Trap::PrivilegedFlagOp));
}

#[test]
fn illegal_opcode_is_fatal() {
    let mut cpu = cpu_with(&[0x42]);
    assert_eq!(cpu.dispatch(), Err(Trap::IllegalOpcode(0x42)));
}

#[test]
fn word_load_at_bank_end_is_a_fault() {
    // ldy $ffff with a 16-bit index register would cross the bank boundary.
    let mut cpu = cpu_with(&[0x18, 0xFB, 0xC2, 0x30, 0xAC, 0xFF, 0xFF]);
    go_wide(&mut cpu);
    assert_eq!(cpu.dispatch(), Err(Trap::WordAtBankEnd));
}

#[test]
fn absolute_indexed_past_the_bank_is_a_fault() {
    let mut cpu = cpu_with(&[0xA2, 0x01, 0x9D, 0xFF, 0xFF]);
    step(&mut cpu); // ldx #$01
    assert_eq!(cpu.dispatch(), Err(Trap::AddressOverflow));
}
