//! Master-clock scheduler tests: reset, cycle accounting, debts, and
//! vertical-blank interrupt delivery.

use breeze_core::cpu::{AddressSpace, Trap};
use breeze_core::snes::{RamBus, Snes};

/// A bus with the reset vector pointing at 0x8000 and the given program there.
fn bus_with(program: &[u8]) -> RamBus {
    let mut bus = RamBus::new();
    bus.store(0, 0xFFFC, 0x00);
    bus.store(0, 0xFFFD, 0x80);
    for (i, b) in program.iter().enumerate() {
        bus.store(0, 0x8000 + i as u16, *b);
    }
    bus
}

#[test]
fn reset_vector_gives_the_initial_program_counter() {
    // Bank 0 offset 0xfffc holds {0x00, 0x80}: the CPU starts at (0x00, 0x8000).
    let snes = Snes::new(bus_with(&[]));
    assert_eq!(snes.cpu.pbr, 0x00);
    assert_eq!(snes.cpu.pc, 0x8000);
    assert_eq!(snes.master_cy, 0);
}

#[test]
fn one_iteration_charges_both_debts_and_drains_them() {
    // rts takes 7 base cycles: 42 master cycles. The audio debt drains in
    // whole 21-cycle audio instructions down to exactly the divisor; the
    // picture debt drains past zero in 4-cycle dots.
    let mut snes = Snes::new(bus_with(&[0x60])); // rts (stack holds zeros)
    let delivered = snes.run_one().expect("iteration faulted");
    assert!(!delivered);
    assert_eq!(snes.master_cy, 42);
    assert_eq!(snes.apu_master_cy_debt, 21);
    assert!(snes.ppu_master_cy_debt <= 0);
    assert_eq!(snes.ppu_master_cy_debt, -2); // 42 cycles, 11 dots of 4
    assert_eq!(snes.ppu.x, 11);
}

#[test]
fn vblank_with_interrupts_enabled_delivers_exactly_one_nmi() {
    // One full iteration that ends the frame at vertical blank must invoke
    // interrupt delivery exactly once, even though picture cycles remain
    // owed after the early exit from the drain loop.
    let mut bus = bus_with(&[0x18]); // clc: 12 master cycles
    bus.store(0, 0xFFFA, 0x00); // emulation-mode interrupt vector: 0x9000
    bus.store(0, 0xFFFB, 0x90);
    let mut snes = Snes::new(bus);
    snes.cpu.mem.set_nmi_enabled(true);
    snes.ppu.x = 338;
    snes.ppu.scanline = 223;
    let s_before = snes.cpu.s;

    let delivered = snes.run_one().expect("iteration faulted");
    assert!(delivered);
    // The CPU entered the handler through the vector, once: the stack
    // dropped by exactly one interrupt frame (return address and status).
    assert_eq!(snes.cpu.pc, 0x9000);
    assert_eq!(snes.cpu.pbr, 0);
    assert_eq!(snes.cpu.s, s_before.wrapping_sub(3) | 0x0100);
    assert!(snes.cpu.mem.nmi_flag());
    assert!(snes.cpu.p.irq_disable());
    // Two dots were spent reaching the blank; the rest of the debt stands.
    assert!(snes.ppu_master_cy_debt > 0);
    assert_eq!(snes.ppu.scanline, 224);
    assert_eq!(snes.ppu.x, 0);
}

#[test]
fn vblank_with_interrupts_disabled_drains_in_full() {
    let mut snes = Snes::new(bus_with(&[0x18]));
    snes.ppu.x = 338;
    snes.ppu.scanline = 223;
    let delivered = snes.run_one().expect("iteration faulted");
    assert!(!delivered);
    assert!(snes.ppu_master_cy_debt <= 0);
    assert!(!snes.cpu.mem.nmi_flag());
    assert_eq!(snes.cpu.pc, 0x8001); // no interrupt entry happened
}

#[test]
fn run_stops_at_the_master_cycle_budget() {
    // bra -2: a tight loop that never faults.
    let mut snes = Snes::new(bus_with(&[0x80, 0xFE]));
    snes.run(1000).expect("run faulted");
    assert!(snes.master_cy >= 1000);
    assert!(snes.master_cy < 1000 + 48);
    assert_eq!(snes.cpu.pc, 0x8000);
}

#[test]
fn run_propagates_an_illegal_opcode_fault() {
    let mut snes = Snes::new(bus_with(&[0x18, 0x42])); // clc, then junk
    assert_eq!(snes.run(1000), Err(Trap::IllegalOpcode(0x42)));
}

#[test]
fn interrupt_fires_once_per_frame_over_a_whole_frame() {
    // Run long enough to cross one vertical blank; the handler parks the
    // machine in a tight loop so a second delivery would be visible as a
    // second stack frame.
    let mut bus = bus_with(&[0x80, 0xFE]); // main loop: bra -2
    bus.store(0, 0xFFFA, 0x00);
    bus.store(0, 0xFFFB, 0x90);
    bus.store(0, 0x9000, 0x80); // handler: bra -2
    bus.store(0, 0x9001, 0xFE);
    let mut snes = Snes::new(bus);
    snes.cpu.mem.set_nmi_enabled(true);
    // One scanline is 1360 master cycles; a frame ends at scanline 224.
    // 320,000 cycles cover the 224 visible scanlines comfortably but stay
    // well inside a single frame (356,320 cycles).
    snes.run(320_000).expect("run faulted");
    assert_eq!(snes.cpu.pc, 0x9000); // parked in the handler
    assert_eq!(snes.cpu.s, 0x01FD); // exactly one interrupt frame on the stack
}
