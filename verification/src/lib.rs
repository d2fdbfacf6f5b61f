//! Core of a 16-bit home-console emulator: the 65816-class CPU engine
//! (opcode dispatch, addressing modes, register and flag semantics), the
//! picture processor's compositing pipeline, and the master-clock scheduler
//! that interleaves the subsystems and delivers the blanking interrupt.
//!
//! Memory is reached exclusively through the [`cpu::AddressSpace`] bus
//! abstraction; the system integrator supplies the memory map.

pub mod addressing;
pub mod cpu;
pub mod ppu;
pub mod snes;
mod sprite_list;
