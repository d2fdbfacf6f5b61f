//! 65816-class CPU engine: register file, status flags, stack discipline,
//! instruction dispatch and per-opcode cycle accounting.
//!
//! Memory-mapped peripherals are reached through the [`AddressSpace`] trait,
//! which the system integrator implements.

use vstd::prelude::*;
use crate::addressing::AddressingMode;

verus! {

/// Negative flag: set from bit 7 (8-bit) or bit 15 (16-bit) of a result.
pub const NEG_FLAG: u8 = 0x80;
/// Overflow flag, for signed arithmetic.
pub const OVERFLOW_FLAG: u8 = 0x40;
/// 1 = Accumulator is 8-bit (native mode only).
pub const SMALL_ACC_FLAG: u8 = 0x20;
/// 1 = Index registers X/Y are 8-bit (native mode only).
pub const SMALL_INDEX_FLAG: u8 = 0x10;
/// Decimal-arithmetic flag.
pub const DEC_FLAG: u8 = 0x08;
/// 1 = IRQs disabled.
pub const IRQ_FLAG: u8 = 0x04;
/// Zero flag: set when a result is 0.
pub const ZERO_FLAG: u8 = 0x02;
/// Carry flag.
pub const CARRY_FLAG: u8 = 0x01;

/// Reset vector address in bank 0 (little-endian word).
pub const RESET_VEC8: u16 = 0xFFFC;
/// Non-maskable-interrupt vector in emulation mode.
pub const NMI_VEC8: u16 = 0xFFFA;
/// Non-maskable-interrupt vector in native mode.
pub const NMI_VEC16: u16 = 0xFFEA;

/// True when the flag selected by `mask` is set in the packed status byte `p`.
pub open spec fn flag(p: u8, mask: u8) -> bool {
    p & mask != 0
}

/// The packed status byte `p` with the flag selected by `mask` forced to `v`.
pub open spec fn set_flag(p: u8, mask: u8, v: bool) -> u8 {
    if v {
        p | mask
    } else {
        p & !mask
    }
}

/// Status byte after the zero and negative flags have been set from a 16-bit result.
pub open spec fn spec_set_nz(p: u8, val: u16) -> u8 {
    set_flag(set_flag(p, ZERO_FLAG, val == 0), NEG_FLAG, val & 0x8000 != 0)
}

/// Status byte after the zero and negative flags have been set from an 8-bit result.
pub open spec fn spec_set_nz_8(p: u8, val: u8) -> u8 {
    set_flag(set_flag(p, ZERO_FLAG, val == 0), NEG_FLAG, val & 0x80 != 0)
}

/// The processor status register: 8 independent flags packed into one byte.
#[derive(Clone, Copy, Debug, PartialEq, Eq, Structural)]
pub struct StatusReg(pub u8);

impl StatusReg {
    pub fn negative(&self) -> (r: bool)
        ensures
            r == flag(self.0, NEG_FLAG),
    {
        self.0 & NEG_FLAG != 0
    }

    pub fn overflow(&self) -> (r: bool)
        ensures
            r == flag(self.0, OVERFLOW_FLAG),
    {
        self.0 & OVERFLOW_FLAG != 0
    }

    pub fn zero(&self) -> (r: bool)
        ensures
            r == flag(self.0, ZERO_FLAG),
    {
        self.0 & ZERO_FLAG != 0
    }

    pub fn carry(&self) -> (r: bool)
        ensures
            r == flag(self.0, CARRY_FLAG),
    {
        self.0 & CARRY_FLAG != 0
    }

    pub fn irq_disable(&self) -> (r: bool)
        ensures
            r == flag(self.0, IRQ_FLAG),
    {
        self.0 & IRQ_FLAG != 0
    }

    pub fn small_acc(&self) -> (r: bool)
        ensures
            r == flag(self.0, SMALL_ACC_FLAG),
    {
        self.0 & SMALL_ACC_FLAG != 0
    }

    pub fn small_index(&self) -> (r: bool)
        ensures
            r == flag(self.0, SMALL_INDEX_FLAG),
    {
        self.0 & SMALL_INDEX_FLAG != 0
    }

    pub fn set(&mut self, mask: u8, value: bool)
        ensures
            final(self).0 == set_flag(old(self).0, mask, value),
    {
        if value {
            self.0 |= mask;
        } else {
            self.0 &= !mask;
        }
    }

    pub fn set_negative(&mut self, value: bool)
        ensures
            final(self).0 == set_flag(old(self).0, NEG_FLAG, value),
    {
        self.set(NEG_FLAG, value)
    }

    pub fn set_overflow(&mut self, value: bool)
        ensures
            final(self).0 == set_flag(old(self).0, OVERFLOW_FLAG, value),
    {
        self.set(OVERFLOW_FLAG, value)
    }

    pub fn set_zero(&mut self, value: bool)
        ensures
            final(self).0 == set_flag(old(self).0, ZERO_FLAG, value),
    {
        self.set(ZERO_FLAG, value)
    }

    pub fn set_carry(&mut self, value: bool)
        ensures
            final(self).0 == set_flag(old(self).0, CARRY_FLAG, value),
    {
        self.set(CARRY_FLAG, value)
    }

    pub fn set_irq_disable(&mut self, value: bool)
        ensures
            final(self).0 == set_flag(old(self).0, IRQ_FLAG, value),
    {
        self.set(IRQ_FLAG, value)
    }

    /// Sets the zero and negative flags from a 16-bit result and hands the result back.
    pub fn set_nz(&mut self, val: u16) -> (r: u16)
        ensures
            final(self).0 == spec_set_nz(old(self).0, val),
            r == val,
    {
        self.set_zero(val == 0);
        self.set_negative(val & 0x8000 != 0);
        val
    }

    /// Sets the zero and negative flags from an 8-bit result and hands the result back.
    pub fn set_nz_8(&mut self, val: u8) -> (r: u8)
        ensures
            final(self).0 == spec_set_nz_8(old(self).0, val),
            r == val,
    {
        self.set_zero(val == 0);
        self.set_negative(val & 0x80 != 0);
        val
    }
}

/// The 24-bit address formed by an 8-bit bank and a 16-bit offset.
pub open spec fn addr24(bank: u8, addr: u16) -> int {
    bank as int * 0x10000 + addr as int
}

/// The little-endian 16-bit word stored at byte addresses `k` and `k + 1`.
pub open spec fn word_at(m: Map<int, u8>, k: int) -> u16 {
    (m[k] + 256 * m[k + 1]) as u16
}

/// Abstraction over the memory operations executed by the CPU.
///
/// The contract models the bus as a byte-addressable 24-bit space: a load
/// returns the byte last stored at the address and leaves the space unchanged.
/// Device registers with access side effects fall outside this model; an
/// implementation routes them as it sees fit, but the verified core reasons
/// only in terms of the byte map.
pub trait AddressSpace: Sized {
    /// The current contents of the address space, keyed by 24-bit address.
    spec fn mem(&self) -> Map<int, u8>;

    /// Load a byte from the given address.
    fn load(&mut self, bank: u8, addr: u16) -> (r: u8)
        ensures
            final(self).mem() == old(self).mem(),
            r == old(self).mem()[addr24(bank, addr)],
    ;

    /// Store a byte at the given address.
    fn store(&mut self, bank: u8, addr: u16, value: u8)
        ensures
            final(self).mem() == old(self).mem().insert(addr24(bank, addr), value),
    ;
}

/// The CPU's entire architectural state, as one mathematical value: every
/// register plus the contents of the address space. Contracts of the
/// instruction engine are phrased as transformations of this state.
pub struct CpuState {
    pub a: u16,
    pub x: u16,
    pub y: u16,
    pub s: u16,
    pub dbr: u8,
    pub pbr: u8,
    pub d: u16,
    pub pc: u16,
    pub p: u8,
    pub emulation: bool,
    pub mem: Map<int, u8>,
}

impl CpuState {
    pub open spec fn small_acc(self) -> bool {
        flag(self.p, SMALL_ACC_FLAG)
    }

    pub open spec fn small_index(self) -> bool {
        flag(self.p, SMALL_INDEX_FLAG)
    }
}

/// In emulation mode the stack must live in page 1; stack accesses outside it
/// are a mode-tracking fault.
pub open spec fn stack_ok(st: CpuState) -> bool {
    st.emulation ==> st.s & 0xff00 == 0x0100
}

/// The unrecoverable faults of the instruction engine. Every one of them
/// aborts emulation: there is no recoverable continuation.
#[derive(Clone, Copy, Debug, PartialEq, Eq, Structural)]
pub enum Trap {
    /// An opcode byte the engine does not recognize.
    IllegalOpcode(u8),
    /// A 16-bit access whose low byte sits on the last byte of a 64KB bank.
    WordAtBankEnd,
    /// An effective address that overflows the 24-bit address space.
    AddressOverflow,
    /// A status-flag manipulation that is privileged in emulation mode.
    PrivilegedFlagOp,
    /// A stack access outside page 1 while in emulation mode.
    EmulationStackPage,
    /// A byte accessor applied to a 16-bit immediate or vice versa.
    AccessorWidthMismatch,
    /// The address of an immediate operand was taken.
    AddressOfImmediate,
}

/// State after the program counter advanced by one, wrapping inside the bank.
pub open spec fn spec_fetchb(st: CpuState) -> (CpuState, u8) {
    (
        CpuState { pc: vstd::wrapping::u16_specs::wrapping_add(st.pc, 1), ..st },
        st.mem[addr24(st.pbr, st.pc)],
    )
}

/// Two byte fetches, little-endian.
pub open spec fn spec_fetchw(st: CpuState) -> (CpuState, u16) {
    let (st1, lo) = spec_fetchb(st);
    let (st2, hi) = spec_fetchb(st1);
    (st2, ((hi as u16) << 8) | (lo as u16))
}

/// The stack pointer after one byte has been pushed: in emulation mode only
/// the low byte decrements (wrapping inside page 1), in native mode the whole
/// 16-bit pointer wraps.
pub open spec fn spec_push_s(s: u16, emulation: bool) -> u16 {
    if emulation {
        (s & 0xff00) | (vstd::wrapping::u8_specs::wrapping_sub(s as u8, 1) as u16)
    } else {
        vstd::wrapping::u16_specs::wrapping_sub(s, 1)
    }
}

/// The stack pointer after one byte has been popped.
pub open spec fn spec_pop_s(s: u16, emulation: bool) -> u16 {
    if emulation {
        (s & 0xff00) | (vstd::wrapping::u8_specs::wrapping_add(s as u8, 1) as u16)
    } else {
        vstd::wrapping::u16_specs::wrapping_add(s, 1)
    }
}

/// State after a byte push: the byte lands where S pointed, then S moves down.
pub open spec fn spec_pushb(st: CpuState, value: u8) -> CpuState {
    CpuState {
        s: spec_push_s(st.s, st.emulation),
        mem: st.mem.insert(addr24(0, st.s), value),
        ..st
    }
}

/// State after a word push: high byte first, low byte second.
pub open spec fn spec_pushw(st: CpuState, value: u16) -> CpuState {
    spec_pushb(spec_pushb(st, (value >> 8) as u8), value as u8)
}

/// State and value of a byte pop: S moves up, then the byte is read from S.
pub open spec fn spec_popb(st: CpuState) -> (CpuState, u8) {
    let s2 = spec_pop_s(st.s, st.emulation);
    (CpuState { s: s2, ..st }, st.mem[addr24(0, s2)])
}

/// State and value of a word pop: low byte first, then high byte.
pub open spec fn spec_popw(st: CpuState) -> (CpuState, u16) {
    let (st1, lo) = spec_popb(st);
    let (st2, hi) = spec_popb(st1);
    (st2, ((hi as u16) << 8) | (lo as u16))
}

/// State after entering or leaving emulation mode: entering from native mode
/// re-clamps the stack pointer into page 1; leaving forces no change.
pub open spec fn spec_set_emulation(st: CpuState, value: bool) -> CpuState {
    let s2 = if !st.emulation && value {
        0x0100 | (st.s & 0xff)
    } else {
        st.s
    };
    CpuState { s: s2, emulation: value, ..st }
}

/// The state a freshly reset CPU presents, given the initial contents of the
/// address space: registers cleared, stack at the top of page 1, 8-bit
/// accumulator and index registers, IRQs disabled, emulation mode on, and the
/// program counter read from the reset vector.
pub open spec fn spec_reset(m: Map<int, u8>) -> CpuState {
    CpuState {
        a: 0,
        x: 0,
        y: 0,
        s: 0x0100,
        dbr: 0,
        pbr: 0,
        d: 0,
        pc: word_at(m, addr24(0, RESET_VEC8)),
        p: SMALL_ACC_FLAG | SMALL_INDEX_FLAG | IRQ_FLAG,
        emulation: true,
        mem: m,
    }
}

/// The 65816-class CPU: the full register file plus the attached bus.
pub struct Cpu<M: AddressSpace> {
    pub a: u16,
    pub x: u16,
    pub y: u16,
    /// Stack pointer.
    pub s: u16,
    /// Data bank register: bank for all data memory accesses.
    pub dbr: u8,
    /// Program bank register: opcodes are fetched from this bank.
    pub pbr: u8,
    /// Direct page register: offset for direct addressing, in bank 0.
    pub d: u16,
    /// Program counter.
    pub pc: u16,
    pub p: StatusReg,
    /// Emulation-mode flag: orthogonal to `p`, forces 8-bit operation and
    /// pins the stack to page 1.
    pub emulation: bool,
    pub mem: M,
}

impl<M: AddressSpace> Cpu<M> {
    /// This CPU's architectural state as a mathematical value.
    pub open spec fn st(&self) -> CpuState {
        CpuState {
            a: self.a,
            x: self.x,
            y: self.y,
            s: self.s,
            dbr: self.dbr,
            pbr: self.pbr,
            d: self.d,
            pc: self.pc,
            p: self.p.0,
            emulation: self.emulation,
            mem: self.mem.mem(),
        }
    }

    /// Creates a new CPU and executes a reset: the RESET vector is fetched
    /// from bank 0 and the CPU starts in emulation mode.
    pub fn new(mem: M) -> (cpu: Cpu<M>)
        ensures
            cpu.st() == spec_reset(mem.mem()),
    {
        let mut mem = mem;
        let pcl = mem.load(0, RESET_VEC8) as u16;
        let pch = mem.load(0, RESET_VEC8 + 1) as u16;
        let pc = (pch << 8) | pcl;
        proof {
            let m = mem.mem();
            let lo = m[addr24(0, RESET_VEC8)];
            let hi = m[addr24(0, RESET_VEC8) + 1];
            assert(addr24(0, 0xFFFD) == addr24(0, RESET_VEC8) + 1);
            assert(((hi as u16) << 8) | (lo as u16) == hi * 256 + lo) by (bit_vector);
        }
        Cpu {
            a: 0,
            x: 0,
            y: 0,
            s: 0x0100,
            dbr: 0,
            d: 0,
            pbr: 0,
            pc,
            p: StatusReg(SMALL_ACC_FLAG | SMALL_INDEX_FLAG | IRQ_FLAG),
            emulation: true,
            mem,
        }
    }

    /// Fetches the byte PC points at, then increments PC.
    pub(crate) fn fetchb(&mut self) -> (b: u8)
        ensures
            (final(self).st(), b) == spec_fetchb(old(self).st()),
    {
        let b = self.mem.load(self.pbr, self.pc);
        self.pc = self.pc.wrapping_add(1);
        b
    }

    /// Fetches a 16-bit little-endian word located at PC, as 2 byte fetches.
    pub(crate) fn fetchw(&mut self) -> (w: u16)
        ensures
            (final(self).st(), w) == spec_fetchw(old(self).st()),
    {
        let lo = self.fetchb() as u16;
        let hi = self.fetchb() as u16;
        (hi << 8) | lo
    }

    /// Pushes a byte onto the stack and decrements the stack pointer.
    pub(crate) fn pushb(&mut self, value: u8)
        requires
            stack_ok(old(self).st()),
        ensures
            final(self).st() == spec_pushb(old(self).st(), value),
    {
        self.mem.store(0, self.s, value);
        if self.emulation {
            let s8: u8 = self.s as u8;
            self.s = (self.s & 0xff00) | (s8.wrapping_sub(1) as u16);
        } else {
            self.s = self.s.wrapping_sub(1);
        }
    }

    /// Pushes a word: high byte first, low byte second, so that a pop
    /// sequence yields low then high.
    pub(crate) fn pushw(&mut self, value: u16)
        requires
            stack_ok(old(self).st()),
        ensures
            final(self).st() == spec_pushw(old(self).st(), value),
    {
        let hi = (value >> 8) as u8;
        let lo = value as u8;
        self.pushb(hi);
        proof {
            lemma_push_keeps_stack_ok(old(self).st(), hi);
        }
        self.pushb(lo);
    }

    /// Pops a byte off the stack, incrementing the stack pointer first.
    pub(crate) fn popb(&mut self) -> (b: u8)
        requires
            stack_ok(old(self).st()),
        ensures
            (final(self).st(), b) == spec_popb(old(self).st()),
    {
        if self.emulation {
            let s8: u8 = self.s as u8;
            self.s = (self.s & 0xff00) | (s8.wrapping_add(1) as u16);
        } else {
            self.s = self.s.wrapping_add(1);
        }
        self.mem.load(0, self.s)
    }

    /// Pops a word: low byte first, then high byte.
    pub(crate) fn popw(&mut self) -> (w: u16)
        requires
            stack_ok(old(self).st()),
        ensures
            (final(self).st(), w) == spec_popw(old(self).st()),
    {
        let lo = self.popb() as u16;
        proof {
            lemma_pop_keeps_stack_ok(old(self).st());
        }
        let hi = self.popb() as u16;
        (hi << 8) | lo
    }

    /// Enters or exits emulation mode; entering re-clamps the stack pointer
    /// into page 1.
    pub(crate) fn set_emulation(&mut self, value: bool)
        ensures
            final(self).st() == spec_set_emulation(old(self).st(), value),
    {
        if !self.emulation && value {
            self.s = 0x0100 | (self.s & 0xff);
        }
        self.emulation = value;
    }
}

/// Pushing a byte keeps the stack inside page 1 in emulation mode.
pub proof fn lemma_push_keeps_stack_ok(st: CpuState, value: u8)
    requires
        stack_ok(st),
    ensures
        stack_ok(spec_pushb(st, value)),
{
    if st.emulation {
        let s = st.s;
        assert(((s & 0xff00) | (vstd::wrapping::u8_specs::wrapping_sub(s as u8, 1) as u16))
            & 0xff00 == s & 0xff00) by (bit_vector);
    }
}

/// Popping a byte keeps the stack inside page 1 in emulation mode.
pub proof fn lemma_pop_keeps_stack_ok(st: CpuState)
    requires
        stack_ok(st),
    ensures
        stack_ok(spec_popb(st).0),
{
    if st.emulation {
        let s = st.s;
        assert(((s & 0xff00) | (vstd::wrapping::u8_specs::wrapping_add(s as u8, 1) as u16))
            & 0xff00 == s & 0xff00) by (bit_vector);
    }
}

/// Forcing emulation mode from native mode always yields a stack pointer in
/// page 1, whatever its value immediately prior. Together with
/// [`lemma_dispatch_preserves_stack_page`] — no instruction moves an
/// emulation-mode stack out of page 1 — the data-model invariant holds in
/// every reachable state.
pub proof fn lemma_enter_emulation_clamps(st: CpuState)
    requires
        !st.emulation,
    ensures
        spec_set_emulation(st, true).emulation,
        spec_set_emulation(st, true).s & 0xff00 == 0x0100,
{
    let s = st.s;
    assert((0x0100u16 | (s & 0xff)) & 0xff00 == 0x0100) by (bit_vector);
}


/// Relates an opcode body's outcome to its specification: on success the
/// state becomes the specified one, on a fault the state is left as it was.
pub open spec fn op_post(outcome: Result<CpuState, Trap>, r: Result<(), Trap>, post: CpuState, pre: CpuState) -> bool {
    match outcome {
        Ok(st2) => r is Ok && post == st2,
        Err(t) => r == Err::<(), Trap>(t) && post == pre,
    }
}

/// Status byte after a 16-bit comparison: zero when equal, carry when the
/// first operand is not below the second, negative from the difference's
/// most significant bit.
pub open spec fn spec_compare(p: u8, a: u16, b: u16) -> u8 {
    set_flag(
        set_flag(set_flag(p, ZERO_FLAG, a == b), CARRY_FLAG, a >= b),
        NEG_FLAG,
        vstd::wrapping::u16_specs::wrapping_sub(a, b) & 0x8000 != 0,
    )
}

/// Status byte after an 8-bit comparison.
pub open spec fn spec_compare8(p: u8, a: u8, b: u8) -> u8 {
    set_flag(
        set_flag(set_flag(p, ZERO_FLAG, a == b), CARRY_FLAG, a >= b),
        NEG_FLAG,
        vstd::wrapping::u8_specs::wrapping_sub(a, b) & 0x80 != 0,
    )
}

/// Pull Processor Status: pop one byte into P.
pub open spec fn spec_plp(st: CpuState) -> Result<CpuState, Trap> {
    if !stack_ok(st) {
        Err(Trap::EmulationStackPage)
    } else {
        let (st1, v) = spec_popb(st);
        Ok(CpuState { p: v, ..st1 })
    }
}

/// Push Processor Status.
pub open spec fn spec_php(st: CpuState) -> Result<CpuState, Trap> {
    if !stack_ok(st) {
        Err(Trap::EmulationStackPage)
    } else {
        Ok(spec_pushb(st, st.p))
    }
}

/// Push the accumulator: one byte or a full word, by the accumulator width.
pub open spec fn spec_pha(st: CpuState) -> Result<CpuState, Trap> {
    if !stack_ok(st) {
        Err(Trap::EmulationStackPage)
    } else if st.small_acc() {
        Ok(spec_pushb(st, st.a as u8))
    } else {
        Ok(spec_pushw(st, st.a))
    }
}

/// Pull the accumulator, setting the zero and negative flags from the value.
/// In 8-bit mode the accumulator's high byte is preserved.
pub open spec fn spec_pla(st: CpuState) -> Result<CpuState, Trap> {
    if !stack_ok(st) {
        Err(Trap::EmulationStackPage)
    } else if st.small_acc() {
        let (st1, v) = spec_popb(st);
        Ok(CpuState { a: (st.a & 0xff00) | (v as u16), p: spec_set_nz_8(st1.p, v), ..st1 })
    } else {
        let (st1, v) = spec_popw(st);
        Ok(CpuState { a: v, p: spec_set_nz(st1.p, v), ..st1 })
    }
}

/// Clear carry.
pub open spec fn spec_clc(st: CpuState) -> CpuState {
    CpuState { p: set_flag(st.p, CARRY_FLAG, false), ..st }
}

/// Clear the IRQ-disable flag (enable IRQs).
pub open spec fn spec_cli(st: CpuState) -> CpuState {
    CpuState { p: set_flag(st.p, IRQ_FLAG, false), ..st }
}

/// Set the IRQ-disable flag (disable IRQs).
pub open spec fn spec_sei(st: CpuState) -> CpuState {
    CpuState { p: set_flag(st.p, IRQ_FLAG, true), ..st }
}

/// Exchange the carry and emulation flags; entering emulation mode re-clamps
/// the stack pointer into page 1.
pub open spec fn spec_xce(st: CpuState) -> CpuState {
    spec_set_emulation(
        CpuState { p: set_flag(st.p, CARRY_FLAG, st.emulation), ..st },
        flag(st.p, CARRY_FLAG),
    )
}

/// Transfer the 16-bit accumulator to the direct page register.
pub open spec fn spec_tcd(st: CpuState) -> CpuState {
    CpuState { d: st.a, p: spec_set_nz(st.p, st.a), ..st }
}

/// Transfer the accumulator to the stack pointer; no flags change. In
/// emulation mode only the low byte is transferred and the high byte stays
/// pinned to 0x01, keeping the stack inside page 1.
pub open spec fn spec_tcs(st: CpuState) -> CpuState {
    let s2 = if st.emulation {
        0x0100 | (st.a & 0xff)
    } else {
        st.a
    };
    CpuState { s: s2, ..st }
}

/// Increment Y, at the current index-register width.
pub open spec fn spec_iny(st: CpuState) -> CpuState {
    if st.small_index() {
        let res = vstd::wrapping::u8_specs::wrapping_add(st.y as u8, 1);
        CpuState { y: (st.y & 0xff00) | (res as u16), p: spec_set_nz_8(st.p, res), ..st }
    } else {
        let res = vstd::wrapping::u16_specs::wrapping_add(st.y, 1);
        CpuState { y: res, p: spec_set_nz(st.p, res), ..st }
    }
}

/// Transfer the accumulator to X, at the current register widths.
pub open spec fn spec_tax(st: CpuState) -> CpuState {
    let aval = if st.small_acc() {
        st.a & 0xff
    } else {
        st.a
    };
    if st.small_index() {
        CpuState {
            x: (st.x & 0xff00) | ((aval as u8) as u16),
            p: spec_set_nz_8(st.p, aval as u8),
            ..st
        }
    } else {
        CpuState { x: aval, p: spec_set_nz(st.p, aval), ..st }
    }
}

/// Rotate the accumulator left by one bit at its current width; the bit
/// rotated out also becomes the carry.
pub open spec fn spec_rol_a(st: CpuState) -> CpuState {
    if st.small_acc() {
        let a8 = st.a as u8;
        let res = (a8 << 1) | (a8 >> 7);
        CpuState {
            a: (st.a & 0xff00) | (res as u16),
            p: spec_set_nz_8(set_flag(st.p, CARRY_FLAG, st.a & 0x80 != 0), res),
            ..st
        }
    } else {
        let res = (st.a << 1) | (st.a >> 15);
        CpuState {
            a: res,
            p: spec_set_nz(set_flag(st.p, CARRY_FLAG, st.a & 0x8000 != 0), res),
            ..st
        }
    }
}

impl<M: AddressSpace> Cpu<M> {
    /// Whether a stack access is legal right now: outside emulation mode
    /// always, inside it only while S sits in page 1.
    pub(crate) fn stack_page_ok(&self) -> (r: bool)
        ensures
            r == stack_ok(self.st()),
    {
        !self.emulation || self.s & 0xff00 == 0x0100
    }

    /// Common method for the comparison opcodes: compares `a` to `b` by
    /// effectively computing `a - b`, for 16-bit operands.
    pub(crate) fn compare(&mut self, a: u16, b: u16)
        ensures
            final(self).st() == (CpuState { p: spec_compare(old(self).st().p, a, b), ..old(self).st() }),
    {
        self.p.set_zero(a == b);
        self.p.set_carry(a >= b);
        self.p.set_negative(a.wrapping_sub(b) & 0x8000 != 0);
    }

    /// The same as `compare`, for 8-bit operands.
    pub(crate) fn compare8(&mut self, a: u8, b: u8)
        ensures
            final(self).st() == (CpuState { p: spec_compare8(old(self).st().p, a, b), ..old(self).st() }),
    {
        self.p.set_zero(a == b);
        self.p.set_carry(a >= b);
        self.p.set_negative(a.wrapping_sub(b) & 0x80 != 0);
    }

    /// Branch to an absolute (bank, offset) target.
    pub(crate) fn branch(&mut self, target: (u8, u16))
        ensures
            final(self).st() == (CpuState { pbr: target.0, pc: target.1, ..old(self).st() }),
    {
        self.pbr = target.0;
        self.pc = target.1;
    }

    /// Pull Processor Status Register.
    pub(crate) fn plp(&mut self) -> (r: Result<(), Trap>)
        ensures
            op_post(spec_plp(old(self).st()), r, final(self).st(), old(self).st()),
    {
        if !self.stack_page_ok() {
            return Err(Trap::EmulationStackPage);
        }
        let p = self.popb();
        self.p.0 = p;
        Ok(())
    }

    /// Push Processor Status Register.
    pub(crate) fn php(&mut self) -> (r: Result<(), Trap>)
        ensures
            op_post(spec_php(old(self).st()), r, final(self).st(), old(self).st()),
    {
        if !self.stack_page_ok() {
            return Err(Trap::EmulationStackPage);
        }
        let p = self.p.0;
        self.pushb(p);
        Ok(())
    }

    /// Push A on the stack; no flags are modified.
    pub(crate) fn pha(&mut self) -> (r: Result<(), Trap>)
        ensures
            op_post(spec_pha(old(self).st()), r, final(self).st(), old(self).st()),
    {
        if !self.stack_page_ok() {
            return Err(Trap::EmulationStackPage);
        }
        if self.p.small_acc() {
            let a = self.a as u8;
            self.pushb(a);
        } else {
            let a = self.a;
            self.pushw(a);
        }
        Ok(())
    }

    /// Pull Accumulator from the stack; sets the zero and negative flags.
    pub(crate) fn pla(&mut self) -> (r: Result<(), Trap>)
        ensures
            op_post(spec_pla(old(self).st()), r, final(self).st(), old(self).st()),
    {
        if !self.stack_page_ok() {
            return Err(Trap::EmulationStackPage);
        }
        if self.p.small_acc() {
            let a = self.popb();
            self.a = (self.a & 0xff00) | (self.p.set_nz_8(a) as u16);
        } else {
            let a = self.popw();
            self.a = self.p.set_nz(a);
        }
        Ok(())
    }

    /// Clear carry.
    pub(crate) fn clc(&mut self)
        ensures
            final(self).st() == spec_clc(old(self).st()),
    {
        self.p.set_carry(false);
    }

    /// Clear the IRQ-disable flag (enable IRQs).
    pub(crate) fn cli(&mut self)
        ensures
            final(self).st() == spec_cli(old(self).st()),
    {
        self.p.set_irq_disable(false);
    }

    /// Set the IRQ-disable flag (disable IRQs).
    pub(crate) fn sei(&mut self)
        ensures
            final(self).st() == spec_sei(old(self).st()),
    {
        self.p.set_irq_disable(true);
    }

    /// Exchange carry and emulation flags.
    pub(crate) fn xce(&mut self)
        ensures
            final(self).st() == spec_xce(old(self).st()),
    {
        let carry = self.p.carry();
        let e = self.emulation;
        self.p.set_carry(e);
        self.set_emulation(carry);
    }

    /// Transfer 16-bit Accumulator to Direct Page Register.
    pub(crate) fn tcd(&mut self)
        ensures
            final(self).st() == spec_tcd(old(self).st()),
    {
        self.d = self.p.set_nz(self.a);
    }

    /// Transfer Accumulator to Stack Pointer; in emulation mode the stack
    /// stays pinned to page 1.
    pub(crate) fn tcs(&mut self)
        ensures
            final(self).st() == spec_tcs(old(self).st()),
    {
        self.s = if self.emulation {
            0x0100 | (self.a & 0xff)
        } else {
            self.a
        };
    }

    /// Increment Index Register Y.
    pub(crate) fn iny(&mut self)
        ensures
            final(self).st() == spec_iny(old(self).st()),
    {
        if self.p.small_index() {
            let res = self.p.set_nz_8((self.y as u8).wrapping_add(1));
            self.y = (self.y & 0xff00) | (res as u16);
        } else {
            self.y = self.p.set_nz(self.y.wrapping_add(1));
        }
    }

    /// Transfer Accumulator to Index Register X.
    pub(crate) fn tax(&mut self)
        ensures
            final(self).st() == spec_tax(old(self).st()),
    {
        let a = if self.p.small_acc() {
            self.a & 0xff
        } else {
            self.a
        };
        if self.p.small_index() {
            self.x = (self.x & 0xff00) | (self.p.set_nz_8(a as u8) as u16);
        } else {
            self.x = self.p.set_nz(a);
        }
    }

    /// Rotate Accumulator Left.
    pub(crate) fn rol_a(&mut self)
        ensures
            final(self).st() == spec_rol_a(old(self).st()),
    {
        if self.p.small_acc() {
            let a8 = self.a as u8;
            self.p.set_carry(self.a & 0x80 != 0);
            let res = (a8 << 1) | (a8 >> 7);
            self.a = (self.a & 0xff00) | (self.p.set_nz_8(res) as u16);
        } else {
            self.p.set_carry(self.a & 0x8000 != 0);
            let a = self.a;
            let res = (a << 1) | (a >> 15);
            self.a = self.p.set_nz(res);
        }
    }
}


/// AND the accumulator with memory or an immediate, at the accumulator width,
/// setting the zero and negative flags from the result.
pub open spec fn spec_and(st: CpuState, am: AddressingMode) -> Result<CpuState, Trap> {
    if st.small_acc() {
        match am.spec_loadb(st) {
            Ok(val) => {
                let res = (st.a as u8) & val;
                Ok(CpuState { a: (st.a & 0xff00) | (res as u16), p: spec_set_nz_8(st.p, res), ..st })
            },
            Err(t) => Err(t),
        }
    } else {
        match am.spec_loadw(st) {
            Ok(val) => {
                let res = st.a & val;
                Ok(CpuState { a: res, p: spec_set_nz(st.p, res), ..st })
            },
            Err(t) => Err(t),
        }
    }
}

/// Add with carry, at the accumulator width: sets the carry from the unsigned
/// overflow, the overflow flag from the signed overflow, and the zero and
/// negative flags from the result; binary arithmetic only (the decimal flag
/// is not consulted).
pub open spec fn spec_adc(st: CpuState, am: AddressingMode) -> Result<CpuState, Trap> {
    let c: u16 = if flag(st.p, CARRY_FLAG) { 1 } else { 0 };
    if st.small_acc() {
        match am.spec_loadb(st) {
            Ok(val) => {
                let a8 = st.a as u8;
                let sum = ((a8 as u16) + (val as u16) + c) as u16;
                let res = sum as u8;
                let p1 = set_flag(st.p, CARRY_FLAG, sum > 255);
                let p2 = set_flag(
                    p1,
                    OVERFLOW_FLAG,
                    (a8 ^ val) & 0x80 == 0 && (a8 ^ res) & 0x80 == 0x80,
                );
                Ok(
                    CpuState {
                        a: (st.a & 0xff00) | (res as u16),
                        p: spec_set_nz_8(p2, res),
                        ..st
                    },
                )
            },
            Err(t) => Err(t),
        }
    } else {
        match am.spec_loadw(st) {
            Ok(val) => {
                let sum = ((st.a as u32) + (val as u32) + (c as u32)) as u32;
                let res = sum as u16;
                let p1 = set_flag(st.p, CARRY_FLAG, sum > 65535);
                let p2 = set_flag(
                    p1,
                    OVERFLOW_FLAG,
                    (st.a ^ val) & 0x8000 == 0 && (st.a ^ res) & 0x8000 == 0x8000,
                );
                Ok(CpuState { a: res, p: spec_set_nz(p2, res), ..st })
            },
            Err(t) => Err(t),
        }
    }
}

/// Compare the accumulator with memory, at the accumulator width.
pub open spec fn spec_cmp(st: CpuState, am: AddressingMode) -> Result<CpuState, Trap> {
    if st.small_acc() {
        match am.spec_loadb(st) {
            Ok(val) => Ok(CpuState { p: spec_compare8(st.p, st.a as u8, val), ..st }),
            Err(t) => Err(t),
        }
    } else {
        match am.spec_loadw(st) {
            Ok(val) => Ok(CpuState { p: spec_compare(st.p, st.a, val), ..st }),
            Err(t) => Err(t),
        }
    }
}

/// Compare X with memory, at the index-register width.
pub open spec fn spec_cpx(st: CpuState, am: AddressingMode) -> Result<CpuState, Trap> {
    if st.small_index() {
        match am.spec_loadb(st) {
            Ok(val) => Ok(CpuState { p: spec_compare8(st.p, st.x as u8, val), ..st }),
            Err(t) => Err(t),
        }
    } else {
        match am.spec_loadw(st) {
            Ok(val) => Ok(CpuState { p: spec_compare(st.p, st.x, val), ..st }),
            Err(t) => Err(t),
        }
    }
}

/// Load the accumulator from memory, setting the zero and negative flags; in
/// 8-bit mode the high byte is preserved.
pub open spec fn spec_lda(st: CpuState, am: AddressingMode) -> Result<CpuState, Trap> {
    if st.small_acc() {
        match am.spec_loadb(st) {
            Ok(val) => Ok(
                CpuState { a: (st.a & 0xff00) | (val as u16), p: spec_set_nz_8(st.p, val), ..st },
            ),
            Err(t) => Err(t),
        }
    } else {
        match am.spec_loadw(st) {
            Ok(val) => Ok(CpuState { a: val, p: spec_set_nz(st.p, val), ..st }),
            Err(t) => Err(t),
        }
    }
}

/// Load X from memory, setting the zero and negative flags.
pub open spec fn spec_ldx(st: CpuState, am: AddressingMode) -> Result<CpuState, Trap> {
    if st.small_index() {
        match am.spec_loadb(st) {
            Ok(val) => Ok(
                CpuState { x: (st.x & 0xff00) | (val as u16), p: spec_set_nz_8(st.p, val), ..st },
            ),
            Err(t) => Err(t),
        }
    } else {
        match am.spec_loadw(st) {
            Ok(val) => Ok(CpuState { x: val, p: spec_set_nz(st.p, val), ..st }),
            Err(t) => Err(t),
        }
    }
}

/// Load Y from memory, setting the zero and negative flags.
pub open spec fn spec_ldy(st: CpuState, am: AddressingMode) -> Result<CpuState, Trap> {
    if st.small_index() {
        match am.spec_loadb(st) {
            Ok(val) => Ok(
                CpuState { y: (st.y & 0xff00) | (val as u16), p: spec_set_nz_8(st.p, val), ..st },
            ),
            Err(t) => Err(t),
        }
    } else {
        match am.spec_loadw(st) {
            Ok(val) => Ok(CpuState { y: val, p: spec_set_nz(st.p, val), ..st }),
            Err(t) => Err(t),
        }
    }
}

/// Store the accumulator to memory, at the accumulator width; no flags change.
pub open spec fn spec_sta(st: CpuState, am: AddressingMode) -> Result<CpuState, Trap> {
    if st.small_acc() {
        am.spec_storeb(st, st.a as u8)
    } else {
        am.spec_storew(st, st.a)
    }
}

/// Store zero to memory, always as one byte; no flags change.
pub open spec fn spec_stz(st: CpuState, am: AddressingMode) -> Result<CpuState, Trap> {
    am.spec_storeb(st, 0)
}

/// Branch always: the program bank and counter take the target.
pub open spec fn spec_bra(st: CpuState, am: AddressingMode) -> Result<CpuState, Trap> {
    match am.spec_address(st) {
        Ok((bank, addr)) => Ok(CpuState { pbr: bank, pc: addr, ..st }),
        Err(t) => Err(t),
    }
}

/// Branch if Not Equal (zero flag clear).
pub open spec fn spec_bne(st: CpuState, am: AddressingMode) -> Result<CpuState, Trap> {
    if !flag(st.p, ZERO_FLAG) {
        spec_bra(st, am)
    } else {
        Ok(st)
    }
}

/// Branch if Overflow Set.
pub open spec fn spec_bvs(st: CpuState, am: AddressingMode) -> Result<CpuState, Trap> {
    if flag(st.p, OVERFLOW_FLAG) {
        spec_bra(st, am)
    } else {
        Ok(st)
    }
}

/// Jump to Subroutine: the program bank and the return address (the byte
/// after the operand) are pushed, bank first, then high then low byte of the
/// return address; the program counter takes the operand.
pub open spec fn spec_jsr(st: CpuState, am: AddressingMode) -> Result<CpuState, Trap> {
    if !stack_ok(st) {
        Err(Trap::EmulationStackPage)
    } else {
        match am.spec_address(st) {
            Ok((bank, addr)) => {
                let st1 = spec_pushb(st, st.pbr);
                let st2 = spec_pushb(st1, (st.pc >> 8) as u8);
                let st3 = spec_pushb(st2, st.pc as u8);
                Ok(CpuState { pc: addr, ..st3 })
            },
            Err(t) => Err(t),
        }
    }
}

/// Return from Subroutine: pops the return address low byte, high byte, and
/// the program bank, in that order.
pub open spec fn spec_rts(st: CpuState) -> Result<CpuState, Trap> {
    if !stack_ok(st) {
        Err(Trap::EmulationStackPage)
    } else {
        let (st1, lo) = spec_popb(st);
        let (st2, hi) = spec_popb(st1);
        let (st3, pbr) = spec_popb(st2);
        Ok(CpuState { pbr, pc: ((hi as u16) << 8) | (lo as u16), ..st3 })
    }
}

/// Reset Status Bits: clears the P bits that are set in the operand; a
/// privileged operation outside emulation mode only.
pub open spec fn spec_rep(st: CpuState, am: AddressingMode) -> Result<CpuState, Trap> {
    if st.emulation {
        Err(Trap::PrivilegedFlagOp)
    } else {
        match am.spec_loadb(st) {
            Ok(val) => Ok(CpuState { p: st.p & !val, ..st }),
            Err(t) => Err(t),
        }
    }
}

/// Set Processor Status Bits: sets the P bits that are set in the operand; a
/// privileged operation outside emulation mode only.
pub open spec fn spec_sep(st: CpuState, am: AddressingMode) -> Result<CpuState, Trap> {
    if st.emulation {
        Err(Trap::PrivilegedFlagOp)
    } else {
        match am.spec_loadb(st) {
            Ok(val) => Ok(CpuState { p: st.p | val, ..st }),
            Err(t) => Err(t),
        }
    }
}

/// Opcode implementations that read or write memory or transfer control.
impl<M: AddressSpace> Cpu<M> {
    /// AND Accumulator with Memory (or immediate).
    pub(crate) fn and(&mut self, am: AddressingMode) -> (r: Result<(), Trap>)
        ensures
            op_post(spec_and(old(self).st(), am), r, final(self).st(), old(self).st()),
    {
        if self.p.small_acc() {
            let val = match am.try_loadb(self) {
                Ok(v) => v,
                Err(t) => return Err(t),
            };
            let res = (self.a as u8) & val;
            self.p.set_nz_8(res);
            self.a = (self.a & 0xff00) | (res as u16);
        } else {
            let val = match am.try_loadw(self) {
                Ok(v) => v,
                Err(t) => return Err(t),
            };
            let res = self.a & val;
            self.a = self.p.set_nz(res);
        }
        Ok(())
    }

    /// Add With Carry (binary arithmetic; sets carry, overflow, zero and
    /// negative).
    pub(crate) fn adc(&mut self, am: AddressingMode) -> (r: Result<(), Trap>)
        ensures
            op_post(spec_adc(old(self).st(), am), r, final(self).st(), old(self).st()),
    {
        let c: u16 = if self.p.carry() { 1 } else { 0 };
        if self.p.small_acc() {
            let a = self.a as u8;
            let val = match am.try_loadb(self) {
                Ok(v) => v,
                Err(t) => return Err(t),
            };
            let sum = (a as u16) + (val as u16) + c;
            self.p.set_carry(sum > 255);
            let res = sum as u8;
            self.p.set_overflow((a ^ val) & 0x80 == 0 && (a ^ res) & 0x80 == 0x80);
            self.p.set_nz_8(res);
            self.a = (self.a & 0xff00) | (res as u16);
        } else {
            let a = self.a;
            let val = match am.try_loadw(self) {
                Ok(v) => v,
                Err(t) => return Err(t),
            };
            let sum = (a as u32) + (val as u32) + (c as u32);
            self.p.set_carry(sum > 65535);
            let res = sum as u16;
            self.p.set_overflow((a ^ val) & 0x8000 == 0 && (a ^ res) & 0x8000 == 0x8000);
            self.p.set_nz(res);
            self.a = res;
        }
        Ok(())
    }

    /// Compare Accumulator with Memory.
    pub(crate) fn cmp(&mut self, am: AddressingMode) -> (r: Result<(), Trap>)
        ensures
            op_post(spec_cmp(old(self).st(), am), r, final(self).st(), old(self).st()),
    {
        if self.p.small_acc() {
            let a = self.a as u8;
            let b = match am.try_loadb(self) {
                Ok(v) => v,
                Err(t) => return Err(t),
            };
            self.compare8(a, b);
        } else {
            let a = self.a;
            let b = match am.try_loadw(self) {
                Ok(v) => v,
                Err(t) => return Err(t),
            };
            self.compare(a, b);
        }
        Ok(())
    }

    /// Compare Index Register X with Memory.
    pub(crate) fn cpx(&mut self, am: AddressingMode) -> (r: Result<(), Trap>)
        ensures
            op_post(spec_cpx(old(self).st(), am), r, final(self).st(), old(self).st()),
    {
        if self.p.small_index() {
            let x = self.x as u8;
            let val = match am.try_loadb(self) {
                Ok(v) => v,
                Err(t) => return Err(t),
            };
            self.compare8(x, val);
        } else {
            let x = self.x;
            let val = match am.try_loadw(self) {
                Ok(v) => v,
                Err(t) => return Err(t),
            };
            self.compare(x, val);
        }
        Ok(())
    }

    /// Load Accumulator from memory.
    pub(crate) fn lda(&mut self, am: AddressingMode) -> (r: Result<(), Trap>)
        ensures
            op_post(spec_lda(old(self).st(), am), r, final(self).st(), old(self).st()),
    {
        if self.p.small_acc() {
            let val = match am.try_loadb(self) {
                Ok(v) => v,
                Err(t) => return Err(t),
            };
            self.a = (self.a & 0xff00) | (self.p.set_nz_8(val) as u16);
        } else {
            let val = match am.try_loadw(self) {
                Ok(v) => v,
                Err(t) => return Err(t),
            };
            self.a = self.p.set_nz(val);
        }
        Ok(())
    }

    /// Load Index Register X from memory.
    pub(crate) fn ldx(&mut self, am: AddressingMode) -> (r: Result<(), Trap>)
        ensures
            op_post(spec_ldx(old(self).st(), am), r, final(self).st(), old(self).st()),
    {
        if self.p.small_index() {
            let val = match am.try_loadb(self) {
                Ok(v) => v,
                Err(t) => return Err(t),
            };
            self.x = (self.x & 0xff00) | (self.p.set_nz_8(val) as u16);
        } else {
            let val = match am.try_loadw(self) {
                Ok(v) => v,
                Err(t) => return Err(t),
            };
            self.x = self.p.set_nz(val);
        }
        Ok(())
    }

    /// Load Index Register Y from memory.
    pub(crate) fn ldy(&mut self, am: AddressingMode) -> (r: Result<(), Trap>)
        ensures
            op_post(spec_ldy(old(self).st(), am), r, final(self).st(), old(self).st()),
    {
        if self.p.small_index() {
            let val = match am.try_loadb(self) {
                Ok(v) => v,
                Err(t) => return Err(t),
            };
            self.y = (self.y & 0xff00) | (self.p.set_nz_8(val) as u16);
        } else {
            let val = match am.try_loadw(self) {
                Ok(v) => v,
                Err(t) => return Err(t),
            };
            self.y = self.p.set_nz(val);
        }
        Ok(())
    }

    /// Store Accumulator to memory.
    pub(crate) fn sta(&mut self, am: AddressingMode) -> (r: Result<(), Trap>)
        ensures
            op_post(spec_sta(old(self).st(), am), r, final(self).st(), old(self).st()),
    {
        if self.p.small_acc() {
            let b = self.a as u8;
            am.try_storeb(self, b)
        } else {
            let w = self.a;
            am.try_storew(self, w)
        }
    }

    /// Store zero to memory.
    pub(crate) fn stz(&mut self, am: AddressingMode) -> (r: Result<(), Trap>)
        ensures
            op_post(spec_stz(old(self).st(), am), r, final(self).st(), old(self).st()),
    {
        am.try_storeb(self, 0)
    }

    /// Branch always.
    pub(crate) fn bra(&mut self, am: AddressingMode) -> (r: Result<(), Trap>)
        ensures
            op_post(spec_bra(old(self).st(), am), r, final(self).st(), old(self).st()),
    {
        let a = match am.try_address(self) {
            Ok(a) => a,
            Err(t) => return Err(t),
        };
        self.branch(a);
        Ok(())
    }

    /// Branch if Not Equal (zero flag clear); changes no flags.
    pub(crate) fn bne(&mut self, am: AddressingMode) -> (r: Result<(), Trap>)
        ensures
            op_post(spec_bne(old(self).st(), am), r, final(self).st(), old(self).st()),
    {
        if !self.p.zero() {
            self.bra(am)
        } else {
            Ok(())
        }
    }

    /// Branch if Overflow Set; changes no flags.
    pub(crate) fn bvs(&mut self, am: AddressingMode) -> (r: Result<(), Trap>)
        ensures
            op_post(spec_bvs(old(self).st(), am), r, final(self).st(), old(self).st()),
    {
        if self.p.overflow() {
            self.bra(am)
        } else {
            Ok(())
        }
    }

    /// Jump to Subroutine; changes no flags.
    pub(crate) fn jsr(&mut self, am: AddressingMode) -> (r: Result<(), Trap>)
        ensures
            op_post(spec_jsr(old(self).st(), am), r, final(self).st(), old(self).st()),
    {
        if !self.stack_page_ok() {
            return Err(Trap::EmulationStackPage);
        }
        let a = match am.try_address(self) {
            Ok(a) => a,
            Err(t) => return Err(t),
        };
        let pbr = self.pbr;
        self.pushb(pbr);
        proof {
            lemma_push_keeps_stack_ok(old(self).st(), pbr);
        }
        let pch = (self.pc >> 8) as u8;
        self.pushb(pch);
        proof {
            lemma_push_keeps_stack_ok(spec_pushb(old(self).st(), pbr), pch);
        }
        let pcl = self.pc as u8;
        self.pushb(pcl);
        self.pc = a.1;
        Ok(())
    }

    /// Return from Subroutine.
    pub(crate) fn rts(&mut self) -> (r: Result<(), Trap>)
        ensures
            op_post(spec_rts(old(self).st()), r, final(self).st(), old(self).st()),
    {
        if !self.stack_page_ok() {
            return Err(Trap::EmulationStackPage);
        }
        let pcl = self.popb() as u16;
        proof {
            lemma_pop_keeps_stack_ok(old(self).st());
        }
        let pch = self.popb() as u16;
        proof {
            lemma_pop_keeps_stack_ok(spec_popb(old(self).st()).0);
        }
        let pbr = self.popb();
        self.pbr = pbr;
        self.pc = (pch << 8) | pcl;
        Ok(())
    }

    /// Reset status bits: clears the P bits that are 1 in the operand.
    pub(crate) fn rep(&mut self, am: AddressingMode) -> (r: Result<(), Trap>)
        ensures
            op_post(spec_rep(old(self).st(), am), r, final(self).st(), old(self).st()),
    {
        if self.emulation {
            return Err(Trap::PrivilegedFlagOp);
        }
        let val = match am.try_loadb(self) {
            Ok(v) => v,
            Err(t) => return Err(t),
        };
        self.p.0 &= !val;
        Ok(())
    }

    /// Set Processor Status Bits: sets the P bits that are 1 in the operand.
    pub(crate) fn sep(&mut self, am: AddressingMode) -> (r: Result<(), Trap>)
        ensures
            op_post(spec_sep(old(self).st(), am), r, final(self).st(), old(self).st()),
    {
        if self.emulation {
            return Err(Trap::PrivilegedFlagOp);
        }
        let val = match am.try_loadb(self) {
            Ok(v) => v,
            Err(t) => return Err(t),
        };
        self.p.0 |= val;
        Ok(())
    }
}


/// Decode of an absolute operand: a 16-bit offset follows the opcode.
pub open spec fn spec_am_absolute(st: CpuState) -> (CpuState, AddressingMode) {
    let (st1, w) = spec_fetchw(st);
    (st1, AddressingMode::Absolute(w))
}

/// Decode of an absolute-long operand: a 16-bit offset, then a bank byte.
pub open spec fn spec_am_absolute_long(st: CpuState) -> (CpuState, AddressingMode) {
    let (st1, w) = spec_fetchw(st);
    let (st2, b) = spec_fetchb(st1);
    (st2, AddressingMode::AbsoluteLong(b, w))
}

/// Decode of an absolute-indexed-by-X operand.
pub open spec fn spec_am_absolute_indexed_x(st: CpuState) -> (CpuState, AddressingMode) {
    let (st1, w) = spec_fetchw(st);
    (st1, AddressingMode::AbsIndexedX(w))
}

/// Decode of a PC-relative operand: one signed byte.
pub open spec fn spec_am_rel(st: CpuState) -> (CpuState, AddressingMode) {
    let (st1, b) = spec_fetchb(st);
    (st1, AddressingMode::Rel(b as i8))
}

/// Decode of a direct-page operand: one byte.
pub open spec fn spec_am_direct(st: CpuState) -> (CpuState, AddressingMode) {
    let (st1, b) = spec_fetchb(st);
    (st1, AddressingMode::Direct(b))
}

/// Decode of a direct-indirect-indexed-long operand: one byte.
pub open spec fn spec_am_indirect_long_idx(st: CpuState) -> (CpuState, AddressingMode) {
    let (st1, b) = spec_fetchb(st);
    (st1, AddressingMode::IndirectLongIdx(b))
}

/// Decode of an immediate operand at the accumulator width.
pub open spec fn spec_am_immediate_acc(st: CpuState) -> (CpuState, AddressingMode) {
    if st.small_acc() {
        let (st1, b) = spec_fetchb(st);
        (st1, AddressingMode::Immediate8(b))
    } else {
        let (st1, w) = spec_fetchw(st);
        (st1, AddressingMode::Immediate(w))
    }
}

/// Decode of an immediate operand at the index-register width.
pub open spec fn spec_am_immediate_index(st: CpuState) -> (CpuState, AddressingMode) {
    if st.small_index() {
        let (st1, b) = spec_fetchb(st);
        (st1, AddressingMode::Immediate8(b))
    } else {
        let (st1, w) = spec_fetchw(st);
        (st1, AddressingMode::Immediate(w))
    }
}

/// Decode of a one-byte immediate operand.
pub open spec fn spec_am_immediate8(st: CpuState) -> (CpuState, AddressingMode) {
    let (st1, b) = spec_fetchb(st);
    (st1, AddressingMode::Immediate8(b))
}

/// Base CPU cycles per implemented opcode, from the fixed 256-entry cycle
/// table, independent of operand values (conditional extra cycles for page
/// crossings are a known simplification and out of scope).
pub open spec fn base_cycles(op: u8) -> u8 {
    if op == 0x08 { 3 }        // php
    else if op == 0x28 { 4 }   // plp
    else if op == 0x48 { 3 }   // pha
    else if op == 0x68 { 4 }   // pla
    else if op == 0x18 { 2 }   // clc
    else if op == 0x58 { 2 }   // cli
    else if op == 0x78 { 2 }   // sei
    else if op == 0xfb { 2 }   // xce
    else if op == 0xc2 { 3 }   // rep
    else if op == 0xe2 { 3 }   // sep
    else if op == 0x2a { 2 }   // rol a
    else if op == 0x2f { 5 }   // and absolute long
    else if op == 0x69 { 2 }   // adc immediate
    else if op == 0xc8 { 2 }   // iny
    else if op == 0x5b { 2 }   // tcd
    else if op == 0x1b { 2 }   // tcs
    else if op == 0xaa { 2 }   // tax
    else if op == 0x85 { 3 }   // sta direct
    else if op == 0x8d { 4 }   // sta absolute
    else if op == 0x9d { 5 }   // sta absolute indexed x
    else if op == 0x9c { 3 }   // stz absolute
    else if op == 0xa9 { 2 }   // lda immediate
    else if op == 0xb7 { 6 }   // lda indirect long indexed
    else if op == 0xa2 { 2 }   // ldx immediate
    else if op == 0xa0 { 2 }   // ldy immediate
    else if op == 0xac { 4 }   // ldy absolute
    else if op == 0xcd { 4 }   // cmp absolute
    else if op == 0xe0 { 2 }   // cpx immediate
    else if op == 0x80 { 2 }   // bra
    else if op == 0xd0 { 2 }   // bne
    else if op == 0x70 { 2 }   // bvs
    else if op == 0x20 { 6 }   // jsr absolute
    else if op == 0x60 { 7 }   // rts
    else { 0 }
}

/// What one dispatch step does to the whole machine state: either the next
/// state together with the master-clock cycles consumed, or the fault that
/// stopped it and the state at that point.
pub enum SpecOutcome {
    Step(CpuState, u8),
    Fault(CpuState, Trap),
}

/// Wraps an opcode outcome: a fault leaves the state as it stood after decoding.
pub open spec fn step_or(outcome: Result<CpuState, Trap>, mcy: u8, pre: CpuState) -> SpecOutcome {
    match outcome {
        Ok(st2) => SpecOutcome::Step(st2, mcy),
        Err(t) => SpecOutcome::Fault(pre, t),
    }
}

/// One full instruction, as a state transformation: fetch the opcode byte,
/// decode its operand, apply the opcode's semantics, and account the master
/// cycles (the table's base figure times the CPU-to-master clock ratio of 6).
/// An unrecognized opcode is a fault with no recoverable continuation.
pub open spec fn spec_dispatch(st: CpuState) -> SpecOutcome {
    let (st1, op) = spec_fetchb(st);
    let mcy = (6 * base_cycles(op)) as u8;
    if op == 0x08 { step_or(spec_php(st1), mcy, st1) }
    else if op == 0x28 { step_or(spec_plp(st1), mcy, st1) }
    else if op == 0x48 { step_or(spec_pha(st1), mcy, st1) }
    else if op == 0x68 { step_or(spec_pla(st1), mcy, st1) }
    else if op == 0x18 { SpecOutcome::Step(spec_clc(st1), mcy) }
    else if op == 0x58 { SpecOutcome::Step(spec_cli(st1), mcy) }
    else if op == 0x78 { SpecOutcome::Step(spec_sei(st1), mcy) }
    else if op == 0xfb { SpecOutcome::Step(spec_xce(st1), mcy) }
    else if op == 0xc2 {
        let (st2, am) = spec_am_immediate8(st1);
        step_or(spec_rep(st2, am), mcy, st2)
    }
    else if op == 0xe2 {
        let (st2, am) = spec_am_immediate8(st1);
        step_or(spec_sep(st2, am), mcy, st2)
    }
    else if op == 0x2a { SpecOutcome::Step(spec_rol_a(st1), mcy) }
    else if op == 0x2f {
        let (st2, am) = spec_am_absolute_long(st1);
        step_or(spec_and(st2, am), mcy, st2)
    }
    else if op == 0x69 {
        let (st2, am) = spec_am_immediate_acc(st1);
        step_or(spec_adc(st2, am), mcy, st2)
    }
    else if op == 0xc8 { SpecOutcome::Step(spec_iny(st1), mcy) }
    else if op == 0x5b { SpecOutcome::Step(spec_tcd(st1), mcy) }
    else if op == 0x1b { SpecOutcome::Step(spec_tcs(st1), mcy) }
    else if op == 0xaa { SpecOutcome::Step(spec_tax(st1), mcy) }
    else if op == 0x85 {
        let (st2, am) = spec_am_direct(st1);
        step_or(spec_sta(st2, am), mcy, st2)
    }
    else if op == 0x8d {
        let (st2, am) = spec_am_absolute(st1);
        step_or(spec_sta(st2, am), mcy, st2)
    }
    else if op == 0x9d {
        let (st2, am) = spec_am_absolute_indexed_x(st1);
        step_or(spec_sta(st2, am), mcy, st2)
    }
    else if op == 0x9c {
        let (st2, am) = spec_am_absolute(st1);
        step_or(spec_stz(st2, am), mcy, st2)
    }
    else if op == 0xa9 {
        let (st2, am) = spec_am_immediate_acc(st1);
        step_or(spec_lda(st2, am), mcy, st2)
    }
    else if op == 0xb7 {
        let (st2, am) = spec_am_indirect_long_idx(st1);
        step_or(spec_lda(st2, am), mcy, st2)
    }
    else if op == 0xa2 {
        let (st2, am) = spec_am_immediate_index(st1);
        step_or(spec_ldx(st2, am), mcy, st2)
    }
    else if op == 0xa0 {
        let (st2, am) = spec_am_immediate_index(st1);
        step_or(spec_ldy(st2, am), mcy, st2)
    }
    else if op == 0xac {
        let (st2, am) = spec_am_absolute(st1);
        step_or(spec_ldy(st2, am), mcy, st2)
    }
    else if op == 0xcd {
        let (st2, am) = spec_am_absolute(st1);
        step_or(spec_cmp(st2, am), mcy, st2)
    }
    else if op == 0xe0 {
        let (st2, am) = spec_am_immediate_index(st1);
        step_or(spec_cpx(st2, am), mcy, st2)
    }
    else if op == 0x80 {
        let (st2, am) = spec_am_rel(st1);
        step_or(spec_bra(st2, am), mcy, st2)
    }
    else if op == 0xd0 {
        let (st2, am) = spec_am_rel(st1);
        step_or(spec_bne(st2, am), mcy, st2)
    }
    else if op == 0x70 {
        let (st2, am) = spec_am_rel(st1);
        step_or(spec_bvs(st2, am), mcy, st2)
    }
    else if op == 0x20 {
        let (st2, am) = spec_am_absolute(st1);
        step_or(spec_jsr(st2, am), mcy, st2)
    }
    else if op == 0x60 { step_or(spec_rts(st1), mcy, st1) }
    else { SpecOutcome::Fault(st1, Trap::IllegalOpcode(op)) }
}

/// Non-maskable-interrupt entry: the return state is pushed (program bank
/// only in native mode, then the program counter, then the status byte),
/// IRQs are disabled, and execution continues at the mode's interrupt vector
/// in bank 0.
pub open spec fn spec_trigger_nmi(st: CpuState) -> Result<CpuState, Trap> {
    if !stack_ok(st) {
        Err(Trap::EmulationStackPage)
    } else {
        let st1 = if st.emulation { st } else { spec_pushb(st, st.pbr) };
        let st2 = spec_pushw(st1, st.pc);
        let st3 = spec_pushb(st2, st.p);
        let vec = if st.emulation { NMI_VEC8 } else { NMI_VEC16 };
        Ok(
            CpuState {
                p: set_flag(st3.p, IRQ_FLAG, true),
                pbr: 0,
                pc: word_at(st3.mem, addr24(0, vec)),
                ..st3
            },
        )
    }
}

/// Shifting the high byte up and or-ing the low byte in yields the value of
/// the little-endian word.
pub proof fn lemma_hi_lo_word(hi: u8, lo: u8)
    ensures
        ((hi as u16) << 8) | (lo as u16) == 256 * hi + lo,
{
    assert(((hi as u16) << 8) | (lo as u16) == 256 * hi + lo) by (bit_vector);
}

/// Pushing a word keeps the stack inside page 1 in emulation mode.
pub proof fn lemma_pushw_keeps_stack_ok(st: CpuState, value: u16)
    requires
        stack_ok(st),
    ensures
        stack_ok(spec_pushw(st, value)),
{
    lemma_push_keeps_stack_ok(st, (value >> 8) as u8);
    lemma_push_keeps_stack_ok(spec_pushb(st, (value >> 8) as u8), value as u8);
}

/// Dispatch and the interrupt entry point.
impl<M: AddressSpace> Cpu<M> {
    /// The base cycle count of an implemented opcode, from the cycle table.
    pub(crate) fn cycles_for(op: u8) -> (r: u8)
        ensures
            r == base_cycles(op),
            r <= 8,
    {
        if op == 0x08 { 3 }
        else if op == 0x28 { 4 }
        else if op == 0x48 { 3 }
        else if op == 0x68 { 4 }
        else if op == 0x18 { 2 }
        else if op == 0x58 { 2 }
        else if op == 0x78 { 2 }
        else if op == 0xfb { 2 }
        else if op == 0xc2 { 3 }
        else if op == 0xe2 { 3 }
        else if op == 0x2a { 2 }
        else if op == 0x2f { 5 }
        else if op == 0x69 { 2 }
        else if op == 0xc8 { 2 }
        else if op == 0x5b { 2 }
        else if op == 0x1b { 2 }
        else if op == 0xaa { 2 }
        else if op == 0x85 { 3 }
        else if op == 0x8d { 4 }
        else if op == 0x9d { 5 }
        else if op == 0x9c { 3 }
        else if op == 0xa9 { 2 }
        else if op == 0xb7 { 6 }
        else if op == 0xa2 { 2 }
        else if op == 0xa0 { 2 }
        else if op == 0xac { 4 }
        else if op == 0xcd { 4 }
        else if op == 0xe0 { 2 }
        else if op == 0x80 { 2 }
        else if op == 0xd0 { 2 }
        else if op == 0x70 { 2 }
        else if op == 0x20 { 6 }
        else if op == 0x60 { 7 }
        else { 0 }
    }

    pub(crate) fn indirect_long_idx(&mut self) -> (am: AddressingMode)
        ensures
            (final(self).st(), am) == spec_am_indirect_long_idx(old(self).st()),
    {
        AddressingMode::IndirectLongIdx(self.fetchb())
    }

    pub(crate) fn absolute(&mut self) -> (am: AddressingMode)
        ensures
            (final(self).st(), am) == spec_am_absolute(old(self).st()),
    {
        AddressingMode::Absolute(self.fetchw())
    }

    pub(crate) fn absolute_long(&mut self) -> (am: AddressingMode)
        ensures
            (final(self).st(), am) == spec_am_absolute_long(old(self).st()),
    {
        let addr = self.fetchw();
        let bank = self.fetchb();
        AddressingMode::AbsoluteLong(bank, addr)
    }

    pub(crate) fn absolute_indexed_x(&mut self) -> (am: AddressingMode)
        ensures
            (final(self).st(), am) == spec_am_absolute_indexed_x(old(self).st()),
    {
        AddressingMode::AbsIndexedX(self.fetchw())
    }

    pub(crate) fn rel(&mut self) -> (am: AddressingMode)
        ensures
            (final(self).st(), am) == spec_am_rel(old(self).st()),
    {
        AddressingMode::Rel(self.fetchb() as i8)
    }

    pub(crate) fn direct(&mut self) -> (am: AddressingMode)
        ensures
            (final(self).st(), am) == spec_am_direct(old(self).st()),
    {
        AddressingMode::Direct(self.fetchb())
    }

    /// Immediate value at the accumulator width.
    pub(crate) fn immediate_acc(&mut self) -> (am: AddressingMode)
        ensures
            (final(self).st(), am) == spec_am_immediate_acc(old(self).st()),
    {
        if self.p.small_acc() {
            AddressingMode::Immediate8(self.fetchb())
        } else {
            AddressingMode::Immediate(self.fetchw())
        }
    }

    /// Immediate value at the index-register width.
    pub(crate) fn immediate_index(&mut self) -> (am: AddressingMode)
        ensures
            (final(self).st(), am) == spec_am_immediate_index(old(self).st()),
    {
        if self.p.small_index() {
            AddressingMode::Immediate8(self.fetchb())
        } else {
            AddressingMode::Immediate(self.fetchw())
        }
    }

    /// Immediate value, one byte.
    pub(crate) fn immediate8(&mut self) -> (am: AddressingMode)
        ensures
            (final(self).st(), am) == spec_am_immediate8(old(self).st()),
    {
        AddressingMode::Immediate8(self.fetchb())
    }

    /// Executes a single instruction and returns the number of master clock
    /// cycles spent doing so, or the fault that stopped execution. The whole
    /// effect, the cycle count included, is pinned by [`spec_dispatch`].
    pub fn dispatch(&mut self) -> (r: Result<u8, Trap>)
        ensures
            match spec_dispatch(old(self).st()) {
                SpecOutcome::Step(post, mcy) => r == Ok::<u8, Trap>(mcy) && final(self).st()
                    == post,
                SpecOutcome::Fault(post, t) => r == Err::<u8, Trap>(t) && final(self).st()
                    == post,
            },
    {
        let op = self.fetchb();
        let mcy = 6 * Self::cycles_for(op);
        let outcome: Result<(), Trap> = match op {
            0x08 => self.php(),
            0x28 => self.plp(),
            0x48 => self.pha(),
            0x68 => self.pla(),
            0x18 => { self.clc(); Ok(()) },
            0x58 => { self.cli(); Ok(()) },
            0x78 => { self.sei(); Ok(()) },
            0xfb => { self.xce(); Ok(()) },
            0xc2 => { let am = self.immediate8(); self.rep(am) },
            0xe2 => { let am = self.immediate8(); self.sep(am) },
            0x2a => { self.rol_a(); Ok(()) },
            0x2f => { let am = self.absolute_long(); self.and(am) },
            0x69 => { let am = self.immediate_acc(); self.adc(am) },
            0xc8 => { self.iny(); Ok(()) },
            0x5b => { self.tcd(); Ok(()) },
            0x1b => { self.tcs(); Ok(()) },
            0xaa => { self.tax(); Ok(()) },
            0x85 => { let am = self.direct(); self.sta(am) },
            0x8d => { let am = self.absolute(); self.sta(am) },
            0x9d => { let am = self.absolute_indexed_x(); self.sta(am) },
            0x9c => { let am = self.absolute(); self.stz(am) },
            0xa9 => { let am = self.immediate_acc(); self.lda(am) },
            0xb7 => { let am = self.indirect_long_idx(); self.lda(am) },
            0xa2 => { let am = self.immediate_index(); self.ldx(am) },
            0xa0 => { let am = self.immediate_index(); self.ldy(am) },
            0xac => { let am = self.absolute(); self.ldy(am) },
            0xcd => { let am = self.absolute(); self.cmp(am) },
            0xe0 => { let am = self.immediate_index(); self.cpx(am) },
            0x80 => { let am = self.rel(); self.bra(am) },
            0xd0 => { let am = self.rel(); self.bne(am) },
            0x70 => { let am = self.rel(); self.bvs(am) },
            0x20 => { let am = self.absolute(); self.jsr(am) },
            0x60 => self.rts(),
            _ => Err(Trap::IllegalOpcode(op)),
        };
        match outcome {
            Ok(()) => Ok(mcy),
            Err(t) => Err(t),
        }
    }

    /// Delivers a non-maskable interrupt: pushes the return state, disables
    /// IRQs and jumps through the mode's interrupt vector.
    pub fn trigger_nmi(&mut self) -> (r: Result<(), Trap>)
        ensures
            op_post(spec_trigger_nmi(old(self).st()), r, final(self).st(), old(self).st()),
    {
        if !self.stack_page_ok() {
            return Err(Trap::EmulationStackPage);
        }
        let emu = self.emulation;
        if !emu {
            let pbr = self.pbr;
            self.pushb(pbr);
            proof {
                lemma_push_keeps_stack_ok(old(self).st(), pbr);
            }
        }
        let ghost st1 = if old(self).st().emulation {
            old(self).st()
        } else {
            spec_pushb(old(self).st(), old(self).st().pbr)
        };
        let pc = self.pc;
        self.pushw(pc);
        proof {
            lemma_pushw_keeps_stack_ok(st1, pc);
        }
        let p = self.p.0;
        self.pushb(p);
        self.p.set_irq_disable(true);
        self.pbr = 0;
        let vec = if emu { NMI_VEC8 } else { NMI_VEC16 };
        let lo = self.mem.load(0, vec);
        let hi = self.mem.load(0, vec + 1);
        proof {
            lemma_hi_lo_word(hi, lo);
            assert(addr24(0, (vec + 1) as u16) == addr24(0, vec) + 1);
        }
        self.pc = ((hi as u16) << 8) | (lo as u16);
        Ok(())
    }
}


/// After the 16-bit flag helper runs, the zero flag holds exactly when the
/// result is 0, and the negative flag holds exactly when bit 15 of the
/// result is set.
pub proof fn lemma_set_nz_flags(p: u8, val: u16)
    ensures
        flag(spec_set_nz(p, val), ZERO_FLAG) == (val == 0),
        flag(spec_set_nz(p, val), NEG_FLAG) == (val & 0x8000 != 0),
{
    assert(flag(spec_set_nz(p, val), ZERO_FLAG) == (val == 0) && flag(
        spec_set_nz(p, val),
        NEG_FLAG,
    ) == (val & 0x8000 != 0)) by (bit_vector);
}

/// After the 8-bit flag helper runs, the zero flag holds exactly when the
/// result is 0, and the negative flag holds exactly when bit 7 of the
/// result is set.
pub proof fn lemma_set_nz_8_flags(p: u8, val: u8)
    ensures
        flag(spec_set_nz_8(p, val), ZERO_FLAG) == (val == 0),
        flag(spec_set_nz_8(p, val), NEG_FLAG) == (val & 0x80 != 0),
{
    assert(flag(spec_set_nz_8(p, val), ZERO_FLAG) == (val == 0) && flag(
        spec_set_nz_8(p, val),
        NEG_FLAG,
    ) == (val & 0x80 != 0)) by (bit_vector);
}

/// A load into the accumulator leaves the zero flag set exactly when the
/// width-appropriate loaded value is 0 and the negative flag set exactly when
/// its sign bit (bit 7 in 8-bit mode, bit 15 in 16-bit mode) is set.
pub proof fn lemma_lda_nz(st: CpuState, am: AddressingMode)
    requires
        spec_lda(st, am) is Ok,
    ensures
        st.small_acc() ==> {
            let v = am.spec_loadb(st)->Ok_0;
            &&& flag(spec_lda(st, am)->Ok_0.p, ZERO_FLAG) == (v == 0)
            &&& flag(spec_lda(st, am)->Ok_0.p, NEG_FLAG) == (v & 0x80 != 0)
        },
        !st.small_acc() ==> {
            let v = am.spec_loadw(st)->Ok_0;
            &&& flag(spec_lda(st, am)->Ok_0.p, ZERO_FLAG) == (v == 0)
            &&& flag(spec_lda(st, am)->Ok_0.p, NEG_FLAG) == (v & 0x8000 != 0)
        },
{
    if st.small_acc() {
        lemma_set_nz_8_flags(st.p, am.spec_loadb(st)->Ok_0);
    } else {
        lemma_set_nz_flags(st.p, am.spec_loadw(st)->Ok_0);
    }
}

/// The same flag law for a load into X.
pub proof fn lemma_ldx_nz(st: CpuState, am: AddressingMode)
    requires
        spec_ldx(st, am) is Ok,
    ensures
        st.small_index() ==> {
            let v = am.spec_loadb(st)->Ok_0;
            &&& flag(spec_ldx(st, am)->Ok_0.p, ZERO_FLAG) == (v == 0)
            &&& flag(spec_ldx(st, am)->Ok_0.p, NEG_FLAG) == (v & 0x80 != 0)
        },
        !st.small_index() ==> {
            let v = am.spec_loadw(st)->Ok_0;
            &&& flag(spec_ldx(st, am)->Ok_0.p, ZERO_FLAG) == (v == 0)
            &&& flag(spec_ldx(st, am)->Ok_0.p, NEG_FLAG) == (v & 0x8000 != 0)
        },
{
    if st.small_index() {
        lemma_set_nz_8_flags(st.p, am.spec_loadb(st)->Ok_0);
    } else {
        lemma_set_nz_flags(st.p, am.spec_loadw(st)->Ok_0);
    }
}

/// The same flag law for a load into Y.
pub proof fn lemma_ldy_nz(st: CpuState, am: AddressingMode)
    requires
        spec_ldy(st, am) is Ok,
    ensures
        st.small_index() ==> {
            let v = am.spec_loadb(st)->Ok_0;
            &&& flag(spec_ldy(st, am)->Ok_0.p, ZERO_FLAG) == (v == 0)
            &&& flag(spec_ldy(st, am)->Ok_0.p, NEG_FLAG) == (v & 0x80 != 0)
        },
        !st.small_index() ==> {
            let v = am.spec_loadw(st)->Ok_0;
            &&& flag(spec_ldy(st, am)->Ok_0.p, ZERO_FLAG) == (v == 0)
            &&& flag(spec_ldy(st, am)->Ok_0.p, NEG_FLAG) == (v & 0x8000 != 0)
        },
{
    if st.small_index() {
        lemma_set_nz_8_flags(st.p, am.spec_loadb(st)->Ok_0);
    } else {
        lemma_set_nz_flags(st.p, am.spec_loadw(st)->Ok_0);
    }
}

/// AND leaves the zero and negative flags describing the width-appropriate
/// masked result.
pub proof fn lemma_and_nz(st: CpuState, am: AddressingMode)
    requires
        spec_and(st, am) is Ok,
    ensures
        st.small_acc() ==> {
            let res = (st.a as u8) & am.spec_loadb(st)->Ok_0;
            &&& flag(spec_and(st, am)->Ok_0.p, ZERO_FLAG) == (res == 0)
            &&& flag(spec_and(st, am)->Ok_0.p, NEG_FLAG) == (res & 0x80 != 0)
        },
        !st.small_acc() ==> {
            let res = st.a & am.spec_loadw(st)->Ok_0;
            &&& flag(spec_and(st, am)->Ok_0.p, ZERO_FLAG) == (res == 0)
            &&& flag(spec_and(st, am)->Ok_0.p, NEG_FLAG) == (res & 0x8000 != 0)
        },
{
    if st.small_acc() {
        lemma_set_nz_8_flags(st.p, (st.a as u8) & am.spec_loadb(st)->Ok_0);
    } else {
        lemma_set_nz_flags(st.p, st.a & am.spec_loadw(st)->Ok_0);
    }
}

/// Incrementing Y leaves the zero and negative flags describing the
/// width-appropriate incremented value.
pub proof fn lemma_iny_nz(st: CpuState)
    ensures
        st.small_index() ==> {
            let res = vstd::wrapping::u8_specs::wrapping_add(st.y as u8, 1);
            &&& flag(spec_iny(st).p, ZERO_FLAG) == (res == 0)
            &&& flag(spec_iny(st).p, NEG_FLAG) == (res & 0x80 != 0)
        },
        !st.small_index() ==> {
            let res = vstd::wrapping::u16_specs::wrapping_add(st.y, 1);
            &&& flag(spec_iny(st).p, ZERO_FLAG) == (res == 0)
            &&& flag(spec_iny(st).p, NEG_FLAG) == (res & 0x8000 != 0)
        },
{
    if st.small_index() {
        lemma_set_nz_8_flags(st.p, vstd::wrapping::u8_specs::wrapping_add(st.y as u8, 1));
    } else {
        lemma_set_nz_flags(st.p, vstd::wrapping::u16_specs::wrapping_add(st.y, 1));
    }
}

/// A comparison sets the zero flag exactly when the width-appropriate
/// difference is 0 (the operands are equal) and the negative flag exactly
/// from the difference's sign bit.
pub proof fn lemma_compare_nz(p: u8, a: u16, b: u16)
    ensures
        flag(spec_compare(p, a, b), ZERO_FLAG) == (vstd::wrapping::u16_specs::wrapping_sub(a, b)
            == 0),
        flag(spec_compare(p, a, b), NEG_FLAG) == (vstd::wrapping::u16_specs::wrapping_sub(a, b)
            & 0x8000 != 0),
{
    assert(flag(spec_compare(p, a, b), ZERO_FLAG) == (a == b) && flag(
        spec_compare(p, a, b),
        NEG_FLAG,
    ) == (vstd::wrapping::u16_specs::wrapping_sub(a, b) & 0x8000 != 0)) by (bit_vector);
}

/// The 8-bit comparison flag law.
pub proof fn lemma_compare8_nz(p: u8, a: u8, b: u8)
    ensures
        flag(spec_compare8(p, a, b), ZERO_FLAG) == (vstd::wrapping::u8_specs::wrapping_sub(a, b)
            == 0),
        flag(spec_compare8(p, a, b), NEG_FLAG) == (vstd::wrapping::u8_specs::wrapping_sub(a, b)
            & 0x80 != 0),
{
    assert(flag(spec_compare8(p, a, b), ZERO_FLAG) == (a == b) && flag(
        spec_compare8(p, a, b),
        NEG_FLAG,
    ) == (vstd::wrapping::u8_specs::wrapping_sub(a, b) & 0x80 != 0)) by (bit_vector);
}

/// Splitting a word into its bytes and recombining them is the identity.
pub proof fn lemma_word_split(v: u16)
    ensures
        256 * ((v >> 8) as u8) + (v as u8) == v,
{
    assert(256 * ((v >> 8) as u8) + (v as u8) == v) by (bit_vector);
}

/// Popping undoes pushing on the stack pointer, in either mode.
pub proof fn lemma_pop_of_push_s(s: u16)
    ensures
        spec_pop_s(spec_push_s(s, true), true) == s,
        spec_pop_s(spec_push_s(s, false), false) == s,
{
    assert(spec_pop_s(spec_push_s(s, true), true) == s && spec_pop_s(spec_push_s(s, false), false)
        == s) by (bit_vector);
}

/// Pushing moves the stack pointer: the pushed byte's slot differs from the
/// slot the next push writes.
pub proof fn lemma_push_s_moves(s: u16)
    ensures
        spec_push_s(s, true) != s,
        spec_push_s(s, false) != s,
{
    assert(spec_push_s(s, true) != s && spec_push_s(s, false) != s) by (bit_vector);
}

/// Stack discipline for words: pushing a 16-bit value and popping it returns
/// the original value and leaves the stack pointer unchanged.
pub proof fn lemma_stack_word_roundtrip(st: CpuState, v: u16)
    ensures
        spec_popw(spec_pushw(st, v)).1 == v,
        spec_popw(spec_pushw(st, v)).0.s == st.s,
{
    let hi = (v >> 8) as u8;
    let lo = v as u8;
    let st1 = spec_pushb(st, hi);
    let st2 = spec_pushb(st1, lo);
    lemma_pop_of_push_s(st1.s);
    lemma_pop_of_push_s(st.s);
    lemma_push_s_moves(st.s);
    assert(spec_popb(st2).0.s == st1.s);
    assert(spec_popb(st2).1 == lo);
    assert(spec_popb(spec_popb(st2).0).1 == hi);
    lemma_hi_lo_word(hi, lo);
    lemma_word_split(v);
}

/// Stack discipline for bytes: pushing byte `a` then byte `b` pops `b` then
/// `a` (last in, first out), and the stack pointer comes back unchanged.
pub proof fn lemma_stack_byte_lifo(st: CpuState, a: u8, b: u8)
    ensures
        spec_popb(spec_pushb(spec_pushb(st, a), b)).1 == b,
        spec_popb(spec_popb(spec_pushb(spec_pushb(st, a), b)).0).1 == a,
        spec_popb(spec_popb(spec_pushb(spec_pushb(st, a), b)).0).0.s == st.s,
{
    let st1 = spec_pushb(st, a);
    let st2 = spec_pushb(st1, b);
    lemma_pop_of_push_s(st1.s);
    lemma_pop_of_push_s(st.s);
    lemma_push_s_moves(st.s);
}


/// Pulling the accumulator leaves the zero and negative flags describing the
/// width-appropriate popped value.
pub proof fn lemma_pla_nz(st: CpuState)
    requires
        spec_pla(st) is Ok,
    ensures
        st.small_acc() ==> {
            let v = spec_popb(st).1;
            &&& flag(spec_pla(st)->Ok_0.p, ZERO_FLAG) == (v == 0)
            &&& flag(spec_pla(st)->Ok_0.p, NEG_FLAG) == (v & 0x80 != 0)
        },
        !st.small_acc() ==> {
            let v = spec_popw(st).1;
            &&& flag(spec_pla(st)->Ok_0.p, ZERO_FLAG) == (v == 0)
            &&& flag(spec_pla(st)->Ok_0.p, NEG_FLAG) == (v & 0x8000 != 0)
        },
{
    if st.small_acc() {
        lemma_set_nz_8_flags(st.p, spec_popb(st).1);
    } else {
        lemma_set_nz_flags(st.p, spec_popw(st).1);
    }
}

/// The accumulator-to-X transfer leaves the flags describing the
/// width-appropriate transferred value.
pub proof fn lemma_tax_nz(st: CpuState)
    ensures
        ({
            let aval = if st.small_acc() { st.a & 0xff } else { st.a };
            if st.small_index() {
                flag(spec_tax(st).p, ZERO_FLAG) == (aval as u8 == 0) && flag(
                    spec_tax(st).p,
                    NEG_FLAG,
                ) == ((aval as u8) & 0x80 != 0)
            } else {
                flag(spec_tax(st).p, ZERO_FLAG) == (aval == 0) && flag(spec_tax(st).p, NEG_FLAG)
                    == (aval & 0x8000 != 0)
            }
        }),
{
    let aval = if st.small_acc() { st.a & 0xff } else { st.a };
    if st.small_index() {
        lemma_set_nz_8_flags(st.p, aval as u8);
    } else {
        lemma_set_nz_flags(st.p, aval);
    }
}

/// Rotating the accumulator leaves the flags describing the rotated value.
pub proof fn lemma_rol_a_nz(st: CpuState)
    ensures
        st.small_acc() ==> {
            let res = ((st.a as u8) << 1) | ((st.a as u8) >> 7);
            &&& flag(spec_rol_a(st).p, ZERO_FLAG) == (res == 0)
            &&& flag(spec_rol_a(st).p, NEG_FLAG) == (res & 0x80 != 0)
        },
        !st.small_acc() ==> {
            let res = (st.a << 1) | (st.a >> 15);
            &&& flag(spec_rol_a(st).p, ZERO_FLAG) == (res == 0)
            &&& flag(spec_rol_a(st).p, NEG_FLAG) == (res & 0x8000 != 0)
        },
{
    if st.small_acc() {
        lemma_set_nz_8_flags(
            set_flag(st.p, CARRY_FLAG, st.a & 0x80 != 0),
            ((st.a as u8) << 1) | ((st.a as u8) >> 7),
        );
    } else {
        lemma_set_nz_flags(
            set_flag(st.p, CARRY_FLAG, st.a & 0x8000 != 0),
            (st.a << 1) | (st.a >> 15),
        );
    }
}

/// The accumulator-to-direct-page transfer leaves the flags describing the
/// full 16-bit value moved.
pub proof fn lemma_tcd_nz(st: CpuState)
    ensures
        flag(spec_tcd(st).p, ZERO_FLAG) == (st.a == 0),
        flag(spec_tcd(st).p, NEG_FLAG) == (st.a & 0x8000 != 0),
{
    lemma_set_nz_flags(st.p, st.a);
}


/// Add-with-carry leaves the zero and negative flags describing the
/// width-appropriate sum.
pub proof fn lemma_adc_nz(st: CpuState, am: AddressingMode)
    requires
        spec_adc(st, am) is Ok,
    ensures
        st.small_acc() ==> {
            let c: u16 = if flag(st.p, CARRY_FLAG) { 1 } else { 0 };
            let res = (((st.a as u8) as u16) + (am.spec_loadb(st)->Ok_0 as u16) + c) as u8;
            &&& flag(spec_adc(st, am)->Ok_0.p, ZERO_FLAG) == (res == 0)
            &&& flag(spec_adc(st, am)->Ok_0.p, NEG_FLAG) == (res & 0x80 != 0)
        },
        !st.small_acc() ==> {
            let c: u16 = if flag(st.p, CARRY_FLAG) { 1 } else { 0 };
            let res = ((st.a as u32) + (am.spec_loadw(st)->Ok_0 as u32) + (c as u32)) as u16;
            &&& flag(spec_adc(st, am)->Ok_0.p, ZERO_FLAG) == (res == 0)
            &&& flag(spec_adc(st, am)->Ok_0.p, NEG_FLAG) == (res & 0x8000 != 0)
        },
{
    let c: u16 = if flag(st.p, CARRY_FLAG) { 1 } else { 0 };
    if st.small_acc() {
        let a8 = st.a as u8;
        let val = am.spec_loadb(st)->Ok_0;
        let sum = ((a8 as u16) + (val as u16) + c) as u16;
        let res = sum as u8;
        let p2 = set_flag(
            set_flag(st.p, CARRY_FLAG, sum > 255),
            OVERFLOW_FLAG,
            (a8 ^ val) & 0x80 == 0 && (a8 ^ res) & 0x80 == 0x80,
        );
        lemma_set_nz_8_flags(p2, res);
        let av = st.a;
        assert(((((av as u8) as u16) + (val as u16) + c) as u16) as u8 == (((av as u8) as u16) + (
        val as u16) + c) as u8) by (bit_vector);
    } else {
        let val = am.spec_loadw(st)->Ok_0;
        let sum = ((st.a as u32) + (val as u32) + (c as u32)) as u32;
        let res = sum as u16;
        let p2 = set_flag(
            set_flag(st.p, CARRY_FLAG, sum > 65535),
            OVERFLOW_FLAG,
            (st.a ^ val) & 0x8000 == 0 && (st.a ^ res) & 0x8000 == 0x8000,
        );
        lemma_set_nz_flags(p2, res);
        let av = st.a;
        assert((((av as u32) + (val as u32) + (c as u32)) as u32) as u16 == ((av as u32) + (
        val as u32) + (c as u32)) as u16) by (bit_vector);
    }
}

/// Transferring the accumulator to the stack pointer keeps the stack inside
/// page 1 in emulation mode.
pub proof fn lemma_tcs_keeps_stack_ok(st: CpuState)
    requires
        stack_ok(st),
    ensures
        stack_ok(spec_tcs(st)),
{
    if st.emulation {
        let a = st.a;
        assert((0x0100u16 | (a & 0xff)) & 0xff00 == 0x0100) by (bit_vector);
    }
}


/// Popping a word keeps the stack inside page 1 in emulation mode.
pub proof fn lemma_popw_keeps_stack_ok(st: CpuState)
    requires
        stack_ok(st),
    ensures
        stack_ok(spec_popw(st).0),
{
    lemma_pop_keeps_stack_ok(st);
    lemma_pop_keeps_stack_ok(spec_popb(st).0);
}

/// Entering or leaving emulation mode keeps the stack-page invariant:
/// entering clamps, leaving makes it vacuous, staying put changes nothing.
pub proof fn lemma_set_emulation_keeps_stack_ok(st: CpuState, value: bool)
    requires
        stack_ok(st),
    ensures
        stack_ok(spec_set_emulation(st, value)),
{
    if !st.emulation && value {
        lemma_enter_emulation_clamps(st);
    }
}

/// The interrupt entry keeps the stack inside page 1 in emulation mode.
pub proof fn lemma_trigger_nmi_keeps_stack_ok(st: CpuState)
    requires
        spec_trigger_nmi(st) is Ok,
    ensures
        stack_ok(spec_trigger_nmi(st)->Ok_0),
{
    let st1 = if st.emulation {
        st
    } else {
        spec_pushb(st, st.pbr)
    };
    if !st.emulation {
        lemma_push_keeps_stack_ok(st, st.pbr);
    }
    lemma_pushw_keeps_stack_ok(st1, st.pc);
    lemma_push_keeps_stack_ok(spec_pushw(st1, st.pc), st.p);
}

/// The emulation-mode stack-page invariant is preserved by every
/// instruction: whatever one dispatch step does — complete or fault — a
/// stack that sat in page 1 is still in page 1 afterwards.
pub proof fn lemma_dispatch_preserves_stack_page(st: CpuState)
    requires
        stack_ok(st),
    ensures
        match spec_dispatch(st) {
            SpecOutcome::Step(post, _) => stack_ok(post),
            SpecOutcome::Fault(post, _) => stack_ok(post),
        },
{
    let (st1, op) = spec_fetchb(st);
    if op == 0x08 {
        if stack_ok(st1) {
            lemma_push_keeps_stack_ok(st1, st1.p);
        }
    } else if op == 0x28 || op == 0x68 {
        if stack_ok(st1) {
            lemma_pop_keeps_stack_ok(st1);
            lemma_popw_keeps_stack_ok(st1);
        }
    } else if op == 0x48 {
        if stack_ok(st1) {
            lemma_push_keeps_stack_ok(st1, st1.a as u8);
            lemma_pushw_keeps_stack_ok(st1, st1.a);
        }
    } else if op == 0xfb {
        lemma_set_emulation_keeps_stack_ok(
            CpuState { p: set_flag(st1.p, CARRY_FLAG, st1.emulation), ..st1 },
            flag(st1.p, CARRY_FLAG),
        );
    } else if op == 0x1b {
        lemma_tcs_keeps_stack_ok(st1);
    } else if op == 0x20 {
        let (st2, am) = spec_am_absolute(st1);
        if stack_ok(st2) && am.spec_address(st2) is Ok {
            let st3 = spec_pushb(st2, st2.pbr);
            lemma_push_keeps_stack_ok(st2, st2.pbr);
            lemma_push_keeps_stack_ok(st3, (st2.pc >> 8) as u8);
            lemma_push_keeps_stack_ok(spec_pushb(st3, (st2.pc >> 8) as u8), st2.pc as u8);
        }
    } else if op == 0x60 {
        if stack_ok(st1) {
            lemma_pop_keeps_stack_ok(st1);
            lemma_pop_keeps_stack_ok(spec_popb(st1).0);
            lemma_pop_keeps_stack_ok(spec_popb(spec_popb(st1).0).0);
        }
    }
}

} // verus!
