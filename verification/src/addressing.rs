//! Addressing-mode definitions: decoding an operand specifier into an
//! effective (bank, offset) pair, and the load/store accessors that go
//! through the bus for non-immediate modes.

use vstd::prelude::*;
use crate::cpu::{addr24, AddressSpace, Cpu, CpuState, Trap};

verus! {

/// A decoded operand specifier. Each value is produced by decoding the bytes
/// following an opcode and consumed exactly once by the instruction that
/// decoded it: the load and store accessors take the mode by value, so using
/// one twice requires an explicit `.clone()` (`Copy` is not implemented).
#[derive(Clone)]
pub enum AddressingMode {
    /// A 16-bit literal operand.
    Immediate(u16),
    /// An 8-bit literal operand.
    Immediate8(u8),
    /// Absolute offset in the current data bank: (DBR, <val>).
    Absolute(u16),
    /// Absolute offset indexed by X: (DBR, <val> + X).
    AbsIndexedX(u16),
    /// Absolute long indexed by X: (<bank>, <val>) + X, carried out in the
    /// full 24-bit space.
    AbsLongIndexedX(u8, u16),
    /// Absolute offset in an explicit bank (DBR is not consulted):
    /// (<bank>, <val>).
    AbsoluteLong(u8, u16),
    /// Direct page: (0, D + <val>), wrapping inside the bank.
    Direct(u8),
    /// Direct page indexed by X: (0, D + <val> + X), wrapping inside the bank.
    DirectIndexedX(u8),
    /// PC-relative, used for branches: (PBR, PC + <val>), wrapping inside
    /// the bank.
    Rel(i8),
    /// Direct indirect indexed long: a 24-bit base address is read
    /// little-endian from D + <val> in bank 0, and Y is added to it in the
    /// full 24-bit space.
    IndirectLongIdx(u8),
}

impl AddressingMode {
    /// Whether this mode carries a literal operand instead of naming memory.
    pub open spec fn is_immediate(self) -> bool {
        self matches AddressingMode::Immediate(_) || self matches AddressingMode::Immediate8(_)
    }

    /// The effective (bank, offset) pair this mode names in the given CPU
    /// state, or the fault that computing it raises: taking the address of an
    /// immediate, or indexing past the 24-bit address space.
    pub open spec fn spec_address(self, st: CpuState) -> Result<(u8, u16), Trap> {
        match self {
            AddressingMode::Immediate(_) => Err(Trap::AddressOfImmediate),
            AddressingMode::Immediate8(_) => Err(Trap::AddressOfImmediate),
            AddressingMode::Absolute(addr) => Ok((st.dbr, addr)),
            AddressingMode::AbsoluteLong(bank, addr) => Ok((bank, addr)),
            AddressingMode::AbsLongIndexedX(bank, addr) => {
                let eff = (((bank as u32) << 16) | (addr as u32)) + st.x;
                if eff > 0xffffff {
                    Err(Trap::AddressOverflow)
                } else {
                    Ok(((((eff as u32) >> 16) as u8), (eff as u32) as u16))
                }
            },
            AddressingMode::AbsIndexedX(offset) => {
                if offset + st.x > 0xffff {
                    Err(Trap::AddressOverflow)
                } else {
                    Ok((st.dbr, (offset + st.x) as u16))
                }
            },
            AddressingMode::Rel(rel) => Ok(
                (st.pbr, ((st.pc as i32) + (rel as i32)) as u16),
            ),
            AddressingMode::Direct(offset) => Ok(
                (0, vstd::wrapping::u16_specs::wrapping_add(st.d, offset as u16)),
            ),
            AddressingMode::DirectIndexedX(offset) => Ok(
                (
                    0,
                    vstd::wrapping::u16_specs::wrapping_add(
                        vstd::wrapping::u16_specs::wrapping_add(st.d, offset as u16),
                        st.x,
                    ),
                ),
            ),
            AddressingMode::IndirectLongIdx(offset) => {
                let addr_ptr = vstd::wrapping::u16_specs::wrapping_add(st.d, offset as u16);
                if addr_ptr > 0xfffd {
                    Err(Trap::AddressOverflow)
                } else {
                    let lo = st.mem[addr24(0, addr_ptr)];
                    let hi = st.mem[addr24(0, (addr_ptr + 1) as u16)];
                    let bank = st.mem[addr24(0, (addr_ptr + 2) as u16)];
                    let base = ((bank as u32) << 16) | ((hi as u32) << 8) | (lo as u32);
                    let eff = base + st.y;
                    if eff > 0xffffff {
                        Err(Trap::AddressOverflow)
                    } else {
                        Ok(((((eff as u32) >> 16) as u8), (eff as u32) as u16))
                    }
                }
            },
        }
    }

    /// The byte this mode yields: the literal for an 8-bit immediate, the
    /// addressed memory byte otherwise. A 16-bit immediate is a usage fault.
    pub open spec fn spec_loadb(self, st: CpuState) -> Result<u8, Trap> {
        match self {
            AddressingMode::Immediate(_) => Err(Trap::AccessorWidthMismatch),
            AddressingMode::Immediate8(val) => Ok(val),
            _ => match self.spec_address(st) {
                Ok((bank, addr)) => Ok(st.mem[addr24(bank, addr)]),
                Err(t) => Err(t),
            },
        }
    }

    /// The word this mode yields, little-endian. An 8-bit immediate is a
    /// usage fault, and a word whose low byte sits on the last byte of a
    /// 64KB bank faults rather than silently wrapping.
    pub open spec fn spec_loadw(self, st: CpuState) -> Result<u16, Trap> {
        match self {
            AddressingMode::Immediate(val) => Ok(val),
            AddressingMode::Immediate8(_) => Err(Trap::AccessorWidthMismatch),
            _ => match self.spec_address(st) {
                Ok((bank, addr)) => if addr >= 0xffff {
                    Err(Trap::WordAtBankEnd)
                } else {
                    let lo = st.mem[addr24(bank, addr)];
                    let hi = st.mem[addr24(bank, (addr + 1) as u16)];
                    Ok(((hi as u16) << 8) | (lo as u16))
                },
                Err(t) => Err(t),
            },
        }
    }

    /// The state after this mode's effective address has been written with
    /// one byte.
    pub open spec fn spec_storeb(self, st: CpuState, value: u8) -> Result<CpuState, Trap> {
        match self.spec_address(st) {
            Ok((bank, addr)) => Ok(
                CpuState { mem: st.mem.insert(addr24(bank, addr), value), ..st },
            ),
            Err(t) => Err(t),
        }
    }

    /// The state after this mode's effective address has been written with a
    /// little-endian word; the same bank-boundary rule as for word loads.
    pub open spec fn spec_storew(self, st: CpuState, value: u16) -> Result<CpuState, Trap> {
        match self.spec_address(st) {
            Ok((bank, addr)) => if addr >= 0xffff {
                Err(Trap::WordAtBankEnd)
            } else {
                Ok(
                    CpuState {
                        mem: st.mem.insert(addr24(bank, addr), value as u8).insert(
                            addr24(bank, (addr + 1) as u16),
                            (value >> 8) as u8,
                        ),
                        ..st
                    },
                )
            },
            Err(t) => Err(t),
        }
    }

    /// Computes the effective address, reporting the faults the computation
    /// can raise instead of aborting. Register state is left untouched; only
    /// the indirect mode reads memory, which the bus model leaves unchanged.
    pub fn try_address<M: AddressSpace>(&self, cpu: &mut Cpu<M>) -> (r: Result<(u8, u16), Trap>)
        ensures
            final(cpu).st() == old(cpu).st(),
            r == self.spec_address(old(cpu).st()),
    {
        match *self {
            AddressingMode::Absolute(addr) => Ok((cpu.dbr, addr)),
            AddressingMode::AbsoluteLong(bank, addr) => Ok((bank, addr)),
            AddressingMode::AbsLongIndexedX(bank, addr) => {
                let a = ((bank as u32) << 16) | (addr as u32);
                proof {
                    assert((((bank as u32) << 16) | (addr as u32)) <= 0xffffff) by (bit_vector);
                }
                let eff_addr = a + (cpu.x as u32);
                if eff_addr & 0xff000000 != 0 {
                    proof {
                        assert(eff_addr & 0xff000000 != 0 <==> eff_addr > 0xffffff)
                            by (bit_vector)
                            requires eff_addr <= 0x100fffe,
                        ;
                    }
                    Err(Trap::AddressOverflow)
                } else {
                    proof {
                        assert(eff_addr & 0xff000000 != 0 <==> eff_addr > 0xffffff)
                            by (bit_vector)
                            requires eff_addr <= 0x100fffe,
                        ;
                    }
                    Ok(((eff_addr >> 16) as u8, eff_addr as u16))
                }
            },
            AddressingMode::AbsIndexedX(offset) => {
                match offset.checked_add(cpu.x) {
                    Some(addr) => Ok((cpu.dbr, addr)),
                    None => Err(Trap::AddressOverflow),
                }
            },
            AddressingMode::Rel(rel) => Ok((cpu.pbr, ((cpu.pc as i32) + (rel as i32)) as u16)),
            AddressingMode::Direct(offset) => Ok((0, cpu.d.wrapping_add(offset as u16))),
            AddressingMode::DirectIndexedX(offset) => Ok(
                (0, cpu.d.wrapping_add(offset as u16).wrapping_add(cpu.x)),
            ),
            AddressingMode::IndirectLongIdx(offset) => {
                let addr_ptr = cpu.d.wrapping_add(offset as u16);
                if addr_ptr > 0xfffd {
                    return Err(Trap::AddressOverflow);
                }
                let lo = cpu.mem.load(0, addr_ptr) as u32;
                let hi = cpu.mem.load(0, addr_ptr + 1) as u32;
                let bank = cpu.mem.load(0, addr_ptr + 2) as u32;
                let base_address = (bank << 16) | (hi << 8) | lo;
                proof {
                    assert(((bank << 16) | (hi << 8) | lo) <= 0xffffff)
                        by (bit_vector)
                        requires bank <= 0xff && hi <= 0xff && lo <= 0xff,
                    ;
                }
                let eff_addr = base_address + (cpu.y as u32);
                if eff_addr & 0xff000000 != 0 {
                    proof {
                        assert(eff_addr & 0xff000000 != 0 <==> eff_addr > 0xffffff)
                            by (bit_vector)
                            requires eff_addr <= 0x100fffe,
                        ;
                    }
                    Err(Trap::AddressOverflow)
                } else {
                    proof {
                        assert(eff_addr & 0xff000000 != 0 <==> eff_addr > 0xffffff)
                            by (bit_vector)
                            requires eff_addr <= 0x100fffe,
                        ;
                    }
                    Ok(((eff_addr >> 16) as u8, eff_addr as u16))
                }
            },
            AddressingMode::Immediate(_) => Err(Trap::AddressOfImmediate),
            AddressingMode::Immediate8(_) => Err(Trap::AddressOfImmediate),
        }
    }

    /// Computes the effective address as a bank-offset pair. Invoking this on
    /// an immediate mode, or indexing past the 24-bit space, is a usage error
    /// ruled out by the precondition.
    pub fn address<M: AddressSpace>(&self, cpu: &mut Cpu<M>) -> (r: (u8, u16))
        requires
            self.spec_address(old(cpu).st()) is Ok,
        ensures
            final(cpu).st() == old(cpu).st(),
            Ok::<(u8, u16), Trap>(r) == self.spec_address(old(cpu).st()),
    {
        match self.try_address(cpu) {
            Ok(a) => a,
            Err(_) => unreached(),
        }
    }

    /// Loads the byte this mode yields, reporting faults instead of aborting.
    pub fn try_loadb<M: AddressSpace>(self, cpu: &mut Cpu<M>) -> (r: Result<u8, Trap>)
        ensures
            final(cpu).st() == old(cpu).st(),
            r == self.spec_loadb(old(cpu).st()),
    {
        match self {
            AddressingMode::Immediate(_) => Err(Trap::AccessorWidthMismatch),
            AddressingMode::Immediate8(val) => Ok(val),
            _ => match self.try_address(cpu) {
                Ok((bank, addr)) => Ok(cpu.mem.load(bank, addr)),
                Err(t) => Err(t),
            },
        }
    }

    /// Loads the word this mode yields, reporting faults instead of aborting.
    pub fn try_loadw<M: AddressSpace>(self, cpu: &mut Cpu<M>) -> (r: Result<u16, Trap>)
        ensures
            final(cpu).st() == old(cpu).st(),
            r == self.spec_loadw(old(cpu).st()),
    {
        match self {
            AddressingMode::Immediate(val) => Ok(val),
            AddressingMode::Immediate8(_) => Err(Trap::AccessorWidthMismatch),
            _ => match self.try_address(cpu) {
                Ok((bank, addr)) => {
                    if addr >= 0xffff {
                        return Err(Trap::WordAtBankEnd);
                    }
                    let lo = cpu.mem.load(bank, addr) as u16;
                    let hi = cpu.mem.load(bank, addr + 1) as u16;
                    Ok((hi << 8) | lo)
                },
                Err(t) => Err(t),
            },
        }
    }

    /// Stores a byte through this mode, reporting faults instead of aborting.
    pub fn try_storeb<M: AddressSpace>(self, cpu: &mut Cpu<M>, value: u8) -> (r: Result<
        (),
        Trap,
    >)
        ensures
            match self.spec_storeb(old(cpu).st(), value) {
                Ok(st2) => r is Ok && final(cpu).st() == st2,
                Err(t) => r == Err::<(), Trap>(t) && final(cpu).st() == old(cpu).st(),
            },
    {
        match self.try_address(cpu) {
            Ok((bank, addr)) => {
                cpu.mem.store(bank, addr, value);
                Ok(())
            },
            Err(t) => Err(t),
        }
    }

    /// Stores a word through this mode, reporting faults instead of aborting.
    pub fn try_storew<M: AddressSpace>(self, cpu: &mut Cpu<M>, value: u16) -> (r: Result<
        (),
        Trap,
    >)
        ensures
            match self.spec_storew(old(cpu).st(), value) {
                Ok(st2) => r is Ok && final(cpu).st() == st2,
                Err(t) => r == Err::<(), Trap>(t) && final(cpu).st() == old(cpu).st(),
            },
    {
        match self.try_address(cpu) {
            Ok((bank, addr)) => {
                if addr >= 0xffff {
                    return Err(Trap::WordAtBankEnd);
                }
                cpu.mem.store(bank, addr, value as u8);
                cpu.mem.store(bank, addr + 1, (value >> 8) as u8);
                Ok(())
            },
            Err(t) => Err(t),
        }
    }

    /// Loads a byte from where this mode points (or returns the immediate
    /// value). Applying it to a 16-bit immediate is a usage error ruled out
    /// by the precondition.
    pub fn loadb<M: AddressSpace>(self, cpu: &mut Cpu<M>) -> (r: u8)
        requires
            self.spec_loadb(old(cpu).st()) is Ok,
        ensures
            final(cpu).st() == old(cpu).st(),
            Ok::<u8, Trap>(r) == self.spec_loadb(old(cpu).st()),
    {
        match self.try_loadb(cpu) {
            Ok(v) => v,
            Err(_) => unreached(),
        }
    }

    /// Loads a 16-bit word from where this mode points (or returns the
    /// immediate value). Applying it to an 8-bit immediate, or to an address
    /// on the last byte of a bank, is a usage error ruled out by the
    /// precondition.
    pub fn loadw<M: AddressSpace>(self, cpu: &mut Cpu<M>) -> (r: u16)
        requires
            self.spec_loadw(old(cpu).st()) is Ok,
        ensures
            final(cpu).st() == old(cpu).st(),
            Ok::<u16, Trap>(r) == self.spec_loadw(old(cpu).st()),
    {
        match self.try_loadw(cpu) {
            Ok(v) => v,
            Err(_) => unreached(),
        }
    }

    /// Stores a byte through this mode; undefined on immediates, which the
    /// precondition rules out.
    pub fn storeb<M: AddressSpace>(self, cpu: &mut Cpu<M>, value: u8)
        requires
            self.spec_storeb(old(cpu).st(), value) is Ok,
        ensures
            Ok::<CpuState, Trap>(final(cpu).st()) == self.spec_storeb(old(cpu).st(), value),
    {
        let r = self.try_storeb(cpu, value);
        proof {
            assert(r is Ok);
        }
    }

    /// Stores a word through this mode; undefined on immediates and on the
    /// last byte of a bank, which the precondition rules out.
    pub fn storew<M: AddressSpace>(self, cpu: &mut Cpu<M>, value: u16)
        requires
            self.spec_storew(old(cpu).st(), value) is Ok,
        ensures
            Ok::<CpuState, Trap>(final(cpu).st()) == self.spec_storew(old(cpu).st(), value),
    {
        let r = self.try_storew(cpu, value);
        proof {
            assert(r is Ok);
        }
    }
}


/// Addressing round trip, byte form: storing a value through any
/// non-immediate addressing mode and loading it back through the same
/// effective address yields the original value. The one hypothesis beyond
/// the store's success is that the effective address is indeed the same
/// afterwards, which holds of every mode that does not read its pointer from
/// the memory the store just changed.
pub proof fn lemma_storeb_loadb_roundtrip(st: CpuState, am: AddressingMode, value: u8)
    requires
        !am.is_immediate(),
        am.spec_storeb(st, value) is Ok,
        am.spec_address(am.spec_storeb(st, value)->Ok_0) == am.spec_address(st),
    ensures
        am.spec_loadb(am.spec_storeb(st, value)->Ok_0) == Ok::<u8, Trap>(value),
{
}

/// Addressing round trip, word form: storing a 16-bit value and loading it
/// back through the same effective address yields the original value.
pub proof fn lemma_storew_loadw_roundtrip(st: CpuState, am: AddressingMode, value: u16)
    requires
        !am.is_immediate(),
        am.spec_storew(st, value) is Ok,
        am.spec_address(am.spec_storew(st, value)->Ok_0) == am.spec_address(st),
    ensures
        am.spec_loadw(am.spec_storew(st, value)->Ok_0) == Ok::<u16, Trap>(value),
{
    let st2 = am.spec_storew(st, value)->Ok_0;
    let (bank, addr) = am.spec_address(st)->Ok_0;
    assert(addr24(bank, addr) != addr24(bank, (addr + 1) as u16));
    crate::cpu::lemma_hi_lo_word(((value >> 8) as u8), value as u8);
    crate::cpu::lemma_word_split(value);
}

/// A store through a mode that computes its address from registers alone
/// (every mode but the direct-indirect-indexed one) leaves that address
/// unchanged, so the round trip above applies to it without further ado.
pub proof fn lemma_register_modes_keep_address(st: CpuState, am: AddressingMode, m2: Map<int, u8>)
    requires
        !(am is IndirectLongIdx),
    ensures
        am.spec_address(CpuState { mem: m2, ..st }) == am.spec_address(st),
{
}


/// The character a 4-bit value prints as, upper case.
pub open spec fn hex_digit(n: u8) -> char {
    if n == 0 { '0' } else if n == 1 { '1' } else if n == 2 { '2' } else if n == 3 { '3' }
    else if n == 4 { '4' } else if n == 5 { '5' } else if n == 6 { '6' } else if n == 7 { '7' }
    else if n == 8 { '8' } else if n == 9 { '9' } else if n == 10 { 'A' } else if n == 11 { 'B' }
    else if n == 12 { 'C' } else if n == 13 { 'D' } else if n == 14 { 'E' } else { 'F' }
}

/// A byte as two upper-case hex characters.
pub open spec fn hex2(v: u8) -> Seq<char> {
    seq![hex_digit(v >> 4), hex_digit(v & 0xf)]
}

/// A word as four upper-case hex characters.
pub open spec fn hex4(v: u16) -> Seq<char> {
    hex2((v >> 8) as u8) + hex2(v as u8)
}

/// A nonnegative number's decimal digits, most significant first; empty
/// for 0.
pub open spec fn dec_digits(n: int) -> Seq<char>
    decreases n,
{
    if n <= 0 {
        Seq::empty()
    } else {
        dec_digits(n / 10) + seq![hex_digit((n % 10) as u8)]
    }
}

/// A signed displacement with an explicit sign, the way branch operands
/// print: "+5", "-3", "+0".
pub open spec fn rel_digits(r: i8) -> Seq<char> {
    let m = if r >= 0 {
        r as int
    } else {
        -(r as int)
    };
    (if r >= 0 {
        ("+")@
    } else {
        ("-")@
    }) + (if m == 0 {
        ("0")@
    } else {
        dec_digits(m)
    })
}

/// The one-character string of a 4-bit value, upper case.
fn hex_digit_str(n: u8) -> (r: &'static str)
    requires
        n < 16,
    ensures
        r@ == seq![hex_digit(n)],
{
    proof {
        reveal_strlit("0");
        reveal_strlit("1");
        reveal_strlit("2");
        reveal_strlit("3");
        reveal_strlit("4");
        reveal_strlit("5");
        reveal_strlit("6");
        reveal_strlit("7");
        reveal_strlit("8");
        reveal_strlit("9");
        reveal_strlit("A");
        reveal_strlit("B");
        reveal_strlit("C");
        reveal_strlit("D");
        reveal_strlit("E");
        reveal_strlit("F");
    }
    let r = if n == 0 { "0" } else if n == 1 { "1" } else if n == 2 { "2" } else if n == 3 { "3" }
    else if n == 4 { "4" } else if n == 5 { "5" } else if n == 6 { "6" } else if n == 7 { "7" }
    else if n == 8 { "8" } else if n == 9 { "9" } else if n == 10 { "A" } else if n == 11 { "B" }
    else if n == 12 { "C" } else if n == 13 { "D" } else if n == 14 { "E" } else { "F" };
    proof {
        assert(r@ =~= seq![hex_digit(n)]);
    }
    r
}

/// Appends a byte as two hex characters.
fn push_hex2(s: &mut String, v: u8)
    ensures
        final(s)@ == old(s)@ + hex2(v),
{
    proof {
        assert(v >> 4 < 16 && (v & 0xf) < 16) by (bit_vector);
    }
    s.append(hex_digit_str(v >> 4));
    s.append(hex_digit_str(v & 0xf));
    proof {
        assert(final(s)@ =~= old(s)@ + hex2(v));
    }
}

/// Appends a word as four hex characters.
fn push_hex4(s: &mut String, v: u16)
    ensures
        final(s)@ == old(s)@ + hex4(v),
{
    push_hex2(s, (v >> 8) as u8);
    push_hex2(s, v as u8);
    proof {
        assert(final(s)@ =~= old(s)@ + hex4(v));
    }
}

/// Appends a nonnegative number's decimal digits (nothing for 0).
fn push_dec(s: &mut String, n: u8)
    ensures
        final(s)@ == old(s)@ + dec_digits(n as int),
    decreases n,
{
    if n > 0 {
        push_dec(s, n / 10);
        proof {
            assert(n % 10 < 16) by (bit_vector);
        }
        s.append(hex_digit_str(n % 10));
        proof {
            assert(final(s)@ =~= old(s)@ + dec_digits(n as int));
        }
    }
}

impl AddressingMode {
    /// How this mode prints in a trace: the operand in upper-case hex with
    /// the mode's own punctuation, or an explicitly signed decimal
    /// displacement for the PC-relative mode.
    pub open spec fn spec_format(self) -> Seq<char> {
        match self {
            AddressingMode::Immediate(val) => ("#$")@ + hex4(val),
            AddressingMode::Immediate8(val) => ("#$")@ + hex2(val),
            AddressingMode::Absolute(addr) => ("$")@ + hex4(addr),
            AddressingMode::AbsoluteLong(bank, addr) => ("$")@ + hex2(bank) + (":")@ + hex4(addr),
            AddressingMode::AbsLongIndexedX(bank, addr) => ("$")@ + hex2(bank) + (":")@ + hex4(
                addr,
            ) + (",x")@,
            AddressingMode::AbsIndexedX(offset) => ("$")@ + hex4(offset) + (",x")@,
            AddressingMode::Rel(rel) => rel_digits(rel),
            AddressingMode::Direct(offset) => ("$")@ + hex2(offset),
            AddressingMode::DirectIndexedX(offset) => ("$")@ + hex2(offset) + (",x")@,
            AddressingMode::IndirectLongIdx(offset) => ("[$")@ + hex2(offset) + ("],y")@,
        }
    }

    /// Renders this mode for a trace line. The CPU is not consulted; the
    /// parameter mirrors the callers that hold one while tracing.
    pub fn format<M: AddressSpace>(&self, _cpu: &Cpu<M>) -> (r: String)
        ensures
            r@ == self.spec_format(),
    {
        let mut s = String::new();
        match *self {
            AddressingMode::Immediate(val) => {
                s.append("#$");
                push_hex4(&mut s, val);
            },
            AddressingMode::Immediate8(val) => {
                s.append("#$");
                push_hex2(&mut s, val);
            },
            AddressingMode::Absolute(addr) => {
                s.append("$");
                push_hex4(&mut s, addr);
            },
            AddressingMode::AbsoluteLong(bank, addr) => {
                s.append("$");
                push_hex2(&mut s, bank);
                s.append(":");
                push_hex4(&mut s, addr);
            },
            AddressingMode::AbsLongIndexedX(bank, addr) => {
                s.append("$");
                push_hex2(&mut s, bank);
                s.append(":");
                push_hex4(&mut s, addr);
                s.append(",x");
            },
            AddressingMode::AbsIndexedX(offset) => {
                s.append("$");
                push_hex4(&mut s, offset);
                s.append(",x");
            },
            AddressingMode::Rel(rel) => {
                let m: u8 = if rel >= 0 {
                    rel as u8
                } else {
                    ((rel as i16) * -1) as u8
                };
                if rel >= 0 {
                    s.append("+");
                } else {
                    s.append("-");
                }
                if m == 0 {
                    s.append("0");
                } else {
                    push_dec(&mut s, m);
                }
                proof {
                    if rel < 0 {
                        assert(((rel as i16) * -1) as u8 == -(rel as int)) by (bit_vector)
                            requires rel < 0,
                        ;
                    }
                }
            },
            AddressingMode::Direct(offset) => {
                s.append("$");
                push_hex2(&mut s, offset);
            },
            AddressingMode::DirectIndexedX(offset) => {
                s.append("$");
                push_hex2(&mut s, offset);
                s.append(",x");
            },
            AddressingMode::IndirectLongIdx(offset) => {
                s.append("[$");
                push_hex2(&mut s, offset);
                s.append("],y");
            },
        }
        proof {
            assert(s@ =~= self.spec_format());
        }
        s
    }
}

} // verus!
