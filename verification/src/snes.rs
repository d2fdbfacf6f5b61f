//! The whole machine: the CPU, the picture processor and the bus, driven in
//! lock-step by the master-clock scheduler. Each iteration runs one CPU
//! instruction, then pays the audio and picture processors the master cycles
//! they are owed; a vertical-blank event with interrupts enabled delivers a
//! non-maskable interrupt at once, even if picture cycles remain owed.

use vstd::prelude::*;
use crate::cpu::{
    spec_dispatch, spec_trigger_nmi, addr24, AddressSpace, Cpu, CpuState, SpecOutcome, Trap,
};
use crate::ppu::{same_but_beam, spec_dot_step, Ppu, DOT_MASTER_CYCLES, VBLANK_START_LINE};

verus! {

/// Master-clock cycles per audio-processor clock (approximated; the real
/// resonator sits near 20.9).
pub const APU_DIVIDER: i64 = 21;

/// The most master cycles DMA may consume during one instruction's bus
/// accesses: eight channels moving 64KB each, with generous slack.
pub const MAX_DMA_CYCLES: u32 = 0x1000000;

/// The full bus the scheduler drives: the CPU-visible address space plus the
/// collaborators that hang off it. The audio processor is a black box that
/// executes one instruction at a time; the input device latches its state
/// once per vertical blank; DMA cycles stolen during an instruction are
/// collected after it. None of these touch the CPU-visible byte map.
pub trait Bus: AddressSpace {
    /// Whether vertical-blank interrupts are enabled.
    spec fn nmi_enabled_spec(&self) -> bool;

    /// The interrupt-pending flag.
    spec fn nmi_flag_spec(&self) -> bool;

    /// Executes one audio-processor instruction and reports the native
    /// cycles it consumed; an instruction always consumes at least one.
    /// The audio processor does not touch the interrupt state.
    fn apu_step(&mut self) -> (r: u8)
        ensures
            final(self).mem() == old(self).mem(),
            final(self).nmi_enabled_spec() == old(self).nmi_enabled_spec(),
            final(self).nmi_flag_spec() == old(self).nmi_flag_spec(),
            1 <= r,
    ;

    /// Latches the current input state; the input device does not touch the
    /// interrupt state.
    fn latch_input(&mut self)
        ensures
            final(self).mem() == old(self).mem(),
            final(self).nmi_enabled_spec() == old(self).nmi_enabled_spec(),
            final(self).nmi_flag_spec() == old(self).nmi_flag_spec(),
    ;

    /// Reads the interrupt-enable flag.
    fn nmi_enabled(&self) -> (r: bool)
        ensures
            r == self.nmi_enabled_spec(),
    ;

    /// Sets the interrupt-pending flag.
    fn set_nmi_flag(&mut self, v: bool)
        ensures
            final(self).mem() == old(self).mem(),
            final(self).nmi_flag_spec() == v,
            final(self).nmi_enabled_spec() == old(self).nmi_enabled_spec(),
    ;

    /// The master cycles DMA consumed synchronously since the last call,
    /// reset by the call; bounded, since one instruction can start only a
    /// bounded amount of transfer.
    fn take_extra_cycles(&mut self) -> (r: u32)
        ensures
            final(self).mem() == old(self).mem(),
            final(self).nmi_enabled_spec() == old(self).nmi_enabled_spec(),
            final(self).nmi_flag_spec() == old(self).nmi_flag_spec(),
            r <= MAX_DMA_CYCLES,
    ;
}

/// The size of the full 24-bit address space.
pub const RAM_SIZE: usize = 0x1000000;

/// A bus backed by plain RAM across the whole 24-bit space, with an inert
/// audio processor and no DMA: the reference implementation of [`Bus`],
/// enough to run programs and to test the core against.
pub struct RamBus {
    ram: Vec<u8>,
    nmien: bool,
    nmi: bool,
}

impl RamBus {
    #[verifier::type_invariant]
    spec fn type_inv(self) -> bool {
        self.ram@.len() == RAM_SIZE
    }

    /// A bus whose whole address space reads as zero, interrupts disabled.
    pub fn new() -> (r: RamBus)
        ensures
            r.mem() == Map::<int, u8>::new(|i: int| 0 <= i < RAM_SIZE, |i: int| 0u8),
            !r.nmi_enabled_spec(),
            !r.nmi_flag_spec(),
    {
        let mut ram: Vec<u8> = Vec::new();
        let mut i: usize = 0;
        while i < RAM_SIZE
            invariant
                i <= RAM_SIZE,
                ram@.len() == i,
                forall|j: int| 0 <= j < i ==> ram@[j] == 0u8,
            decreases RAM_SIZE - i,
        {
            ram.push(0);
            i += 1;
        }
        let r = RamBus { ram, nmien: false, nmi: false };
        proof {
            assert(r.mem() =~= Map::<int, u8>::new(|i: int| 0 <= i < RAM_SIZE, |i: int| 0u8));
        }
        r
    }

    /// Turns vertical-blank interrupts on or off.
    pub fn set_nmi_enabled(&mut self, v: bool)
        ensures
            final(self).mem() == old(self).mem(),
            final(self).nmi_enabled_spec() == v,
            final(self).nmi_flag_spec() == old(self).nmi_flag_spec(),
    {
        proof {
            use_type_invariant(&*self);
        }
        self.nmien = v;
    }

    /// Reads the interrupt-pending flag.
    pub fn nmi_flag(&self) -> (r: bool)
        ensures
            r == self.nmi_flag_spec(),
    {
        self.nmi
    }
}

impl AddressSpace for RamBus {
    closed spec fn mem(&self) -> Map<int, u8> {
        Map::new(|i: int| 0 <= i < RAM_SIZE, |i: int| self.ram@[i])
    }

    fn load(&mut self, bank: u8, addr: u16) -> (r: u8) {
        proof {
            use_type_invariant(&*self);
        }
        self.ram[(bank as usize) * 0x10000 + (addr as usize)]
    }

    fn store(&mut self, bank: u8, addr: u16, value: u8) {
        proof {
            use_type_invariant(&*self);
        }
        self.ram[(bank as usize) * 0x10000 + (addr as usize)] = value;
        proof {
            assert(self.mem() =~= old(self).mem().insert(addr24(bank, addr), value));
        }
    }
}

impl Bus for RamBus {
    closed spec fn nmi_enabled_spec(&self) -> bool {
        self.nmien
    }

    closed spec fn nmi_flag_spec(&self) -> bool {
        self.nmi
    }

    fn apu_step(&mut self) -> (r: u8) {
        1
    }

    fn latch_input(&mut self) {
    }

    fn nmi_enabled(&self) -> (r: bool) {
        self.nmien
    }

    fn set_nmi_flag(&mut self, v: bool) {
        proof {
            use_type_invariant(&*self);
        }
        self.nmi = v;
    }

    fn take_extra_cycles(&mut self) -> (r: u32) {
        0
    }
}

/// Where a picture-debt drain ends, walking the beam dot by dot from the
/// given position until the debt runs out: the final beam position, the
/// remaining debt, and whether the walk stopped early because it crossed
/// the start of vertical blank while interrupts were enabled (the moment
/// the scheduler delivers the interrupt).
pub open spec fn spec_ppu_drain(x: u16, scanline: u16, debt: int, enabled: bool) -> (
    u16,
    u16,
    int,
    bool,
)
    decreases debt + 3,
{
    if debt <= 0 {
        (x, scanline, debt, false)
    } else {
        let step = spec_dot_step(x, scanline);
        let debt2 = debt - (DOT_MASTER_CYCLES as int);
        if step.0 == 0 && step.1 == VBLANK_START_LINE && enabled {
            (step.0, step.1, debt2, true)
        } else {
            spec_ppu_drain(step.0, step.1, debt2, enabled)
        }
    }
}

/// The machine: CPU (owning the bus), picture processor, and the scheduler's
/// state — the master-cycle counter and the cycle debts owed to the audio
/// and picture processors.
pub struct Snes<B: Bus> {
    pub cpu: Cpu<B>,
    pub ppu: Ppu,
    pub master_cy: u64,
    pub apu_master_cy_debt: i64,
    pub ppu_master_cy_debt: i64,
}

impl<B: Bus> Snes<B> {
    /// Scheduler well-formedness: the picture processor is sound, and each
    /// debt is bounded below by one burst and above by the master counter
    /// (a subsystem can never be owed more than all cycles that ever
    /// passed).
    pub open spec fn wf(&self) -> bool {
        &&& self.ppu.wf()
        &&& -5355 <= self.apu_master_cy_debt <= self.master_cy
        &&& -3 <= self.ppu_master_cy_debt <= self.master_cy
    }

    /// Builds the machine around a bus: the CPU is reset through it (which
    /// fetches the reset vector), the picture processor starts cleared, and
    /// no cycles have passed.
    pub fn new(bus: B) -> (r: Snes<B>)
        ensures
            r.wf(),
            r.cpu.st() == crate::cpu::spec_reset(bus.mem()),
            r.master_cy == 0,
            r.apu_master_cy_debt == 0,
            r.ppu_master_cy_debt == 0,
            r.ppu.spec_cleared(),
    {
        Snes {
            cpu: Cpu::new(bus),
            ppu: Ppu::new(),
            master_cy: 0,
            apu_master_cy_debt: 0,
            ppu_master_cy_debt: 0,
        }
    }

    /// One scheduler iteration: run exactly one CPU instruction, charge its
    /// master cycles (DMA-stolen cycles included) to both debts, then drain
    /// the audio debt in whole audio instructions and the picture debt dot
    /// by dot. A vertical blank latches input, and with interrupts enabled
    /// it marks the interrupt-pending flag, delivers the interrupt to the
    /// CPU exactly once and stops draining at once — the returned flag says
    /// whether that happened. Any CPU fault ends the iteration.
    pub fn run_one(&mut self) -> (r: Result<bool, Trap>)
        requires
            old(self).wf(),
            old(self).master_cy < 0x4000_0000_0000_0000,
        ensures
            final(self).wf(),
            match spec_dispatch(old(self).cpu.st()) {
                SpecOutcome::Fault(post, t) => r == Err::<bool, Trap>(t) && final(self).cpu.st()
                    == post && final(self).master_cy == old(self).master_cy
                    && final(self).apu_master_cy_debt == old(self).apu_master_cy_debt
                    && final(self).ppu_master_cy_debt == old(self).ppu_master_cy_debt
                    && final(self).ppu == old(self).ppu,
                SpecOutcome::Step(post, mcy) => match r {
                    Err(t) => t == Trap::EmulationStackPage && !crate::cpu::stack_ok(post),
                    Ok(delivered) => {
                        let d0 = old(self).ppu_master_cy_debt + final(self).master_cy - old(
                            self,
                        ).master_cy;
                        &&& old(self).master_cy + 12 <= final(self).master_cy
                        &&& final(self).master_cy <= old(self).master_cy + 48 + MAX_DMA_CYCLES
                        &&& same_but_beam(&final(self).ppu, &old(self).ppu)
                        &&& (delivered ==> spec_trigger_nmi(post) == Ok::<CpuState, Trap>(
                            final(self).cpu.st(),
                        ) && final(self).cpu.mem.nmi_flag_spec() && spec_ppu_drain(
                            old(self).ppu.x,
                            old(self).ppu.scanline,
                            d0,
                            true,
                        ) == (
                            final(self).ppu.x,
                            final(self).ppu.scanline,
                            final(self).ppu_master_cy_debt as int,
                            true,
                        ))
                        &&& (!delivered ==> final(self).cpu.st() == post
                            && final(self).apu_master_cy_debt <= APU_DIVIDER
                            && final(self).ppu_master_cy_debt <= 0 && spec_ppu_drain(
                            old(self).ppu.x,
                            old(self).ppu.scanline,
                            d0,
                            final(self).cpu.mem.nmi_enabled_spec(),
                        ) == (
                            final(self).ppu.x,
                            final(self).ppu.scanline,
                            final(self).ppu_master_cy_debt as int,
                            false,
                        ))
                    },
                },
            },
    {
        let mcy = match self.cpu.dispatch() {
            Ok(c) => c,
            Err(t) => {
                return Err(t);
            },
        };
        proof {
            assert(mcy <= 48 && mcy >= 12);
        }
        let extra = self.cpu.mem.take_extra_cycles();
        let cpu_master_cy: i64 = (mcy as i64) + (extra as i64);
        self.master_cy = self.master_cy + (cpu_master_cy as u64);
        self.apu_master_cy_debt = self.apu_master_cy_debt + cpu_master_cy;
        self.ppu_master_cy_debt = self.ppu_master_cy_debt + cpu_master_cy;

        let ghost post_st = self.cpu.st();
        let ghost m1 = self.master_cy;
        let ghost p1 = self.ppu_master_cy_debt;
        let ghost ppu1 = self.ppu;

        while self.apu_master_cy_debt > APU_DIVIDER
            invariant
                self.cpu.st() == post_st,
                self.ppu == ppu1,
                self.master_cy == m1,
                self.ppu_master_cy_debt == p1,
                -5355 <= self.apu_master_cy_debt <= self.master_cy,
            decreases self.apu_master_cy_debt + 5355,
        {
            let c = self.cpu.mem.apu_step();
            self.apu_master_cy_debt = self.apu_master_cy_debt - (c as i64) * APU_DIVIDER;
        }

        let ghost a2 = self.apu_master_cy_debt;
        let ghost e0 = self.cpu.mem.nmi_enabled_spec();
        let mut delivered = false;
        while self.ppu_master_cy_debt > 0
            invariant_except_break
                !delivered,
                match spec_dispatch(old(self).cpu.st()) {
                    SpecOutcome::Step(p, _) => p == post_st,
                    SpecOutcome::Fault(_, _) => false,
                },
                self.cpu.st() == post_st,
                self.cpu.mem.nmi_enabled_spec() == e0,
                self.master_cy == m1,
                self.apu_master_cy_debt == a2,
                -5355 <= self.apu_master_cy_debt <= self.master_cy,
                self.ppu.wf(),
                same_but_beam(&self.ppu, &ppu1),
                -3 <= self.ppu_master_cy_debt <= self.master_cy,
                spec_ppu_drain(self.ppu.x, self.ppu.scanline, self.ppu_master_cy_debt as int, e0)
                    == spec_ppu_drain(ppu1.x, ppu1.scanline, p1 as int, e0),
            ensures
                self.master_cy == m1,
                self.apu_master_cy_debt == a2,
                -5355 <= self.apu_master_cy_debt <= self.master_cy,
                self.ppu.wf(),
                same_but_beam(&self.ppu, &ppu1),
                -3 <= self.ppu_master_cy_debt <= self.master_cy,
                !delivered ==> self.cpu.st() == post_st && self.ppu_master_cy_debt <= 0
                    && self.cpu.mem.nmi_enabled_spec() == e0 && spec_ppu_drain(
                    ppu1.x,
                    ppu1.scanline,
                    p1 as int,
                    e0,
                ) == (self.ppu.x, self.ppu.scanline, self.ppu_master_cy_debt as int, false),
                delivered ==> spec_trigger_nmi(post_st) == Ok::<CpuState, Trap>(self.cpu.st())
                    && self.cpu.mem.nmi_flag_spec() && spec_ppu_drain(
                    ppu1.x,
                    ppu1.scanline,
                    p1 as int,
                    true,
                ) == (self.ppu.x, self.ppu.scanline, self.ppu_master_cy_debt as int, true),
            decreases self.ppu_master_cy_debt + 3,
        {
            let ghost x_prev = self.ppu.x;
            let ghost s_prev = self.ppu.scanline;
            let ghost debt_prev = self.ppu_master_cy_debt as int;
            let (cy, _hblank, vblank) = self.ppu.update();
            self.ppu_master_cy_debt = self.ppu_master_cy_debt - (cy as i64);
            proof {
                assert((self.ppu.x, self.ppu.scanline) == spec_dot_step(x_prev, s_prev));
                assert(self.ppu_master_cy_debt as int == debt_prev - (DOT_MASTER_CYCLES as int));
            }
            if vblank {
                self.cpu.mem.latch_input();
                if self.cpu.mem.nmi_enabled() {
                    proof {
                        assert(e0);
                        assert(spec_ppu_drain(x_prev, s_prev, debt_prev, e0) == (
                            self.ppu.x,
                            self.ppu.scanline,
                            self.ppu_master_cy_debt as int,
                            true,
                        ));
                    }
                    match self.cpu.trigger_nmi() {
                        Ok(()) => {},
                        Err(t) => {
                            return Err(t);
                        },
                    }
                    self.cpu.mem.set_nmi_flag(true);
                    delivered = true;
                    // Deliver the interrupt promptly rather than keep
                    // draining, even at the cost of a temporarily larger
                    // picture-cycle debt.
                    break;
                }
            }
            proof {
                assert(spec_ppu_drain(x_prev, s_prev, debt_prev, e0) == spec_ppu_drain(
                    self.ppu.x,
                    self.ppu.scanline,
                    self.ppu_master_cy_debt as int,
                    e0,
                ));
            }
        }
        Ok(delivered)
    }

    /// One completed scheduler iteration, as a relation between the machine
    /// before and after it: the CPU advanced by exactly the dispatched
    /// instruction, the master counter took its cycles, and the picture
    /// drain walked the beam to where the charged debt (or an interrupt
    /// delivery) stopped it. This is `run_one`'s postcondition on success,
    /// restated over two states.
    pub open spec fn spec_iteration(pre: Snes<B>, post: Snes<B>, delivered: bool) -> bool {
        match spec_dispatch(pre.cpu.st()) {
            SpecOutcome::Fault(_, _) => false,
            SpecOutcome::Step(p, _mcy) => {
                let d0 = pre.ppu_master_cy_debt + post.master_cy - pre.master_cy;
                &&& pre.master_cy + 12 <= post.master_cy
                &&& post.master_cy <= pre.master_cy + 48 + MAX_DMA_CYCLES
                &&& same_but_beam(&post.ppu, &pre.ppu)
                &&& (delivered ==> spec_trigger_nmi(p) == Ok::<CpuState, Trap>(post.cpu.st())
                    && post.cpu.mem.nmi_flag_spec() && spec_ppu_drain(
                    pre.ppu.x,
                    pre.ppu.scanline,
                    d0,
                    true,
                ) == (post.ppu.x, post.ppu.scanline, post.ppu_master_cy_debt as int, true))
                &&& (!delivered ==> post.cpu.st() == p && post.apu_master_cy_debt <= APU_DIVIDER
                    && post.ppu_master_cy_debt <= 0 && spec_ppu_drain(
                    pre.ppu.x,
                    pre.ppu.scanline,
                    d0,
                    post.cpu.mem.nmi_enabled_spec(),
                ) == (post.ppu.x, post.ppu.scanline, post.ppu_master_cy_debt as int, false))
            },
        }
    }

    /// Some scheduler iteration ran between the two states, whether or not
    /// it delivered an interrupt.
    pub open spec fn spec_step_rel(pre: Snes<B>, post: Snes<B>) -> bool {
        Self::spec_iteration(pre, post, true) || Self::spec_iteration(pre, post, false)
    }

    /// A scheduler iteration stopped by the fault `t`: either dispatch
    /// itself faulted, leaving the counters and the picture processor as
    /// they were, or the interrupt entry hit a stack outside page 1.
    pub open spec fn spec_iteration_faults(pre: Snes<B>, post: Snes<B>, t: Trap) -> bool {
        match spec_dispatch(pre.cpu.st()) {
            SpecOutcome::Fault(pf, tf) => {
                &&& t == tf
                &&& post.cpu.st() == pf
                &&& post.master_cy == pre.master_cy
                &&& post.apu_master_cy_debt == pre.apu_master_cy_debt
                &&& post.ppu_master_cy_debt == pre.ppu_master_cy_debt
                &&& post.ppu == pre.ppu
            },
            SpecOutcome::Step(p, _) => t == Trap::EmulationStackPage && !crate::cpu::stack_ok(p),
        }
    }

    /// A run of the scheduler: a chain of machine states starting at
    /// `first` whose every adjacent pair is one completed iteration.
    pub open spec fn spec_run_trace(trace: Seq<Snes<B>>, first: Snes<B>) -> bool {
        &&& trace.len() >= 1
        &&& trace[0] == first
        &&& forall|i: int|
            0 <= i < trace.len() - 1 ==> #[trigger] Self::spec_step_rel(trace[i], trace[i + 1])
    }

    /// Runs scheduler iterations until the given total master-cycle budget
    /// has passed, or a fault stops the machine. The final state is reached
    /// from the initial one by a chain of completed iterations — one CPU
    /// instruction and both debt drains each — witnessed by a trace of
    /// machine states; on a fault, the chain ends with the step that
    /// faulted.
    pub fn run(&mut self, cy_limit: u64) -> (r: Result<(), Trap>)
        requires
            old(self).wf(),
            cy_limit <= 0x4000_0000_0000_0000,
        ensures
            final(self).wf(),
            match r {
                Ok(()) => final(self).master_cy >= cy_limit && exists|trace: Seq<Snes<B>>|
                    (#[trigger] Self::spec_run_trace(trace, *old(self)))
                        && trace.last() == *final(self),
                Err(t) => exists|trace: Seq<Snes<B>>|
                    (#[trigger] Self::spec_run_trace(trace, *old(self)))
                        && Self::spec_iteration_faults(trace.last(), *final(self), t),
            },
            old(self).master_cy >= cy_limit ==> r is Ok && *final(self) == *old(self),
    {
        let ghost mut trace: Seq<Snes<B>> = seq![*old(self)];
        while self.master_cy < cy_limit
            invariant
                self.wf(),
                cy_limit <= 0x4000_0000_0000_0000,
                old(self).master_cy >= cy_limit ==> *self == *old(self),
                Self::spec_run_trace(trace, *old(self)),
                trace.last() == *self,
            decreases cy_limit + 48 + 0x1000000 - self.master_cy,
        {
            let ghost prev = *self;
            match self.run_one() {
                Ok(d) => {
                    proof {
                        assert(Self::spec_iteration(prev, *self, d));
                        assert(Self::spec_step_rel(prev, *self));
                        let t2 = trace.push(*self);
                        assert forall|i: int|
                            0 <= i < t2.len() - 1 implies #[trigger] Self::spec_step_rel(
                            t2[i],
                            t2[i + 1],
                        ) by {
                            if i < trace.len() - 1 {
                                assert(t2[i] == trace[i] && t2[i + 1] == trace[i + 1]);
                            } else {
                                assert(t2[i] == trace[trace.len() - 1] && t2[i + 1] == *self);
                            }
                        }
                        trace = t2;
                    }
                },
                Err(t) => {
                    proof {
                        assert(Self::spec_iteration_faults(prev, *self, t));
                        assert(Self::spec_run_trace(trace, *old(self)));
                        assert(trace.last() == prev);
                    }
                    return Err(t);
                },
            }
        }
        Ok(())
    }
}

} // verus!
