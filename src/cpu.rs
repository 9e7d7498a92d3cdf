use vstd::prelude::*;

use crate::addressing::advance_pc;
use crate::bus::{bus_read, bus_read_word, pushed, pushed_word, BusView, CpuBus};
use crate::clock::Clock;
use crate::error::CpuError;
use crate::instruction::{decode, lemma_decoded_cycles, InstructionProcessor};
use crate::memory::MemoryError;
use crate::register::{flag_of, with_flag, CpuRegisters, P_FLAGS_B, P_FLAGS_I, P_FLAGS_U};

verus! {

/// Address of the reset vector.
pub const VECTOR_RESET: u16 = 0xFFFC;

/// Address of the NMI vector.
pub const VECTOR_NMI: u16 = 0xFFFA;

/// Address of the IRQ/BRK vector.
pub const VECTOR_IRQ_OR_BRK: u16 = 0xFFFE;

/// Cycles that reset, NMI and IRQ take.
pub const INTERRUPT_CYCLES: u32 = 7;

/// What the driver holds: the machine, the cycles run so far and the cycles that the
/// current instruction still owes.
pub struct CpuView {
    pub bus: BusView,
    pub cycles: u64,
    pub defer_cycles: u32,
}

/// The registers right after a reset that read `pc` from the vector.
pub open spec fn reset_registers(pc: u16) -> CpuRegisters {
    CpuRegisters { a: 0, x: 0, y: 0, sp: 0xFD, pc, p: P_FLAGS_U | P_FLAGS_I }
}

/// The machine after entering an interrupt handler at `target`: PC and then P (with U set
/// and B clear) are pushed, and I is set.
pub open spec fn interrupted(s: BusView, target: u16) -> BusView {
    let s1 = pushed(pushed_word(s, s.regs.pc), (s.regs.p | P_FLAGS_U) & !P_FLAGS_B);
    s1.with_regs(CpuRegisters { pc: target, p: with_flag(s1.regs.p, P_FLAGS_I, true), ..s1.regs })
}

/// One fetch-decode-execute: the opcode at PC is read, PC moves past it, and the
/// decoded instruction runs. Returns the machine after it and its total cycle count.
pub open spec fn step(s: BusView) -> Result<(BusView, u32), CpuError> {
    match bus_read(s, s.regs.pc) {
        Err(e) => Err(CpuError::Memory(e)),
        Ok(op) => match decode(op) {
            None => Err(CpuError::UnknownInstruction(op)),
            Some(info) => match info.run(advance_pc(s, 1)) {
                Err(e) => Err(CpuError::Memory(e)),
                Ok(r) => Ok(r),
            },
        },
    }
}

/// One tick of the driver: a new instruction is fetched only when nothing is owed;
/// either way one cycle passes.
pub open spec fn tick(v: CpuView) -> Result<CpuView, CpuError> {
    if v.defer_cycles == 0 {
        match step(v.bus) {
            Err(e) => Err(e),
            Ok((s, cycles)) => Ok(
                CpuView {
                    bus: s,
                    cycles: (v.cycles + 1) as u64,
                    defer_cycles: (cycles - 1) as u32,
                },
            ),
        }
    } else {
        Ok(
            CpuView {
                cycles: (v.cycles + 1) as u64,
                defer_cycles: (v.defer_cycles - 1) as u32,
                ..v
            },
        )
    }
}

/// The 6502 driver: it owns the bus and counts cycles.
#[derive(Debug)]
pub struct Cpu {
    bus: CpuBus,
    processor: InstructionProcessor,
    cycles: u64,
    defer_cycles: u32,
}

impl View for Cpu {
    type V = CpuView;

    closed spec fn view(&self) -> CpuView {
        CpuView { bus: self.bus@, cycles: self.cycles, defer_cycles: self.defer_cycles }
    }
}

impl Cpu {
    pub open spec fn wf(&self) -> bool {
        self@.bus.wf()
    }

    pub fn new(bus: CpuBus) -> (r: Self)
        requires
            bus.wf(),
        ensures
            r.wf(),
            r@ == (CpuView { bus: bus@, cycles: 0, defer_cycles: 0 }),
    {
        Cpu { bus, processor: InstructionProcessor, cycles: 0, defer_cycles: 0 }
    }

    /// Loads PC from the reset vector, zeroes A, X and Y, sets P to U|I and SP to `$FD`,
    /// and owes 7 cycles.
    pub fn reset(&mut self) -> (r: Result<(), MemoryError>)
        requires
            old(self).wf(),
        ensures
            final(self).wf(),
            match bus_read_word(old(self)@.bus, VECTOR_RESET) {
                Err(e) => r == Err::<(), MemoryError>(e) && final(self)@ == old(self)@,
                Ok(pc) => r is Ok && final(self)@ == (CpuView {
                    bus: old(self)@.bus.with_regs(reset_registers(pc)),
                    defer_cycles: INTERRUPT_CYCLES,
                    ..old(self)@
                }),
            },
    {
        let pc = self.bus.cpu_read_word(VECTOR_RESET)?;
        let registers = self.bus.registers_mut();
        registers.a = 0;
        registers.x = 0;
        registers.y = 0;
        registers.clear_flags();
        registers.set_u_flag(true);
        registers.set_i_flag(true);
        registers.sp = 0xFD;
        registers.pc = pc;
        assert((0u8 | P_FLAGS_U) | P_FLAGS_I == P_FLAGS_U | P_FLAGS_I) by (bit_vector);
        self.defer_cycles = INTERRUPT_CYCLES;
        Ok(())
    }

    /// Enters the handler at `vector`: pushes PC and P, sets I and owes 7 more cycles.
    fn interrupt(&mut self, vector: u16) -> (r: Result<(), MemoryError>)
        requires
            old(self).wf(),
            old(self)@.defer_cycles <= u32::MAX - INTERRUPT_CYCLES,
        ensures
            final(self).wf(),
            match bus_read_word(old(self)@.bus, vector) {
                Err(e) => r == Err::<(), MemoryError>(e) && final(self)@ == old(self)@,
                Ok(target) => r is Ok && final(self)@ == (CpuView {
                    bus: interrupted(old(self)@.bus, target),
                    defer_cycles: (old(self)@.defer_cycles + INTERRUPT_CYCLES) as u32,
                    ..old(self)@
                }),
            },
    {
        let target = self.bus.cpu_read_word(vector)?;
        let pc = self.bus.registers().pc;
        let p = self.bus.registers().p;
        self.bus.stack_push_word(pc)?;
        self.bus.stack_push((p | P_FLAGS_U) & !P_FLAGS_B)?;
        let registers = self.bus.registers_mut();
        registers.set_i_flag(true);
        registers.pc = target;
        self.defer_cycles = self.defer_cycles + INTERRUPT_CYCLES;
        Ok(())
    }

    /// Non-maskable interrupt through the NMI vector.
    pub fn nmi(&mut self) -> (r: Result<(), MemoryError>)
        requires
            old(self).wf(),
            old(self)@.defer_cycles <= u32::MAX - INTERRUPT_CYCLES,
        ensures
            final(self).wf(),
            match bus_read_word(old(self)@.bus, VECTOR_NMI) {
                Err(e) => r == Err::<(), MemoryError>(e) && final(self)@ == old(self)@,
                Ok(target) => r is Ok && final(self)@ == (CpuView {
                    bus: interrupted(old(self)@.bus, target),
                    defer_cycles: (old(self)@.defer_cycles + INTERRUPT_CYCLES) as u32,
                    ..old(self)@
                }),
            },
    {
        self.interrupt(VECTOR_NMI)
    }

    /// Maskable interrupt through the IRQ/BRK vector; nothing happens while I is set.
    pub fn irq(&mut self) -> (r: Result<(), MemoryError>)
        requires
            old(self).wf(),
            old(self)@.defer_cycles <= u32::MAX - INTERRUPT_CYCLES,
        ensures
            final(self).wf(),
            flag_of(old(self)@.bus.regs.p, P_FLAGS_I) ==> r is Ok && final(self)@ == old(self)@,
            !flag_of(old(self)@.bus.regs.p, P_FLAGS_I) ==> match bus_read_word(
                old(self)@.bus,
                VECTOR_IRQ_OR_BRK,
            ) {
                Err(e) => r == Err::<(), MemoryError>(e) && final(self)@ == old(self)@,
                Ok(target) => r is Ok && final(self)@ == (CpuView {
                    bus: interrupted(old(self)@.bus, target),
                    defer_cycles: (old(self)@.defer_cycles + INTERRUPT_CYCLES) as u32,
                    ..old(self)@
                }),
            },
    {
        if self.bus.registers().has_i_flag() {
            return Ok(());
        }
        self.interrupt(VECTOR_IRQ_OR_BRK)
    }

    /// Fetches the opcode at PC, moves PC past it, and runs it; the instruction's total
    /// cycle count becomes the cycles owed.
    fn step(&mut self) -> (r: Result<(), CpuError>)
        requires
            old(self).wf(),
        ensures
            final(self).wf(),
            match step(old(self)@.bus) {
                Err(e) => r == Err::<(), CpuError>(e),
                Ok((s, cycles)) => r is Ok && final(self)@ == (CpuView {
                    bus: s,
                    defer_cycles: cycles,
                    ..old(self)@
                }),
            },
    {
        let pc = self.bus.registers().pc;
        self.bus.registers_mut().pc = pc.wrapping_add(1);
        let op = match self.bus.cpu_read(pc) {
            Ok(op) => op,
            Err(e) => return Err(CpuError::Memory(e)),
        };
        let cycles = self.processor.process(op, &mut self.bus)?;
        self.defer_cycles = cycles;
        Ok(())
    }

    pub fn bus(&self) -> (r: &CpuBus)
        ensures
            r@ == self@.bus,
    {
        &self.bus
    }

    pub fn bus_mut(&mut self) -> (r: &mut CpuBus)
        ensures
            r@ == old(self)@.bus,
            final(self)@ == (CpuView { bus: final(r)@, ..old(self)@ }),
    {
        &mut self.bus
    }

    pub fn cycles(&self) -> (r: u64)
        ensures
            r == self@.cycles,
    {
        self.cycles
    }

    pub fn defer_cycles(&self) -> (r: u32)
        ensures
            r == self@.defer_cycles,
    {
        self.defer_cycles
    }
}

/// A decoded instruction always takes at least two cycles.
proof fn lemma_step_cycles(s: BusView)
    ensures
        step(s) matches Ok((_, cycles)) ==> cycles >= 2,
{
    if let Ok(op) = bus_read(s, s.regs.pc) {
        lemma_decoded_cycles(op);
    }
}

impl Clock for Cpu {
    type Error = CpuError;

    open spec fn ready(&self) -> bool {
        self.wf() && self@.cycles < u64::MAX
    }

    open spec fn ticked(&self, after: &Self, r: Result<(), CpuError>) -> bool {
        after.wf() && match tick(self@) {
            Ok(v) => r is Ok && after@ == v,
            Err(e) => r == Err::<(), CpuError>(e),
        }
    }

    /// Fetches and runs a new instruction when nothing is owed, then lets one cycle pass.
    fn clock(&mut self) -> (r: Result<(), CpuError>) {
        proof {
            lemma_step_cycles(self@.bus);
        }
        if self.defer_cycles == 0 {
            self.step()?;
        }
        self.cycles = self.cycles + 1;
        self.defer_cycles = self.defer_cycles - 1;
        Ok(())
    }
}

} // verus!
