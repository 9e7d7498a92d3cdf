use vstd::prelude::*;

use crate::bus::{bus_read, bus_read_word, bus_write, BusView, CpuBus};
use crate::memory::{word_of, MemoryError};
use crate::register::CpuRegisters;

verus! {

/// The thirteen addressing modes of the 6502.
#[derive(PartialEq, Eq, Debug, Hash, Clone, Copy, Structural)]
pub enum AddressingMode {
    Implicit,
    Accumulator,
    Immediate,
    Absolute,
    AbsoluteX,
    AbsoluteY,
    ZeroPage,
    ZeroPageX,
    ZeroPageY,
    Relative,
    Indirect,
    IndirectX,
    IndirectY,
}

/// Whether a mode's operand is the data itself or the address of the data.
#[derive(PartialEq, Eq, Debug, Copy, Clone, Structural)]
pub enum AddressingType {
    Data,
    Address,
}

/// Whether two addresses lie on different 256-byte pages.
pub open spec fn page_crossed(old: u16, new: u16) -> bool {
    (old & 0xFF00) != (new & 0xFF00)
}

/// The address one past `base` inside the page of `base`: the 6502 indirect-jump bug.
pub open spec fn same_page_next(base: u16) -> u16 {
    (base & 0xFF00) | ((((base & 0x00FF) + 1) as u16) & 0x00FF)
}

/// `pc` moved by the signed offset `offset`, modulo 2^16.
pub open spec fn relative_target(pc: u16, offset: u8) -> u16 {
    if offset < 0x80 {
        pc.wrapping_add(offset as u16)
    } else {
        pc.wrapping_sub((0x100 - offset) as u16)
    }
}

/// The machine with PC moved forward by `n` (mod 2^16).
pub open spec fn advance_pc(s: BusView, n: u16) -> BusView {
    s.with_regs(CpuRegisters { pc: s.regs.pc.wrapping_add(n), ..s.regs })
}

/// The byte at PC, read as an operand.
pub open spec fn operand_byte(s: BusView) -> Result<u8, MemoryError> {
    bus_read(s, s.regs.pc)
}

/// The word at PC, read as an operand.
pub open spec fn operand_word(s: BusView) -> Result<u16, MemoryError> {
    bus_read_word(s, s.regs.pc)
}

/// A zero-page pointer read: low byte at `ptr`, high byte at `ptr + 1` wrapped within page zero.
pub open spec fn zero_page_pointer(s: BusView, ptr: u8) -> Result<u16, MemoryError> {
    match bus_read(s, ptr as u16) {
        Err(e) => Err(e),
        Ok(low) => match bus_read(s, ptr.wrapping_add(1) as u16) {
            Err(e) => Err(e),
            Ok(high) => Ok(word_of(low, high)),
        },
    }
}

/// The result of resolving an operand: the machine after PC moved past the operand bytes,
/// the effective operand and whether a page was crossed.
pub open spec fn resolved(s: BusView, n: u16, operand: u16, crossed: bool) -> Result<
    (BusView, u16, bool),
    MemoryError,
> {
    Ok((advance_pc(s, n), operand, crossed))
}

impl AddressingMode {
    pub open spec fn is_address(self) -> bool {
        !(self is Implicit || self is Accumulator || self is Immediate)
    }

    /// The number of operand bytes that follow the opcode.
    pub open spec fn operand_len(self) -> u16 {
        match self {
            AddressingMode::Implicit | AddressingMode::Accumulator => 0,
            AddressingMode::Absolute | AddressingMode::AbsoluteX | AddressingMode::AbsoluteY
            | AddressingMode::Indirect => 2,
            _ => 1,
        }
    }

    /// How the mode resolves its operand on machine `s`.
    pub open spec fn resolve(self, s: BusView) -> Result<(BusView, u16, bool), MemoryError> {
        match self {
            AddressingMode::Implicit => resolved(s, 0, 0, false),
            AddressingMode::Accumulator => resolved(s, 0, s.regs.a as u16, false),
            AddressingMode::Immediate | AddressingMode::ZeroPage => match operand_byte(s) {
                Err(e) => Err(e),
                Ok(b) => resolved(s, 1, b as u16, false),
            },
            AddressingMode::ZeroPageX => match operand_byte(s) {
                Err(e) => Err(e),
                Ok(b) => resolved(s, 1, b.wrapping_add(s.regs.x) as u16, false),
            },
            AddressingMode::ZeroPageY => match operand_byte(s) {
                Err(e) => Err(e),
                Ok(b) => resolved(s, 1, b.wrapping_add(s.regs.y) as u16, false),
            },
            AddressingMode::Absolute => match operand_word(s) {
                Err(e) => Err(e),
                Ok(w) => resolved(s, 2, w, false),
            },
            AddressingMode::AbsoluteX => match operand_word(s) {
                Err(e) => Err(e),
                Ok(w) => resolved(
                    s,
                    2,
                    w.wrapping_add(s.regs.x as u16),
                    page_crossed(w, w.wrapping_add(s.regs.x as u16)),
                ),
            },
            AddressingMode::AbsoluteY => match operand_word(s) {
                Err(e) => Err(e),
                Ok(w) => resolved(
                    s,
                    2,
                    w.wrapping_add(s.regs.y as u16),
                    page_crossed(w, w.wrapping_add(s.regs.y as u16)),
                ),
            },
            AddressingMode::Relative => match operand_byte(s) {
                Err(e) => Err(e),
                Ok(b) => {
                    let next = s.regs.pc.wrapping_add(1);
                    resolved(
                        s,
                        1,
                        relative_target(next, b),
                        page_crossed(relative_target(next, b), next),
                    )
                },
            },
            AddressingMode::Indirect => match operand_word(s) {
                Err(e) => Err(e),
                Ok(base) => match bus_read(s, same_page_next(base)) {
                    Err(e) => Err(e),
                    Ok(high) => match bus_read(s, base) {
                        Err(e) => Err(e),
                        Ok(low) => resolved(s, 2, word_of(low, high), false),
                    },
                },
            },
            AddressingMode::IndirectX => match operand_byte(s) {
                Err(e) => Err(e),
                Ok(b) => match zero_page_pointer(s, b.wrapping_add(s.regs.x)) {
                    Err(e) => Err(e),
                    Ok(w) => resolved(s, 1, w, page_crossed(b.wrapping_add(s.regs.x) as u16, w)),
                },
            },
            AddressingMode::IndirectY => match operand_byte(s) {
                Err(e) => Err(e),
                Ok(b) => match zero_page_pointer(s, b) {
                    Err(e) => Err(e),
                    Ok(w) => resolved(
                        s,
                        1,
                        w.wrapping_add(s.regs.y as u16),
                        page_crossed(w, w.wrapping_add(s.regs.y as u16)),
                    ),
                },
            },
        }
    }

    /// The data byte that the operand designates.
    pub open spec fn load(self, s: BusView, operand: u16) -> Result<u8, MemoryError> {
        if self.is_address() {
            bus_read(s, operand)
        } else {
            Ok(operand as u8)
        }
    }

    /// The machine after storing `data` where the operand designates.
    pub open spec fn store(self, s: BusView, operand: u16, data: u8) -> Result<BusView, MemoryError> {
        match self {
            AddressingMode::Accumulator => Ok(s.with_regs(CpuRegisters { a: data, ..s.regs })),
            AddressingMode::Implicit | AddressingMode::Immediate => Err(
                MemoryError::WriteMemory(operand),
            ),
            _ => bus_write(s, operand, data),
        }
    }

    /// Resolves the operand, moving PC past the operand bytes.
    pub fn addressing(&self, bus: &mut CpuBus) -> (r: Result<(u16, bool), MemoryError>)
        requires
            old(bus).wf(),
        ensures
            final(bus).wf(),
            match self.resolve(old(bus)@) {
                Ok((s, operand, crossed)) => r == Ok::<(u16, bool), MemoryError>(
                    (operand, crossed),
                ) && final(bus)@ == s,
                Err(e) => r == Err::<(u16, bool), MemoryError>(e),
            },
    {
        match self {
            AddressingMode::Implicit => Self::implicit_addressing(bus),
            AddressingMode::Accumulator => Self::accumulator_addressing(bus),
            AddressingMode::Immediate => Self::immediate_addressing(bus),
            AddressingMode::Absolute => Self::absolute_addressing(bus),
            AddressingMode::AbsoluteX => Self::absolute_x_addressing(bus),
            AddressingMode::AbsoluteY => Self::absolute_y_addressing(bus),
            AddressingMode::ZeroPage => Self::zero_page_addressing(bus),
            AddressingMode::ZeroPageX => Self::zero_page_x_addressing(bus),
            AddressingMode::ZeroPageY => Self::zero_page_y_addressing(bus),
            AddressingMode::Relative => Self::relative_addressing(bus),
            AddressingMode::Indirect => Self::indirect_addressing(bus),
            AddressingMode::IndirectX => Self::indirect_x_addressing(bus),
            AddressingMode::IndirectY => Self::indirect_y_addressing(bus),
        }
    }

    pub fn addressing_type(&self) -> (r: AddressingType)
        ensures
            (r is Address) == self.is_address(),
    {
        match self {
            AddressingMode::Implicit => AddressingType::Data,
            AddressingMode::Accumulator => AddressingType::Data,
            AddressingMode::Immediate => AddressingType::Data,
            AddressingMode::Absolute => AddressingType::Address,
            AddressingMode::AbsoluteX => AddressingType::Address,
            AddressingMode::AbsoluteY => AddressingType::Address,
            AddressingMode::ZeroPage => AddressingType::Address,
            AddressingMode::ZeroPageX => AddressingType::Address,
            AddressingMode::ZeroPageY => AddressingType::Address,
            AddressingMode::Relative => AddressingType::Address,
            AddressingMode::Indirect => AddressingType::Address,
            AddressingMode::IndirectX => AddressingType::Address,
            AddressingMode::IndirectY => AddressingType::Address,
        }
    }

    /// The data byte: fetched through the bus for address modes, the operand itself otherwise.
    pub fn read(&self, bus: &CpuBus, address: u16) -> (r: Result<u8, MemoryError>)
        requires
            bus.wf(),
        ensures
            r == self.load(bus@, address),
    {
        if self.addressing_type() == AddressingType::Address {
            bus.cpu_read(address)
        } else {
            Ok(address as u8)
        }
    }

    /// Stores `data`: into A for the accumulator mode, through the bus for address modes;
    /// the immediate and implicit modes have nowhere to store and refuse.
    pub fn write(&self, bus: &mut CpuBus, address: u16, data: u8) -> (r: Result<(), MemoryError>)
        requires
            old(bus).wf(),
        ensures
            final(bus).wf(),
            match self.store(old(bus)@, address, data) {
                Ok(s) => r is Ok && final(bus)@ == s,
                Err(e) => r == Err::<(), MemoryError>(e) && final(bus)@ == old(bus)@,
            },
    {
        match self {
            AddressingMode::Accumulator => {
                bus.registers_mut().a = data;
                Ok(())
            },
            AddressingMode::Implicit | AddressingMode::Immediate => Err(
                MemoryError::WriteMemory(address),
            ),
            _ => {
                let r = bus.cpu_write(address, data);
                proof {
                    if crate::bus::bus_write_result(old(bus)@, address) is Err {
                        crate::bus::lemma_failed_write_keeps(old(bus)@, address, data);
                    }
                }
                r
            },
        }
    }

    /// Reads the byte at PC and moves PC past it.
    fn fetch_byte(bus: &mut CpuBus) -> (r: Result<u8, MemoryError>)
        requires
            old(bus).wf(),
        ensures
            final(bus).wf(),
            final(bus)@ == advance_pc(old(bus)@, 1),
            r == operand_byte(old(bus)@),
    {
        let pc = bus.registers().pc;
        bus.registers_mut().pc = pc.wrapping_add(1);
        bus.cpu_read(pc)
    }

    /// Reads the word at PC and moves PC past it.
    fn fetch_word(bus: &mut CpuBus) -> (r: Result<u16, MemoryError>)
        requires
            old(bus).wf(),
        ensures
            final(bus).wf(),
            final(bus)@ == advance_pc(old(bus)@, 2),
            r == operand_word(old(bus)@),
    {
        let pc = bus.registers().pc;
        bus.registers_mut().pc = pc.wrapping_add(2);
        bus.cpu_read_word(pc)
    }

    /// Reads a pointer from page zero; the high byte's address wraps within the page.
    fn read_zero_page_pointer(bus: &CpuBus, ptr: u8) -> (r: Result<u16, MemoryError>)
        requires
            bus.wf(),
        ensures
            r == zero_page_pointer(bus@, ptr),
    {
        let low = match bus.cpu_read(ptr as u16) {
            Ok(v) => v,
            Err(e) => return Err(e),
        };
        let high = match bus.cpu_read(ptr.wrapping_add(1) as u16) {
            Ok(v) => v,
            Err(e) => return Err(e),
        };
        Ok(crate::memory::make_word(low, high))
    }

    fn implicit_addressing(bus: &mut CpuBus) -> (r: Result<(u16, bool), MemoryError>)
        requires
            old(bus).wf(),
        ensures
            final(bus).wf(),
            final(bus)@ == old(bus)@,
            r == Ok::<(u16, bool), MemoryError>((0u16, false)),
    {
        proof {
            assert(advance_pc(old(bus)@, 0) == old(bus)@);
        }
        Ok((0, false))
    }

    fn accumulator_addressing(bus: &mut CpuBus) -> (r: Result<(u16, bool), MemoryError>)
        requires
            old(bus).wf(),
        ensures
            final(bus).wf(),
            final(bus)@ == old(bus)@,
            r == Ok::<(u16, bool), MemoryError>((old(bus)@.regs.a as u16, false)),
    {
        Ok((bus.registers().a as u16, false))
    }

    fn immediate_addressing(bus: &mut CpuBus) -> (r: Result<(u16, bool), MemoryError>)
        requires
            old(bus).wf(),
        ensures
            final(bus).wf(),
            match AddressingMode::Immediate.resolve(old(bus)@) {
                Ok((s, operand, crossed)) => r == Ok::<(u16, bool), MemoryError>(
                    (operand, crossed),
                ) && final(bus)@ == s,
                Err(e) => r == Err::<(u16, bool), MemoryError>(e),
            },
    {
        let b = match Self::fetch_byte(bus) {
            Ok(v) => v,
            Err(e) => return Err(e),
        };
        Ok((b as u16, false))
    }

    fn zero_page_addressing(bus: &mut CpuBus) -> (r: Result<(u16, bool), MemoryError>)
        requires
            old(bus).wf(),
        ensures
            final(bus).wf(),
            match AddressingMode::ZeroPage.resolve(old(bus)@) {
                Ok((s, operand, crossed)) => r == Ok::<(u16, bool), MemoryError>(
                    (operand, crossed),
                ) && final(bus)@ == s,
                Err(e) => r == Err::<(u16, bool), MemoryError>(e),
            },
    {
        let b = match Self::fetch_byte(bus) {
            Ok(v) => v,
            Err(e) => return Err(e),
        };
        Ok((b as u16, false))
    }

    fn zero_page_x_addressing(bus: &mut CpuBus) -> (r: Result<(u16, bool), MemoryError>)
        requires
            old(bus).wf(),
        ensures
            final(bus).wf(),
            match AddressingMode::ZeroPageX.resolve(old(bus)@) {
                Ok((s, operand, crossed)) => r == Ok::<(u16, bool), MemoryError>(
                    (operand, crossed),
                ) && final(bus)@ == s,
                Err(e) => r == Err::<(u16, bool), MemoryError>(e),
            },
    {
        let b = match Self::fetch_byte(bus) {
            Ok(v) => v,
            Err(e) => return Err(e),
        };
        Ok((b.wrapping_add(bus.registers().x) as u16, false))
    }

    fn zero_page_y_addressing(bus: &mut CpuBus) -> (r: Result<(u16, bool), MemoryError>)
        requires
            old(bus).wf(),
        ensures
            final(bus).wf(),
            match AddressingMode::ZeroPageY.resolve(old(bus)@) {
                Ok((s, operand, crossed)) => r == Ok::<(u16, bool), MemoryError>(
                    (operand, crossed),
                ) && final(bus)@ == s,
                Err(e) => r == Err::<(u16, bool), MemoryError>(e),
            },
    {
        let b = match Self::fetch_byte(bus) {
            Ok(v) => v,
            Err(e) => return Err(e),
        };
        Ok((b.wrapping_add(bus.registers().y) as u16, false))
    }

    fn absolute_addressing(bus: &mut CpuBus) -> (r: Result<(u16, bool), MemoryError>)
        requires
            old(bus).wf(),
        ensures
            final(bus).wf(),
            match AddressingMode::Absolute.resolve(old(bus)@) {
                Ok((s, operand, crossed)) => r == Ok::<(u16, bool), MemoryError>(
                    (operand, crossed),
                ) && final(bus)@ == s,
                Err(e) => r == Err::<(u16, bool), MemoryError>(e),
            },
    {
        let w = match Self::fetch_word(bus) {
            Ok(v) => v,
            Err(e) => return Err(e),
        };
        Ok((w, false))
    }

    fn absolute_x_addressing(bus: &mut CpuBus) -> (r: Result<(u16, bool), MemoryError>)
        requires
            old(bus).wf(),
        ensures
            final(bus).wf(),
            match AddressingMode::AbsoluteX.resolve(old(bus)@) {
                Ok((s, operand, crossed)) => r == Ok::<(u16, bool), MemoryError>(
                    (operand, crossed),
                ) && final(bus)@ == s,
                Err(e) => r == Err::<(u16, bool), MemoryError>(e),
            },
    {
        let w = match Self::fetch_word(bus) {
            Ok(v) => v,
            Err(e) => return Err(e),
        };
        let result = w.wrapping_add(bus.registers().x as u16);
        Ok((result, is_page_crossed(w, result)))
    }

    fn absolute_y_addressing(bus: &mut CpuBus) -> (r: Result<(u16, bool), MemoryError>)
        requires
            old(bus).wf(),
        ensures
            final(bus).wf(),
            match AddressingMode::AbsoluteY.resolve(old(bus)@) {
                Ok((s, operand, crossed)) => r == Ok::<(u16, bool), MemoryError>(
                    (operand, crossed),
                ) && final(bus)@ == s,
                Err(e) => r == Err::<(u16, bool), MemoryError>(e),
            },
    {
        let w = match Self::fetch_word(bus) {
            Ok(v) => v,
            Err(e) => return Err(e),
        };
        let result = w.wrapping_add(bus.registers().y as u16);
        Ok((result, is_page_crossed(w, result)))
    }

    fn relative_addressing(bus: &mut CpuBus) -> (r: Result<(u16, bool), MemoryError>)
        requires
            old(bus).wf(),
        ensures
            final(bus).wf(),
            match AddressingMode::Relative.resolve(old(bus)@) {
                Ok((s, operand, crossed)) => r == Ok::<(u16, bool), MemoryError>(
                    (operand, crossed),
                ) && final(bus)@ == s,
                Err(e) => r == Err::<(u16, bool), MemoryError>(e),
            },
    {
        let offset = match Self::fetch_byte(bus) {
            Ok(v) => v,
            Err(e) => return Err(e),
        };
        let next = bus.registers().pc;
        let target = if offset < 0x80 {
            next.wrapping_add(offset as u16)
        } else {
            next.wrapping_sub(0x100 - offset as u16)
        };
        Ok((target, is_page_crossed(target, next)))
    }

    fn indirect_addressing(bus: &mut CpuBus) -> (r: Result<(u16, bool), MemoryError>)
        requires
            old(bus).wf(),
        ensures
            final(bus).wf(),
            match AddressingMode::Indirect.resolve(old(bus)@) {
                Ok((s, operand, crossed)) => r == Ok::<(u16, bool), MemoryError>(
                    (operand, crossed),
                ) && final(bus)@ == s,
                Err(e) => r == Err::<(u16, bool), MemoryError>(e),
            },
    {
        let base = match Self::fetch_word(bus) {
            Ok(v) => v,
            Err(e) => return Err(e),
        };
        assert(base & 0x00FF <= 0xFF) by (bit_vector);
        let high_address = (base & 0xFF00) | (((base & 0x00FF) + 1) & 0x00FF);
        let high = match bus.cpu_read(high_address) {
            Ok(v) => v,
            Err(e) => return Err(e),
        };
        let low = match bus.cpu_read(base) {
            Ok(v) => v,
            Err(e) => return Err(e),
        };
        Ok((crate::memory::make_word(low, high), false))
    }

    fn indirect_x_addressing(bus: &mut CpuBus) -> (r: Result<(u16, bool), MemoryError>)
        requires
            old(bus).wf(),
        ensures
            final(bus).wf(),
            match AddressingMode::IndirectX.resolve(old(bus)@) {
                Ok((s, operand, crossed)) => r == Ok::<(u16, bool), MemoryError>(
                    (operand, crossed),
                ) && final(bus)@ == s,
                Err(e) => r == Err::<(u16, bool), MemoryError>(e),
            },
    {
        let b = match Self::fetch_byte(bus) {
            Ok(v) => v,
            Err(e) => return Err(e),
        };
        let ptr = b.wrapping_add(bus.registers().x);
        let address = match Self::read_zero_page_pointer(bus, ptr) {
            Ok(v) => v,
            Err(e) => return Err(e),
        };
        Ok((address, is_page_crossed(ptr as u16, address)))
    }

    fn indirect_y_addressing(bus: &mut CpuBus) -> (r: Result<(u16, bool), MemoryError>)
        requires
            old(bus).wf(),
        ensures
            final(bus).wf(),
            match AddressingMode::IndirectY.resolve(old(bus)@) {
                Ok((s, operand, crossed)) => r == Ok::<(u16, bool), MemoryError>(
                    (operand, crossed),
                ) && final(bus)@ == s,
                Err(e) => r == Err::<(u16, bool), MemoryError>(e),
            },
    {
        let b = match Self::fetch_byte(bus) {
            Ok(v) => v,
            Err(e) => return Err(e),
        };
        let address = match Self::read_zero_page_pointer(bus, b) {
            Ok(v) => v,
            Err(e) => return Err(e),
        };
        let result = address.wrapping_add(bus.registers().y as u16);
        Ok((result, is_page_crossed(address, result)))
    }
}

/// Whether `old` and `new` lie on different pages.
pub fn is_page_crossed(old: u16, new: u16) -> (r: bool)
    ensures
        r == page_crossed(old, new),
{
    (old & 0xFF00) != (new & 0xFF00)
}

} // verus!
