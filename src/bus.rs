use vstd::prelude::*;

use crate::cpu_memory::{ram_read, ram_write_result, ram_written, CpuMemory, RAM_SIZE};
use crate::mapper::{
    cart_read, cart_write_result, cart_written, CartView, Mapper000,
};
use crate::ppu::{ppu_read, ppu_write_result, ppu_written, PpuMemory, PPU_MEMORY_SIZE};
use crate::memory::{high_byte, low_byte, word_of, word_read, Memory, MemoryError};
use crate::register::{zero_registers, CpuRegisters};
use crate::stack::{self, sp_popped, sp_pushed, stack_slot, top_of};

verus! {

/// What the CPU sees: its registers, the internal RAM and the cartridge.
pub struct BusView {
    pub regs: CpuRegisters,
    pub ram: Seq<u8>,
    pub cart: CartView,
}

impl BusView {
    pub open spec fn wf(self) -> bool {
        self.ram.len() == RAM_SIZE
    }

    /// The same machine with other registers.
    pub open spec fn with_regs(self, regs: CpuRegisters) -> BusView {
        BusView { regs, ..self }
    }
}

/// A bus read: RAM and the I/O window first, the cartridge on a miss.
pub open spec fn bus_read(s: BusView, address: u16) -> Result<u8, MemoryError> {
    match ram_read(s.ram, address) {
        Ok(v) => Ok(v),
        Err(_) => cart_read(s.cart, address),
    }
}

/// A little-endian word read on the bus; the high byte's address wraps.
pub open spec fn bus_read_word(s: BusView, address: u16) -> Result<u16, MemoryError> {
    word_read(bus_read(s, address), bus_read(s, address.wrapping_add(1)))
}

/// What a bus write returns.
pub open spec fn bus_write_result(s: BusView, address: u16) -> Result<(), MemoryError> {
    match ram_write_result(address) {
        Ok(_) => Ok(()),
        Err(_) => cart_write_result(s.cart, address),
    }
}

/// The machine after a bus write: RAM and the I/O window first, the cartridge otherwise.
pub open spec fn bus_written(s: BusView, address: u16, data: u8) -> BusView {
    match ram_write_result(address) {
        Ok(_) => BusView { ram: ram_written(s.ram, address, data), ..s },
        Err(_) => BusView { cart: cart_written(s.cart, address, data), ..s },
    }
}

/// A bus write as one step: the new machine, or the error.
pub open spec fn bus_write(s: BusView, address: u16, data: u8) -> Result<BusView, MemoryError> {
    match bus_write_result(s, address) {
        Ok(_) => Ok(bus_written(s, address, data)),
        Err(e) => Err(e),
    }
}

/// A little-endian word write: the low byte, then the high byte at the next address.
pub open spec fn bus_write_word(s: BusView, address: u16, data: u16) -> Result<BusView, MemoryError> {
    match bus_write(s, address, low_byte(data)) {
        Err(e) => Err(e),
        Ok(s1) => bus_write(s1, address.wrapping_add(1), high_byte(data)),
    }
}

/// The machine after pushing `data`.
pub open spec fn pushed(s: BusView, data: u8) -> BusView {
    BusView { ram: s.ram.update(stack_slot(s.regs.sp), data), regs: sp_pushed(s.regs), ..s }
}

/// The machine after pushing a word: high byte first.
pub open spec fn pushed_word(s: BusView, data: u16) -> BusView {
    pushed(pushed(s, high_byte(data)), low_byte(data))
}

/// The byte that a pop returns.
pub open spec fn pop_value(s: BusView) -> u8 {
    top_of(s.ram, s.regs)
}

/// The machine after a pop.
pub open spec fn popped(s: BusView) -> BusView {
    s.with_regs(sp_popped(s.regs))
}

/// The word that a word pop returns: low byte first.
pub open spec fn pop_word_value(s: BusView) -> u16 {
    word_of(pop_value(s), pop_value(popped(s)))
}

/// A failed bus write leaves the machine as it was.
pub proof fn lemma_failed_write_keeps(s: BusView, address: u16, data: u8)
    requires
        bus_write_result(s, address) is Err,
    ensures
        bus_written(s, address, data) == s,
{
    assert(bus_written(s, address, data).cart =~= s.cart);
}

/// The CPU's view of the address space: internal RAM with the I/O window, and a cartridge;
/// it also holds the register file.
#[derive(Debug)]
pub struct CpuBus {
    cpu_memory: CpuMemory,
    mapper: Mapper000,
    registers: CpuRegisters,
}

impl View for CpuBus {
    type V = BusView;

    closed spec fn view(&self) -> BusView {
        BusView { regs: self.registers, ram: self.cpu_memory@, cart: self.mapper@ }
    }
}

impl CpuBus {
    pub open spec fn wf(&self) -> bool {
        self@.wf()
    }

    /// A bus with zeroed RAM and registers around the cartridge `mapper`.
    pub fn new(mapper: Mapper000) -> (r: Self)
        ensures
            r.wf(),
            r@ == (BusView {
                regs: zero_registers(),
                ram: Seq::new(RAM_SIZE as nat, |_i: int| 0u8),
                cart: mapper@,
            }),
    {
        CpuBus { cpu_memory: CpuMemory::new(), mapper, registers: CpuRegisters::new() }
    }

    pub fn cpu_read(&self, address: u16) -> (r: Result<u8, MemoryError>)
        requires
            self.wf(),
        ensures
            r == bus_read(self@, address),
    {
        match self.cpu_memory.read(address) {
            Ok(v) => Ok(v),
            Err(_) => self.mapper.read(address),
        }
    }

    pub fn cpu_read_word(&self, address: u16) -> (r: Result<u16, MemoryError>)
        requires
            self.wf(),
        ensures
            r == bus_read_word(self@, address),
    {
        let low = match self.cpu_read(address) {
            Ok(v) => v,
            Err(e) => return Err(e),
        };
        let high = match self.cpu_read(address.wrapping_add(1)) {
            Ok(v) => v,
            Err(e) => return Err(e),
        };
        Ok(crate::memory::make_word(low, high))
    }

    pub fn cpu_write(&mut self, address: u16, data: u8) -> (r: Result<(), MemoryError>)
        requires
            old(self).wf(),
        ensures
            final(self).wf(),
            r == bus_write_result(old(self)@, address),
            final(self)@ == bus_written(old(self)@, address, data),
    {
        match self.cpu_memory.write(address, data) {
            Ok(()) => Ok(()),
            Err(_) => self.mapper.write(address, data),
        }
    }

    pub fn cpu_write_word(&mut self, address: u16, data: u16) -> (r: Result<(), MemoryError>)
        requires
            old(self).wf(),
        ensures
            final(self).wf(),
            match bus_write_word(old(self)@, address, data) {
                Ok(s) => r is Ok && final(self)@ == s,
                Err(e) => r == Err::<(), MemoryError>(e),
            },
    {
        match self.cpu_write(address, (data % 256) as u8) {
            Ok(()) => {},
            Err(e) => return Err(e),
        }
        self.cpu_write(address.wrapping_add(1), (data / 256) as u8)
    }

    pub fn stack_push(&mut self, data: u8) -> (r: Result<(), MemoryError>)
        requires
            old(self).wf(),
        ensures
            final(self).wf(),
            r is Ok,
            final(self)@ == pushed(old(self)@, data),
    {
        stack::push(&mut self.cpu_memory, &mut self.registers, data)
    }

    pub fn stack_push_word(&mut self, data: u16) -> (r: Result<(), MemoryError>)
        requires
            old(self).wf(),
        ensures
            final(self).wf(),
            r is Ok,
            final(self)@ == pushed_word(old(self)@, data),
    {
        stack::push_word(&mut self.cpu_memory, &mut self.registers, data)
    }

    pub fn stack_pop(&mut self) -> (r: Result<u8, MemoryError>)
        requires
            old(self).wf(),
        ensures
            final(self).wf(),
            r == Ok::<u8, MemoryError>(pop_value(old(self)@)),
            final(self)@ == popped(old(self)@),
    {
        stack::pop(&mut self.cpu_memory, &mut self.registers)
    }

    pub fn stack_pop_word(&mut self) -> (r: Result<u16, MemoryError>)
        requires
            old(self).wf(),
        ensures
            final(self).wf(),
            r == Ok::<u16, MemoryError>(pop_word_value(old(self)@)),
            final(self)@ == popped(popped(old(self)@)),
    {
        stack::pop_word(&mut self.cpu_memory, &mut self.registers)
    }

    pub fn registers(&self) -> (r: &CpuRegisters)
        ensures
            *r == self@.regs,
    {
        &self.registers
    }

    pub fn registers_mut(&mut self) -> (r: &mut CpuRegisters)
        ensures
            *r == old(self)@.regs,
            final(self)@ == old(self)@.with_regs(*final(r)),
    {
        &mut self.registers
    }

    pub fn mapper(&self) -> (r: &Mapper000)
        ensures
            r@ == self@.cart,
    {
        &self.mapper
    }

    pub fn mapper_mut(&mut self) -> (r: &mut Mapper000)
        ensures
            r@ == old(self)@.cart,
            final(self)@ == (BusView { cart: final(r)@, ..old(self)@ }),
    {
        &mut self.mapper
    }

    /// A read-only window on the PPU's registers as the CPU sees them.
    pub fn ppu_register(&self) -> (r: PpuRegister<'_>)
        ensures
            r.cpu_bus@ == self@,
    {
        PpuRegister { cpu_bus: self }
    }
}

/// The PPU control, mask and status registers as read through the CPU bus.
pub struct PpuRegister<'a> {
    pub cpu_bus: &'a CpuBus,
}

/// Address of PPUCTRL.
pub const PPU_CTRL: u16 = 0x2000;

/// Address of PPUMASK.
pub const PPU_MASK: u16 = 0x2001;

/// Address of PPUSTATUS.
pub const PPU_STATUS: u16 = 0x2002;

impl PpuRegister<'_> {
    /// The register at `address` of the I/O window.
    fn io_register(&self, address: u16) -> (r: u8)
        requires
            self.cpu_bus.wf(),
            0x2000 <= address < 0x4020,
        ensures
            bus_read(self.cpu_bus@, address) == Ok::<u8, MemoryError>(r),
    {
        match self.cpu_bus.cpu_read(address) {
            Ok(v) => v,
            Err(_) => 0,
        }
    }

    pub fn ppu_ctrl(&self) -> (r: u8)
        requires
            self.cpu_bus.wf(),
        ensures
            bus_read(self.cpu_bus@, PPU_CTRL) == Ok::<u8, MemoryError>(r),
    {
        self.io_register(PPU_CTRL)
    }

    pub fn ppu_mask(&self) -> (r: u8)
        requires
            self.cpu_bus.wf(),
        ensures
            bus_read(self.cpu_bus@, PPU_MASK) == Ok::<u8, MemoryError>(r),
    {
        self.io_register(PPU_MASK)
    }

    pub fn ppu_status(&self) -> (r: u8)
        requires
            self.cpu_bus.wf(),
        ensures
            bus_read(self.cpu_bus@, PPU_STATUS) == Ok::<u8, MemoryError>(r),
    {
        self.io_register(PPU_STATUS)
    }
}

/// The whole machine's memory as seen from the PPU side too.
pub struct SystemView {
    pub cpu: BusView,
    pub vram: Seq<u8>,
}

/// A PPU-side read: the PPU's memory first, the cartridge on a miss.
pub open spec fn system_ppu_read(s: SystemView, address: u16) -> Result<u8, MemoryError> {
    match ppu_read(s.vram, address) {
        Ok(v) => Ok(v),
        Err(_) => cart_read(s.cpu.cart, address),
    }
}

pub open spec fn system_ppu_write_result(s: SystemView, address: u16) -> Result<(), MemoryError> {
    match ppu_write_result(s.vram, address) {
        Ok(_) => Ok(()),
        Err(_) => cart_write_result(s.cpu.cart, address),
    }
}

pub open spec fn system_ppu_written(s: SystemView, address: u16, data: u8) -> SystemView {
    match ppu_write_result(s.vram, address) {
        Ok(_) => SystemView { vram: ppu_written(s.vram, address, data), ..s },
        Err(_) => SystemView {
            cpu: BusView { cart: cart_written(s.cpu.cart, address, data), ..s.cpu },
            ..s
        },
    }
}

/// The CPU bus together with the PPU's memory; both share the cartridge.
#[derive(Debug)]
pub struct Bus {
    cpu_bus: CpuBus,
    ppu_memory: PpuMemory,
}

impl View for Bus {
    type V = SystemView;

    closed spec fn view(&self) -> SystemView {
        SystemView { cpu: self.cpu_bus@, vram: self.ppu_memory@ }
    }
}

impl Bus {
    pub open spec fn wf(&self) -> bool {
        self@.cpu.wf() && self@.vram.len() == PPU_MEMORY_SIZE
    }

    pub fn new(mapper: Mapper000) -> (r: Self)
        ensures
            r.wf(),
            r@ == (SystemView {
                cpu: BusView {
                    regs: zero_registers(),
                    ram: Seq::new(RAM_SIZE as nat, |_i: int| 0u8),
                    cart: mapper@,
                },
                vram: Seq::new(PPU_MEMORY_SIZE as nat, |_i: int| 0u8),
            }),
    {
        Bus { cpu_bus: CpuBus::new(mapper), ppu_memory: PpuMemory::new() }
    }

    pub fn cpu_read(&self, address: u16) -> (r: Result<u8, MemoryError>)
        requires
            self.wf(),
        ensures
            r == bus_read(self@.cpu, address),
    {
        self.cpu_bus.cpu_read(address)
    }

    pub fn cpu_read_word(&self, address: u16) -> (r: Result<u16, MemoryError>)
        requires
            self.wf(),
        ensures
            r == bus_read_word(self@.cpu, address),
    {
        self.cpu_bus.cpu_read_word(address)
    }

    pub fn cpu_write(&mut self, address: u16, data: u8) -> (r: Result<(), MemoryError>)
        requires
            old(self).wf(),
        ensures
            final(self).wf(),
            r == bus_write_result(old(self)@.cpu, address),
            final(self)@ == (SystemView { cpu: bus_written(old(self)@.cpu, address, data), ..old(self)@ }),
    {
        self.cpu_bus.cpu_write(address, data)
    }

    pub fn cpu_write_word(&mut self, address: u16, data: u16) -> (r: Result<(), MemoryError>)
        requires
            old(self).wf(),
        ensures
            final(self).wf(),
            final(self)@.vram == old(self)@.vram,
            match bus_write_word(old(self)@.cpu, address, data) {
                Ok(s) => r is Ok && final(self)@.cpu == s,
                Err(e) => r == Err::<(), MemoryError>(e),
            },
    {
        self.cpu_bus.cpu_write_word(address, data)
    }

    pub fn ppu_read(&self, address: u16) -> (r: Result<u8, MemoryError>)
        requires
            self.wf(),
        ensures
            r == system_ppu_read(self@, address),
    {
        match self.ppu_memory.read(address) {
            Ok(v) => Ok(v),
            Err(_) => self.cpu_bus.mapper().read(address),
        }
    }

    /// A little-endian word read on the PPU side; the high byte's address wraps.
    pub fn ppu_read_word(&self, address: u16) -> (r: Result<u16, MemoryError>)
        requires
            self.wf(),
        ensures
            r == word_read(system_ppu_read(self@, address), system_ppu_read(self@, address.wrapping_add(1))),
    {
        let low = self.ppu_read(address)?;
        let high = self.ppu_read(address.wrapping_add(1))?;
        Ok(crate::memory::make_word(low, high))
    }

    pub fn ppu_write(&mut self, address: u16, data: u8) -> (r: Result<(), MemoryError>)
        requires
            old(self).wf(),
        ensures
            final(self).wf(),
            r == system_ppu_write_result(old(self)@, address),
            final(self)@ == system_ppu_written(old(self)@, address, data),
    {
        match self.ppu_memory.write(address, data) {
            Ok(()) => Ok(()),
            Err(_) => self.cpu_bus.mapper_mut().write(address, data),
        }
    }

    /// Writes the low byte, then the high byte at the next address; stops at a failed write.
    pub fn ppu_write_word(&mut self, address: u16, data: u16) -> (r: Result<(), MemoryError>)
        requires
            old(self).wf(),
        ensures
            final(self).wf(),
            match system_ppu_write_result(old(self)@, address) {
                Err(e) => r == Err::<(), MemoryError>(e),
                Ok(_) => {
                    let s1 = system_ppu_written(old(self)@, address, low_byte(data));
                    &&& r == system_ppu_write_result(s1, address.wrapping_add(1))
                    &&& final(self)@ == system_ppu_written(s1, address.wrapping_add(1), high_byte(data))
                },
            },
    {
        self.ppu_write(address, (data % 256) as u8)?;
        self.ppu_write(address.wrapping_add(1), (data / 256) as u8)
    }

    pub fn stack_push(&mut self, data: u8) -> (r: Result<(), MemoryError>)
        requires
            old(self).wf(),
        ensures
            final(self).wf(),
            r is Ok,
            final(self)@ == (SystemView { cpu: pushed(old(self)@.cpu, data), ..old(self)@ }),
    {
        self.cpu_bus.stack_push(data)
    }

    pub fn stack_push_word(&mut self, data: u16) -> (r: Result<(), MemoryError>)
        requires
            old(self).wf(),
        ensures
            final(self).wf(),
            r is Ok,
            final(self)@ == (SystemView { cpu: pushed_word(old(self)@.cpu, data), ..old(self)@ }),
    {
        self.cpu_bus.stack_push_word(data)
    }

    pub fn stack_pop(&mut self) -> (r: Result<u8, MemoryError>)
        requires
            old(self).wf(),
        ensures
            final(self).wf(),
            r == Ok::<u8, MemoryError>(pop_value(old(self)@.cpu)),
            final(self)@ == (SystemView { cpu: popped(old(self)@.cpu), ..old(self)@ }),
    {
        self.cpu_bus.stack_pop()
    }

    pub fn stack_pop_word(&mut self) -> (r: Result<u16, MemoryError>)
        requires
            old(self).wf(),
        ensures
            final(self).wf(),
            r == Ok::<u16, MemoryError>(pop_word_value(old(self)@.cpu)),
            final(self)@ == (SystemView { cpu: popped(popped(old(self)@.cpu)), ..old(self)@ }),
    {
        self.cpu_bus.stack_pop_word()
    }

    pub fn registers(&self) -> (r: &CpuRegisters)
        ensures
            *r == self@.cpu.regs,
    {
        self.cpu_bus.registers()
    }

    pub fn registers_mut(&mut self) -> (r: &mut CpuRegisters)
        ensures
            *r == old(self)@.cpu.regs,
            final(self)@ == (SystemView { cpu: old(self)@.cpu.with_regs(*final(r)), ..old(self)@ }),
    {
        self.cpu_bus.registers_mut()
    }

    pub fn ppu_register(&self) -> (r: PpuRegister<'_>)
        ensures
            r.cpu_bus@ == self@.cpu,
    {
        self.cpu_bus.ppu_register()
    }
}

} // verus!
