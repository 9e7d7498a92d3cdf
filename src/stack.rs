use vstd::prelude::*;

use crate::cpu_memory::{CpuMemory, RAM_SIZE};
use crate::memory::{high_byte, low_byte, word_of, Memory, MemoryError};
use crate::register::CpuRegisters;

verus! {

/// Base of the hardware stack page.
pub const ADDRESS_CPU_STACK_START: u16 = 0x0100;

/// The RAM index that the stack pointer `sp` designates: `$0100 | sp`.
pub open spec fn stack_slot(sp: u8) -> int {
    0x100 + sp as int
}

/// The registers with the stack pointer moved down one byte, as after a push.
pub open spec fn sp_pushed(r: CpuRegisters) -> CpuRegisters {
    CpuRegisters { sp: r.sp.wrapping_sub(1), ..r }
}

/// The registers with the stack pointer moved up one byte, as after a pop.
pub open spec fn sp_popped(r: CpuRegisters) -> CpuRegisters {
    CpuRegisters { sp: r.sp.wrapping_add(1), ..r }
}

/// The byte that a pop returns.
pub open spec fn top_of(ram: Seq<u8>, r: CpuRegisters) -> u8 {
    ram[stack_slot(r.sp.wrapping_add(1))]
}

proof fn lemma_stack_slot_in_ram(sp: u8)
    ensures
        0x100 <= stack_slot(sp) < 0x200,
        stack_slot(sp) < RAM_SIZE,
        stack_slot(sp) == (ADDRESS_CPU_STACK_START + sp) as int % RAM_SIZE as int,
{
}

/// Writes `data` at `$0100 | SP`, then decrements SP (mod 256).
pub fn push(memory: &mut CpuMemory, registers: &mut CpuRegisters, data: u8) -> (r: Result<
    (),
    MemoryError,
>)
    requires
        old(memory).inv(),
    ensures
        final(memory).inv(),
        r is Ok,
        final(memory)@ == old(memory)@.update(stack_slot(old(registers).sp), data),
        *final(registers) == sp_pushed(*old(registers)),
{
    proof {
        lemma_stack_slot_in_ram(registers.sp);
    }
    let sp = registers.sp as u16;
    match memory.write(ADDRESS_CPU_STACK_START + sp, data) {
        Ok(()) => {},
        Err(e) => return Err(e),
    }
    registers.sp = registers.sp.wrapping_sub(1);
    Ok(())
}

/// Pushes the high byte, then the low byte, so that a word pop reads low then high.
pub fn push_word(memory: &mut CpuMemory, registers: &mut CpuRegisters, data: u16) -> (r: Result<
    (),
    MemoryError,
>)
    requires
        old(memory).inv(),
    ensures
        final(memory).inv(),
        r is Ok,
        final(memory)@ == old(memory)@.update(stack_slot(old(registers).sp), high_byte(data)).update(
            stack_slot(old(registers).sp.wrapping_sub(1)),
            low_byte(data),
        ),
        *final(registers) == sp_pushed(sp_pushed(*old(registers))),
{
    match push(memory, registers, (data / 256) as u8) {
        Ok(()) => {},
        Err(e) => return Err(e),
    }
    push(memory, registers, (data % 256) as u8)
}

/// Increments SP (mod 256), then reads `$0100 | SP`.
pub fn pop(memory: &mut CpuMemory, registers: &mut CpuRegisters) -> (r: Result<u8, MemoryError>)
    requires
        old(memory).inv(),
    ensures
        *final(memory) == *old(memory),
        r == Ok::<u8, MemoryError>(top_of(old(memory)@, *old(registers))),
        *final(registers) == sp_popped(*old(registers)),
{
    registers.sp = registers.sp.wrapping_add(1);
    proof {
        lemma_stack_slot_in_ram(registers.sp);
    }
    let sp = registers.sp as u16;
    memory.read(ADDRESS_CPU_STACK_START + sp)
}

/// Pops the low byte, then the high byte.
pub fn pop_word(memory: &mut CpuMemory, registers: &mut CpuRegisters) -> (r: Result<
    u16,
    MemoryError,
>)
    requires
        old(memory).inv(),
    ensures
        *final(memory) == *old(memory),
        r == Ok::<u16, MemoryError>(
            word_of(
                top_of(old(memory)@, *old(registers)),
                top_of(old(memory)@, sp_popped(*old(registers))),
            ),
        ),
        *final(registers) == sp_popped(sp_popped(*old(registers))),
{
    let low = match pop(memory, registers) {
        Ok(v) => v,
        Err(e) => return Err(e),
    };
    let high = match pop(memory, registers) {
        Ok(v) => v,
        Err(e) => return Err(e),
    };
    Ok(crate::memory::make_word(low, high))
}

} // verus!
