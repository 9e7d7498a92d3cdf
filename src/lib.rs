//! A verified core of a MOS 6502 interpreter as found in the NES: the register file and
//! its flags, the CPU bus with its RAM mirror, I/O window and NROM cartridge, the thirteen
//! addressing modes, the decode table, the semantics of every supported instruction, the
//! cycle accounting, the interrupt entries and the clock-driven driver, plus the iNES
//! loader and the PPU's memory.
//!
//! Each executable function is proved against spec functions over plain views
//! (`BusView`, `CartView`, `CpuView`); `laws` gathers the properties that relate
//! several of them.

pub mod error;
pub mod memory;
pub mod register;
pub mod cpu_memory;
pub mod mapper;
pub mod stack;
pub mod bus;
pub mod addressing;
pub mod instruction;
pub mod clock;
pub mod cpu;
pub mod ppu;
pub mod rom;
pub mod laws;
