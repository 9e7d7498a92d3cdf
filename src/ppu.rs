use vstd::prelude::*;

use crate::cpu_memory::zeroed;
use crate::mapper::{seq_read, seq_write_result, seq_written};
use crate::memory::{Memory, MemoryError};

verus! {

/// How the PPU's name tables are mirrored.
#[derive(Debug, Clone, Copy, PartialEq, Eq, Structural)]
pub enum Mirroring {
    Horizontal,
    Vertical,
    FourScreen,
}

/// Size of the PPU address space: 16 KiB.
pub const PPU_MEMORY_SIZE: usize = 0x4000;

/// The palette entries `$3F10/$14/$18/$1C` share storage with `$3F00/$04/$08/$0C`.
pub open spec fn palette_fold(a: int) -> int {
    if a == 0x3F10 || a == 0x3F14 || a == 0x3F18 || a == 0x3F1C {
        a - 0x10
    } else {
        a
    }
}

/// Where a PPU address lands: addresses wrap at 16 KiB; the name-table mirror
/// `$3000..=$3EFF` lands `$1000` lower and the palette mirror `$3F20..=$3FFF` `$20` lower.
/// Other addresses are not mapped here.
pub open spec fn ppu_slot(address: u16) -> Option<int> {
    let a = address as int % PPU_MEMORY_SIZE as int;
    if 0x3000 <= a <= 0x3EFF {
        Some(palette_fold(a - 0x1000))
    } else if 0x3F20 <= a {
        Some(palette_fold(a - 0x20))
    } else {
        None
    }
}

pub open spec fn ppu_read(mem: Seq<u8>, address: u16) -> Result<u8, MemoryError> {
    match ppu_slot(address) {
        Some(i) => seq_read(mem, i, i as u16),
        None => Err(MemoryError::AddressOutOfRange((address as int % PPU_MEMORY_SIZE as int) as u16)),
    }
}

pub open spec fn ppu_write_result(mem: Seq<u8>, address: u16) -> Result<(), MemoryError> {
    match ppu_slot(address) {
        Some(i) => seq_write_result(mem, i, i as u16),
        None => Err(MemoryError::AddressOutOfRange((address as int % PPU_MEMORY_SIZE as int) as u16)),
    }
}

pub open spec fn ppu_written(mem: Seq<u8>, address: u16, data: u8) -> Seq<u8> {
    match ppu_slot(address) {
        Some(i) => seq_written(mem, i, data),
        None => mem,
    }
}

/// The PPU's own 16 KiB of memory.
#[derive(Debug)]
pub struct PpuMemory {
    memory: Vec<u8>,
}

impl View for PpuMemory {
    type V = Seq<u8>;

    closed spec fn view(&self) -> Seq<u8> {
        self.memory@
    }
}

impl PpuMemory {
    pub fn new() -> (r: Self)
        ensures
            r@ == Seq::new(PPU_MEMORY_SIZE as nat, |_i: int| 0u8),
    {
        PpuMemory { memory: zeroed(PPU_MEMORY_SIZE) }
    }

    /// The storage index of `address`.
    fn slot(address: u16) -> (r: Result<usize, MemoryError>)
        ensures
            match ppu_slot(address) {
                Some(i) => r == Ok::<usize, MemoryError>(i as usize) && 0 <= i < PPU_MEMORY_SIZE,
                None => r == Err::<usize, MemoryError>(
                    MemoryError::AddressOutOfRange((address as int % PPU_MEMORY_SIZE as int) as u16),
                ),
            },
    {
        let address = address % 0x4000;
        let offset: u16 = if 0x3000 <= address && address <= 0x3EFF {
            0x1000
        } else if 0x3F20 <= address {
            0x20
        } else {
            return Err(MemoryError::AddressOutOfRange(address));
        };
        let a = address - offset;
        let a = if a == 0x3F10 || a == 0x3F14 || a == 0x3F18 || a == 0x3F1C {
            a - 0x10
        } else {
            a
        };
        Ok(a as usize)
    }
}

impl Default for PpuMemory {
    fn default() -> (r: Self)
        ensures
            r@ == Seq::new(PPU_MEMORY_SIZE as nat, |_i: int| 0u8),
    {
        Self::new()
    }
}

impl Memory for PpuMemory {
    open spec fn inv(&self) -> bool {
        self@.len() == PPU_MEMORY_SIZE
    }

    open spec fn spec_read(&self, address: u16) -> Result<u8, MemoryError> {
        ppu_read(self@, address)
    }

    open spec fn spec_write_result(&self, address: u16, data: u8) -> Result<(), MemoryError> {
        ppu_write_result(self@, address)
    }

    open spec fn spec_written(&self, address: u16, data: u8, after: &Self) -> bool {
        after@ == ppu_written(self@, address, data)
    }

    fn read(&self, address: u16) -> (r: Result<u8, MemoryError>) {
        let i = Self::slot(address)?;
        Ok(self.memory[i])
    }

    fn write(&mut self, address: u16, data: u8) -> (r: Result<(), MemoryError>) {
        let i = Self::slot(address)?;
        self.memory[i] = data;
        Ok(())
    }
}

/// A palette colour packed as `0xRRGGBBAA`.
#[derive(Debug, Clone, Copy, PartialEq, Eq, Structural)]
pub struct PaletteData(pub u32);

/// The byte of `data` at byte position `index`, counted from the least significant.
pub open spec fn color_of(data: u32, index: u32) -> u8 {
    ((data >> (index * 8)) & 0xFF) as u8
}

/// The packed colour of `(r, g, b, a)`.
pub open spec fn rgba(c: [u8; 4]) -> u32 {
    (c[0] as u32) << 24 | (c[1] as u32) << 16 | (c[2] as u32) << 8 | (c[3] as u32)
}

impl PaletteData {
    pub fn new(data: u32) -> (r: Self)
        ensures
            r.0 == data,
    {
        PaletteData(data)
    }

    pub fn from_rgba(color: [u8; 4]) -> (r: Self)
        ensures
            r.0 == rgba(color),
    {
        PaletteData(
            (color[0] as u32) << 24 | (color[1] as u32) << 16 | (color[2] as u32) << 8
                | (color[3] as u32),
        )
    }

    fn color(&self, index: u32) -> (r: u8)
        requires
            index < 4,
        ensures
            r == color_of(self.0, index),
    {
        ((self.0 >> (index * 8)) & 0xFF) as u8
    }

    pub fn r(&self) -> (r: u8)
        ensures
            r == color_of(self.0, 3),
    {
        self.color(3)
    }

    pub fn g(&self) -> (r: u8)
        ensures
            r == color_of(self.0, 2),
    {
        self.color(2)
    }

    pub fn b(&self) -> (r: u8)
        ensures
            r == color_of(self.0, 1),
    {
        self.color(1)
    }

    pub fn a(&self) -> (r: u8)
        ensures
            r == color_of(self.0, 0),
    {
        self.color(0)
    }

    pub fn data(&self) -> (r: u32)
        ensures
            r == self.0,
    {
        self.0
    }
}

impl From<u32> for PaletteData {
    fn from(data: u32) -> (r: Self)
        ensures
            r.0 == data,
    {
        PaletteData(data)
    }
}

impl vstd::std_specs::convert::FromSpecImpl<u32> for PaletteData {
    open spec fn obeys_from_spec() -> bool {
        true
    }

    open spec fn from_spec(data: u32) -> PaletteData {
        PaletteData(data)
    }
}

/// A packed colour's bytes read back in the order they were packed.
pub proof fn lemma_rgba_channels(c: [u8; 4])
    ensures
        color_of(rgba(c), 3) == c[0],
        color_of(rgba(c), 2) == c[1],
        color_of(rgba(c), 1) == c[2],
        color_of(rgba(c), 0) == c[3],
{
    let (c0, c1, c2, c3) = (c[0], c[1], c[2], c[3]);
    let d = rgba(c);
    assert(d == (c0 as u32) << 24 | (c1 as u32) << 16 | (c2 as u32) << 8 | (c3 as u32));
    assert(d == (c0 as u32) << 24 | (c1 as u32) << 16 | (c2 as u32) << 8 | (c3 as u32) ==> (
    ((d >> 24u32) & 0xFF) as u8 == c0 && ((d >> 16u32) & 0xFF) as u8 == c1 && ((d >> 8u32)
        & 0xFF) as u8 == c2 && ((d >> 0u32) & 0xFF) as u8 == c3)) by (bit_vector);
}

} // verus!
