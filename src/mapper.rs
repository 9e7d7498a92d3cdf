use vstd::prelude::*;

use crate::cpu_memory::zeroed;
use crate::memory::{Memory, MemoryError};

verus! {

/// Size of the PRG-RAM on an NROM cartridge: 8 KiB.
pub const PRG_RAM_SIZE: usize = 0x2000;

/// Size of one PRG-ROM bank, and of a whole NROM-128 PRG-ROM: 16 KiB.
pub const NROM_128_SIZE: usize = 0x4000;

/// A cartridge: a byte-addressable store that also names its mapper number.
pub trait Mapper: Memory {
    spec fn spec_number(&self) -> u8;

    fn number(&self) -> (r: u8)
        ensures
            r == self.spec_number(),
    ;
}

/// The contents of an NROM cartridge.
pub struct CartView {
    pub prg_ram: Seq<u8>,
    pub prg_rom: Seq<u8>,
    pub chr_rom: Seq<u8>,
    pub nrom_128: bool,
}

/// Where an address lands on an NROM cartridge.
pub enum CartSlot {
    Chr(int),
    PrgRam(int),
    PrgRom(int),
    Unmapped,
}

/// CHR below `$2000`, PRG-RAM at `$6000..=$7FFF`, the first PRG bank at `$8000..=$BFFF`,
/// and at `$C000..=$FFFF` the second bank, or the first again on NROM-128.
pub open spec fn cart_slot(nrom_128: bool, address: u16) -> CartSlot {
    if address < 0x2000 {
        CartSlot::Chr(address as int)
    } else if 0x6000 <= address < 0x8000 {
        CartSlot::PrgRam(address - 0x6000)
    } else if 0x8000 <= address < 0xC000 {
        CartSlot::PrgRom(address - 0x8000)
    } else if 0xC000 <= address {
        if nrom_128 {
            CartSlot::PrgRom(address - 0xC000)
        } else {
            CartSlot::PrgRom(address - 0x8000)
        }
    } else {
        CartSlot::Unmapped
    }
}

/// Byte `i` of `s`, or a read miss at `address`.
pub open spec fn seq_read(s: Seq<u8>, i: int, address: u16) -> Result<u8, MemoryError> {
    if 0 <= i < s.len() {
        Ok(s[i])
    } else {
        Err(MemoryError::ReadMemory(address))
    }
}

pub open spec fn cart_read(c: CartView, address: u16) -> Result<u8, MemoryError> {
    match cart_slot(c.nrom_128, address) {
        CartSlot::Chr(i) => seq_read(c.chr_rom, i, address),
        CartSlot::PrgRam(i) => seq_read(c.prg_ram, i, address),
        CartSlot::PrgRom(i) => seq_read(c.prg_rom, i, address),
        CartSlot::Unmapped => Err(MemoryError::AddressOutOfRange(address)),
    }
}

/// What a write to `s` at `i` returns.
pub open spec fn seq_write_result(s: Seq<u8>, i: int, address: u16) -> Result<(), MemoryError> {
    if 0 <= i < s.len() {
        Ok(())
    } else {
        Err(MemoryError::WriteMemory(address))
    }
}

/// `s` with byte `i` replaced, when `i` falls inside it.
pub open spec fn seq_written(s: Seq<u8>, i: int, data: u8) -> Seq<u8> {
    if 0 <= i < s.len() {
        s.update(i, data)
    } else {
        s
    }
}

pub open spec fn cart_write_result(c: CartView, address: u16) -> Result<(), MemoryError> {
    match cart_slot(c.nrom_128, address) {
        CartSlot::Chr(i) => seq_write_result(c.chr_rom, i, address),
        CartSlot::PrgRam(i) => seq_write_result(c.prg_ram, i, address),
        CartSlot::PrgRom(i) => seq_write_result(c.prg_rom, i, address),
        CartSlot::Unmapped => Err(MemoryError::AddressOutOfRange(address)),
    }
}

/// The cartridge after a write; ROM regions take writes too.
pub open spec fn cart_written(c: CartView, address: u16, data: u8) -> CartView {
    match cart_slot(c.nrom_128, address) {
        CartSlot::Chr(i) => CartView { chr_rom: seq_written(c.chr_rom, i, data), ..c },
        CartSlot::PrgRam(i) => CartView { prg_ram: seq_written(c.prg_ram, i, data), ..c },
        CartSlot::PrgRom(i) => CartView { prg_rom: seq_written(c.prg_rom, i, data), ..c },
        CartSlot::Unmapped => c,
    }
}

/// Mapper 0 (NROM): fixed PRG-ROM and CHR-ROM, 8 KiB of PRG-RAM.
#[derive(Debug)]
pub struct Mapper000 {
    prg_ram: Vec<u8>,
    prg_rom: Vec<u8>,
    chr_rom: Vec<u8>,
    /// A 16 KiB PRG-ROM is mirrored into the last 16 KiB.
    nrom_128: bool,
}

/// The NROM cartridge under its mapper number alone.
pub type Mapper0 = Mapper000;

impl View for Mapper000 {
    type V = CartView;

    closed spec fn view(&self) -> CartView {
        CartView {
            prg_ram: self.prg_ram@,
            prg_rom: self.prg_rom@,
            chr_rom: self.chr_rom@,
            nrom_128: self.nrom_128,
        }
    }
}

/// Index `i` of a store of length `len`, when it falls inside it.
fn slot_index(i: u16, len: usize) -> (r: Option<usize>)
    ensures
        r == (if (i as int) < len {
            Some(i as usize)
        } else {
            None::<usize>
        }),
{
    if (i as usize) < len {
        Some(i as usize)
    } else {
        None
    }
}

impl Mapper000 {
    pub fn new(prg_rom: Vec<u8>, chr_rom: Vec<u8>) -> (r: Self)
        ensures
            r@ == (CartView {
                prg_ram: Seq::new(PRG_RAM_SIZE as nat, |_i: int| 0u8),
                prg_rom: prg_rom@,
                chr_rom: chr_rom@,
                nrom_128: prg_rom@.len() == NROM_128_SIZE,
            }),
    {
        let nrom_128 = prg_rom.len() == NROM_128_SIZE;
        Mapper000 { prg_ram: zeroed(PRG_RAM_SIZE), prg_rom, chr_rom, nrom_128 }
    }

    /// The store and index that `address` lands on; `None` when unmapped.
    fn locate(&self, address: u16) -> (r: Option<(u8, u16)>)
        ensures
            match cart_slot(self.nrom_128, address) {
                CartSlot::Chr(i) => r == Some((0u8, i as u16)),
                CartSlot::PrgRam(i) => r == Some((1u8, i as u16)),
                CartSlot::PrgRom(i) => r == Some((2u8, i as u16)),
                CartSlot::Unmapped => r is None,
            },
    {
        if address < 0x2000 {
            Some((0, address))
        } else if 0x6000 <= address && address < 0x8000 {
            Some((1, address - 0x6000))
        } else if 0x8000 <= address && address < 0xC000 {
            Some((2, address - 0x8000))
        } else if 0xC000 <= address {
            if self.nrom_128 {
                Some((2, address - 0xC000))
            } else {
                Some((2, address - 0x8000))
            }
        } else {
            None
        }
    }
}

impl Memory for Mapper000 {
    open spec fn inv(&self) -> bool {
        true
    }

    open spec fn spec_read(&self, address: u16) -> Result<u8, MemoryError> {
        cart_read(self@, address)
    }

    open spec fn spec_write_result(&self, address: u16, data: u8) -> Result<(), MemoryError> {
        cart_write_result(self@, address)
    }

    open spec fn spec_written(&self, address: u16, data: u8, after: &Self) -> bool {
        after@ == cart_written(self@, address, data)
    }

    fn read(&self, address: u16) -> (r: Result<u8, MemoryError>) {
        match self.locate(address) {
            None => Err(MemoryError::AddressOutOfRange(address)),
            Some((region, i)) => {
                let store = if region == 0 {
                    &self.chr_rom
                } else if region == 1 {
                    &self.prg_ram
                } else {
                    &self.prg_rom
                };
                match slot_index(i, store.len()) {
                    Some(k) => Ok(store[k]),
                    None => Err(MemoryError::ReadMemory(address)),
                }
            },
        }
    }

    fn write(&mut self, address: u16, data: u8) -> (r: Result<(), MemoryError>) {
        match self.locate(address) {
            None => Err(MemoryError::AddressOutOfRange(address)),
            Some((region, i)) => {
                if region == 0 {
                    match slot_index(i, self.chr_rom.len()) {
                        Some(k) => {
                            self.chr_rom[k] = data;
                            Ok(())
                        },
                        None => Err(MemoryError::WriteMemory(address)),
                    }
                } else if region == 1 {
                    match slot_index(i, self.prg_ram.len()) {
                        Some(k) => {
                            self.prg_ram[k] = data;
                            Ok(())
                        },
                        None => Err(MemoryError::WriteMemory(address)),
                    }
                } else {
                    match slot_index(i, self.prg_rom.len()) {
                        Some(k) => {
                            self.prg_rom[k] = data;
                            Ok(())
                        },
                        None => Err(MemoryError::WriteMemory(address)),
                    }
                }
            },
        }
    }
}

impl Mapper for Mapper000 {
    open spec fn spec_number(&self) -> u8 {
        0
    }

    fn number(&self) -> (r: u8) {
        0
    }
}

/// The cartridge for mapper `number`, when that mapper is supported (only NROM).
pub fn make_mapper(number: u8, prg_rom: Vec<u8>, chr_rom: Vec<u8>) -> (r: Option<Mapper000>)
    ensures
        number == 0 <==> r is Some,
        r matches Some(m) ==> m@ == (CartView {
            prg_ram: Seq::new(PRG_RAM_SIZE as nat, |_i: int| 0u8),
            prg_rom: prg_rom@,
            chr_rom: chr_rom@,
            nrom_128: prg_rom@.len() == NROM_128_SIZE,
        }),
{
    if number == 0 {
        Some(Mapper000::new(prg_rom, chr_rom))
    } else {
        None
    }
}

} // verus!
