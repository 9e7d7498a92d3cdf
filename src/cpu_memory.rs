use vstd::prelude::*;

use crate::memory::{Memory, MemoryError};

verus! {

/// Size of the internal RAM: 2 KiB.
pub const RAM_SIZE: usize = 0x800;

/// First address past the mirrored RAM.
pub const RAM_MIRROR_END: u16 = 0x2000;

/// First address past the I/O register window.
pub const IO_REGISTER_END: u16 = 0x4020;

/// A store of `n` zero bytes.
pub fn zeroed(n: usize) -> (r: Vec<u8>)
    ensures
        r@ == Seq::new(n as nat, |_i: int| 0u8),
{
    let mut v: Vec<u8> = Vec::new();
    let mut i: usize = 0;
    while i < n
        invariant
            i <= n,
            v@ == Seq::new(i as nat, |_i: int| 0u8),
        decreases n - i,
    {
        v.push(0);
        i = i + 1;
        assert(v@ =~= Seq::new(i as nat, |_i: int| 0u8));
    }
    v
}

/// What a read of the internal RAM and I/O window returns: RAM is mirrored on its
/// low 11 bits below `$2000`, the I/O registers read 0, and other addresses miss.
pub open spec fn ram_read(ram: Seq<u8>, address: u16) -> Result<u8, MemoryError> {
    if address < RAM_MIRROR_END {
        Ok(ram[address as int % RAM_SIZE as int])
    } else if address < IO_REGISTER_END {
        Ok(0)
    } else {
        Err(MemoryError::ReadMemory(address))
    }
}

/// What a write to the internal RAM and I/O window returns.
pub open spec fn ram_write_result(address: u16) -> Result<(), MemoryError> {
    if address < IO_REGISTER_END {
        Ok(())
    } else {
        Err(MemoryError::WriteMemory(address))
    }
}

/// The RAM after a write: only the RAM mirror stores anything.
pub open spec fn ram_written(ram: Seq<u8>, address: u16, data: u8) -> Seq<u8> {
    if address < RAM_MIRROR_END {
        ram.update(address as int % RAM_SIZE as int, data)
    } else {
        ram
    }
}

/// The 2 KiB internal RAM together with the stubbed I/O register window.
#[derive(Debug)]
pub struct CpuMemory {
    ram: Vec<u8>,
}

impl View for CpuMemory {
    type V = Seq<u8>;

    closed spec fn view(&self) -> Seq<u8> {
        self.ram@
    }
}

impl CpuMemory {
    pub fn new() -> (r: Self)
        ensures
            r@ == Seq::new(RAM_SIZE as nat, |_i: int| 0u8),
    {
        CpuMemory { ram: zeroed(RAM_SIZE) }
    }
}

impl Default for CpuMemory {
    fn default() -> (r: Self)
        ensures
            r@ == Seq::new(RAM_SIZE as nat, |_i: int| 0u8),
    {
        Self::new()
    }
}

impl Memory for CpuMemory {
    open spec fn inv(&self) -> bool {
        self@.len() == RAM_SIZE
    }

    open spec fn spec_read(&self, address: u16) -> Result<u8, MemoryError> {
        ram_read(self@, address)
    }

    open spec fn spec_write_result(&self, address: u16, data: u8) -> Result<(), MemoryError> {
        ram_write_result(address)
    }

    open spec fn spec_written(&self, address: u16, data: u8, after: &Self) -> bool {
        after@ == ram_written(self@, address, data)
    }

    fn read(&self, address: u16) -> (r: Result<u8, MemoryError>) {
        if address < RAM_MIRROR_END {
            Ok(self.ram[address as usize % RAM_SIZE])
        } else if address < IO_REGISTER_END {
            Ok(0)
        } else {
            Err(MemoryError::ReadMemory(address))
        }
    }

    fn write(&mut self, address: u16, data: u8) -> (r: Result<(), MemoryError>) {
        if address < RAM_MIRROR_END {
            self.ram[address as usize % RAM_SIZE] = data;
            Ok(())
        } else if address < IO_REGISTER_END {
            Ok(())
        } else {
            Err(MemoryError::WriteMemory(address))
        }
    }
}

} // verus!
