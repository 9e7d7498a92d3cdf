use vstd::prelude::*;

use crate::memory::MemoryError;

verus! {

/// Why a CPU step failed.
#[derive(Debug, Clone, Copy, PartialEq, Eq, Structural)]
pub enum CpuError {
    /// A bus access failed.
    Memory(MemoryError),
    /// The opcode is not in the decode table.
    UnknownInstruction(u8),
}

impl From<MemoryError> for CpuError {
    fn from(e: MemoryError) -> (r: Self)
        ensures
            r == CpuError::Memory(e),
    {
        CpuError::Memory(e)
    }
}

impl vstd::std_specs::convert::FromSpecImpl<MemoryError> for CpuError {
    open spec fn obeys_from_spec() -> bool {
        true
    }

    open spec fn from_spec(e: MemoryError) -> CpuError {
        CpuError::Memory(e)
    }
}

/// Why an iNES image was refused.
#[derive(Debug, Clone, PartialEq, Eq)]
pub enum NesError {
    InvalidInes(String),
}

/// Why an iNES header was refused.
#[derive(Debug, Clone, PartialEq, Eq)]
pub enum RomError {
    InvalidInes(String),
}

} // verus!
