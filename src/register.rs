use vstd::prelude::*;

verus! {

/// Carry.
pub const P_FLAGS_C: u8 = 0x01;
/// Zero.
pub const P_FLAGS_Z: u8 = 0x02;
/// IRQ disable.
pub const P_FLAGS_I: u8 = 0x04;
/// Decimal: settable, ignored by the arithmetic.
pub const P_FLAGS_D: u8 = 0x08;
/// Break: only meaningful on a pushed copy of P.
pub const P_FLAGS_B: u8 = 0x10;
/// Unused: held set.
pub const P_FLAGS_U: u8 = 0x20;
/// Signed overflow.
pub const P_FLAGS_V: u8 = 0x40;
/// Negative.
pub const P_FLAGS_N: u8 = 0x80;

/// `p` with the bits of `flag` set when `when` holds, cleared otherwise.
pub open spec fn with_flag(p: u8, flag: u8, when: bool) -> u8 {
    if when {
        p | flag
    } else {
        p & !flag
    }
}

/// Whether every bit of `flag` is set in `p`.
pub open spec fn flag_of(p: u8, flag: u8) -> bool {
    p & flag == flag
}

/// `p` with Z set from `v == 0` and N from bit 7 of `v`.
pub open spec fn with_zn(p: u8, v: u8) -> u8 {
    with_flag(with_flag(p, P_FLAGS_Z, v == 0), P_FLAGS_N, v >= 0x80)
}

/// A byte of bit flags.
pub trait Flags: Sized {
    /// The flag bits as a byte.
    spec fn flag_bits(&self) -> u8;

    fn has_flag(&self, flag: u8) -> (r: bool)
        ensures
            r == flag_of(self.flag_bits(), flag),
    ;

    fn add_flag(&mut self, flag: u8)
        ensures
            final(self).flag_bits() == old(self).flag_bits() | flag,
    ;

    fn set_flag(&mut self, flag: u8, when: bool)
        ensures
            final(self).flag_bits() == with_flag(old(self).flag_bits(), flag, when),
    ;
}

impl Flags for u8 {
    open spec fn flag_bits(&self) -> u8 {
        *self
    }

    fn has_flag(&self, flag: u8) -> (r: bool) {
        (*self & flag) == flag
    }

    fn add_flag(&mut self, flag: u8) {
        self.set_flag(flag, true);
    }

    fn set_flag(&mut self, flag: u8, when: bool) {
        if when {
            *self = *self | flag;
        } else {
            *self = *self & !flag;
        }
    }
}

/// The register file of the 6502.
#[derive(Debug, Clone, Copy, PartialEq, Eq, Structural)]
pub struct CpuRegisters {
    pub a: u8,
    pub x: u8,
    pub y: u8,
    pub sp: u8,
    pub pc: u16,
    pub p: u8,
}

/// The register file with every register zero.
pub open spec fn zero_registers() -> CpuRegisters {
    CpuRegisters { a: 0, x: 0, y: 0, sp: 0, pc: 0, p: 0 }
}

impl Default for CpuRegisters {
    fn default() -> (r: Self)
        ensures
            r == zero_registers(),
    {
        CpuRegisters::new()
    }
}

impl CpuRegisters {
    pub fn new() -> (r: Self)
        ensures
            r == zero_registers(),
    {
        CpuRegisters { a: 0, x: 0, y: 0, sp: 0, pc: 0, p: 0 }
    }

    /// Sets Z from `value == 0` and N from bit 7 of `value`.
    pub fn set_z_n_flags(&mut self, value: u8)
        ensures
            *final(self) == (CpuRegisters { p: with_zn(old(self).p, value), ..*old(self) }),
    {
        self.set_z_flag(value == 0);
        self.set_n_flag(value >= 0x80);
    }

    pub fn set_z_flag(&mut self, when: bool)
        ensures
            *final(self) == (CpuRegisters { p: with_flag(old(self).p, P_FLAGS_Z, when), ..*old(self) }),
    {
        self.p.set_flag(P_FLAGS_Z, when);
    }

    pub fn set_n_flag(&mut self, when: bool)
        ensures
            *final(self) == (CpuRegisters { p: with_flag(old(self).p, P_FLAGS_N, when), ..*old(self) }),
    {
        self.p.set_flag(P_FLAGS_N, when);
    }

    pub fn set_c_flag(&mut self, when: bool)
        ensures
            *final(self) == (CpuRegisters { p: with_flag(old(self).p, P_FLAGS_C, when), ..*old(self) }),
    {
        self.p.set_flag(P_FLAGS_C, when);
    }

    pub fn set_v_flag(&mut self, when: bool)
        ensures
            *final(self) == (CpuRegisters { p: with_flag(old(self).p, P_FLAGS_V, when), ..*old(self) }),
    {
        self.p.set_flag(P_FLAGS_V, when);
    }

    pub fn set_i_flag(&mut self, when: bool)
        ensures
            *final(self) == (CpuRegisters { p: with_flag(old(self).p, P_FLAGS_I, when), ..*old(self) }),
    {
        self.p.set_flag(P_FLAGS_I, when);
    }

    pub fn set_d_flag(&mut self, when: bool)
        ensures
            *final(self) == (CpuRegisters { p: with_flag(old(self).p, P_FLAGS_D, when), ..*old(self) }),
    {
        self.p.set_flag(P_FLAGS_D, when);
    }

    pub fn set_b_flag(&mut self, when: bool)
        ensures
            *final(self) == (CpuRegisters { p: with_flag(old(self).p, P_FLAGS_B, when), ..*old(self) }),
    {
        self.p.set_flag(P_FLAGS_B, when);
    }

    pub fn set_u_flag(&mut self, when: bool)
        ensures
            *final(self) == (CpuRegisters { p: with_flag(old(self).p, P_FLAGS_U, when), ..*old(self) }),
    {
        self.p.set_flag(P_FLAGS_U, when);
    }

    pub fn clear_flags(&mut self)
        ensures
            *final(self) == (CpuRegisters { p: 0, ..*old(self) }),
    {
        self.p = 0;
    }

    pub fn has_z_flag(&self) -> (r: bool)
        ensures
            r == flag_of(self.p, P_FLAGS_Z),
    {
        self.p.has_flag(P_FLAGS_Z)
    }

    pub fn has_c_flag(&self) -> (r: bool)
        ensures
            r == flag_of(self.p, P_FLAGS_C),
    {
        self.p.has_flag(P_FLAGS_C)
    }

    pub fn has_n_flag(&self) -> (r: bool)
        ensures
            r == flag_of(self.p, P_FLAGS_N),
    {
        self.p.has_flag(P_FLAGS_N)
    }

    pub fn has_i_flag(&self) -> (r: bool)
        ensures
            r == flag_of(self.p, P_FLAGS_I),
    {
        self.p.has_flag(P_FLAGS_I)
    }

    pub fn has_b_flag(&self) -> (r: bool)
        ensures
            r == flag_of(self.p, P_FLAGS_B),
    {
        self.p.has_flag(P_FLAGS_B)
    }

    pub fn has_v_flag(&self) -> (r: bool)
        ensures
            r == flag_of(self.p, P_FLAGS_V),
    {
        self.p.has_flag(P_FLAGS_V)
    }
}

} // verus!
