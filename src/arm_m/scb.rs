//! ARMv7-M System Control Block support.
use vstd::prelude::*;

verus! {

use crate::arm_m::reg::Reg;
use crate::bits::{
    decoded,
    field,
    get_field,
    replaced,
    with_field,
    BadBits,
    BitsResult,
    BitsWrapper,
    FromBits,
    IntoBits,
};

/// The System Control Block, as the register this library uses.
pub struct Scb {
    pub cpacr: Reg<u32>,
}

/// Address of the System Control Block.
pub const SCB_ADDRESS: usize = 0xe000_ed00;

/// Coprocessor Access Control Register.
#[derive(Clone, Copy, Debug, PartialEq, Eq, Structural)]
pub struct Cpacr(pub u32);

impl BitsWrapper for Cpacr {
    open spec fn raw(self) -> u32 {
        self.0
    }

    fn from_raw(v: u32) -> (r: Self) {
        Cpacr(v)
    }
}

/// Access to a coprocessor.  The pattern `0b10` is reserved.
#[derive(Clone, Copy, Debug, PartialEq, Eq, Structural)]
pub enum CpAccess {
    /// Any access faults.
    Denied,
    /// Privileged access only.
    Privileged,
    /// Full access.
    Full,
}

impl IntoBits for CpAccess {
    open spec fn bits_of(self) -> u32 {
        match self {
            CpAccess::Denied => 0b00,
            CpAccess::Privileged => 0b01,
            CpAccess::Full => 0b11,
        }
    }

    fn into_bits(self) -> u32 {
        match self {
            CpAccess::Denied => 0b00,
            CpAccess::Privileged => 0b01,
            CpAccess::Full => 0b11,
        }
    }
}

impl FromBits for CpAccess {
    open spec fn valid_bits(bits: u32) -> bool {
        bits == 0b00 || bits == 0b01 || bits == 0b11
    }

    fn from_bits(bits: u32) -> (r: BitsResult<Self>) {
        match bits {
            0b00 => Ok(CpAccess::Denied),
            0b01 => Ok(CpAccess::Privileged),
            0b11 => Ok(CpAccess::Full),
            _ => Err(BadBits(bits)),
        }
    }
}

impl Cpacr {
    /// Access to coprocessor 11 (the FPU's upper half).
    pub fn get_cp11(self) -> (r: BitsResult<CpAccess>)
        ensures
            decoded(r, field(self.0, 23, 22)),
    {
        get_field(self.0, 23, 22)
    }

    /// Access to coprocessor 11 (the FPU's upper half).
    pub fn with_cp11(self, v: CpAccess) -> (r: Self)
        ensures
            r.0 == replaced(self.0, 23, 22, v.bits_of()),
    {
        Cpacr(with_field(self.0, 23, 22, v))
    }

    /// Access to coprocessor 10 (the FPU's lower half).
    pub fn get_cp10(self) -> (r: BitsResult<CpAccess>)
        ensures
            decoded(r, field(self.0, 21, 20)),
    {
        get_field(self.0, 21, 20)
    }

    /// Access to coprocessor 10 (the FPU's lower half).
    pub fn with_cp10(self, v: CpAccess) -> (r: Self)
        ensures
            r.0 == replaced(self.0, 21, 20, v.bits_of()),
    {
        Cpacr(with_field(self.0, 21, 20, v))
    }
}

impl Scb {
    pub fn read_cpacr(&self) -> (r: Cpacr)
        ensures
            r.0 == self.cpacr.value(),
    {
        Cpacr(self.cpacr.get())
    }

    pub fn write_cpacr(&mut self, v: Cpacr)
        ensures
            final(self).cpacr.value() == v.0,
    {
        self.cpacr.set(v.0)
    }

    pub fn update_cpacr<F: FnOnce(Cpacr) -> Cpacr>(&mut self, f: F)
        requires
            f.requires((Cpacr(old(self).cpacr.value()),)),
        ensures
            f.ensures((Cpacr(old(self).cpacr.value()),), Cpacr(final(self).cpacr.value())),
    {
        let v = f(self.read_cpacr());
        self.write_cpacr(v)
    }
}

/// The floating-point extension of the System Control Block, as the register
/// this library uses.
pub struct ScbFp {
    pub fpccr: Reg<u32>,
}

/// Address of the floating-point extension's registers.
pub const SCB_FP_ADDRESS: usize = 0xe000_ef34;

/// Floating-point Context Control Register.
#[derive(Clone, Copy, Debug, PartialEq, Eq, Structural)]
pub struct Fpccr(pub u32);

impl BitsWrapper for Fpccr {
    open spec fn raw(self) -> u32 {
        self.0
    }

    fn from_raw(v: u32) -> (r: Self) {
        Fpccr(v)
    }
}

impl Fpccr {
    /// Automatic state preservation on exception entry.
    pub fn get_aspen(self) -> (r: BitsResult<bool>)
        ensures
            decoded(r, field(self.0, 31, 31)),
    {
        get_field(self.0, 31, 31)
    }

    /// Automatic state preservation on exception entry.
    pub fn with_aspen(self, v: bool) -> (r: Self)
        ensures
            r.0 == replaced(self.0, 31, 31, v.bits_of()),
    {
        Fpccr(with_field(self.0, 31, 31, v))
    }

    /// Lazy state preservation.
    pub fn get_lspen(self) -> (r: BitsResult<bool>)
        ensures
            decoded(r, field(self.0, 30, 30)),
    {
        get_field(self.0, 30, 30)
    }

    /// Lazy state preservation.
    pub fn with_lspen(self, v: bool) -> (r: Self)
        ensures
            r.0 == replaced(self.0, 30, 30, v.bits_of()),
    {
        Fpccr(with_field(self.0, 30, 30, v))
    }

    pub fn get_monrdy(self) -> (r: BitsResult<bool>)
        ensures
            decoded(r, field(self.0, 8, 8)),
    {
        get_field(self.0, 8, 8)
    }

    pub fn with_monrdy(self, v: bool) -> (r: Self)
        ensures
            r.0 == replaced(self.0, 8, 8, v.bits_of()),
    {
        Fpccr(with_field(self.0, 8, 8, v))
    }

    pub fn get_bfrdy(self) -> (r: BitsResult<bool>)
        ensures
            decoded(r, field(self.0, 6, 6)),
    {
        get_field(self.0, 6, 6)
    }

    pub fn with_bfrdy(self, v: bool) -> (r: Self)
        ensures
            r.0 == replaced(self.0, 6, 6, v.bits_of()),
    {
        Fpccr(with_field(self.0, 6, 6, v))
    }

    pub fn get_mmrdy(self) -> (r: BitsResult<bool>)
        ensures
            decoded(r, field(self.0, 5, 5)),
    {
        get_field(self.0, 5, 5)
    }

    pub fn with_mmrdy(self, v: bool) -> (r: Self)
        ensures
            r.0 == replaced(self.0, 5, 5, v.bits_of()),
    {
        Fpccr(with_field(self.0, 5, 5, v))
    }

    pub fn get_hfrdy(self) -> (r: BitsResult<bool>)
        ensures
            decoded(r, field(self.0, 4, 4)),
    {
        get_field(self.0, 4, 4)
    }

    pub fn with_hfrdy(self, v: bool) -> (r: Self)
        ensures
            r.0 == replaced(self.0, 4, 4, v.bits_of()),
    {
        Fpccr(with_field(self.0, 4, 4, v))
    }

    pub fn get_thread(self) -> (r: BitsResult<bool>)
        ensures
            decoded(r, field(self.0, 3, 3)),
    {
        get_field(self.0, 3, 3)
    }

    pub fn with_thread(self, v: bool) -> (r: Self)
        ensures
            r.0 == replaced(self.0, 3, 3, v.bits_of()),
    {
        Fpccr(with_field(self.0, 3, 3, v))
    }

    pub fn get_user(self) -> (r: BitsResult<bool>)
        ensures
            decoded(r, field(self.0, 1, 1)),
    {
        get_field(self.0, 1, 1)
    }

    pub fn with_user(self, v: bool) -> (r: Self)
        ensures
            r.0 == replaced(self.0, 1, 1, v.bits_of()),
    {
        Fpccr(with_field(self.0, 1, 1, v))
    }

    /// Whether lazy state preservation is active.
    pub fn get_lspact(self) -> (r: BitsResult<bool>)
        ensures
            decoded(r, field(self.0, 0, 0)),
    {
        get_field(self.0, 0, 0)
    }

    /// Whether lazy state preservation is active.
    pub fn with_lspact(self, v: bool) -> (r: Self)
        ensures
            r.0 == replaced(self.0, 0, 0, v.bits_of()),
    {
        Fpccr(with_field(self.0, 0, 0, v))
    }
}

impl ScbFp {
    pub fn read_fpccr(&self) -> (r: Fpccr)
        ensures
            r.0 == self.fpccr.value(),
    {
        Fpccr(self.fpccr.get())
    }

    pub fn write_fpccr(&mut self, v: Fpccr)
        ensures
            final(self).fpccr.value() == v.0,
    {
        self.fpccr.set(v.0)
    }

    pub fn update_fpccr<F: FnOnce(Fpccr) -> Fpccr>(&mut self, f: F)
        requires
            f.requires((Fpccr(old(self).fpccr.value()),)),
        ensures
            f.ensures((Fpccr(old(self).fpccr.value()),), Fpccr(final(self).fpccr.value())),
    {
        let v = f(self.read_fpccr());
        self.write_fpccr(v)
    }
}

} // verus!
