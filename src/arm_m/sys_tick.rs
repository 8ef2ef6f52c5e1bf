//! ARMv7-M SysTick timer support.
use vstd::prelude::*;

verus! {

use crate::arm_m::reg::Reg;
use crate::bits::{
    bit,
    field,
    get_total_field,
    lemma_small_masks,
    replaced,
    with_field,
    BadBits,
    BitsResult,
    FromBits,
    FromBitsTotal,
    IntoBits,
};

/// The SysTick timer's register block.
pub struct SysTick {
    pub csr: Reg<u32>,
    pub rvr: Reg<u32>,
    pub cvr: Reg<u32>,
    pub calib: Reg<u32>,
}

impl SysTick {
    pub fn read_csr(&self) -> (r: Csr)
        ensures
            r.0 == self.csr.value(),
    {
        Csr(self.csr.get())
    }

    pub fn write_csr(&mut self, v: Csr)
        ensures
            final(self).csr.value() == v.0,
            final(self).rvr == old(self).rvr,
            final(self).cvr == old(self).cvr,
            final(self).calib == old(self).calib,
    {
        self.csr.set(u32::from(v))
    }

    pub fn read_rvr(&self) -> (r: u32)
        ensures
            r == self.rvr.value(),
    {
        self.rvr.get()
    }

    pub fn write_rvr(&mut self, v: u32)
        ensures
            final(self).rvr.value() == v,
            final(self).csr == old(self).csr,
            final(self).cvr == old(self).cvr,
            final(self).calib == old(self).calib,
    {
        self.rvr.set(v)
    }

    pub fn read_cvr(&self) -> (r: u32)
        ensures
            r == self.cvr.value(),
    {
        self.cvr.get()
    }

    pub fn write_cvr(&mut self, v: u32)
        ensures
            final(self).cvr.value() == v,
            final(self).csr == old(self).csr,
            final(self).rvr == old(self).rvr,
            final(self).calib == old(self).calib,
    {
        self.cvr.set(v)
    }
}

/// Wrapper for the SysTick Control and Status Register bits.
#[derive(Clone, Copy, Debug, PartialEq, Eq, Structural)]
pub struct Csr(pub u32);

/// The clock that the SysTick counter counts.
#[derive(Clone, Copy, Debug, PartialEq, Eq, Structural)]
pub enum ClkSource {
    ExternalReference,
    ProcessorClock,
}

impl IntoBits for ClkSource {
    open spec fn bits_of(self) -> u32 {
        match self {
            ClkSource::ExternalReference => 0,
            ClkSource::ProcessorClock => 1,
        }
    }

    fn into_bits(self) -> u32 {
        match self {
            ClkSource::ExternalReference => 0,
            ClkSource::ProcessorClock => 1,
        }
    }
}

impl FromBits for ClkSource {
    open spec fn valid_bits(bits: u32) -> bool {
        bits < 2
    }

    fn from_bits(bits: u32) -> (r: BitsResult<Self>) {
        match bits {
            0 => Ok(ClkSource::ExternalReference),
            1 => Ok(ClkSource::ProcessorClock),
            _ => Err(BadBits(bits)),
        }
    }
}

impl FromBitsTotal for ClkSource {
    open spec fn total_width() -> u32 {
        1
    }

    fn from_bits_total(bits: u32) -> (r: Self) {
        proof {
            lemma_small_masks();
        }
        match bits {
            0 => ClkSource::ExternalReference,
            _ => ClkSource::ProcessorClock,
        }
    }
}

impl Csr {
    /// Whether the counter is enabled.
    pub fn get_enable(self) -> (r: bool)
        ensures
            r == bit(self.0, 0),
    {
        proof {
            lemma_small_masks();
        }
        get_total_field(self.0, 0, 0)
    }

    /// Whether the counter is enabled.
    pub fn with_enable(self, v: bool) -> (r: Self)
        ensures
            r.0 == replaced(self.0, 0, 0, v.bits_of()),
    {
        Csr(with_field(self.0, 0, 0, v))
    }

    /// Whether reaching zero raises the SysTick exception.
    pub fn get_tickint(self) -> (r: bool)
        ensures
            r == bit(self.0, 1),
    {
        proof {
            lemma_small_masks();
        }
        get_total_field(self.0, 1, 1)
    }

    /// Whether reaching zero raises the SysTick exception.
    pub fn with_tickint(self, v: bool) -> (r: Self)
        ensures
            r.0 == replaced(self.0, 1, 1, v.bits_of()),
    {
        Csr(with_field(self.0, 1, 1, v))
    }

    /// The clock the counter counts.
    pub fn get_clksource(self) -> (r: ClkSource)
        ensures
            r.bits_of() == field(self.0, 2, 2),
    {
        get_total_field(self.0, 2, 2)
    }

    /// The clock the counter counts.
    pub fn with_clksource(self, v: ClkSource) -> (r: Self)
        ensures
            r.0 == replaced(self.0, 2, 2, v.bits_of()),
    {
        Csr(with_field(self.0, 2, 2, v))
    }

    /// Whether the counter has reached zero since this register was last read.
    pub fn get_countflag(self) -> (r: bool)
        ensures
            r == bit(self.0, 16),
    {
        proof {
            lemma_small_masks();
        }
        get_total_field(self.0, 16, 16)
    }
}

impl From<u32> for Csr {
    fn from(v: u32) -> (r: Csr) {
        Csr(v)
    }
}

impl vstd::std_specs::convert::FromSpecImpl<u32> for Csr {
    open spec fn obeys_from_spec() -> bool {
        true
    }

    open spec fn from_spec(v: u32) -> Csr {
        Csr(v)
    }
}

impl From<Csr> for u32 {
    fn from(v: Csr) -> (r: u32) {
        v.0
    }
}

impl vstd::std_specs::convert::FromSpecImpl<Csr> for u32 {
    open spec fn obeys_from_spec() -> bool {
        true
    }

    open spec fn from_spec(v: Csr) -> u32 {
        v.0
    }
}

/// Address of the SysTick register block.
pub const SYS_TICK_ADDRESS: usize = 0xe000_e010;

} // verus!
