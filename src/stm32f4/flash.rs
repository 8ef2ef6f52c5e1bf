//! Flash interface: the access control register.
use vstd::prelude::*;

verus! {

use crate::arm_m::reg::Reg;
use crate::bits::{
    bit,
    field,
    get_total_field,
    lemma_small_masks,
    replaced,
    with_field,
    BitsWrapper,
    IntoBits,
};

/// Wrapper for the Flash Access Control Register bits.
#[derive(Clone, Copy, Debug, PartialEq, Eq, Structural)]
pub struct Acr(pub u32);

impl BitsWrapper for Acr {
    open spec fn raw(self) -> u32 {
        self.0
    }

    fn from_raw(v: u32) -> (r: Self) {
        Acr(v)
    }
}

impl Acr {
    /// Data cache reset.
    pub fn get_dcrst(self) -> (r: bool)
        ensures
            r == bit(self.0, 12),
    {
        proof {
            lemma_small_masks();
        }
        get_total_field(self.0, 12, 12)
    }

    /// Data cache reset.
    pub fn with_dcrst(self, v: bool) -> (r: Self)
        ensures
            r.0 == replaced(self.0, 12, 12, v.bits_of()),
    {
        Acr(with_field(self.0, 12, 12, v))
    }

    /// Instruction cache reset.
    pub fn get_icrst(self) -> (r: bool)
        ensures
            r == bit(self.0, 11),
    {
        proof {
            lemma_small_masks();
        }
        get_total_field(self.0, 11, 11)
    }

    /// Instruction cache reset.
    pub fn with_icrst(self, v: bool) -> (r: Self)
        ensures
            r.0 == replaced(self.0, 11, 11, v.bits_of()),
    {
        Acr(with_field(self.0, 11, 11, v))
    }

    /// Data cache enable.
    pub fn get_dcen(self) -> (r: bool)
        ensures
            r == bit(self.0, 10),
    {
        proof {
            lemma_small_masks();
        }
        get_total_field(self.0, 10, 10)
    }

    /// Data cache enable.
    pub fn with_dcen(self, v: bool) -> (r: Self)
        ensures
            r.0 == replaced(self.0, 10, 10, v.bits_of()),
    {
        Acr(with_field(self.0, 10, 10, v))
    }

    /// Instruction cache enable.
    pub fn get_icen(self) -> (r: bool)
        ensures
            r == bit(self.0, 9),
    {
        proof {
            lemma_small_masks();
        }
        get_total_field(self.0, 9, 9)
    }

    /// Instruction cache enable.
    pub fn with_icen(self, v: bool) -> (r: Self)
        ensures
            r.0 == replaced(self.0, 9, 9, v.bits_of()),
    {
        Acr(with_field(self.0, 9, 9, v))
    }

    /// Prefetch enable.
    pub fn get_prften(self) -> (r: bool)
        ensures
            r == bit(self.0, 8),
    {
        proof {
            lemma_small_masks();
        }
        get_total_field(self.0, 8, 8)
    }

    /// Prefetch enable.
    pub fn with_prften(self, v: bool) -> (r: Self)
        ensures
            r.0 == replaced(self.0, 8, 8, v.bits_of()),
    {
        Acr(with_field(self.0, 8, 8, v))
    }

    /// Number of wait states inserted in each Flash access.
    pub fn get_latency(self) -> (r: u32)
        ensures
            r.bits_of() == field(self.0, 2, 0),
    {
        get_total_field(self.0, 2, 0)
    }

    /// Number of wait states inserted in each Flash access.
    pub fn with_latency(self, v: u32) -> (r: Self)
        ensures
            r.0 == replaced(self.0, 2, 0, v.bits_of()),
    {
        Acr(with_field(self.0, 2, 0, v))
    }
}

/// The Flash interface's register block.
pub struct Flash {
    pub acr: Reg<u32>,
}

impl Flash {
    pub fn read_acr(&self) -> (r: Acr)
        ensures
            r.0 == self.acr.value(),
    {
        Acr(self.acr.get())
    }

    pub fn write_acr(&mut self, v: Acr)
        ensures
            final(self).acr.value() == v.0,
    {
        self.acr.set(v.0)
    }

    pub fn update_acr<F: FnOnce(Acr) -> Acr>(&mut self, f: F)
        requires
            f.requires((Acr(old(self).acr.value()),)),
        ensures
            f.ensures((Acr(old(self).acr.value()),), Acr(final(self).acr.value())),
    {
        let v = f(self.read_acr());
        self.write_acr(v)
    }
}

/// Address of the Flash interface's register block.
pub const FLASH_ADDRESS: usize = 0x4002_3c00;

} // verus!
