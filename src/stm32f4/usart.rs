//! Universal Synchronous/Asynchronous Receiver/Transmitter (USART) support.
use vstd::prelude::*;

verus! {

use crate::arm_m::reg::Reg;
use crate::bits::{
    bit,
    field,
    get_total_field,
    lemma_small_masks,
    replaced,
    with_field,
    BadBits,
    BitsResult,
    BitsWrapper,
    FromBits,
    FromBitsTotal,
    IntoBits,
};

/// A USART's register block.
pub struct Registers {
    pub sr: Reg<u32>,
    pub dr: Reg<u32>,
    pub brr: Reg<u32>,
    pub cr1: Reg<u32>,
    pub cr2: Reg<u32>,
    pub cr3: Reg<u32>,
    pub gtpr: Reg<u32>,
}

/// Status register.
#[derive(Clone, Copy, Debug, PartialEq, Eq, Structural)]
pub struct Sr(pub u32);

impl BitsWrapper for Sr {
    open spec fn raw(self) -> u32 {
        self.0
    }

    fn from_raw(v: u32) -> (r: Self) {
        Sr(v)
    }
}

/// Data register.
#[derive(Clone, Copy, Debug, PartialEq, Eq, Structural)]
pub struct Dr(pub u32);

impl BitsWrapper for Dr {
    open spec fn raw(self) -> u32 {
        self.0
    }

    fn from_raw(v: u32) -> (r: Self) {
        Dr(v)
    }
}

/// Baud rate register.
#[derive(Clone, Copy, Debug, PartialEq, Eq, Structural)]
pub struct Brr(pub u32);

impl BitsWrapper for Brr {
    open spec fn raw(self) -> u32 {
        self.0
    }

    fn from_raw(v: u32) -> (r: Self) {
        Brr(v)
    }
}

/// Control register 1.
#[derive(Clone, Copy, Debug, PartialEq, Eq, Structural)]
pub struct Cr1(pub u32);

impl BitsWrapper for Cr1 {
    open spec fn raw(self) -> u32 {
        self.0
    }

    fn from_raw(v: u32) -> (r: Self) {
        Cr1(v)
    }
}

/// Control register 2.
#[derive(Clone, Copy, Debug, PartialEq, Eq, Structural)]
pub struct Cr2(pub u32);

impl BitsWrapper for Cr2 {
    open spec fn raw(self) -> u32 {
        self.0
    }

    fn from_raw(v: u32) -> (r: Self) {
        Cr2(v)
    }
}

/// Control register 3.
#[derive(Clone, Copy, Debug, PartialEq, Eq, Structural)]
pub struct Cr3(pub u32);

impl BitsWrapper for Cr3 {
    open spec fn raw(self) -> u32 {
        self.0
    }

    fn from_raw(v: u32) -> (r: Self) {
        Cr3(v)
    }
}

/// Guard time and prescaler register.
#[derive(Clone, Copy, Debug, PartialEq, Eq, Structural)]
pub struct Gtpr(pub u32);

impl BitsWrapper for Gtpr {
    open spec fn raw(self) -> u32 {
        self.0
    }

    fn from_raw(v: u32) -> (r: Self) {
        Gtpr(v)
    }
}

impl Sr {
    pub fn get_cts(self) -> (r: bool)
        ensures
            r == bit(self.0, 9),
    {
        proof {
            lemma_small_masks();
        }
        get_total_field(self.0, 9, 9)
    }

    pub fn with_cts(self, v: bool) -> (r: Self)
        ensures
            r.0 == replaced(self.0, 9, 9, v.bits_of()),
    {
        Sr(with_field(self.0, 9, 9, v))
    }

    pub fn get_lbd(self) -> (r: bool)
        ensures
            r == bit(self.0, 8),
    {
        proof {
            lemma_small_masks();
        }
        get_total_field(self.0, 8, 8)
    }

    pub fn with_lbd(self, v: bool) -> (r: Self)
        ensures
            r.0 == replaced(self.0, 8, 8, v.bits_of()),
    {
        Sr(with_field(self.0, 8, 8, v))
    }

    pub fn get_txe(self) -> (r: bool)
        ensures
            r == bit(self.0, 7),
    {
        proof {
            lemma_small_masks();
        }
        get_total_field(self.0, 7, 7)
    }

    pub fn with_txe(self, v: bool) -> (r: Self)
        ensures
            r.0 == replaced(self.0, 7, 7, v.bits_of()),
    {
        Sr(with_field(self.0, 7, 7, v))
    }

    pub fn get_tc(self) -> (r: bool)
        ensures
            r == bit(self.0, 6),
    {
        proof {
            lemma_small_masks();
        }
        get_total_field(self.0, 6, 6)
    }

    pub fn with_tc(self, v: bool) -> (r: Self)
        ensures
            r.0 == replaced(self.0, 6, 6, v.bits_of()),
    {
        Sr(with_field(self.0, 6, 6, v))
    }

    pub fn get_rxne(self) -> (r: bool)
        ensures
            r == bit(self.0, 5),
    {
        proof {
            lemma_small_masks();
        }
        get_total_field(self.0, 5, 5)
    }

    pub fn with_rxne(self, v: bool) -> (r: Self)
        ensures
            r.0 == replaced(self.0, 5, 5, v.bits_of()),
    {
        Sr(with_field(self.0, 5, 5, v))
    }

    pub fn get_idle(self) -> (r: bool)
        ensures
            r == bit(self.0, 4),
    {
        proof {
            lemma_small_masks();
        }
        get_total_field(self.0, 4, 4)
    }

    pub fn with_idle(self, v: bool) -> (r: Self)
        ensures
            r.0 == replaced(self.0, 4, 4, v.bits_of()),
    {
        Sr(with_field(self.0, 4, 4, v))
    }

    pub fn get_ore(self) -> (r: bool)
        ensures
            r == bit(self.0, 3),
    {
        proof {
            lemma_small_masks();
        }
        get_total_field(self.0, 3, 3)
    }

    pub fn with_ore(self, v: bool) -> (r: Self)
        ensures
            r.0 == replaced(self.0, 3, 3, v.bits_of()),
    {
        Sr(with_field(self.0, 3, 3, v))
    }

    pub fn get_nf(self) -> (r: bool)
        ensures
            r == bit(self.0, 2),
    {
        proof {
            lemma_small_masks();
        }
        get_total_field(self.0, 2, 2)
    }

    pub fn with_nf(self, v: bool) -> (r: Self)
        ensures
            r.0 == replaced(self.0, 2, 2, v.bits_of()),
    {
        Sr(with_field(self.0, 2, 2, v))
    }

    pub fn get_fe(self) -> (r: bool)
        ensures
            r == bit(self.0, 1),
    {
        proof {
            lemma_small_masks();
        }
        get_total_field(self.0, 1, 1)
    }

    pub fn with_fe(self, v: bool) -> (r: Self)
        ensures
            r.0 == replaced(self.0, 1, 1, v.bits_of()),
    {
        Sr(with_field(self.0, 1, 1, v))
    }

    pub fn get_pe(self) -> (r: bool)
        ensures
            r == bit(self.0, 0),
    {
        proof {
            lemma_small_masks();
        }
        get_total_field(self.0, 0, 0)
    }

    pub fn with_pe(self, v: bool) -> (r: Self)
        ensures
            r.0 == replaced(self.0, 0, 0, v.bits_of()),
    {
        Sr(with_field(self.0, 0, 0, v))
    }
}

impl Dr {
    pub fn get_data(self) -> (r: u8)
        ensures
            r.bits_of() == field(self.0, 7, 0),
    {
        get_total_field(self.0, 7, 0)
    }

    pub fn with_data(self, v: u8) -> (r: Self)
        ensures
            r.0 == replaced(self.0, 7, 0, v.bits_of()),
    {
        Dr(with_field(self.0, 7, 0, v))
    }
}

impl Brr {
    /// Integer part of the baud rate divisor.
    pub fn get_mantissa(self) -> (r: u32)
        ensures
            r.bits_of() == field(self.0, 15, 4),
    {
        get_total_field(self.0, 15, 4)
    }

    /// Integer part of the baud rate divisor.
    pub fn with_mantissa(self, v: u32) -> (r: Self)
        ensures
            r.0 == replaced(self.0, 15, 4, v.bits_of()),
    {
        Brr(with_field(self.0, 15, 4, v))
    }

    /// Fractional part of the baud rate divisor, in sixteenths.
    pub fn get_fraction(self) -> (r: u32)
        ensures
            r.bits_of() == field(self.0, 3, 0),
    {
        get_total_field(self.0, 3, 0)
    }

    /// Fractional part of the baud rate divisor, in sixteenths.
    pub fn with_fraction(self, v: u32) -> (r: Self)
        ensures
            r.0 == replaced(self.0, 3, 0, v.bits_of()),
    {
        Brr(with_field(self.0, 3, 0, v))
    }
}

impl Cr1 {
    pub fn get_over8(self) -> (r: bool)
        ensures
            r == bit(self.0, 15),
    {
        proof {
            lemma_small_masks();
        }
        get_total_field(self.0, 15, 15)
    }

    pub fn with_over8(self, v: bool) -> (r: Self)
        ensures
            r.0 == replaced(self.0, 15, 15, v.bits_of()),
    {
        Cr1(with_field(self.0, 15, 15, v))
    }

    pub fn get_ue(self) -> (r: bool)
        ensures
            r == bit(self.0, 13),
    {
        proof {
            lemma_small_masks();
        }
        get_total_field(self.0, 13, 13)
    }

    pub fn with_ue(self, v: bool) -> (r: Self)
        ensures
            r.0 == replaced(self.0, 13, 13, v.bits_of()),
    {
        Cr1(with_field(self.0, 13, 13, v))
    }

    pub fn get_m(self) -> (r: WordLength)
        ensures
            r.bits_of() == field(self.0, 12, 12),
    {
        get_total_field(self.0, 12, 12)
    }

    pub fn with_m(self, v: WordLength) -> (r: Self)
        ensures
            r.0 == replaced(self.0, 12, 12, v.bits_of()),
    {
        Cr1(with_field(self.0, 12, 12, v))
    }

    pub fn get_wake(self) -> (r: WakeupMethod)
        ensures
            r.bits_of() == field(self.0, 11, 11),
    {
        get_total_field(self.0, 11, 11)
    }

    pub fn with_wake(self, v: WakeupMethod) -> (r: Self)
        ensures
            r.0 == replaced(self.0, 11, 11, v.bits_of()),
    {
        Cr1(with_field(self.0, 11, 11, v))
    }

    pub fn get_pce(self) -> (r: bool)
        ensures
            r == bit(self.0, 10),
    {
        proof {
            lemma_small_masks();
        }
        get_total_field(self.0, 10, 10)
    }

    pub fn with_pce(self, v: bool) -> (r: Self)
        ensures
            r.0 == replaced(self.0, 10, 10, v.bits_of()),
    {
        Cr1(with_field(self.0, 10, 10, v))
    }

    pub fn get_ps(self) -> (r: Parity)
        ensures
            r.bits_of() == field(self.0, 9, 9),
    {
        get_total_field(self.0, 9, 9)
    }

    pub fn with_ps(self, v: Parity) -> (r: Self)
        ensures
            r.0 == replaced(self.0, 9, 9, v.bits_of()),
    {
        Cr1(with_field(self.0, 9, 9, v))
    }

    pub fn get_peie(self) -> (r: bool)
        ensures
            r == bit(self.0, 8),
    {
        proof {
            lemma_small_masks();
        }
        get_total_field(self.0, 8, 8)
    }

    pub fn with_peie(self, v: bool) -> (r: Self)
        ensures
            r.0 == replaced(self.0, 8, 8, v.bits_of()),
    {
        Cr1(with_field(self.0, 8, 8, v))
    }

    pub fn get_txeie(self) -> (r: bool)
        ensures
            r == bit(self.0, 7),
    {
        proof {
            lemma_small_masks();
        }
        get_total_field(self.0, 7, 7)
    }

    pub fn with_txeie(self, v: bool) -> (r: Self)
        ensures
            r.0 == replaced(self.0, 7, 7, v.bits_of()),
    {
        Cr1(with_field(self.0, 7, 7, v))
    }

    pub fn get_tcie(self) -> (r: bool)
        ensures
            r == bit(self.0, 6),
    {
        proof {
            lemma_small_masks();
        }
        get_total_field(self.0, 6, 6)
    }

    pub fn with_tcie(self, v: bool) -> (r: Self)
        ensures
            r.0 == replaced(self.0, 6, 6, v.bits_of()),
    {
        Cr1(with_field(self.0, 6, 6, v))
    }

    pub fn get_rxneie(self) -> (r: bool)
        ensures
            r == bit(self.0, 5),
    {
        proof {
            lemma_small_masks();
        }
        get_total_field(self.0, 5, 5)
    }

    pub fn with_rxneie(self, v: bool) -> (r: Self)
        ensures
            r.0 == replaced(self.0, 5, 5, v.bits_of()),
    {
        Cr1(with_field(self.0, 5, 5, v))
    }

    pub fn get_idleie(self) -> (r: bool)
        ensures
            r == bit(self.0, 4),
    {
        proof {
            lemma_small_masks();
        }
        get_total_field(self.0, 4, 4)
    }

    pub fn with_idleie(self, v: bool) -> (r: Self)
        ensures
            r.0 == replaced(self.0, 4, 4, v.bits_of()),
    {
        Cr1(with_field(self.0, 4, 4, v))
    }

    pub fn get_te(self) -> (r: bool)
        ensures
            r == bit(self.0, 3),
    {
        proof {
            lemma_small_masks();
        }
        get_total_field(self.0, 3, 3)
    }

    pub fn with_te(self, v: bool) -> (r: Self)
        ensures
            r.0 == replaced(self.0, 3, 3, v.bits_of()),
    {
        Cr1(with_field(self.0, 3, 3, v))
    }

    pub fn get_re(self) -> (r: bool)
        ensures
            r == bit(self.0, 2),
    {
        proof {
            lemma_small_masks();
        }
        get_total_field(self.0, 2, 2)
    }

    pub fn with_re(self, v: bool) -> (r: Self)
        ensures
            r.0 == replaced(self.0, 2, 2, v.bits_of()),
    {
        Cr1(with_field(self.0, 2, 2, v))
    }

    pub fn get_rwu(self) -> (r: bool)
        ensures
            r == bit(self.0, 1),
    {
        proof {
            lemma_small_masks();
        }
        get_total_field(self.0, 1, 1)
    }

    pub fn with_rwu(self, v: bool) -> (r: Self)
        ensures
            r.0 == replaced(self.0, 1, 1, v.bits_of()),
    {
        Cr1(with_field(self.0, 1, 1, v))
    }

    pub fn get_sbk(self) -> (r: bool)
        ensures
            r == bit(self.0, 0),
    {
        proof {
            lemma_small_masks();
        }
        get_total_field(self.0, 0, 0)
    }

    pub fn with_sbk(self, v: bool) -> (r: Self)
        ensures
            r.0 == replaced(self.0, 0, 0, v.bits_of()),
    {
        Cr1(with_field(self.0, 0, 0, v))
    }
}

impl Cr2 {
    pub fn get_linen(self) -> (r: bool)
        ensures
            r == bit(self.0, 14),
    {
        proof {
            lemma_small_masks();
        }
        get_total_field(self.0, 14, 14)
    }

    pub fn with_linen(self, v: bool) -> (r: Self)
        ensures
            r.0 == replaced(self.0, 14, 14, v.bits_of()),
    {
        Cr2(with_field(self.0, 14, 14, v))
    }

    pub fn get_stop(self) -> (r: StopBits)
        ensures
            r.bits_of() == field(self.0, 13, 12),
    {
        get_total_field(self.0, 13, 12)
    }

    pub fn with_stop(self, v: StopBits) -> (r: Self)
        ensures
            r.0 == replaced(self.0, 13, 12, v.bits_of()),
    {
        Cr2(with_field(self.0, 13, 12, v))
    }

    pub fn get_clken(self) -> (r: bool)
        ensures
            r == bit(self.0, 11),
    {
        proof {
            lemma_small_masks();
        }
        get_total_field(self.0, 11, 11)
    }

    pub fn with_clken(self, v: bool) -> (r: Self)
        ensures
            r.0 == replaced(self.0, 11, 11, v.bits_of()),
    {
        Cr2(with_field(self.0, 11, 11, v))
    }

    pub fn get_cpol(self) -> (r: ClockPolarity)
        ensures
            r.bits_of() == field(self.0, 10, 10),
    {
        get_total_field(self.0, 10, 10)
    }

    pub fn with_cpol(self, v: ClockPolarity) -> (r: Self)
        ensures
            r.0 == replaced(self.0, 10, 10, v.bits_of()),
    {
        Cr2(with_field(self.0, 10, 10, v))
    }

    pub fn get_cpha(self) -> (r: ClockPhase)
        ensures
            r.bits_of() == field(self.0, 9, 9),
    {
        get_total_field(self.0, 9, 9)
    }

    pub fn with_cpha(self, v: ClockPhase) -> (r: Self)
        ensures
            r.0 == replaced(self.0, 9, 9, v.bits_of()),
    {
        Cr2(with_field(self.0, 9, 9, v))
    }

    pub fn get_lbcl(self) -> (r: bool)
        ensures
            r == bit(self.0, 8),
    {
        proof {
            lemma_small_masks();
        }
        get_total_field(self.0, 8, 8)
    }

    pub fn with_lbcl(self, v: bool) -> (r: Self)
        ensures
            r.0 == replaced(self.0, 8, 8, v.bits_of()),
    {
        Cr2(with_field(self.0, 8, 8, v))
    }

    pub fn get_lbdie(self) -> (r: bool)
        ensures
            r == bit(self.0, 6),
    {
        proof {
            lemma_small_masks();
        }
        get_total_field(self.0, 6, 6)
    }

    pub fn with_lbdie(self, v: bool) -> (r: Self)
        ensures
            r.0 == replaced(self.0, 6, 6, v.bits_of()),
    {
        Cr2(with_field(self.0, 6, 6, v))
    }

    pub fn get_lbdl(self) -> (r: BreakLength)
        ensures
            r.bits_of() == field(self.0, 5, 5),
    {
        get_total_field(self.0, 5, 5)
    }

    pub fn with_lbdl(self, v: BreakLength) -> (r: Self)
        ensures
            r.0 == replaced(self.0, 5, 5, v.bits_of()),
    {
        Cr2(with_field(self.0, 5, 5, v))
    }

    pub fn get_add(self) -> (r: u32)
        ensures
            r.bits_of() == field(self.0, 3, 0),
    {
        get_total_field(self.0, 3, 0)
    }

    pub fn with_add(self, v: u32) -> (r: Self)
        ensures
            r.0 == replaced(self.0, 3, 0, v.bits_of()),
    {
        Cr2(with_field(self.0, 3, 0, v))
    }
}

impl Cr3 {
    pub fn get_onebit(self) -> (r: SampleMethod)
        ensures
            r.bits_of() == field(self.0, 11, 11),
    {
        get_total_field(self.0, 11, 11)
    }

    pub fn with_onebit(self, v: SampleMethod) -> (r: Self)
        ensures
            r.0 == replaced(self.0, 11, 11, v.bits_of()),
    {
        Cr3(with_field(self.0, 11, 11, v))
    }

    pub fn get_ctsie(self) -> (r: bool)
        ensures
            r == bit(self.0, 10),
    {
        proof {
            lemma_small_masks();
        }
        get_total_field(self.0, 10, 10)
    }

    pub fn with_ctsie(self, v: bool) -> (r: Self)
        ensures
            r.0 == replaced(self.0, 10, 10, v.bits_of()),
    {
        Cr3(with_field(self.0, 10, 10, v))
    }

    pub fn get_ctse(self) -> (r: bool)
        ensures
            r == bit(self.0, 9),
    {
        proof {
            lemma_small_masks();
        }
        get_total_field(self.0, 9, 9)
    }

    pub fn with_ctse(self, v: bool) -> (r: Self)
        ensures
            r.0 == replaced(self.0, 9, 9, v.bits_of()),
    {
        Cr3(with_field(self.0, 9, 9, v))
    }

    pub fn get_rtse(self) -> (r: bool)
        ensures
            r == bit(self.0, 8),
    {
        proof {
            lemma_small_masks();
        }
        get_total_field(self.0, 8, 8)
    }

    pub fn with_rtse(self, v: bool) -> (r: Self)
        ensures
            r.0 == replaced(self.0, 8, 8, v.bits_of()),
    {
        Cr3(with_field(self.0, 8, 8, v))
    }

    pub fn get_dmat(self) -> (r: bool)
        ensures
            r == bit(self.0, 7),
    {
        proof {
            lemma_small_masks();
        }
        get_total_field(self.0, 7, 7)
    }

    pub fn with_dmat(self, v: bool) -> (r: Self)
        ensures
            r.0 == replaced(self.0, 7, 7, v.bits_of()),
    {
        Cr3(with_field(self.0, 7, 7, v))
    }

    pub fn get_dmar(self) -> (r: bool)
        ensures
            r == bit(self.0, 6),
    {
        proof {
            lemma_small_masks();
        }
        get_total_field(self.0, 6, 6)
    }

    pub fn with_dmar(self, v: bool) -> (r: Self)
        ensures
            r.0 == replaced(self.0, 6, 6, v.bits_of()),
    {
        Cr3(with_field(self.0, 6, 6, v))
    }

    pub fn get_scen(self) -> (r: bool)
        ensures
            r == bit(self.0, 5),
    {
        proof {
            lemma_small_masks();
        }
        get_total_field(self.0, 5, 5)
    }

    pub fn with_scen(self, v: bool) -> (r: Self)
        ensures
            r.0 == replaced(self.0, 5, 5, v.bits_of()),
    {
        Cr3(with_field(self.0, 5, 5, v))
    }

    pub fn get_nack(self) -> (r: bool)
        ensures
            r == bit(self.0, 4),
    {
        proof {
            lemma_small_masks();
        }
        get_total_field(self.0, 4, 4)
    }

    pub fn with_nack(self, v: bool) -> (r: Self)
        ensures
            r.0 == replaced(self.0, 4, 4, v.bits_of()),
    {
        Cr3(with_field(self.0, 4, 4, v))
    }

    pub fn get_hdsel(self) -> (r: bool)
        ensures
            r == bit(self.0, 3),
    {
        proof {
            lemma_small_masks();
        }
        get_total_field(self.0, 3, 3)
    }

    pub fn with_hdsel(self, v: bool) -> (r: Self)
        ensures
            r.0 == replaced(self.0, 3, 3, v.bits_of()),
    {
        Cr3(with_field(self.0, 3, 3, v))
    }

    pub fn get_irlp(self) -> (r: bool)
        ensures
            r == bit(self.0, 2),
    {
        proof {
            lemma_small_masks();
        }
        get_total_field(self.0, 2, 2)
    }

    pub fn with_irlp(self, v: bool) -> (r: Self)
        ensures
            r.0 == replaced(self.0, 2, 2, v.bits_of()),
    {
        Cr3(with_field(self.0, 2, 2, v))
    }

    pub fn get_iren(self) -> (r: bool)
        ensures
            r == bit(self.0, 1),
    {
        proof {
            lemma_small_masks();
        }
        get_total_field(self.0, 1, 1)
    }

    pub fn with_iren(self, v: bool) -> (r: Self)
        ensures
            r.0 == replaced(self.0, 1, 1, v.bits_of()),
    {
        Cr3(with_field(self.0, 1, 1, v))
    }

    pub fn get_eie(self) -> (r: bool)
        ensures
            r == bit(self.0, 0),
    {
        proof {
            lemma_small_masks();
        }
        get_total_field(self.0, 0, 0)
    }

    pub fn with_eie(self, v: bool) -> (r: Self)
        ensures
            r.0 == replaced(self.0, 0, 0, v.bits_of()),
    {
        Cr3(with_field(self.0, 0, 0, v))
    }
}

impl Gtpr {
    pub fn get_gt(self) -> (r: u8)
        ensures
            r.bits_of() == field(self.0, 15, 8),
    {
        get_total_field(self.0, 15, 8)
    }

    pub fn with_gt(self, v: u8) -> (r: Self)
        ensures
            r.0 == replaced(self.0, 15, 8, v.bits_of()),
    {
        Gtpr(with_field(self.0, 15, 8, v))
    }

    pub fn get_psc(self) -> (r: u8)
        ensures
            r.bits_of() == field(self.0, 7, 0),
    {
        get_total_field(self.0, 7, 0)
    }

    pub fn with_psc(self, v: u8) -> (r: Self)
        ensures
            r.0 == replaced(self.0, 7, 0, v.bits_of()),
    {
        Gtpr(with_field(self.0, 7, 0, v))
    }
}

/// Number of data bits in a frame.
#[derive(Clone, Copy, Debug, PartialEq, Eq, Structural)]
pub enum WordLength {
    EightBits,
    NineBits,
}

impl IntoBits for WordLength {
    open spec fn bits_of(self) -> u32 {
        match self {
            WordLength::EightBits => 0,
            WordLength::NineBits => 1,
        }
    }

    fn into_bits(self) -> u32 {
        match self {
            WordLength::EightBits => 0,
            WordLength::NineBits => 1,
        }
    }
}

impl FromBits for WordLength {
    open spec fn valid_bits(bits: u32) -> bool {
        bits < 2
    }

    fn from_bits(bits: u32) -> (r: BitsResult<Self>) {
        match bits {
            0 => Ok(WordLength::EightBits),
            1 => Ok(WordLength::NineBits),
            _ => Err(BadBits(bits)),
        }
    }
}

impl FromBitsTotal for WordLength {
    open spec fn total_width() -> u32 {
        1
    }

    fn from_bits_total(bits: u32) -> (r: Self) {
        proof {
            lemma_small_masks();
        }
        match bits {
            0 => WordLength::EightBits,
            _ => WordLength::NineBits,
        }
    }
}

/// How a muted receiver wakes up.
#[derive(Clone, Copy, Debug, PartialEq, Eq, Structural)]
pub enum WakeupMethod {
    IdleLine,
    AddressMark,
}

impl IntoBits for WakeupMethod {
    open spec fn bits_of(self) -> u32 {
        match self {
            WakeupMethod::IdleLine => 0,
            WakeupMethod::AddressMark => 1,
        }
    }

    fn into_bits(self) -> u32 {
        match self {
            WakeupMethod::IdleLine => 0,
            WakeupMethod::AddressMark => 1,
        }
    }
}

impl FromBits for WakeupMethod {
    open spec fn valid_bits(bits: u32) -> bool {
        bits < 2
    }

    fn from_bits(bits: u32) -> (r: BitsResult<Self>) {
        match bits {
            0 => Ok(WakeupMethod::IdleLine),
            1 => Ok(WakeupMethod::AddressMark),
            _ => Err(BadBits(bits)),
        }
    }
}

impl FromBitsTotal for WakeupMethod {
    open spec fn total_width() -> u32 {
        1
    }

    fn from_bits_total(bits: u32) -> (r: Self) {
        proof {
            lemma_small_masks();
        }
        match bits {
            0 => WakeupMethod::IdleLine,
            _ => WakeupMethod::AddressMark,
        }
    }
}

/// Parity checked and generated when parity control is on.
#[derive(Clone, Copy, Debug, PartialEq, Eq, Structural)]
pub enum Parity {
    Even,
    Odd,
}

impl IntoBits for Parity {
    open spec fn bits_of(self) -> u32 {
        match self {
            Parity::Even => 0,
            Parity::Odd => 1,
        }
    }

    fn into_bits(self) -> u32 {
        match self {
            Parity::Even => 0,
            Parity::Odd => 1,
        }
    }
}

impl FromBits for Parity {
    open spec fn valid_bits(bits: u32) -> bool {
        bits < 2
    }

    fn from_bits(bits: u32) -> (r: BitsResult<Self>) {
        match bits {
            0 => Ok(Parity::Even),
            1 => Ok(Parity::Odd),
            _ => Err(BadBits(bits)),
        }
    }
}

impl FromBitsTotal for Parity {
    open spec fn total_width() -> u32 {
        1
    }

    fn from_bits_total(bits: u32) -> (r: Self) {
        proof {
            lemma_small_masks();
        }
        match bits {
            0 => Parity::Even,
            _ => Parity::Odd,
        }
    }
}

/// Number of stop bits in a frame.
#[derive(Clone, Copy, Debug, PartialEq, Eq, Structural)]
pub enum StopBits {
    One,
    Half,
    Two,
    OneAndAHalf,
}

impl IntoBits for StopBits {
    open spec fn bits_of(self) -> u32 {
        match self {
            StopBits::One => 0,
            StopBits::Half => 1,
            StopBits::Two => 2,
            StopBits::OneAndAHalf => 3,
        }
    }

    fn into_bits(self) -> u32 {
        match self {
            StopBits::One => 0,
            StopBits::Half => 1,
            StopBits::Two => 2,
            StopBits::OneAndAHalf => 3,
        }
    }
}

impl FromBits for StopBits {
    open spec fn valid_bits(bits: u32) -> bool {
        bits < 4
    }

    fn from_bits(bits: u32) -> (r: BitsResult<Self>) {
        match bits {
            0 => Ok(StopBits::One),
            1 => Ok(StopBits::Half),
            2 => Ok(StopBits::Two),
            3 => Ok(StopBits::OneAndAHalf),
            _ => Err(BadBits(bits)),
        }
    }
}

impl FromBitsTotal for StopBits {
    open spec fn total_width() -> u32 {
        2
    }

    fn from_bits_total(bits: u32) -> (r: Self) {
        proof {
            lemma_small_masks();
        }
        match bits {
            0 => StopBits::One,
            1 => StopBits::Half,
            2 => StopBits::Two,
            _ => StopBits::OneAndAHalf,
        }
    }
}

/// Level of the clock pin while idle.
#[derive(Clone, Copy, Debug, PartialEq, Eq, Structural)]
pub enum ClockPolarity {
    IdleLow,
    IdleHigh,
}

impl IntoBits for ClockPolarity {
    open spec fn bits_of(self) -> u32 {
        match self {
            ClockPolarity::IdleLow => 0,
            ClockPolarity::IdleHigh => 1,
        }
    }

    fn into_bits(self) -> u32 {
        match self {
            ClockPolarity::IdleLow => 0,
            ClockPolarity::IdleHigh => 1,
        }
    }
}

impl FromBits for ClockPolarity {
    open spec fn valid_bits(bits: u32) -> bool {
        bits < 2
    }

    fn from_bits(bits: u32) -> (r: BitsResult<Self>) {
        match bits {
            0 => Ok(ClockPolarity::IdleLow),
            1 => Ok(ClockPolarity::IdleHigh),
            _ => Err(BadBits(bits)),
        }
    }
}

impl FromBitsTotal for ClockPolarity {
    open spec fn total_width() -> u32 {
        1
    }

    fn from_bits_total(bits: u32) -> (r: Self) {
        proof {
            lemma_small_masks();
        }
        match bits {
            0 => ClockPolarity::IdleLow,
            _ => ClockPolarity::IdleHigh,
        }
    }
}

/// The clock edge on which data is captured.
#[derive(Clone, Copy, Debug, PartialEq, Eq, Structural)]
pub enum ClockPhase {
    CaptureOnFirstEdge,
    CaptureOnSecondEdge,
}

impl IntoBits for ClockPhase {
    open spec fn bits_of(self) -> u32 {
        match self {
            ClockPhase::CaptureOnFirstEdge => 0,
            ClockPhase::CaptureOnSecondEdge => 1,
        }
    }

    fn into_bits(self) -> u32 {
        match self {
            ClockPhase::CaptureOnFirstEdge => 0,
            ClockPhase::CaptureOnSecondEdge => 1,
        }
    }
}

impl FromBits for ClockPhase {
    open spec fn valid_bits(bits: u32) -> bool {
        bits < 2
    }

    fn from_bits(bits: u32) -> (r: BitsResult<Self>) {
        match bits {
            0 => Ok(ClockPhase::CaptureOnFirstEdge),
            1 => Ok(ClockPhase::CaptureOnSecondEdge),
            _ => Err(BadBits(bits)),
        }
    }
}

impl FromBitsTotal for ClockPhase {
    open spec fn total_width() -> u32 {
        1
    }

    fn from_bits_total(bits: u32) -> (r: Self) {
        proof {
            lemma_small_masks();
        }
        match bits {
            0 => ClockPhase::CaptureOnFirstEdge,
            _ => ClockPhase::CaptureOnSecondEdge,
        }
    }
}

/// Length of a detected LIN break.
#[derive(Clone, Copy, Debug, PartialEq, Eq, Structural)]
pub enum BreakLength {
    TenBits,
    ElevenBits,
}

impl IntoBits for BreakLength {
    open spec fn bits_of(self) -> u32 {
        match self {
            BreakLength::TenBits => 0,
            BreakLength::ElevenBits => 1,
        }
    }

    fn into_bits(self) -> u32 {
        match self {
            BreakLength::TenBits => 0,
            BreakLength::ElevenBits => 1,
        }
    }
}

impl FromBits for BreakLength {
    open spec fn valid_bits(bits: u32) -> bool {
        bits < 2
    }

    fn from_bits(bits: u32) -> (r: BitsResult<Self>) {
        match bits {
            0 => Ok(BreakLength::TenBits),
            1 => Ok(BreakLength::ElevenBits),
            _ => Err(BadBits(bits)),
        }
    }
}

impl FromBitsTotal for BreakLength {
    open spec fn total_width() -> u32 {
        1
    }

    fn from_bits_total(bits: u32) -> (r: Self) {
        proof {
            lemma_small_masks();
        }
        match bits {
            0 => BreakLength::TenBits,
            _ => BreakLength::ElevenBits,
        }
    }
}

/// How many samples decide a bit's value.
#[derive(Clone, Copy, Debug, PartialEq, Eq, Structural)]
pub enum SampleMethod {
    ThreeBit,
    OneBit,
}

impl IntoBits for SampleMethod {
    open spec fn bits_of(self) -> u32 {
        match self {
            SampleMethod::ThreeBit => 0,
            SampleMethod::OneBit => 1,
        }
    }

    fn into_bits(self) -> u32 {
        match self {
            SampleMethod::ThreeBit => 0,
            SampleMethod::OneBit => 1,
        }
    }
}

impl FromBits for SampleMethod {
    open spec fn valid_bits(bits: u32) -> bool {
        bits < 2
    }

    fn from_bits(bits: u32) -> (r: BitsResult<Self>) {
        match bits {
            0 => Ok(SampleMethod::ThreeBit),
            1 => Ok(SampleMethod::OneBit),
            _ => Err(BadBits(bits)),
        }
    }
}

impl FromBitsTotal for SampleMethod {
    open spec fn total_width() -> u32 {
        1
    }

    fn from_bits_total(bits: u32) -> (r: Self) {
        proof {
            lemma_small_masks();
        }
        match bits {
            0 => SampleMethod::ThreeBit,
            _ => SampleMethod::OneBit,
        }
    }
}

} // verus!
