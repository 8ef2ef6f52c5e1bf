//! Reset and Clock Control (RCC) register values and their fields.
use vstd::prelude::*;

verus! {

use crate::arm_m::reg::Reg;
use crate::bits::{
    bit,
    decoded,
    field,
    get_field,
    get_total_field,
    lemma_small_masks,
    replaced,
    with_field,
    BadBits,
    BitsResult,
    BitsWrapper,
    FromBits,
    FromBitsTotal,
    IntoBits,
};

/// `raw` with an optional prescaler written to the field `hi..=lo` and its
/// enable bit `en`: a present prescaler sets the field and the enable bit, an
/// absent one clears the enable bit and leaves the field as it was.
pub open spec fn prescaled<T: IntoBits>(raw: u32, en: u32, hi: u32, lo: u32, v: Option<T>) -> u32 {
    match v {
        Some(d) => replaced(replaced(raw, hi, lo, d.bits_of()), en, en, 1),
        None => replaced(raw, en, en, 0),
    }
}

/// The RCC's register block.  Reset and clock-enable registers of the same
/// kind are numbered from zero here: `ahb_enr[0]` is AHB1ENR.
pub struct Registers {
    pub cr: Reg<u32>,
    pub pllcfgr: Reg<u32>,
    pub cfgr: Reg<u32>,
    pub cir: Reg<u32>,
    /// AHB peripheral reset registers AHB1RSTR - AHB3RSTR.
    pub ahb_rstr: [Reg<u32>; 3],
    /// APB peripheral reset registers APB1RSTR - APB2RSTR.
    pub apb_rstr: [Reg<u32>; 2],
    /// AHB clock enable registers AHB1ENR - AHB3ENR.
    pub ahb_enr: [Reg<u32>; 3],
    /// APB clock enable registers APB1ENR - APB2ENR.
    pub apb_enr: [Reg<u32>; 2],
    /// AHB low power clock enable registers AHB1LPENR - AHB3LPENR.
    pub ahb_lpenr: [Reg<u32>; 3],
    /// APB low power clock enable registers APB1LPENR - APB2LPENR.
    pub apb_lpenr: [Reg<u32>; 2],
    pub bdcr: Reg<u32>,
    pub csr: Reg<u32>,
    pub sscgr: Reg<u32>,
    pub plli2scfgr: Reg<u32>,
}

/// Wrapper for the Clock Control Register bits.
#[derive(Clone, Copy, Debug, PartialEq, Eq, Structural)]
pub struct Cr(pub u32);

impl BitsWrapper for Cr {
    open spec fn raw(self) -> u32 {
        self.0
    }

    fn from_raw(v: u32) -> (r: Self) {
        Cr(v)
    }
}

/// Wrapper for the Clock Configuration Register bits.
#[derive(Clone, Copy, Debug, PartialEq, Eq, Structural)]
pub struct Cfgr(pub u32);

impl BitsWrapper for Cfgr {
    open spec fn raw(self) -> u32 {
        self.0
    }

    fn from_raw(v: u32) -> (r: Self) {
        Cfgr(v)
    }
}

/// Wrapper for the PLL Configuration Register bits.
#[derive(Clone, Copy, Debug, PartialEq, Eq, Structural)]
pub struct Pllcfgr(pub u32);

impl BitsWrapper for Pllcfgr {
    open spec fn raw(self) -> u32 {
        self.0
    }

    fn from_raw(v: u32) -> (r: Self) {
        Pllcfgr(v)
    }
}

impl Cr {
    /// Ready flag for the main PLL.
    pub fn get_pllrdy(self) -> (r: bool)
        ensures
            r == bit(self.0, 25),
    {
        proof {
            lemma_small_masks();
        }
        get_total_field(self.0, 25, 25)
    }

    /// Ready flag for the main PLL.
    pub fn with_pllrdy(self, v: bool) -> (r: Self)
        ensures
            r.0 == replaced(self.0, 25, 25, v.bits_of()),
    {
        Cr(with_field(self.0, 25, 25, v))
    }

    /// Turns the main PLL on/off.
    pub fn get_pllon(self) -> (r: bool)
        ensures
            r == bit(self.0, 24),
    {
        proof {
            lemma_small_masks();
        }
        get_total_field(self.0, 24, 24)
    }

    /// Turns the main PLL on/off.
    pub fn with_pllon(self, v: bool) -> (r: Self)
        ensures
            r.0 == replaced(self.0, 24, 24, v.bits_of()),
    {
        Cr(with_field(self.0, 24, 24, v))
    }

    /// Turns the Clock Security System (CSS) on/off.
    pub fn get_csson(self) -> (r: bool)
        ensures
            r == bit(self.0, 19),
    {
        proof {
            lemma_small_masks();
        }
        get_total_field(self.0, 19, 19)
    }

    /// Turns the Clock Security System (CSS) on/off.
    pub fn with_csson(self, v: bool) -> (r: Self)
        ensures
            r.0 == replaced(self.0, 19, 19, v.bits_of()),
    {
        Cr(with_field(self.0, 19, 19, v))
    }

    /// When `true`, bypasses the HSE oscillator, using the external clock
    /// signal directly where the HSE clock would otherwise be used.
    pub fn get_hsebyp(self) -> (r: bool)
        ensures
            r == bit(self.0, 18),
    {
        proof {
            lemma_small_masks();
        }
        get_total_field(self.0, 18, 18)
    }

    /// When `true`, bypasses the HSE oscillator, using the external clock
    /// signal directly where the HSE clock would otherwise be used.
    pub fn with_hsebyp(self, v: bool) -> (r: Self)
        ensures
            r.0 == replaced(self.0, 18, 18, v.bits_of()),
    {
        Cr(with_field(self.0, 18, 18, v))
    }

    /// Ready flag for the HSE oscillator.
    pub fn get_hserdy(self) -> (r: bool)
        ensures
            r == bit(self.0, 17),
    {
        proof {
            lemma_small_masks();
        }
        get_total_field(self.0, 17, 17)
    }

    /// Ready flag for the HSE oscillator.
    pub fn with_hserdy(self, v: bool) -> (r: Self)
        ensures
            r.0 == replaced(self.0, 17, 17, v.bits_of()),
    {
        Cr(with_field(self.0, 17, 17, v))
    }

    /// Turns the HSE oscillator on/off.
    pub fn get_hseon(self) -> (r: bool)
        ensures
            r == bit(self.0, 16),
    {
        proof {
            lemma_small_masks();
        }
        get_total_field(self.0, 16, 16)
    }

    /// Turns the HSE oscillator on/off.
    pub fn with_hseon(self, v: bool) -> (r: Self)
        ensures
            r.0 == replaced(self.0, 16, 16, v.bits_of()),
    {
        Cr(with_field(self.0, 16, 16, v))
    }

    /// Internal HSI calibration bits, set by hardware at startup.
    pub fn get_hsical(self) -> (r: u8)
        ensures
            r.bits_of() == field(self.0, 15, 8),
    {
        get_total_field(self.0, 15, 8)
    }

    /// Internal HSI calibration bits, set by hardware at startup.
    pub fn with_hsical(self, v: u8) -> (r: Self)
        ensures
            r.0 == replaced(self.0, 15, 8, v.bits_of()),
    {
        Cr(with_field(self.0, 15, 8, v))
    }

    /// HSI trim adjusts the frequency of the HSI oscillator.
    pub fn get_hsitrim(self) -> (r: u32)
        ensures
            r.bits_of() == field(self.0, 7, 3),
    {
        get_total_field(self.0, 7, 3)
    }

    /// HSI trim adjusts the frequency of the HSI oscillator.
    pub fn with_hsitrim(self, v: u32) -> (r: Self)
        ensures
            r.0 == replaced(self.0, 7, 3, v.bits_of()),
    {
        Cr(with_field(self.0, 7, 3, v))
    }

    /// Ready flag for the HSI oscillator.
    pub fn get_hsirdy(self) -> (r: bool)
        ensures
            r == bit(self.0, 1),
    {
        proof {
            lemma_small_masks();
        }
        get_total_field(self.0, 1, 1)
    }

    /// Ready flag for the HSI oscillator.
    pub fn with_hsirdy(self, v: bool) -> (r: Self)
        ensures
            r.0 == replaced(self.0, 1, 1, v.bits_of()),
    {
        Cr(with_field(self.0, 1, 1, v))
    }

    /// Turns the HSI oscillator on/off.
    pub fn get_hsion(self) -> (r: bool)
        ensures
            r == bit(self.0, 0),
    {
        proof {
            lemma_small_masks();
        }
        get_total_field(self.0, 0, 0)
    }

    /// Turns the HSI oscillator on/off.
    pub fn with_hsion(self, v: bool) -> (r: Self)
        ensures
            r.0 == replaced(self.0, 0, 0, v.bits_of()),
    {
        Cr(with_field(self.0, 0, 0, v))
    }
}

impl Cfgr {
    /// Controls the clock output on the MCO2 pin.
    pub fn get_mco2(self) -> (r: Mco2)
        ensures
            r.bits_of() == field(self.0, 31, 30),
    {
        get_total_field(self.0, 31, 30)
    }

    /// Controls the clock output on the MCO2 pin.
    pub fn with_mco2(self, v: Mco2) -> (r: Self)
        ensures
            r.0 == replaced(self.0, 31, 30, v.bits_of()),
    {
        Cfgr(with_field(self.0, 31, 30, v))
    }

    /// Raw enable for the MCO2 prescaler; see `get_mco2pre` and `with_mco2pre`.
    pub fn get_mco2pre_en(self) -> (r: bool)
        ensures
            r == bit(self.0, 29),
    {
        proof {
            lemma_small_masks();
        }
        get_total_field(self.0, 29, 29)
    }

    /// Raw enable for the MCO2 prescaler; see `get_mco2pre` and `with_mco2pre`.
    pub fn with_mco2pre_en(self, v: bool) -> (r: Self)
        ensures
            r.0 == replaced(self.0, 29, 29, v.bits_of()),
    {
        Cfgr(with_field(self.0, 29, 29, v))
    }

    /// Raw divisor for the MCO2 prescaler; see `get_mco2pre` and `with_mco2pre`.
    pub fn get_mco2pre_div(self) -> (r: McoPre)
        ensures
            r.bits_of() == field(self.0, 28, 27),
    {
        get_total_field(self.0, 28, 27)
    }

    /// Raw divisor for the MCO2 prescaler; see `get_mco2pre` and `with_mco2pre`.
    pub fn with_mco2pre_div(self, v: McoPre) -> (r: Self)
        ensures
            r.0 == replaced(self.0, 28, 27, v.bits_of()),
    {
        Cfgr(with_field(self.0, 28, 27, v))
    }

    /// Raw enable for the MCO1 prescaler; see `get_mco1pre` and `with_mco1pre`.
    pub fn get_mco1pre_en(self) -> (r: bool)
        ensures
            r == bit(self.0, 26),
    {
        proof {
            lemma_small_masks();
        }
        get_total_field(self.0, 26, 26)
    }

    /// Raw enable for the MCO1 prescaler; see `get_mco1pre` and `with_mco1pre`.
    pub fn with_mco1pre_en(self, v: bool) -> (r: Self)
        ensures
            r.0 == replaced(self.0, 26, 26, v.bits_of()),
    {
        Cfgr(with_field(self.0, 26, 26, v))
    }

    /// Raw divisor for the MCO1 prescaler; see `get_mco1pre` and `with_mco1pre`.
    pub fn get_mco1pre_div(self) -> (r: McoPre)
        ensures
            r.bits_of() == field(self.0, 25, 24),
    {
        get_total_field(self.0, 25, 24)
    }

    /// Raw divisor for the MCO1 prescaler; see `get_mco1pre` and `with_mco1pre`.
    pub fn with_mco1pre_div(self, v: McoPre) -> (r: Self)
        ensures
            r.0 == replaced(self.0, 25, 24, v.bits_of()),
    {
        Cfgr(with_field(self.0, 25, 24, v))
    }

    /// Selects the clock fed to the I2S peripheral(s).
    pub fn get_i2ssrc(self) -> (r: I2sSrc)
        ensures
            r.bits_of() == field(self.0, 23, 23),
    {
        get_total_field(self.0, 23, 23)
    }

    /// Selects the clock fed to the I2S peripheral(s).
    pub fn with_i2ssrc(self, v: I2sSrc) -> (r: Self)
        ensures
            r.0 == replaced(self.0, 23, 23, v.bits_of()),
    {
        Cfgr(with_field(self.0, 23, 23, v))
    }

    /// Controls the clock output on the MCO1 pin.
    pub fn get_mco1(self) -> (r: Mco1)
        ensures
            r.bits_of() == field(self.0, 22, 21),
    {
        get_total_field(self.0, 22, 21)
    }

    /// Controls the clock output on the MCO1 pin.
    pub fn with_mco1(self, v: Mco1) -> (r: Self)
        ensures
            r.0 == replaced(self.0, 22, 21, v.bits_of()),
    {
        Cfgr(with_field(self.0, 22, 21, v))
    }

    /// Raw enable for the APB2 prescaler; see `get_ppre2` and `with_ppre2`.
    pub fn get_ppre2_en(self) -> (r: bool)
        ensures
            r == bit(self.0, 15),
    {
        proof {
            lemma_small_masks();
        }
        get_total_field(self.0, 15, 15)
    }

    /// Raw enable for the APB2 prescaler; see `get_ppre2` and `with_ppre2`.
    pub fn with_ppre2_en(self, v: bool) -> (r: Self)
        ensures
            r.0 == replaced(self.0, 15, 15, v.bits_of()),
    {
        Cfgr(with_field(self.0, 15, 15, v))
    }

    /// Raw divisor for the APB2 prescaler; see `get_ppre2` and `with_ppre2`.
    pub fn get_ppre2_div(self) -> (r: ApbPrescaler)
        ensures
            r.bits_of() == field(self.0, 14, 13),
    {
        get_total_field(self.0, 14, 13)
    }

    /// Raw divisor for the APB2 prescaler; see `get_ppre2` and `with_ppre2`.
    pub fn with_ppre2_div(self, v: ApbPrescaler) -> (r: Self)
        ensures
            r.0 == replaced(self.0, 14, 13, v.bits_of()),
    {
        Cfgr(with_field(self.0, 14, 13, v))
    }

    /// Raw enable for the APB1 prescaler; see `get_ppre1` and `with_ppre1`.
    pub fn get_ppre1_en(self) -> (r: bool)
        ensures
            r == bit(self.0, 12),
    {
        proof {
            lemma_small_masks();
        }
        get_total_field(self.0, 12, 12)
    }

    /// Raw enable for the APB1 prescaler; see `get_ppre1` and `with_ppre1`.
    pub fn with_ppre1_en(self, v: bool) -> (r: Self)
        ensures
            r.0 == replaced(self.0, 12, 12, v.bits_of()),
    {
        Cfgr(with_field(self.0, 12, 12, v))
    }

    /// Raw divisor for the APB1 prescaler; see `get_ppre1` and `with_ppre1`.
    pub fn get_ppre1_div(self) -> (r: ApbPrescaler)
        ensures
            r.bits_of() == field(self.0, 11, 10),
    {
        get_total_field(self.0, 11, 10)
    }

    /// Raw divisor for the APB1 prescaler; see `get_ppre1` and `with_ppre1`.
    pub fn with_ppre1_div(self, v: ApbPrescaler) -> (r: Self)
        ensures
            r.0 == replaced(self.0, 11, 10, v.bits_of()),
    {
        Cfgr(with_field(self.0, 11, 10, v))
    }

    /// Raw enable for the AHB prescaler; see `get_hpre` and `with_hpre`.
    pub fn get_hpre_en(self) -> (r: bool)
        ensures
            r == bit(self.0, 7),
    {
        proof {
            lemma_small_masks();
        }
        get_total_field(self.0, 7, 7)
    }

    /// Raw enable for the AHB prescaler; see `get_hpre` and `with_hpre`.
    pub fn with_hpre_en(self, v: bool) -> (r: Self)
        ensures
            r.0 == replaced(self.0, 7, 7, v.bits_of()),
    {
        Cfgr(with_field(self.0, 7, 7, v))
    }

    /// Raw divisor for the AHB prescaler; see `get_hpre` and `with_hpre`.
    pub fn get_hpre_div(self) -> (r: AhbPrescaler)
        ensures
            r.bits_of() == field(self.0, 6, 4),
    {
        get_total_field(self.0, 6, 4)
    }

    /// Raw divisor for the AHB prescaler; see `get_hpre` and `with_hpre`.
    pub fn with_hpre_div(self, v: AhbPrescaler) -> (r: Self)
        ensures
            r.0 == replaced(self.0, 6, 4, v.bits_of()),
    {
        Cfgr(with_field(self.0, 6, 4, v))
    }

    /// Reads as the currently selected system clock source.  After writing
    /// `Cfgr` with a new value chosen by `with_sw`, applications can read `Cfgr`
    /// and check this field to find out when their setting has taken effect.
    pub fn get_sws(self) -> (r: BitsResult<ClockSwitch>)
        ensures
            decoded(r, field(self.0, 3, 2)),
    {
        get_field(self.0, 3, 2)
    }

    /// Reads as the currently selected system clock source.  After writing
    /// `Cfgr` with a new value chosen by `with_sw`, applications can read `Cfgr`
    /// and check this field to find out when their setting has taken effect.
    pub fn with_sws(self, v: ClockSwitch) -> (r: Self)
        ensures
            r.0 == replaced(self.0, 3, 2, v.bits_of()),
    {
        Cfgr(with_field(self.0, 3, 2, v))
    }

    /// Selects the system clock source.  Selections written to `Cfgr` do not
    /// take effect immediately; monitor by re-reading and checking `get_sws`.
    pub fn get_sw(self) -> (r: BitsResult<ClockSwitch>)
        ensures
            decoded(r, field(self.0, 1, 0)),
    {
        get_field(self.0, 1, 0)
    }

    /// Selects the system clock source.  Selections written to `Cfgr` do not
    /// take effect immediately; monitor by re-reading and checking `get_sws`.
    pub fn with_sw(self, v: ClockSwitch) -> (r: Self)
        ensures
            r.0 == replaced(self.0, 1, 0, v.bits_of()),
    {
        Cfgr(with_field(self.0, 1, 0, v))
    }
}

impl Cfgr {
    /// Selects the (optional) prescaler used on the MCO2 output.
    ///
    /// This maps to the MCO2PRE field of the reference manual, with all the
    /// "don't care" patterns folded into `None`.  The raw accessors
    /// `with_mco2pre_div` and `with_mco2pre_en` write a specific pattern.
    pub fn get_mco2pre(self) -> (r: Option<McoPre>)
        ensures
            match r {
                Some(d) => bit(self.0, 29) && d.bits_of() == field(self.0, 28, 27),
                None => !bit(self.0, 29),
            },
    {
        if self.get_mco2pre_en() {
            Some(self.get_mco2pre_div())
        } else {
            None
        }
    }

    /// Selects the (optional) prescaler used on the MCO2 output.
    ///
    /// This maps to the MCO2PRE field of the reference manual, with all the
    /// "don't care" patterns folded into `None`.  The raw accessors
    /// `with_mco2pre_div` and `with_mco2pre_en` write a specific pattern.
    pub fn with_mco2pre(self, v: Option<McoPre>) -> (r: Self)
        ensures
            r.0 == prescaled(self.0, 29, 28, 27, v),
    {
        if let Some(d) = v {
            self.with_mco2pre_div(d).with_mco2pre_en(true)
        } else {
            self.with_mco2pre_en(false)
        }
    }

    /// Selects the (optional) prescaler used on the MCO1 output.
    ///
    /// This maps to the MCO1PRE field of the reference manual, with all the
    /// "don't care" patterns folded into `None`.  The raw accessors
    /// `with_mco1pre_div` and `with_mco1pre_en` write a specific pattern.
    pub fn get_mco1pre(self) -> (r: Option<McoPre>)
        ensures
            match r {
                Some(d) => bit(self.0, 26) && d.bits_of() == field(self.0, 25, 24),
                None => !bit(self.0, 26),
            },
    {
        if self.get_mco1pre_en() {
            Some(self.get_mco1pre_div())
        } else {
            None
        }
    }

    /// Selects the (optional) prescaler used on the MCO1 output.
    ///
    /// This maps to the MCO1PRE field of the reference manual, with all the
    /// "don't care" patterns folded into `None`.  The raw accessors
    /// `with_mco1pre_div` and `with_mco1pre_en` write a specific pattern.
    pub fn with_mco1pre(self, v: Option<McoPre>) -> (r: Self)
        ensures
            r.0 == prescaled(self.0, 26, 25, 24, v),
    {
        if let Some(d) = v {
            self.with_mco1pre_div(d).with_mco1pre_en(true)
        } else {
            self.with_mco1pre_en(false)
        }
    }

    /// Selects the (optional) prescaler used to derive the APB2 clock from the
    /// AHB clock.
    ///
    /// This maps to the PPRE2 field of the reference manual, with all the
    /// "don't care" patterns folded into `None`.  The raw accessors
    /// `with_ppre2_div` and `with_ppre2_en` write a specific pattern.
    pub fn get_ppre2(self) -> (r: Option<ApbPrescaler>)
        ensures
            match r {
                Some(d) => bit(self.0, 15) && d.bits_of() == field(self.0, 14, 13),
                None => !bit(self.0, 15),
            },
    {
        if self.get_ppre2_en() {
            Some(self.get_ppre2_div())
        } else {
            None
        }
    }

    /// Selects the (optional) prescaler used to derive the APB2 clock from the
    /// AHB clock.
    ///
    /// This maps to the PPRE2 field of the reference manual, with all the
    /// "don't care" patterns folded into `None`.  The raw accessors
    /// `with_ppre2_div` and `with_ppre2_en` write a specific pattern.
    pub fn with_ppre2(self, v: Option<ApbPrescaler>) -> (r: Self)
        ensures
            r.0 == prescaled(self.0, 15, 14, 13, v),
    {
        if let Some(d) = v {
            self.with_ppre2_div(d).with_ppre2_en(true)
        } else {
            self.with_ppre2_en(false)
        }
    }

    /// Selects the (optional) prescaler used to derive the APB1 clock from the
    /// AHB clock.
    ///
    /// This maps to the PPRE1 field of the reference manual, with all the
    /// "don't care" patterns folded into `None`.  The raw accessors
    /// `with_ppre1_div` and `with_ppre1_en` write a specific pattern.
    pub fn get_ppre1(self) -> (r: Option<ApbPrescaler>)
        ensures
            match r {
                Some(d) => bit(self.0, 12) && d.bits_of() == field(self.0, 11, 10),
                None => !bit(self.0, 12),
            },
    {
        if self.get_ppre1_en() {
            Some(self.get_ppre1_div())
        } else {
            None
        }
    }

    /// Selects the (optional) prescaler used to derive the APB1 clock from the
    /// AHB clock.
    ///
    /// This maps to the PPRE1 field of the reference manual, with all the
    /// "don't care" patterns folded into `None`.  The raw accessors
    /// `with_ppre1_div` and `with_ppre1_en` write a specific pattern.
    pub fn with_ppre1(self, v: Option<ApbPrescaler>) -> (r: Self)
        ensures
            r.0 == prescaled(self.0, 12, 11, 10, v),
    {
        if let Some(d) = v {
            self.with_ppre1_div(d).with_ppre1_en(true)
        } else {
            self.with_ppre1_en(false)
        }
    }

    /// Selects the (optional) prescaler used to derive the AHB clock from the
    /// system clock.
    ///
    /// This maps to the HPRE field of the reference manual, with all the
    /// "don't care" patterns folded into `None`.  The raw accessors
    /// `with_hpre_div` and `with_hpre_en` write a specific pattern.
    pub fn get_hpre(self) -> (r: Option<AhbPrescaler>)
        ensures
            match r {
                Some(d) => bit(self.0, 7) && d.bits_of() == field(self.0, 6, 4),
                None => !bit(self.0, 7),
            },
    {
        if self.get_hpre_en() {
            Some(self.get_hpre_div())
        } else {
            None
        }
    }

    /// Selects the (optional) prescaler used to derive the AHB clock from the
    /// system clock.
    ///
    /// This maps to the HPRE field of the reference manual, with all the
    /// "don't care" patterns folded into `None`.  The raw accessors
    /// `with_hpre_div` and `with_hpre_en` write a specific pattern.
    pub fn with_hpre(self, v: Option<AhbPrescaler>) -> (r: Self)
        ensures
            r.0 == prescaled(self.0, 7, 6, 4, v),
    {
        if let Some(d) = v {
            self.with_hpre_div(d).with_hpre_en(true)
        } else {
            self.with_hpre_en(false)
        }
    }
}

/// Clocks that can be output on the MCO2 pin.
#[derive(Clone, Copy, Debug, PartialEq, Eq, Structural)]
pub enum Mco2 {
    Sysclk,
    Plli2s,
    Hse,
    Pll,
}

impl IntoBits for Mco2 {
    open spec fn bits_of(self) -> u32 {
        match self {
            Mco2::Sysclk => 0b00,
            Mco2::Plli2s => 0b01,
            Mco2::Hse => 0b10,
            Mco2::Pll => 0b11,
        }
    }

    fn into_bits(self) -> u32 {
        match self {
            Mco2::Sysclk => 0b00,
            Mco2::Plli2s => 0b01,
            Mco2::Hse => 0b10,
            Mco2::Pll => 0b11,
        }
    }
}

impl FromBits for Mco2 {
    open spec fn valid_bits(bits: u32) -> bool {
        bits < 4
    }

    fn from_bits(bits: u32) -> (r: BitsResult<Self>) {
        match bits {
            0b00 => Ok(Mco2::Sysclk),
            0b01 => Ok(Mco2::Plli2s),
            0b10 => Ok(Mco2::Hse),
            0b11 => Ok(Mco2::Pll),
            _ => Err(BadBits(bits)),
        }
    }
}

impl FromBitsTotal for Mco2 {
    open spec fn total_width() -> u32 {
        2
    }

    fn from_bits_total(bits: u32) -> (r: Self) {
        proof {
            lemma_small_masks();
        }
        match bits {
            0b00 => Mco2::Sysclk,
            0b01 => Mco2::Plli2s,
            0b10 => Mco2::Hse,
            _ => Mco2::Pll,
        }
    }
}

/// Prescaler options for the MCOx pins.
#[derive(Clone, Copy, Debug, PartialEq, Eq, Structural)]
pub enum McoPre {
    Div2,
    Div3,
    Div4,
    Div5,
}

impl IntoBits for McoPre {
    open spec fn bits_of(self) -> u32 {
        match self {
            McoPre::Div2 => 0b00,
            McoPre::Div3 => 0b01,
            McoPre::Div4 => 0b10,
            McoPre::Div5 => 0b11,
        }
    }

    fn into_bits(self) -> u32 {
        match self {
            McoPre::Div2 => 0b00,
            McoPre::Div3 => 0b01,
            McoPre::Div4 => 0b10,
            McoPre::Div5 => 0b11,
        }
    }
}

impl FromBits for McoPre {
    open spec fn valid_bits(bits: u32) -> bool {
        bits < 4
    }

    fn from_bits(bits: u32) -> (r: BitsResult<Self>) {
        match bits {
            0b00 => Ok(McoPre::Div2),
            0b01 => Ok(McoPre::Div3),
            0b10 => Ok(McoPre::Div4),
            0b11 => Ok(McoPre::Div5),
            _ => Err(BadBits(bits)),
        }
    }
}

impl FromBitsTotal for McoPre {
    open spec fn total_width() -> u32 {
        2
    }

    fn from_bits_total(bits: u32) -> (r: Self) {
        proof {
            lemma_small_masks();
        }
        match bits {
            0b00 => McoPre::Div2,
            0b01 => McoPre::Div3,
            0b10 => McoPre::Div4,
            _ => McoPre::Div5,
        }
    }
}

/// Clocks that can be used to feed the I2S peripheral(s).
#[derive(Clone, Copy, Debug, PartialEq, Eq, Structural)]
pub enum I2sSrc {
    Plli2s,
    I2sCkin,
}

impl IntoBits for I2sSrc {
    open spec fn bits_of(self) -> u32 {
        match self {
            I2sSrc::Plli2s => 0,
            I2sSrc::I2sCkin => 1,
        }
    }

    fn into_bits(self) -> u32 {
        match self {
            I2sSrc::Plli2s => 0,
            I2sSrc::I2sCkin => 1,
        }
    }
}

impl FromBits for I2sSrc {
    open spec fn valid_bits(bits: u32) -> bool {
        bits < 2
    }

    fn from_bits(bits: u32) -> (r: BitsResult<Self>) {
        match bits {
            0 => Ok(I2sSrc::Plli2s),
            1 => Ok(I2sSrc::I2sCkin),
            _ => Err(BadBits(bits)),
        }
    }
}

impl FromBitsTotal for I2sSrc {
    open spec fn total_width() -> u32 {
        1
    }

    fn from_bits_total(bits: u32) -> (r: Self) {
        proof {
            lemma_small_masks();
        }
        match bits {
            0 => I2sSrc::Plli2s,
            _ => I2sSrc::I2sCkin,
        }
    }
}

/// Clocks that can be output on the MCO1 pin.
#[derive(Clone, Copy, Debug, PartialEq, Eq, Structural)]
pub enum Mco1 {
    Hsi,
    Lse,
    Hse,
    Pll,
}

impl IntoBits for Mco1 {
    open spec fn bits_of(self) -> u32 {
        match self {
            Mco1::Hsi => 0b00,
            Mco1::Lse => 0b01,
            Mco1::Hse => 0b10,
            Mco1::Pll => 0b11,
        }
    }

    fn into_bits(self) -> u32 {
        match self {
            Mco1::Hsi => 0b00,
            Mco1::Lse => 0b01,
            Mco1::Hse => 0b10,
            Mco1::Pll => 0b11,
        }
    }
}

impl FromBits for Mco1 {
    open spec fn valid_bits(bits: u32) -> bool {
        bits < 4
    }

    fn from_bits(bits: u32) -> (r: BitsResult<Self>) {
        match bits {
            0b00 => Ok(Mco1::Hsi),
            0b01 => Ok(Mco1::Lse),
            0b10 => Ok(Mco1::Hse),
            0b11 => Ok(Mco1::Pll),
            _ => Err(BadBits(bits)),
        }
    }
}

impl FromBitsTotal for Mco1 {
    open spec fn total_width() -> u32 {
        2
    }

    fn from_bits_total(bits: u32) -> (r: Self) {
        proof {
            lemma_small_masks();
        }
        match bits {
            0b00 => Mco1::Hsi,
            0b01 => Mco1::Lse,
            0b10 => Mco1::Hse,
            _ => Mco1::Pll,
        }
    }
}

/// Prescaler options for the APB clocks (relative to the AHB clock).
#[derive(Clone, Copy, Debug, PartialEq, Eq, Structural)]
pub enum ApbPrescaler {
    Div2,
    Div4,
    Div8,
    Div16,
}

impl IntoBits for ApbPrescaler {
    open spec fn bits_of(self) -> u32 {
        match self {
            ApbPrescaler::Div2 => 0b00,
            ApbPrescaler::Div4 => 0b01,
            ApbPrescaler::Div8 => 0b10,
            ApbPrescaler::Div16 => 0b11,
        }
    }

    fn into_bits(self) -> u32 {
        match self {
            ApbPrescaler::Div2 => 0b00,
            ApbPrescaler::Div4 => 0b01,
            ApbPrescaler::Div8 => 0b10,
            ApbPrescaler::Div16 => 0b11,
        }
    }
}

impl FromBits for ApbPrescaler {
    open spec fn valid_bits(bits: u32) -> bool {
        bits < 4
    }

    fn from_bits(bits: u32) -> (r: BitsResult<Self>) {
        match bits {
            0b00 => Ok(ApbPrescaler::Div2),
            0b01 => Ok(ApbPrescaler::Div4),
            0b10 => Ok(ApbPrescaler::Div8),
            0b11 => Ok(ApbPrescaler::Div16),
            _ => Err(BadBits(bits)),
        }
    }
}

impl FromBitsTotal for ApbPrescaler {
    open spec fn total_width() -> u32 {
        2
    }

    fn from_bits_total(bits: u32) -> (r: Self) {
        proof {
            lemma_small_masks();
        }
        match bits {
            0b00 => ApbPrescaler::Div2,
            0b01 => ApbPrescaler::Div4,
            0b10 => ApbPrescaler::Div8,
            _ => ApbPrescaler::Div16,
        }
    }
}

/// Prescaler options for the AHB clocks (relative to the system clock).
#[derive(Clone, Copy, Debug, PartialEq, Eq, Structural)]
pub enum AhbPrescaler {
    Div2,
    Div4,
    Div8,
    Div16,
    Div64,
    Div128,
    Div256,
    Div512,
}

impl IntoBits for AhbPrescaler {
    open spec fn bits_of(self) -> u32 {
        match self {
            AhbPrescaler::Div2 => 0b000,
            AhbPrescaler::Div4 => 0b001,
            AhbPrescaler::Div8 => 0b010,
            AhbPrescaler::Div16 => 0b011,
            AhbPrescaler::Div64 => 0b100,
            AhbPrescaler::Div128 => 0b101,
            AhbPrescaler::Div256 => 0b110,
            AhbPrescaler::Div512 => 0b111,
        }
    }

    fn into_bits(self) -> u32 {
        match self {
            AhbPrescaler::Div2 => 0b000,
            AhbPrescaler::Div4 => 0b001,
            AhbPrescaler::Div8 => 0b010,
            AhbPrescaler::Div16 => 0b011,
            AhbPrescaler::Div64 => 0b100,
            AhbPrescaler::Div128 => 0b101,
            AhbPrescaler::Div256 => 0b110,
            AhbPrescaler::Div512 => 0b111,
        }
    }
}

impl FromBits for AhbPrescaler {
    open spec fn valid_bits(bits: u32) -> bool {
        bits < 8
    }

    fn from_bits(bits: u32) -> (r: BitsResult<Self>) {
        match bits {
            0b000 => Ok(AhbPrescaler::Div2),
            0b001 => Ok(AhbPrescaler::Div4),
            0b010 => Ok(AhbPrescaler::Div8),
            0b011 => Ok(AhbPrescaler::Div16),
            0b100 => Ok(AhbPrescaler::Div64),
            0b101 => Ok(AhbPrescaler::Div128),
            0b110 => Ok(AhbPrescaler::Div256),
            0b111 => Ok(AhbPrescaler::Div512),
            _ => Err(BadBits(bits)),
        }
    }
}

impl FromBitsTotal for AhbPrescaler {
    open spec fn total_width() -> u32 {
        3
    }

    fn from_bits_total(bits: u32) -> (r: Self) {
        proof {
            lemma_small_masks();
        }
        match bits {
            0b000 => AhbPrescaler::Div2,
            0b001 => AhbPrescaler::Div4,
            0b010 => AhbPrescaler::Div8,
            0b011 => AhbPrescaler::Div16,
            0b100 => AhbPrescaler::Div64,
            0b101 => AhbPrescaler::Div128,
            0b110 => AhbPrescaler::Div256,
            _ => AhbPrescaler::Div512,
        }
    }
}

/// Clocks that can be used as the system clock source.  The fourth pattern
/// of the two-bit field is not allowed, so fields of this type are read with
/// a check.
#[derive(Clone, Copy, Debug, PartialEq, Eq, Structural)]
pub enum ClockSwitch {
    Hsi,
    Hse,
    Pll,
}

impl IntoBits for ClockSwitch {
    open spec fn bits_of(self) -> u32 {
        match self {
            ClockSwitch::Hsi => 0b00,
            ClockSwitch::Hse => 0b01,
            ClockSwitch::Pll => 0b10,
        }
    }

    fn into_bits(self) -> u32 {
        match self {
            ClockSwitch::Hsi => 0b00,
            ClockSwitch::Hse => 0b01,
            ClockSwitch::Pll => 0b10,
        }
    }
}

impl FromBits for ClockSwitch {
    open spec fn valid_bits(bits: u32) -> bool {
        bits < 3
    }

    fn from_bits(bits: u32) -> (r: BitsResult<Self>) {
        match bits {
            0b00 => Ok(ClockSwitch::Hsi),
            0b01 => Ok(ClockSwitch::Hse),
            0b10 => Ok(ClockSwitch::Pll),
            _ => Err(BadBits(bits)),
        }
    }
}

impl Pllcfgr {
    /// Prescaler for the PLL48 domain.
    ///
    /// Derives the clock used for USB OTG FS, SDIO, and RNG from the VCO
    /// frequency.
    pub fn get_pllq(self) -> (r: u32)
        ensures
            r.bits_of() == field(self.0, 27, 24),
    {
        get_total_field(self.0, 27, 24)
    }

    /// Prescaler for the PLL48 domain.
    ///
    /// Derives the clock used for USB OTG FS, SDIO, and RNG from the VCO
    /// frequency.
    pub fn with_pllq(self, v: u32) -> (r: Self)
        ensures
            r.0 == replaced(self.0, 27, 24, v.bits_of()),
    {
        Pllcfgr(with_field(self.0, 27, 24, v))
    }

    /// Input clock for both the main PLL and PLLI2S.
    pub fn get_pllsrc(self) -> (r: PllSource)
        ensures
            r.bits_of() == field(self.0, 22, 22),
    {
        get_total_field(self.0, 22, 22)
    }

    /// Input clock for both the main PLL and PLLI2S.
    pub fn with_pllsrc(self, v: PllSource) -> (r: Self)
        ensures
            r.0 == replaced(self.0, 22, 22, v.bits_of()),
    {
        Pllcfgr(with_field(self.0, 22, 22, v))
    }

    /// Prescaler for the system clock domain.
    ///
    /// Derives the PLL's system clock output from the VCO frequency.  To make
    /// this the actual system clock, the PLL must be selected in `Cfgr`.
    pub fn get_pllp(self) -> (r: Pllp)
        ensures
            r.bits_of() == field(self.0, 17, 16),
    {
        get_total_field(self.0, 17, 16)
    }

    /// Prescaler for the system clock domain.
    ///
    /// Derives the PLL's system clock output from the VCO frequency.  To make
    /// this the actual system clock, the PLL must be selected in `Cfgr`.
    pub fn with_pllp(self, v: Pllp) -> (r: Self)
        ensures
            r.0 == replaced(self.0, 17, 16, v.bits_of()),
    {
        Pllcfgr(with_field(self.0, 17, 16, v))
    }

    /// Multiplication factor for the VCO.
    ///
    /// Determines the internal VCO frequency by multiplying the PLL input
    /// frequency.
    pub fn get_plln(self) -> (r: u32)
        ensures
            r.bits_of() == field(self.0, 14, 6),
    {
        get_total_field(self.0, 14, 6)
    }

    /// Multiplication factor for the VCO.
    ///
    /// Determines the internal VCO frequency by multiplying the PLL input
    /// frequency.
    pub fn with_plln(self, v: u32) -> (r: Self)
        ensures
            r.0 == replaced(self.0, 14, 6, v.bits_of()),
    {
        Pllcfgr(with_field(self.0, 14, 6, v))
    }

    /// Prescaler for the PLL input frequency.
    ///
    /// Derives the PLL input frequency from the PLL source.
    pub fn get_pllm(self) -> (r: u32)
        ensures
            r.bits_of() == field(self.0, 5, 0),
    {
        get_total_field(self.0, 5, 0)
    }

    /// Prescaler for the PLL input frequency.
    ///
    /// Derives the PLL input frequency from the PLL source.
    pub fn with_pllm(self, v: u32) -> (r: Self)
        ensures
            r.0 == replaced(self.0, 5, 0, v.bits_of()),
    {
        Pllcfgr(with_field(self.0, 5, 0, v))
    }
}

/// Options for the PLL source clock.
#[derive(Clone, Copy, Debug, PartialEq, Eq, Structural)]
pub enum PllSource {
    Hsi,
    Hse,
}

impl IntoBits for PllSource {
    open spec fn bits_of(self) -> u32 {
        match self {
            PllSource::Hsi => 0,
            PllSource::Hse => 1,
        }
    }

    fn into_bits(self) -> u32 {
        match self {
            PllSource::Hsi => 0,
            PllSource::Hse => 1,
        }
    }
}

impl FromBits for PllSource {
    open spec fn valid_bits(bits: u32) -> bool {
        bits < 2
    }

    fn from_bits(bits: u32) -> (r: BitsResult<Self>) {
        match bits {
            0 => Ok(PllSource::Hsi),
            1 => Ok(PllSource::Hse),
            _ => Err(BadBits(bits)),
        }
    }
}

impl FromBitsTotal for PllSource {
    open spec fn total_width() -> u32 {
        1
    }

    fn from_bits_total(bits: u32) -> (r: Self) {
        proof {
            lemma_small_masks();
        }
        match bits {
            0 => PllSource::Hsi,
            _ => PllSource::Hse,
        }
    }
}

/// Options for deriving the system clock from the PLL's VCO.
#[derive(Clone, Copy, Debug, PartialEq, Eq, Structural)]
pub enum Pllp {
    Div2,
    Div4,
    Div6,
    Div8,
}

impl IntoBits for Pllp {
    open spec fn bits_of(self) -> u32 {
        match self {
            Pllp::Div2 => 0b00,
            Pllp::Div4 => 0b01,
            Pllp::Div6 => 0b10,
            Pllp::Div8 => 0b11,
        }
    }

    fn into_bits(self) -> u32 {
        match self {
            Pllp::Div2 => 0b00,
            Pllp::Div4 => 0b01,
            Pllp::Div6 => 0b10,
            Pllp::Div8 => 0b11,
        }
    }
}

impl FromBits for Pllp {
    open spec fn valid_bits(bits: u32) -> bool {
        bits < 4
    }

    fn from_bits(bits: u32) -> (r: BitsResult<Self>) {
        match bits {
            0b00 => Ok(Pllp::Div2),
            0b01 => Ok(Pllp::Div4),
            0b10 => Ok(Pllp::Div6),
            0b11 => Ok(Pllp::Div8),
            _ => Err(BadBits(bits)),
        }
    }
}

impl FromBitsTotal for Pllp {
    open spec fn total_width() -> u32 {
        2
    }

    fn from_bits_total(bits: u32) -> (r: Self) {
        proof {
            lemma_small_masks();
        }
        match bits {
            0b00 => Pllp::Div2,
            0b01 => Pllp::Div4,
            0b10 => Pllp::Div6,
            _ => Pllp::Div8,
        }
    }
}

/// A clock prescaler setting, as the factor it divides by.
pub trait ClockDivisor: Sized {
    /// The factor this setting divides by.
    spec fn divisor(self) -> nat;

    fn to_divisor(self) -> (r: u32)
        ensures
            r == self.divisor(),
            r >= 1,
    ;
}

impl ClockDivisor for ApbPrescaler {
    open spec fn divisor(self) -> nat {
        match self {
            ApbPrescaler::Div2 => 2,
            ApbPrescaler::Div4 => 4,
            ApbPrescaler::Div8 => 8,
            ApbPrescaler::Div16 => 16,
        }
    }

    fn to_divisor(self) -> (r: u32) {
        match self {
            ApbPrescaler::Div2 => 2,
            ApbPrescaler::Div4 => 4,
            ApbPrescaler::Div8 => 8,
            ApbPrescaler::Div16 => 16,
        }
    }
}

impl ClockDivisor for AhbPrescaler {
    open spec fn divisor(self) -> nat {
        match self {
            AhbPrescaler::Div2 => 2,
            AhbPrescaler::Div4 => 4,
            AhbPrescaler::Div8 => 8,
            AhbPrescaler::Div16 => 16,
            AhbPrescaler::Div64 => 64,
            AhbPrescaler::Div128 => 128,
            AhbPrescaler::Div256 => 256,
            AhbPrescaler::Div512 => 512,
        }
    }

    fn to_divisor(self) -> (r: u32) {
        match self {
            AhbPrescaler::Div2 => 2,
            AhbPrescaler::Div4 => 4,
            AhbPrescaler::Div8 => 8,
            AhbPrescaler::Div16 => 16,
            AhbPrescaler::Div64 => 64,
            AhbPrescaler::Div128 => 128,
            AhbPrescaler::Div256 => 256,
            AhbPrescaler::Div512 => 512,
        }
    }
}

impl ClockDivisor for Pllp {
    open spec fn divisor(self) -> nat {
        match self {
            Pllp::Div2 => 2,
            Pllp::Div4 => 4,
            Pllp::Div6 => 6,
            Pllp::Div8 => 8,
        }
    }

    fn to_divisor(self) -> (r: u32) {
        match self {
            Pllp::Div2 => 2,
            Pllp::Div4 => 4,
            Pllp::Div6 => 6,
            Pllp::Div8 => 8,
        }
    }
}

/// An absent prescaler divides by one.
impl<T: ClockDivisor> ClockDivisor for Option<T> {
    open spec fn divisor(self) -> nat {
        match self {
            Some(v) => v.divisor(),
            None => 1,
        }
    }

    fn to_divisor(self) -> (r: u32) {
        match self {
            Some(v) => v.to_divisor(),
            None => 1,
        }
    }
}

/// Address of the RCC register block.
pub const RCC_ADDRESS: usize = 0x4002_3800;

} // verus!
