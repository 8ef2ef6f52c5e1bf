//! General Purpose I/O (GPIO) support.
//!
//! The STM32F4 GPIO unit is responsible for the pin-twiddling we usually
//! imagine as "GPIO," but also for routing peripheral functions to the outside
//! world.
use vstd::prelude::*;

verus! {

use crate::arm_m::reg::{AtomicReg, Reg};
use crate::bits::{bit, field, BadBits, BitsResult, FromBits, IntoBits};

/// Possible modes of a GPIO pin.
#[derive(Clone, Copy, Debug, PartialEq, Eq, Structural)]
pub enum Mode {
    /// High-impedance state with a Schmitt trigger input filter.  `OutputType`
    /// and `Speed` are ignored in `Input` state, but `Pull` can be applied.
    Input,
    /// Digital output state, controlled through the GPIO port.
    Gpio,
    /// Peripheral alternate functions.
    Alternate,
    /// Analog mode for use with the DAC and ADC.
    Analog,
}

impl IntoBits for Mode {
    open spec fn bits_of(self) -> u32 {
        match self {
            Mode::Input => 0b00,
            Mode::Gpio => 0b01,
            Mode::Alternate => 0b10,
            Mode::Analog => 0b11,
        }
    }

    fn into_bits(self) -> u32 {
        match self {
            Mode::Input => 0b00,
            Mode::Gpio => 0b01,
            Mode::Alternate => 0b10,
            Mode::Analog => 0b11,
        }
    }
}

impl FromBits for Mode {
    open spec fn valid_bits(bits: u32) -> bool {
        bits < 4
    }

    fn from_bits(bits: u32) -> (r: BitsResult<Self>) {
        match bits {
            0b00 => Ok(Mode::Input),
            0b01 => Ok(Mode::Gpio),
            0b10 => Ok(Mode::Alternate),
            0b11 => Ok(Mode::Analog),
            _ => Err(BadBits(bits)),
        }
    }
}

/// Available pin output drive types.
#[derive(Clone, Copy, Debug, PartialEq, Eq, Structural)]
pub enum OutputType {
    /// Pin is driven both high and low.
    PushPull,
    /// Pin is only pulled low, high side drive transistor is disabled.
    OpenDrain,
}

impl IntoBits for OutputType {
    open spec fn bits_of(self) -> u32 {
        match self {
            OutputType::PushPull => 0,
            OutputType::OpenDrain => 1,
        }
    }

    fn into_bits(self) -> u32 {
        match self {
            OutputType::PushPull => 0,
            OutputType::OpenDrain => 1,
        }
    }
}

impl FromBits for OutputType {
    open spec fn valid_bits(bits: u32) -> bool {
        bits < 2
    }

    fn from_bits(bits: u32) -> (r: BitsResult<Self>) {
        match bits {
            0 => Ok(OutputType::PushPull),
            1 => Ok(OutputType::OpenDrain),
            _ => Err(BadBits(bits)),
        }
    }
}

/// Available pin output speeds.  This controls output slew rate filtering.
/// The mapping of these settings to transition speeds is part-specific and
/// can be found in the datasheet.
#[derive(Clone, Copy, Debug, PartialEq, Eq, Structural)]
pub enum Speed {
    Low,
    Medium,
    High,
    VeryHigh,
}

impl IntoBits for Speed {
    open spec fn bits_of(self) -> u32 {
        match self {
            Speed::Low => 0b00,
            Speed::Medium => 0b01,
            Speed::High => 0b10,
            Speed::VeryHigh => 0b11,
        }
    }

    fn into_bits(self) -> u32 {
        match self {
            Speed::Low => 0b00,
            Speed::Medium => 0b01,
            Speed::High => 0b10,
            Speed::VeryHigh => 0b11,
        }
    }
}

impl FromBits for Speed {
    open spec fn valid_bits(bits: u32) -> bool {
        bits < 4
    }

    fn from_bits(bits: u32) -> (r: BitsResult<Self>) {
        match bits {
            0b00 => Ok(Speed::Low),
            0b01 => Ok(Speed::Medium),
            0b10 => Ok(Speed::High),
            0b11 => Ok(Speed::VeryHigh),
            _ => Err(BadBits(bits)),
        }
    }
}

/// Pull up/down resistor configuration.  The pattern `0b11` is reserved,
/// so a pull field is read with a check.
#[derive(Clone, Copy, Debug, PartialEq, Eq, Structural)]
pub enum Pull {
    /// No internal pull resistors enabled.
    Floating,
    /// Internal pull-up resistor enabled.
    Up,
    /// Internal pull-down resistor enabled.
    Down,
}

impl IntoBits for Pull {
    open spec fn bits_of(self) -> u32 {
        match self {
            Pull::Floating => 0b00,
            Pull::Up => 0b01,
            Pull::Down => 0b10,
        }
    }

    fn into_bits(self) -> u32 {
        match self {
            Pull::Floating => 0b00,
            Pull::Up => 0b01,
            Pull::Down => 0b10,
        }
    }
}

impl FromBits for Pull {
    open spec fn valid_bits(bits: u32) -> bool {
        bits < 3
    }

    fn from_bits(bits: u32) -> (r: BitsResult<Self>) {
        match bits {
            0b00 => Ok(Pull::Floating),
            0b01 => Ok(Pull::Up),
            0b10 => Ok(Pull::Down),
            _ => Err(BadBits(bits)),
        }
    }
}

/// Alternate function selection.  The specific meaning of AFx depends on the
/// pin.
#[derive(Clone, Copy, Debug, PartialEq, Eq, Structural)]
pub enum Function {
    AF0,
    AF1,
    AF2,
    AF3,
    AF4,
    AF5,
    AF6,
    AF7,
    AF8,
    AF9,
    AF10,
    AF11,
    AF12,
    AF13,
    AF14,
    AF15,
}

impl IntoBits for Function {
    open spec fn bits_of(self) -> u32 {
        match self {
            Function::AF0 => 0,
            Function::AF1 => 1,
            Function::AF2 => 2,
            Function::AF3 => 3,
            Function::AF4 => 4,
            Function::AF5 => 5,
            Function::AF6 => 6,
            Function::AF7 => 7,
            Function::AF8 => 8,
            Function::AF9 => 9,
            Function::AF10 => 10,
            Function::AF11 => 11,
            Function::AF12 => 12,
            Function::AF13 => 13,
            Function::AF14 => 14,
            Function::AF15 => 15,
        }
    }

    fn into_bits(self) -> u32 {
        match self {
            Function::AF0 => 0,
            Function::AF1 => 1,
            Function::AF2 => 2,
            Function::AF3 => 3,
            Function::AF4 => 4,
            Function::AF5 => 5,
            Function::AF6 => 6,
            Function::AF7 => 7,
            Function::AF8 => 8,
            Function::AF9 => 9,
            Function::AF10 => 10,
            Function::AF11 => 11,
            Function::AF12 => 12,
            Function::AF13 => 13,
            Function::AF14 => 14,
            Function::AF15 => 15,
        }
    }
}

impl FromBits for Function {
    open spec fn valid_bits(bits: u32) -> bool {
        bits < 16
    }

    fn from_bits(bits: u32) -> (r: BitsResult<Self>) {
        match bits {
            0 => Ok(Function::AF0),
            1 => Ok(Function::AF1),
            2 => Ok(Function::AF2),
            3 => Ok(Function::AF3),
            4 => Ok(Function::AF4),
            5 => Ok(Function::AF5),
            6 => Ok(Function::AF6),
            7 => Ok(Function::AF7),
            8 => Ok(Function::AF8),
            9 => Ok(Function::AF9),
            10 => Ok(Function::AF10),
            11 => Ok(Function::AF11),
            12 => Ok(Function::AF12),
            13 => Ok(Function::AF13),
            14 => Ok(Function::AF14),
            15 => Ok(Function::AF15),
            _ => Err(BadBits(bits)),
        }
    }
}
/// Names a group of pins on a single GPIO port.  The STM32F4 GPIO is designed
/// so that most operations can be applied to any subset of pins for the same
/// cost as a single pin, so every pin configuration method takes a mask.
#[derive(Clone, Copy, Debug, PartialEq, Eq, Structural)]
pub struct PinMask(pub u16);

impl PinMask {
    /// The mask holding pin `i` alone.
    pub fn pin(i: u32) -> (r: PinMask)
        requires
            i < 16,
        ensures
            r.0 == 1u16 << i,
    {
        PinMask(1u16 << i)
    }

    /// The mask of the pins whose bits are set in `bits`.
    pub fn from_bits_truncate(bits: u16) -> (r: PinMask)
        ensures
            r.0 == bits,
    {
        PinMask(bits)
    }

    /// The mask's bits, one per pin.
    pub fn bits(self) -> (r: u16)
        ensures
            r == self.0,
    {
        self.0
    }

    /// Whether the mask holds no pin.
    pub fn is_empty(self) -> (r: bool)
        ensures
            r == (self.0 == 0),
    {
        self.0 == 0
    }

    /// The pins of either mask.
    pub fn union(self, other: PinMask) -> (r: PinMask)
        ensures
            r.0 == self.0 | other.0,
    {
        PinMask(self.0 | other.0)
    }
}

/// The word with bit `2 * i` set for each set bit `i` of `pins` below `n`.
pub open spec fn spread2(pins: u32, n: u32) -> u32
    decreases n,
{
    if n == 0 {
        0
    } else {
        spread2(pins, (n - 1) as u32) | ((pins & (1u32 << (n - 1) as u32)) << (n - 1) as u32)
    }
}

/// The word with bit `4 * i` set for each set bit `i` of `pins` below `n`.
pub open spec fn spread4(pins: u32, n: u32) -> u32
    decreases n,
{
    if n == 0 {
        0
    } else {
        spread4(pins, (n - 1) as u32) | ((pins & (1u32 << (n - 1) as u32)) << (3 * (n - 1)) as u32)
    }
}

/// Whether `after` is `before` with bit `i` set to `val` for every pin `i`
/// of `pins`.
pub open spec fn pin_bits_set(before: u32, after: u32, pins: u16, val: u32) -> bool {
    forall|i: u32|
        i < 32 ==> #[trigger] bit(after, i) == if i < 16 && bit(pins as u32, i) {
            val == 1
        } else {
            bit(before, i)
        }
}

/// Whether `after` is `before` with the two-bit field of every pin of `pins`
/// set to `val`.
pub open spec fn pin_fields2_set(before: u32, after: u32, pins: u16, val: u32) -> bool {
    forall|i: u32|
        i < 16 ==> #[trigger] field(after, (2 * i + 1) as u32, (2 * i) as u32) == if bit(
            pins as u32,
            i,
        ) {
            val
        } else {
            field(before, (2 * i + 1) as u32, (2 * i) as u32)
        }
}

/// Whether `after` is `before` with the four-bit field `i` set to `val` for
/// every set bit `i` of `pins`, which names eight fields.
pub open spec fn pin_fields4_set(before: u32, after: u32, pins: u32, val: u32) -> bool {
    forall|i: u32|
        i < 8 ==> #[trigger] field(after, (4 * i + 3) as u32, (4 * i) as u32) == if bit(pins, i) {
            val
        } else {
            field(before, (4 * i + 3) as u32, (4 * i) as u32)
        }
}

proof fn lemma_one_bit_update(old: u32, pins: u32, val: u32, i: u32)
    by (bit_vector)
    requires
        pins <= 0xffff,
        val <= 1,
        i < 32,
    ensures
        bit((old & !pins) | ((pins * val) as u32), i) == if i < 16 && bit(pins, i) {
            val == 1
        } else {
            bit(old, i)
        },
        pins * val <= 0xffff,
{
}

proof fn lemma_two_bit_update(old: u32, pins: u32, val: u32, i: u32)
    by (bit_vector)
    requires
        pins <= 0xffff,
        val <= 3,
        i < 16,
    ensures
        3 * spread2(pins, 16) <= 0xffff_ffff,
        val * spread2(pins, 16) <= 0xffff_ffff,
        field(
            (old & !((3 * spread2(pins, 16)) as u32)) | ((val * spread2(pins, 16)) as u32),
            (2 * i + 1) as u32,
            (2 * i) as u32,
        ) == if bit(pins, i) {
            val
        } else {
            field(old, (2 * i + 1) as u32, (2 * i) as u32)
        },
{
}

proof fn lemma_four_bit_update(old: u32, pins: u32, val: u32, i: u32)
    by (bit_vector)
    requires
        pins <= 0xff,
        val <= 15,
        i < 8,
    ensures
        15 * spread4(pins, 8) <= 0xffff_ffff,
        val * spread4(pins, 8) <= 0xffff_ffff,
        (15 * spread4(pins, 8) == 0) == (pins == 0),
        field(
            (old & !((15 * spread4(pins, 8)) as u32)) | ((val * spread4(pins, 8)) as u32),
            (4 * i + 3) as u32,
            (4 * i) as u32,
        ) == if bit(pins, i) {
            val
        } else {
            field(old, (4 * i + 3) as u32, (4 * i) as u32)
        },
        pins == 0 ==> !bit(pins, i),
{
}

proof fn lemma_pin_halves(pins: u16, i: u32)
    by (bit_vector)
    requires
        i < 8,
    ensures
        (pins as u32 & 0xff) <= 0xff,
        ((pins as u32 >> 8) & 0xff) <= 0xff,
        bit(pins as u32 & 0xff, i) == bit(pins as u32, i),
        bit((pins as u32 >> 8) & 0xff, i) == bit(pins as u32, (i + 8) as u32),
{
}

proof fn lemma_unchanged_by_empty_update(old: u32)
    by (bit_vector)
    ensures
        (old & !0u32) | 0u32 == old,
{
}

/// A GPIO port's register block.
pub struct GpioPort {
    pub moder: Reg<u32>,
    pub otyper: Reg<u32>,
    pub ospeedr: Reg<u32>,
    pub pupdr: Reg<u32>,
    pub idr: Reg<u32>,
    pub odr: Reg<u32>,
    pub bsrr: Reg<u32>,
    pub lckr: Reg<u32>,
    pub afrl: Reg<u32>,
    pub afrh: Reg<u32>,
}

impl GpioPort {
    /// Changes the mode of the pins selected by `pins` to `mode`.
    pub fn set_mode(&mut self, pins: PinMask, mode: Mode)
        ensures
            pin_fields2_set(old(self).moder.value(), final(self).moder.value(), pins.0, mode.bits_of()),
            *final(self) == (GpioPort { moder: final(self).moder, ..*old(self) }),
    {
        Self::update_2(pins, mode.into_bits(), &mut self.moder)
    }

    /// Changes the output type of the pins selected by `pins` to `ot`.
    pub fn set_output_type(&mut self, pins: PinMask, ot: OutputType)
        ensures
            pin_bits_set(old(self).otyper.value(), final(self).otyper.value(), pins.0, ot.bits_of()),
            *final(self) == (GpioPort { otyper: final(self).otyper, ..*old(self) }),
    {
        Self::update_1(pins, ot.into_bits(), &mut self.otyper)
    }

    /// Changes the output speed of the pins selected by `pins` to `speed`.
    pub fn set_speed(&mut self, pins: PinMask, speed: Speed)
        ensures
            pin_fields2_set(
                old(self).ospeedr.value(),
                final(self).ospeedr.value(),
                pins.0,
                speed.bits_of(),
            ),
            *final(self) == (GpioPort { ospeedr: final(self).ospeedr, ..*old(self) }),
    {
        Self::update_2(pins, speed.into_bits(), &mut self.ospeedr)
    }

    /// Changes the pull up/down configuration of the pins selected by `pins`
    /// to `pull`.
    pub fn set_pull(&mut self, pins: PinMask, pull: Pull)
        ensures
            pin_fields2_set(old(self).pupdr.value(), final(self).pupdr.value(), pins.0, pull.bits_of()),
            *final(self) == (GpioPort { pupdr: final(self).pupdr, ..*old(self) }),
    {
        Self::update_2(pins, pull.into_bits(), &mut self.pupdr)
    }

    /// Selects an alternate function for the pins selected by `pins`.  For
    /// this to take effect, the pin's `Mode` must be set to `Alternate` using
    /// `set_mode`.  The four-bit selections of pins 0-7 are in `afrl`, those of
    /// pins 8-15 in `afrh`.
    pub fn set_alternate_function(&mut self, pins: PinMask, af: Function)
        ensures
            pin_fields4_set(
                old(self).afrl.value(),
                final(self).afrl.value(),
                pins.0 as u32 & 0xff,
                af.bits_of(),
            ),
            pin_fields4_set(
                old(self).afrh.value(),
                final(self).afrh.value(),
                (pins.0 as u32 >> 8) & 0xff,
                af.bits_of(),
            ),
            *final(self) == (GpioPort {
                afrl: final(self).afrl,
                afrh: final(self).afrh,
                ..*old(self)
            }),
    {
        let (low, high) = Self::alternate_function_updates(pins, af);
        Self::update_4(low, &mut self.afrl);
        Self::update_4(high, &mut self.afrh);
    }

    /// Reads the state of pins selected by `pins`.  The returned `PinMask`
    /// contains those pins that were observed as logic high.
    pub fn get(&self, pins: PinMask) -> (r: PinMask)
        ensures
            r.0 == (self.idr.value() as u16) & pins.0,
    {
        PinMask::from_bits_truncate((self.idr.get() as u16) & pins.bits())
    }

    /// Sets pins selected by `pins` to logic high.
    pub fn set(&mut self, pins: PinMask)
        ensures
            final(self).bsrr.value() == pins.0 as u32,
            *final(self) == (GpioPort { bsrr: final(self).bsrr, ..*old(self) }),
    {
        self.bsrr.set(pins.bits() as u32)
    }

    /// Clears pins selected by `pins` to logic low.
    pub fn clear(&mut self, pins: PinMask)
        ensures
            final(self).bsrr.value() == (pins.0 as u32) << 16,
            *final(self) == (GpioPort { bsrr: final(self).bsrr, ..*old(self) }),
    {
        self.bsrr.set((pins.bits() as u32) << 16)
    }

    /// The clear mask and the setting that store `val` in the 1-bit field of
    /// every pin of `pins` by an atomic clear-and-set, leaving the other
    /// pins' fields as they are.
    pub fn one_bit_fields_update(pins: PinMask, val: u32) -> (r: (u32, u32))
        requires
            val <= 1,
        ensures
            forall|old: u32| pin_bits_set(old, (old & !r.0) | r.1, pins.0, val),
    {
        let mask = pins.bits() as u32;
        proof {
            lemma_one_bit_update(0, mask, val, 0);
        }
        let setting = mask * val;
        proof {
            assert forall|old: u32| pin_bits_set(old, (old & !mask) | setting, pins.0, val) by {
                assert forall|i: u32| i < 32 implies #[trigger] bit((old & !mask) | setting, i)
                    == if i < 16 && bit(pins.0 as u32, i) {
                    val == 1
                } else {
                    bit(old, i)
                } by {
                    lemma_one_bit_update(old, mask, val, i);
                }
            }
        }
        (mask, setting)
    }

    /// The clear mask and the setting that store `val` in the 2-bit field of
    /// every pin of `pins` by an atomic clear-and-set, leaving the other
    /// pins' fields as they are.
    ///
    /// They are built by placing `0b01` in each selected field and
    /// multiplying: each set bit of the multiplicand adds one copy of the
    /// value, and the copies never carry into each other.
    pub fn two_bit_fields_update(pins: PinMask, val: u32) -> (r: (u32, u32))
        requires
            val <= 3,
        ensures
            forall|old: u32| pin_fields2_set(old, (old & !r.0) | r.1, pins.0, val),
    {
        let bits = pins.bits() as u32;
        let mut places: u32 = 0;
        let mut i: u32 = 0;
        while i < 16
            invariant
                i <= 16,
                bits <= 0xffff,
                places == spread2(bits, i),
            decreases 16 - i,
        {
            places = places | ((bits & (1u32 << i)) << i);
            i = i + 1;
        }
        proof {
            lemma_two_bit_update(0, bits, val, 0);
        }
        let mask = 3 * places;
        let setting = val * places;
        proof {
            assert forall|old: u32| pin_fields2_set(old, (old & !mask) | setting, pins.0, val) by {
                assert forall|i: u32| i < 16 implies #[trigger] field(
                    (old & !mask) | setting,
                    (2 * i + 1) as u32,
                    (2 * i) as u32,
                ) == if bit(bits, i) {
                    val
                } else {
                    field(old, (2 * i + 1) as u32, (2 * i) as u32)
                } by {
                    lemma_two_bit_update(old, bits, val, i);
                }
            }
        }
        (mask, setting)
    }

    /// The clear mask and the setting that store `val` in the 4-bit field `i`
    /// of a word of eight such fields, for every set bit `i` of `bits`, by an
    /// atomic clear-and-set.  With no bit set, both are zero.
    pub fn four_bit_fields_update(bits: u32, val: u32) -> (r: (u32, u32))
        requires
            bits <= 0xff,
            val <= 15,
        ensures
            forall|old: u32| pin_fields4_set(old, (old & !r.0) | r.1, bits, val),
            (r.0 == 0) == (bits == 0),
            r.0 == 0 ==> r.1 == 0,
    {
        let mut places: u32 = 0;
        let mut i: u32 = 0;
        while i < 8
            invariant
                i <= 8,
                bits <= 0xff,
                places == spread4(bits, i),
            decreases 8 - i,
        {
            places = places | ((bits & (1u32 << i)) << (3 * i));
            i = i + 1;
        }
        proof {
            lemma_four_bit_update(0, bits, val, 0);
        }
        let mask = 15 * places;
        let setting = val * places;
        proof {
            if mask == 0 {
                assert(places == 0);
                assert(setting == 0) by (nonlinear_arith)
                    requires
                        setting == val * places,
                        places == 0,
                ;
            }
            assert forall|old: u32| pin_fields4_set(old, (old & !mask) | setting, bits, val) by {
                assert forall|i: u32| i < 8 implies #[trigger] field(
                    (old & !mask) | setting,
                    (4 * i + 3) as u32,
                    (4 * i) as u32,
                ) == if bit(bits, i) {
                    val
                } else {
                    field(old, (4 * i + 3) as u32, (4 * i) as u32)
                } by {
                    lemma_four_bit_update(old, bits, val, i);
                }
            }
        }
        (mask, setting)
    }

    /// The clear masks and settings that select alternate function `af` for
    /// the pins of `pins`: the first pair for `afrl` (pins 0-7), the second
    /// for `afrh` (pins 8-15).
    pub fn alternate_function_updates(pins: PinMask, af: Function) -> (r: ((u32, u32), (u32, u32)))
        ensures
            forall|old: u32|
                pin_fields4_set(
                    old,
                    (old & !r.0.0) | r.0.1,
                    pins.0 as u32 & 0xff,
                    af.bits_of(),
                ),
            forall|old: u32|
                pin_fields4_set(
                    old,
                    (old & !r.1.0) | r.1.1,
                    (pins.0 as u32 >> 8) & 0xff,
                    af.bits_of(),
                ),
            (r.0.0 == 0) == (pins.0 as u32 & 0xff == 0),
            (r.1.0 == 0) == ((pins.0 as u32 >> 8) & 0xff == 0),
            r.0.0 == 0 ==> r.0.1 == 0,
            r.1.0 == 0 ==> r.1.1 == 0,
    {
        let af = af.into_bits();
        let bits = pins.bits() as u32;
        proof {
            lemma_pin_halves(bits as u16, 0);
        }
        (Self::four_bit_fields_update(bits & 0xff, af), Self::four_bit_fields_update((bits >> 8) & 0xff, af))
    }

    /// Stores `val` in the 1-bit field of every pin of `pins` in `reg`.
    fn update_1(pins: PinMask, val: u32, reg: &mut Reg<u32>)
        requires
            val <= 1,
        ensures
            pin_bits_set(old(reg).value(), final(reg).value(), pins.0, val),
    {
        let (mask, setting) = Self::one_bit_fields_update(pins, val);
        reg.atomic_nand_and_or(mask, setting);
    }

    /// Stores `val` in the 2-bit field of every pin of `pins` in `reg`.
    fn update_2(pins: PinMask, val: u32, reg: &mut Reg<u32>)
        requires
            val <= 3,
        ensures
            pin_fields2_set(old(reg).value(), final(reg).value(), pins.0, val),
    {
        let (mask, setting) = Self::two_bit_fields_update(pins, val);
        reg.atomic_nand_and_or(mask, setting);
    }

    /// Stores `val` in the 4-bit fields of `reg` selected by `update`, a
    /// pair from `alternate_function_updates`; a register with no field
    /// selected is left alone.
    fn update_4(update: (u32, u32), reg: &mut Reg<u32>)
        requires
            update.0 == 0 ==> update.1 == 0,
        ensures
            final(reg).value() == (old(reg).value() & !update.0) | update.1,
    {
        let (mask, setting) = update;
        if mask != 0 {
            reg.atomic_nand_and_or(mask, setting);
        } else {
            proof {
                lemma_unchanged_by_empty_update(old(reg).value());
            }
        }
    }
}

} // verus!
