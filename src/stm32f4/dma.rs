//! Direct Memory Access (DMA) register layer.
use vstd::prelude::*;

verus! {

use crate::arm_m::reg::Reg;
use crate::bits::{
    bit,
    decoded,
    field,
    get_field,
    get_total_field,
    lemma_extract_after_replace,
    lemma_small_masks,
    replaced,
    with_field,
    BadBits,
    BitsResult,
    BitsWrapper,
    FromBits,
    FromBitsTotal,
    IntoBits,
};

/// Register block of a DMA controller.
pub struct Dma {
    /// Interrupt status registers, LISR and HISR, in that order.
    pub isr: [Reg<u32>; 2],
    /// Interrupt flag clear registers, LIFCR and HIFCR, in that order.
    pub ifcr: [Reg<u32>; 2],
    /// Control registers for the eight hardware DMA streams.
    pub stream: [Stream; 8],
}

/// Register block of a single DMA stream.
pub struct Stream {
    /// Configuration register.
    pub cr: Reg<u32>,
    /// Number of data to transfer register.
    pub ndtr: Reg<u32>,
    /// Peripheral address register: the address of the side of the transfer
    /// that is governed by DRQs.
    pub par: Reg<u32>,
    /// Memory address registers M0AR and M1AR; the second comes into play in
    /// double-buffered mode.
    pub mar: [Reg<u32>; 2],
    /// FIFO control register.
    pub fcr: Reg<u32>,
}

/// Address of the DMA1 register block.
pub const DMA1_ADDRESS: usize = 0x4002_6000;

/// Address of the DMA2 register block.
pub const DMA2_ADDRESS: usize = 0x4002_6400;

/// Interrupt Register type, used by both the Interrupt Status Registers and
/// the Interrupt Flag Clear Registers.
///
/// Interrupt registers contain an irregularly packed array of four six-bit
/// fields, describing four streams.  `isr[0]` and `ifcr[0]` describe streams
/// 0-3, while `isr[1]` and `ifcr[1]` describe streams 4-7.  Within a single
/// register the four streams are *relative streams* 0-3.
#[derive(Clone, Copy, Debug, PartialEq, Eq, Structural)]
pub struct Ir(pub u32);

impl BitsWrapper for Ir {
    open spec fn raw(self) -> u32 {
        self.0
    }

    fn from_raw(v: u32) -> (r: Self) {
        Ir(v)
    }
}

/// The set of interrupt flags that can appear for a given DMA stream.  These
/// indicate stream status (in the Interrupt Status Registers) and change it
/// (in the Interrupt Flag Clear Registers).
#[derive(Clone, Copy, Debug, PartialEq, Eq, Structural)]
pub struct InterruptFlags(pub u32);

impl InterruptFlags {
    /// Whether only flags' bits are set: bits 0 and 2 to 5.
    pub open spec fn valid(self) -> bool {
        self.0 & !0x3du32 == 0
    }

    pub const FIFO_ERROR: u32 = 1;
    pub const DIRECT_MODE_ERROR: u32 = 4;
    pub const TRANSFER_ERROR: u32 = 8;
    pub const HALF_TRANSFER: u32 = 16;
    pub const TRANSFER_COMPLETE: u32 = 32;

    /// The flags' bits.
    pub fn bits(self) -> (r: u32)
        ensures
            r == self.0,
    {
        self.0
    }

    /// Whether no flag is set.
    pub fn is_empty(self) -> (r: bool)
        ensures
            r == (self.0 == 0),
    {
        self.0 == 0
    }
}

impl IntoBits for InterruptFlags {
    open spec fn bits_of(self) -> u32 {
        self.0
    }

    fn into_bits(self) -> u32 {
        self.0
    }
}

/// Any combination of the five flags; bit 1 names no flag.
impl FromBits for InterruptFlags {
    open spec fn valid_bits(bits: u32) -> bool {
        bits & !0x3du32 == 0
    }

    fn from_bits(bits: u32) -> (r: BitsResult<Self>) {
        if bits & !0x3du32 == 0 {
            Ok(InterruptFlags(bits))
        } else {
            Err(BadBits(bits))
        }
    }
}

/// Names of relative streams within an interrupt register (`Ir`).
#[derive(Clone, Copy, Debug, PartialEq, Eq, Structural)]
pub enum RelativeStreamIndex {
    RS0,
    RS1,
    RS2,
    RS3,
}

impl IntoBits for RelativeStreamIndex {
    open spec fn bits_of(self) -> u32 {
        match self {
            RelativeStreamIndex::RS0 => 0,
            RelativeStreamIndex::RS1 => 1,
            RelativeStreamIndex::RS2 => 2,
            RelativeStreamIndex::RS3 => 3,
        }
    }

    fn into_bits(self) -> u32 {
        match self {
            RelativeStreamIndex::RS0 => 0,
            RelativeStreamIndex::RS1 => 1,
            RelativeStreamIndex::RS2 => 2,
            RelativeStreamIndex::RS3 => 3,
        }
    }
}

impl FromBits for RelativeStreamIndex {
    open spec fn valid_bits(bits: u32) -> bool {
        bits < 4
    }

    fn from_bits(bits: u32) -> (r: BitsResult<Self>) {
        match bits {
            0 => Ok(RelativeStreamIndex::RS0),
            1 => Ok(RelativeStreamIndex::RS1),
            2 => Ok(RelativeStreamIndex::RS2),
            3 => Ok(RelativeStreamIndex::RS3),
            _ => Err(BadBits(bits)),
        }
    }
}

impl RelativeStreamIndex {
    /// The lowest bit of the relative stream's field in an interrupt register.
    pub open spec fn lo(self) -> u32 {
        match self {
            RelativeStreamIndex::RS0 => 0,
            RelativeStreamIndex::RS1 => 6,
            RelativeStreamIndex::RS2 => 16,
            RelativeStreamIndex::RS3 => 22,
        }
    }
}

impl Ir {
    /// Relative Stream 3, the fourth stream in this register.
    pub fn get_rs3(self) -> (r: BitsResult<InterruptFlags>)
        ensures
            decoded(r, field(self.0, 27, 22)),
    {
        get_field(self.0, 27, 22)
    }

    /// Relative Stream 3, the fourth stream in this register.
    pub fn with_rs3(self, v: InterruptFlags) -> (r: Self)
        ensures
            r.0 == replaced(self.0, 27, 22, v.bits_of()),
    {
        Ir(with_field(self.0, 27, 22, v))
    }

    /// Relative Stream 2, the third stream in this register.
    pub fn get_rs2(self) -> (r: BitsResult<InterruptFlags>)
        ensures
            decoded(r, field(self.0, 21, 16)),
    {
        get_field(self.0, 21, 16)
    }

    /// Relative Stream 2, the third stream in this register.
    pub fn with_rs2(self, v: InterruptFlags) -> (r: Self)
        ensures
            r.0 == replaced(self.0, 21, 16, v.bits_of()),
    {
        Ir(with_field(self.0, 21, 16, v))
    }

    /// Relative Stream 1, the second stream in this register.
    pub fn get_rs1(self) -> (r: BitsResult<InterruptFlags>)
        ensures
            decoded(r, field(self.0, 11, 6)),
    {
        get_field(self.0, 11, 6)
    }

    /// Relative Stream 1, the second stream in this register.
    pub fn with_rs1(self, v: InterruptFlags) -> (r: Self)
        ensures
            r.0 == replaced(self.0, 11, 6, v.bits_of()),
    {
        Ir(with_field(self.0, 11, 6, v))
    }

    /// Relative Stream 0, the first stream in this register.
    pub fn get_rs0(self) -> (r: BitsResult<InterruptFlags>)
        ensures
            decoded(r, field(self.0, 5, 0)),
    {
        get_field(self.0, 5, 0)
    }

    /// Relative Stream 0, the first stream in this register.
    pub fn with_rs0(self, v: InterruptFlags) -> (r: Self)
        ensures
            r.0 == replaced(self.0, 5, 0, v.bits_of()),
    {
        Ir(with_field(self.0, 5, 0, v))
    }

    /// Gets the `InterruptFlags` for a relative stream by (runtime) index.
    pub fn get_rs(self, i: RelativeStreamIndex) -> (r: BitsResult<InterruptFlags>)
        ensures
            decoded(r, field(self.0, (i.lo() + 5) as u32, i.lo())),
            r is Ok ==> r->Ok_0.valid(),
    {
        match i {
            RelativeStreamIndex::RS0 => self.get_rs0(),
            RelativeStreamIndex::RS1 => self.get_rs1(),
            RelativeStreamIndex::RS2 => self.get_rs2(),
            RelativeStreamIndex::RS3 => self.get_rs3(),
        }
    }

    /// Sets the `InterruptFlags` for a relative stream by (runtime) index.
    pub fn with_rs(self, i: RelativeStreamIndex, v: InterruptFlags) -> (r: Self)
        ensures
            r.0 == replaced(self.0, (i.lo() + 5) as u32, i.lo(), v.0),
    {
        match i {
            RelativeStreamIndex::RS0 => self.with_rs0(v),
            RelativeStreamIndex::RS1 => self.with_rs1(v),
            RelativeStreamIndex::RS2 => self.with_rs2(v),
            RelativeStreamIndex::RS3 => self.with_rs3(v),
        }
    }
}

/// Configuration register type for a DMA stream.
#[derive(Clone, Copy, Debug, PartialEq, Eq, Structural)]
pub struct Cr(pub u32);

impl BitsWrapper for Cr {
    open spec fn raw(self) -> u32 {
        self.0
    }

    fn from_raw(v: u32) -> (r: Self) {
        Cr(v)
    }
}

impl Cr {
    /// Selects the DRQ channel used for the "peripheral" side of the stream.
    pub fn get_chsel(self) -> (r: Channel)
        ensures
            r.bits_of() == field(self.0, 27, 25),
    {
        get_total_field(self.0, 27, 25)
    }

    /// Selects the DRQ channel used for the "peripheral" side of the stream.
    pub fn with_chsel(self, v: Channel) -> (r: Self)
        ensures
            r.0 == replaced(self.0, 27, 25, v.bits_of()),
    {
        Cr(with_field(self.0, 27, 25, v))
    }

    /// Burst transfer configuration, memory side.
    pub fn get_mburst(self) -> (r: Burst)
        ensures
            r.bits_of() == field(self.0, 24, 23),
    {
        get_total_field(self.0, 24, 23)
    }

    /// Burst transfer configuration, memory side.
    pub fn with_mburst(self, v: Burst) -> (r: Self)
        ensures
            r.0 == replaced(self.0, 24, 23, v.bits_of()),
    {
        Cr(with_field(self.0, 24, 23, v))
    }

    /// Burst transfer configuration, peripheral side.
    pub fn get_pburst(self) -> (r: Burst)
        ensures
            r.bits_of() == field(self.0, 22, 21),
    {
        get_total_field(self.0, 22, 21)
    }

    /// Burst transfer configuration, peripheral side.
    pub fn with_pburst(self, v: Burst) -> (r: Self)
        ensures
            r.0 == replaced(self.0, 22, 21, v.bits_of()),
    {
        Cr(with_field(self.0, 22, 21, v))
    }

    /// In double-buffer mode, selects the current memory target.
    pub fn get_ct(self) -> (r: Target)
        ensures
            r.bits_of() == field(self.0, 19, 19),
    {
        get_total_field(self.0, 19, 19)
    }

    /// In double-buffer mode, selects the current memory target.
    pub fn with_ct(self, v: Target) -> (r: Self)
        ensures
            r.0 == replaced(self.0, 19, 19, v.bits_of()),
    {
        Cr(with_field(self.0, 19, 19, v))
    }

    /// Enables double-buffer mode.
    pub fn get_dbm(self) -> (r: bool)
        ensures
            r == bit(self.0, 18),
    {
        proof {
            lemma_small_masks();
        }
        get_total_field(self.0, 18, 18)
    }

    /// Enables double-buffer mode.
    pub fn with_dbm(self, v: bool) -> (r: Self)
        ensures
            r.0 == replaced(self.0, 18, 18, v.bits_of()),
    {
        Cr(with_field(self.0, 18, 18, v))
    }

    /// The stream's priority level, relative to the other streams on the same
    /// controller.
    pub fn get_pl(self) -> (r: Priority)
        ensures
            r.bits_of() == field(self.0, 17, 16),
    {
        get_total_field(self.0, 17, 16)
    }

    /// The stream's priority level, relative to the other streams on the same
    /// controller.
    pub fn with_pl(self, v: Priority) -> (r: Self)
        ensures
            r.0 == replaced(self.0, 17, 16, v.bits_of()),
    {
        Cr(with_field(self.0, 17, 16, v))
    }

    /// Increment size for the peripheral side.
    pub fn get_pincos(self) -> (r: Increment)
        ensures
            r.bits_of() == field(self.0, 15, 15),
    {
        get_total_field(self.0, 15, 15)
    }

    /// Increment size for the peripheral side.
    pub fn with_pincos(self, v: Increment) -> (r: Self)
        ensures
            r.0 == replaced(self.0, 15, 15, v.bits_of()),
    {
        Cr(with_field(self.0, 15, 15, v))
    }

    /// Size of accesses to use on the memory side.
    pub fn get_msize(self) -> (r: BitsResult<TransferSize>)
        ensures
            decoded(r, field(self.0, 14, 13)),
    {
        get_field(self.0, 14, 13)
    }

    /// Size of accesses to use on the memory side.
    pub fn with_msize(self, v: TransferSize) -> (r: Self)
        ensures
            r.0 == replaced(self.0, 14, 13, v.bits_of()),
    {
        Cr(with_field(self.0, 14, 13, v))
    }

    /// Size of accesses to use on the peripheral side.
    pub fn get_psize(self) -> (r: BitsResult<TransferSize>)
        ensures
            decoded(r, field(self.0, 12, 11)),
    {
        get_field(self.0, 12, 11)
    }

    /// Size of accesses to use on the peripheral side.
    pub fn with_psize(self, v: TransferSize) -> (r: Self)
        ensures
            r.0 == replaced(self.0, 12, 11, v.bits_of()),
    {
        Cr(with_field(self.0, 12, 11, v))
    }

    /// Selects whether the memory address is incremented after each transfer.
    pub fn get_minc(self) -> (r: bool)
        ensures
            r == bit(self.0, 10),
    {
        proof {
            lemma_small_masks();
        }
        get_total_field(self.0, 10, 10)
    }

    /// Selects whether the memory address is incremented after each transfer.
    pub fn with_minc(self, v: bool) -> (r: Self)
        ensures
            r.0 == replaced(self.0, 10, 10, v.bits_of()),
    {
        Cr(with_field(self.0, 10, 10, v))
    }

    /// Selects whether the peripheral address is incremented after each
    /// transfer.
    pub fn get_pinc(self) -> (r: bool)
        ensures
            r == bit(self.0, 9),
    {
        proof {
            lemma_small_masks();
        }
        get_total_field(self.0, 9, 9)
    }

    /// Selects whether the peripheral address is incremented after each
    /// transfer.
    pub fn with_pinc(self, v: bool) -> (r: Self)
        ensures
            r.0 == replaced(self.0, 9, 9, v.bits_of()),
    {
        Cr(with_field(self.0, 9, 9, v))
    }

    /// Selects circular mode.
    pub fn get_circ(self) -> (r: bool)
        ensures
            r == bit(self.0, 8),
    {
        proof {
            lemma_small_masks();
        }
        get_total_field(self.0, 8, 8)
    }

    /// Selects circular mode.
    pub fn with_circ(self, v: bool) -> (r: Self)
        ensures
            r.0 == replaced(self.0, 8, 8, v.bits_of()),
    {
        Cr(with_field(self.0, 8, 8, v))
    }

    /// Selects transfer direction.
    pub fn get_dir(self) -> (r: BitsResult<Direction>)
        ensures
            decoded(r, field(self.0, 7, 6)),
    {
        get_field(self.0, 7, 6)
    }

    /// Selects transfer direction.
    pub fn with_dir(self, v: Direction) -> (r: Self)
        ensures
            r.0 == replaced(self.0, 7, 6, v.bits_of()),
    {
        Cr(with_field(self.0, 7, 6, v))
    }

    /// Enables peripheral flow control, which is only useful with the SDIO DRQ.
    pub fn get_pfctrl(self) -> (r: bool)
        ensures
            r == bit(self.0, 5),
    {
        proof {
            lemma_small_masks();
        }
        get_total_field(self.0, 5, 5)
    }

    /// Enables peripheral flow control, which is only useful with the SDIO DRQ.
    pub fn with_pfctrl(self, v: bool) -> (r: Self)
        ensures
            r.0 == replaced(self.0, 5, 5, v.bits_of()),
    {
        Cr(with_field(self.0, 5, 5, v))
    }

    /// Enables the Transfer Complete interrupt.
    pub fn get_tcie(self) -> (r: bool)
        ensures
            r == bit(self.0, 4),
    {
        proof {
            lemma_small_masks();
        }
        get_total_field(self.0, 4, 4)
    }

    /// Enables the Transfer Complete interrupt.
    pub fn with_tcie(self, v: bool) -> (r: Self)
        ensures
            r.0 == replaced(self.0, 4, 4, v.bits_of()),
    {
        Cr(with_field(self.0, 4, 4, v))
    }

    /// Enables the Half Transfer Complete interrupt.
    pub fn get_htie(self) -> (r: bool)
        ensures
            r == bit(self.0, 3),
    {
        proof {
            lemma_small_masks();
        }
        get_total_field(self.0, 3, 3)
    }

    /// Enables the Half Transfer Complete interrupt.
    pub fn with_htie(self, v: bool) -> (r: Self)
        ensures
            r.0 == replaced(self.0, 3, 3, v.bits_of()),
    {
        Cr(with_field(self.0, 3, 3, v))
    }

    /// Enables the Transfer Error interrupt.
    pub fn get_teie(self) -> (r: bool)
        ensures
            r == bit(self.0, 2),
    {
        proof {
            lemma_small_masks();
        }
        get_total_field(self.0, 2, 2)
    }

    /// Enables the Transfer Error interrupt.
    pub fn with_teie(self, v: bool) -> (r: Self)
        ensures
            r.0 == replaced(self.0, 2, 2, v.bits_of()),
    {
        Cr(with_field(self.0, 2, 2, v))
    }

    /// Enables the Direct Mode Error interrupt.
    pub fn get_dmeie(self) -> (r: bool)
        ensures
            r == bit(self.0, 1),
    {
        proof {
            lemma_small_masks();
        }
        get_total_field(self.0, 1, 1)
    }

    /// Enables the Direct Mode Error interrupt.
    pub fn with_dmeie(self, v: bool) -> (r: Self)
        ensures
            r.0 == replaced(self.0, 1, 1, v.bits_of()),
    {
        Cr(with_field(self.0, 1, 1, v))
    }

    /// Enables the DMA stream.
    pub fn get_en(self) -> (r: bool)
        ensures
            r == bit(self.0, 0),
    {
        proof {
            lemma_small_masks();
        }
        get_total_field(self.0, 0, 0)
    }

    /// Enables the DMA stream.
    pub fn with_en(self, v: bool) -> (r: Self)
        ensures
            r.0 == replaced(self.0, 0, 0, v.bits_of()),
    {
        Cr(with_field(self.0, 0, 0, v))
    }
}

/// Names the DRQ channels available on each stream.
#[derive(Clone, Copy, Debug, PartialEq, Eq, Structural)]
pub enum Channel {
    Ch0,
    Ch1,
    Ch2,
    Ch3,
    Ch4,
    Ch5,
    Ch6,
    Ch7,
}

impl IntoBits for Channel {
    open spec fn bits_of(self) -> u32 {
        match self {
            Channel::Ch0 => 0b000,
            Channel::Ch1 => 0b001,
            Channel::Ch2 => 0b010,
            Channel::Ch3 => 0b011,
            Channel::Ch4 => 0b100,
            Channel::Ch5 => 0b101,
            Channel::Ch6 => 0b110,
            Channel::Ch7 => 0b111,
        }
    }

    fn into_bits(self) -> u32 {
        match self {
            Channel::Ch0 => 0b000,
            Channel::Ch1 => 0b001,
            Channel::Ch2 => 0b010,
            Channel::Ch3 => 0b011,
            Channel::Ch4 => 0b100,
            Channel::Ch5 => 0b101,
            Channel::Ch6 => 0b110,
            Channel::Ch7 => 0b111,
        }
    }
}

impl FromBits for Channel {
    open spec fn valid_bits(bits: u32) -> bool {
        bits < 8
    }

    fn from_bits(bits: u32) -> (r: BitsResult<Self>) {
        match bits {
            0b000 => Ok(Channel::Ch0),
            0b001 => Ok(Channel::Ch1),
            0b010 => Ok(Channel::Ch2),
            0b011 => Ok(Channel::Ch3),
            0b100 => Ok(Channel::Ch4),
            0b101 => Ok(Channel::Ch5),
            0b110 => Ok(Channel::Ch6),
            0b111 => Ok(Channel::Ch7),
            _ => Err(BadBits(bits)),
        }
    }
}

impl FromBitsTotal for Channel {
    open spec fn total_width() -> u32 {
        3
    }

    fn from_bits_total(bits: u32) -> (r: Self) {
        proof {
            lemma_small_masks();
        }
        match bits {
            0b000 => Channel::Ch0,
            0b001 => Channel::Ch1,
            0b010 => Channel::Ch2,
            0b011 => Channel::Ch3,
            0b100 => Channel::Ch4,
            0b101 => Channel::Ch5,
            0b110 => Channel::Ch6,
            _ => Channel::Ch7,
        }
    }
}

/// The possible sizes of burst transfer.
#[derive(Clone, Copy, Debug, PartialEq, Eq, Structural)]
pub enum Burst {
    Single,
    Incr4,
    Incr8,
    Incr16,
}

impl IntoBits for Burst {
    open spec fn bits_of(self) -> u32 {
        match self {
            Burst::Single => 0b00,
            Burst::Incr4 => 0b01,
            Burst::Incr8 => 0b10,
            Burst::Incr16 => 0b11,
        }
    }

    fn into_bits(self) -> u32 {
        match self {
            Burst::Single => 0b00,
            Burst::Incr4 => 0b01,
            Burst::Incr8 => 0b10,
            Burst::Incr16 => 0b11,
        }
    }
}

impl FromBits for Burst {
    open spec fn valid_bits(bits: u32) -> bool {
        bits < 4
    }

    fn from_bits(bits: u32) -> (r: BitsResult<Self>) {
        match bits {
            0b00 => Ok(Burst::Single),
            0b01 => Ok(Burst::Incr4),
            0b10 => Ok(Burst::Incr8),
            0b11 => Ok(Burst::Incr16),
            _ => Err(BadBits(bits)),
        }
    }
}

impl FromBitsTotal for Burst {
    open spec fn total_width() -> u32 {
        2
    }

    fn from_bits_total(bits: u32) -> (r: Self) {
        proof {
            lemma_small_masks();
        }
        match bits {
            0b00 => Burst::Single,
            0b01 => Burst::Incr4,
            0b10 => Burst::Incr8,
            _ => Burst::Incr16,
        }
    }
}

/// Memory-side target selection in double-buffer mode.
#[derive(Clone, Copy, Debug, PartialEq, Eq, Structural)]
pub enum Target {
    Memory0,
    Memory1,
}

impl IntoBits for Target {
    open spec fn bits_of(self) -> u32 {
        match self {
            Target::Memory0 => 0,
            Target::Memory1 => 1,
        }
    }

    fn into_bits(self) -> u32 {
        match self {
            Target::Memory0 => 0,
            Target::Memory1 => 1,
        }
    }
}

impl FromBits for Target {
    open spec fn valid_bits(bits: u32) -> bool {
        bits < 2
    }

    fn from_bits(bits: u32) -> (r: BitsResult<Self>) {
        match bits {
            0 => Ok(Target::Memory0),
            1 => Ok(Target::Memory1),
            _ => Err(BadBits(bits)),
        }
    }
}

impl FromBitsTotal for Target {
    open spec fn total_width() -> u32 {
        1
    }

    fn from_bits_total(bits: u32) -> (r: Self) {
        proof {
            lemma_small_masks();
        }
        match bits {
            0 => Target::Memory0,
            _ => Target::Memory1,
        }
    }
}

/// Stream priority for arbitration among streams within a single DMA
/// controller.
#[derive(Clone, Copy, Debug, PartialEq, Eq, Structural)]
pub enum Priority {
    Low,
    Medium,
    High,
    VeryHigh,
}

impl IntoBits for Priority {
    open spec fn bits_of(self) -> u32 {
        match self {
            Priority::Low => 0b00,
            Priority::Medium => 0b01,
            Priority::High => 0b10,
            Priority::VeryHigh => 0b11,
        }
    }

    fn into_bits(self) -> u32 {
        match self {
            Priority::Low => 0b00,
            Priority::Medium => 0b01,
            Priority::High => 0b10,
            Priority::VeryHigh => 0b11,
        }
    }
}

impl FromBits for Priority {
    open spec fn valid_bits(bits: u32) -> bool {
        bits < 4
    }

    fn from_bits(bits: u32) -> (r: BitsResult<Self>) {
        match bits {
            0b00 => Ok(Priority::Low),
            0b01 => Ok(Priority::Medium),
            0b10 => Ok(Priority::High),
            0b11 => Ok(Priority::VeryHigh),
            _ => Err(BadBits(bits)),
        }
    }
}

impl FromBitsTotal for Priority {
    open spec fn total_width() -> u32 {
        2
    }

    fn from_bits_total(bits: u32) -> (r: Self) {
        proof {
            lemma_small_masks();
        }
        match bits {
            0b00 => Priority::Low,
            0b01 => Priority::Medium,
            0b10 => Priority::High,
            _ => Priority::VeryHigh,
        }
    }
}

/// Increment size.
#[derive(Clone, Copy, Debug, PartialEq, Eq, Structural)]
pub enum Increment {
    TransferSize,
    Word,
}

impl IntoBits for Increment {
    open spec fn bits_of(self) -> u32 {
        match self {
            Increment::TransferSize => 0,
            Increment::Word => 1,
        }
    }

    fn into_bits(self) -> u32 {
        match self {
            Increment::TransferSize => 0,
            Increment::Word => 1,
        }
    }
}

impl FromBits for Increment {
    open spec fn valid_bits(bits: u32) -> bool {
        bits < 2
    }

    fn from_bits(bits: u32) -> (r: BitsResult<Self>) {
        match bits {
            0 => Ok(Increment::TransferSize),
            1 => Ok(Increment::Word),
            _ => Err(BadBits(bits)),
        }
    }
}

impl FromBitsTotal for Increment {
    open spec fn total_width() -> u32 {
        1
    }

    fn from_bits_total(bits: u32) -> (r: Self) {
        proof {
            lemma_small_masks();
        }
        match bits {
            0 => Increment::TransferSize,
            _ => Increment::Word,
        }
    }
}

/// Size of each DMA transfer.
#[derive(Clone, Copy, Debug, PartialEq, Eq, Structural)]
pub enum TransferSize {
    Byte,
    HalfWord,
    Word,
}

impl IntoBits for TransferSize {
    open spec fn bits_of(self) -> u32 {
        match self {
            TransferSize::Byte => 0b00,
            TransferSize::HalfWord => 0b01,
            TransferSize::Word => 0b10,
        }
    }

    fn into_bits(self) -> u32 {
        match self {
            TransferSize::Byte => 0b00,
            TransferSize::HalfWord => 0b01,
            TransferSize::Word => 0b10,
        }
    }
}

impl FromBits for TransferSize {
    open spec fn valid_bits(bits: u32) -> bool {
        bits < 3
    }

    fn from_bits(bits: u32) -> (r: BitsResult<Self>) {
        match bits {
            0b00 => Ok(TransferSize::Byte),
            0b01 => Ok(TransferSize::HalfWord),
            0b10 => Ok(TransferSize::Word),
            _ => Err(BadBits(bits)),
        }
    }
}

/// Transfer direction.  This controls whether peripheral DRQs trigger reads
/// (`PeripheralToMemory`), writes (`MemoryToPeripheral`), or neither
/// (`MemoryToMemory`, transfers are performed as fast as possible).
#[derive(Clone, Copy, Debug, PartialEq, Eq, Structural)]
pub enum Direction {
    PeripheralToMemory,
    MemoryToPeripheral,
    MemoryToMemory,
}

impl IntoBits for Direction {
    open spec fn bits_of(self) -> u32 {
        match self {
            Direction::PeripheralToMemory => 0b00,
            Direction::MemoryToPeripheral => 0b01,
            Direction::MemoryToMemory => 0b10,
        }
    }

    fn into_bits(self) -> u32 {
        match self {
            Direction::PeripheralToMemory => 0b00,
            Direction::MemoryToPeripheral => 0b01,
            Direction::MemoryToMemory => 0b10,
        }
    }
}

impl FromBits for Direction {
    open spec fn valid_bits(bits: u32) -> bool {
        bits < 3
    }

    fn from_bits(bits: u32) -> (r: BitsResult<Self>) {
        match bits {
            0b00 => Ok(Direction::PeripheralToMemory),
            0b01 => Ok(Direction::MemoryToPeripheral),
            0b10 => Ok(Direction::MemoryToMemory),
            _ => Err(BadBits(bits)),
        }
    }
}

/// Stream Number of Data to Transfer Register type: a 16-bit register that
/// is 32-bit aligned and must be accessed using word-size bus transactions.
#[derive(Clone, Copy, Debug, PartialEq, Eq, Structural)]
pub struct Ndtr(pub u32);

impl BitsWrapper for Ndtr {
    open spec fn raw(self) -> u32 {
        self.0
    }

    fn from_raw(v: u32) -> (r: Self) {
        Ndtr(v)
    }
}

impl Ndtr {
    /// Register contents.
    pub fn get_ndt(self) -> (r: u16)
        ensures
            r.bits_of() == field(self.0, 15, 0),
    {
        get_total_field(self.0, 15, 0)
    }

    /// Register contents.
    pub fn with_ndt(self, v: u16) -> (r: Self)
        ensures
            r.0 == replaced(self.0, 15, 0, v.bits_of()),
    {
        Ndtr(with_field(self.0, 15, 0, v))
    }
}

/// Stream FIFO Control Register type.
#[derive(Clone, Copy, Debug, PartialEq, Eq, Structural)]
pub struct Fcr(pub u32);

impl BitsWrapper for Fcr {
    open spec fn raw(self) -> u32 {
        self.0
    }

    fn from_raw(v: u32) -> (r: Self) {
        Fcr(v)
    }
}

impl Fcr {
    /// Enables the FIFO Error interrupt.
    pub fn get_feie(self) -> (r: bool)
        ensures
            r == bit(self.0, 7),
    {
        proof {
            lemma_small_masks();
        }
        get_total_field(self.0, 7, 7)
    }

    /// Enables the FIFO Error interrupt.
    pub fn with_feie(self, v: bool) -> (r: Self)
        ensures
            r.0 == replaced(self.0, 7, 7, v.bits_of()),
    {
        Fcr(with_field(self.0, 7, 7, v))
    }

    /// Indicates the current FIFO status (read-only).
    pub fn get_fs(self) -> (r: BitsResult<FifoLevel>)
        ensures
            decoded(r, field(self.0, 5, 3)),
    {
        get_field(self.0, 5, 3)
    }

    /// Indicates the current FIFO status (read-only).
    pub fn with_fs(self, v: FifoLevel) -> (r: Self)
        ensures
            r.0 == replaced(self.0, 5, 3, v.bits_of()),
    {
        Fcr(with_field(self.0, 5, 3, v))
    }

    /// Disables direct mode (i.e. enables the FIFO).
    pub fn get_dmdis(self) -> (r: bool)
        ensures
            r == bit(self.0, 2),
    {
        proof {
            lemma_small_masks();
        }
        get_total_field(self.0, 2, 2)
    }

    /// Disables direct mode (i.e. enables the FIFO).
    pub fn with_dmdis(self, v: bool) -> (r: Self)
        ensures
            r.0 == replaced(self.0, 2, 2, v.bits_of()),
    {
        Fcr(with_field(self.0, 2, 2, v))
    }

    /// Selects the FIFO fill threshold that triggers evacuation.
    pub fn get_fth(self) -> (r: FifoThreshold)
        ensures
            r.bits_of() == field(self.0, 1, 0),
    {
        get_total_field(self.0, 1, 0)
    }

    /// Selects the FIFO fill threshold that triggers evacuation.
    pub fn with_fth(self, v: FifoThreshold) -> (r: Self)
        ensures
            r.0 == replaced(self.0, 1, 0, v.bits_of()),
    {
        Fcr(with_field(self.0, 1, 0, v))
    }
}

/// FIFO status values.  The numbers indicate percentages.
#[derive(Clone, Copy, Debug, PartialEq, Eq, Structural)]
pub enum FifoLevel {
    Under25,
    Under50,
    Under75,
    Under100,
    Empty,
    Full,
}

impl IntoBits for FifoLevel {
    open spec fn bits_of(self) -> u32 {
        match self {
            FifoLevel::Under25 => 0b000,
            FifoLevel::Under50 => 0b001,
            FifoLevel::Under75 => 0b010,
            FifoLevel::Under100 => 0b011,
            FifoLevel::Empty => 0b100,
            FifoLevel::Full => 0b101,
        }
    }

    fn into_bits(self) -> u32 {
        match self {
            FifoLevel::Under25 => 0b000,
            FifoLevel::Under50 => 0b001,
            FifoLevel::Under75 => 0b010,
            FifoLevel::Under100 => 0b011,
            FifoLevel::Empty => 0b100,
            FifoLevel::Full => 0b101,
        }
    }
}

impl FromBits for FifoLevel {
    open spec fn valid_bits(bits: u32) -> bool {
        bits < 6
    }

    fn from_bits(bits: u32) -> (r: BitsResult<Self>) {
        match bits {
            0b000 => Ok(FifoLevel::Under25),
            0b001 => Ok(FifoLevel::Under50),
            0b010 => Ok(FifoLevel::Under75),
            0b011 => Ok(FifoLevel::Under100),
            0b100 => Ok(FifoLevel::Empty),
            0b101 => Ok(FifoLevel::Full),
            _ => Err(BadBits(bits)),
        }
    }
}

/// FIFO threshold values.  The numbers indicate percentages.
#[derive(Clone, Copy, Debug, PartialEq, Eq, Structural)]
pub enum FifoThreshold {
    At25,
    At50,
    At75,
    At100,
}

impl IntoBits for FifoThreshold {
    open spec fn bits_of(self) -> u32 {
        match self {
            FifoThreshold::At25 => 0b00,
            FifoThreshold::At50 => 0b01,
            FifoThreshold::At75 => 0b10,
            FifoThreshold::At100 => 0b11,
        }
    }

    fn into_bits(self) -> u32 {
        match self {
            FifoThreshold::At25 => 0b00,
            FifoThreshold::At50 => 0b01,
            FifoThreshold::At75 => 0b10,
            FifoThreshold::At100 => 0b11,
        }
    }
}

impl FromBits for FifoThreshold {
    open spec fn valid_bits(bits: u32) -> bool {
        bits < 4
    }

    fn from_bits(bits: u32) -> (r: BitsResult<Self>) {
        match bits {
            0b00 => Ok(FifoThreshold::At25),
            0b01 => Ok(FifoThreshold::At50),
            0b10 => Ok(FifoThreshold::At75),
            0b11 => Ok(FifoThreshold::At100),
            _ => Err(BadBits(bits)),
        }
    }
}

impl FromBitsTotal for FifoThreshold {
    open spec fn total_width() -> u32 {
        2
    }

    fn from_bits_total(bits: u32) -> (r: Self) {
        proof {
            lemma_small_masks();
        }
        match bits {
            0b00 => FifoThreshold::At25,
            0b01 => FifoThreshold::At50,
            0b10 => FifoThreshold::At75,
            _ => FifoThreshold::At100,
        }
    }
}

/// Names of DMA streams.
#[derive(Clone, Copy, Debug, PartialEq, Eq, Structural)]
pub enum StreamIndex {
    S0,
    S1,
    S2,
    S3,
    S4,
    S5,
    S6,
    S7,
}

impl IntoBits for StreamIndex {
    open spec fn bits_of(self) -> u32 {
        match self {
            StreamIndex::S0 => 0,
            StreamIndex::S1 => 1,
            StreamIndex::S2 => 2,
            StreamIndex::S3 => 3,
            StreamIndex::S4 => 4,
            StreamIndex::S5 => 5,
            StreamIndex::S6 => 6,
            StreamIndex::S7 => 7,
        }
    }

    fn into_bits(self) -> u32 {
        match self {
            StreamIndex::S0 => 0,
            StreamIndex::S1 => 1,
            StreamIndex::S2 => 2,
            StreamIndex::S3 => 3,
            StreamIndex::S4 => 4,
            StreamIndex::S5 => 5,
            StreamIndex::S6 => 6,
            StreamIndex::S7 => 7,
        }
    }
}

impl FromBits for StreamIndex {
    open spec fn valid_bits(bits: u32) -> bool {
        bits < 8
    }

    fn from_bits(bits: u32) -> (r: BitsResult<Self>) {
        match bits {
            0 => Ok(StreamIndex::S0),
            1 => Ok(StreamIndex::S1),
            2 => Ok(StreamIndex::S2),
            3 => Ok(StreamIndex::S3),
            4 => Ok(StreamIndex::S4),
            5 => Ok(StreamIndex::S5),
            6 => Ok(StreamIndex::S6),
            7 => Ok(StreamIndex::S7),
            _ => Err(BadBits(bits)),
        }
    }
}

impl StreamIndex {
    /// Converts a stream index into the corresponding index into the interrupt
    /// register arrays `isr` and `ifcr`.
    pub fn get_ir_index(self) -> (r: usize)
        ensures
            r == self.bits_of() / 4,
    {
        (self.into_bits() / 4) as usize
    }

    /// Converts a stream index into the corresponding relative stream index
    /// within an interrupt register (`isr[x]` or `ifcr[x]`).
    pub fn get_rs_index(self) -> (r: RelativeStreamIndex)
        ensures
            r.bits_of() == self.bits_of() % 4,
    {
        match self.into_bits() % 4 {
            0 => RelativeStreamIndex::RS0,
            1 => RelativeStreamIndex::RS1,
            2 => RelativeStreamIndex::RS2,
            _ => RelativeStreamIndex::RS3,
        }
    }
}

proof fn lemma_flags_fit(x: u32)
    by (bit_vector)
    requires
        x & !0x3du32 == 0,
    ensures
        x & 63u32 == x,
{
}

/// Valid flags written for a relative stream read back unchanged: the field
/// then holds exactly their bits, which decode to the same flags.
pub proof fn lemma_rs_round_trip(ir: Ir, i: RelativeStreamIndex, v: InterruptFlags)
    requires
        v.valid(),
    ensures
        ({
            let written = replaced(ir.0, (i.lo() + 5) as u32, i.lo(), v.0);
            &&& field(written, (i.lo() + 5) as u32, i.lo()) == v.0
            &&& decoded(Ok::<InterruptFlags, BadBits>(v), field(written, (i.lo() + 5) as u32, i.lo()))
        }),
{
    lemma_extract_after_replace(ir.0, (i.lo() + 5) as u32, i.lo(), v.0);
    lemma_small_masks();
    lemma_flags_fit(v.0);
}

impl Dma {
    /// Clears a set of interrupt flags for a particular stream, by writing its
    /// field of the matching `ifcr` register.
    pub fn clear_interrupt_flags(&mut self, s: StreamIndex, flags: InterruptFlags)
        ensures
            ({
                let k = s.bits_of() / 4;
                let lo = s.get_rs_spec().lo();
                &&& final(self).ifcr[k as int].value() == replaced(
                    old(self).ifcr[k as int].value(),
                    (lo + 5) as u32,
                    lo,
                    flags.0,
                )
                &&& final(self).ifcr[1 - k] == old(self).ifcr[1 - k]
                &&& final(self).isr == old(self).isr
                &&& final(self).stream == old(self).stream
            }),
    {
        let k = s.get_ir_index();
        let v = Ir(self.ifcr[k].get()).with_rs(s.get_rs_index(), flags);
        self.ifcr[k].set(v.0);
    }

    /// Reads the current set of interrupt flags for a particular stream, from
    /// the matching `isr` register.
    pub fn get_interrupt_flags(&self, s: StreamIndex) -> (r: BitsResult<InterruptFlags>)
        ensures
            ({
                let lo = s.get_rs_spec().lo();
                decoded(r, field(self.isr[(s.bits_of() / 4) as int].value(), (lo + 5) as u32, lo))
            }),
    {
        Ir(self.isr[s.get_ir_index()].get()).get_rs(s.get_rs_index())
    }
}

impl StreamIndex {
    /// The relative stream that this stream is within its interrupt register.
    pub open spec fn get_rs_spec(self) -> RelativeStreamIndex {
        match self.bits_of() % 4 {
            0 => RelativeStreamIndex::RS0,
            1 => RelativeStreamIndex::RS1,
            2 => RelativeStreamIndex::RS2,
            _ => RelativeStreamIndex::RS3,
        }
    }
}

} // verus!
