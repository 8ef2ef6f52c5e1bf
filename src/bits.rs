//! Conversion between values and their bitwise representation, and the
//! packed-field arithmetic that register value types are built on.
use vstd::prelude::*;

verus! {

/// The word with the low `width` bits set.  A width of 32 or more gives the
/// full word, so a field as wide as the register has a mask that does not wrap.
pub open spec fn ones(width: u32) -> u32 {
    if width >= 32 {
        0xffff_ffffu32
    } else {
        ((1u32 << width) - 1u32) as u32
    }
}

/// Whether bit `i` of `v` is set.
pub open spec fn bit(v: u32, i: u32) -> bool {
    (v >> i) & 1u32 == 1u32
}

/// The number of bits in the field `hi..=lo`.
pub open spec fn width(hi: u32, lo: u32) -> u32 {
    (hi - lo + 1) as u32
}

/// The bits `hi..=lo` of `v`, moved down to bit 0.
pub open spec fn field(v: u32, hi: u32, lo: u32) -> u32 {
    (v >> lo) & ones(width(hi, lo))
}

/// `orig` with its bits `hi..=lo` replaced by the low bits of `new`.
pub open spec fn replaced(orig: u32, hi: u32, lo: u32, new: u32) -> u32 {
    let mask = ones(width(hi, lo));
    (orig & !((mask << lo) as u32)) | (((new & mask) << lo) as u32)
}

/// Whether `lo..=hi` names a field of a 32-bit register.
pub open spec fn valid_range(hi: u32, lo: u32) -> bool {
    lo <= hi && hi < 32
}

proof fn lemma_mask_nonwrapping(width: u32)
    by (bit_vector)
    requires
        width < 32,
    ensures
        1u32 << width >= 1u32,
{
}

/// Bit `i` of a field is bit `lo + i` of the word, for `i` below its width,
/// and clear above it.
pub proof fn lemma_field_bit(v: u32, hi: u32, lo: u32, i: u32)
    by (bit_vector)
    requires
        lo <= hi && hi < 32,
        i < 32,
    ensures
        bit(field(v, hi, lo), i) == (i <= hi - lo && bit(v, (lo + i) as u32)),
{
}

/// Bit `i` of a replaced word is taken from `new` inside the field and from
/// `orig` outside it.
pub proof fn lemma_replaced_bit(orig: u32, hi: u32, lo: u32, new: u32, i: u32)
    by (bit_vector)
    requires
        lo <= hi && hi < 32,
        i < 32,
    ensures
        bit(replaced(orig, hi, lo, new), i) == if lo <= i && i <= hi {
            bit(new, (i - lo) as u32)
        } else {
            bit(orig, i)
        },
{
}

/// Replacing a field with the value it already holds gives back the word
/// unchanged.
pub proof fn lemma_replace_with_extracted(v: u32, hi: u32, lo: u32)
    by (bit_vector)
    requires
        lo <= hi && hi < 32,
    ensures
        replaced(v, hi, lo, field(v, hi, lo)) == v,
{
}

/// After a replacement, the field holds the low `width` bits of the new value,
/// and every bit outside the field keeps its value.
pub proof fn lemma_extract_after_replace(v: u32, hi: u32, lo: u32, new: u32)
    by (bit_vector)
    requires
        lo <= hi && hi < 32,
    ensures
        field(replaced(v, hi, lo, new), hi, lo) == new & ones(width(hi, lo)),
        forall|i: u32|
            i < 32 && (i < lo || hi < i) ==> #[trigger] bit(replaced(v, hi, lo, new), i) == bit(
                v,
                i,
            ),
{
}

/// A replacement uses only the low `width` bits of the new value: bits above
/// them reach neither the field nor its neighbours.
pub proof fn lemma_replace_truncates(v: u32, hi: u32, lo: u32, new: u32)
    by (bit_vector)
    requires
        lo <= hi && hi < 32,
    ensures
        replaced(v, hi, lo, new) == replaced(v, hi, lo, new & ones(width(hi, lo))),
{
}

/// Two fields that do not overlap can be replaced in either order.
pub proof fn lemma_replace_commutes(
    v: u32,
    hi1: u32,
    lo1: u32,
    a: u32,
    hi2: u32,
    lo2: u32,
    b: u32,
)
    by (bit_vector)
    requires
        lo1 <= hi1 && hi1 < 32,
        lo2 <= hi2 && hi2 < 32,
        hi1 < lo2 || hi2 < lo1,
    ensures
        replaced(replaced(v, hi1, lo1, a), hi2, lo2, b) == replaced(
            replaced(v, hi2, lo2, b),
            hi1,
            lo1,
            a,
        ),
        field(replaced(v, hi1, lo1, a), hi2, lo2) == field(v, hi2, lo2),
{
}

/// A field never holds more than its width allows, and a narrower mask is
/// never larger than a wider one.
pub proof fn lemma_field_fits(v: u32, hi: u32, lo: u32, w: u32)
    by (bit_vector)
    requires
        lo <= hi && hi < 32,
        hi - lo + 1 <= w,
    ensures
        field(v, hi, lo) <= ones(w),
{
}

/// Given a value `v`, extracts bits `hi` through `lo` (inclusive).
pub fn bitfield_extract(v: u32, hi: usize, lo: usize) -> (r: u32)
    requires
        lo <= hi < 32,
    ensures
        r == field(v, hi as u32, lo as u32),
{
    let width = (hi - lo + 1) as u32;
    let mask: u32 = if width < 32 {
        proof {
            lemma_mask_nonwrapping(width);
        }
        (1u32 << width) - 1
    } else {
        0xffff_ffff
    };
    (v >> (lo as u32)) & mask
}

/// Given a value `orig`, replaces bits `hi` through `lo` (inclusive) with the
/// same number of low-order bits from `new`.
pub fn bitfield_replace(orig: u32, hi: usize, lo: usize, new: u32) -> (r: u32)
    requires
        lo <= hi < 32,
    ensures
        r == replaced(orig, hi as u32, lo as u32, new),
{
    let width = (hi - lo + 1) as u32;
    let mask: u32 = if width < 32 {
        proof {
            lemma_mask_nonwrapping(width);
        }
        (1u32 << width) - 1
    } else {
        0xffff_ffff
    };
    let lo = lo as u32;
    (orig & !(mask << lo)) | ((new & mask) << lo)
}

/// Error type indicating that some bits read from the hardware weren't valid
/// for the expected type.  This usually indicates a driver bug, but can also
/// indicate misbehaving hardware.  It carries the offending pattern.
#[derive(Clone, Copy, Debug, PartialEq, Eq, Structural)]
pub struct BadBits(pub u32);

/// Result type for `BadBits`.
pub type BitsResult<T> = Result<T, BadBits>;

/// Converts `self` into a small bitwise representation.  For small integers
/// and C-like enumerations, this is a widening of the value.
pub trait IntoBits: Sized {
    /// The bit pattern that represents `self`.
    spec fn bits_of(self) -> u32;

    fn into_bits(self) -> (r: u32)
        ensures
            r == self.bits_of(),
    ;
}

/// Construct `Self` from a small bitwise representation, without assuming that
/// every possible bit pattern can be represented.
pub trait FromBits: IntoBits {
    /// The bit patterns that represent a value of `Self`.
    spec fn valid_bits(bits: u32) -> bool;

    /// Constructs `Self` from `bits`.  If `bits` is not valid (e.g. is out of
    /// range for an enum) returns `BadBits` carrying `bits`.
    fn from_bits(bits: u32) -> (r: BitsResult<Self>)
        ensures
            match r {
                Ok(v) => Self::valid_bits(bits) && v.bits_of() == bits,
                Err(e) => !Self::valid_bits(bits) && e == BadBits(bits),
            },
    ;
}

/// What decoding `bits` gives: the value those bits represent, or `BadBits`
/// carrying them when they represent none.
pub open spec fn decoded<T: FromBits>(r: BitsResult<T>, bits: u32) -> bool {
    match r {
        Ok(v) => T::valid_bits(bits) && v.bits_of() == bits,
        Err(e) => !T::valid_bits(bits) && e == BadBits(bits),
    }
}

/// Construct `Self` from a small bitwise representation in which every
/// pattern of `total_width` bits names a value.
///
/// Reading such a type out of a field at most `total_width` bits wide cannot
/// fail; that a field is no wider is checked where the field is declared.
pub trait FromBitsTotal: IntoBits {
    /// The width whose every pattern represents a value.
    spec fn total_width() -> u32;

    fn from_bits_total(bits: u32) -> (r: Self)
        requires
            bits <= ones(Self::total_width()),
        ensures
            r.bits_of() == bits,
    ;
}

/// Associates a wrapped bits type (e.g. the typesafe contents of a packed
/// register) with its constructor from the raw word.
pub trait BitsWrapper: Sized {
    /// The raw word held by the wrapper.
    spec fn raw(self) -> u32;

    /// Constructor from bitwise representation.
    fn from_raw(v: u32) -> (r: Self)
        ensures
            r.raw() == v,
    ;
}

/// Maps `false` to 0 and `true` to 1.
impl IntoBits for bool {
    open spec fn bits_of(self) -> u32 {
        if self {
            1
        } else {
            0
        }
    }

    fn into_bits(self) -> u32 {
        if self {
            1
        } else {
            0
        }
    }
}

/// Maps 0 to `false` and 1 to `true`; any other pattern is rejected.
impl FromBits for bool {
    open spec fn valid_bits(bits: u32) -> bool {
        bits <= 1
    }

    fn from_bits(bits: u32) -> (r: BitsResult<Self>) {
        match bits {
            0 => Ok(false),
            1 => Ok(true),
            _ => Err(BadBits(bits)),
        }
    }
}

/// Maps 0 to `false` and 1 to `true`.
impl FromBitsTotal for bool {
    open spec fn total_width() -> u32 {
        1
    }

    fn from_bits_total(bits: u32) -> (r: Self) {
        proof {
            lemma_small_masks();
        }
        bits == 1
    }
}

impl IntoBits for u8 {
    open spec fn bits_of(self) -> u32 {
        self as u32
    }

    fn into_bits(self) -> u32 {
        self as u32
    }
}

/// Maps 0..=255 to itself.
impl FromBitsTotal for u8 {
    open spec fn total_width() -> u32 {
        8
    }

    fn from_bits_total(bits: u32) -> (r: Self) {
        proof {
            lemma_small_masks();
        }
        bits as u8
    }
}

impl IntoBits for u16 {
    open spec fn bits_of(self) -> u32 {
        self as u32
    }

    fn into_bits(self) -> u32 {
        self as u32
    }
}

/// Maps 0..=65535 to itself.
impl FromBitsTotal for u16 {
    open spec fn total_width() -> u32 {
        16
    }

    fn from_bits_total(bits: u32) -> (r: Self) {
        proof {
            lemma_small_masks();
        }
        bits as u16
    }
}

impl IntoBits for u32 {
    open spec fn bits_of(self) -> u32 {
        self
    }

    fn into_bits(self) -> u32 {
        self
    }
}

/// Identity map.
impl FromBitsTotal for u32 {
    open spec fn total_width() -> u32 {
        32
    }

    fn from_bits_total(bits: u32) -> (r: Self) {
        bits
    }
}

/// The masks of the widths that fields are declared with.
pub proof fn lemma_small_masks()
    by (bit_vector)
    ensures
        ones(1) == 1,
        ones(2) == 3,
        ones(3) == 7,
        ones(4) == 15,
        ones(5) == 31,
        ones(6) == 63,
        ones(8) == 255,
        ones(9) == 511,
        ones(12) == 4095,
        ones(16) == 65535,
        ones(32) == 0xffff_ffff,
{
}

/// A field read as a total type decodes whatever the register holds: when the
/// field is no wider than the type's total width, every pattern it can hold
/// is one that `from_bits_total` accepts.
pub proof fn lemma_total_field_decodes<T: FromBitsTotal>(raw: u32, hi: u32, lo: u32)
    requires
        lo <= hi && hi < 32,
        hi - lo + 1 <= T::total_width(),
    ensures
        field(raw, hi, lo) <= ones(T::total_width()),
{
    lemma_field_fits(raw, hi, lo, T::total_width());
}

/// Reads the field `hi..=lo` of `raw` as a `T`, which may fail.
pub fn get_field<T: FromBits>(raw: u32, hi: usize, lo: usize) -> (r: BitsResult<T>)
    requires
        lo <= hi < 32,
    ensures
        decoded(r, field(raw, hi as u32, lo as u32)),
{
    T::from_bits(bitfield_extract(raw, hi, lo))
}

/// Reads the field `hi..=lo` of `raw` as a `T` whose every pattern of that
/// width is valid.
pub fn get_total_field<T: FromBitsTotal>(raw: u32, hi: usize, lo: usize) -> (r: T)
    requires
        lo <= hi < 32,
        hi - lo + 1 <= T::total_width(),
    ensures
        r.bits_of() == field(raw, hi as u32, lo as u32),
{
    let bits = bitfield_extract(raw, hi, lo);
    proof {
        lemma_total_field_decodes::<T>(raw, hi as u32, lo as u32);
    }
    T::from_bits_total(bits)
}

/// `raw` with the field `hi..=lo` replaced by the representation of `v`.
pub fn with_field<T: IntoBits>(raw: u32, hi: usize, lo: usize, v: T) -> (r: u32)
    requires
        lo <= hi < 32,
    ensures
        r == replaced(raw, hi as u32, lo as u32, v.bits_of()),
{
    bitfield_replace(raw, hi, lo, v.into_bits())
}

} // verus!
