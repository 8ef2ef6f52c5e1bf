use embrs::bits::{bitfield_extract, bitfield_replace, BadBits, FromBits, FromBitsTotal, IntoBits};
use embrs::stm32f4::rcc::raw::{AhbPrescaler, ApbPrescaler, ClockSwitch, Mco1, McoPre, Pllp};

#[test]
fn extract_single_bit() {
    assert_eq!(bitfield_extract(0b100, 2, 2), 1);
    assert_eq!(bitfield_extract(0b100, 1, 1), 0);
}

#[test]
fn extract_multi_bit_field() {
    assert_eq!(bitfield_extract(0x0003_0000, 17, 16), 0b11);
    assert_eq!(bitfield_extract(0xABCD_1234, 15, 8), 0x12);
}

#[test]
fn extract_full_width() {
    assert_eq!(bitfield_extract(0xDEAD_BEEF, 31, 0), 0xDEAD_BEEF);
}

#[test]
fn replace_keeps_other_bits() {
    assert_eq!(bitfield_replace(0xFFFF_FFFF, 17, 16, 0b01), 0xFFFD_FFFF);
    assert_eq!(bitfield_replace(0, 7, 4, 0xA), 0xA0);
}

#[test]
fn replace_full_width() {
    assert_eq!(bitfield_replace(0x1234_5678, 31, 0, 0xCAFE_F00D), 0xCAFE_F00D);
}

#[test]
fn replace_truncates_new_value() {
    // A two-bit field at [17:16]: 0b110 behaves as 0b10.
    let raw = 0x8001_0001;
    assert_eq!(bitfield_replace(raw, 17, 16, 0b110), bitfield_replace(raw, 17, 16, 0b10));
    assert_eq!(bitfield_replace(raw, 17, 16, 0b110), 0x8002_0001);
    assert_eq!(bitfield_replace(0, 17, 16, 0xFFFF_FFFF), 0x0003_0000);
}

#[test]
fn extract_then_replace_round_trips() {
    let words = [0u32, 1, 0xFFFF_FFFF, 0x8000_0001, 0x1234_5678, 0xA5A5_5A5A];
    for &w in words.iter() {
        for lo in 0..32usize {
            for hi in lo..32usize {
                let f = bitfield_extract(w, hi, lo);
                assert_eq!(bitfield_replace(w, hi, lo, f), w);
                let other = !w;
                let r = bitfield_replace(w, hi, lo, other);
                assert_eq!(bitfield_extract(r, hi, lo), bitfield_extract(other, hi - lo, 0));
                let width = hi - lo + 1;
                let mask: u32 = if width == 32 { !0 } else { ((1u32 << width) - 1) << lo };
                assert_eq!(r & !mask, w & !mask);
            }
        }
    }
}

#[test]
fn bool_decoding() {
    assert_eq!(bool::from_bits(0), Ok(false));
    assert_eq!(bool::from_bits(1), Ok(true));
    assert_eq!(bool::from_bits(2), Err(BadBits(2)));
    assert_eq!(bool::from_bits_total(1), true);
    assert_eq!(true.into_bits(), 1);
    assert_eq!(false.into_bits(), 0);
}

#[test]
fn integer_conversions() {
    assert_eq!(u8::from_bits_total(255), 255u8);
    assert_eq!(200u8.into_bits(), 200);
    assert_eq!(u32::from_bits_total(0xFFFF_FFFF), 0xFFFF_FFFF);
}

#[test]
fn total_enums_decode_every_pattern() {
    for b in 0..4u32 {
        assert_eq!(ApbPrescaler::from_bits_total(b).into_bits(), b);
        assert_eq!(Mco1::from_bits_total(b).into_bits(), b);
        assert_eq!(McoPre::from_bits_total(b).into_bits(), b);
        assert_eq!(Pllp::from_bits_total(b).into_bits(), b);
    }
    for b in 0..8u32 {
        assert_eq!(AhbPrescaler::from_bits_total(b).into_bits(), b);
    }
}

#[test]
fn partial_enum_rejects_reserved_pattern() {
    assert_eq!(ClockSwitch::from_bits(0b10), Ok(ClockSwitch::Pll));
    assert_eq!(ClockSwitch::from_bits(0b11), Err(BadBits(0b11)));
}
