use embrs::arm_m::reg::Reg;
use embrs::bits::{get_field, BadBits, BitsResult, FromBits, IntoBits};
use embrs::stm32f4::gpio::{Function, GpioPort, Mode, OutputType, PinMask, Pull, Speed};

fn port() -> GpioPort {
    GpioPort {
        moder: Reg::new(0),
        otyper: Reg::new(0),
        ospeedr: Reg::new(0),
        pupdr: Reg::new(0),
        idr: Reg::new(0),
        odr: Reg::new(0),
        bsrr: Reg::new(0),
        lckr: Reg::new(0),
        afrl: Reg::new(0),
        afrh: Reg::new(0),
    }
}

fn leds() -> PinMask {
    PinMask::pin(12).union(PinMask::pin(13))
}

#[test]
fn set_mode_touches_selected_pins() {
    let mut p = port();
    p.moder.set(0xFFFF_FFFF);
    p.set_mode(leds(), Mode::Gpio);
    assert_eq!(p.moder.get(), 0xF5FF_FFFF);
    p.set_mode(PinMask::pin(0), Mode::Input);
    assert_eq!(p.moder.get(), 0xF5FF_FFFC);
    p.set_mode(PinMask::from_bits_truncate(0xFFFF), Mode::Analog);
    assert_eq!(p.moder.get(), 0xFFFF_FFFF);
}

#[test]
fn set_output_type_and_speed() {
    let mut p = port();
    p.otyper.set(0xFFFF_0000);
    p.set_output_type(leds(), OutputType::OpenDrain);
    assert_eq!(p.otyper.get(), 0xFFFF_3000);
    p.set_output_type(PinMask::pin(13), OutputType::PushPull);
    assert_eq!(p.otyper.get(), 0xFFFF_1000);
    p.set_speed(PinMask::pin(15).union(PinMask::pin(1)), Speed::High);
    assert_eq!(p.ospeedr.get(), 0x8000_0008);
}

#[test]
fn pull_field_rejects_reserved_pattern() {
    let mut p = port();
    p.set_pull(PinMask::pin(2), Pull::Down);
    assert_eq!(p.pupdr.get(), 0b10 << 4);
    let down: BitsResult<Pull> = get_field(p.pupdr.get(), 5, 4);
    assert_eq!(down, Ok(Pull::Down));
    p.pupdr.set(0b11 << 4);
    let reserved: BitsResult<Pull> = get_field(p.pupdr.get(), 5, 4);
    assert_eq!(reserved, Err(BadBits(0b11)));
    assert_eq!(Pull::from_bits(0b11), Err(BadBits(0b11)));
    assert_eq!(Pull::from_bits(0), Ok(Pull::Floating));
    assert_eq!(Pull::Up.into_bits(), 1);
}

#[test]
fn alternate_function_on_both_halves() {
    let mut p = port();
    p.set_alternate_function(PinMask::pin(2), Function::AF7);
    assert_eq!(p.afrl.get(), 7 << 8);
    assert_eq!(p.afrh.get(), 0);
    p.set_alternate_function(PinMask::pin(7).union(PinMask::pin(15)), Function::AF15);
    assert_eq!(p.afrl.get(), (7 << 8) | (0xF << 28));
    assert_eq!(p.afrh.get(), 0xF << 28);
    p.set_alternate_function(PinMask::pin(8), Function::AF1);
    assert_eq!(p.afrh.get(), (0xF << 28) | 1);
    p.set_alternate_function(PinMask::from_bits_truncate(0), Function::AF3);
    assert_eq!(p.afrh.get(), (0xF << 28) | 1);
}

#[test]
fn pin_input_and_output() {
    let mut p = port();
    p.idr.set(0x0000_2001);
    assert_eq!(p.get(leds()), PinMask::pin(13));
    assert!(p.get(PinMask::pin(12)).is_empty());
    p.set(leds());
    assert_eq!(p.bsrr.get(), 0x3000);
    p.clear(leds());
    assert_eq!(p.bsrr.get(), 0x3000_0000);
    assert_eq!(leds().bits(), 0x3000);
}

#[test]
fn field_updates_as_masks() {
    let (mask, setting) = GpioPort::two_bit_fields_update(PinMask::pin(12).union(PinMask::pin(13)), 0b01);
    assert_eq!(mask, 0x0F00_0000);
    assert_eq!(setting, 0x0500_0000);
    let (mask, setting) = GpioPort::one_bit_fields_update(PinMask::pin(3), 1);
    assert_eq!((mask, setting), (1 << 3, 1 << 3));
    let (mask, setting) = GpioPort::one_bit_fields_update(PinMask::pin(3), 0);
    assert_eq!((mask, setting), (1 << 3, 0));
    let (low, high) = GpioPort::alternate_function_updates(
        PinMask::pin(2).union(PinMask::pin(9)),
        Function::AF7,
    );
    assert_eq!(low, (0xF << 8, 7 << 8));
    assert_eq!(high, (0xF << 4, 7 << 4));
    let (low, _) = GpioPort::alternate_function_updates(PinMask::pin(9), Function::AF7);
    assert_eq!(low, (0, 0));
    assert_eq!(GpioPort::four_bit_fields_update(0x80, 3), (0xF << 28, 3 << 28));
}
