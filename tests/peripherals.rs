use embrs::arm_m::nvic::Nvic;
use embrs::arm_m::reg::Reg;
use embrs::arm_m::scb::{CpAccess, Cpacr, Fpccr, Scb};
use embrs::arm_m::sys_tick::{ClkSource, Csr, SysTick};
use embrs::bits::BadBits;
use embrs::stm32f4::dma::{
    Channel, Cr, Direction, Dma, Fcr, FifoLevel, InterruptFlags, Ir, Ndtr, RelativeStreamIndex,
    Stream, StreamIndex, TransferSize,
};
use embrs::stm32f4::flash::{Acr, Flash};
use embrs::stm32f4::irq::{Interrupt, NvicExt, Priority};
use embrs::stm32f4::usart::{Brr, Cr1, Cr2, Dr, StopBits, WordLength};

#[test]
fn sys_tick_control() {
    let mut t = SysTick {
        csr: Reg::new(0),
        rvr: Reg::new(0),
        cvr: Reg::new(0),
        calib: Reg::new(0),
    };
    let v = t.read_csr().with_enable(true).with_tickint(true).with_clksource(ClkSource::ProcessorClock);
    t.write_csr(v);
    assert_eq!(t.csr.get(), 0b111);
    assert!(t.read_csr().get_enable());
    assert!(t.read_csr().get_tickint());
    assert_eq!(t.read_csr().get_clksource(), ClkSource::ProcessorClock);
    assert!(!t.read_csr().get_countflag());
    assert!(Csr::from(1 << 16).get_countflag());
    assert_eq!(u32::from(Csr(0b101).with_enable(false)), 0b100);
    t.write_rvr(16_000_000 - 1);
    assert_eq!(t.read_rvr(), 15_999_999);
    t.write_cvr(3);
    assert_eq!(t.read_cvr(), 3);
}

fn stream() -> Stream {
    Stream {
        cr: Reg::new(0),
        ndtr: Reg::new(0),
        par: Reg::new(0),
        mar: [Reg::new(0), Reg::new(0)],
        fcr: Reg::new(0),
    }
}

fn dma() -> Dma {
    Dma {
        isr: [Reg::new(0), Reg::new(0)],
        ifcr: [Reg::new(0), Reg::new(0)],
        stream: [stream(), stream(), stream(), stream(), stream(), stream(), stream(), stream()],
    }
}

#[test]
fn dma_stream_indices() {
    assert_eq!(StreamIndex::S0.get_ir_index(), 0);
    assert_eq!(StreamIndex::S3.get_ir_index(), 0);
    assert_eq!(StreamIndex::S4.get_ir_index(), 1);
    assert_eq!(StreamIndex::S7.get_ir_index(), 1);
    assert_eq!(StreamIndex::S5.get_rs_index(), RelativeStreamIndex::RS1);
    assert_eq!(StreamIndex::S2.get_rs_index(), RelativeStreamIndex::RS2);
    assert_eq!(StreamIndex::S7.get_rs_index(), RelativeStreamIndex::RS3);
}

#[test]
fn dma_interrupt_flags() {
    let all = InterruptFlags(
        InterruptFlags::FIFO_ERROR
            | InterruptFlags::DIRECT_MODE_ERROR
            | InterruptFlags::TRANSFER_ERROR
            | InterruptFlags::HALF_TRANSFER
            | InterruptFlags::TRANSFER_COMPLETE,
    );
    let ir = Ir(0).with_rs(RelativeStreamIndex::RS2, all);
    assert_eq!(ir.0, 0x3D << 16);
    assert_eq!(ir.get_rs(RelativeStreamIndex::RS2), Ok(all));
    assert_eq!(ir.get_rs(RelativeStreamIndex::RS0), Ok(InterruptFlags(0)));
    assert_eq!(Ir(0b10 << 22).get_rs3(), Err(BadBits(0b10)));
    let mut d = dma();
    d.clear_interrupt_flags(StreamIndex::S5, InterruptFlags(InterruptFlags::TRANSFER_COMPLETE));
    assert_eq!(d.ifcr[1].get(), 32 << 6);
    assert_eq!(d.ifcr[0].get(), 0);
    d.isr[0].set(0x21 << 22);
    assert_eq!(
        d.get_interrupt_flags(StreamIndex::S3),
        Ok(InterruptFlags(InterruptFlags::TRANSFER_COMPLETE | InterruptFlags::FIFO_ERROR))
    );
    assert!(d.get_interrupt_flags(StreamIndex::S4).unwrap().is_empty());
    for raw in 0..64u32 {
        let flags = InterruptFlags(raw);
        let read = Ir(0xFFFF_FFFF).with_rs(RelativeStreamIndex::RS1, flags).get_rs(RelativeStreamIndex::RS1);
        if raw & !0x3D == 0 {
            assert_eq!(read, Ok(flags));
        } else {
            assert_eq!(read, Err(BadBits(raw)));
        }
    }
}

#[test]
fn dma_configuration_fields() {
    let cr = Cr(0).with_chsel(Channel::Ch4).with_dir(Direction::MemoryToPeripheral).with_en(true);
    assert_eq!(cr.0, (4 << 25) | (1 << 6) | 1);
    assert_eq!(cr.get_chsel(), Channel::Ch4);
    assert_eq!(Cr(0b11 << 13).get_msize(), Err(BadBits(0b11)));
    assert_eq!(Cr(0b10 << 11).get_psize(), Ok(TransferSize::Word));
    assert_eq!(Ndtr(0xFFFF_1234).get_ndt(), 0x1234);
    assert_eq!(Fcr(0b101 << 3).get_fs(), Ok(FifoLevel::Full));
    assert_eq!(Fcr(0b110 << 3).get_fs(), Err(BadBits(0b110)));
}

#[test]
fn flash_latency() {
    let mut f = Flash { acr: Reg::new(0x0000_0700) };
    f.update_acr(|v| v.with_latency(5));
    assert_eq!(f.read_acr().0, 0x0000_0705);
    assert_eq!(f.read_acr().get_latency(), 5);
    assert!(f.read_acr().get_prften());
    assert!(!f.read_acr().get_dcrst());
    assert!(Acr(1 << 9).get_icen());
    f.write_acr(Acr(0).with_latency(9));
    assert_eq!(f.read_acr().get_latency(), 1);
}

fn nvic() -> Nvic {
    Nvic {
        iser: std::array::from_fn(|_| Reg::new(0)),
        icer: std::array::from_fn(|_| Reg::new(0)),
        ispr: std::array::from_fn(|_| Reg::new(0)),
        icpr: std::array::from_fn(|_| Reg::new(0)),
        iabr: std::array::from_fn(|_| Reg::new(0)),
        ipr: std::array::from_fn(|_| Reg::new(0)),
    }
}

#[test]
fn nvic_enable_and_priority() {
    let mut n = nvic();
    n.enable_irq(Interrupt::Usart2);
    assert_eq!(n.iser[1].get(), 1 << 6);
    n.disable_irq(Interrupt::Dma2d);
    assert_eq!(n.icer[2].get(), 1 << 26);
    n.set_priority(Interrupt::Usart2, Priority::P5);
    assert_eq!(n.get_priority_raw(38), 0x50);
    assert_eq!(n.get_priority(Interrupt::Usart2), Priority::P5);
    n.set_priority_raw(0, 0xFF);
    assert_eq!(n.get_priority(Interrupt::Wwdg), Priority::P15);
    n.enable_irq_raw(511);
    assert_eq!(n.iser[15].get(), 1 << 31);
}

#[test]
fn coprocessor_access() {
    let mut s = Scb { cpacr: Reg::new(0) };
    s.update_cpacr(|v| v.with_cp10(CpAccess::Full).with_cp11(CpAccess::Full));
    assert_eq!(s.read_cpacr().0, 0x00F0_0000);
    assert_eq!(s.read_cpacr().get_cp10(), Ok(CpAccess::Full));
    assert_eq!(Cpacr(0b10 << 20).get_cp10(), Err(BadBits(0b10)));
    assert_eq!(Fpccr(1 << 31).get_aspen(), Ok(true));
}

#[test]
fn usart_fields() {
    let brr = Brr(0).with_mantissa(21).with_fraction(11);
    assert_eq!(brr.0, (21 << 4) | 11);
    let cr1 = Cr1(0).with_ue(true).with_te(true).with_m(WordLength::NineBits);
    assert_eq!(cr1.0, (1 << 13) | (1 << 3) | (1 << 12));
    assert_eq!(Cr2(0b10 << 12).get_stop(), StopBits::Two);
    assert_eq!(Dr(0x1_41).get_data(), 0x41);
}
