use lpc82x_hal::init_state::{Disabled, Enabled};
use lpc82x_hal::nonblocking::{self, WouldBlock};
use lpc82x_hal::pac;
use lpc82x_hal::pins;
use lpc82x_hal::spi::{self, Interrupts, Master, Mode, Phase, Polarity, RxOverrunError, Slave, TxUnderrunError, SPI};
use lpc82x_hal::swm::{self, SWM};
use lpc82x_hal::syscon::{self, SYSCON};

fn raw_syscon() -> pac::SYSCON {
    pac::SYSCON {
        pdruncfg: 0,
        presetctrl: 0,
        starterp1: 0,
        sysahbclkctrl: 0,
        pintsel: [0; 8],
        fclksel: [7; 11],
        frg0div: 0,
        frg0mult: 0,
        frg0clksel: 0,
        frg1div: 0,
        frg1mult: 0,
        frg1clksel: 0,
        uartclkdiv: 0,
        uartfrgdiv: 0,
        uartfrgmult: 0,
    }
}

fn regs() -> pac::SpiRegisters {
    pac::SpiRegisters { cfg: 0, div: 0, txctl: 0, txdat: 0, stat: 0, inten: 0 }
}

fn raw_swm() -> pac::SWM0 {
    pac::SWM0 { pinassign: [0xffff_ffff; 12], pinenable0: 0x01ff_fe4f }
}

fn master(mode: Mode) -> (SPI<pac::SPI0, Enabled<Master>>, syscon::Handle) {
    let mut syscon = SYSCON::new(raw_syscon()).split().handle;
    let parts = SWM::<Enabled>::new(raw_swm()).split();
    let mut handle = parts.handle;
    let pins = pins::Pins::new();
    let m = parts.movable_functions;
    let (sck, _) = m.spi0_sck.assign(pins.pio0_13.into_swm_pin(), &mut handle);
    let (mosi, _) = m.spi0_mosi.assign(pins.pio0_14.into_swm_pin(), &mut handle);
    let (miso, _) = m.spi0_miso.assign(pins.pio0_15.into_swm_pin(), &mut handle);
    let clock = spi::Clock::new(&(), 3);
    let spi = SPI::new(pac::SPI0 { regs: regs() }).enable_as_master(&clock, &mut syscon, mode, sck, mosi, miso);
    (spi, syscon)
}

#[test]
fn enable_as_master_configures_mode_word_length_and_divider() {
    let (spi, syscon) = master(Mode { polarity: Polarity::IdleLow, phase: Phase::CaptureOnFirstTransition });
    assert_eq!(spi.spi.regs.cfg, 0b101);
    assert_eq!(spi.spi.regs.div, 3);
    assert_eq!(spi.spi.regs.txctl, 7 << 24);
    assert_eq!(spi.spi.regs.txdat, 0xff);
    assert_eq!(syscon.sysahbclkctrl, 1 << 11);
    let (spi, _) = master(Mode { polarity: Polarity::IdleHigh, phase: Phase::CaptureOnSecondTransition });
    assert_eq!(spi.spi.regs.cfg, 0b110101);
}

#[test]
fn enable_as_slave_clears_master() {
    let mut syscon = SYSCON::new(raw_syscon()).split().handle;
    let parts = SWM::<Enabled>::new(raw_swm()).split();
    let mut handle = parts.handle;
    let pins = pins::Pins::new();
    let m = parts.movable_functions;
    let (sck, _) = m.spi1_sck.assign(pins.pio0_13.into_swm_pin(), &mut handle);
    let (mosi, _) = m.spi1_mosi.assign(pins.pio0_14.into_swm_pin(), &mut handle);
    let (miso, _) = m.spi1_miso.assign(pins.pio0_15.into_swm_pin(), &mut handle);
    let (ssel, _) = m.spi1_ssel0.assign(pins.pio0_16.into_swm_pin(), &mut handle);
    let spi: SPI<pac::SPI1, Enabled<Slave>> = SPI::new(pac::SPI1 { regs: regs() }).enable_as_slave(
        &(),
        &mut syscon,
        Mode { polarity: Polarity::IdleHigh, phase: Phase::CaptureOnFirstTransition },
        sck,
        mosi,
        miso,
        ssel,
    );
    assert_eq!(spi.spi.regs.cfg, 0b100001);
    assert_eq!(syscon.sysahbclkctrl, 1 << 12);
    let spi: SPI<pac::SPI1, Disabled> = spi.disable(&mut syscon);
    assert_eq!(syscon.sysahbclkctrl, 0);
    assert_eq!(spi.free().regs.cfg, 0b100001);
}

#[test]
fn status_flags_are_read_from_stat() {
    let (mut spi, _) = master(Mode { polarity: Polarity::IdleLow, phase: Phase::CaptureOnFirstTransition });
    spi.spi.regs.stat = 0b1_0011_0010;
    assert!(!spi.is_ready_to_receive());
    assert!(spi.is_ready_to_transmit());
    assert!(spi.is_slave_select_asserted());
    assert!(spi.is_slave_select_deasserted());
    assert!(spi.is_master_idle());
    assert_eq!(spi.spi.regs.stat, 0b1_0000_0010);
    assert!(!spi.is_slave_select_asserted());
    assert!(!spi.is_slave_select_deasserted());
    spi.spi.regs.stat = 1;
    assert!(spi.is_ready_to_receive());
    assert!(!spi.is_master_idle());
}

#[test]
fn master_read_and_send_wait_for_the_flags() {
    let (mut spi, _) = master(Mode { polarity: Polarity::IdleLow, phase: Phase::CaptureOnFirstTransition });
    spi.spi.regs.stat = 0;
    assert_eq!(spi.read(0x1a5), Err(WouldBlock));
    assert_eq!(spi.send(0x12), Err(WouldBlock));
    assert_eq!(spi.spi.regs.txdat, 0xff);
    spi.spi.regs.stat = 0b11;
    assert_eq!(spi.read(0x1a5), Ok(0xa5));
    assert_eq!(spi.send(0x12), Ok(()));
    assert_eq!(spi.spi.regs.txdat, 0x12);
}

#[test]
fn spi_interrupts_are_enabled_and_disabled_by_mask() {
    let (mut spi, _) = master(Mode { polarity: Polarity::IdleLow, phase: Phase::CaptureOnFirstTransition });
    spi.enable_interrupts(Interrupts { rx_ready: true, slave_select_deasserted: true, ..Interrupts::default() });
    assert_eq!(spi.spi.regs.inten, 0b100001);
    spi.disable_interrupts(Interrupts { rx_ready: true, tx_ready: true, ..Interrupts::default() });
    assert_eq!(spi.spi.regs.inten, 0b100000);
}

#[test]
fn slave_receive_and_transmit_report_errors_first() {
    let mut syscon = SYSCON::new(raw_syscon()).split().handle;
    let parts = SWM::<Enabled>::new(raw_swm()).split();
    let mut handle = parts.handle;
    let pins = pins::Pins::new();
    let m = parts.movable_functions;
    let (sck, _) = m.spi0_sck.assign(pins.pio0_13.into_swm_pin(), &mut handle);
    let (mosi, _) = m.spi0_mosi.assign(pins.pio0_14.into_swm_pin(), &mut handle);
    let (miso, _) = m.spi0_miso.assign(pins.pio0_15.into_swm_pin(), &mut handle);
    let (ssel, _): (swm::Function<swm::SPI0_SSEL3, _>, _) = m.spi0_ssel3.assign(pins.pio0_16.into_swm_pin(), &mut handle);
    let mut spi = SPI::new(pac::SPI0 { regs: regs() }).enable_as_slave(
        &(),
        &mut syscon,
        Mode { polarity: Polarity::IdleLow, phase: Phase::CaptureOnFirstTransition },
        sck,
        mosi,
        miso,
        ssel,
    );
    spi.spi.regs.stat = 0b1101;
    assert_eq!(spi.receive(0x33), Err(nonblocking::Error::Other(RxOverrunError)));
    assert_eq!(spi.transmit(0x44), Err(nonblocking::Error::Other(TxUnderrunError)));
    spi.spi.regs.stat = 0;
    assert_eq!(spi.receive(0x33), Err(nonblocking::Error::WouldBlock));
    assert_eq!(spi.transmit(0x44), Err(nonblocking::Error::WouldBlock));
    spi.spi.regs.stat = 0b11;
    assert_eq!(spi.receive(0x33), Ok(0x33));
    assert_eq!(spi.transmit(0x44), Ok(()));
    assert_eq!(spi.spi.regs.txdat, 0x44);
}
