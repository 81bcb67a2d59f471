use core::marker::PhantomData;

use lpc82x_hal::init_state::Disabled;
use lpc82x_hal::nonblocking::{self, WouldBlock};
use lpc82x_hal::pac;
use lpc82x_hal::pins::{self, Pin};
use lpc82x_hal::swm::{self, Function};
use lpc82x_hal::syscon::{self, SYSCON};
use lpc82x_hal::usart::{
    self, state::AsyncMode, Clock, ClockPol, DataLen, Error, Flag, Interrupts, Parity, Polarity,
    Settings, StopLen, USART,
};

fn raw_syscon() -> pac::SYSCON {
    pac::SYSCON {
        pdruncfg: 0,
        presetctrl: 0,
        starterp1: 0,
        sysahbclkctrl: 0,
        pintsel: [0; 8],
        fclksel: [7; 11],
        frg0div: 0,
        frg0mult: 0,
        frg0clksel: 0,
        frg1div: 0,
        frg1mult: 0,
        frg1clksel: 0,
        uartclkdiv: 0,
        uartfrgdiv: 0,
        uartfrgmult: 0,
    }
}

fn regs() -> pac::UsartRegisters {
    pac::UsartRegisters { cfg: 0, ctl: 0, stat: 0, brg: 0, osr: 0, addr: 0, inten: 0 }
}

fn raw_swm() -> pac::SWM0 {
    pac::SWM0 { pinassign: [0xffff_ffff; 12], pinenable0: 0x01ff_fe4f }
}

#[test]
fn new_with_baudrate_115200() {
    let clock = Clock::<syscon::IOSC, AsyncMode>::new_with_baudrate(115_200);
    assert_eq!(clock.brgval, 7);
    assert_eq!(clock.osrval, 12);
}

#[test]
fn new_with_baudrate_prefers_the_highest_oversampling() {
    let clock = Clock::<syscon::IOSC, AsyncMode>::new_with_baudrate(9600);
    assert_eq!((clock.brgval, clock.osrval), (77, 15));
    let clock = Clock::<syscon::IOSC, AsyncMode>::new_with_baudrate(38_400);
    assert_eq!((clock.brgval, clock.osrval), (18, 15));
    let clock = Clock::<syscon::IOSC, AsyncMode>::new_with_baudrate(750_000);
    assert_eq!((clock.brgval, clock.osrval), (0, 15));
}

#[test]
fn new_with_baudrate_skips_oversampling_that_cannot_reach_the_rate() {
    let clock = Clock::<syscon::IOSC, AsyncMode>::new_with_baudrate(1_000_000);
    assert_eq!((clock.brgval, clock.osrval), (0, 11));
    let clock = Clock::<syscon::IOSC, AsyncMode>::new_with_baudrate(1_500_000);
    assert_eq!((clock.brgval, clock.osrval), (0, 7));
}

#[test]
fn new_with_baudrate_low_rate_fits_the_divider() {
    let clock = Clock::<syscon::IOSC, AsyncMode>::new_with_baudrate(12);
    assert_eq!((clock.brgval, clock.osrval), (62_499, 15));
}

#[test]
fn new_with_baudrate_result_is_within_5_percent() {
    for &baudrate in &[12u32, 300, 1200, 4800, 9600, 19_200, 38_400, 57_600, 115_200, 250_000, 1_000_000] {
        let clock = Clock::<syscon::IOSC, AsyncMode>::new_with_baudrate(baudrate);
        let resulting = 12_000_000 / (clock.brgval as u32 + 1) / (clock.osrval as u32 + 1);
        assert!(resulting >= baudrate);
        assert!((resulting - baudrate) * 100 < 5 * baudrate);
    }
}

#[test]
fn clock_new_stores_osrval_minus_one() {
    let parts = SYSCON::new(raw_syscon()).split();
    let clock: Clock<syscon::UARTFRG, AsyncMode> = Clock::new(&parts.uartfrg, 0, 16);
    assert_eq!(clock.brgval, 0);
    assert_eq!(clock.osrval, 15);
    let clock: Clock<syscon::UARTFRG, AsyncMode> = Clock::new(&parts.uartfrg, 3, 5);
    assert_eq!((clock.brgval, clock.osrval), (3, 4));
}

#[test]
fn settings_default_is_8n1() {
    let s = Settings::default();
    assert!(s.data_len == DataLen::Bit8);
    assert!(s.parity == Parity::NoParity);
    assert!(s.stop_len == StopLen::Bit1);
    assert!(s.clock_pol == ClockPol::FallingEdge);
    assert!(s.rx_pol == Polarity::Standard);
    assert!(s.tx_pol == Polarity::Standard);
    assert_eq!(s.apply(0), 1 << 2);
}

#[test]
fn settings_builders_overwrite_one_field_each() {
    let s = Settings::default().data_len_9().parity_odd().stop_len_2().clock_pol_rising()
        .rx_pol_inverted()
        .tx_pol_inverted();
    assert_eq!(s.apply(0), (2 << 2) | (3 << 4) | (1 << 6) | (1 << 12) | (1 << 22) | (1 << 23));
    let s = s.data_len_7().parity_even().stop_len_1().clock_pol_falling().rx_pol_standard()
        .tx_pol_standard();
    assert_eq!(s.apply(0), 2 << 4);
    let s = s.data_len_8().parity_none();
    assert_eq!(s.apply(0xffff_ffff), 0xffff_ffff & !0x00c0_107c | (1 << 2));
}

#[test]
fn enable_async_configures_the_registers() {
    let mut syscon = SYSCON::new(raw_syscon()).split();
    let swm_parts = swm::SWM::<lpc82x_hal::init_state::Enabled>::new(raw_swm()).split();
    let mut swm_handle = swm_parts.handle;
    let pins = pins::Pins::new();
    let (u0_rxd, _) = swm_parts.movable_functions.u0_rxd.assign(pins.pio0_0.into_swm_pin(), &mut swm_handle);
    let (u0_txd, _) = swm_parts.movable_functions.u0_txd.assign(pins.pio0_4.into_swm_pin(), &mut swm_handle);
    assert_eq!(swm_handle.swm.pinassign[0], 0xffff_0004);

    let usart = USART::new(pac::USART0 {
        regs: pac::UsartRegisters { cfg: 0x0008_8a00 | (3 << 4), ctl: 0x0001_0046 | 0x100, ..regs() },
    });
    let clock = Clock::<syscon::UARTFRG, AsyncMode>::new(&syscon.uartfrg, 5, 16);
    let usart = usart.enable_async(&clock, &mut syscon.handle, u0_rxd, u0_txd, Settings::default());
    assert_eq!(usart.usart.regs.brg, 5);
    assert_eq!(usart.usart.regs.osr, 15);
    assert_eq!(usart.usart.regs.cfg, 0x1 | (1 << 2));
    assert_eq!(usart.usart.regs.ctl, 0x100);
    assert_eq!(syscon.handle.sysahbclkctrl, 1 << 14);
    assert_eq!(syscon.handle.fclksel, [7; 11]);

    let usart: USART<pac::USART0, Disabled> = usart.disable(&mut syscon.handle);
    assert_eq!(syscon.handle.sysahbclkctrl, 0);
    let raw = usart.free();
    assert_eq!(raw.regs.brg, 5);
}

#[test]
fn enable_async_with_the_irc_selects_fclksel() {
    let mut syscon = SYSCON::new(raw_syscon()).split();
    let swm_parts = swm::SWM::<lpc82x_hal::init_state::Enabled>::new(raw_swm()).split();
    let mut swm_handle = swm_parts.handle;
    let pins = pins::Pins::new();
    let (u1_rxd, _) = swm_parts.movable_functions.u1_rxd.assign(pins.pio0_12.into_swm_pin(), &mut swm_handle);
    let (u1_txd, _) = swm_parts.movable_functions.u1_txd.assign(pins.pio0_13.into_swm_pin(), &mut swm_handle);
    let clock = Clock::<syscon::IOSC, AsyncMode>::new_with_baudrate(115_200);
    let usart = USART::new(pac::USART1 { regs: regs() }).enable_async(
        &clock,
        &mut syscon.handle,
        u1_rxd,
        u1_txd,
        Settings::default().data_len_9(),
    );
    assert_eq!(syscon.handle.fclksel[1], 0);
    assert_eq!(syscon.handle.fclksel[0], 7);
    assert_eq!(usart.usart.regs.cfg, 0x1 | (2 << 2));
    assert_eq!((usart.usart.regs.brg, usart.usart.regs.osr), (7, 12));
}

fn enabled_usart0() -> USART<pac::USART0, usart::state::Enabled<u8, AsyncMode>> {
    let mut syscon = SYSCON::new(raw_syscon()).split();
    let swm_parts = swm::SWM::<lpc82x_hal::init_state::Enabled>::new(raw_swm()).split();
    let mut swm_handle = swm_parts.handle;
    let pins = pins::Pins::new();
    let (u0_rxd, _) = swm_parts.movable_functions.u0_rxd.assign(pins.pio0_0.into_swm_pin(), &mut swm_handle);
    let (u0_txd, _) = swm_parts.movable_functions.u0_txd.assign(pins.pio0_4.into_swm_pin(), &mut swm_handle);
    let clock = Clock::<syscon::UARTFRG, AsyncMode>::new(&syscon.uartfrg, 0, 16);
    USART::new(pac::USART0 { regs: regs() }).enable_async(
        &clock,
        &mut syscon.handle,
        u0_rxd,
        u0_txd,
        Settings::default(),
    )
}

#[test]
fn interrupts_are_enabled_and_disabled_by_mask() {
    let mut usart = enabled_usart0();
    usart.enable_interrupts(Interrupts { RXRDY: true, TXRDY: true, ..Interrupts::default() });
    assert_eq!(usart.usart.regs.inten, 0b101);
    usart.enable_interrupts(Interrupts { ABERR: true, OVERRUN: true, ..Interrupts::default() });
    assert_eq!(usart.usart.regs.inten, 0b101 | (1 << 16) | (1 << 8));
    usart.disable_interrupts(Interrupts { RXRDY: true, ..Interrupts::default() });
    assert_eq!(usart.usart.regs.inten, 0b100 | (1 << 16) | (1 << 8));
    assert_eq!(Interrupts::default().mask(), 0);
}

#[test]
fn rx_and_tx_interrupts_use_the_shared_registers() {
    let mut usart = enabled_usart0();
    let mut rx = usart.rx;
    let mut tx = usart.tx;
    rx.enable_interrupts(&mut usart.usart, Interrupts { START: true, ..Interrupts::default() });
    tx.enable_interrupts(&mut usart.usart, Interrupts { TXIDLE: true, ..Interrupts::default() });
    assert_eq!(usart.usart.regs.inten, (1 << 12) | (1 << 3));
    tx.disable_interrupts(&mut usart.usart, Interrupts { START: true, ..Interrupts::default() });
    rx.disable_interrupts(&mut usart.usart, Interrupts::default());
    assert_eq!(usart.usart.regs.inten, 1 << 3);
}

#[test]
fn flags_are_read_from_the_status_register() {
    let mut usart = enabled_usart0();
    usart.usart.regs.stat = (1 << 2) | (1 << 13);
    assert!(usart.is_flag_set(Flag::TXRDY));
    assert!(!usart.is_flag_set(Flag::RXRDY));
    assert!(!usart.is_flag_set(Flag::ABERR));
    assert!(usart.rx.is_flag_set(Flag::FRAMERR, &mut usart.usart));
    // FRAMERR is reset by software, so checking it cleared it; TXRDY is not
    assert_eq!(usart.usart.regs.stat, 1 << 2);
    assert!(!usart.is_flag_set(Flag::FRAMERR));
    assert!(usart.is_flag_set(Flag::TXRDY));
    assert!(!usart.tx.is_flag_set(Flag::TXIDLE, &mut usart.usart));
    assert_eq!(Flag::FRAMERR.reset_value(), 1 << 13);
    assert_eq!(Flag::TXRDY.reset_value(), 0);
    assert_eq!(Flag::ABERR.position(), 16);
}

#[test]
fn rx_read_reports_errors_in_order() {
    let mut usart = enabled_usart0();
    // nothing received
    usart.usart.regs.stat = 0;
    assert!(!usart.rx.fetches_data(&usart.usart));
    assert_eq!(usart.rx.read(&usart.usart, 0x41), Err(nonblocking::Error::WouldBlock));
    // break
    usart.usart.regs.stat = 1 | (1 << 10);
    assert!(!usart.rx.fetches_data(&usart.usart));
    assert_eq!(usart.rx.read(&usart.usart, 0x41), Err(nonblocking::Error::WouldBlock));
    // overrun beats the data errors
    usart.usart.regs.stat = 1 | (1 << 8);
    assert!(usart.rx.fetches_data(&usart.usart));
    assert_eq!(usart.rx.read(&usart.usart, 1 << 13), Err(nonblocking::Error::Other(Error::Overrun)));
    usart.usart.regs.stat = 1;
    assert_eq!(usart.rx.read(&usart.usart, (1 << 13) | (1 << 14)), Err(nonblocking::Error::Other(Error::Framing)));
    assert_eq!(usart.rx.read(&usart.usart, (1 << 14) | (1 << 15)), Err(nonblocking::Error::Other(Error::Parity)));
    assert_eq!(usart.rx.read(&usart.usart, 1 << 15), Err(nonblocking::Error::Other(Error::Noise)));
    assert_eq!(usart.rx.read(&usart.usart, 0x141), Ok(0x41u8));
}

#[test]
fn tx_write_and_flush_wait_for_the_transmitter() {
    let mut usart = enabled_usart0();
    usart.usart.regs.stat = 0;
    assert_eq!(usart.tx.write(&usart.usart, b'a'), Err(WouldBlock));
    assert_eq!(usart.tx.flush(&usart.usart), Err(WouldBlock));
    usart.usart.regs.stat = 1 << 2;
    assert_eq!(usart.tx.write(&usart.usart, b'a'), Ok(0x61));
    assert_eq!(usart.tx.flush(&usart.usart), Err(WouldBlock));
    usart.usart.regs.stat = 1 << 3;
    assert_eq!(usart.tx.flush(&usart.usart), Ok(()));
}

#[test]
fn nvic_masks_use_the_interrupt_number() {
    let mut usart = enabled_usart0();
    assert_eq!(usart.enable_in_nvic(), 1 << 3);
    assert_eq!(usart.disable_in_nvic(), 1 << 3);
    assert_eq!(usart.clear_nvic_pending(), 1 << 3);
}

#[test]
fn address_detection_sets_and_clears_addrdet() {
    let mut usart = enabled_usart0();
    usart.rx.start_address_detection(&mut usart.usart, 0x42);
    assert_eq!(usart.usart.regs.addr, 0x42);
    assert_eq!(usart.usart.regs.ctl, 0x4);
    usart.rx.stop_address_detection(&mut usart.usart);
    assert_eq!(usart.usart.regs.ctl, 0);
}

#[test]
fn cts_throttling_sets_and_clears_ctsen() {
    let mut usart = enabled_usart0();
    let swm_parts = swm::SWM::<lpc82x_hal::init_state::Enabled>::new(raw_swm()).split();
    let mut swm_handle = swm_parts.handle;
    let pins = pins::Pins::new();
    let (u0_cts, _): (Function<swm::U0_CTS, swm::state::Assigned<pins::PIO0_7>>, Pin<_, _>) =
        swm_parts.movable_functions.u0_cts.assign(pins.pio0_7.into_swm_pin(), &mut swm_handle);
    assert_eq!(swm_handle.swm.pinassign[0], 0x07ff_ffff);
    let cfg = usart.usart.regs.cfg;
    let tx = usart.tx.enable_cts_throttling(u0_cts, &mut usart.usart);
    assert_eq!(usart.usart.regs.cfg, cfg | (1 << 9));
    let (_tx, _u0_cts) = tx.disable_cts_throttling(&mut usart.usart);
    assert_eq!(usart.usart.regs.cfg, cfg);
}

#[test]
fn rts_is_assigned_through_the_switch_matrix() {
    let mut usart = enabled_usart0();
    let swm_parts = swm::SWM::<lpc82x_hal::init_state::Enabled>::new(raw_swm()).split();
    let mut swm_handle = swm_parts.handle;
    let pins = pins::Pins::new();
    let (u0_rts, pio0_9) =
        usart.tx.enable_rts(swm_parts.movable_functions.u0_rts, pins.pio0_9.into_swm_pin(), &mut swm_handle);
    assert_eq!(swm_handle.swm.pinassign[0], 0xff09_ffff);
    let (_u0_rts, pio0_9) = usart.tx.disable_rts(u0_rts, pio0_9, &mut swm_handle);
    assert_eq!(swm_handle.swm.pinassign[0], 0xffff_ffff);
    let _unused: Pin<pins::PIO0_9, pins::state::Unused> = pio0_9.into_unused_pin();
}
