use lpc82x_hal::init_state::{Disabled, Enabled};
use lpc82x_hal::pac;
use lpc82x_hal::syscon::{
    self, frg::FrgClockSource, I2c0Wakeup, IoscDerivedClock, WktWakeup, SYSCON,
};

fn raw_syscon() -> pac::SYSCON {
    pac::SYSCON {
        pdruncfg: 0x0000_edf0,
        presetctrl: 0x0001_ffff,
        starterp1: 0,
        sysahbclkctrl: 0x0000_00df,
        pintsel: [0; 8],
        fclksel: [7; 11],
        frg0div: 0,
        frg0mult: 0,
        frg0clksel: 3,
        frg1div: 0,
        frg1mult: 0,
        frg1clksel: 3,
        uartclkdiv: 0,
        uartfrgdiv: 0,
        uartfrgmult: 0,
    }
}

#[test]
fn split_moves_registers_into_the_parts() {
    let parts = SYSCON::new(raw_syscon()).split();
    assert_eq!(parts.handle.sysahbclkctrl, 0xdf);
    assert_eq!(parts.handle.presetctrl0, 0x0001_ffff);
    assert_eq!(parts.handle.pdruncfg, 0xedf0);
    assert_eq!(parts.frg0.clksel, 3);
    assert_eq!(parts.uartfrg.uartclkdiv, 0);
}

#[test]
fn free_returns_the_raw_peripheral() {
    let raw = SYSCON::new(raw_syscon()).free();
    assert_eq!(raw.sysahbclkctrl, 0xdf);
}

#[test]
fn enable_and_disable_clock_switch_only_the_peripherals_bit() {
    let mut handle = SYSCON::new(raw_syscon()).split().handle;
    let usart0 = pac::USART0 {
        regs: pac::UsartRegisters { cfg: 0, ctl: 0, stat: 0, brg: 0, osr: 0, addr: 0, inten: 0 },
    };
    handle.enable_clock(&usart0);
    assert_eq!(handle.sysahbclkctrl, 0xdf | (1 << 14));
    handle.enable_clock(&usart0);
    assert_eq!(handle.sysahbclkctrl, 0xdf | (1 << 14));
    handle.disable_clock(&usart0);
    assert_eq!(handle.sysahbclkctrl, 0xdf);
    handle.disable_clock(&pac::I2C0);
    assert_eq!(handle.sysahbclkctrl, 0xdf & !(1 << 5));
    assert_eq!(handle.presetctrl0, 0x0001_ffff);
}

#[test]
fn reset_is_asserted_by_clearing_the_bit() {
    let mut handle = SYSCON::new(raw_syscon()).split().handle;
    handle.assert_reset(&pac::DMA0);
    assert_eq!(handle.presetctrl0, 0x0001_ffff);
    handle.clear_reset(&pac::DMA0);
    assert_eq!(handle.presetctrl0, 0x0001_ffff | (1 << 29));
    handle.assert_reset(&pac::I2C1);
    assert_eq!(handle.presetctrl0, (0x0001_ffff | (1 << 29)) & !(1 << 14));
}

#[test]
fn power_up_clears_the_power_down_bit() {
    let mut handle = SYSCON::new(raw_syscon()).split().handle;
    handle.power_up(&pac::ADC0);
    assert_eq!(handle.pdruncfg, 0xedf0 & !(1 << 4));
    handle.power_down(&pac::ADC0);
    assert_eq!(handle.pdruncfg, 0xedf0);
    handle.power_down(&pac::ACOMP);
    assert_eq!(handle.pdruncfg, 0xedf0 | (1 << 15));
}

#[test]
fn interrupt_wakeup_sets_the_starterp1_bit() {
    let mut handle = SYSCON::new(raw_syscon()).split().handle;
    handle.enable_interrupt_wakeup::<WktWakeup>();
    handle.enable_interrupt_wakeup::<I2c0Wakeup>();
    assert_eq!(handle.starterp1, (1 << 15) | (1 << 8));
    handle.disable_interrupt_wakeup::<WktWakeup>();
    assert_eq!(handle.starterp1, 1 << 8);
}

#[test]
fn iosc_derived_clock_powers_up_irc_and_irc_output() {
    let parts = SYSCON::new(raw_syscon()).split();
    let mut handle = parts.handle;
    handle.pdruncfg = 0xedf3;
    let disabled: IoscDerivedClock<Disabled> = IoscDerivedClock { _state: Disabled };
    let clock: IoscDerivedClock<Enabled> = disabled.enable(&mut handle, parts.iosc, parts.ioscout);
    assert_eq!(handle.pdruncfg, 0xedf0);
    assert_eq!(clock.hz(), 750_000);
}

#[test]
fn uart_frg_setters_write_their_register() {
    let mut uartfrg = SYSCON::new(raw_syscon()).split().uartfrg;
    uartfrg.set_clkdiv(6);
    uartfrg.set_frgmult(22);
    uartfrg.set_frgdiv(0xff);
    assert_eq!(uartfrg.uartclkdiv, 6);
    assert_eq!(uartfrg.uartfrgmult, 22);
    assert_eq!(uartfrg.uartfrgdiv, 0xff);
}

#[test]
fn frg_select_clock_and_dividers() {
    let mut frg = SYSCON::new(raw_syscon()).split().frg0;
    frg.select_clock(FrgClockSource::MainClk);
    frg.set_div(0xff);
    frg.set_mult(22);
    assert_eq!(frg.clksel, 1);
    assert_eq!(frg.div, 0xff);
    assert_eq!(frg.mult, 22);
    frg.select_clock(FrgClockSource::Fro);
    assert_eq!(frg.clksel, 0);
}

#[test]
fn adc_clock_default_divides_by_24_for_calibration() {
    let clock = syscon::clock_source::AdcClock::new_default();
    assert_eq!(clock.caldiv, 24);
    assert_eq!(clock.div, 0);
}

#[test]
fn adc_clock_keeps_the_given_dividers() {
    let clock = syscon::clock_source::AdcClock::new(48, 2);
    assert_eq!((clock.caldiv, clock.div), (48, 2));
}

#[test]
fn i2c_clock_stores_high_and_low_times_minus_two() {
    let clock = lpc82x_hal::i2c::Clock::<()>::new(5, 2, 9);
    assert_eq!(clock.divval, 5);
    assert_eq!(clock.mstsclhigh, 0);
    assert_eq!(clock.mstscllow, 7);
    let fast = lpc82x_hal::i2c::Clock::<()>::new_400khz();
    assert_eq!((fast.divval, fast.mstsclhigh, fast.mstscllow), (5, 0, 1));
}
