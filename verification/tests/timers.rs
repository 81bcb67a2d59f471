use lpc82x_hal::gpio::{Level, GPIO};
use lpc82x_hal::pins::DynamicPinDirection;
use lpc82x_hal::init_state::{Disabled, Enabled};
use lpc82x_hal::nonblocking::WouldBlock;
use lpc82x_hal::pac;
use lpc82x_hal::pinint::{PININT0, PININT5, PININT};
use lpc82x_hal::pins;
use lpc82x_hal::pmu::{LowPowerClock, PMU};
use lpc82x_hal::syscon::{IoscDerivedClock, SYSCON};
use lpc82x_hal::wkt::{self, WKT};
use lpc82x_hal::sleep::{self, SleepAction};

fn raw_syscon() -> pac::SYSCON {
    pac::SYSCON {
        pdruncfg: 0,
        presetctrl: 0,
        starterp1: 0,
        sysahbclkctrl: 0,
        pintsel: [0; 8],
        fclksel: [7; 11],
        frg0div: 0,
        frg0mult: 0,
        frg0clksel: 0,
        frg1div: 0,
        frg1mult: 0,
        frg1clksel: 0,
        uartclkdiv: 0,
        uartfrgdiv: 0,
        uartfrgmult: 0,
    }
}

#[test]
fn wkt_selects_clock_starts_and_waits() {
    let mut syscon = SYSCON::new(raw_syscon()).split().handle;
    let wkt = WKT::new(pac::WKT { ctrl: 0b1101, count: 0 });
    let mut wkt = wkt.enable(&mut syscon);
    assert_eq!(syscon.sysahbclkctrl, 1 << 9);
    wkt.select_clock::<IoscDerivedClock<Enabled>>();
    assert_eq!(wkt.wkt.ctrl, 0b0100);
    wkt.select_clock::<LowPowerClock<Enabled>>();
    assert_eq!(wkt.wkt.ctrl, 0b0101);
    wkt.start(750_000);
    assert_eq!(wkt.wkt.count, 750_000);
    assert_eq!(wkt.wkt.ctrl, 0b0001);
    assert_eq!(wkt.wait(), Err(WouldBlock));
    wkt.wkt.ctrl = 0b0011;
    assert_eq!(wkt.wait(), Ok(()));
    // restarting resets the alarm flag
    wkt.start(10);
    assert_eq!(wkt.wkt.ctrl, 0b0001);
    assert_eq!(wkt.wait(), Err(WouldBlock));
    wkt.start(750_000);
    let wkt: WKT<Disabled> = wkt.disable(&mut syscon);
    assert_eq!(syscon.sysahbclkctrl, 0);
    assert_eq!(wkt.free().count, 750_000);
}

#[test]
fn internal_oscillator_selection_clears_clksel() {
    assert_eq!(wkt::lpc82x::select_internal_oscillator(0xf), 0xe);
    assert_eq!(wkt::lpc845::select_internal_oscillator(0x1), 0x0);
}

#[test]
fn pmu_power_modes_write_pcon() {
    let parts = PMU::new(pac::PMU { pcon: 0x0000_0903, dpdctrl: 0 }).split();
    let mut handle = parts.handle;
    assert!(handle.enter_deep_sleep_mode());
    assert_eq!(handle.pmu.pcon, 0x901);
    assert!(handle.enter_power_down_mode());
    assert_eq!(handle.pmu.pcon, 0x902);
    assert!(!handle.enter_sleep_mode());
    assert_eq!(handle.pmu.pcon, 0x900);
}

#[test]
fn low_power_clock_switches_lposcen() {
    let parts = PMU::new(pac::PMU { pcon: 0, dpdctrl: 0x3 }).split();
    let mut handle = parts.handle;
    let clock = parts.low_power_clock.enable(&mut handle);
    assert_eq!(handle.pmu.dpdctrl, 0x7);
    assert_eq!(clock.hz(), 10_000);
    let _clock = clock.disable(&mut handle);
    assert_eq!(handle.pmu.dpdctrl, 0x3);
    assert_eq!(PMU::new(pac::PMU { pcon: 1, dpdctrl: 2 }).free().dpdctrl, 2);
}

#[test]
fn pin_interrupt_selects_pin_and_switches_edges() {
    let mut syscon = SYSCON::new(raw_syscon()).split().handle;
    let pinint = PININT::new(pac::PINT { ienr: 0, ienf: 0, rise: 0b10_0001, fall: 0b10_0000 });
    let mut pinint = pinint.enable(&mut syscon);
    assert_eq!(syscon.sysahbclkctrl, 1 << 6);
    let pins = pins::Pins::new();
    let mut int5 = pinint.interrupts.pinint5.select::<pins::PIO0_17>(&pins.pio0_17.ty, &mut syscon);
    assert_eq!(syscon.pintsel[5], 17);
    let mut int0 = pinint.interrupts.pinint0.select::<pins::PIO0_4>(&pins.pio0_4.ty, &mut syscon);
    assert_eq!(syscon.pintsel, [4, 0, 0, 0, 0, 17, 0, 0]);
    int5.enable_rising_edge(&mut pinint.pinint);
    int0.enable_falling_edge(&mut pinint.pinint);
    assert_eq!((pinint.pinint.ienr, pinint.pinint.ienf), (1 << 5, 1));
    assert!(int5.clear_rising_edge_flag(&mut pinint.pinint));
    assert!(!int5.clear_rising_edge_flag(&mut pinint.pinint));
    assert_eq!(pinint.pinint.rise, 1);
    assert!(!int0.clear_falling_edge_flag(&mut pinint.pinint));
    assert!(int5.clear_falling_edge_flag(&mut pinint.pinint));
    assert_eq!(pinint.pinint.fall, 0);
    int5.disable_rising_edge(&mut pinint.pinint);
    int0.disable_falling_edge(&mut pinint.pinint);
    assert_eq!((pinint.pinint.ienr, pinint.pinint.ienf), (0, 0));
    let _: (PININT0, PININT5) = (PININT0, PININT5);
    assert_eq!(pinint.pinint.rise, 1);
}

#[test]
fn gpio_pins_program_direction_and_level() {
    // PIO0_1 starts out as an output driving high
    let mut gpio = GPIO::new(pac::GPIO { dir: [1 << 1, 0], set: [1 << 1, 0] });
    let pins = pins::Pins::new();
    let _input = pins.pio0_1.into_input_pin(gpio.tokens.pio0_1, &mut gpio.gpio);
    assert_eq!(gpio.gpio.dir, [0, 0]);
    assert_eq!(gpio.gpio.set, [1 << 1, 0]);
    let output = pins.pio0_12.into_output_pin(gpio.tokens.pio0_12, Level::High, &mut gpio.gpio);
    assert!(output.direction.level == Level::High);
    assert_eq!(gpio.gpio.dir, [1 << 12, 0]);
    assert_eq!(gpio.gpio.set, [(1 << 1) | (1 << 12), 0]);
    let dynamic = pins.pio0_13.into_dynamic_pin(
        gpio.tokens.pio0_13,
        Level::Low,
        DynamicPinDirection::Output,
        &mut gpio.gpio,
    );
    assert!(dynamic.direction.level == Level::Low);
    assert_eq!(dynamic.direction.direction, DynamicPinDirection::Output);
    assert_eq!(gpio.gpio.dir, [(1 << 12) | (1 << 13), 0]);
    assert_eq!(gpio.gpio.set, [(1 << 1) | (1 << 12), 0]);
    let low = pins.pio0_14.into_output_pin(gpio.tokens.pio0_14, Level::Low, &mut gpio.gpio);
    assert!(low.direction.level == Level::Low);
    gpio.gpio.dir[0] |= 1 << 15;
    let dynamic_in = pins.pio0_15.into_dynamic_pin(
        gpio.tokens.pio0_15,
        Level::High,
        DynamicPinDirection::Input,
        &mut gpio.gpio,
    );
    assert_eq!(dynamic_in.direction.direction, DynamicPinDirection::Input);
    assert_eq!(gpio.gpio.dir, [(1 << 12) | (1 << 13) | (1 << 14), 0]);
    assert_eq!(gpio.gpio.set, [(1 << 1) | (1 << 12), 0]);
}

#[test]
fn sleep_of_zero_ticks_is_over_at_once() {
    let mut syscon = SYSCON::new(raw_syscon()).split().handle;
    let mut wkt = WKT::new(pac::WKT { ctrl: 0b0010, count: 7 }).enable(&mut syscon);
    assert_eq!(sleep::start_busy_sleep(&mut wkt, 0), SleepAction::Done);
    assert_eq!(sleep::start_regular_sleep::<LowPowerClock<Enabled>>(&mut wkt, 0), SleepAction::Done);
    assert_eq!((wkt.wkt.ctrl, wkt.wkt.count), (0b0010, 7));
}

#[test]
fn busy_sleep_runs_the_timer_until_the_alarm() {
    let mut syscon = SYSCON::new(raw_syscon()).split().handle;
    let mut wkt = WKT::new(pac::WKT { ctrl: 0b0011, count: 0 }).enable(&mut syscon);
    assert_eq!(sleep::start_busy_sleep(&mut wkt, 100), SleepAction::WaitForAlarm);
    assert_eq!((wkt.wkt.ctrl, wkt.wkt.count), (0b0001, 100));
    assert_eq!(sleep::sleep_step(&mut wkt), SleepAction::WaitForAlarm);
    wkt.wkt.ctrl |= 0b0010;
    assert_eq!(sleep::sleep_step(&mut wkt), SleepAction::Done);
}

#[test]
fn regular_sleep_selects_the_clock() {
    let mut syscon = SYSCON::new(raw_syscon()).split().handle;
    let mut wkt = WKT::new(pac::WKT { ctrl: 0b1000, count: 0 }).enable(&mut syscon);
    assert_eq!(
        sleep::start_regular_sleep::<LowPowerClock<Enabled>>(&mut wkt, 10_000),
        SleepAction::WaitForAlarm
    );
    assert_eq!((wkt.wkt.ctrl, wkt.wkt.count), (0b0001, 10_000));
    assert_eq!(
        sleep::start_regular_sleep::<IoscDerivedClock<Enabled>>(&mut wkt, 5),
        SleepAction::WaitForAlarm
    );
    assert_eq!((wkt.wkt.ctrl, wkt.wkt.count), (0b0000, 5));
}
