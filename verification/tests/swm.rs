use lpc82x_hal::pins::Trait;
use lpc82x_hal::init_state::{Disabled, Enabled};
use lpc82x_hal::pac;
use lpc82x_hal::pins::{self, Pin};
use lpc82x_hal::swm::{self, SWM};
use lpc82x_hal::syscon::SYSCON;

fn raw_swm() -> pac::SWM0 {
    pac::SWM0 { pinassign: [0xffff_ffff; 12], pinenable0: 0x01ff_fe4f }
}

fn raw_syscon() -> pac::SYSCON {
    pac::SYSCON {
        pdruncfg: 0,
        presetctrl: 0,
        starterp1: 0,
        sysahbclkctrl: 0x1f,
        pintsel: [0; 8],
        fclksel: [7; 11],
        frg0div: 0,
        frg0mult: 0,
        frg0clksel: 0,
        frg1div: 0,
        frg1mult: 0,
        frg1clksel: 0,
        uartclkdiv: 0,
        uartfrgdiv: 0,
        uartfrgmult: 0,
    }
}

#[test]
fn movable_function_writes_the_pin_number_into_its_field() {
    let parts = SWM::<Enabled>::new(raw_swm()).split();
    let mut handle = parts.handle;
    let pins = pins::Pins::new();
    let (clkout, pio0_12) = parts.movable_functions.clkout.assign(pins.pio0_12.into_swm_pin(), &mut handle);
    // CLKOUT is field 2 of PINASSIGN11
    assert_eq!(handle.swm.pinassign[11], 0xff0c_ffff);
    assert_eq!(handle.swm.pinenable0, 0x01ff_fe4f);
    let (_clkout, pio0_12) = clkout.unassign(pio0_12, &mut handle);
    assert_eq!(handle.swm.pinassign[11], 0xffff_ffff);
    let _pin: Pin<pins::PIO0_12, pins::state::Unused> = pio0_12.into_unused_pin();
}

#[test]
fn several_input_functions_and_one_output_function_share_a_pin() {
    let parts = SWM::<Enabled>::new(raw_swm()).split();
    let mut handle = parts.handle;
    let pins = pins::Pins::new();
    let m = parts.movable_functions;
    let (u0_txd, pio0_0) = m.u0_txd.assign(pins.pio0_0.into_swm_pin(), &mut handle);
    let (u1_rxd, pio0_0) = m.u1_rxd.assign(pio0_0, &mut handle);
    let (u2_rxd, pio0_0) = m.u2_rxd.assign(pio0_0, &mut handle);
    assert_eq!(handle.swm.pinassign[0], 0xffff_ff00);
    assert_eq!(handle.swm.pinassign[1], 0xff00_ffff);
    assert_eq!(handle.swm.pinassign[2], 0x00ff_ffff);
    let (_u2_rxd, pio0_0) = u2_rxd.unassign(pio0_0, &mut handle);
    let (_u1_rxd, pio0_0) = u1_rxd.unassign(pio0_0, &mut handle);
    let (_u0_txd, pio0_0) = u0_txd.unassign(pio0_0, &mut handle);
    assert_eq!(handle.swm.pinassign, [0xffff_ffff; 12]);
    let _pin: Pin<pins::PIO0_0, pins::state::Unused> = pio0_0.into_unused_pin();
}

#[test]
fn fixed_function_clears_and_sets_its_pinenable_bit() {
    let parts = SWM::<Enabled>::new(raw_swm()).split();
    let mut handle = parts.handle;
    let pins = pins::Pins::new();
    let (adc_2, pio0_14) = parts.fixed_functions.adc_2.assign(pins.pio0_14.into_swm_pin(), &mut handle);
    assert_eq!(handle.swm.pinenable0, 0x01ff_fe4f & !(1 << 15));
    let _: &Pin<pins::PIO0_14, pins::state::Analog> = &pio0_14;
    let (xtalin, pio0_8) = parts.fixed_functions.xtalin.assign(pins.pio0_8.into_swm_pin(), &mut handle);
    assert_eq!(handle.swm.pinenable0, 0x01ff_fe4f & !(1 << 15) & !(1 << 6));
    let (_xtalin, _pio0_8) = xtalin.unassign(pio0_8, &mut handle);
    assert_eq!(handle.swm.pinenable0, 0x01ff_fe4f & !(1 << 15));
    let _ = adc_2;
}

#[test]
fn swclk_starts_assigned_and_can_be_released() {
    let parts = SWM::<Enabled>::new(raw_swm()).split();
    let mut handle = parts.handle;
    let pins = pins::Pins::new();
    let (_swclk, pio0_3) = parts.fixed_functions.swclk.unassign(pins.pio0_3, &mut handle);
    assert_eq!(handle.swm.pinenable0, 0x01ff_fe4f | (1 << 4));
    let _pin: Pin<pins::PIO0_3, pins::state::Unused> = pio0_3.into_unused_pin();
}

#[test]
fn handle_enable_and_disable_switch_the_swm_clock() {
    let mut syscon = SYSCON::new(raw_syscon()).split().handle;
    let handle: swm::Handle<Disabled> = SWM::<Disabled>::new(raw_swm()).split().handle;
    let handle = handle.enable(&mut syscon);
    assert_eq!(syscon.sysahbclkctrl, 0x1f | (1 << 7));
    let _handle: swm::Handle<Disabled> = handle.disable(&mut syscon);
    assert_eq!(syscon.sysahbclkctrl, 0x1f);
}

#[test]
fn swm_free_returns_the_raw_peripheral() {
    let raw = SWM::<Enabled>::new(raw_swm()).free();
    assert_eq!(raw.pinenable0, 0x01ff_fe4f);
}

#[test]
fn pin_traits_describe_the_pin() {
    let pins = pins::Pins::new();
    assert_eq!(pins.pio0_17.ty.id(), 17);
    assert_eq!(pins.pio0_17.ty.port(), 0);
    assert_eq!(pins.pio0_17.ty.mask(), 1 << 17);
}
