//! API for system configuration (SYSCON)
//!
//! The entry point to this API is [`SYSCON`]. Please refer to [`SYSCON`]'s
//! documentation for additional information.
//!
//! This module mostly provides infrastructure required by other parts of the
//! HAL API. For this reason, only a small subset of SYSCON functionality is
//! currently implemented.
//!
//! The SYSCON peripheral is described in the user manual, chapter 5.

pub mod clock_source;
pub mod frg;
pub mod register_bits;

pub use self::frg::FRG;



use vstd::prelude::*;

use crate::{init_state, pac};

verus! {

/// Entry point to the SYSCON API
///
/// The SYSCON API is split into multiple parts, which are all available through
/// [`Parts`]. You can use [`SYSCON::split`] to gain access to [`Parts`].
///
/// You can also use this struct to gain access to the raw peripheral using
/// [`SYSCON::free`]. This is the main reason this struct exists, as it's no
/// longer possible to do this after the API has been split.
pub struct SYSCON {
    /// The raw peripheral
    pub syscon: pac::SYSCON,
}

impl SYSCON {
    /// Wrap the raw peripheral
    pub fn new(syscon: pac::SYSCON) -> (s: Self)
        ensures
            s.syscon == syscon,
    {
        SYSCON { syscon }
    }

    /// Splits the SYSCON API into its component parts
    ///
    /// This is the regular way to access the SYSCON API. It exists as an
    /// explicit step, as it's no longer possible to gain access to the raw
    /// peripheral using [`SYSCON::free`] after you've called this method.
    pub fn split(self) -> (parts: Parts)
        ensures
            parts.handle.pdruncfg == self.syscon.pdruncfg,
            parts.handle.presetctrl0 == self.syscon.presetctrl,
            parts.handle.starterp1 == self.syscon.starterp1,
            parts.handle.sysahbclkctrl == self.syscon.sysahbclkctrl,
            parts.handle.pintsel == self.syscon.pintsel,
            parts.handle.fclksel == self.syscon.fclksel,
            parts.uartfrg.uartclkdiv == self.syscon.uartclkdiv,
            parts.uartfrg.uartfrgdiv == self.syscon.uartfrgdiv,
            parts.uartfrg.uartfrgmult == self.syscon.uartfrgmult,
            parts.frg0.div == self.syscon.frg0div,
            parts.frg0.mult == self.syscon.frg0mult,
            parts.frg0.clksel == self.syscon.frg0clksel,
            parts.frg1.div == self.syscon.frg1div,
            parts.frg1.mult == self.syscon.frg1mult,
            parts.frg1.clksel == self.syscon.frg1clksel,
    {
        let s = self.syscon;
        Parts {
            handle: Handle {
                pdruncfg: s.pdruncfg,
                presetctrl0: s.presetctrl,
                starterp1: s.starterp1,
                sysahbclkctrl: s.sysahbclkctrl,
                pintsel: s.pintsel,
                fclksel: s.fclksel,
            },
            bod: BOD(()),
            flash: FLASH(()),
            iosc: IOSC(()),
            ioscout: IOSCOUT(()),
            mtb: MTB(()),
            ram0_1: RAM0_1(()),
            rom: ROM(()),
            sysosc: SYSOSC(()),
            syspll: SYSPLL(()),
            uartfrg: UARTFRG {
                uartclkdiv: s.uartclkdiv,
                uartfrgdiv: s.uartfrgdiv,
                uartfrgmult: s.uartfrgmult,
            },
            iosc_derived_clock: IoscDerivedClock::new(),
            frg0: FRG::new(s.frg0div, s.frg0mult, s.frg0clksel),
            frg1: FRG::new(s.frg1div, s.frg1mult, s.frg1clksel),
        }
    }

    /// Return the raw peripheral
    ///
    /// This method serves as an escape hatch from the HAL API. It returns the
    /// raw peripheral, allowing you to do whatever you want with it, without
    /// limitations imposed by the API.
    pub fn free(self) -> (syscon: pac::SYSCON)
        ensures
            syscon == self.syscon,
    {
        self.syscon
    }
}

/// The main API for the SYSCON peripheral
///
/// Provides access to all types that make up the SYSCON API. Please refer to
/// the [module documentation] for more information.
///
/// [module documentation]: index.html
pub struct Parts {
    /// The handle to the SYSCON peripheral
    pub handle: Handle,
    /// Brown-out detection
    pub bod: BOD,
    /// Flash memory
    pub flash: FLASH,
    /// IRC
    pub iosc: IOSC,
    /// IRC output
    pub ioscout: IOSCOUT,
    /// Micro Trace Buffer
    pub mtb: MTB,
    /// Random access memory
    pub ram0_1: RAM0_1,
    /// Read-only memory
    pub rom: ROM,
    /// System oscillator
    pub sysosc: SYSOSC,
    /// PLL
    pub syspll: SYSPLL,
    /// UART Fractional Baud Rate Generator
    pub uartfrg: UARTFRG,
    /// The 750 kHz internal oscillator/IRC-derived clock
    pub iosc_derived_clock: IoscDerivedClock<init_state::Enabled>,
    /// Fractional Baud Rate Generator 0 (LPC845)
    pub frg0: FRG<frg::FRG0>,
    /// Fractional Baud Rate Generator 1 (LPC845)
    pub frg1: FRG<frg::FRG1>,
}

/// Handle to the SYSCON peripheral
///
/// This handle to the SYSCON peripheral provides access to the main part of the
/// SYSCON API. It is also required by other parts of the HAL API to synchronize
/// access the the underlying registers, wherever this is required.
pub struct Handle {
    /// Power configuration register (PDRUNCFG)
    pub pdruncfg: u32,
    /// Peripheral reset control (PRESETCTRL)
    pub presetctrl0: u32,
    /// Interrupt wake-up enable register (STARTERP1)
    pub starterp1: u32,
    /// System clock control register (SYSAHBCLKCTRL)
    pub sysahbclkctrl: u32,
    /// Pin interrupt select registers (PINTSEL0..7)
    pub pintsel: [u32; 8],
    /// Peripheral clock source select registers (FCLKSEL0..10, LPC845)
    pub fclksel: [u32; 11],
}

impl Handle {
    /// Enable peripheral clock
    ///
    /// Enables the clock for a peripheral or other hardware component. HAL
    /// users usually won't have to call this method directly, as other
    /// peripheral APIs will do this for them.
    pub fn enable_clock<P: ClockControl>(&mut self, peripheral: &P)
        ensures
            final(self).sysahbclkctrl == old(self).sysahbclkctrl | peripheral.clock_mask(),
            final(self).pdruncfg == old(self).pdruncfg,
            final(self).presetctrl0 == old(self).presetctrl0,
            final(self).starterp1 == old(self).starterp1,
            final(self).pintsel == old(self).pintsel,
            final(self).fclksel == old(self).fclksel,
    {
        self.sysahbclkctrl = peripheral.enable_clock(self.sysahbclkctrl);
    }

    /// Disable peripheral clock
    pub fn disable_clock<P: ClockControl>(&mut self, peripheral: &P)
        ensures
            final(self).sysahbclkctrl == old(self).sysahbclkctrl & !peripheral.clock_mask(),
            final(self).pdruncfg == old(self).pdruncfg,
            final(self).presetctrl0 == old(self).presetctrl0,
            final(self).starterp1 == old(self).starterp1,
            final(self).pintsel == old(self).pintsel,
            final(self).fclksel == old(self).fclksel,
    {
        self.sysahbclkctrl = peripheral.disable_clock(self.sysahbclkctrl);
    }

    /// Assert peripheral reset
    pub fn assert_reset<P: ResetControl>(&mut self, peripheral: &P)
        ensures
            final(self).presetctrl0 == old(self).presetctrl0 & !peripheral.reset_mask(),
            final(self).pdruncfg == old(self).pdruncfg,
            final(self).starterp1 == old(self).starterp1,
            final(self).sysahbclkctrl == old(self).sysahbclkctrl,
            final(self).pintsel == old(self).pintsel,
            final(self).fclksel == old(self).fclksel,
    {
        self.presetctrl0 = peripheral.assert_reset(self.presetctrl0);
    }

    /// Clear peripheral reset
    ///
    /// Clears the reset for a peripheral or other hardware component. HAL users
    /// usually won't have to call this method directly, as other peripheral
    /// APIs will do this for them.
    pub fn clear_reset<P: ResetControl>(&mut self, peripheral: &P)
        ensures
            final(self).presetctrl0 == old(self).presetctrl0 | peripheral.reset_mask(),
            final(self).pdruncfg == old(self).pdruncfg,
            final(self).starterp1 == old(self).starterp1,
            final(self).sysahbclkctrl == old(self).sysahbclkctrl,
            final(self).pintsel == old(self).pintsel,
            final(self).fclksel == old(self).fclksel,
    {
        self.presetctrl0 = peripheral.clear_reset(self.presetctrl0);
    }

    /// Provide power to an analog block
    ///
    /// HAL users usually won't have to call this method themselves, as other
    /// peripheral APIs will do this for them.
    pub fn power_up<P: AnalogBlock>(&mut self, peripheral: &P)
        ensures
            final(self).pdruncfg == old(self).pdruncfg & !peripheral.power_mask(),
            final(self).presetctrl0 == old(self).presetctrl0,
            final(self).starterp1 == old(self).starterp1,
            final(self).sysahbclkctrl == old(self).sysahbclkctrl,
            final(self).pintsel == old(self).pintsel,
            final(self).fclksel == old(self).fclksel,
    {
        self.pdruncfg = peripheral.power_up(self.pdruncfg);
    }

    /// Remove power from an analog block
    pub fn power_down<P: AnalogBlock>(&mut self, peripheral: &P)
        ensures
            final(self).pdruncfg == old(self).pdruncfg | peripheral.power_mask(),
            final(self).presetctrl0 == old(self).presetctrl0,
            final(self).starterp1 == old(self).starterp1,
            final(self).sysahbclkctrl == old(self).sysahbclkctrl,
            final(self).pintsel == old(self).pintsel,
            final(self).fclksel == old(self).fclksel,
    {
        self.pdruncfg = peripheral.power_down(self.pdruncfg);
    }

    /// Enable interrupt wake-up from deep-sleep and power-down modes
    ///
    /// To use an interrupt for waking up the system from the deep-sleep and
    /// power-down modes, it needs to be enabled using this method, in addition
    /// to being enabled in the NVIC.
    ///
    /// This method is not required when using the regular sleep mode.
    pub fn enable_interrupt_wakeup<I: WakeUpInterrupt>(&mut self)
        ensures
            final(self).starterp1 == old(self).starterp1 | I::wakeup_mask(),
            final(self).pdruncfg == old(self).pdruncfg,
            final(self).presetctrl0 == old(self).presetctrl0,
            final(self).sysahbclkctrl == old(self).sysahbclkctrl,
            final(self).pintsel == old(self).pintsel,
            final(self).fclksel == old(self).fclksel,
    {
        self.starterp1 = I::enable(self.starterp1);
    }

    /// Disable interrupt wake-up from deep-sleep and power-down modes
    pub fn disable_interrupt_wakeup<I: WakeUpInterrupt>(&mut self)
        ensures
            final(self).starterp1 == old(self).starterp1 & !I::wakeup_mask(),
            final(self).pdruncfg == old(self).pdruncfg,
            final(self).presetctrl0 == old(self).presetctrl0,
            final(self).sysahbclkctrl == old(self).sysahbclkctrl,
            final(self).pintsel == old(self).pintsel,
            final(self).fclksel == old(self).fclksel,
    {
        self.starterp1 = I::disable(self.starterp1);
    }
}

/// Brown-out detection
pub struct BOD(pub(crate) ());

/// Flash memory
pub struct FLASH(pub(crate) ());

/// IRC
pub struct IOSC(pub(crate) ());

/// IRC output
pub struct IOSCOUT(pub(crate) ());

/// Micro Trace Buffer
pub struct MTB(pub(crate) ());

/// Random access memory
#[allow(non_camel_case_types)]
pub struct RAM0_1(pub(crate) ());

/// Read-only memory
pub struct ROM(pub(crate) ());

/// System oscillator
pub struct SYSOSC(pub(crate) ());

/// PLL
pub struct SYSPLL(pub(crate) ());

/// UART Fractional Baud Rate Generator
///
/// Controls the common clock for all UART peripherals (U_PCLK).
pub struct UARTFRG {
    /// USART clock divider (UARTCLKDIV)
    pub uartclkdiv: u32,
    /// USART fractional generator divider value (UARTFRGDIV)
    pub uartfrgdiv: u32,
    /// USART fractional generator multiplier value (UARTFRGMULT)
    pub uartfrgmult: u32,
}

impl UARTFRG {
    /// Set UART clock divider value (UARTCLKDIV)
    ///
    /// See user manual, section 5.6.15.
    pub fn set_clkdiv(&mut self, value: u8)
        ensures
            final(self).uartclkdiv == value as u32,
            final(self).uartfrgdiv == old(self).uartfrgdiv,
            final(self).uartfrgmult == old(self).uartfrgmult,
    {
        self.uartclkdiv = value as u32;
    }

    /// Set UART fractional generator multiplier value (UARTFRGMULT)
    ///
    /// See user manual, section 5.6.20.
    pub fn set_frgmult(&mut self, value: u8)
        ensures
            final(self).uartfrgmult == value as u32,
            final(self).uartclkdiv == old(self).uartclkdiv,
            final(self).uartfrgdiv == old(self).uartfrgdiv,
    {
        self.uartfrgmult = value as u32;
    }

    /// Set UART fractional generator divider value (UARTFRGDIV)
    ///
    /// See user manual, section 5.6.19.
    pub fn set_frgdiv(&mut self, value: u8)
        ensures
            final(self).uartfrgdiv == value as u32,
            final(self).uartclkdiv == old(self).uartclkdiv,
            final(self).uartfrgmult == old(self).uartfrgmult,
    {
        self.uartfrgdiv = value as u32;
    }
}

/// Setting and clearing a peripheral's bit in a SYSCON register (as
/// `enable_clock`/`disable_clock`, `clear_reset`/`assert_reset`,
/// `power_down`/`power_up` and the wake-up methods do) is decided by the last
/// operation: set after clear gives the bit set, clear after set gives it
/// cleared, repeating an operation changes nothing, and the bits outside the
/// mask keep their values throughout
pub proof fn lemma_set_clear_last_wins(w: u32, mask: u32)
    ensures
        ((w | mask) & !mask) == w & !mask,
        ((w & !mask) | mask) == w | mask,
        ((w | mask) | mask) == w | mask,
        ((w & !mask) & !mask) == w & !mask,
        (w | mask) & !mask == w & !mask,
        (w & !mask) & !mask == w & !mask,
        (w | mask) & mask == mask,
        (w & !mask) & mask == 0,
{
    assert({
        &&& ((w | mask) & !mask) == w & !mask
        &&& ((w & !mask) | mask) == w | mask
        &&& ((w | mask) | mask) == w | mask
        &&& ((w & !mask) & !mask) == w & !mask
        &&& (w | mask) & mask == mask
        &&& (w & !mask) & mask == 0
    }) by (bit_vector);
}

/// Switching one peripheral's bit leaves the bit of every other peripheral
/// as it was: operations on peripherals with disjoint masks commute
pub proof fn lemma_disjoint_bits_independent(w: u32, mask: u32, other: u32)
    requires
        mask & other == 0,
    ensures
        (w | mask) & other == w & other,
        (w & !mask) & other == w & other,
        ((w | mask) | other) == ((w | other) | mask),
        ((w & !mask) | other) == ((w | other) & !mask),
        ((w & !mask) & !other) == ((w & !other) & !mask),
{
    assert({
        &&& (w | mask) & other == w & other
        &&& (w & !mask) & other == w & other
        &&& ((w | mask) | other) == ((w | other) | mask)
        &&& ((w & !mask) | other) == ((w | other) & !mask)
        &&& ((w & !mask) & !other) == ((w & !other) & !mask)
    }) by (bit_vector)
        requires
            mask & other == 0,
    ;
}

/// Internal trait for controlling peripheral clocks
///
/// Each implementor names its bit in SYSAHBCLKCTRL. Please refer to
/// [`Handle::enable_clock`] and [`Handle::disable_clock`] for the public API
/// that uses this trait.
pub trait ClockControl {
    /// The peripheral's bit in SYSAHBCLKCTRL
    spec fn clock_mask(&self) -> u32;

    /// The peripheral's bit in SYSAHBCLKCTRL
    fn clock_bit(&self) -> (mask: u32)
        ensures
            mask == self.clock_mask(),
    ;

    /// Internal method to enable a peripheral clock
    fn enable_clock(&self, w: u32) -> (r: u32)
        ensures
            r == w | self.clock_mask(),
    {
        w | self.clock_bit()
    }

    /// Internal method to disable a peripheral clock
    fn disable_clock(&self, w: u32) -> (r: u32)
        ensures
            r == w & !self.clock_mask(),
    {
        w & !self.clock_bit()
    }
}

/// Internal trait for controlling peripheral reset
///
/// Each implementor names its bit in PRESETCTRL. A cleared bit holds the
/// peripheral in reset. Please refer to [`Handle::assert_reset`] and
/// [`Handle::clear_reset`] for the public API that uses this trait.
pub trait ResetControl {
    /// The peripheral's bit in PRESETCTRL
    spec fn reset_mask(&self) -> u32;

    /// The peripheral's bit in PRESETCTRL
    fn reset_bit(&self) -> (mask: u32)
        ensures
            mask == self.reset_mask(),
    ;

    /// Internal method to assert peripheral reset
    fn assert_reset(&self, w: u32) -> (r: u32)
        ensures
            r == w & !self.reset_mask(),
    {
        w & !self.reset_bit()
    }

    /// Internal method to clear peripheral reset
    fn clear_reset(&self, w: u32) -> (r: u32)
        ensures
            r == w | self.reset_mask(),
    {
        w | self.reset_bit()
    }
}

/// Internal trait for powering analog blocks
///
/// Each implementor names its bit in PDRUNCFG. A set bit powers the block
/// down. Please refer to [`Handle::power_up`] and [`Handle::power_down`] for
/// the public API that uses this trait.
pub trait AnalogBlock {
    /// The block's bit in PDRUNCFG
    spec fn power_mask(&self) -> u32;

    /// The block's bit in PDRUNCFG
    fn power_bit(&self) -> (mask: u32)
        ensures
            mask == self.power_mask(),
    ;

    /// Internal method to power up an analog block
    fn power_up(&self, w: u32) -> (r: u32)
        ensures
            r == w & !self.power_mask(),
    {
        w & !self.power_bit()
    }

    /// Internal method to power down an analog block
    fn power_down(&self, w: u32) -> (r: u32)
        ensures
            r == w | self.power_mask(),
    {
        w | self.power_bit()
    }
}

/// The 750 kHz IRC-derived clock
///
/// This is one of the clocks that can be used to run the self-wake-up timer
/// (WKT). See user manual, section 18.5.1.
pub struct IoscDerivedClock<State = init_state::Enabled> {
    pub _state: State,
}

impl IoscDerivedClock<init_state::Enabled> {
    /// Create the clock; it runs after reset
    pub(crate) fn new() -> Self {
        Self { _state: init_state::Enabled(()) }
    }
}

impl IoscDerivedClock<init_state::Disabled> {
    /// Enable the IRC-derived clock
    ///
    /// This method is only available, if `IoscDerivedClock` is in the
    /// [`Disabled`] state. Code that attempts to call this method when the
    /// clock is already enabled will not compile.
    ///
    /// Also consumes the handles to [`IOSC`] and [`IOSCOUT`], to make it
    /// impossible to break API guarantees.
    ///
    /// [`Disabled`]: ../init_state/struct.Disabled.html
    pub fn enable(
        self,
        syscon: &mut Handle,
        iosc: IOSC,
        ioscout: IOSCOUT,
    ) -> (clock: IoscDerivedClock<init_state::Enabled>)
        ensures
            final(syscon).pdruncfg == old(syscon).pdruncfg & !0x3u32,
            final(syscon).presetctrl0 == old(syscon).presetctrl0,
            final(syscon).starterp1 == old(syscon).starterp1,
            final(syscon).sysahbclkctrl == old(syscon).sysahbclkctrl,
            final(syscon).pintsel == old(syscon).pintsel,
            final(syscon).fclksel == old(syscon).fclksel,
    {
        let ghost w = syscon.pdruncfg;
        syscon.power_up(&iosc);
        syscon.power_up(&ioscout);
        assert((w & !0x2u32) & !0x1u32 == w & !0x3u32) by (bit_vector);
        IoscDerivedClock { _state: init_state::Enabled(()) }
    }
}

impl<State> IoscDerivedClock<State> {
    /// The clock's frequency in Hz
    pub fn hz(&self) -> (hz: u32)
        ensures
            hz == 750_000,
    {
        750_000
    }
}

/// Internal trait used to configure interrupt wake-up
///
/// Each implementor names its bit in STARTERP1. Please refer to
/// [`Handle::enable_interrupt_wakeup`] and
/// [`Handle::disable_interrupt_wakeup`] for the public API that uses this
/// trait.
pub trait WakeUpInterrupt {
    /// The interrupt's bit in STARTERP1
    spec fn wakeup_mask() -> u32;

    /// The interrupt's bit in STARTERP1
    fn wakeup_bit() -> (mask: u32)
        ensures
            mask == Self::wakeup_mask(),
    ;

    /// Internal method to configure interrupt wakeup behavior
    fn enable(w: u32) -> (r: u32)
        ensures
            r == w | Self::wakeup_mask(),
    {
        w | Self::wakeup_bit()
    }

    /// Internal method to configure interrupt wakeup behavior
    fn disable(w: u32) -> (r: u32)
        ensures
            r == w & !Self::wakeup_mask(),
    {
        w & !Self::wakeup_bit()
    }
}

impl ClockControl for ROM {
    open spec fn clock_mask(&self) -> u32 {
        0x2
    }

    fn clock_bit(&self) -> u32 {
        0x2
    }
}

impl ClockControl for RAM0_1 {
    open spec fn clock_mask(&self) -> u32 {
        0x4
    }

    fn clock_bit(&self) -> u32 {
        0x4
    }
}

impl ClockControl for pac::FLASH_CTRL {
    /// The flash controller switches the flash clock, bit 4, as FLASH does
    open spec fn clock_mask(&self) -> u32 {
        0x10
    }

    fn clock_bit(&self) -> u32 {
        0x10
    }
}

impl ClockControl for FLASH {
    open spec fn clock_mask(&self) -> u32 {
        0x10
    }

    fn clock_bit(&self) -> u32 {
        0x10
    }
}

impl ClockControl for pac::I2C0 {
    open spec fn clock_mask(&self) -> u32 {
        0x20
    }

    fn clock_bit(&self) -> u32 {
        0x20
    }
}

impl ClockControl for pac::GPIO {
    open spec fn clock_mask(&self) -> u32 {
        0x40
    }

    fn clock_bit(&self) -> u32 {
        0x40
    }
}

impl ClockControl for pac::SWM0 {
    open spec fn clock_mask(&self) -> u32 {
        0x80
    }

    fn clock_bit(&self) -> u32 {
        0x80
    }
}

impl ClockControl for pac::SCT0 {
    open spec fn clock_mask(&self) -> u32 {
        0x100
    }

    fn clock_bit(&self) -> u32 {
        0x100
    }
}

impl ClockControl for pac::WKT {
    open spec fn clock_mask(&self) -> u32 {
        0x200
    }

    fn clock_bit(&self) -> u32 {
        0x200
    }
}

impl ClockControl for pac::MRT0 {
    open spec fn clock_mask(&self) -> u32 {
        0x400
    }

    fn clock_bit(&self) -> u32 {
        0x400
    }
}

impl ClockControl for pac::SPI0 {
    open spec fn clock_mask(&self) -> u32 {
        0x800
    }

    fn clock_bit(&self) -> u32 {
        0x800
    }
}

impl ClockControl for pac::SPI1 {
    open spec fn clock_mask(&self) -> u32 {
        0x1000
    }

    fn clock_bit(&self) -> u32 {
        0x1000
    }
}

impl ClockControl for pac::CRC {
    open spec fn clock_mask(&self) -> u32 {
        0x2000
    }

    fn clock_bit(&self) -> u32 {
        0x2000
    }
}

impl ClockControl for pac::USART0 {
    open spec fn clock_mask(&self) -> u32 {
        0x4000
    }

    fn clock_bit(&self) -> u32 {
        0x4000
    }
}

impl ClockControl for pac::USART1 {
    open spec fn clock_mask(&self) -> u32 {
        0x8000
    }

    fn clock_bit(&self) -> u32 {
        0x8000
    }
}

impl ClockControl for pac::USART2 {
    open spec fn clock_mask(&self) -> u32 {
        0x10000
    }

    fn clock_bit(&self) -> u32 {
        0x10000
    }
}

impl ClockControl for pac::WWDT {
    open spec fn clock_mask(&self) -> u32 {
        0x20000
    }

    fn clock_bit(&self) -> u32 {
        0x20000
    }
}

impl ClockControl for pac::IOCON {
    open spec fn clock_mask(&self) -> u32 {
        0x40000
    }

    fn clock_bit(&self) -> u32 {
        0x40000
    }
}

impl ClockControl for pac::ACOMP {
    open spec fn clock_mask(&self) -> u32 {
        0x80000
    }

    fn clock_bit(&self) -> u32 {
        0x80000
    }
}

impl ClockControl for pac::I2C1 {
    open spec fn clock_mask(&self) -> u32 {
        0x200000
    }

    fn clock_bit(&self) -> u32 {
        0x200000
    }
}

impl ClockControl for pac::I2C2 {
    open spec fn clock_mask(&self) -> u32 {
        0x400000
    }

    fn clock_bit(&self) -> u32 {
        0x400000
    }
}

impl ClockControl for pac::I2C3 {
    open spec fn clock_mask(&self) -> u32 {
        0x800000
    }

    fn clock_bit(&self) -> u32 {
        0x800000
    }
}

impl ClockControl for pac::ADC0 {
    open spec fn clock_mask(&self) -> u32 {
        0x1000000
    }

    fn clock_bit(&self) -> u32 {
        0x1000000
    }
}

impl ClockControl for MTB {
    open spec fn clock_mask(&self) -> u32 {
        0x4000000
    }

    fn clock_bit(&self) -> u32 {
        0x4000000
    }
}

impl ClockControl for pac::DMA0 {
    open spec fn clock_mask(&self) -> u32 {
        0x20000000
    }

    fn clock_bit(&self) -> u32 {
        0x20000000
    }
}

impl ClockControl for pac::PINT {
    open spec fn clock_mask(&self) -> u32 {
        0x40
    }

    fn clock_bit(&self) -> u32 {
        0x40
    }
}

impl ResetControl for pac::SPI0 {
    open spec fn reset_mask(&self) -> u32 {
        0x1
    }

    fn reset_bit(&self) -> u32 {
        0x1
    }
}

impl ResetControl for pac::SPI1 {
    open spec fn reset_mask(&self) -> u32 {
        0x2
    }

    fn reset_bit(&self) -> u32 {
        0x2
    }
}

impl ResetControl for UARTFRG {
    open spec fn reset_mask(&self) -> u32 {
        0x4
    }

    fn reset_bit(&self) -> u32 {
        0x4
    }
}

impl ResetControl for pac::USART0 {
    open spec fn reset_mask(&self) -> u32 {
        0x8
    }

    fn reset_bit(&self) -> u32 {
        0x8
    }
}

impl ResetControl for pac::USART1 {
    open spec fn reset_mask(&self) -> u32 {
        0x10
    }

    fn reset_bit(&self) -> u32 {
        0x10
    }
}

impl ResetControl for pac::USART2 {
    open spec fn reset_mask(&self) -> u32 {
        0x20
    }

    fn reset_bit(&self) -> u32 {
        0x20
    }
}

impl ResetControl for pac::I2C0 {
    open spec fn reset_mask(&self) -> u32 {
        0x40
    }

    fn reset_bit(&self) -> u32 {
        0x40
    }
}

impl ResetControl for pac::MRT0 {
    open spec fn reset_mask(&self) -> u32 {
        0x80
    }

    fn reset_bit(&self) -> u32 {
        0x80
    }
}

impl ResetControl for pac::SCT0 {
    open spec fn reset_mask(&self) -> u32 {
        0x100
    }

    fn reset_bit(&self) -> u32 {
        0x100
    }
}

impl ResetControl for pac::WKT {
    open spec fn reset_mask(&self) -> u32 {
        0x200
    }

    fn reset_bit(&self) -> u32 {
        0x200
    }
}

impl ResetControl for pac::GPIO {
    open spec fn reset_mask(&self) -> u32 {
        0x400
    }

    fn reset_bit(&self) -> u32 {
        0x400
    }
}

impl ResetControl for pac::FLASH_CTRL {
    open spec fn reset_mask(&self) -> u32 {
        0x800
    }

    fn reset_bit(&self) -> u32 {
        0x800
    }
}

impl ResetControl for pac::ACOMP {
    open spec fn reset_mask(&self) -> u32 {
        0x1000
    }

    fn reset_bit(&self) -> u32 {
        0x1000
    }
}

impl ResetControl for pac::I2C1 {
    open spec fn reset_mask(&self) -> u32 {
        0x4000
    }

    fn reset_bit(&self) -> u32 {
        0x4000
    }
}

impl ResetControl for pac::I2C2 {
    open spec fn reset_mask(&self) -> u32 {
        0x8000
    }

    fn reset_bit(&self) -> u32 {
        0x8000
    }
}

impl ResetControl for pac::I2C3 {
    open spec fn reset_mask(&self) -> u32 {
        0x10000
    }

    fn reset_bit(&self) -> u32 {
        0x10000
    }
}

impl ResetControl for pac::ADC0 {
    open spec fn reset_mask(&self) -> u32 {
        0x1000000
    }

    fn reset_bit(&self) -> u32 {
        0x1000000
    }
}

impl ResetControl for pac::DMA0 {
    open spec fn reset_mask(&self) -> u32 {
        0x20000000
    }

    fn reset_bit(&self) -> u32 {
        0x20000000
    }
}

impl AnalogBlock for IOSCOUT {
    open spec fn power_mask(&self) -> u32 {
        0x1
    }

    fn power_bit(&self) -> u32 {
        0x1
    }
}

impl AnalogBlock for IOSC {
    open spec fn power_mask(&self) -> u32 {
        0x2
    }

    fn power_bit(&self) -> u32 {
        0x2
    }
}

impl AnalogBlock for FLASH {
    open spec fn power_mask(&self) -> u32 {
        0x4
    }

    fn power_bit(&self) -> u32 {
        0x4
    }
}

impl AnalogBlock for BOD {
    open spec fn power_mask(&self) -> u32 {
        0x8
    }

    fn power_bit(&self) -> u32 {
        0x8
    }
}

impl AnalogBlock for pac::ADC0 {
    open spec fn power_mask(&self) -> u32 {
        0x10
    }

    fn power_bit(&self) -> u32 {
        0x10
    }
}

impl AnalogBlock for SYSOSC {
    open spec fn power_mask(&self) -> u32 {
        0x20
    }

    fn power_bit(&self) -> u32 {
        0x20
    }
}

impl AnalogBlock for pac::WWDT {
    open spec fn power_mask(&self) -> u32 {
        0x40
    }

    fn power_bit(&self) -> u32 {
        0x40
    }
}

impl AnalogBlock for SYSPLL {
    open spec fn power_mask(&self) -> u32 {
        0x80
    }

    fn power_bit(&self) -> u32 {
        0x80
    }
}

impl AnalogBlock for pac::ACOMP {
    open spec fn power_mask(&self) -> u32 {
        0x8000
    }

    fn power_bit(&self) -> u32 {
        0x8000
    }
}

/// Can be used to enable/disable interrupt wake-up behavior
///
/// See [`Handle::enable_interrupt_wakeup`] and
/// [`Handle::disable_interrupt_wakeup`].
pub struct Spi0Wakeup;

impl WakeUpInterrupt for Spi0Wakeup {
    open spec fn wakeup_mask() -> u32 {
        0x1
    }

    fn wakeup_bit() -> u32 {
        0x1
    }
}

/// Can be used to enable/disable interrupt wake-up behavior
///
/// See [`Handle::enable_interrupt_wakeup`] and
/// [`Handle::disable_interrupt_wakeup`].
pub struct Spi1Wakeup;

impl WakeUpInterrupt for Spi1Wakeup {
    open spec fn wakeup_mask() -> u32 {
        0x2
    }

    fn wakeup_bit() -> u32 {
        0x2
    }
}

/// Can be used to enable/disable interrupt wake-up behavior
///
/// See [`Handle::enable_interrupt_wakeup`] and
/// [`Handle::disable_interrupt_wakeup`].
pub struct Usart0Wakeup;

impl WakeUpInterrupt for Usart0Wakeup {
    open spec fn wakeup_mask() -> u32 {
        0x8
    }

    fn wakeup_bit() -> u32 {
        0x8
    }
}

/// Can be used to enable/disable interrupt wake-up behavior
///
/// See [`Handle::enable_interrupt_wakeup`] and
/// [`Handle::disable_interrupt_wakeup`].
pub struct Usart1Wakeup;

impl WakeUpInterrupt for Usart1Wakeup {
    open spec fn wakeup_mask() -> u32 {
        0x10
    }

    fn wakeup_bit() -> u32 {
        0x10
    }
}

/// Can be used to enable/disable interrupt wake-up behavior
///
/// See [`Handle::enable_interrupt_wakeup`] and
/// [`Handle::disable_interrupt_wakeup`].
pub struct Usart2Wakeup;

impl WakeUpInterrupt for Usart2Wakeup {
    open spec fn wakeup_mask() -> u32 {
        0x20
    }

    fn wakeup_bit() -> u32 {
        0x20
    }
}

/// Can be used to enable/disable interrupt wake-up behavior
///
/// See [`Handle::enable_interrupt_wakeup`] and
/// [`Handle::disable_interrupt_wakeup`].
pub struct I2c1Wakeup;

impl WakeUpInterrupt for I2c1Wakeup {
    open spec fn wakeup_mask() -> u32 {
        0x80
    }

    fn wakeup_bit() -> u32 {
        0x80
    }
}

/// Can be used to enable/disable interrupt wake-up behavior
///
/// See [`Handle::enable_interrupt_wakeup`] and
/// [`Handle::disable_interrupt_wakeup`].
pub struct I2c0Wakeup;

impl WakeUpInterrupt for I2c0Wakeup {
    open spec fn wakeup_mask() -> u32 {
        0x100
    }

    fn wakeup_bit() -> u32 {
        0x100
    }
}

/// Can be used to enable/disable interrupt wake-up behavior
///
/// See [`Handle::enable_interrupt_wakeup`] and
/// [`Handle::disable_interrupt_wakeup`].
pub struct WwdtWakeup;

impl WakeUpInterrupt for WwdtWakeup {
    open spec fn wakeup_mask() -> u32 {
        0x1000
    }

    fn wakeup_bit() -> u32 {
        0x1000
    }
}

/// Can be used to enable/disable interrupt wake-up behavior
///
/// See [`Handle::enable_interrupt_wakeup`] and
/// [`Handle::disable_interrupt_wakeup`].
pub struct BodWakeup;

impl WakeUpInterrupt for BodWakeup {
    open spec fn wakeup_mask() -> u32 {
        0x2000
    }

    fn wakeup_bit() -> u32 {
        0x2000
    }
}

/// Can be used to enable/disable interrupt wake-up behavior
///
/// See [`Handle::enable_interrupt_wakeup`] and
/// [`Handle::disable_interrupt_wakeup`].
pub struct WktWakeup;

impl WakeUpInterrupt for WktWakeup {
    open spec fn wakeup_mask() -> u32 {
        0x8000
    }

    fn wakeup_bit() -> u32 {
        0x8000
    }
}

/// Can be used to enable/disable interrupt wake-up behavior
///
/// See [`Handle::enable_interrupt_wakeup`] and
/// [`Handle::disable_interrupt_wakeup`].
pub struct I2c2Wakeup;

impl WakeUpInterrupt for I2c2Wakeup {
    open spec fn wakeup_mask() -> u32 {
        0x200000
    }

    fn wakeup_bit() -> u32 {
        0x200000
    }
}

/// Can be used to enable/disable interrupt wake-up behavior
///
/// See [`Handle::enable_interrupt_wakeup`] and
/// [`Handle::disable_interrupt_wakeup`].
pub struct I2c3Wakeup;

impl WakeUpInterrupt for I2c3Wakeup {
    open spec fn wakeup_mask() -> u32 {
        0x400000
    }

    fn wakeup_bit() -> u32 {
        0x400000
    }
}

} // verus!
