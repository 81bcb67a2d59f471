//! API for the self-wake-up timer (WKT)
//!
//! The entry point to this API is [`WKT`].
//!
//! The WKT peripheral is described in the user manual, chapter 9.

pub mod lpc82x;
pub mod lpc845;

use vstd::prelude::*;

use crate::{init_state, nonblocking::WouldBlock, pac, pmu::LowPowerClock, syscon::{self, IoscDerivedClock}};

verus! {

/// The CLKSEL bit of CTRL (bit 0): set selects the low-power clock
pub const CTRL_CLKSEL: u32 = 0x1;

/// The ALARMFLAG bit of CTRL (bit 1)
pub const CTRL_ALARMFLAG: u32 = 0x2;

/// The CLEARCTR bit of CTRL (bit 2)
pub const CTRL_CLEARCTR: u32 = 0x4;

/// The SEL_EXTCLK bit of CTRL (bit 3): set selects the external clock input
pub const CTRL_SEL_EXTCLK: u32 = 0x8;

/// Interface to the self-wake-up timer (WKT)
///
/// Controls the WKT.
pub struct WKT<State = init_state::Enabled> {
    /// The raw peripheral
    pub wkt: pac::WKT,
    /// Whether the WKT is enabled
    pub _state: State,
}

impl WKT<init_state::Disabled> {
    /// Wrap the raw peripheral
    pub fn new(wkt: pac::WKT) -> (w: Self)
        ensures
            w.wkt == wkt,
    {
        WKT { wkt, _state: init_state::Disabled }
    }

    /// Enable the WKT
    ///
    /// This method is only available, if `WKT` is in the [`Disabled`] state.
    /// Code that attempts to call this method when the peripheral is already
    /// enabled will not compile.
    ///
    /// [`Disabled`]: ../init_state/struct.Disabled.html
    pub fn enable(self, syscon: &mut syscon::Handle) -> (w: WKT<init_state::Enabled>)
        ensures
            w.wkt == self.wkt,
            final(syscon).sysahbclkctrl == old(syscon).sysahbclkctrl | 0x200u32,
            final(syscon).pdruncfg == old(syscon).pdruncfg,
            final(syscon).presetctrl0 == old(syscon).presetctrl0,
            final(syscon).starterp1 == old(syscon).starterp1,
            final(syscon).pintsel == old(syscon).pintsel,
            final(syscon).fclksel == old(syscon).fclksel,
    {
        syscon.enable_clock(&self.wkt);
        WKT { wkt: self.wkt, _state: init_state::Enabled(()) }
    }
}

impl WKT<init_state::Enabled> {
    /// Disable the WKT
    ///
    /// This method is only available, if `WKT` is in the [`Enabled`] state.
    /// Code that attempts to call this method when the peripheral is already
    /// disabled will not compile.
    ///
    /// [`Enabled`]: ../init_state/struct.Enabled.html
    pub fn disable(self, syscon: &mut syscon::Handle) -> (w: WKT<init_state::Disabled>)
        ensures
            w.wkt == self.wkt,
            final(syscon).sysahbclkctrl == old(syscon).sysahbclkctrl & !0x200u32,
            final(syscon).pdruncfg == old(syscon).pdruncfg,
            final(syscon).presetctrl0 == old(syscon).presetctrl0,
            final(syscon).starterp1 == old(syscon).starterp1,
            final(syscon).pintsel == old(syscon).pintsel,
            final(syscon).fclksel == old(syscon).fclksel,
    {
        syscon.disable_clock(&self.wkt);
        WKT { wkt: self.wkt, _state: init_state::Disabled }
    }

    /// Select the clock that runs the self-wake-up timer
    ///
    /// This method is only available if the WKT is enabled. Code attempting to
    /// call this method when this is not the case will not compile.
    ///
    /// All clocks that can run the WKT implement a common trait. Please refer
    /// to [`Clock`] for a list of clocks that can be passed to this method.
    /// Selecting an external clock via the WKTCLKIN pin is currently not
    /// supported.
    ///
    /// # Limitations
    ///
    /// Currently, nothing prevents the user from selecting a clock that is
    /// disabled, attempting to start the timer while the clock is disabled, or
    /// disabling the clock while the timer is running.
    pub fn select_clock<C: Clock>(&mut self)
        ensures
            final(self).wkt.ctrl == C::selected(old(self).wkt.ctrl),
            final(self).wkt.count == old(self).wkt.count,
    {
        self.wkt.ctrl = C::select(self.wkt.ctrl);
    }

    /// Start the timer with the given number of ticks
    ///
    /// Writes CTRL with its CLEARCTR bit written as 0, then loads the counter.
    /// Loading the counter resets the alarm flag, so CTRL holds it cleared
    /// afterwards.
    pub fn start(&mut self, timeout: u32)
        ensures
            final(self).wkt.ctrl == old(self).wkt.ctrl & !CTRL_CLEARCTR & !CTRL_ALARMFLAG,
            final(self).wkt.count == timeout,
    {
        self.wkt.ctrl = self.wkt.ctrl & !CTRL_CLEARCTR;
        self.wkt.count = timeout;
        self.wkt.ctrl = self.wkt.ctrl & !CTRL_ALARMFLAG;
    }

    /// Wait for the timer to run out
    ///
    /// Completes once the alarm flag is set in CTRL, as last read from the
    /// device.
    pub fn wait(&mut self) -> (result: Result<(), WouldBlock>)
        ensures
            result == if old(self).wkt.ctrl & CTRL_ALARMFLAG != 0 {
                Ok::<(), WouldBlock>(())
            } else {
                Err(WouldBlock)
            },
            *final(self) == *old(self),
    {
        if self.wkt.ctrl & CTRL_ALARMFLAG != 0 {
            return Ok(());
        }
        Err(WouldBlock)
    }
}

impl<State> WKT<State> {
    /// Return the raw peripheral
    ///
    /// This method serves as an escape hatch from the HAL API. It returns the
    /// raw peripheral, allowing you to do whatever you want with it, without
    /// limitations imposed by the API.
    pub fn free(self) -> (wkt: pac::WKT)
        ensures
            wkt == self.wkt,
    {
        self.wkt
    }
}

/// A clock that is usable by the self-wake-up timer (WKT)
///
/// This trait is implemented for all clocks that are supported by the WKT. The
/// user shouldn't need to implement this trait themselves.
pub trait Clock {
    /// The CTRL value after selecting this clock, given the previous one
    spec fn selected(w: u32) -> u32;

    /// Internal method to select the clock as the clock source for the WKT
    ///
    /// This is an internal method, to be called by the WKT API.
    fn select(w: u32) -> (r: u32)
        ensures
            r == Self::selected(w),
    ;
}

impl<State> Clock for IoscDerivedClock<State> {
    /// The internal clock source (SEL_EXTCLK cleared), and of the two internal
    /// sources the divided IRC (CLKSEL cleared)
    open spec fn selected(w: u32) -> u32 {
        (w & !CTRL_SEL_EXTCLK) & !CTRL_CLKSEL
    }

    fn select(w: u32) -> u32 {
        lpc82x::select_internal_oscillator(w & !CTRL_SEL_EXTCLK)
    }
}

impl<State> Clock for LowPowerClock<State> {
    /// The internal clock source (SEL_EXTCLK cleared), and of the two internal
    /// sources the low-power clock (CLKSEL set)
    open spec fn selected(w: u32) -> u32 {
        (w & !CTRL_SEL_EXTCLK) | CTRL_CLKSEL
    }

    fn select(w: u32) -> u32 {
        (w & !CTRL_SEL_EXTCLK) | CTRL_CLKSEL
    }
}

/// Selecting a clock decides the clock bits of CTRL alone: after selecting
/// `C2`, the result does not depend on which clock was selected before, the
/// alarm and counter-clear bits are kept, and selecting the same clock twice
/// changes nothing
pub proof fn lemma_select_clock_last_wins(w: u32)
    ensures
        LowPowerClock::<init_state::Enabled>::selected(IoscDerivedClock::<init_state::Enabled>::selected(w))
            == LowPowerClock::<init_state::Enabled>::selected(w),
        IoscDerivedClock::<init_state::Enabled>::selected(LowPowerClock::<init_state::Enabled>::selected(w))
            == IoscDerivedClock::<init_state::Enabled>::selected(w),
        IoscDerivedClock::<init_state::Enabled>::selected(IoscDerivedClock::<init_state::Enabled>::selected(w))
            == IoscDerivedClock::<init_state::Enabled>::selected(w),
        LowPowerClock::<init_state::Enabled>::selected(LowPowerClock::<init_state::Enabled>::selected(w))
            == LowPowerClock::<init_state::Enabled>::selected(w),
        IoscDerivedClock::<init_state::Enabled>::selected(w) & 0x6 == w & 0x6,
        LowPowerClock::<init_state::Enabled>::selected(w) & 0x6 == w & 0x6,
{
    assert({
        &&& (((w & !8u32) & !1u32) & !8u32) | 1u32 == (w & !8u32) | 1u32
        &&& (((w & !8u32) | 1u32) & !8u32) & !1u32 == (w & !8u32) & !1u32
        &&& (((w & !8u32) & !1u32) & !8u32) & !1u32 == (w & !8u32) & !1u32
        &&& (((w & !8u32) | 1u32) & !8u32) | 1u32 == (w & !8u32) | 1u32
        &&& ((w & !8u32) & !1u32) & 6u32 == w & 6u32
        &&& ((w & !8u32) | 1u32) & 6u32 == w & 6u32
    }) by (bit_vector);
}

} // verus!
