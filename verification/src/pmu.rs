//! API for the Power Management Unit (PMU)
//!
//! The entry point to this API is [`PMU`]. Please refer to [`PMU`]'s
//! documentation for additional information.
//!
//! The PMU is described in the user manual, chapter 6.

use vstd::prelude::*;

use crate::{init_state, pac};

verus! {

/// The power mode field of PCON (bits 2:0)
pub const PCON_PM_MASK: u32 = 0x7;

/// PCON.PM value for active or sleep mode
pub const PM_DEFAULT: u32 = 0;

/// PCON.PM value for deep-sleep mode
pub const PM_DEEP_SLEEP: u32 = 1;

/// PCON.PM value for power-down mode
pub const PM_POWER_DOWN: u32 = 2;

/// The LPOSCEN bit of DPDCTRL, which enables the low-power oscillator
pub const DPDCTRL_LPOSCEN: u32 = 0x4;

/// Entry point to the PMU API
///
/// The PMU API is split into multiple parts, which are all available through
/// [`Parts`]. You can use [`PMU::split`] to gain access to [`Parts`].
///
/// You can also use this struct to gain access to the raw peripheral using
/// [`PMU::free`]. This is the main reason this struct exists, as it's no longer
/// possible to do this after the API has been split.
pub struct PMU {
    /// The raw peripheral
    pub pmu: pac::PMU,
}

impl PMU {
    /// Wrap the raw peripheral
    pub fn new(pmu: pac::PMU) -> (p: Self)
        ensures
            p.pmu == pmu,
    {
        PMU { pmu }
    }

    /// Splits the PMU API into its component parts
    ///
    /// This is the regular way to access the PMU API. It exists as an explicit
    /// step, as it's no longer possible to gain access to the raw peripheral
    /// using [`PMU::free`] after you've called this method.
    pub fn split(self) -> (parts: Parts)
        ensures
            parts.handle.pmu == self.pmu,
    {
        Parts { handle: Handle { pmu: self.pmu }, low_power_clock: LowPowerClock::new() }
    }

    /// Return the raw peripheral
    ///
    /// This method serves as an escape hatch from the HAL API. It returns the
    /// raw peripheral, allowing you to do whatever you want with it, without
    /// limitations imposed by the API.
    pub fn free(self) -> (pmu: pac::PMU)
        ensures
            pmu == self.pmu,
    {
        self.pmu
    }
}

/// The main API for the PMU peripheral
///
/// Provides access to all types that make up the PMU API. Please refer to the
/// [module documentation] for more information.
///
/// [module documentation]: index.html
pub struct Parts {
    /// The handle to the PMU peripheral
    pub handle: Handle,
    /// The 10 kHz low-power clock
    pub low_power_clock: LowPowerClock<init_state::Disabled>,
}

/// Handle to the PMU peripheral
///
/// This handle to the PMU peripheral provides access to the main part of the
/// PMU API. It is also required by other parts of the API to synchronize access
/// the the underlying registers, wherever this is required.
pub struct Handle {
    /// The raw peripheral
    pub pmu: pac::PMU,
}

impl Handle {
    /// Sets the power mode field of PCON
    fn set_power_mode(&mut self, pm: u32)
        requires
            pm <= 7,
        ensures
            final(self).pmu.pcon == (old(self).pmu.pcon & !PCON_PM_MASK) | pm,
            final(self).pmu.dpdctrl == old(self).pmu.dpdctrl,
    {
        self.pmu.pcon = (self.pmu.pcon & !PCON_PM_MASK) | pm;
    }

    /// Prepare sleep mode
    ///
    /// Selects the default power mode in PCON, in which a WFI instruction
    /// enters sleep mode. Returns the value that the SLEEPDEEP bit of the
    /// system control block must have for that, which is `false` (user manual,
    /// section 6.7.4.2). The microcontroller will wake up from sleep mode, if
    /// an NVIC-enabled interrupt occurs.
    pub fn enter_sleep_mode(&mut self) -> (sleepdeep: bool)
        ensures
            final(self).pmu.pcon == (old(self).pmu.pcon & !PCON_PM_MASK) | PM_DEFAULT,
            final(self).pmu.dpdctrl == old(self).pmu.dpdctrl,
            !sleepdeep,
    {
        self.set_power_mode(PM_DEFAULT);
        false
    }

    /// Prepare deep-sleep mode
    ///
    /// Selects deep-sleep mode in PCON and returns the value that the SLEEPDEEP
    /// bit of the system control block must have, which is `true` (user
    /// manual, section 6.7.5.2).
    ///
    /// The configuration of various peripherals after wake-up is controlled by
    /// the PDAWAKECFG register, which must match the peripheral states as
    /// tracked by the API before the WFI instruction is executed.
    pub fn enter_deep_sleep_mode(&mut self) -> (sleepdeep: bool)
        ensures
            final(self).pmu.pcon == (old(self).pmu.pcon & !PCON_PM_MASK) | PM_DEEP_SLEEP,
            final(self).pmu.dpdctrl == old(self).pmu.dpdctrl,
            sleepdeep,
    {
        self.set_power_mode(PM_DEEP_SLEEP);
        true
    }

    /// Prepare power-down mode
    ///
    /// Selects power-down mode in PCON and returns the value that the
    /// SLEEPDEEP bit of the system control block must have, which is `true`.
    ///
    /// The configuration of various peripherals after wake-up is controlled by
    /// the PDAWAKECFG register, which must match the peripheral states as
    /// tracked by the API before the WFI instruction is executed.
    pub fn enter_power_down_mode(&mut self) -> (sleepdeep: bool)
        ensures
            final(self).pmu.pcon == (old(self).pmu.pcon & !PCON_PM_MASK) | PM_POWER_DOWN,
            final(self).pmu.dpdctrl == old(self).pmu.dpdctrl,
            sleepdeep,
    {
        self.set_power_mode(PM_POWER_DOWN);
        true
    }
}

/// The 10 kHz low-power clock
///
/// This is one of the clocks that can be used to run the self-wake-up timer
/// (WKT). See user manual, section 18.5.1.
pub struct LowPowerClock<State = init_state::Enabled> {
    /// Whether the clock is enabled
    pub _state: State,
}

impl LowPowerClock<init_state::Disabled> {
    /// Create the clock; it is disabled after reset
    pub(crate) fn new() -> Self {
        LowPowerClock { _state: init_state::Disabled }
    }

    /// Enable the low-power clock
    ///
    /// This method is only available, if `LowPowerClock` is in the [`Disabled`]
    /// state. Code that attempts to call this method when the clock is already
    /// enabled will not compile.
    ///
    /// [`Disabled`]: ../init_state/struct.Disabled.html
    pub fn enable(self, pmu: &mut Handle) -> (clock: LowPowerClock<init_state::Enabled>)
        ensures
            final(pmu).pmu.dpdctrl == old(pmu).pmu.dpdctrl | DPDCTRL_LPOSCEN,
            final(pmu).pmu.pcon == old(pmu).pmu.pcon,
    {
        pmu.pmu.dpdctrl = pmu.pmu.dpdctrl | DPDCTRL_LPOSCEN;
        LowPowerClock { _state: init_state::Enabled(()) }
    }
}

impl LowPowerClock<init_state::Enabled> {
    /// Disable the low-power clock
    ///
    /// This method is only available, if `LowPowerClock` is in the [`Enabled`]
    /// state. Code that attempts to call this method when the clock is already
    /// disabled will not compile.
    ///
    /// [`Enabled`]: ../init_state/struct.Enabled.html
    pub fn disable(self, pmu: &mut Handle) -> (clock: LowPowerClock<init_state::Disabled>)
        ensures
            final(pmu).pmu.dpdctrl == old(pmu).pmu.dpdctrl & !DPDCTRL_LPOSCEN,
            final(pmu).pmu.pcon == old(pmu).pmu.pcon,
    {
        pmu.pmu.dpdctrl = pmu.pmu.dpdctrl & !DPDCTRL_LPOSCEN;
        LowPowerClock { _state: init_state::Disabled }
    }
}

impl<State> LowPowerClock<State> {
    /// The clock's frequency in Hz
    pub fn hz(&self) -> (hz: u32)
        ensures
            hz == 10_000,
    {
        10_000
    }
}

/// Selecting a power mode decides the PM field of PCON alone: the last
/// selection wins, and the other bits of PCON are kept
pub proof fn lemma_power_mode_last_wins(pcon: u32, first: u32, second: u32)
    requires
        first <= 7,
        second <= 7,
    ensures
        (((pcon & !PCON_PM_MASK) | first) & !PCON_PM_MASK) | second == (pcon & !PCON_PM_MASK) | second,
        ((pcon & !PCON_PM_MASK) | second) & PCON_PM_MASK == second,
        ((pcon & !PCON_PM_MASK) | second) & !PCON_PM_MASK == pcon & !PCON_PM_MASK,
{
    assert((((pcon & !7u32) | first) & !7u32) | second == (pcon & !7u32) | second) by (bit_vector)
        requires
            first <= 7,
    ;
    assert(((pcon & !7u32) | second) & 7u32 == second) by (bit_vector)
        requires
            second <= 7,
    ;
    assert(((pcon & !7u32) | second) & !7u32 == pcon & !7u32) by (bit_vector)
        requires
            second <= 7,
    ;
}

} // verus!
