//! Clock configuration for the peripherals

mod clocksource_82x;

use vstd::prelude::*;

use crate::{pac, syscon};

verus! {

/// Whether `after` is `before` with the clock source selection `sel` applied
/// to FCLKSEL register `n`: the register holds `v` if `sel` is `Some(v)`, and
/// nothing changes if it is `None`
pub open spec fn clock_selected(
    before: syscon::Handle,
    after: syscon::Handle,
    n: usize,
    sel: Option<u32>,
) -> bool {
    &&& after.fclksel@ == match sel {
        Some(v) => before.fclksel@.update(n as int, v),
        None => before.fclksel@,
    }
    &&& after.pdruncfg == before.pdruncfg
    &&& after.presetctrl0 == before.presetctrl0
    &&& after.starterp1 == before.starterp1
    &&& after.sysahbclkctrl == before.sysahbclkctrl
    &&& after.pintsel == before.pintsel
}

/// Internal trait used configure peripheral clock sources
///
/// Selecting a clock writes the source's FCLKSEL value (LPC845) into the
/// register that belongs to the peripheral.
pub trait PeripheralClock {
    /// The value of FCLKSEL.SEL that selects this clock source
    spec fn clock_sel() -> u32;

    /// The value of FCLKSEL.SEL that selects this clock source
    fn clock_value() -> (v: u32)
        ensures
            v == Self::clock_sel(),
    ;

    /// Select the clock
    ///
    /// The `selector` argument should not be required to implement this trait,
    /// but it makes sure that the caller has access to the peripheral they are
    /// selecting the clock for.
    fn select<S: PeripheralClockSelector>(selector: &S, handle: &mut syscon::Handle)
        requires
            S::register_num() < 11,
        ensures
            clock_selected(*old(handle), *final(handle), S::register_num(), Some(Self::clock_sel())),
    {
        let n = S::register_index();
        handle.fclksel[n] = Self::clock_value();
    }
}

impl PeripheralClock for syscon::IOSC {
    open spec fn clock_sel() -> u32 {
        0
    }

    fn clock_value() -> u32 {
        0
    }
}

/// Internal trait used for defining the fclksel index for a peripheral
pub trait PeripheralClockSelector {
    /// The index of the FCLKSEL register
    spec fn register_num() -> usize;

    /// The index of the FCLKSEL register
    fn register_index() -> (n: usize)
        ensures
            n == Self::register_num(),
    ;
}

/// A struct containing the clock configuration for the ADC peripheral
pub struct AdcClock {
    /// Divider during calibration
    pub caldiv: u8,
    /// Divider during normal operation
    pub div: u8,
}

impl AdcClock {
    /// Create the clock config for the ADC peripheral
    ///
    /// The system clock is divided by `caldiv` during calibration or `div`
    /// during normal operation. During calibration the frequency of the ADC
    /// peripheral has to be 500 kHz and during normal operation it can't be
    /// higher than 30 MHz. Both depend on the system clock frequency, which
    /// this API does not track, so choosing the dividers accordingly is up to
    /// the caller.
    pub fn new(caldiv: u8, div: u8) -> (clock: Self)
        ensures
            clock.caldiv == caldiv,
            clock.div == div,
    {
        Self { caldiv, div }
    }

    /// Create a new ADC clock config with the maximum sample rate
    ///
    /// Assumes the internal oscillator runs at 12 MHz
    pub fn new_default() -> (clock: Self)
        ensures
            clock.caldiv == 24,
            clock.div == 0,
    {
        Self { caldiv: 24, div: 0 }
    }
}

} // verus!
