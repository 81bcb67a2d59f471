use core::marker::PhantomData;

use vstd::prelude::*;

use crate::syscon::{
    self,
    clock_source::{clock_selected, PeripheralClock, PeripheralClockSelector},
    frg,
};

use super::private;

verus! {

/// A struct containing the clock configuration for a peripheral
pub struct Clock<Clock> {
    /// Value for the DIV register
    pub divval: u16,
    /// The clock source
    pub _clock: PhantomData<Clock>,
}

impl<C> Clock<C> where C: ClockSource {
    /// Create the clock config for the SPI peripheral
    pub fn new(_clock: &C, divval: u16) -> (clock: Self)
        ensures
            clock.divval == divval,
    {
        Self { divval, _clock: PhantomData }
    }
}

/// Implemented for SPI clock sources
pub trait ClockSource: private::Sealed {
    /// The FCLKSEL value that selecting this source writes, if it writes one
    spec fn selection() -> Option<u32>;

    /// Select the clock source
    ///
    /// This method is used by the SPI API internally. It should not be relevant
    /// to most users.
    ///
    /// The `selector` argument should not be required to implement this trait,
    /// but it makes sure that the caller has access to the peripheral they are
    /// selecting the clock for.
    fn select<S: PeripheralClockSelector>(selector: &S, handle: &mut syscon::Handle)
        requires
            S::register_num() < 11,
        ensures
            clock_selected(*old(handle), *final(handle), S::register_num(), Self::selection()),
    ;
}

impl private::Sealed for () {}

impl ClockSource for () {
    open spec fn selection() -> Option<u32> {
        None
    }

    fn select<S: PeripheralClockSelector>(_selector: &S, _handle: &mut syscon::Handle) {
        // nothing to do; `()` represents the clock that is selected by
        // default
    }
}

impl private::Sealed for syscon::IOSC {}

impl ClockSource for syscon::IOSC {
    open spec fn selection() -> Option<u32> {
        Some(<syscon::IOSC as PeripheralClock>::clock_sel())
    }

    fn select<S: PeripheralClockSelector>(selector: &S, handle: &mut syscon::Handle) {
        <syscon::IOSC as PeripheralClock>::select(selector, handle);
    }
}

impl<I: frg::Instance> private::Sealed for syscon::FRG<I> {}

impl<I: frg::Instance> ClockSource for syscon::FRG<I> {
    open spec fn selection() -> Option<u32> {
        Some(I::fclksel())
    }

    fn select<S: PeripheralClockSelector>(selector: &S, handle: &mut syscon::Handle) {
        <syscon::FRG<I> as PeripheralClock>::select(selector, handle);
    }
}

} // verus!
