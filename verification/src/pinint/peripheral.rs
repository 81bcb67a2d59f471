use core::marker::PhantomData;

use vstd::prelude::*;

use crate::{init_state::{Disabled, Enabled}, pac, syscon};

use super::gen::Interrupts;

verus! {

/// Entry point to the PININT API
pub struct PININT<State> {
    /// Provides access to the pin interrupts
    pub interrupts: Interrupts<State>,
    /// The raw peripheral
    pub pinint: pac::PINT,
    /// Whether the peripheral is enabled
    pub _state: PhantomData<State>,
}

impl PININT<Disabled> {
    /// Wrap the raw peripheral
    pub fn new(pinint: pac::PINT) -> (p: Self)
        ensures
            p.pinint == pinint,
    {
        Self { interrupts: Interrupts::new(), pinint, _state: PhantomData }
    }

    /// Enable the PININT peripheral
    ///
    /// Enables the clock of the pin interrupt registers.
    pub fn enable(self, syscon: &mut syscon::Handle) -> (p: PININT<Enabled>)
        ensures
            p.pinint == self.pinint,
            final(syscon).sysahbclkctrl == old(syscon).sysahbclkctrl | 0x40u32,
            final(syscon).pdruncfg == old(syscon).pdruncfg,
            final(syscon).presetctrl0 == old(syscon).presetctrl0,
            final(syscon).starterp1 == old(syscon).starterp1,
            final(syscon).pintsel == old(syscon).pintsel,
            final(syscon).fclksel == old(syscon).fclksel,
    {
        syscon.enable_clock(&self.pinint);
        PININT { interrupts: Interrupts::new(), pinint: self.pinint, _state: PhantomData }
    }
}

impl<State> PININT<State> {
    /// Return the raw peripheral
    ///
    /// This method serves as an escape hatch from the HAL API. It returns the
    /// raw peripheral, allowing you to do whatever you want with it, without
    /// limitations imposed by the API.
    pub fn free(self) -> (pinint: pac::PINT)
        ensures
            pinint == self.pinint,
    {
        self.pinint
    }
}

} // verus!
