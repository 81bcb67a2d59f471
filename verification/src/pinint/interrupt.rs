use core::marker::PhantomData;

use vstd::prelude::*;

use super::traits::Trait;

use crate::{init_state::Enabled, pac, pins, syscon};

verus! {

/// The PINTSEL value that selects a pin: 32 times its port, plus its number
pub open spec fn pin_select_value(port: usize, id: u8) -> u32 {
    (32 * port + id) as u32
}

/// API for controlling pin interrupts
pub struct Interrupt<I, P, State> {
    /// The interrupt
    pub interrupt: PhantomData<I>,
    /// The selected pin
    pub _pin: PhantomData<P>,
    /// Whether the PININT peripheral is enabled
    pub state: PhantomData<State>,
}

impl<I, P, State> Interrupt<I, P, State> {
    /// Create the interrupt
    pub(crate) fn new() -> Self {
        Self { interrupt: PhantomData, _pin: PhantomData, state: PhantomData }
    }
}

impl<I, OldPin, State> Interrupt<I, OldPin, State> where I: Trait {
    /// Select a pin as the source of this interrupt
    ///
    /// Writes the pin's number into this interrupt's PINTSEL register.
    ///
    /// Please be aware that this method allows you to do things that might or
    /// might not be valid things to do:
    ///
    /// - You can select any pin, regardless of its current state.
    /// - You can select the same pin for multiple interrupts.
    ///
    /// Please also be aware that the interrupt handler for various pin
    /// interrupts is reused for other purposes.
    pub fn select<P: pins::Trait>(self, interrupt_pin: &P, syscon: &mut syscon::Handle) -> (i:
        Interrupt<I, P, State>)
        ensures
            final(syscon).pintsel@ == old(syscon).pintsel@.update(
                I::index() as int,
                pin_select_value(interrupt_pin.spec_port(), interrupt_pin.spec_id()),
            ),
            final(syscon).pdruncfg == old(syscon).pdruncfg,
            final(syscon).presetctrl0 == old(syscon).presetctrl0,
            final(syscon).starterp1 == old(syscon).starterp1,
            final(syscon).sysahbclkctrl == old(syscon).sysahbclkctrl,
            final(syscon).fclksel == old(syscon).fclksel,
    {
        let index = I::index_value();
        let value: u32 = 32 * (interrupt_pin.port() as u32) + (interrupt_pin.id() as u32);
        syscon.pintsel[index] = value;

        Interrupt { interrupt: self.interrupt, _pin: PhantomData, state: self.state }
    }
}

impl<I, P> Interrupt<I, P, Enabled> where I: Trait, P: pins::Trait {
    /// Returns whether a rising edge has been detected and clears the flag
    ///
    /// `pint` holds the PINT registers, with RISE as last read from the
    /// device. This method will work regardless of whether rising edge
    /// interrupts have been enabled or not.
    ///
    /// You must call this handle while handling a rising edge interrupt.
    /// Otherwise, the interrupt will be fired again immediately, after the
    /// interrupt handler exits.
    pub fn clear_rising_edge_flag(&mut self, pint: &mut pac::PINT) -> (is_set: bool)
        ensures
            is_set == (old(pint).rise & (I::mask() as u32) != 0),
            final(pint).rise == old(pint).rise & !(I::mask() as u32),
            final(pint).fall == old(pint).fall,
            final(pint).ienr == old(pint).ienr,
            final(pint).ienf == old(pint).ienf,
    {
        let mask = I::mask_value() as u32;
        let is_set = pint.rise & mask != 0;
        pint.rise = pint.rise & !mask;
        is_set
    }

    /// Fire interrupt on rising edge
    pub fn enable_rising_edge(&mut self, pint: &mut pac::PINT)
        ensures
            final(pint).ienr == old(pint).ienr | (I::mask() as u32),
            final(pint).ienf == old(pint).ienf,
            final(pint).rise == old(pint).rise,
            final(pint).fall == old(pint).fall,
    {
        pint.ienr = pint.ienr | (I::mask_value() as u32);
    }

    /// Don't fire interrupt on rising edge
    pub fn disable_rising_edge(&mut self, pint: &mut pac::PINT)
        ensures
            final(pint).ienr == old(pint).ienr & !(I::mask() as u32),
            final(pint).ienf == old(pint).ienf,
            final(pint).rise == old(pint).rise,
            final(pint).fall == old(pint).fall,
    {
        pint.ienr = pint.ienr & !(I::mask_value() as u32);
    }

    /// Returns whether a falling edge has been detected and clears the flag
    ///
    /// `pint` holds the PINT registers, with FALL as last read from the
    /// device. This method will work regardless of whether falling edge
    /// interrupts have been enabled or not.
    ///
    /// You must call this handle while handling a falling edge interrupt.
    /// Otherwise, the interrupt will be fired again immediately, after the
    /// interrupt handler exits.
    pub fn clear_falling_edge_flag(&mut self, pint: &mut pac::PINT) -> (is_set: bool)
        ensures
            is_set == (old(pint).fall & (I::mask() as u32) != 0),
            final(pint).fall == old(pint).fall & !(I::mask() as u32),
            final(pint).rise == old(pint).rise,
            final(pint).ienr == old(pint).ienr,
            final(pint).ienf == old(pint).ienf,
    {
        let mask = I::mask_value() as u32;
        let is_set = pint.fall & mask != 0;
        pint.fall = pint.fall & !mask;
        is_set
    }

    /// Fire interrupt on falling edge
    pub fn enable_falling_edge(&mut self, pint: &mut pac::PINT)
        ensures
            final(pint).ienf == old(pint).ienf | (I::mask() as u32),
            final(pint).ienr == old(pint).ienr,
            final(pint).rise == old(pint).rise,
            final(pint).fall == old(pint).fall,
    {
        pint.ienf = pint.ienf | (I::mask_value() as u32);
    }

    /// Don't fire interrupt on falling edge
    pub fn disable_falling_edge(&mut self, pint: &mut pac::PINT)
        ensures
            final(pint).ienf == old(pint).ienf & !(I::mask() as u32),
            final(pint).ienr == old(pint).ienr,
            final(pint).rise == old(pint).rise,
            final(pint).fall == old(pint).fall,
    {
        pint.ienf = pint.ienf & !(I::mask_value() as u32);
    }
}

} // verus!
