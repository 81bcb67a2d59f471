//! The fractional generator (FRG), available on LPC845

use core::marker::PhantomData;

use vstd::prelude::*;

use super::clock_source::PeripheralClock;

verus! {

/// Clock sources of a fractional generator (FRGCLKSEL.SEL)
#[derive(PartialEq, Eq, Structural, Clone, Copy)]
pub enum FrgClockSource {
    /// The FRO
    Fro,
    /// The main clock
    MainClk,
    /// The system PLL output
    SysPllClk,
    /// No clock
    NoClock,
}

/// The FRGCLKSEL value that selects a clock source
pub open spec fn frg_clock_sel(clock: FrgClockSource) -> u32 {
    match clock {
        FrgClockSource::Fro => 0,
        FrgClockSource::MainClk => 1,
        FrgClockSource::SysPllClk => 2,
        FrgClockSource::NoClock => 3,
    }
}

/// Fractional generator
///
/// Can be used as a clock source for serial peripherals.
pub struct FRG<I: Instance> {
    /// Divider register (FRGnDIV)
    pub div: u32,
    /// Multiplier register (FRGnMULT)
    pub mult: u32,
    /// Clock select register (FRGnCLKSEL)
    pub clksel: u32,
    /// The generator instance
    pub _instance: PhantomData<I>,
}

impl<I> FRG<I> where I: Instance {
    /// Create the generator from its register values
    pub(crate) fn new(div: u32, mult: u32, clksel: u32) -> (frg: Self)
        ensures
            frg.div == div,
            frg.mult == mult,
            frg.clksel == clksel,
    {
        Self { div, mult, clksel, _instance: PhantomData }
    }

    /// Select clock source for FRG
    pub fn select_clock(&mut self, clock: FrgClockSource)
        ensures
            final(self).clksel == frg_clock_sel(clock),
            final(self).div == old(self).div,
            final(self).mult == old(self).mult,
    {
        self.clksel = match clock {
            FrgClockSource::Fro => 0,
            FrgClockSource::MainClk => 1,
            FrgClockSource::SysPllClk => 2,
            FrgClockSource::NoClock => 3,
        };
    }

    /// Set the fractional generator divider value
    pub fn set_div(&mut self, div: u8)
        ensures
            final(self).div == div as u32,
            final(self).mult == old(self).mult,
            final(self).clksel == old(self).clksel,
    {
        // All `u8` values are valid.
        self.div = div as u32;
    }

    /// Set the fractional generator multiplier value
    pub fn set_mult(&mut self, mult: u8)
        ensures
            final(self).mult == mult as u32,
            final(self).div == old(self).div,
            final(self).clksel == old(self).clksel,
    {
        // All `u8` values are valid.
        self.mult = mult as u32;
    }
}

/// Internal implementation detail
///
/// This trait should neither be used nor implemented by the user.
pub trait Instance {
    /// The FCLKSEL value that selects this generator's output
    spec fn fclksel() -> u32;

    /// The FCLKSEL value that selects this generator's output
    fn fclksel_value() -> (v: u32)
        ensures
            v == Self::fclksel(),
    ;
}

/// Represents fractional generator 0
pub struct FRG0;

impl Instance for FRG0 {
    open spec fn fclksel() -> u32 {
        2
    }

    fn fclksel_value() -> u32 {
        2
    }
}

/// Represents fractional generator 1
pub struct FRG1;

impl Instance for FRG1 {
    open spec fn fclksel() -> u32 {
        3
    }

    fn fclksel_value() -> u32 {
        3
    }
}

impl<I: Instance> PeripheralClock for FRG<I> {
    open spec fn clock_sel() -> u32 {
        I::fclksel()
    }

    fn clock_value() -> u32 {
        I::fclksel_value()
    }
}

} // verus!
