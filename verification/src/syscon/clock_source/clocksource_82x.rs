use core::marker::PhantomData;

use vstd::prelude::*;

use crate::i2c;

verus! {

impl i2c::Clock<()> {
    /// Create the clock config for the i2c peripheral
    ///
    /// mstclhigh & mstcllow have to be between 2-9; they are stored as the
    /// number of clocks minus 2, as the MSTTIME register expects.
    pub fn new(divval: u16, mstsclhigh: u8, mstscllow: u8) -> (clock: Self)
        requires
            1 < mstsclhigh < 10,
            1 < mstscllow < 10,
        ensures
            clock.divval == divval,
            clock.mstsclhigh == mstsclhigh - 2,
            clock.mstscllow == mstscllow - 2,
    {
        Self { divval, mstsclhigh: mstsclhigh - 2, mstscllow: mstscllow - 2, _clock: PhantomData }
    }

    /// Create a new i2c clock config for 400 kHz
    ///
    /// Assumes the internal oscillator runs at 12 MHz
    pub fn new_400khz() -> (clock: Self)
        ensures
            clock.divval == 5,
            clock.mstsclhigh == 0,
            clock.mstscllow == 1,
    {
        Self { divval: 5, mstsclhigh: 0, mstscllow: 1, _clock: PhantomData }
    }
}

} // verus!
