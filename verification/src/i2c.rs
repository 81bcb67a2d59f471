//! Clock configuration for the I2C peripherals
//!
//! The I2C bus API itself is not part of this crate; its clock configuration
//! is, as it belongs to the peripheral clock setup.

use core::marker::PhantomData;

use vstd::prelude::*;

verus! {

/// A struct containing the clock configuration for an I2C peripheral
pub struct Clock<Clock> {
    /// Value for the CLKDIV register
    pub divval: u16,
    /// Value for the MSTSCLHIGH field of MSTTIME
    pub mstsclhigh: u8,
    /// Value for the MSTSCLLOW field of MSTTIME
    pub mstscllow: u8,
    /// The clock source
    pub _clock: PhantomData<Clock>,
}

} // verus!
