//! Directions of a [`GpioPin`]
//!
//! [`GpioPin`]: ../struct.GpioPin.html

use vstd::prelude::*;

use crate::pins::DynamicPinDirection;

use super::Level;

verus! {

/// The pin is an input
pub struct Input;

/// The pin is an output that drives the given level
pub struct Output {
    /// The level that the pin drives
    pub level: Level,
}

/// The pin's direction can be switched at runtime
pub struct Dynamic {
    /// The level that the pin drives while it is an output
    pub level: Level,
    /// The pin's current direction
    pub direction: DynamicPinDirection,
}

} // verus!
