//! API for general-purpose I/O (GPIO)
//!
//! A [`Pin`] in its unused state can be turned into a [`GpioPin`]. A
//! `GpioPin` records the direction and output level that the pin is configured
//! with; the registers of the GPIO peripheral itself are not modelled.
//!
//! [`Pin`]: ../pins/struct.Pin.html

pub mod direction;

use vstd::prelude::*;

use crate::{init_state, pac, pins::{Token, Tokens}};

verus! {

/// A digital signal level
#[derive(PartialEq, Eq, Structural, Clone, Copy)]
pub enum Level {
    /// High voltage
    High,
    /// Low voltage
    Low,
}

/// Entry point to the GPIO API
pub struct GPIO {
    /// The raw peripheral
    pub gpio: pac::GPIO,
    /// The tokens that allow pins to be used for GPIO
    pub tokens: Tokens<init_state::Enabled>,
}

impl GPIO {
    /// Wrap the raw peripheral; its clock is enabled after reset
    pub fn new(gpio: pac::GPIO) -> (g: Self)
        ensures
            g.gpio == gpio,
    {
        GPIO { gpio, tokens: Tokens::new() }
    }
}

/// A pin in GPIO mode
///
/// `T` identifies the pin, `D` its direction. See [`direction`] for the
/// available directions.
pub struct GpioPin<T, D> {
    /// Proves that the GPIO peripheral is enabled
    pub token: Token<T, init_state::Enabled>,
    /// The pin's direction, with the level it drives where it is an output
    pub direction: D,
}

/// The output register value `w` after the pin with bit `mask` has been set
/// to drive `level`
pub open spec fn with_level(w: u32, mask: u32, level: Level) -> u32 {
    match level {
        Level::High => w | mask,
        Level::Low => w & !mask,
    }
}

/// The direction register value `w` after the pin with bit `mask` has been
/// made an output (`output`) or an input (`!output`)
pub open spec fn with_direction(w: u32, mask: u32, output: bool) -> u32 {
    if output {
        w | mask
    } else {
        w & !mask
    }
}

/// Sets the output bit `mask` of port `port` to drive `level`
pub(crate) fn write_level(gpio: &mut pac::GPIO, port: usize, mask: u32, level: Level)
    requires
        port < 2,
    ensures
        final(gpio).set@ == old(gpio).set@.update(port as int, with_level(old(gpio).set[port as int], mask, level)),
        final(gpio).dir == old(gpio).dir,
{
    let w = gpio.set[port];
    gpio.set[port] = match level {
        Level::High => w | mask,
        Level::Low => w & !mask,
    };
}

/// Makes the pin with bit `mask` of port `port` an output or an input
pub(crate) fn write_direction(gpio: &mut pac::GPIO, port: usize, mask: u32, output: bool)
    requires
        port < 2,
    ensures
        final(gpio).dir@ == old(gpio).dir@.update(port as int, with_direction(old(gpio).dir[port as int], mask, output)),
        final(gpio).set == old(gpio).set,
{
    let w = gpio.dir[port];
    gpio.dir[port] = if output {
        w | mask
    } else {
        w & !mask
    };
}

impl<T, D> GpioPin<T, D> {
    /// Create a GPIO pin with the given direction
    pub(crate) fn new(token: Token<T, init_state::Enabled>, direction: D) -> (pin: Self)
        ensures
            pin.token == token,
            pin.direction == direction,
    {
        GpioPin { token, direction }
    }
}

} // verus!
