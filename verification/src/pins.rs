//! API to control pins
//!
//! The most important part of this API is [`Pin`]. Please refer to its
//! documentation, to learn how to use this module.

mod gen;
mod pin;
pub mod state;
mod traits;

pub use self::{
    gen::{Pins, Token, Tokens, PIO0_0, PIO0_1, PIO0_2, PIO0_3, PIO0_4, PIO0_5, PIO0_6, PIO0_7, PIO0_8, PIO0_9, PIO0_10, PIO0_11, PIO0_12, PIO0_13, PIO0_14, PIO0_15, PIO0_16, PIO0_17, PIO0_18, PIO0_19, PIO0_20, PIO0_21, PIO0_22, PIO0_23, PIO0_24, PIO0_25, PIO0_26, PIO0_27, PIO0_28},
    pin::{DynamicPinDirection, HasPin, Pin},
    state::State,
    traits::Trait,
};
