//! API for pin interrupts (PININT)
//!
//! The entry point to this API is [`PININT`].

mod gen;
mod interrupt;
mod peripheral;
mod traits;

pub use self::{
    gen::{lemma_pin_interrupt_slots, Interrupts, PININT0, PININT1, PININT2, PININT3, PININT4, PININT5, PININT6, PININT7},
    interrupt::{pin_select_value, Interrupt},
    peripheral::PININT,
    traits::Trait,
};
