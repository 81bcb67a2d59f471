//! APIs for the switch matrix (SWM)
//!
//! The entry point to this API is [`SWM`]. Please refer to [`SWM`]'s
//! documentation for additional information.
//!
//! The switch matrix is described in the user manual, chapter 7.

mod assignment;
mod fixed_functions;
mod function_kind;
mod functions;
mod handle;
mod movable_functions;
mod movable_layout;
mod peripheral;
pub mod state;

pub use self::{
    assignment::{AssignFunction, UnassignFunction},
    fixed_functions::{FixedFunctions, ACMP_I1, ACMP_I2, ACMP_I3, ACMP_I4, SWCLK, SWDIO, XTALIN, XTALOUT, RESETN, CLKIN, VDDCMP, I2C0_SDA, I2C0_SCL, ADC_0, ADC_1, ADC_2, ADC_3, ADC_4, ADC_5, ADC_6, ADC_7, ADC_8, ADC_9, ADC_10, ADC_11},
    function_kind::{Analog, FunctionKind, Input, Output},
    functions::{lemma_function_assign_then_unassign, Function, FunctionTrait},
    handle::{
        field_of, field_shift, lemma_fixed_assign_then_unassign, lemma_movable_assign_then_unassign,
        lemma_pinenable_roundtrip, lemma_with_field, lemma_with_field_overwrite,
        pinassign_written, pinenable_written, with_field, Handle,
    },
    movable_functions::{pin_number, MovableFunctions, UNASSIGNED, U0_TXD, U0_RXD, U0_RTS, U0_CTS, U0_SCLK, U1_TXD, U1_RXD, U1_RTS, U1_CTS, U1_SCLK, U2_TXD, U2_RXD, U2_RTS, U2_CTS, U2_SCLK, SPI0_SCK, SPI0_MOSI, SPI0_MISO, SPI0_SSEL0, SPI0_SSEL1, SPI0_SSEL2, SPI0_SSEL3, SPI1_SCK, SPI1_MOSI, SPI1_MISO, SPI1_SSEL0, SPI1_SSEL1, SCT_PIN0, SCT_PIN1, SCT_PIN2, SCT_PIN3, SCT_OUT0, SCT_OUT1, SCT_OUT2, SCT_OUT3, SCT_OUT4, SCT_OUT5, I2C1_SDA, I2C1_SCL, I2C2_SDA, I2C2_SCL, I2C3_SDA, I2C3_SCL, ADC_PINTRIG0, ADC_PINTRIG1, ACMP_O, CLKOUT, GPIO_INT_BMAT},
    movable_layout::{
        lemma_movable_assignment_touches_own_field, lemma_movable_slots_distinct, movable_slot, MovableFunction,
        MovableFunctionId,
    },
    peripheral::{Parts, SWM},
};
