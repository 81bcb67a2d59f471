//! The pin assignment table of the movable functions
//!
//! The user manual's table of the PINASSIGN registers gives each movable
//! function one 8-bit field. The laws in this file state that assigning a
//! movable function writes the pin's number into that field and into no
//! other, so that no two movable functions share a field.

use vstd::prelude::*;

use crate::{pac, pins};

use super::{
    functions::FunctionTrait,
    handle::{field_of, lemma_with_field, pinassign_written},
    movable_functions::{pin_number, UNASSIGNED},
};

verus! {

/// Names the movable functions
#[allow(non_camel_case_types)]
#[derive(PartialEq, Eq, Structural, Clone, Copy)]
pub enum MovableFunctionId {
    /// U0_TXD
    U0_TXD,
    /// U0_RXD
    U0_RXD,
    /// U0_RTS
    U0_RTS,
    /// U0_CTS
    U0_CTS,
    /// U0_SCLK
    U0_SCLK,
    /// U1_TXD
    U1_TXD,
    /// U1_RXD
    U1_RXD,
    /// U1_RTS
    U1_RTS,
    /// U1_CTS
    U1_CTS,
    /// U1_SCLK
    U1_SCLK,
    /// U2_TXD
    U2_TXD,
    /// U2_RXD
    U2_RXD,
    /// U2_RTS
    U2_RTS,
    /// U2_CTS
    U2_CTS,
    /// U2_SCLK
    U2_SCLK,
    /// SPI0_SCK
    SPI0_SCK,
    /// SPI0_MOSI
    SPI0_MOSI,
    /// SPI0_MISO
    SPI0_MISO,
    /// SPI0_SSEL0
    SPI0_SSEL0,
    /// SPI0_SSEL1
    SPI0_SSEL1,
    /// SPI0_SSEL2
    SPI0_SSEL2,
    /// SPI0_SSEL3
    SPI0_SSEL3,
    /// SPI1_SCK
    SPI1_SCK,
    /// SPI1_MOSI
    SPI1_MOSI,
    /// SPI1_MISO
    SPI1_MISO,
    /// SPI1_SSEL0
    SPI1_SSEL0,
    /// SPI1_SSEL1
    SPI1_SSEL1,
    /// SCT_PIN0
    SCT_PIN0,
    /// SCT_PIN1
    SCT_PIN1,
    /// SCT_PIN2
    SCT_PIN2,
    /// SCT_PIN3
    SCT_PIN3,
    /// SCT_OUT0
    SCT_OUT0,
    /// SCT_OUT1
    SCT_OUT1,
    /// SCT_OUT2
    SCT_OUT2,
    /// SCT_OUT3
    SCT_OUT3,
    /// SCT_OUT4
    SCT_OUT4,
    /// SCT_OUT5
    SCT_OUT5,
    /// I2C1_SDA
    I2C1_SDA,
    /// I2C1_SCL
    I2C1_SCL,
    /// I2C2_SDA
    I2C2_SDA,
    /// I2C2_SCL
    I2C2_SCL,
    /// I2C3_SDA
    I2C3_SDA,
    /// I2C3_SCL
    I2C3_SCL,
    /// ADC_PINTRIG0
    ADC_PINTRIG0,
    /// ADC_PINTRIG1
    ADC_PINTRIG1,
    /// ACMP_O
    ACMP_O,
    /// CLKOUT
    CLKOUT,
    /// GPIO_INT_BMAT
    GPIO_INT_BMAT,
}

/// The PINASSIGN register and the field in it (0 for bits 7:0, up to 3 for
/// bits 31:24) that the user manual gives a movable function
pub open spec fn movable_slot(id: MovableFunctionId) -> (int, u32) {
    match id {
        MovableFunctionId::U0_TXD => (0, 0),
        MovableFunctionId::U0_RXD => (0, 1),
        MovableFunctionId::U0_RTS => (0, 2),
        MovableFunctionId::U0_CTS => (0, 3),
        MovableFunctionId::U0_SCLK => (1, 0),
        MovableFunctionId::U1_TXD => (1, 1),
        MovableFunctionId::U1_RXD => (1, 2),
        MovableFunctionId::U1_RTS => (1, 3),
        MovableFunctionId::U1_CTS => (2, 0),
        MovableFunctionId::U1_SCLK => (2, 1),
        MovableFunctionId::U2_TXD => (2, 2),
        MovableFunctionId::U2_RXD => (2, 3),
        MovableFunctionId::U2_RTS => (3, 0),
        MovableFunctionId::U2_CTS => (3, 1),
        MovableFunctionId::U2_SCLK => (3, 2),
        MovableFunctionId::SPI0_SCK => (3, 3),
        MovableFunctionId::SPI0_MOSI => (4, 0),
        MovableFunctionId::SPI0_MISO => (4, 1),
        MovableFunctionId::SPI0_SSEL0 => (4, 2),
        MovableFunctionId::SPI0_SSEL1 => (4, 3),
        MovableFunctionId::SPI0_SSEL2 => (5, 0),
        MovableFunctionId::SPI0_SSEL3 => (5, 1),
        MovableFunctionId::SPI1_SCK => (5, 2),
        MovableFunctionId::SPI1_MOSI => (5, 3),
        MovableFunctionId::SPI1_MISO => (6, 0),
        MovableFunctionId::SPI1_SSEL0 => (6, 1),
        MovableFunctionId::SPI1_SSEL1 => (6, 2),
        MovableFunctionId::SCT_PIN0 => (6, 3),
        MovableFunctionId::SCT_PIN1 => (7, 0),
        MovableFunctionId::SCT_PIN2 => (7, 1),
        MovableFunctionId::SCT_PIN3 => (7, 2),
        MovableFunctionId::SCT_OUT0 => (7, 3),
        MovableFunctionId::SCT_OUT1 => (8, 0),
        MovableFunctionId::SCT_OUT2 => (8, 1),
        MovableFunctionId::SCT_OUT3 => (8, 2),
        MovableFunctionId::SCT_OUT4 => (8, 3),
        MovableFunctionId::SCT_OUT5 => (9, 0),
        MovableFunctionId::I2C1_SDA => (9, 1),
        MovableFunctionId::I2C1_SCL => (9, 2),
        MovableFunctionId::I2C2_SDA => (9, 3),
        MovableFunctionId::I2C2_SCL => (10, 0),
        MovableFunctionId::I2C3_SDA => (10, 1),
        MovableFunctionId::I2C3_SCL => (10, 2),
        MovableFunctionId::ADC_PINTRIG0 => (10, 3),
        MovableFunctionId::ADC_PINTRIG1 => (11, 0),
        MovableFunctionId::ACMP_O => (11, 1),
        MovableFunctionId::CLKOUT => (11, 2),
        MovableFunctionId::GPIO_INT_BMAT => (11, 3),
    }
}

/// Implemented by every movable function
pub trait MovableFunction<P: pins::Trait>: FunctionTrait<P> {
    /// Which movable function this is
    spec fn id() -> MovableFunctionId;

    /// Assigning this function writes the pin's number into the function's
    /// own field of the table, and unassigning it writes 0xff there; nothing
    /// else in the switch matrix changes
    proof fn lemma_uses_own_slot(self, pin: P, before: pac::SWM0, after: pac::SWM0)
        ensures
            self.assigned(pin, before, after) == pinassign_written(
                before,
                after,
                movable_slot(Self::id()).0,
                movable_slot(Self::id()).1,
                pin_number(pin.spec_port(), pin.spec_id()),
            ),
            self.unassigned(pin, before, after) == pinassign_written(
                before,
                after,
                movable_slot(Self::id()).0,
                movable_slot(Self::id()).1,
                UNASSIGNED,
            ),
    ;
}

/// Every field of the table lies in one of the twelve PINASSIGN registers,
/// and no two movable functions share a field
pub proof fn lemma_movable_slots_distinct(a: MovableFunctionId, b: MovableFunctionId)
    ensures
        0 <= movable_slot(a).0 < 12,
        movable_slot(a).1 < 4,
        a != b ==> movable_slot(a) != movable_slot(b),
{
}

/// Assigning a movable function `F` to a pin writes the pin's number into
/// `F`'s field, and leaves the field of every other movable function as it
/// was; unassigning writes 0xff into `F`'s field alone
pub proof fn lemma_movable_assignment_touches_own_field<P: pins::Trait, F: MovableFunction<P>>(
    function: F,
    pin: P,
    before: pac::SWM0,
    after: pac::SWM0,
    other: MovableFunctionId,
)
    requires
        function.assigned(pin, before, after) || function.unassigned(pin, before, after),
    ensures
        function.assigned(pin, before, after) ==> field_of(
            after.pinassign[movable_slot(F::id()).0],
            movable_slot(F::id()).1,
        ) == pin_number(pin.spec_port(), pin.spec_id()) as u32,
        function.unassigned(pin, before, after) ==> field_of(
            after.pinassign[movable_slot(F::id()).0],
            movable_slot(F::id()).1,
        ) == 0xff,
        other != F::id() ==> field_of(after.pinassign[movable_slot(other).0], movable_slot(other).1)
            == field_of(before.pinassign[movable_slot(other).0], movable_slot(other).1),
        after.pinenable0 == before.pinenable0,
{
    function.lemma_uses_own_slot(pin, before, after);
    lemma_movable_slots_distinct(F::id(), other);
    lemma_movable_slots_distinct(other, F::id());
    let (r, f) = movable_slot(F::id());
    let (r2, f2) = movable_slot(other);
    let g: u32 = if f == 0 { 1 } else { 0 };
    if function.assigned(pin, before, after) {
        let v = pin_number(pin.spec_port(), pin.spec_id());
        lemma_with_field(before.pinassign[r], f, v, g);
        if other != F::id() && r2 == r {
            lemma_with_field(before.pinassign[r], f, v, f2);
        }
    }
    if function.unassigned(pin, before, after) {
        lemma_with_field(before.pinassign[r], f, UNASSIGNED, g);
        if other != F::id() && r2 == r {
            lemma_with_field(before.pinassign[r], f, UNASSIGNED, f2);
        }
    }
}

} // verus!
