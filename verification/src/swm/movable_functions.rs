use vstd::prelude::*;

use crate::{pac, pins};

use super::{
    movable_layout::{MovableFunction, MovableFunctionId},
    function_kind::{Input, Output},
    functions::{Function, FunctionTrait},
    handle::{lemma_movable_assign_then_unassign, pinassign_written, Handle},
    state::Unassigned,
};

verus! {

/// The value a PINASSIGN field takes to connect a function to a pin: the
/// pin's number, with its port in bit 5
pub open spec fn pin_number(port: usize, id: u8) -> u8 {
    (id | ((port as u8) << 5u8)) as u8
}

/// The value of a PINASSIGN field that connects its function to no pin
pub const UNASSIGNED: u8 = 0xff;

/// Computes the PINASSIGN value that connects a function to `pin`
fn pin_number_of<P: pins::Trait>(pin: &P) -> (n: u8)
    ensures
        n == pin_number(pin.spec_port(), pin.spec_id()),
{
    pin.id() | ((pin.port() as u8) << 5u8)
}

/// Provides access to all movable functions
///
/// This struct is part of [`swm::Parts`].
///
/// [`swm::Parts`]: struct.Parts.html
#[allow(missing_docs)]
pub struct MovableFunctions {
    pub u0_txd: Function<U0_TXD, Unassigned>,
    pub u0_rxd: Function<U0_RXD, Unassigned>,
    pub u0_rts: Function<U0_RTS, Unassigned>,
    pub u0_cts: Function<U0_CTS, Unassigned>,
    pub u0_sclk: Function<U0_SCLK, Unassigned>,
    pub u1_txd: Function<U1_TXD, Unassigned>,
    pub u1_rxd: Function<U1_RXD, Unassigned>,
    pub u1_rts: Function<U1_RTS, Unassigned>,
    pub u1_cts: Function<U1_CTS, Unassigned>,
    pub u1_sclk: Function<U1_SCLK, Unassigned>,
    pub u2_txd: Function<U2_TXD, Unassigned>,
    pub u2_rxd: Function<U2_RXD, Unassigned>,
    pub u2_rts: Function<U2_RTS, Unassigned>,
    pub u2_cts: Function<U2_CTS, Unassigned>,
    pub u2_sclk: Function<U2_SCLK, Unassigned>,
    pub spi0_sck: Function<SPI0_SCK, Unassigned>,
    pub spi0_mosi: Function<SPI0_MOSI, Unassigned>,
    pub spi0_miso: Function<SPI0_MISO, Unassigned>,
    pub spi0_ssel0: Function<SPI0_SSEL0, Unassigned>,
    pub spi0_ssel1: Function<SPI0_SSEL1, Unassigned>,
    pub spi0_ssel2: Function<SPI0_SSEL2, Unassigned>,
    pub spi0_ssel3: Function<SPI0_SSEL3, Unassigned>,
    pub spi1_sck: Function<SPI1_SCK, Unassigned>,
    pub spi1_mosi: Function<SPI1_MOSI, Unassigned>,
    pub spi1_miso: Function<SPI1_MISO, Unassigned>,
    pub spi1_ssel0: Function<SPI1_SSEL0, Unassigned>,
    pub spi1_ssel1: Function<SPI1_SSEL1, Unassigned>,
    pub sct_pin0: Function<SCT_PIN0, Unassigned>,
    pub sct_pin1: Function<SCT_PIN1, Unassigned>,
    pub sct_pin2: Function<SCT_PIN2, Unassigned>,
    pub sct_pin3: Function<SCT_PIN3, Unassigned>,
    pub sct_out0: Function<SCT_OUT0, Unassigned>,
    pub sct_out1: Function<SCT_OUT1, Unassigned>,
    pub sct_out2: Function<SCT_OUT2, Unassigned>,
    pub sct_out3: Function<SCT_OUT3, Unassigned>,
    pub sct_out4: Function<SCT_OUT4, Unassigned>,
    pub sct_out5: Function<SCT_OUT5, Unassigned>,
    pub i2c1_sda: Function<I2C1_SDA, Unassigned>,
    pub i2c1_scl: Function<I2C1_SCL, Unassigned>,
    pub i2c2_sda: Function<I2C2_SDA, Unassigned>,
    pub i2c2_scl: Function<I2C2_SCL, Unassigned>,
    pub i2c3_sda: Function<I2C3_SDA, Unassigned>,
    pub i2c3_scl: Function<I2C3_SCL, Unassigned>,
    pub adc_pintrig0: Function<ADC_PINTRIG0, Unassigned>,
    pub acd_pintrig1: Function<ADC_PINTRIG1, Unassigned>,
    pub acmp_o: Function<ACMP_O, Unassigned>,
    pub clkout: Function<CLKOUT, Unassigned>,
    pub gpio_int_bmat: Function<GPIO_INT_BMAT, Unassigned>,
}

impl MovableFunctions {
    /// Create all movable functions, unassigned
    pub(crate) fn new() -> Self {
        MovableFunctions {
            u0_txd: Function::new(U0_TXD(())),
            u0_rxd: Function::new(U0_RXD(())),
            u0_rts: Function::new(U0_RTS(())),
            u0_cts: Function::new(U0_CTS(())),
            u0_sclk: Function::new(U0_SCLK(())),
            u1_txd: Function::new(U1_TXD(())),
            u1_rxd: Function::new(U1_RXD(())),
            u1_rts: Function::new(U1_RTS(())),
            u1_cts: Function::new(U1_CTS(())),
            u1_sclk: Function::new(U1_SCLK(())),
            u2_txd: Function::new(U2_TXD(())),
            u2_rxd: Function::new(U2_RXD(())),
            u2_rts: Function::new(U2_RTS(())),
            u2_cts: Function::new(U2_CTS(())),
            u2_sclk: Function::new(U2_SCLK(())),
            spi0_sck: Function::new(SPI0_SCK(())),
            spi0_mosi: Function::new(SPI0_MOSI(())),
            spi0_miso: Function::new(SPI0_MISO(())),
            spi0_ssel0: Function::new(SPI0_SSEL0(())),
            spi0_ssel1: Function::new(SPI0_SSEL1(())),
            spi0_ssel2: Function::new(SPI0_SSEL2(())),
            spi0_ssel3: Function::new(SPI0_SSEL3(())),
            spi1_sck: Function::new(SPI1_SCK(())),
            spi1_mosi: Function::new(SPI1_MOSI(())),
            spi1_miso: Function::new(SPI1_MISO(())),
            spi1_ssel0: Function::new(SPI1_SSEL0(())),
            spi1_ssel1: Function::new(SPI1_SSEL1(())),
            sct_pin0: Function::new(SCT_PIN0(())),
            sct_pin1: Function::new(SCT_PIN1(())),
            sct_pin2: Function::new(SCT_PIN2(())),
            sct_pin3: Function::new(SCT_PIN3(())),
            sct_out0: Function::new(SCT_OUT0(())),
            sct_out1: Function::new(SCT_OUT1(())),
            sct_out2: Function::new(SCT_OUT2(())),
            sct_out3: Function::new(SCT_OUT3(())),
            sct_out4: Function::new(SCT_OUT4(())),
            sct_out5: Function::new(SCT_OUT5(())),
            i2c1_sda: Function::new(I2C1_SDA(())),
            i2c1_scl: Function::new(I2C1_SCL(())),
            i2c2_sda: Function::new(I2C2_SDA(())),
            i2c2_scl: Function::new(I2C2_SCL(())),
            i2c3_sda: Function::new(I2C3_SDA(())),
            i2c3_scl: Function::new(I2C3_SCL(())),
            adc_pintrig0: Function::new(ADC_PINTRIG0(())),
            acd_pintrig1: Function::new(ADC_PINTRIG1(())),
            acmp_o: Function::new(ACMP_O(())),
            clkout: Function::new(CLKOUT(())),
            gpio_int_bmat: Function::new(GPIO_INT_BMAT(())),
        }
    }
}

/// Represents the movable function U0_TXD
///
/// It is assigned through field 0 of PINASSIGN0.
#[allow(non_camel_case_types)]
pub struct U0_TXD(pub(crate) ());

impl<P: pins::Trait> MovableFunction<P> for U0_TXD {
    open spec fn id() -> MovableFunctionId {
        MovableFunctionId::U0_TXD
    }

    proof fn lemma_uses_own_slot(self, pin: P, before: pac::SWM0, after: pac::SWM0) {
    }
}

impl<P: pins::Trait> FunctionTrait<P> for U0_TXD {
    type Kind = Output;

    open spec fn assigned(self, pin: P, before: pac::SWM0, after: pac::SWM0) -> bool {
        pinassign_written(before, after, 0, 0, pin_number(pin.spec_port(), pin.spec_id()))
    }

    open spec fn unassigned(self, pin: P, before: pac::SWM0, after: pac::SWM0) -> bool {
        pinassign_written(before, after, 0, 0, UNASSIGNED)
    }

    proof fn lemma_assign_then_unassign(self, pin: P, before: pac::SWM0, mid: pac::SWM0, after: pac::SWM0) {
        lemma_movable_assign_then_unassign(before, mid, after, 0, 0, pin_number(pin.spec_port(), pin.spec_id()));
    }

    fn assign(&mut self, pin: &mut P, swm: &mut Handle) {
        let n = pin_number_of(&*pin);
        swm.write_pinassign(0, 0, n);
    }

    fn unassign(&mut self, _pin: &mut P, swm: &mut Handle) {
        swm.write_pinassign(0, 0, UNASSIGNED);
    }
}

/// Represents the movable function U0_RXD
///
/// It is assigned through field 1 of PINASSIGN0.
#[allow(non_camel_case_types)]
pub struct U0_RXD(pub(crate) ());

impl<P: pins::Trait> MovableFunction<P> for U0_RXD {
    open spec fn id() -> MovableFunctionId {
        MovableFunctionId::U0_RXD
    }

    proof fn lemma_uses_own_slot(self, pin: P, before: pac::SWM0, after: pac::SWM0) {
    }
}

impl<P: pins::Trait> FunctionTrait<P> for U0_RXD {
    type Kind = Input;

    open spec fn assigned(self, pin: P, before: pac::SWM0, after: pac::SWM0) -> bool {
        pinassign_written(before, after, 0, 1, pin_number(pin.spec_port(), pin.spec_id()))
    }

    open spec fn unassigned(self, pin: P, before: pac::SWM0, after: pac::SWM0) -> bool {
        pinassign_written(before, after, 0, 1, UNASSIGNED)
    }

    proof fn lemma_assign_then_unassign(self, pin: P, before: pac::SWM0, mid: pac::SWM0, after: pac::SWM0) {
        lemma_movable_assign_then_unassign(before, mid, after, 0, 1, pin_number(pin.spec_port(), pin.spec_id()));
    }

    fn assign(&mut self, pin: &mut P, swm: &mut Handle) {
        let n = pin_number_of(&*pin);
        swm.write_pinassign(0, 1, n);
    }

    fn unassign(&mut self, _pin: &mut P, swm: &mut Handle) {
        swm.write_pinassign(0, 1, UNASSIGNED);
    }
}

/// Represents the movable function U0_RTS
///
/// It is assigned through field 2 of PINASSIGN0.
#[allow(non_camel_case_types)]
pub struct U0_RTS(pub(crate) ());

impl<P: pins::Trait> MovableFunction<P> for U0_RTS {
    open spec fn id() -> MovableFunctionId {
        MovableFunctionId::U0_RTS
    }

    proof fn lemma_uses_own_slot(self, pin: P, before: pac::SWM0, after: pac::SWM0) {
    }
}

impl<P: pins::Trait> FunctionTrait<P> for U0_RTS {
    type Kind = Output;

    open spec fn assigned(self, pin: P, before: pac::SWM0, after: pac::SWM0) -> bool {
        pinassign_written(before, after, 0, 2, pin_number(pin.spec_port(), pin.spec_id()))
    }

    open spec fn unassigned(self, pin: P, before: pac::SWM0, after: pac::SWM0) -> bool {
        pinassign_written(before, after, 0, 2, UNASSIGNED)
    }

    proof fn lemma_assign_then_unassign(self, pin: P, before: pac::SWM0, mid: pac::SWM0, after: pac::SWM0) {
        lemma_movable_assign_then_unassign(before, mid, after, 0, 2, pin_number(pin.spec_port(), pin.spec_id()));
    }

    fn assign(&mut self, pin: &mut P, swm: &mut Handle) {
        let n = pin_number_of(&*pin);
        swm.write_pinassign(0, 2, n);
    }

    fn unassign(&mut self, _pin: &mut P, swm: &mut Handle) {
        swm.write_pinassign(0, 2, UNASSIGNED);
    }
}

/// Represents the movable function U0_CTS
///
/// It is assigned through field 3 of PINASSIGN0.
#[allow(non_camel_case_types)]
pub struct U0_CTS(pub(crate) ());

impl<P: pins::Trait> MovableFunction<P> for U0_CTS {
    open spec fn id() -> MovableFunctionId {
        MovableFunctionId::U0_CTS
    }

    proof fn lemma_uses_own_slot(self, pin: P, before: pac::SWM0, after: pac::SWM0) {
    }
}

impl<P: pins::Trait> FunctionTrait<P> for U0_CTS {
    type Kind = Input;

    open spec fn assigned(self, pin: P, before: pac::SWM0, after: pac::SWM0) -> bool {
        pinassign_written(before, after, 0, 3, pin_number(pin.spec_port(), pin.spec_id()))
    }

    open spec fn unassigned(self, pin: P, before: pac::SWM0, after: pac::SWM0) -> bool {
        pinassign_written(before, after, 0, 3, UNASSIGNED)
    }

    proof fn lemma_assign_then_unassign(self, pin: P, before: pac::SWM0, mid: pac::SWM0, after: pac::SWM0) {
        lemma_movable_assign_then_unassign(before, mid, after, 0, 3, pin_number(pin.spec_port(), pin.spec_id()));
    }

    fn assign(&mut self, pin: &mut P, swm: &mut Handle) {
        let n = pin_number_of(&*pin);
        swm.write_pinassign(0, 3, n);
    }

    fn unassign(&mut self, _pin: &mut P, swm: &mut Handle) {
        swm.write_pinassign(0, 3, UNASSIGNED);
    }
}

/// Represents the movable function U0_SCLK
///
/// It is assigned through field 0 of PINASSIGN1.
#[allow(non_camel_case_types)]
pub struct U0_SCLK(pub(crate) ());

impl<P: pins::Trait> MovableFunction<P> for U0_SCLK {
    open spec fn id() -> MovableFunctionId {
        MovableFunctionId::U0_SCLK
    }

    proof fn lemma_uses_own_slot(self, pin: P, before: pac::SWM0, after: pac::SWM0) {
    }
}

impl<P: pins::Trait> FunctionTrait<P> for U0_SCLK {
    type Kind = Output;

    open spec fn assigned(self, pin: P, before: pac::SWM0, after: pac::SWM0) -> bool {
        pinassign_written(before, after, 1, 0, pin_number(pin.spec_port(), pin.spec_id()))
    }

    open spec fn unassigned(self, pin: P, before: pac::SWM0, after: pac::SWM0) -> bool {
        pinassign_written(before, after, 1, 0, UNASSIGNED)
    }

    proof fn lemma_assign_then_unassign(self, pin: P, before: pac::SWM0, mid: pac::SWM0, after: pac::SWM0) {
        lemma_movable_assign_then_unassign(before, mid, after, 1, 0, pin_number(pin.spec_port(), pin.spec_id()));
    }

    fn assign(&mut self, pin: &mut P, swm: &mut Handle) {
        let n = pin_number_of(&*pin);
        swm.write_pinassign(1, 0, n);
    }

    fn unassign(&mut self, _pin: &mut P, swm: &mut Handle) {
        swm.write_pinassign(1, 0, UNASSIGNED);
    }
}

/// Represents the movable function U1_TXD
///
/// It is assigned through field 1 of PINASSIGN1.
#[allow(non_camel_case_types)]
pub struct U1_TXD(pub(crate) ());

impl<P: pins::Trait> MovableFunction<P> for U1_TXD {
    open spec fn id() -> MovableFunctionId {
        MovableFunctionId::U1_TXD
    }

    proof fn lemma_uses_own_slot(self, pin: P, before: pac::SWM0, after: pac::SWM0) {
    }
}

impl<P: pins::Trait> FunctionTrait<P> for U1_TXD {
    type Kind = Output;

    open spec fn assigned(self, pin: P, before: pac::SWM0, after: pac::SWM0) -> bool {
        pinassign_written(before, after, 1, 1, pin_number(pin.spec_port(), pin.spec_id()))
    }

    open spec fn unassigned(self, pin: P, before: pac::SWM0, after: pac::SWM0) -> bool {
        pinassign_written(before, after, 1, 1, UNASSIGNED)
    }

    proof fn lemma_assign_then_unassign(self, pin: P, before: pac::SWM0, mid: pac::SWM0, after: pac::SWM0) {
        lemma_movable_assign_then_unassign(before, mid, after, 1, 1, pin_number(pin.spec_port(), pin.spec_id()));
    }

    fn assign(&mut self, pin: &mut P, swm: &mut Handle) {
        let n = pin_number_of(&*pin);
        swm.write_pinassign(1, 1, n);
    }

    fn unassign(&mut self, _pin: &mut P, swm: &mut Handle) {
        swm.write_pinassign(1, 1, UNASSIGNED);
    }
}

/// Represents the movable function U1_RXD
///
/// It is assigned through field 2 of PINASSIGN1.
#[allow(non_camel_case_types)]
pub struct U1_RXD(pub(crate) ());

impl<P: pins::Trait> MovableFunction<P> for U1_RXD {
    open spec fn id() -> MovableFunctionId {
        MovableFunctionId::U1_RXD
    }

    proof fn lemma_uses_own_slot(self, pin: P, before: pac::SWM0, after: pac::SWM0) {
    }
}

impl<P: pins::Trait> FunctionTrait<P> for U1_RXD {
    type Kind = Input;

    open spec fn assigned(self, pin: P, before: pac::SWM0, after: pac::SWM0) -> bool {
        pinassign_written(before, after, 1, 2, pin_number(pin.spec_port(), pin.spec_id()))
    }

    open spec fn unassigned(self, pin: P, before: pac::SWM0, after: pac::SWM0) -> bool {
        pinassign_written(before, after, 1, 2, UNASSIGNED)
    }

    proof fn lemma_assign_then_unassign(self, pin: P, before: pac::SWM0, mid: pac::SWM0, after: pac::SWM0) {
        lemma_movable_assign_then_unassign(before, mid, after, 1, 2, pin_number(pin.spec_port(), pin.spec_id()));
    }

    fn assign(&mut self, pin: &mut P, swm: &mut Handle) {
        let n = pin_number_of(&*pin);
        swm.write_pinassign(1, 2, n);
    }

    fn unassign(&mut self, _pin: &mut P, swm: &mut Handle) {
        swm.write_pinassign(1, 2, UNASSIGNED);
    }
}

/// Represents the movable function U1_RTS
///
/// It is assigned through field 3 of PINASSIGN1.
#[allow(non_camel_case_types)]
pub struct U1_RTS(pub(crate) ());

impl<P: pins::Trait> MovableFunction<P> for U1_RTS {
    open spec fn id() -> MovableFunctionId {
        MovableFunctionId::U1_RTS
    }

    proof fn lemma_uses_own_slot(self, pin: P, before: pac::SWM0, after: pac::SWM0) {
    }
}

impl<P: pins::Trait> FunctionTrait<P> for U1_RTS {
    type Kind = Output;

    open spec fn assigned(self, pin: P, before: pac::SWM0, after: pac::SWM0) -> bool {
        pinassign_written(before, after, 1, 3, pin_number(pin.spec_port(), pin.spec_id()))
    }

    open spec fn unassigned(self, pin: P, before: pac::SWM0, after: pac::SWM0) -> bool {
        pinassign_written(before, after, 1, 3, UNASSIGNED)
    }

    proof fn lemma_assign_then_unassign(self, pin: P, before: pac::SWM0, mid: pac::SWM0, after: pac::SWM0) {
        lemma_movable_assign_then_unassign(before, mid, after, 1, 3, pin_number(pin.spec_port(), pin.spec_id()));
    }

    fn assign(&mut self, pin: &mut P, swm: &mut Handle) {
        let n = pin_number_of(&*pin);
        swm.write_pinassign(1, 3, n);
    }

    fn unassign(&mut self, _pin: &mut P, swm: &mut Handle) {
        swm.write_pinassign(1, 3, UNASSIGNED);
    }
}

/// Represents the movable function U1_CTS
///
/// It is assigned through field 0 of PINASSIGN2.
#[allow(non_camel_case_types)]
pub struct U1_CTS(pub(crate) ());

impl<P: pins::Trait> MovableFunction<P> for U1_CTS {
    open spec fn id() -> MovableFunctionId {
        MovableFunctionId::U1_CTS
    }

    proof fn lemma_uses_own_slot(self, pin: P, before: pac::SWM0, after: pac::SWM0) {
    }
}

impl<P: pins::Trait> FunctionTrait<P> for U1_CTS {
    type Kind = Input;

    open spec fn assigned(self, pin: P, before: pac::SWM0, after: pac::SWM0) -> bool {
        pinassign_written(before, after, 2, 0, pin_number(pin.spec_port(), pin.spec_id()))
    }

    open spec fn unassigned(self, pin: P, before: pac::SWM0, after: pac::SWM0) -> bool {
        pinassign_written(before, after, 2, 0, UNASSIGNED)
    }

    proof fn lemma_assign_then_unassign(self, pin: P, before: pac::SWM0, mid: pac::SWM0, after: pac::SWM0) {
        lemma_movable_assign_then_unassign(before, mid, after, 2, 0, pin_number(pin.spec_port(), pin.spec_id()));
    }

    fn assign(&mut self, pin: &mut P, swm: &mut Handle) {
        let n = pin_number_of(&*pin);
        swm.write_pinassign(2, 0, n);
    }

    fn unassign(&mut self, _pin: &mut P, swm: &mut Handle) {
        swm.write_pinassign(2, 0, UNASSIGNED);
    }
}

/// Represents the movable function U1_SCLK
///
/// It is assigned through field 1 of PINASSIGN2.
#[allow(non_camel_case_types)]
pub struct U1_SCLK(pub(crate) ());

impl<P: pins::Trait> MovableFunction<P> for U1_SCLK {
    open spec fn id() -> MovableFunctionId {
        MovableFunctionId::U1_SCLK
    }

    proof fn lemma_uses_own_slot(self, pin: P, before: pac::SWM0, after: pac::SWM0) {
    }
}

impl<P: pins::Trait> FunctionTrait<P> for U1_SCLK {
    type Kind = Output;

    open spec fn assigned(self, pin: P, before: pac::SWM0, after: pac::SWM0) -> bool {
        pinassign_written(before, after, 2, 1, pin_number(pin.spec_port(), pin.spec_id()))
    }

    open spec fn unassigned(self, pin: P, before: pac::SWM0, after: pac::SWM0) -> bool {
        pinassign_written(before, after, 2, 1, UNASSIGNED)
    }

    proof fn lemma_assign_then_unassign(self, pin: P, before: pac::SWM0, mid: pac::SWM0, after: pac::SWM0) {
        lemma_movable_assign_then_unassign(before, mid, after, 2, 1, pin_number(pin.spec_port(), pin.spec_id()));
    }

    fn assign(&mut self, pin: &mut P, swm: &mut Handle) {
        let n = pin_number_of(&*pin);
        swm.write_pinassign(2, 1, n);
    }

    fn unassign(&mut self, _pin: &mut P, swm: &mut Handle) {
        swm.write_pinassign(2, 1, UNASSIGNED);
    }
}

/// Represents the movable function U2_TXD
///
/// It is assigned through field 2 of PINASSIGN2.
#[allow(non_camel_case_types)]
pub struct U2_TXD(pub(crate) ());

impl<P: pins::Trait> MovableFunction<P> for U2_TXD {
    open spec fn id() -> MovableFunctionId {
        MovableFunctionId::U2_TXD
    }

    proof fn lemma_uses_own_slot(self, pin: P, before: pac::SWM0, after: pac::SWM0) {
    }
}

impl<P: pins::Trait> FunctionTrait<P> for U2_TXD {
    type Kind = Output;

    open spec fn assigned(self, pin: P, before: pac::SWM0, after: pac::SWM0) -> bool {
        pinassign_written(before, after, 2, 2, pin_number(pin.spec_port(), pin.spec_id()))
    }

    open spec fn unassigned(self, pin: P, before: pac::SWM0, after: pac::SWM0) -> bool {
        pinassign_written(before, after, 2, 2, UNASSIGNED)
    }

    proof fn lemma_assign_then_unassign(self, pin: P, before: pac::SWM0, mid: pac::SWM0, after: pac::SWM0) {
        lemma_movable_assign_then_unassign(before, mid, after, 2, 2, pin_number(pin.spec_port(), pin.spec_id()));
    }

    fn assign(&mut self, pin: &mut P, swm: &mut Handle) {
        let n = pin_number_of(&*pin);
        swm.write_pinassign(2, 2, n);
    }

    fn unassign(&mut self, _pin: &mut P, swm: &mut Handle) {
        swm.write_pinassign(2, 2, UNASSIGNED);
    }
}

/// Represents the movable function U2_RXD
///
/// It is assigned through field 3 of PINASSIGN2.
#[allow(non_camel_case_types)]
pub struct U2_RXD(pub(crate) ());

impl<P: pins::Trait> MovableFunction<P> for U2_RXD {
    open spec fn id() -> MovableFunctionId {
        MovableFunctionId::U2_RXD
    }

    proof fn lemma_uses_own_slot(self, pin: P, before: pac::SWM0, after: pac::SWM0) {
    }
}

impl<P: pins::Trait> FunctionTrait<P> for U2_RXD {
    type Kind = Input;

    open spec fn assigned(self, pin: P, before: pac::SWM0, after: pac::SWM0) -> bool {
        pinassign_written(before, after, 2, 3, pin_number(pin.spec_port(), pin.spec_id()))
    }

    open spec fn unassigned(self, pin: P, before: pac::SWM0, after: pac::SWM0) -> bool {
        pinassign_written(before, after, 2, 3, UNASSIGNED)
    }

    proof fn lemma_assign_then_unassign(self, pin: P, before: pac::SWM0, mid: pac::SWM0, after: pac::SWM0) {
        lemma_movable_assign_then_unassign(before, mid, after, 2, 3, pin_number(pin.spec_port(), pin.spec_id()));
    }

    fn assign(&mut self, pin: &mut P, swm: &mut Handle) {
        let n = pin_number_of(&*pin);
        swm.write_pinassign(2, 3, n);
    }

    fn unassign(&mut self, _pin: &mut P, swm: &mut Handle) {
        swm.write_pinassign(2, 3, UNASSIGNED);
    }
}

/// Represents the movable function U2_RTS
///
/// It is assigned through field 0 of PINASSIGN3.
#[allow(non_camel_case_types)]
pub struct U2_RTS(pub(crate) ());

impl<P: pins::Trait> MovableFunction<P> for U2_RTS {
    open spec fn id() -> MovableFunctionId {
        MovableFunctionId::U2_RTS
    }

    proof fn lemma_uses_own_slot(self, pin: P, before: pac::SWM0, after: pac::SWM0) {
    }
}

impl<P: pins::Trait> FunctionTrait<P> for U2_RTS {
    type Kind = Output;

    open spec fn assigned(self, pin: P, before: pac::SWM0, after: pac::SWM0) -> bool {
        pinassign_written(before, after, 3, 0, pin_number(pin.spec_port(), pin.spec_id()))
    }

    open spec fn unassigned(self, pin: P, before: pac::SWM0, after: pac::SWM0) -> bool {
        pinassign_written(before, after, 3, 0, UNASSIGNED)
    }

    proof fn lemma_assign_then_unassign(self, pin: P, before: pac::SWM0, mid: pac::SWM0, after: pac::SWM0) {
        lemma_movable_assign_then_unassign(before, mid, after, 3, 0, pin_number(pin.spec_port(), pin.spec_id()));
    }

    fn assign(&mut self, pin: &mut P, swm: &mut Handle) {
        let n = pin_number_of(&*pin);
        swm.write_pinassign(3, 0, n);
    }

    fn unassign(&mut self, _pin: &mut P, swm: &mut Handle) {
        swm.write_pinassign(3, 0, UNASSIGNED);
    }
}

/// Represents the movable function U2_CTS
///
/// It is assigned through field 1 of PINASSIGN3.
#[allow(non_camel_case_types)]
pub struct U2_CTS(pub(crate) ());

impl<P: pins::Trait> MovableFunction<P> for U2_CTS {
    open spec fn id() -> MovableFunctionId {
        MovableFunctionId::U2_CTS
    }

    proof fn lemma_uses_own_slot(self, pin: P, before: pac::SWM0, after: pac::SWM0) {
    }
}

impl<P: pins::Trait> FunctionTrait<P> for U2_CTS {
    type Kind = Input;

    open spec fn assigned(self, pin: P, before: pac::SWM0, after: pac::SWM0) -> bool {
        pinassign_written(before, after, 3, 1, pin_number(pin.spec_port(), pin.spec_id()))
    }

    open spec fn unassigned(self, pin: P, before: pac::SWM0, after: pac::SWM0) -> bool {
        pinassign_written(before, after, 3, 1, UNASSIGNED)
    }

    proof fn lemma_assign_then_unassign(self, pin: P, before: pac::SWM0, mid: pac::SWM0, after: pac::SWM0) {
        lemma_movable_assign_then_unassign(before, mid, after, 3, 1, pin_number(pin.spec_port(), pin.spec_id()));
    }

    fn assign(&mut self, pin: &mut P, swm: &mut Handle) {
        let n = pin_number_of(&*pin);
        swm.write_pinassign(3, 1, n);
    }

    fn unassign(&mut self, _pin: &mut P, swm: &mut Handle) {
        swm.write_pinassign(3, 1, UNASSIGNED);
    }
}

/// Represents the movable function U2_SCLK
///
/// It is assigned through field 2 of PINASSIGN3.
#[allow(non_camel_case_types)]
pub struct U2_SCLK(pub(crate) ());

impl<P: pins::Trait> MovableFunction<P> for U2_SCLK {
    open spec fn id() -> MovableFunctionId {
        MovableFunctionId::U2_SCLK
    }

    proof fn lemma_uses_own_slot(self, pin: P, before: pac::SWM0, after: pac::SWM0) {
    }
}

impl<P: pins::Trait> FunctionTrait<P> for U2_SCLK {
    type Kind = Output;

    open spec fn assigned(self, pin: P, before: pac::SWM0, after: pac::SWM0) -> bool {
        pinassign_written(before, after, 3, 2, pin_number(pin.spec_port(), pin.spec_id()))
    }

    open spec fn unassigned(self, pin: P, before: pac::SWM0, after: pac::SWM0) -> bool {
        pinassign_written(before, after, 3, 2, UNASSIGNED)
    }

    proof fn lemma_assign_then_unassign(self, pin: P, before: pac::SWM0, mid: pac::SWM0, after: pac::SWM0) {
        lemma_movable_assign_then_unassign(before, mid, after, 3, 2, pin_number(pin.spec_port(), pin.spec_id()));
    }

    fn assign(&mut self, pin: &mut P, swm: &mut Handle) {
        let n = pin_number_of(&*pin);
        swm.write_pinassign(3, 2, n);
    }

    fn unassign(&mut self, _pin: &mut P, swm: &mut Handle) {
        swm.write_pinassign(3, 2, UNASSIGNED);
    }
}

/// Represents the movable function SPI0_SCK
///
/// It is assigned through field 3 of PINASSIGN3.
#[allow(non_camel_case_types)]
pub struct SPI0_SCK(pub(crate) ());

impl<P: pins::Trait> MovableFunction<P> for SPI0_SCK {
    open spec fn id() -> MovableFunctionId {
        MovableFunctionId::SPI0_SCK
    }

    proof fn lemma_uses_own_slot(self, pin: P, before: pac::SWM0, after: pac::SWM0) {
    }
}

impl<P: pins::Trait> FunctionTrait<P> for SPI0_SCK {
    type Kind = Output;

    open spec fn assigned(self, pin: P, before: pac::SWM0, after: pac::SWM0) -> bool {
        pinassign_written(before, after, 3, 3, pin_number(pin.spec_port(), pin.spec_id()))
    }

    open spec fn unassigned(self, pin: P, before: pac::SWM0, after: pac::SWM0) -> bool {
        pinassign_written(before, after, 3, 3, UNASSIGNED)
    }

    proof fn lemma_assign_then_unassign(self, pin: P, before: pac::SWM0, mid: pac::SWM0, after: pac::SWM0) {
        lemma_movable_assign_then_unassign(before, mid, after, 3, 3, pin_number(pin.spec_port(), pin.spec_id()));
    }

    fn assign(&mut self, pin: &mut P, swm: &mut Handle) {
        let n = pin_number_of(&*pin);
        swm.write_pinassign(3, 3, n);
    }

    fn unassign(&mut self, _pin: &mut P, swm: &mut Handle) {
        swm.write_pinassign(3, 3, UNASSIGNED);
    }
}

/// Represents the movable function SPI0_MOSI
///
/// It is assigned through field 0 of PINASSIGN4.
#[allow(non_camel_case_types)]
pub struct SPI0_MOSI(pub(crate) ());

impl<P: pins::Trait> MovableFunction<P> for SPI0_MOSI {
    open spec fn id() -> MovableFunctionId {
        MovableFunctionId::SPI0_MOSI
    }

    proof fn lemma_uses_own_slot(self, pin: P, before: pac::SWM0, after: pac::SWM0) {
    }
}

impl<P: pins::Trait> FunctionTrait<P> for SPI0_MOSI {
    type Kind = Output;

    open spec fn assigned(self, pin: P, before: pac::SWM0, after: pac::SWM0) -> bool {
        pinassign_written(before, after, 4, 0, pin_number(pin.spec_port(), pin.spec_id()))
    }

    open spec fn unassigned(self, pin: P, before: pac::SWM0, after: pac::SWM0) -> bool {
        pinassign_written(before, after, 4, 0, UNASSIGNED)
    }

    proof fn lemma_assign_then_unassign(self, pin: P, before: pac::SWM0, mid: pac::SWM0, after: pac::SWM0) {
        lemma_movable_assign_then_unassign(before, mid, after, 4, 0, pin_number(pin.spec_port(), pin.spec_id()));
    }

    fn assign(&mut self, pin: &mut P, swm: &mut Handle) {
        let n = pin_number_of(&*pin);
        swm.write_pinassign(4, 0, n);
    }

    fn unassign(&mut self, _pin: &mut P, swm: &mut Handle) {
        swm.write_pinassign(4, 0, UNASSIGNED);
    }
}

/// Represents the movable function SPI0_MISO
///
/// It is assigned through field 1 of PINASSIGN4.
#[allow(non_camel_case_types)]
pub struct SPI0_MISO(pub(crate) ());

impl<P: pins::Trait> MovableFunction<P> for SPI0_MISO {
    open spec fn id() -> MovableFunctionId {
        MovableFunctionId::SPI0_MISO
    }

    proof fn lemma_uses_own_slot(self, pin: P, before: pac::SWM0, after: pac::SWM0) {
    }
}

impl<P: pins::Trait> FunctionTrait<P> for SPI0_MISO {
    type Kind = Output;

    open spec fn assigned(self, pin: P, before: pac::SWM0, after: pac::SWM0) -> bool {
        pinassign_written(before, after, 4, 1, pin_number(pin.spec_port(), pin.spec_id()))
    }

    open spec fn unassigned(self, pin: P, before: pac::SWM0, after: pac::SWM0) -> bool {
        pinassign_written(before, after, 4, 1, UNASSIGNED)
    }

    proof fn lemma_assign_then_unassign(self, pin: P, before: pac::SWM0, mid: pac::SWM0, after: pac::SWM0) {
        lemma_movable_assign_then_unassign(before, mid, after, 4, 1, pin_number(pin.spec_port(), pin.spec_id()));
    }

    fn assign(&mut self, pin: &mut P, swm: &mut Handle) {
        let n = pin_number_of(&*pin);
        swm.write_pinassign(4, 1, n);
    }

    fn unassign(&mut self, _pin: &mut P, swm: &mut Handle) {
        swm.write_pinassign(4, 1, UNASSIGNED);
    }
}

/// Represents the movable function SPI0_SSEL0
///
/// It is assigned through field 2 of PINASSIGN4.
#[allow(non_camel_case_types)]
pub struct SPI0_SSEL0(pub(crate) ());

impl<P: pins::Trait> MovableFunction<P> for SPI0_SSEL0 {
    open spec fn id() -> MovableFunctionId {
        MovableFunctionId::SPI0_SSEL0
    }

    proof fn lemma_uses_own_slot(self, pin: P, before: pac::SWM0, after: pac::SWM0) {
    }
}

impl<P: pins::Trait> FunctionTrait<P> for SPI0_SSEL0 {
    type Kind = Output;

    open spec fn assigned(self, pin: P, before: pac::SWM0, after: pac::SWM0) -> bool {
        pinassign_written(before, after, 4, 2, pin_number(pin.spec_port(), pin.spec_id()))
    }

    open spec fn unassigned(self, pin: P, before: pac::SWM0, after: pac::SWM0) -> bool {
        pinassign_written(before, after, 4, 2, UNASSIGNED)
    }

    proof fn lemma_assign_then_unassign(self, pin: P, before: pac::SWM0, mid: pac::SWM0, after: pac::SWM0) {
        lemma_movable_assign_then_unassign(before, mid, after, 4, 2, pin_number(pin.spec_port(), pin.spec_id()));
    }

    fn assign(&mut self, pin: &mut P, swm: &mut Handle) {
        let n = pin_number_of(&*pin);
        swm.write_pinassign(4, 2, n);
    }

    fn unassign(&mut self, _pin: &mut P, swm: &mut Handle) {
        swm.write_pinassign(4, 2, UNASSIGNED);
    }
}

/// Represents the movable function SPI0_SSEL1
///
/// It is assigned through field 3 of PINASSIGN4.
#[allow(non_camel_case_types)]
pub struct SPI0_SSEL1(pub(crate) ());

impl<P: pins::Trait> MovableFunction<P> for SPI0_SSEL1 {
    open spec fn id() -> MovableFunctionId {
        MovableFunctionId::SPI0_SSEL1
    }

    proof fn lemma_uses_own_slot(self, pin: P, before: pac::SWM0, after: pac::SWM0) {
    }
}

impl<P: pins::Trait> FunctionTrait<P> for SPI0_SSEL1 {
    type Kind = Output;

    open spec fn assigned(self, pin: P, before: pac::SWM0, after: pac::SWM0) -> bool {
        pinassign_written(before, after, 4, 3, pin_number(pin.spec_port(), pin.spec_id()))
    }

    open spec fn unassigned(self, pin: P, before: pac::SWM0, after: pac::SWM0) -> bool {
        pinassign_written(before, after, 4, 3, UNASSIGNED)
    }

    proof fn lemma_assign_then_unassign(self, pin: P, before: pac::SWM0, mid: pac::SWM0, after: pac::SWM0) {
        lemma_movable_assign_then_unassign(before, mid, after, 4, 3, pin_number(pin.spec_port(), pin.spec_id()));
    }

    fn assign(&mut self, pin: &mut P, swm: &mut Handle) {
        let n = pin_number_of(&*pin);
        swm.write_pinassign(4, 3, n);
    }

    fn unassign(&mut self, _pin: &mut P, swm: &mut Handle) {
        swm.write_pinassign(4, 3, UNASSIGNED);
    }
}

/// Represents the movable function SPI0_SSEL2
///
/// It is assigned through field 0 of PINASSIGN5.
#[allow(non_camel_case_types)]
pub struct SPI0_SSEL2(pub(crate) ());

impl<P: pins::Trait> MovableFunction<P> for SPI0_SSEL2 {
    open spec fn id() -> MovableFunctionId {
        MovableFunctionId::SPI0_SSEL2
    }

    proof fn lemma_uses_own_slot(self, pin: P, before: pac::SWM0, after: pac::SWM0) {
    }
}

impl<P: pins::Trait> FunctionTrait<P> for SPI0_SSEL2 {
    type Kind = Output;

    open spec fn assigned(self, pin: P, before: pac::SWM0, after: pac::SWM0) -> bool {
        pinassign_written(before, after, 5, 0, pin_number(pin.spec_port(), pin.spec_id()))
    }

    open spec fn unassigned(self, pin: P, before: pac::SWM0, after: pac::SWM0) -> bool {
        pinassign_written(before, after, 5, 0, UNASSIGNED)
    }

    proof fn lemma_assign_then_unassign(self, pin: P, before: pac::SWM0, mid: pac::SWM0, after: pac::SWM0) {
        lemma_movable_assign_then_unassign(before, mid, after, 5, 0, pin_number(pin.spec_port(), pin.spec_id()));
    }

    fn assign(&mut self, pin: &mut P, swm: &mut Handle) {
        let n = pin_number_of(&*pin);
        swm.write_pinassign(5, 0, n);
    }

    fn unassign(&mut self, _pin: &mut P, swm: &mut Handle) {
        swm.write_pinassign(5, 0, UNASSIGNED);
    }
}

/// Represents the movable function SPI0_SSEL3
///
/// It is assigned through field 1 of PINASSIGN5.
#[allow(non_camel_case_types)]
pub struct SPI0_SSEL3(pub(crate) ());

impl<P: pins::Trait> MovableFunction<P> for SPI0_SSEL3 {
    open spec fn id() -> MovableFunctionId {
        MovableFunctionId::SPI0_SSEL3
    }

    proof fn lemma_uses_own_slot(self, pin: P, before: pac::SWM0, after: pac::SWM0) {
    }
}

impl<P: pins::Trait> FunctionTrait<P> for SPI0_SSEL3 {
    type Kind = Output;

    open spec fn assigned(self, pin: P, before: pac::SWM0, after: pac::SWM0) -> bool {
        pinassign_written(before, after, 5, 1, pin_number(pin.spec_port(), pin.spec_id()))
    }

    open spec fn unassigned(self, pin: P, before: pac::SWM0, after: pac::SWM0) -> bool {
        pinassign_written(before, after, 5, 1, UNASSIGNED)
    }

    proof fn lemma_assign_then_unassign(self, pin: P, before: pac::SWM0, mid: pac::SWM0, after: pac::SWM0) {
        lemma_movable_assign_then_unassign(before, mid, after, 5, 1, pin_number(pin.spec_port(), pin.spec_id()));
    }

    fn assign(&mut self, pin: &mut P, swm: &mut Handle) {
        let n = pin_number_of(&*pin);
        swm.write_pinassign(5, 1, n);
    }

    fn unassign(&mut self, _pin: &mut P, swm: &mut Handle) {
        swm.write_pinassign(5, 1, UNASSIGNED);
    }
}

/// Represents the movable function SPI1_SCK
///
/// It is assigned through field 2 of PINASSIGN5.
#[allow(non_camel_case_types)]
pub struct SPI1_SCK(pub(crate) ());

impl<P: pins::Trait> MovableFunction<P> for SPI1_SCK {
    open spec fn id() -> MovableFunctionId {
        MovableFunctionId::SPI1_SCK
    }

    proof fn lemma_uses_own_slot(self, pin: P, before: pac::SWM0, after: pac::SWM0) {
    }
}

impl<P: pins::Trait> FunctionTrait<P> for SPI1_SCK {
    type Kind = Output;

    open spec fn assigned(self, pin: P, before: pac::SWM0, after: pac::SWM0) -> bool {
        pinassign_written(before, after, 5, 2, pin_number(pin.spec_port(), pin.spec_id()))
    }

    open spec fn unassigned(self, pin: P, before: pac::SWM0, after: pac::SWM0) -> bool {
        pinassign_written(before, after, 5, 2, UNASSIGNED)
    }

    proof fn lemma_assign_then_unassign(self, pin: P, before: pac::SWM0, mid: pac::SWM0, after: pac::SWM0) {
        lemma_movable_assign_then_unassign(before, mid, after, 5, 2, pin_number(pin.spec_port(), pin.spec_id()));
    }

    fn assign(&mut self, pin: &mut P, swm: &mut Handle) {
        let n = pin_number_of(&*pin);
        swm.write_pinassign(5, 2, n);
    }

    fn unassign(&mut self, _pin: &mut P, swm: &mut Handle) {
        swm.write_pinassign(5, 2, UNASSIGNED);
    }
}

/// Represents the movable function SPI1_MOSI
///
/// It is assigned through field 3 of PINASSIGN5.
#[allow(non_camel_case_types)]
pub struct SPI1_MOSI(pub(crate) ());

impl<P: pins::Trait> MovableFunction<P> for SPI1_MOSI {
    open spec fn id() -> MovableFunctionId {
        MovableFunctionId::SPI1_MOSI
    }

    proof fn lemma_uses_own_slot(self, pin: P, before: pac::SWM0, after: pac::SWM0) {
    }
}

impl<P: pins::Trait> FunctionTrait<P> for SPI1_MOSI {
    type Kind = Output;

    open spec fn assigned(self, pin: P, before: pac::SWM0, after: pac::SWM0) -> bool {
        pinassign_written(before, after, 5, 3, pin_number(pin.spec_port(), pin.spec_id()))
    }

    open spec fn unassigned(self, pin: P, before: pac::SWM0, after: pac::SWM0) -> bool {
        pinassign_written(before, after, 5, 3, UNASSIGNED)
    }

    proof fn lemma_assign_then_unassign(self, pin: P, before: pac::SWM0, mid: pac::SWM0, after: pac::SWM0) {
        lemma_movable_assign_then_unassign(before, mid, after, 5, 3, pin_number(pin.spec_port(), pin.spec_id()));
    }

    fn assign(&mut self, pin: &mut P, swm: &mut Handle) {
        let n = pin_number_of(&*pin);
        swm.write_pinassign(5, 3, n);
    }

    fn unassign(&mut self, _pin: &mut P, swm: &mut Handle) {
        swm.write_pinassign(5, 3, UNASSIGNED);
    }
}

/// Represents the movable function SPI1_MISO
///
/// It is assigned through field 0 of PINASSIGN6.
#[allow(non_camel_case_types)]
pub struct SPI1_MISO(pub(crate) ());

impl<P: pins::Trait> MovableFunction<P> for SPI1_MISO {
    open spec fn id() -> MovableFunctionId {
        MovableFunctionId::SPI1_MISO
    }

    proof fn lemma_uses_own_slot(self, pin: P, before: pac::SWM0, after: pac::SWM0) {
    }
}

impl<P: pins::Trait> FunctionTrait<P> for SPI1_MISO {
    type Kind = Output;

    open spec fn assigned(self, pin: P, before: pac::SWM0, after: pac::SWM0) -> bool {
        pinassign_written(before, after, 6, 0, pin_number(pin.spec_port(), pin.spec_id()))
    }

    open spec fn unassigned(self, pin: P, before: pac::SWM0, after: pac::SWM0) -> bool {
        pinassign_written(before, after, 6, 0, UNASSIGNED)
    }

    proof fn lemma_assign_then_unassign(self, pin: P, before: pac::SWM0, mid: pac::SWM0, after: pac::SWM0) {
        lemma_movable_assign_then_unassign(before, mid, after, 6, 0, pin_number(pin.spec_port(), pin.spec_id()));
    }

    fn assign(&mut self, pin: &mut P, swm: &mut Handle) {
        let n = pin_number_of(&*pin);
        swm.write_pinassign(6, 0, n);
    }

    fn unassign(&mut self, _pin: &mut P, swm: &mut Handle) {
        swm.write_pinassign(6, 0, UNASSIGNED);
    }
}

/// Represents the movable function SPI1_SSEL0
///
/// It is assigned through field 1 of PINASSIGN6.
#[allow(non_camel_case_types)]
pub struct SPI1_SSEL0(pub(crate) ());

impl<P: pins::Trait> MovableFunction<P> for SPI1_SSEL0 {
    open spec fn id() -> MovableFunctionId {
        MovableFunctionId::SPI1_SSEL0
    }

    proof fn lemma_uses_own_slot(self, pin: P, before: pac::SWM0, after: pac::SWM0) {
    }
}

impl<P: pins::Trait> FunctionTrait<P> for SPI1_SSEL0 {
    type Kind = Output;

    open spec fn assigned(self, pin: P, before: pac::SWM0, after: pac::SWM0) -> bool {
        pinassign_written(before, after, 6, 1, pin_number(pin.spec_port(), pin.spec_id()))
    }

    open spec fn unassigned(self, pin: P, before: pac::SWM0, after: pac::SWM0) -> bool {
        pinassign_written(before, after, 6, 1, UNASSIGNED)
    }

    proof fn lemma_assign_then_unassign(self, pin: P, before: pac::SWM0, mid: pac::SWM0, after: pac::SWM0) {
        lemma_movable_assign_then_unassign(before, mid, after, 6, 1, pin_number(pin.spec_port(), pin.spec_id()));
    }

    fn assign(&mut self, pin: &mut P, swm: &mut Handle) {
        let n = pin_number_of(&*pin);
        swm.write_pinassign(6, 1, n);
    }

    fn unassign(&mut self, _pin: &mut P, swm: &mut Handle) {
        swm.write_pinassign(6, 1, UNASSIGNED);
    }
}

/// Represents the movable function SPI1_SSEL1
///
/// It is assigned through field 2 of PINASSIGN6.
#[allow(non_camel_case_types)]
pub struct SPI1_SSEL1(pub(crate) ());

impl<P: pins::Trait> MovableFunction<P> for SPI1_SSEL1 {
    open spec fn id() -> MovableFunctionId {
        MovableFunctionId::SPI1_SSEL1
    }

    proof fn lemma_uses_own_slot(self, pin: P, before: pac::SWM0, after: pac::SWM0) {
    }
}

impl<P: pins::Trait> FunctionTrait<P> for SPI1_SSEL1 {
    type Kind = Output;

    open spec fn assigned(self, pin: P, before: pac::SWM0, after: pac::SWM0) -> bool {
        pinassign_written(before, after, 6, 2, pin_number(pin.spec_port(), pin.spec_id()))
    }

    open spec fn unassigned(self, pin: P, before: pac::SWM0, after: pac::SWM0) -> bool {
        pinassign_written(before, after, 6, 2, UNASSIGNED)
    }

    proof fn lemma_assign_then_unassign(self, pin: P, before: pac::SWM0, mid: pac::SWM0, after: pac::SWM0) {
        lemma_movable_assign_then_unassign(before, mid, after, 6, 2, pin_number(pin.spec_port(), pin.spec_id()));
    }

    fn assign(&mut self, pin: &mut P, swm: &mut Handle) {
        let n = pin_number_of(&*pin);
        swm.write_pinassign(6, 2, n);
    }

    fn unassign(&mut self, _pin: &mut P, swm: &mut Handle) {
        swm.write_pinassign(6, 2, UNASSIGNED);
    }
}

/// Represents the movable function SCT_PIN0
///
/// It is assigned through field 3 of PINASSIGN6.
#[allow(non_camel_case_types)]
pub struct SCT_PIN0(pub(crate) ());

impl<P: pins::Trait> MovableFunction<P> for SCT_PIN0 {
    open spec fn id() -> MovableFunctionId {
        MovableFunctionId::SCT_PIN0
    }

    proof fn lemma_uses_own_slot(self, pin: P, before: pac::SWM0, after: pac::SWM0) {
    }
}

impl<P: pins::Trait> FunctionTrait<P> for SCT_PIN0 {
    type Kind = Input;

    open spec fn assigned(self, pin: P, before: pac::SWM0, after: pac::SWM0) -> bool {
        pinassign_written(before, after, 6, 3, pin_number(pin.spec_port(), pin.spec_id()))
    }

    open spec fn unassigned(self, pin: P, before: pac::SWM0, after: pac::SWM0) -> bool {
        pinassign_written(before, after, 6, 3, UNASSIGNED)
    }

    proof fn lemma_assign_then_unassign(self, pin: P, before: pac::SWM0, mid: pac::SWM0, after: pac::SWM0) {
        lemma_movable_assign_then_unassign(before, mid, after, 6, 3, pin_number(pin.spec_port(), pin.spec_id()));
    }

    fn assign(&mut self, pin: &mut P, swm: &mut Handle) {
        let n = pin_number_of(&*pin);
        swm.write_pinassign(6, 3, n);
    }

    fn unassign(&mut self, _pin: &mut P, swm: &mut Handle) {
        swm.write_pinassign(6, 3, UNASSIGNED);
    }
}

/// Represents the movable function SCT_PIN1
///
/// It is assigned through field 0 of PINASSIGN7.
#[allow(non_camel_case_types)]
pub struct SCT_PIN1(pub(crate) ());

impl<P: pins::Trait> MovableFunction<P> for SCT_PIN1 {
    open spec fn id() -> MovableFunctionId {
        MovableFunctionId::SCT_PIN1
    }

    proof fn lemma_uses_own_slot(self, pin: P, before: pac::SWM0, after: pac::SWM0) {
    }
}

impl<P: pins::Trait> FunctionTrait<P> for SCT_PIN1 {
    type Kind = Input;

    open spec fn assigned(self, pin: P, before: pac::SWM0, after: pac::SWM0) -> bool {
        pinassign_written(before, after, 7, 0, pin_number(pin.spec_port(), pin.spec_id()))
    }

    open spec fn unassigned(self, pin: P, before: pac::SWM0, after: pac::SWM0) -> bool {
        pinassign_written(before, after, 7, 0, UNASSIGNED)
    }

    proof fn lemma_assign_then_unassign(self, pin: P, before: pac::SWM0, mid: pac::SWM0, after: pac::SWM0) {
        lemma_movable_assign_then_unassign(before, mid, after, 7, 0, pin_number(pin.spec_port(), pin.spec_id()));
    }

    fn assign(&mut self, pin: &mut P, swm: &mut Handle) {
        let n = pin_number_of(&*pin);
        swm.write_pinassign(7, 0, n);
    }

    fn unassign(&mut self, _pin: &mut P, swm: &mut Handle) {
        swm.write_pinassign(7, 0, UNASSIGNED);
    }
}

/// Represents the movable function SCT_PIN2
///
/// It is assigned through field 1 of PINASSIGN7.
#[allow(non_camel_case_types)]
pub struct SCT_PIN2(pub(crate) ());

impl<P: pins::Trait> MovableFunction<P> for SCT_PIN2 {
    open spec fn id() -> MovableFunctionId {
        MovableFunctionId::SCT_PIN2
    }

    proof fn lemma_uses_own_slot(self, pin: P, before: pac::SWM0, after: pac::SWM0) {
    }
}

impl<P: pins::Trait> FunctionTrait<P> for SCT_PIN2 {
    type Kind = Input;

    open spec fn assigned(self, pin: P, before: pac::SWM0, after: pac::SWM0) -> bool {
        pinassign_written(before, after, 7, 1, pin_number(pin.spec_port(), pin.spec_id()))
    }

    open spec fn unassigned(self, pin: P, before: pac::SWM0, after: pac::SWM0) -> bool {
        pinassign_written(before, after, 7, 1, UNASSIGNED)
    }

    proof fn lemma_assign_then_unassign(self, pin: P, before: pac::SWM0, mid: pac::SWM0, after: pac::SWM0) {
        lemma_movable_assign_then_unassign(before, mid, after, 7, 1, pin_number(pin.spec_port(), pin.spec_id()));
    }

    fn assign(&mut self, pin: &mut P, swm: &mut Handle) {
        let n = pin_number_of(&*pin);
        swm.write_pinassign(7, 1, n);
    }

    fn unassign(&mut self, _pin: &mut P, swm: &mut Handle) {
        swm.write_pinassign(7, 1, UNASSIGNED);
    }
}

/// Represents the movable function SCT_PIN3
///
/// It is assigned through field 2 of PINASSIGN7.
#[allow(non_camel_case_types)]
pub struct SCT_PIN3(pub(crate) ());

impl<P: pins::Trait> MovableFunction<P> for SCT_PIN3 {
    open spec fn id() -> MovableFunctionId {
        MovableFunctionId::SCT_PIN3
    }

    proof fn lemma_uses_own_slot(self, pin: P, before: pac::SWM0, after: pac::SWM0) {
    }
}

impl<P: pins::Trait> FunctionTrait<P> for SCT_PIN3 {
    type Kind = Input;

    open spec fn assigned(self, pin: P, before: pac::SWM0, after: pac::SWM0) -> bool {
        pinassign_written(before, after, 7, 2, pin_number(pin.spec_port(), pin.spec_id()))
    }

    open spec fn unassigned(self, pin: P, before: pac::SWM0, after: pac::SWM0) -> bool {
        pinassign_written(before, after, 7, 2, UNASSIGNED)
    }

    proof fn lemma_assign_then_unassign(self, pin: P, before: pac::SWM0, mid: pac::SWM0, after: pac::SWM0) {
        lemma_movable_assign_then_unassign(before, mid, after, 7, 2, pin_number(pin.spec_port(), pin.spec_id()));
    }

    fn assign(&mut self, pin: &mut P, swm: &mut Handle) {
        let n = pin_number_of(&*pin);
        swm.write_pinassign(7, 2, n);
    }

    fn unassign(&mut self, _pin: &mut P, swm: &mut Handle) {
        swm.write_pinassign(7, 2, UNASSIGNED);
    }
}

/// Represents the movable function SCT_OUT0
///
/// It is assigned through field 3 of PINASSIGN7.
#[allow(non_camel_case_types)]
pub struct SCT_OUT0(pub(crate) ());

impl<P: pins::Trait> MovableFunction<P> for SCT_OUT0 {
    open spec fn id() -> MovableFunctionId {
        MovableFunctionId::SCT_OUT0
    }

    proof fn lemma_uses_own_slot(self, pin: P, before: pac::SWM0, after: pac::SWM0) {
    }
}

impl<P: pins::Trait> FunctionTrait<P> for SCT_OUT0 {
    type Kind = Output;

    open spec fn assigned(self, pin: P, before: pac::SWM0, after: pac::SWM0) -> bool {
        pinassign_written(before, after, 7, 3, pin_number(pin.spec_port(), pin.spec_id()))
    }

    open spec fn unassigned(self, pin: P, before: pac::SWM0, after: pac::SWM0) -> bool {
        pinassign_written(before, after, 7, 3, UNASSIGNED)
    }

    proof fn lemma_assign_then_unassign(self, pin: P, before: pac::SWM0, mid: pac::SWM0, after: pac::SWM0) {
        lemma_movable_assign_then_unassign(before, mid, after, 7, 3, pin_number(pin.spec_port(), pin.spec_id()));
    }

    fn assign(&mut self, pin: &mut P, swm: &mut Handle) {
        let n = pin_number_of(&*pin);
        swm.write_pinassign(7, 3, n);
    }

    fn unassign(&mut self, _pin: &mut P, swm: &mut Handle) {
        swm.write_pinassign(7, 3, UNASSIGNED);
    }
}

/// Represents the movable function SCT_OUT1
///
/// It is assigned through field 0 of PINASSIGN8.
#[allow(non_camel_case_types)]
pub struct SCT_OUT1(pub(crate) ());

impl<P: pins::Trait> MovableFunction<P> for SCT_OUT1 {
    open spec fn id() -> MovableFunctionId {
        MovableFunctionId::SCT_OUT1
    }

    proof fn lemma_uses_own_slot(self, pin: P, before: pac::SWM0, after: pac::SWM0) {
    }
}

impl<P: pins::Trait> FunctionTrait<P> for SCT_OUT1 {
    type Kind = Output;

    open spec fn assigned(self, pin: P, before: pac::SWM0, after: pac::SWM0) -> bool {
        pinassign_written(before, after, 8, 0, pin_number(pin.spec_port(), pin.spec_id()))
    }

    open spec fn unassigned(self, pin: P, before: pac::SWM0, after: pac::SWM0) -> bool {
        pinassign_written(before, after, 8, 0, UNASSIGNED)
    }

    proof fn lemma_assign_then_unassign(self, pin: P, before: pac::SWM0, mid: pac::SWM0, after: pac::SWM0) {
        lemma_movable_assign_then_unassign(before, mid, after, 8, 0, pin_number(pin.spec_port(), pin.spec_id()));
    }

    fn assign(&mut self, pin: &mut P, swm: &mut Handle) {
        let n = pin_number_of(&*pin);
        swm.write_pinassign(8, 0, n);
    }

    fn unassign(&mut self, _pin: &mut P, swm: &mut Handle) {
        swm.write_pinassign(8, 0, UNASSIGNED);
    }
}

/// Represents the movable function SCT_OUT2
///
/// It is assigned through field 1 of PINASSIGN8.
#[allow(non_camel_case_types)]
pub struct SCT_OUT2(pub(crate) ());

impl<P: pins::Trait> MovableFunction<P> for SCT_OUT2 {
    open spec fn id() -> MovableFunctionId {
        MovableFunctionId::SCT_OUT2
    }

    proof fn lemma_uses_own_slot(self, pin: P, before: pac::SWM0, after: pac::SWM0) {
    }
}

impl<P: pins::Trait> FunctionTrait<P> for SCT_OUT2 {
    type Kind = Output;

    open spec fn assigned(self, pin: P, before: pac::SWM0, after: pac::SWM0) -> bool {
        pinassign_written(before, after, 8, 1, pin_number(pin.spec_port(), pin.spec_id()))
    }

    open spec fn unassigned(self, pin: P, before: pac::SWM0, after: pac::SWM0) -> bool {
        pinassign_written(before, after, 8, 1, UNASSIGNED)
    }

    proof fn lemma_assign_then_unassign(self, pin: P, before: pac::SWM0, mid: pac::SWM0, after: pac::SWM0) {
        lemma_movable_assign_then_unassign(before, mid, after, 8, 1, pin_number(pin.spec_port(), pin.spec_id()));
    }

    fn assign(&mut self, pin: &mut P, swm: &mut Handle) {
        let n = pin_number_of(&*pin);
        swm.write_pinassign(8, 1, n);
    }

    fn unassign(&mut self, _pin: &mut P, swm: &mut Handle) {
        swm.write_pinassign(8, 1, UNASSIGNED);
    }
}

/// Represents the movable function SCT_OUT3
///
/// It is assigned through field 2 of PINASSIGN8.
#[allow(non_camel_case_types)]
pub struct SCT_OUT3(pub(crate) ());

impl<P: pins::Trait> MovableFunction<P> for SCT_OUT3 {
    open spec fn id() -> MovableFunctionId {
        MovableFunctionId::SCT_OUT3
    }

    proof fn lemma_uses_own_slot(self, pin: P, before: pac::SWM0, after: pac::SWM0) {
    }
}

impl<P: pins::Trait> FunctionTrait<P> for SCT_OUT3 {
    type Kind = Output;

    open spec fn assigned(self, pin: P, before: pac::SWM0, after: pac::SWM0) -> bool {
        pinassign_written(before, after, 8, 2, pin_number(pin.spec_port(), pin.spec_id()))
    }

    open spec fn unassigned(self, pin: P, before: pac::SWM0, after: pac::SWM0) -> bool {
        pinassign_written(before, after, 8, 2, UNASSIGNED)
    }

    proof fn lemma_assign_then_unassign(self, pin: P, before: pac::SWM0, mid: pac::SWM0, after: pac::SWM0) {
        lemma_movable_assign_then_unassign(before, mid, after, 8, 2, pin_number(pin.spec_port(), pin.spec_id()));
    }

    fn assign(&mut self, pin: &mut P, swm: &mut Handle) {
        let n = pin_number_of(&*pin);
        swm.write_pinassign(8, 2, n);
    }

    fn unassign(&mut self, _pin: &mut P, swm: &mut Handle) {
        swm.write_pinassign(8, 2, UNASSIGNED);
    }
}

/// Represents the movable function SCT_OUT4
///
/// It is assigned through field 3 of PINASSIGN8.
#[allow(non_camel_case_types)]
pub struct SCT_OUT4(pub(crate) ());

impl<P: pins::Trait> MovableFunction<P> for SCT_OUT4 {
    open spec fn id() -> MovableFunctionId {
        MovableFunctionId::SCT_OUT4
    }

    proof fn lemma_uses_own_slot(self, pin: P, before: pac::SWM0, after: pac::SWM0) {
    }
}

impl<P: pins::Trait> FunctionTrait<P> for SCT_OUT4 {
    type Kind = Output;

    open spec fn assigned(self, pin: P, before: pac::SWM0, after: pac::SWM0) -> bool {
        pinassign_written(before, after, 8, 3, pin_number(pin.spec_port(), pin.spec_id()))
    }

    open spec fn unassigned(self, pin: P, before: pac::SWM0, after: pac::SWM0) -> bool {
        pinassign_written(before, after, 8, 3, UNASSIGNED)
    }

    proof fn lemma_assign_then_unassign(self, pin: P, before: pac::SWM0, mid: pac::SWM0, after: pac::SWM0) {
        lemma_movable_assign_then_unassign(before, mid, after, 8, 3, pin_number(pin.spec_port(), pin.spec_id()));
    }

    fn assign(&mut self, pin: &mut P, swm: &mut Handle) {
        let n = pin_number_of(&*pin);
        swm.write_pinassign(8, 3, n);
    }

    fn unassign(&mut self, _pin: &mut P, swm: &mut Handle) {
        swm.write_pinassign(8, 3, UNASSIGNED);
    }
}

/// Represents the movable function SCT_OUT5
///
/// It is assigned through field 0 of PINASSIGN9.
#[allow(non_camel_case_types)]
pub struct SCT_OUT5(pub(crate) ());

impl<P: pins::Trait> MovableFunction<P> for SCT_OUT5 {
    open spec fn id() -> MovableFunctionId {
        MovableFunctionId::SCT_OUT5
    }

    proof fn lemma_uses_own_slot(self, pin: P, before: pac::SWM0, after: pac::SWM0) {
    }
}

impl<P: pins::Trait> FunctionTrait<P> for SCT_OUT5 {
    type Kind = Output;

    open spec fn assigned(self, pin: P, before: pac::SWM0, after: pac::SWM0) -> bool {
        pinassign_written(before, after, 9, 0, pin_number(pin.spec_port(), pin.spec_id()))
    }

    open spec fn unassigned(self, pin: P, before: pac::SWM0, after: pac::SWM0) -> bool {
        pinassign_written(before, after, 9, 0, UNASSIGNED)
    }

    proof fn lemma_assign_then_unassign(self, pin: P, before: pac::SWM0, mid: pac::SWM0, after: pac::SWM0) {
        lemma_movable_assign_then_unassign(before, mid, after, 9, 0, pin_number(pin.spec_port(), pin.spec_id()));
    }

    fn assign(&mut self, pin: &mut P, swm: &mut Handle) {
        let n = pin_number_of(&*pin);
        swm.write_pinassign(9, 0, n);
    }

    fn unassign(&mut self, _pin: &mut P, swm: &mut Handle) {
        swm.write_pinassign(9, 0, UNASSIGNED);
    }
}

/// Represents the movable function I2C1_SDA
///
/// It is assigned through field 1 of PINASSIGN9.
#[allow(non_camel_case_types)]
pub struct I2C1_SDA(pub(crate) ());

impl<P: pins::Trait> MovableFunction<P> for I2C1_SDA {
    open spec fn id() -> MovableFunctionId {
        MovableFunctionId::I2C1_SDA
    }

    proof fn lemma_uses_own_slot(self, pin: P, before: pac::SWM0, after: pac::SWM0) {
    }
}

impl<P: pins::Trait> FunctionTrait<P> for I2C1_SDA {
    type Kind = Output;

    open spec fn assigned(self, pin: P, before: pac::SWM0, after: pac::SWM0) -> bool {
        pinassign_written(before, after, 9, 1, pin_number(pin.spec_port(), pin.spec_id()))
    }

    open spec fn unassigned(self, pin: P, before: pac::SWM0, after: pac::SWM0) -> bool {
        pinassign_written(before, after, 9, 1, UNASSIGNED)
    }

    proof fn lemma_assign_then_unassign(self, pin: P, before: pac::SWM0, mid: pac::SWM0, after: pac::SWM0) {
        lemma_movable_assign_then_unassign(before, mid, after, 9, 1, pin_number(pin.spec_port(), pin.spec_id()));
    }

    fn assign(&mut self, pin: &mut P, swm: &mut Handle) {
        let n = pin_number_of(&*pin);
        swm.write_pinassign(9, 1, n);
    }

    fn unassign(&mut self, _pin: &mut P, swm: &mut Handle) {
        swm.write_pinassign(9, 1, UNASSIGNED);
    }
}

/// Represents the movable function I2C1_SCL
///
/// It is assigned through field 2 of PINASSIGN9.
#[allow(non_camel_case_types)]
pub struct I2C1_SCL(pub(crate) ());

impl<P: pins::Trait> MovableFunction<P> for I2C1_SCL {
    open spec fn id() -> MovableFunctionId {
        MovableFunctionId::I2C1_SCL
    }

    proof fn lemma_uses_own_slot(self, pin: P, before: pac::SWM0, after: pac::SWM0) {
    }
}

impl<P: pins::Trait> FunctionTrait<P> for I2C1_SCL {
    type Kind = Output;

    open spec fn assigned(self, pin: P, before: pac::SWM0, after: pac::SWM0) -> bool {
        pinassign_written(before, after, 9, 2, pin_number(pin.spec_port(), pin.spec_id()))
    }

    open spec fn unassigned(self, pin: P, before: pac::SWM0, after: pac::SWM0) -> bool {
        pinassign_written(before, after, 9, 2, UNASSIGNED)
    }

    proof fn lemma_assign_then_unassign(self, pin: P, before: pac::SWM0, mid: pac::SWM0, after: pac::SWM0) {
        lemma_movable_assign_then_unassign(before, mid, after, 9, 2, pin_number(pin.spec_port(), pin.spec_id()));
    }

    fn assign(&mut self, pin: &mut P, swm: &mut Handle) {
        let n = pin_number_of(&*pin);
        swm.write_pinassign(9, 2, n);
    }

    fn unassign(&mut self, _pin: &mut P, swm: &mut Handle) {
        swm.write_pinassign(9, 2, UNASSIGNED);
    }
}

/// Represents the movable function I2C2_SDA
///
/// It is assigned through field 3 of PINASSIGN9.
#[allow(non_camel_case_types)]
pub struct I2C2_SDA(pub(crate) ());

impl<P: pins::Trait> MovableFunction<P> for I2C2_SDA {
    open spec fn id() -> MovableFunctionId {
        MovableFunctionId::I2C2_SDA
    }

    proof fn lemma_uses_own_slot(self, pin: P, before: pac::SWM0, after: pac::SWM0) {
    }
}

impl<P: pins::Trait> FunctionTrait<P> for I2C2_SDA {
    type Kind = Output;

    open spec fn assigned(self, pin: P, before: pac::SWM0, after: pac::SWM0) -> bool {
        pinassign_written(before, after, 9, 3, pin_number(pin.spec_port(), pin.spec_id()))
    }

    open spec fn unassigned(self, pin: P, before: pac::SWM0, after: pac::SWM0) -> bool {
        pinassign_written(before, after, 9, 3, UNASSIGNED)
    }

    proof fn lemma_assign_then_unassign(self, pin: P, before: pac::SWM0, mid: pac::SWM0, after: pac::SWM0) {
        lemma_movable_assign_then_unassign(before, mid, after, 9, 3, pin_number(pin.spec_port(), pin.spec_id()));
    }

    fn assign(&mut self, pin: &mut P, swm: &mut Handle) {
        let n = pin_number_of(&*pin);
        swm.write_pinassign(9, 3, n);
    }

    fn unassign(&mut self, _pin: &mut P, swm: &mut Handle) {
        swm.write_pinassign(9, 3, UNASSIGNED);
    }
}

/// Represents the movable function I2C2_SCL
///
/// It is assigned through field 0 of PINASSIGN10.
#[allow(non_camel_case_types)]
pub struct I2C2_SCL(pub(crate) ());

impl<P: pins::Trait> MovableFunction<P> for I2C2_SCL {
    open spec fn id() -> MovableFunctionId {
        MovableFunctionId::I2C2_SCL
    }

    proof fn lemma_uses_own_slot(self, pin: P, before: pac::SWM0, after: pac::SWM0) {
    }
}

impl<P: pins::Trait> FunctionTrait<P> for I2C2_SCL {
    type Kind = Output;

    open spec fn assigned(self, pin: P, before: pac::SWM0, after: pac::SWM0) -> bool {
        pinassign_written(before, after, 10, 0, pin_number(pin.spec_port(), pin.spec_id()))
    }

    open spec fn unassigned(self, pin: P, before: pac::SWM0, after: pac::SWM0) -> bool {
        pinassign_written(before, after, 10, 0, UNASSIGNED)
    }

    proof fn lemma_assign_then_unassign(self, pin: P, before: pac::SWM0, mid: pac::SWM0, after: pac::SWM0) {
        lemma_movable_assign_then_unassign(before, mid, after, 10, 0, pin_number(pin.spec_port(), pin.spec_id()));
    }

    fn assign(&mut self, pin: &mut P, swm: &mut Handle) {
        let n = pin_number_of(&*pin);
        swm.write_pinassign(10, 0, n);
    }

    fn unassign(&mut self, _pin: &mut P, swm: &mut Handle) {
        swm.write_pinassign(10, 0, UNASSIGNED);
    }
}

/// Represents the movable function I2C3_SDA
///
/// It is assigned through field 1 of PINASSIGN10.
#[allow(non_camel_case_types)]
pub struct I2C3_SDA(pub(crate) ());

impl<P: pins::Trait> MovableFunction<P> for I2C3_SDA {
    open spec fn id() -> MovableFunctionId {
        MovableFunctionId::I2C3_SDA
    }

    proof fn lemma_uses_own_slot(self, pin: P, before: pac::SWM0, after: pac::SWM0) {
    }
}

impl<P: pins::Trait> FunctionTrait<P> for I2C3_SDA {
    type Kind = Output;

    open spec fn assigned(self, pin: P, before: pac::SWM0, after: pac::SWM0) -> bool {
        pinassign_written(before, after, 10, 1, pin_number(pin.spec_port(), pin.spec_id()))
    }

    open spec fn unassigned(self, pin: P, before: pac::SWM0, after: pac::SWM0) -> bool {
        pinassign_written(before, after, 10, 1, UNASSIGNED)
    }

    proof fn lemma_assign_then_unassign(self, pin: P, before: pac::SWM0, mid: pac::SWM0, after: pac::SWM0) {
        lemma_movable_assign_then_unassign(before, mid, after, 10, 1, pin_number(pin.spec_port(), pin.spec_id()));
    }

    fn assign(&mut self, pin: &mut P, swm: &mut Handle) {
        let n = pin_number_of(&*pin);
        swm.write_pinassign(10, 1, n);
    }

    fn unassign(&mut self, _pin: &mut P, swm: &mut Handle) {
        swm.write_pinassign(10, 1, UNASSIGNED);
    }
}

/// Represents the movable function I2C3_SCL
///
/// It is assigned through field 2 of PINASSIGN10.
#[allow(non_camel_case_types)]
pub struct I2C3_SCL(pub(crate) ());

impl<P: pins::Trait> MovableFunction<P> for I2C3_SCL {
    open spec fn id() -> MovableFunctionId {
        MovableFunctionId::I2C3_SCL
    }

    proof fn lemma_uses_own_slot(self, pin: P, before: pac::SWM0, after: pac::SWM0) {
    }
}

impl<P: pins::Trait> FunctionTrait<P> for I2C3_SCL {
    type Kind = Output;

    open spec fn assigned(self, pin: P, before: pac::SWM0, after: pac::SWM0) -> bool {
        pinassign_written(before, after, 10, 2, pin_number(pin.spec_port(), pin.spec_id()))
    }

    open spec fn unassigned(self, pin: P, before: pac::SWM0, after: pac::SWM0) -> bool {
        pinassign_written(before, after, 10, 2, UNASSIGNED)
    }

    proof fn lemma_assign_then_unassign(self, pin: P, before: pac::SWM0, mid: pac::SWM0, after: pac::SWM0) {
        lemma_movable_assign_then_unassign(before, mid, after, 10, 2, pin_number(pin.spec_port(), pin.spec_id()));
    }

    fn assign(&mut self, pin: &mut P, swm: &mut Handle) {
        let n = pin_number_of(&*pin);
        swm.write_pinassign(10, 2, n);
    }

    fn unassign(&mut self, _pin: &mut P, swm: &mut Handle) {
        swm.write_pinassign(10, 2, UNASSIGNED);
    }
}

/// Represents the movable function ADC_PINTRIG0
///
/// It is assigned through field 3 of PINASSIGN10.
#[allow(non_camel_case_types)]
pub struct ADC_PINTRIG0(pub(crate) ());

impl<P: pins::Trait> MovableFunction<P> for ADC_PINTRIG0 {
    open spec fn id() -> MovableFunctionId {
        MovableFunctionId::ADC_PINTRIG0
    }

    proof fn lemma_uses_own_slot(self, pin: P, before: pac::SWM0, after: pac::SWM0) {
    }
}

impl<P: pins::Trait> FunctionTrait<P> for ADC_PINTRIG0 {
    type Kind = Input;

    open spec fn assigned(self, pin: P, before: pac::SWM0, after: pac::SWM0) -> bool {
        pinassign_written(before, after, 10, 3, pin_number(pin.spec_port(), pin.spec_id()))
    }

    open spec fn unassigned(self, pin: P, before: pac::SWM0, after: pac::SWM0) -> bool {
        pinassign_written(before, after, 10, 3, UNASSIGNED)
    }

    proof fn lemma_assign_then_unassign(self, pin: P, before: pac::SWM0, mid: pac::SWM0, after: pac::SWM0) {
        lemma_movable_assign_then_unassign(before, mid, after, 10, 3, pin_number(pin.spec_port(), pin.spec_id()));
    }

    fn assign(&mut self, pin: &mut P, swm: &mut Handle) {
        let n = pin_number_of(&*pin);
        swm.write_pinassign(10, 3, n);
    }

    fn unassign(&mut self, _pin: &mut P, swm: &mut Handle) {
        swm.write_pinassign(10, 3, UNASSIGNED);
    }
}

/// Represents the movable function ADC_PINTRIG1
///
/// It is assigned through field 0 of PINASSIGN11.
#[allow(non_camel_case_types)]
pub struct ADC_PINTRIG1(pub(crate) ());

impl<P: pins::Trait> MovableFunction<P> for ADC_PINTRIG1 {
    open spec fn id() -> MovableFunctionId {
        MovableFunctionId::ADC_PINTRIG1
    }

    proof fn lemma_uses_own_slot(self, pin: P, before: pac::SWM0, after: pac::SWM0) {
    }
}

impl<P: pins::Trait> FunctionTrait<P> for ADC_PINTRIG1 {
    type Kind = Input;

    open spec fn assigned(self, pin: P, before: pac::SWM0, after: pac::SWM0) -> bool {
        pinassign_written(before, after, 11, 0, pin_number(pin.spec_port(), pin.spec_id()))
    }

    open spec fn unassigned(self, pin: P, before: pac::SWM0, after: pac::SWM0) -> bool {
        pinassign_written(before, after, 11, 0, UNASSIGNED)
    }

    proof fn lemma_assign_then_unassign(self, pin: P, before: pac::SWM0, mid: pac::SWM0, after: pac::SWM0) {
        lemma_movable_assign_then_unassign(before, mid, after, 11, 0, pin_number(pin.spec_port(), pin.spec_id()));
    }

    fn assign(&mut self, pin: &mut P, swm: &mut Handle) {
        let n = pin_number_of(&*pin);
        swm.write_pinassign(11, 0, n);
    }

    fn unassign(&mut self, _pin: &mut P, swm: &mut Handle) {
        swm.write_pinassign(11, 0, UNASSIGNED);
    }
}

/// Represents the movable function ACMP_O
///
/// It is assigned through field 1 of PINASSIGN11.
#[allow(non_camel_case_types)]
pub struct ACMP_O(pub(crate) ());

impl<P: pins::Trait> MovableFunction<P> for ACMP_O {
    open spec fn id() -> MovableFunctionId {
        MovableFunctionId::ACMP_O
    }

    proof fn lemma_uses_own_slot(self, pin: P, before: pac::SWM0, after: pac::SWM0) {
    }
}

impl<P: pins::Trait> FunctionTrait<P> for ACMP_O {
    type Kind = Output;

    open spec fn assigned(self, pin: P, before: pac::SWM0, after: pac::SWM0) -> bool {
        pinassign_written(before, after, 11, 1, pin_number(pin.spec_port(), pin.spec_id()))
    }

    open spec fn unassigned(self, pin: P, before: pac::SWM0, after: pac::SWM0) -> bool {
        pinassign_written(before, after, 11, 1, UNASSIGNED)
    }

    proof fn lemma_assign_then_unassign(self, pin: P, before: pac::SWM0, mid: pac::SWM0, after: pac::SWM0) {
        lemma_movable_assign_then_unassign(before, mid, after, 11, 1, pin_number(pin.spec_port(), pin.spec_id()));
    }

    fn assign(&mut self, pin: &mut P, swm: &mut Handle) {
        let n = pin_number_of(&*pin);
        swm.write_pinassign(11, 1, n);
    }

    fn unassign(&mut self, _pin: &mut P, swm: &mut Handle) {
        swm.write_pinassign(11, 1, UNASSIGNED);
    }
}

/// Represents the movable function CLKOUT
///
/// It is assigned through field 2 of PINASSIGN11.
#[allow(non_camel_case_types)]
pub struct CLKOUT(pub(crate) ());

impl<P: pins::Trait> MovableFunction<P> for CLKOUT {
    open spec fn id() -> MovableFunctionId {
        MovableFunctionId::CLKOUT
    }

    proof fn lemma_uses_own_slot(self, pin: P, before: pac::SWM0, after: pac::SWM0) {
    }
}

impl<P: pins::Trait> FunctionTrait<P> for CLKOUT {
    type Kind = Output;

    open spec fn assigned(self, pin: P, before: pac::SWM0, after: pac::SWM0) -> bool {
        pinassign_written(before, after, 11, 2, pin_number(pin.spec_port(), pin.spec_id()))
    }

    open spec fn unassigned(self, pin: P, before: pac::SWM0, after: pac::SWM0) -> bool {
        pinassign_written(before, after, 11, 2, UNASSIGNED)
    }

    proof fn lemma_assign_then_unassign(self, pin: P, before: pac::SWM0, mid: pac::SWM0, after: pac::SWM0) {
        lemma_movable_assign_then_unassign(before, mid, after, 11, 2, pin_number(pin.spec_port(), pin.spec_id()));
    }

    fn assign(&mut self, pin: &mut P, swm: &mut Handle) {
        let n = pin_number_of(&*pin);
        swm.write_pinassign(11, 2, n);
    }

    fn unassign(&mut self, _pin: &mut P, swm: &mut Handle) {
        swm.write_pinassign(11, 2, UNASSIGNED);
    }
}

/// Represents the movable function GPIO_INT_BMAT
///
/// It is assigned through field 3 of PINASSIGN11.
#[allow(non_camel_case_types)]
pub struct GPIO_INT_BMAT(pub(crate) ());

impl<P: pins::Trait> MovableFunction<P> for GPIO_INT_BMAT {
    open spec fn id() -> MovableFunctionId {
        MovableFunctionId::GPIO_INT_BMAT
    }

    proof fn lemma_uses_own_slot(self, pin: P, before: pac::SWM0, after: pac::SWM0) {
    }
}

impl<P: pins::Trait> FunctionTrait<P> for GPIO_INT_BMAT {
    type Kind = Output;

    open spec fn assigned(self, pin: P, before: pac::SWM0, after: pac::SWM0) -> bool {
        pinassign_written(before, after, 11, 3, pin_number(pin.spec_port(), pin.spec_id()))
    }

    open spec fn unassigned(self, pin: P, before: pac::SWM0, after: pac::SWM0) -> bool {
        pinassign_written(before, after, 11, 3, UNASSIGNED)
    }

    proof fn lemma_assign_then_unassign(self, pin: P, before: pac::SWM0, mid: pac::SWM0, after: pac::SWM0) {
        lemma_movable_assign_then_unassign(before, mid, after, 11, 3, pin_number(pin.spec_port(), pin.spec_id()));
    }

    fn assign(&mut self, pin: &mut P, swm: &mut Handle) {
        let n = pin_number_of(&*pin);
        swm.write_pinassign(11, 3, n);
    }

    fn unassign(&mut self, _pin: &mut P, swm: &mut Handle) {
        swm.write_pinassign(11, 3, UNASSIGNED);
    }
}

} // verus!
