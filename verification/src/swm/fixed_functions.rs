use vstd::prelude::*;

use crate::{pac, pins};

use super::{
    function_kind::{Analog, Input, Output},
    functions::{Function, FunctionTrait},
    handle::{lemma_fixed_assign_then_unassign, pinenable_written, Handle},
    state::{Assigned, Unassigned},
};

verus! {

/// Provides access to all fixed functions
///
/// This struct is part of [`swm::Parts`]. SWCLK, SWDIO and RESETN start out
/// assigned, as they are enabled after reset.
///
/// [`swm::Parts`]: struct.Parts.html
#[allow(missing_docs)]
pub struct FixedFunctions {
    pub acmp_i1: Function<ACMP_I1, Unassigned>,
    pub acmp_i2: Function<ACMP_I2, Unassigned>,
    pub acmp_i3: Function<ACMP_I3, Unassigned>,
    pub acmp_i4: Function<ACMP_I4, Unassigned>,
    pub swclk: Function<SWCLK, Assigned<pins::PIO0_3>>,
    pub swdio: Function<SWDIO, Assigned<pins::PIO0_2>>,
    pub xtalin: Function<XTALIN, Unassigned>,
    pub xtalout: Function<XTALOUT, Unassigned>,
    pub resetn: Function<RESETN, Assigned<pins::PIO0_5>>,
    pub clkin: Function<CLKIN, Unassigned>,
    pub vddcmp: Function<VDDCMP, Unassigned>,
    pub i2c0_sda: Function<I2C0_SDA, Unassigned>,
    pub i2c0_scl: Function<I2C0_SCL, Unassigned>,
    pub adc_0: Function<ADC_0, Unassigned>,
    pub adc_1: Function<ADC_1, Unassigned>,
    pub adc_2: Function<ADC_2, Unassigned>,
    pub adc_3: Function<ADC_3, Unassigned>,
    pub adc_4: Function<ADC_4, Unassigned>,
    pub adc_5: Function<ADC_5, Unassigned>,
    pub adc_6: Function<ADC_6, Unassigned>,
    pub adc_7: Function<ADC_7, Unassigned>,
    pub adc_8: Function<ADC_8, Unassigned>,
    pub adc_9: Function<ADC_9, Unassigned>,
    pub adc_10: Function<ADC_10, Unassigned>,
    pub adc_11: Function<ADC_11, Unassigned>,
}

impl FixedFunctions {
    /// Create all fixed functions in their state after reset
    pub(crate) fn new() -> Self {
        FixedFunctions {
            acmp_i1: Function::new(ACMP_I1(())),
            acmp_i2: Function::new(ACMP_I2(())),
            acmp_i3: Function::new(ACMP_I3(())),
            acmp_i4: Function::new(ACMP_I4(())),
            swclk: Function::new(SWCLK(())),
            swdio: Function::new(SWDIO(())),
            xtalin: Function::new(XTALIN(())),
            xtalout: Function::new(XTALOUT(())),
            resetn: Function::new(RESETN(())),
            clkin: Function::new(CLKIN(())),
            vddcmp: Function::new(VDDCMP(())),
            i2c0_sda: Function::new(I2C0_SDA(())),
            i2c0_scl: Function::new(I2C0_SCL(())),
            adc_0: Function::new(ADC_0(())),
            adc_1: Function::new(ADC_1(())),
            adc_2: Function::new(ADC_2(())),
            adc_3: Function::new(ADC_3(())),
            adc_4: Function::new(ADC_4(())),
            adc_5: Function::new(ADC_5(())),
            adc_6: Function::new(ADC_6(())),
            adc_7: Function::new(ADC_7(())),
            adc_8: Function::new(ADC_8(())),
            adc_9: Function::new(ADC_9(())),
            adc_10: Function::new(ADC_10(())),
            adc_11: Function::new(ADC_11(())),
        }
    }
}

/// Represents the fixed function ACMP_I1 on pin PIO0_0
///
/// It is enabled by clearing bit 0 of PINENABLE0.
#[allow(non_camel_case_types)]
pub struct ACMP_I1(pub(crate) ());

impl FunctionTrait<pins::PIO0_0> for ACMP_I1 {
    type Kind = Input;

    open spec fn assigned(self, pin: pins::PIO0_0, before: pac::SWM0, after: pac::SWM0) -> bool {
        pinenable_written(before, after, 0x1, false)
    }

    open spec fn unassigned(self, pin: pins::PIO0_0, before: pac::SWM0, after: pac::SWM0) -> bool {
        pinenable_written(before, after, 0x1, true)
    }

    proof fn lemma_assign_then_unassign(self, pin: pins::PIO0_0, before: pac::SWM0, mid: pac::SWM0, after: pac::SWM0) {
        lemma_fixed_assign_then_unassign(before, mid, after, 0x1);
    }

    fn assign(&mut self, _pin: &mut pins::PIO0_0, swm: &mut Handle) {
        swm.write_pinenable(0x1, false);
    }

    fn unassign(&mut self, _pin: &mut pins::PIO0_0, swm: &mut Handle) {
        swm.write_pinenable(0x1, true);
    }
}

/// Represents the fixed function ACMP_I2 on pin PIO0_1
///
/// It is enabled by clearing bit 1 of PINENABLE0.
#[allow(non_camel_case_types)]
pub struct ACMP_I2(pub(crate) ());

impl FunctionTrait<pins::PIO0_1> for ACMP_I2 {
    type Kind = Input;

    open spec fn assigned(self, pin: pins::PIO0_1, before: pac::SWM0, after: pac::SWM0) -> bool {
        pinenable_written(before, after, 0x2, false)
    }

    open spec fn unassigned(self, pin: pins::PIO0_1, before: pac::SWM0, after: pac::SWM0) -> bool {
        pinenable_written(before, after, 0x2, true)
    }

    proof fn lemma_assign_then_unassign(self, pin: pins::PIO0_1, before: pac::SWM0, mid: pac::SWM0, after: pac::SWM0) {
        lemma_fixed_assign_then_unassign(before, mid, after, 0x2);
    }

    fn assign(&mut self, _pin: &mut pins::PIO0_1, swm: &mut Handle) {
        swm.write_pinenable(0x2, false);
    }

    fn unassign(&mut self, _pin: &mut pins::PIO0_1, swm: &mut Handle) {
        swm.write_pinenable(0x2, true);
    }
}

/// Represents the fixed function ACMP_I3 on pin PIO0_14
///
/// It is enabled by clearing bit 2 of PINENABLE0.
#[allow(non_camel_case_types)]
pub struct ACMP_I3(pub(crate) ());

impl FunctionTrait<pins::PIO0_14> for ACMP_I3 {
    type Kind = Input;

    open spec fn assigned(self, pin: pins::PIO0_14, before: pac::SWM0, after: pac::SWM0) -> bool {
        pinenable_written(before, after, 0x4, false)
    }

    open spec fn unassigned(self, pin: pins::PIO0_14, before: pac::SWM0, after: pac::SWM0) -> bool {
        pinenable_written(before, after, 0x4, true)
    }

    proof fn lemma_assign_then_unassign(self, pin: pins::PIO0_14, before: pac::SWM0, mid: pac::SWM0, after: pac::SWM0) {
        lemma_fixed_assign_then_unassign(before, mid, after, 0x4);
    }

    fn assign(&mut self, _pin: &mut pins::PIO0_14, swm: &mut Handle) {
        swm.write_pinenable(0x4, false);
    }

    fn unassign(&mut self, _pin: &mut pins::PIO0_14, swm: &mut Handle) {
        swm.write_pinenable(0x4, true);
    }
}

/// Represents the fixed function ACMP_I4 on pin PIO0_23
///
/// It is enabled by clearing bit 3 of PINENABLE0.
#[allow(non_camel_case_types)]
pub struct ACMP_I4(pub(crate) ());

impl FunctionTrait<pins::PIO0_23> for ACMP_I4 {
    type Kind = Input;

    open spec fn assigned(self, pin: pins::PIO0_23, before: pac::SWM0, after: pac::SWM0) -> bool {
        pinenable_written(before, after, 0x8, false)
    }

    open spec fn unassigned(self, pin: pins::PIO0_23, before: pac::SWM0, after: pac::SWM0) -> bool {
        pinenable_written(before, after, 0x8, true)
    }

    proof fn lemma_assign_then_unassign(self, pin: pins::PIO0_23, before: pac::SWM0, mid: pac::SWM0, after: pac::SWM0) {
        lemma_fixed_assign_then_unassign(before, mid, after, 0x8);
    }

    fn assign(&mut self, _pin: &mut pins::PIO0_23, swm: &mut Handle) {
        swm.write_pinenable(0x8, false);
    }

    fn unassign(&mut self, _pin: &mut pins::PIO0_23, swm: &mut Handle) {
        swm.write_pinenable(0x8, true);
    }
}

/// Represents the fixed function SWCLK on pin PIO0_3
///
/// It is enabled by clearing bit 4 of PINENABLE0.
#[allow(non_camel_case_types)]
pub struct SWCLK(pub(crate) ());

impl FunctionTrait<pins::PIO0_3> for SWCLK {
    type Kind = Output;

    open spec fn assigned(self, pin: pins::PIO0_3, before: pac::SWM0, after: pac::SWM0) -> bool {
        pinenable_written(before, after, 0x10, false)
    }

    open spec fn unassigned(self, pin: pins::PIO0_3, before: pac::SWM0, after: pac::SWM0) -> bool {
        pinenable_written(before, after, 0x10, true)
    }

    proof fn lemma_assign_then_unassign(self, pin: pins::PIO0_3, before: pac::SWM0, mid: pac::SWM0, after: pac::SWM0) {
        lemma_fixed_assign_then_unassign(before, mid, after, 0x10);
    }

    fn assign(&mut self, _pin: &mut pins::PIO0_3, swm: &mut Handle) {
        swm.write_pinenable(0x10, false);
    }

    fn unassign(&mut self, _pin: &mut pins::PIO0_3, swm: &mut Handle) {
        swm.write_pinenable(0x10, true);
    }
}

/// Represents the fixed function SWDIO on pin PIO0_2
///
/// It is enabled by clearing bit 5 of PINENABLE0.
#[allow(non_camel_case_types)]
pub struct SWDIO(pub(crate) ());

impl FunctionTrait<pins::PIO0_2> for SWDIO {
    type Kind = Output;

    open spec fn assigned(self, pin: pins::PIO0_2, before: pac::SWM0, after: pac::SWM0) -> bool {
        pinenable_written(before, after, 0x20, false)
    }

    open spec fn unassigned(self, pin: pins::PIO0_2, before: pac::SWM0, after: pac::SWM0) -> bool {
        pinenable_written(before, after, 0x20, true)
    }

    proof fn lemma_assign_then_unassign(self, pin: pins::PIO0_2, before: pac::SWM0, mid: pac::SWM0, after: pac::SWM0) {
        lemma_fixed_assign_then_unassign(before, mid, after, 0x20);
    }

    fn assign(&mut self, _pin: &mut pins::PIO0_2, swm: &mut Handle) {
        swm.write_pinenable(0x20, false);
    }

    fn unassign(&mut self, _pin: &mut pins::PIO0_2, swm: &mut Handle) {
        swm.write_pinenable(0x20, true);
    }
}

/// Represents the fixed function XTALIN on pin PIO0_8
///
/// It is enabled by clearing bit 6 of PINENABLE0.
#[allow(non_camel_case_types)]
pub struct XTALIN(pub(crate) ());

impl FunctionTrait<pins::PIO0_8> for XTALIN {
    type Kind = Input;

    open spec fn assigned(self, pin: pins::PIO0_8, before: pac::SWM0, after: pac::SWM0) -> bool {
        pinenable_written(before, after, 0x40, false)
    }

    open spec fn unassigned(self, pin: pins::PIO0_8, before: pac::SWM0, after: pac::SWM0) -> bool {
        pinenable_written(before, after, 0x40, true)
    }

    proof fn lemma_assign_then_unassign(self, pin: pins::PIO0_8, before: pac::SWM0, mid: pac::SWM0, after: pac::SWM0) {
        lemma_fixed_assign_then_unassign(before, mid, after, 0x40);
    }

    fn assign(&mut self, _pin: &mut pins::PIO0_8, swm: &mut Handle) {
        swm.write_pinenable(0x40, false);
    }

    fn unassign(&mut self, _pin: &mut pins::PIO0_8, swm: &mut Handle) {
        swm.write_pinenable(0x40, true);
    }
}

/// Represents the fixed function XTALOUT on pin PIO0_9
///
/// It is enabled by clearing bit 7 of PINENABLE0.
#[allow(non_camel_case_types)]
pub struct XTALOUT(pub(crate) ());

impl FunctionTrait<pins::PIO0_9> for XTALOUT {
    type Kind = Output;

    open spec fn assigned(self, pin: pins::PIO0_9, before: pac::SWM0, after: pac::SWM0) -> bool {
        pinenable_written(before, after, 0x80, false)
    }

    open spec fn unassigned(self, pin: pins::PIO0_9, before: pac::SWM0, after: pac::SWM0) -> bool {
        pinenable_written(before, after, 0x80, true)
    }

    proof fn lemma_assign_then_unassign(self, pin: pins::PIO0_9, before: pac::SWM0, mid: pac::SWM0, after: pac::SWM0) {
        lemma_fixed_assign_then_unassign(before, mid, after, 0x80);
    }

    fn assign(&mut self, _pin: &mut pins::PIO0_9, swm: &mut Handle) {
        swm.write_pinenable(0x80, false);
    }

    fn unassign(&mut self, _pin: &mut pins::PIO0_9, swm: &mut Handle) {
        swm.write_pinenable(0x80, true);
    }
}

/// Represents the fixed function RESETN on pin PIO0_5
///
/// It is enabled by clearing bit 8 of PINENABLE0.
#[allow(non_camel_case_types)]
pub struct RESETN(pub(crate) ());

impl FunctionTrait<pins::PIO0_5> for RESETN {
    type Kind = Input;

    open spec fn assigned(self, pin: pins::PIO0_5, before: pac::SWM0, after: pac::SWM0) -> bool {
        pinenable_written(before, after, 0x100, false)
    }

    open spec fn unassigned(self, pin: pins::PIO0_5, before: pac::SWM0, after: pac::SWM0) -> bool {
        pinenable_written(before, after, 0x100, true)
    }

    proof fn lemma_assign_then_unassign(self, pin: pins::PIO0_5, before: pac::SWM0, mid: pac::SWM0, after: pac::SWM0) {
        lemma_fixed_assign_then_unassign(before, mid, after, 0x100);
    }

    fn assign(&mut self, _pin: &mut pins::PIO0_5, swm: &mut Handle) {
        swm.write_pinenable(0x100, false);
    }

    fn unassign(&mut self, _pin: &mut pins::PIO0_5, swm: &mut Handle) {
        swm.write_pinenable(0x100, true);
    }
}

/// Represents the fixed function CLKIN on pin PIO0_1
///
/// It is enabled by clearing bit 9 of PINENABLE0.
#[allow(non_camel_case_types)]
pub struct CLKIN(pub(crate) ());

impl FunctionTrait<pins::PIO0_1> for CLKIN {
    type Kind = Input;

    open spec fn assigned(self, pin: pins::PIO0_1, before: pac::SWM0, after: pac::SWM0) -> bool {
        pinenable_written(before, after, 0x200, false)
    }

    open spec fn unassigned(self, pin: pins::PIO0_1, before: pac::SWM0, after: pac::SWM0) -> bool {
        pinenable_written(before, after, 0x200, true)
    }

    proof fn lemma_assign_then_unassign(self, pin: pins::PIO0_1, before: pac::SWM0, mid: pac::SWM0, after: pac::SWM0) {
        lemma_fixed_assign_then_unassign(before, mid, after, 0x200);
    }

    fn assign(&mut self, _pin: &mut pins::PIO0_1, swm: &mut Handle) {
        swm.write_pinenable(0x200, false);
    }

    fn unassign(&mut self, _pin: &mut pins::PIO0_1, swm: &mut Handle) {
        swm.write_pinenable(0x200, true);
    }
}

/// Represents the fixed function VDDCMP on pin PIO0_6
///
/// It is enabled by clearing bit 10 of PINENABLE0.
#[allow(non_camel_case_types)]
pub struct VDDCMP(pub(crate) ());

impl FunctionTrait<pins::PIO0_6> for VDDCMP {
    type Kind = Input;

    open spec fn assigned(self, pin: pins::PIO0_6, before: pac::SWM0, after: pac::SWM0) -> bool {
        pinenable_written(before, after, 0x400, false)
    }

    open spec fn unassigned(self, pin: pins::PIO0_6, before: pac::SWM0, after: pac::SWM0) -> bool {
        pinenable_written(before, after, 0x400, true)
    }

    proof fn lemma_assign_then_unassign(self, pin: pins::PIO0_6, before: pac::SWM0, mid: pac::SWM0, after: pac::SWM0) {
        lemma_fixed_assign_then_unassign(before, mid, after, 0x400);
    }

    fn assign(&mut self, _pin: &mut pins::PIO0_6, swm: &mut Handle) {
        swm.write_pinenable(0x400, false);
    }

    fn unassign(&mut self, _pin: &mut pins::PIO0_6, swm: &mut Handle) {
        swm.write_pinenable(0x400, true);
    }
}

/// Represents the fixed function I2C0_SDA on pin PIO0_11
///
/// It is enabled by clearing bit 11 of PINENABLE0.
#[allow(non_camel_case_types)]
pub struct I2C0_SDA(pub(crate) ());

impl FunctionTrait<pins::PIO0_11> for I2C0_SDA {
    type Kind = Output;

    open spec fn assigned(self, pin: pins::PIO0_11, before: pac::SWM0, after: pac::SWM0) -> bool {
        pinenable_written(before, after, 0x800, false)
    }

    open spec fn unassigned(self, pin: pins::PIO0_11, before: pac::SWM0, after: pac::SWM0) -> bool {
        pinenable_written(before, after, 0x800, true)
    }

    proof fn lemma_assign_then_unassign(self, pin: pins::PIO0_11, before: pac::SWM0, mid: pac::SWM0, after: pac::SWM0) {
        lemma_fixed_assign_then_unassign(before, mid, after, 0x800);
    }

    fn assign(&mut self, _pin: &mut pins::PIO0_11, swm: &mut Handle) {
        swm.write_pinenable(0x800, false);
    }

    fn unassign(&mut self, _pin: &mut pins::PIO0_11, swm: &mut Handle) {
        swm.write_pinenable(0x800, true);
    }
}

/// Represents the fixed function I2C0_SCL on pin PIO0_10
///
/// It is enabled by clearing bit 12 of PINENABLE0.
#[allow(non_camel_case_types)]
pub struct I2C0_SCL(pub(crate) ());

impl FunctionTrait<pins::PIO0_10> for I2C0_SCL {
    type Kind = Output;

    open spec fn assigned(self, pin: pins::PIO0_10, before: pac::SWM0, after: pac::SWM0) -> bool {
        pinenable_written(before, after, 0x1000, false)
    }

    open spec fn unassigned(self, pin: pins::PIO0_10, before: pac::SWM0, after: pac::SWM0) -> bool {
        pinenable_written(before, after, 0x1000, true)
    }

    proof fn lemma_assign_then_unassign(self, pin: pins::PIO0_10, before: pac::SWM0, mid: pac::SWM0, after: pac::SWM0) {
        lemma_fixed_assign_then_unassign(before, mid, after, 0x1000);
    }

    fn assign(&mut self, _pin: &mut pins::PIO0_10, swm: &mut Handle) {
        swm.write_pinenable(0x1000, false);
    }

    fn unassign(&mut self, _pin: &mut pins::PIO0_10, swm: &mut Handle) {
        swm.write_pinenable(0x1000, true);
    }
}

/// Represents the fixed function ADC_0 on pin PIO0_7
///
/// It is enabled by clearing bit 13 of PINENABLE0.
#[allow(non_camel_case_types)]
pub struct ADC_0(pub(crate) ());

impl FunctionTrait<pins::PIO0_7> for ADC_0 {
    type Kind = Analog;

    open spec fn assigned(self, pin: pins::PIO0_7, before: pac::SWM0, after: pac::SWM0) -> bool {
        pinenable_written(before, after, 0x2000, false)
    }

    open spec fn unassigned(self, pin: pins::PIO0_7, before: pac::SWM0, after: pac::SWM0) -> bool {
        pinenable_written(before, after, 0x2000, true)
    }

    proof fn lemma_assign_then_unassign(self, pin: pins::PIO0_7, before: pac::SWM0, mid: pac::SWM0, after: pac::SWM0) {
        lemma_fixed_assign_then_unassign(before, mid, after, 0x2000);
    }

    fn assign(&mut self, _pin: &mut pins::PIO0_7, swm: &mut Handle) {
        swm.write_pinenable(0x2000, false);
    }

    fn unassign(&mut self, _pin: &mut pins::PIO0_7, swm: &mut Handle) {
        swm.write_pinenable(0x2000, true);
    }
}

/// Represents the fixed function ADC_1 on pin PIO0_6
///
/// It is enabled by clearing bit 14 of PINENABLE0.
#[allow(non_camel_case_types)]
pub struct ADC_1(pub(crate) ());

impl FunctionTrait<pins::PIO0_6> for ADC_1 {
    type Kind = Analog;

    open spec fn assigned(self, pin: pins::PIO0_6, before: pac::SWM0, after: pac::SWM0) -> bool {
        pinenable_written(before, after, 0x4000, false)
    }

    open spec fn unassigned(self, pin: pins::PIO0_6, before: pac::SWM0, after: pac::SWM0) -> bool {
        pinenable_written(before, after, 0x4000, true)
    }

    proof fn lemma_assign_then_unassign(self, pin: pins::PIO0_6, before: pac::SWM0, mid: pac::SWM0, after: pac::SWM0) {
        lemma_fixed_assign_then_unassign(before, mid, after, 0x4000);
    }

    fn assign(&mut self, _pin: &mut pins::PIO0_6, swm: &mut Handle) {
        swm.write_pinenable(0x4000, false);
    }

    fn unassign(&mut self, _pin: &mut pins::PIO0_6, swm: &mut Handle) {
        swm.write_pinenable(0x4000, true);
    }
}

/// Represents the fixed function ADC_2 on pin PIO0_14
///
/// It is enabled by clearing bit 15 of PINENABLE0.
#[allow(non_camel_case_types)]
pub struct ADC_2(pub(crate) ());

impl FunctionTrait<pins::PIO0_14> for ADC_2 {
    type Kind = Analog;

    open spec fn assigned(self, pin: pins::PIO0_14, before: pac::SWM0, after: pac::SWM0) -> bool {
        pinenable_written(before, after, 0x8000, false)
    }

    open spec fn unassigned(self, pin: pins::PIO0_14, before: pac::SWM0, after: pac::SWM0) -> bool {
        pinenable_written(before, after, 0x8000, true)
    }

    proof fn lemma_assign_then_unassign(self, pin: pins::PIO0_14, before: pac::SWM0, mid: pac::SWM0, after: pac::SWM0) {
        lemma_fixed_assign_then_unassign(before, mid, after, 0x8000);
    }

    fn assign(&mut self, _pin: &mut pins::PIO0_14, swm: &mut Handle) {
        swm.write_pinenable(0x8000, false);
    }

    fn unassign(&mut self, _pin: &mut pins::PIO0_14, swm: &mut Handle) {
        swm.write_pinenable(0x8000, true);
    }
}

/// Represents the fixed function ADC_3 on pin PIO0_23
///
/// It is enabled by clearing bit 16 of PINENABLE0.
#[allow(non_camel_case_types)]
pub struct ADC_3(pub(crate) ());

impl FunctionTrait<pins::PIO0_23> for ADC_3 {
    type Kind = Analog;

    open spec fn assigned(self, pin: pins::PIO0_23, before: pac::SWM0, after: pac::SWM0) -> bool {
        pinenable_written(before, after, 0x10000, false)
    }

    open spec fn unassigned(self, pin: pins::PIO0_23, before: pac::SWM0, after: pac::SWM0) -> bool {
        pinenable_written(before, after, 0x10000, true)
    }

    proof fn lemma_assign_then_unassign(self, pin: pins::PIO0_23, before: pac::SWM0, mid: pac::SWM0, after: pac::SWM0) {
        lemma_fixed_assign_then_unassign(before, mid, after, 0x10000);
    }

    fn assign(&mut self, _pin: &mut pins::PIO0_23, swm: &mut Handle) {
        swm.write_pinenable(0x10000, false);
    }

    fn unassign(&mut self, _pin: &mut pins::PIO0_23, swm: &mut Handle) {
        swm.write_pinenable(0x10000, true);
    }
}

/// Represents the fixed function ADC_4 on pin PIO0_22
///
/// It is enabled by clearing bit 17 of PINENABLE0.
#[allow(non_camel_case_types)]
pub struct ADC_4(pub(crate) ());

impl FunctionTrait<pins::PIO0_22> for ADC_4 {
    type Kind = Analog;

    open spec fn assigned(self, pin: pins::PIO0_22, before: pac::SWM0, after: pac::SWM0) -> bool {
        pinenable_written(before, after, 0x20000, false)
    }

    open spec fn unassigned(self, pin: pins::PIO0_22, before: pac::SWM0, after: pac::SWM0) -> bool {
        pinenable_written(before, after, 0x20000, true)
    }

    proof fn lemma_assign_then_unassign(self, pin: pins::PIO0_22, before: pac::SWM0, mid: pac::SWM0, after: pac::SWM0) {
        lemma_fixed_assign_then_unassign(before, mid, after, 0x20000);
    }

    fn assign(&mut self, _pin: &mut pins::PIO0_22, swm: &mut Handle) {
        swm.write_pinenable(0x20000, false);
    }

    fn unassign(&mut self, _pin: &mut pins::PIO0_22, swm: &mut Handle) {
        swm.write_pinenable(0x20000, true);
    }
}

/// Represents the fixed function ADC_5 on pin PIO0_21
///
/// It is enabled by clearing bit 18 of PINENABLE0.
#[allow(non_camel_case_types)]
pub struct ADC_5(pub(crate) ());

impl FunctionTrait<pins::PIO0_21> for ADC_5 {
    type Kind = Analog;

    open spec fn assigned(self, pin: pins::PIO0_21, before: pac::SWM0, after: pac::SWM0) -> bool {
        pinenable_written(before, after, 0x40000, false)
    }

    open spec fn unassigned(self, pin: pins::PIO0_21, before: pac::SWM0, after: pac::SWM0) -> bool {
        pinenable_written(before, after, 0x40000, true)
    }

    proof fn lemma_assign_then_unassign(self, pin: pins::PIO0_21, before: pac::SWM0, mid: pac::SWM0, after: pac::SWM0) {
        lemma_fixed_assign_then_unassign(before, mid, after, 0x40000);
    }

    fn assign(&mut self, _pin: &mut pins::PIO0_21, swm: &mut Handle) {
        swm.write_pinenable(0x40000, false);
    }

    fn unassign(&mut self, _pin: &mut pins::PIO0_21, swm: &mut Handle) {
        swm.write_pinenable(0x40000, true);
    }
}

/// Represents the fixed function ADC_6 on pin PIO0_20
///
/// It is enabled by clearing bit 19 of PINENABLE0.
#[allow(non_camel_case_types)]
pub struct ADC_6(pub(crate) ());

impl FunctionTrait<pins::PIO0_20> for ADC_6 {
    type Kind = Analog;

    open spec fn assigned(self, pin: pins::PIO0_20, before: pac::SWM0, after: pac::SWM0) -> bool {
        pinenable_written(before, after, 0x80000, false)
    }

    open spec fn unassigned(self, pin: pins::PIO0_20, before: pac::SWM0, after: pac::SWM0) -> bool {
        pinenable_written(before, after, 0x80000, true)
    }

    proof fn lemma_assign_then_unassign(self, pin: pins::PIO0_20, before: pac::SWM0, mid: pac::SWM0, after: pac::SWM0) {
        lemma_fixed_assign_then_unassign(before, mid, after, 0x80000);
    }

    fn assign(&mut self, _pin: &mut pins::PIO0_20, swm: &mut Handle) {
        swm.write_pinenable(0x80000, false);
    }

    fn unassign(&mut self, _pin: &mut pins::PIO0_20, swm: &mut Handle) {
        swm.write_pinenable(0x80000, true);
    }
}

/// Represents the fixed function ADC_7 on pin PIO0_19
///
/// It is enabled by clearing bit 20 of PINENABLE0.
#[allow(non_camel_case_types)]
pub struct ADC_7(pub(crate) ());

impl FunctionTrait<pins::PIO0_19> for ADC_7 {
    type Kind = Analog;

    open spec fn assigned(self, pin: pins::PIO0_19, before: pac::SWM0, after: pac::SWM0) -> bool {
        pinenable_written(before, after, 0x100000, false)
    }

    open spec fn unassigned(self, pin: pins::PIO0_19, before: pac::SWM0, after: pac::SWM0) -> bool {
        pinenable_written(before, after, 0x100000, true)
    }

    proof fn lemma_assign_then_unassign(self, pin: pins::PIO0_19, before: pac::SWM0, mid: pac::SWM0, after: pac::SWM0) {
        lemma_fixed_assign_then_unassign(before, mid, after, 0x100000);
    }

    fn assign(&mut self, _pin: &mut pins::PIO0_19, swm: &mut Handle) {
        swm.write_pinenable(0x100000, false);
    }

    fn unassign(&mut self, _pin: &mut pins::PIO0_19, swm: &mut Handle) {
        swm.write_pinenable(0x100000, true);
    }
}

/// Represents the fixed function ADC_8 on pin PIO0_18
///
/// It is enabled by clearing bit 21 of PINENABLE0.
#[allow(non_camel_case_types)]
pub struct ADC_8(pub(crate) ());

impl FunctionTrait<pins::PIO0_18> for ADC_8 {
    type Kind = Analog;

    open spec fn assigned(self, pin: pins::PIO0_18, before: pac::SWM0, after: pac::SWM0) -> bool {
        pinenable_written(before, after, 0x200000, false)
    }

    open spec fn unassigned(self, pin: pins::PIO0_18, before: pac::SWM0, after: pac::SWM0) -> bool {
        pinenable_written(before, after, 0x200000, true)
    }

    proof fn lemma_assign_then_unassign(self, pin: pins::PIO0_18, before: pac::SWM0, mid: pac::SWM0, after: pac::SWM0) {
        lemma_fixed_assign_then_unassign(before, mid, after, 0x200000);
    }

    fn assign(&mut self, _pin: &mut pins::PIO0_18, swm: &mut Handle) {
        swm.write_pinenable(0x200000, false);
    }

    fn unassign(&mut self, _pin: &mut pins::PIO0_18, swm: &mut Handle) {
        swm.write_pinenable(0x200000, true);
    }
}

/// Represents the fixed function ADC_9 on pin PIO0_17
///
/// It is enabled by clearing bit 22 of PINENABLE0.
#[allow(non_camel_case_types)]
pub struct ADC_9(pub(crate) ());

impl FunctionTrait<pins::PIO0_17> for ADC_9 {
    type Kind = Analog;

    open spec fn assigned(self, pin: pins::PIO0_17, before: pac::SWM0, after: pac::SWM0) -> bool {
        pinenable_written(before, after, 0x400000, false)
    }

    open spec fn unassigned(self, pin: pins::PIO0_17, before: pac::SWM0, after: pac::SWM0) -> bool {
        pinenable_written(before, after, 0x400000, true)
    }

    proof fn lemma_assign_then_unassign(self, pin: pins::PIO0_17, before: pac::SWM0, mid: pac::SWM0, after: pac::SWM0) {
        lemma_fixed_assign_then_unassign(before, mid, after, 0x400000);
    }

    fn assign(&mut self, _pin: &mut pins::PIO0_17, swm: &mut Handle) {
        swm.write_pinenable(0x400000, false);
    }

    fn unassign(&mut self, _pin: &mut pins::PIO0_17, swm: &mut Handle) {
        swm.write_pinenable(0x400000, true);
    }
}

/// Represents the fixed function ADC_10 on pin PIO0_13
///
/// It is enabled by clearing bit 23 of PINENABLE0.
#[allow(non_camel_case_types)]
pub struct ADC_10(pub(crate) ());

impl FunctionTrait<pins::PIO0_13> for ADC_10 {
    type Kind = Analog;

    open spec fn assigned(self, pin: pins::PIO0_13, before: pac::SWM0, after: pac::SWM0) -> bool {
        pinenable_written(before, after, 0x800000, false)
    }

    open spec fn unassigned(self, pin: pins::PIO0_13, before: pac::SWM0, after: pac::SWM0) -> bool {
        pinenable_written(before, after, 0x800000, true)
    }

    proof fn lemma_assign_then_unassign(self, pin: pins::PIO0_13, before: pac::SWM0, mid: pac::SWM0, after: pac::SWM0) {
        lemma_fixed_assign_then_unassign(before, mid, after, 0x800000);
    }

    fn assign(&mut self, _pin: &mut pins::PIO0_13, swm: &mut Handle) {
        swm.write_pinenable(0x800000, false);
    }

    fn unassign(&mut self, _pin: &mut pins::PIO0_13, swm: &mut Handle) {
        swm.write_pinenable(0x800000, true);
    }
}

/// Represents the fixed function ADC_11 on pin PIO0_4
///
/// It is enabled by clearing bit 24 of PINENABLE0.
#[allow(non_camel_case_types)]
pub struct ADC_11(pub(crate) ());

impl FunctionTrait<pins::PIO0_4> for ADC_11 {
    type Kind = Analog;

    open spec fn assigned(self, pin: pins::PIO0_4, before: pac::SWM0, after: pac::SWM0) -> bool {
        pinenable_written(before, after, 0x1000000, false)
    }

    open spec fn unassigned(self, pin: pins::PIO0_4, before: pac::SWM0, after: pac::SWM0) -> bool {
        pinenable_written(before, after, 0x1000000, true)
    }

    proof fn lemma_assign_then_unassign(self, pin: pins::PIO0_4, before: pac::SWM0, mid: pac::SWM0, after: pac::SWM0) {
        lemma_fixed_assign_then_unassign(before, mid, after, 0x1000000);
    }

    fn assign(&mut self, _pin: &mut pins::PIO0_4, swm: &mut Handle) {
        swm.write_pinenable(0x1000000, false);
    }

    fn unassign(&mut self, _pin: &mut pins::PIO0_4, swm: &mut Handle) {
        swm.write_pinenable(0x1000000, true);
    }
}

} // verus!
