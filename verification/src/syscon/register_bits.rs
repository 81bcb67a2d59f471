//! Where the SYSCON registers keep each peripheral's bit
//!
//! The laws in this file pin the bit that each peripheral, analog block and
//! wake-up interrupt owns in SYSAHBCLKCTRL, PRESETCTRL, PDRUNCFG and
//! STARTERP1 to the bit the user manual gives it, and show that no two of them
//! share a bit (apart from the two pairs named below).

use vstd::prelude::*;
use vstd::pervasive::arbitrary;

use crate::pac;

use super::{
    AnalogBlock, BodWakeup, ClockControl, I2c0Wakeup, I2c1Wakeup, I2c2Wakeup, I2c3Wakeup,
    ResetControl, Spi0Wakeup, Spi1Wakeup, Usart0Wakeup, Usart1Wakeup, Usart2Wakeup,
    WakeUpInterrupt, WktWakeup, WwdtWakeup, BOD, FLASH, IOSC, IOSCOUT, MTB, RAM0_1, ROM, SYSOSC,
    SYSPLL, UARTFRG,
};

verus! {

/// The SYSAHBCLKCTRL masks of the peripherals with a clock of their own, in the order of the register's bits
pub open spec fn clock_masks() -> Seq<u32> {
    seq![
        arbitrary::<ROM>().clock_mask(),
        arbitrary::<RAM0_1>().clock_mask(),
        arbitrary::<FLASH>().clock_mask(),
        arbitrary::<pac::I2C0>().clock_mask(),
        arbitrary::<pac::GPIO>().clock_mask(),
        arbitrary::<pac::SWM0>().clock_mask(),
        arbitrary::<pac::SCT0>().clock_mask(),
        arbitrary::<pac::WKT>().clock_mask(),
        arbitrary::<pac::MRT0>().clock_mask(),
        arbitrary::<pac::SPI0>().clock_mask(),
        arbitrary::<pac::SPI1>().clock_mask(),
        arbitrary::<pac::CRC>().clock_mask(),
        arbitrary::<pac::USART0>().clock_mask(),
        arbitrary::<pac::USART1>().clock_mask(),
        arbitrary::<pac::USART2>().clock_mask(),
        arbitrary::<pac::WWDT>().clock_mask(),
        arbitrary::<pac::IOCON>().clock_mask(),
        arbitrary::<pac::ACOMP>().clock_mask(),
        arbitrary::<pac::I2C1>().clock_mask(),
        arbitrary::<pac::I2C2>().clock_mask(),
        arbitrary::<pac::I2C3>().clock_mask(),
        arbitrary::<pac::ADC0>().clock_mask(),
        arbitrary::<MTB>().clock_mask(),
        arbitrary::<pac::DMA0>().clock_mask(),
    ]
}

/// The PRESETCTRL masks of the peripherals, in the order of the register's bits
pub open spec fn reset_masks() -> Seq<u32> {
    seq![
        arbitrary::<pac::SPI0>().reset_mask(),
        arbitrary::<pac::SPI1>().reset_mask(),
        arbitrary::<UARTFRG>().reset_mask(),
        arbitrary::<pac::USART0>().reset_mask(),
        arbitrary::<pac::USART1>().reset_mask(),
        arbitrary::<pac::USART2>().reset_mask(),
        arbitrary::<pac::I2C0>().reset_mask(),
        arbitrary::<pac::MRT0>().reset_mask(),
        arbitrary::<pac::SCT0>().reset_mask(),
        arbitrary::<pac::WKT>().reset_mask(),
        arbitrary::<pac::GPIO>().reset_mask(),
        arbitrary::<pac::FLASH_CTRL>().reset_mask(),
        arbitrary::<pac::ACOMP>().reset_mask(),
        arbitrary::<pac::I2C1>().reset_mask(),
        arbitrary::<pac::I2C2>().reset_mask(),
        arbitrary::<pac::I2C3>().reset_mask(),
        arbitrary::<pac::ADC0>().reset_mask(),
        arbitrary::<pac::DMA0>().reset_mask(),
    ]
}

/// The PDRUNCFG masks of the analog blocks, in the order of the register's bits
pub open spec fn power_masks() -> Seq<u32> {
    seq![
        arbitrary::<IOSCOUT>().power_mask(),
        arbitrary::<IOSC>().power_mask(),
        arbitrary::<FLASH>().power_mask(),
        arbitrary::<BOD>().power_mask(),
        arbitrary::<pac::ADC0>().power_mask(),
        arbitrary::<SYSOSC>().power_mask(),
        arbitrary::<pac::WWDT>().power_mask(),
        arbitrary::<SYSPLL>().power_mask(),
        arbitrary::<pac::ACOMP>().power_mask(),
    ]
}

/// The STARTERP1 masks of the wake-up interrupts, in the order of the register's bits
pub open spec fn wakeup_masks() -> Seq<u32> {
    seq![
        Spi0Wakeup::wakeup_mask(),
        Spi1Wakeup::wakeup_mask(),
        Usart0Wakeup::wakeup_mask(),
        Usart1Wakeup::wakeup_mask(),
        Usart2Wakeup::wakeup_mask(),
        I2c1Wakeup::wakeup_mask(),
        I2c0Wakeup::wakeup_mask(),
        WwdtWakeup::wakeup_mask(),
        BodWakeup::wakeup_mask(),
        WktWakeup::wakeup_mask(),
        I2c2Wakeup::wakeup_mask(),
        I2c3Wakeup::wakeup_mask(),
    ]
}

/// Each peripheral's clock is switched by its own SYSAHBCLKCTRL bit, as the
/// user manual lists them (USART1 by bit 15, for example), and no two
/// peripherals share a bit, apart from the flash controller, which switches
/// the flash clock (bit 4) like FLASH, and the pin interrupts, whose registers
/// are clocked with the GPIO ports (bit 6)
pub proof fn lemma_clock_bits()
    ensures
        arbitrary::<ROM>().clock_mask() == 0x2u32,
        arbitrary::<RAM0_1>().clock_mask() == 0x4u32,
        arbitrary::<FLASH>().clock_mask() == 0x10u32,
        arbitrary::<pac::I2C0>().clock_mask() == 0x20u32,
        arbitrary::<pac::GPIO>().clock_mask() == 0x40u32,
        arbitrary::<pac::SWM0>().clock_mask() == 0x80u32,
        arbitrary::<pac::SCT0>().clock_mask() == 0x100u32,
        arbitrary::<pac::WKT>().clock_mask() == 0x200u32,
        arbitrary::<pac::MRT0>().clock_mask() == 0x400u32,
        arbitrary::<pac::SPI0>().clock_mask() == 0x800u32,
        arbitrary::<pac::SPI1>().clock_mask() == 0x1000u32,
        arbitrary::<pac::CRC>().clock_mask() == 0x2000u32,
        arbitrary::<pac::USART0>().clock_mask() == 0x4000u32,
        arbitrary::<pac::USART1>().clock_mask() == 0x8000u32,
        arbitrary::<pac::USART2>().clock_mask() == 0x10000u32,
        arbitrary::<pac::WWDT>().clock_mask() == 0x20000u32,
        arbitrary::<pac::IOCON>().clock_mask() == 0x40000u32,
        arbitrary::<pac::ACOMP>().clock_mask() == 0x80000u32,
        arbitrary::<pac::I2C1>().clock_mask() == 0x200000u32,
        arbitrary::<pac::I2C2>().clock_mask() == 0x400000u32,
        arbitrary::<pac::I2C3>().clock_mask() == 0x800000u32,
        arbitrary::<pac::ADC0>().clock_mask() == 0x1000000u32,
        arbitrary::<MTB>().clock_mask() == 0x4000000u32,
        arbitrary::<pac::DMA0>().clock_mask() == 0x20000000u32,
        arbitrary::<pac::FLASH_CTRL>().clock_mask() == arbitrary::<FLASH>().clock_mask(),
        arbitrary::<pac::PINT>().clock_mask() == arbitrary::<pac::GPIO>().clock_mask(),
        forall|i: int, j: int| 0 <= i < j < clock_masks().len() ==> #[trigger] clock_masks()[i] != #[trigger] clock_masks()[j],
{
    assert(clock_masks() =~= seq![0x2u32, 0x4u32, 0x10u32, 0x20u32, 0x40u32, 0x80u32, 0x100u32, 0x200u32, 0x400u32, 0x800u32, 0x1000u32, 0x2000u32, 0x4000u32, 0x8000u32, 0x10000u32, 0x20000u32, 0x40000u32, 0x80000u32, 0x200000u32, 0x400000u32, 0x800000u32, 0x1000000u32, 0x4000000u32, 0x20000000u32]);
}

/// Each peripheral's reset is controlled by its own PRESETCTRL bit, as the user
/// manual lists them, and no two peripherals share a bit
pub proof fn lemma_reset_bits()
    ensures
        arbitrary::<pac::SPI0>().reset_mask() == 0x1u32,
        arbitrary::<pac::SPI1>().reset_mask() == 0x2u32,
        arbitrary::<UARTFRG>().reset_mask() == 0x4u32,
        arbitrary::<pac::USART0>().reset_mask() == 0x8u32,
        arbitrary::<pac::USART1>().reset_mask() == 0x10u32,
        arbitrary::<pac::USART2>().reset_mask() == 0x20u32,
        arbitrary::<pac::I2C0>().reset_mask() == 0x40u32,
        arbitrary::<pac::MRT0>().reset_mask() == 0x80u32,
        arbitrary::<pac::SCT0>().reset_mask() == 0x100u32,
        arbitrary::<pac::WKT>().reset_mask() == 0x200u32,
        arbitrary::<pac::GPIO>().reset_mask() == 0x400u32,
        arbitrary::<pac::FLASH_CTRL>().reset_mask() == 0x800u32,
        arbitrary::<pac::ACOMP>().reset_mask() == 0x1000u32,
        arbitrary::<pac::I2C1>().reset_mask() == 0x4000u32,
        arbitrary::<pac::I2C2>().reset_mask() == 0x8000u32,
        arbitrary::<pac::I2C3>().reset_mask() == 0x10000u32,
        arbitrary::<pac::ADC0>().reset_mask() == 0x1000000u32,
        arbitrary::<pac::DMA0>().reset_mask() == 0x20000000u32,
        forall|i: int, j: int| 0 <= i < j < reset_masks().len() ==> #[trigger] reset_masks()[i] != #[trigger] reset_masks()[j],
{
    assert(reset_masks() =~= seq![0x1u32, 0x2u32, 0x4u32, 0x8u32, 0x10u32, 0x20u32, 0x40u32, 0x80u32, 0x100u32, 0x200u32, 0x400u32, 0x800u32, 0x1000u32, 0x4000u32, 0x8000u32, 0x10000u32, 0x1000000u32, 0x20000000u32]);
}

/// Each analog block is powered through its own PDRUNCFG bit, as the user
/// manual lists them, and no two blocks share a bit
pub proof fn lemma_power_bits()
    ensures
        arbitrary::<IOSCOUT>().power_mask() == 0x1u32,
        arbitrary::<IOSC>().power_mask() == 0x2u32,
        arbitrary::<FLASH>().power_mask() == 0x4u32,
        arbitrary::<BOD>().power_mask() == 0x8u32,
        arbitrary::<pac::ADC0>().power_mask() == 0x10u32,
        arbitrary::<SYSOSC>().power_mask() == 0x20u32,
        arbitrary::<pac::WWDT>().power_mask() == 0x40u32,
        arbitrary::<SYSPLL>().power_mask() == 0x80u32,
        arbitrary::<pac::ACOMP>().power_mask() == 0x8000u32,
        forall|i: int, j: int| 0 <= i < j < power_masks().len() ==> #[trigger] power_masks()[i] != #[trigger] power_masks()[j],
{
    assert(power_masks() =~= seq![0x1u32, 0x2u32, 0x4u32, 0x8u32, 0x10u32, 0x20u32, 0x40u32, 0x80u32, 0x8000u32]);
}

/// Each interrupt's wake-up is enabled through its own STARTERP1 bit, as the
/// user manual lists them, and no two interrupts share a bit
pub proof fn lemma_wakeup_bits()
    ensures
        Spi0Wakeup::wakeup_mask() == 0x1u32,
        Spi1Wakeup::wakeup_mask() == 0x2u32,
        Usart0Wakeup::wakeup_mask() == 0x8u32,
        Usart1Wakeup::wakeup_mask() == 0x10u32,
        Usart2Wakeup::wakeup_mask() == 0x20u32,
        I2c1Wakeup::wakeup_mask() == 0x80u32,
        I2c0Wakeup::wakeup_mask() == 0x100u32,
        WwdtWakeup::wakeup_mask() == 0x1000u32,
        BodWakeup::wakeup_mask() == 0x2000u32,
        WktWakeup::wakeup_mask() == 0x8000u32,
        I2c2Wakeup::wakeup_mask() == 0x200000u32,
        I2c3Wakeup::wakeup_mask() == 0x400000u32,
        forall|i: int, j: int| 0 <= i < j < wakeup_masks().len() ==> #[trigger] wakeup_masks()[i] != #[trigger] wakeup_masks()[j],
{
    assert(wakeup_masks() =~= seq![0x1u32, 0x2u32, 0x8u32, 0x10u32, 0x20u32, 0x80u32, 0x100u32, 0x1000u32, 0x2000u32, 0x8000u32, 0x200000u32, 0x400000u32]);
}

} // verus!
