//! Plain-value model of the peripheral registers
//!
//! Each struct holds the registers of one peripheral as integers. For
//! configuration registers a field holds the register's current value. For the
//! set/clear register pairs of the hardware (INTENSET/INTENCLR and the like) a
//! field holds the resulting enable mask, i.e. what reading the register back
//! would return. Status registers (`stat` and friends) hold the value that was
//! last read from the device.

use vstd::prelude::*;

verus! {

/// System configuration registers
pub struct SYSCON {
    /// Power configuration register (PDRUNCFG)
    pub pdruncfg: u32,
    /// Peripheral reset control (PRESETCTRL)
    pub presetctrl: u32,
    /// Start logic 1 interrupt wake-up enable register (STARTERP1)
    pub starterp1: u32,
    /// System clock control register (SYSAHBCLKCTRL)
    pub sysahbclkctrl: u32,
    /// Pin interrupt select registers (PINTSEL0..7)
    pub pintsel: [u32; 8],
    /// Peripheral clock source select registers (FCLKSEL0..10, LPC845)
    pub fclksel: [u32; 11],
    /// Fractional generator 0 divider (FRG0DIV, LPC845)
    pub frg0div: u32,
    /// Fractional generator 0 multiplier (FRG0MULT, LPC845)
    pub frg0mult: u32,
    /// Fractional generator 0 clock select (FRG0CLKSEL, LPC845)
    pub frg0clksel: u32,
    /// Fractional generator 1 divider (FRG1DIV, LPC845)
    pub frg1div: u32,
    /// Fractional generator 1 multiplier (FRG1MULT, LPC845)
    pub frg1mult: u32,
    /// Fractional generator 1 clock select (FRG1CLKSEL, LPC845)
    pub frg1clksel: u32,
    /// USART clock divider (UARTCLKDIV)
    pub uartclkdiv: u32,
    /// USART fractional generator divider value (UARTFRGDIV)
    pub uartfrgdiv: u32,
    /// USART fractional generator multiplier value (UARTFRGMULT)
    pub uartfrgmult: u32,
}

/// Switch matrix registers
pub struct SWM0 {
    /// Pin assign registers (PINASSIGN0..11); each holds four 8-bit fields
    pub pinassign: [u32; 12],
    /// Pin enable register 0 (PINENABLE0); a cleared bit enables a fixed function
    pub pinenable0: u32,
}

/// Power management unit registers
pub struct PMU {
    /// Power control register (PCON)
    pub pcon: u32,
    /// Deep power-down control register (DPDCTRL)
    pub dpdctrl: u32,
}

/// Self-wake-up timer registers
pub struct WKT {
    /// Control register (CTRL)
    pub ctrl: u32,
    /// Counter register (COUNT)
    pub count: u32,
}

/// Pin interrupt registers
pub struct PINT {
    /// Rising edge interrupt enables, as read from IENR (written via SIENR/CIENR)
    pub ienr: u32,
    /// Falling edge interrupt enables, as read from IENF (written via SIENF/CIENF)
    pub ienf: u32,
    /// Rising edge detect flags (RISE); writing a one clears a flag
    pub rise: u32,
    /// Falling edge detect flags (FALL); writing a one clears a flag
    pub fall: u32,
}

/// Registers of an SPI instance
#[derive(Clone, Copy)]
pub struct SpiRegisters {
    /// Configuration register (CFG)
    pub cfg: u32,
    /// Clock divider register (DIV)
    pub div: u32,
    /// Transmit control register (TXCTL)
    pub txctl: u32,
    /// Transmit data register (TXDAT), last value written
    pub txdat: u32,
    /// Status register (STAT), as last read from the device
    pub stat: u32,
    /// Enabled interrupts, as read from INTENSET (written via INTENSET/INTENCLR)
    pub inten: u32,
}

/// SPI0
pub struct SPI0 {
    /// The instance's registers
    pub regs: SpiRegisters,
}

/// SPI1
pub struct SPI1 {
    /// The instance's registers
    pub regs: SpiRegisters,
}

/// Registers of a USART instance
#[derive(Clone, Copy)]
pub struct UsartRegisters {
    /// Configuration register (CFG)
    pub cfg: u32,
    /// Control register (CTL)
    pub ctl: u32,
    /// Status register (STAT), as last read from the device
    pub stat: u32,
    /// Baud rate generator register (BRG)
    pub brg: u32,
    /// Oversample selection register (OSR)
    pub osr: u32,
    /// Address register (ADDR)
    pub addr: u32,
    /// Enabled interrupts, as read from INTENSET (written via INTENSET/INTENCLR)
    pub inten: u32,
}

/// USART0
pub struct USART0 {
    /// The instance's registers
    pub regs: UsartRegisters,
}

/// USART1
pub struct USART1 {
    /// The instance's registers
    pub regs: UsartRegisters,
}

/// USART2
pub struct USART2 {
    /// The instance's registers
    pub regs: UsartRegisters,
}

/// Flash controller
///
/// The HAL only switches its clock, reset and power; its own registers are
/// not modelled.
#[allow(non_camel_case_types)]
pub struct FLASH_CTRL;

/// I2C bus interface 0
///
/// The HAL only switches its clock, reset and power; its own registers are
/// not modelled.
pub struct I2C0;

/// I2C bus interface 1
///
/// The HAL only switches its clock, reset and power; its own registers are
/// not modelled.
pub struct I2C1;

/// I2C bus interface 2
///
/// The HAL only switches its clock, reset and power; its own registers are
/// not modelled.
pub struct I2C2;

/// I2C bus interface 3
///
/// The HAL only switches its clock, reset and power; its own registers are
/// not modelled.
pub struct I2C3;

/// General-purpose I/O ports
///
/// Index 0 holds the registers of port 0, index 1 those of port 1 (LPC845).
pub struct GPIO {
    /// Direction registers (DIR0, DIR1); a set bit makes the pin an output
    pub dir: [u32; 2],
    /// Output bits, as read from SET0 and SET1 (written via SET/CLR); a set
    /// bit drives the pin high while it is an output
    pub set: [u32; 2],
}

/// State-configurable timer
///
/// The HAL only switches its clock, reset and power; its own registers are
/// not modelled.
pub struct SCT0;

/// Multi-rate timer
///
/// The HAL only switches its clock, reset and power; its own registers are
/// not modelled.
pub struct MRT0;

/// CRC engine
///
/// The HAL only switches its clock, reset and power; its own registers are
/// not modelled.
pub struct CRC;

/// Windowed watchdog timer
///
/// The HAL only switches its clock, reset and power; its own registers are
/// not modelled.
pub struct WWDT;

/// I/O configuration
///
/// The HAL only switches its clock, reset and power; its own registers are
/// not modelled.
pub struct IOCON;

/// Analog comparator
///
/// The HAL only switches its clock, reset and power; its own registers are
/// not modelled.
pub struct ACOMP;

/// Analog-to-digital converter
///
/// The HAL only switches its clock, reset and power; its own registers are
/// not modelled.
pub struct ADC0;

/// DMA controller
///
/// The HAL only switches its clock, reset and power; its own registers are
/// not modelled.
pub struct DMA0;

} // verus!
