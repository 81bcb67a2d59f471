//! Hardware abstraction layer for NXP LPC82x microcontrollers.
//!
//! Every peripheral API in this crate is written against [`pac`], a plain-value
//! model of the memory-mapped registers that the API programs. Each method is
//! verified against a contract that states which register bits it writes and
//! which it leaves alone. Copying the modelled registers to and from the device
//! is left to the code that links this library into a firmware image.

pub mod gpio;
pub mod i2c;
pub mod init_state;
pub mod nonblocking;
pub mod pac;
pub mod pinint;
pub mod pins;
pub mod pmu;
pub mod sleep;
pub mod spi;
pub mod swm;
pub mod syscon;
pub mod usart;
pub mod wkt;
