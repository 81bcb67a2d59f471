//! API for the SPI peripherals
//!
//! The entry point to this API is [`SPI`].

mod clock;
mod instances;
mod interrupts;
mod mode;
mod peripheral;
mod private;

pub use self::{
    clock::{Clock, ClockSource},
    instances::{Instance, SlaveSelect},
    interrupts::{lemma_interrupt_mask, Interrupts},
    mode::{Mode, Phase, Polarity},
    peripheral::{
        configured, configured_cfg, lemma_configured_cfg_reads_back, Master, RxOverrunError, Slave, TxUnderrunError, SPI, SSA, SSD,
        TXCTL_8_BIT,
    },
};
