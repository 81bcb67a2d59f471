//! API for USART
//!
//! The entry point to this API is [`USART`]. Currently, only some limited UART
//! functionality is implemented.
//!
//! The USART peripheral is described in the user manual, chapter 13.

mod clock;
mod flags;
mod instances;
mod peripheral;
mod private;
mod rx;
mod settings;
pub mod state;
mod tx;

pub use self::clock::{
    accurate, baudrate_supported, brgval_for, candidate, deviation_percent, lemma_new_with_baudrate_accuracy, lemma_resulting_baudrate_bounds,
    resulting_baudrate, Clock, ClockSource, IOSC_FREQUENCY,
};
pub use self::settings::{
    cfg_clock_pol, cfg_data_len, cfg_parity, cfg_polarity, cfg_stop_len, clockpol_bit,
    datalen_bits, lemma_apply_reads_back, parity_bits, polarity_bit, stoplen_bit, ClockPol,
    DataLen, Parity, Polarity, Settings, StopLen, SETTINGS_MASK,
};
pub use self::flags::{bit_if, flag_is_write_one_to_clear, flag_position, flag_reset_value, flag_set_in, lemma_interrupt_mask, Flag, Interrupts};
pub use self::instances::Instance;
pub use self::peripheral::{enabled_cfg, lemma_enabled_cfg_fields, CFG_ENABLE_CLEARS, CTL_ENABLE_CLEARS, USART};
pub use self::rx::{bit_set, lemma_read_returns_all_data_bits, CTL_ADDRDET, read_fetches_data, read_outcome, Error, Rx};
pub use self::tx::{Tx, CFG_CTSEN};
