use core::marker::PhantomData;

use vstd::prelude::*;

use crate::{nonblocking, pac};

use super::{
    flags::{flag_reset_value, flag_set_in, Flag, Interrupts},
    instances::Instance,
    state::{Enabled, Word},
};

verus! {

/// A USART error
#[derive(Clone, Copy, Debug, Eq, PartialEq, Structural)]
pub enum Error {
    /// Character received with a stop bit missing at the expected location
    Framing,
    /// Corrupted character received
    Noise,
    /// Character received, while receive buffer was still in use
    Overrun,
    /// Parity error detected in received character
    Parity,
}

/// Whether bit `pos` is set in `w`
pub open spec fn bit_set(w: u32, pos: u32) -> bool {
    (w >> pos) & 1 == 1
}

/// Whether a read has to fetch RXDATSTAT, given STAT: the receiver holds a
/// character (RXRDY, bit 0) and no break is being received (RXBRK, bit 10)
pub open spec fn read_fetches_data(stat: u32) -> bool {
    !bit_set(stat, 10) && bit_set(stat, 0)
}

/// The outcome of reading a word, given STAT and, where it is fetched,
/// RXDATSTAT
///
/// While a break is received, or no character is available, the read would
/// block. Otherwise an overrun (STAT bit 8) is reported first, then a framing
/// error (RXDATSTAT bit 13), a parity error (bit 14) and noise (bit 15). With
/// none of these, the word is the data in RXDATSTAT bits 8:0.
pub open spec fn read_outcome(stat: u32, rx_dat_stat: u32) -> Result<u16, nonblocking::Error<Error>> {
    if !read_fetches_data(stat) {
        Err(nonblocking::Error::WouldBlock)
    } else if bit_set(stat, 8) {
        Err(nonblocking::Error::Other(Error::Overrun))
    } else if bit_set(rx_dat_stat, 13) {
        Err(nonblocking::Error::Other(Error::Framing))
    } else if bit_set(rx_dat_stat, 14) {
        Err(nonblocking::Error::Other(Error::Parity))
    } else if bit_set(rx_dat_stat, 15) {
        Err(nonblocking::Error::Other(Error::Noise))
    } else {
        Ok((rx_dat_stat & 0x1ff) as u16)
    }
}

/// The ADDRDET bit of CTL (bit 2), which enables address detection
pub const CTL_ADDRDET: u32 = 0x4;

/// A read that finds a character and no error returns all nine data bits of
/// RXDAT, bits 8:0 of RXDATSTAT, as a number below 512; the character is
/// found once RXRDY (STAT bit 0) is set and no break (STAT bit 10) is being
/// received, and an error is an overrun (STAT bit 8), a framing error, a
/// parity error or noise (RXDATSTAT bits 13, 14 and 15)
///
/// In particular a 9-bit word with bit 8 set (an address in multidrop mode,
/// for example) reads back with bit 8 set, and reads of RXDATSTAT values with
/// different data bits give different words.
pub proof fn lemma_read_returns_all_data_bits(stat: u32, rx_dat_stat: u32)
    ensures
        (stat % 2 == 1 && (stat / 0x400) % 2 == 0 && (stat / 0x100) % 2 == 0 && (rx_dat_stat
            / 0x2000) % 8 == 0) ==> read_outcome(stat, rx_dat_stat) == Ok::<u16, nonblocking::Error<Error>>(
            (rx_dat_stat % 0x200) as u16,
        ),
        read_outcome(stat, rx_dat_stat) is Ok ==> read_outcome(stat, rx_dat_stat)->Ok_0 as int
            == rx_dat_stat as int % 0x200,
{
    assert({
        &&& (stat & 1 == 1) == (stat % 2 == 1)
        &&& (((stat >> 0u32) & 1) == (stat & 1))
        &&& (((stat >> 10u32) & 1 == 1) == ((stat / 0x400) % 2 == 1))
        &&& (((stat >> 8u32) & 1 == 1) == ((stat / 0x100) % 2 == 1))
        &&& ((rx_dat_stat / 0x2000) % 8 == 0) ==> ((rx_dat_stat >> 13u32) & 1 == 0
            && (rx_dat_stat >> 14u32) & 1 == 0 && (rx_dat_stat >> 15u32) & 1 == 0)
        &&& rx_dat_stat & 0x1ff == rx_dat_stat % 0x200
    }) by (bit_vector);
}

/// USART receiver
///
/// The receiver shares the USART's registers with the transmitter. Methods
/// that use the registers take the USART instance that holds them.
pub struct Rx<I, State> {
    /// The USART instance
    pub _instance: PhantomData<I>,
    /// The USART's state
    pub _state: PhantomData<State>,
}

impl<I, State> Rx<I, State> {
    /// Create the receiver
    pub(crate) fn new() -> Self {
        Self { _instance: PhantomData, _state: PhantomData }
    }
}

impl<I, W, Mode> Rx<I, Enabled<W, Mode>> where I: Instance, W: Word {
    /// Put the receiver into address detection mode
    ///
    /// After this method is called, all received data that does not have the
    /// most significant bit set will be ignored. Data that does have the most
    /// significant bit set will be matched against the provided address.
    ///
    /// While the receiver is operating that way, only matched addresses will be
    /// received. Once you have received a matched address and inspected it to
    /// your satisfaction, you must call `stop_address_detection` to start
    /// receiving regular data again.
    ///
    /// You can call this method multiple times, without calling
    /// `stop_address_detection` in between. The only effect this has, is to
    /// change the address that is being matched to the one provided by the most
    /// recent call.
    pub fn start_address_detection(&mut self, usart: &mut I, address: u8)
        ensures
            final(usart).regs() == (pac::UsartRegisters {
                addr: address as u32,
                ctl: old(usart).regs().ctl | CTL_ADDRDET,
                ..old(usart).regs()
            }),
    {
        let mut regs = usart.registers();
        // Store address.
        regs.addr = address as u32;
        // Enable address detection.
        regs.ctl = regs.ctl | CTL_ADDRDET;
        usart.set_registers(regs);
        // Don't need to set CFG.AUTOADDR. This is already done automatically on
        // initialization.
    }

    /// Put the receiver out of address detection mode
    ///
    /// After you've put the receiver into address detection mode using the
    /// `start_address_detection` method, you can start receiving data normally
    /// again by calling this method. Typically you would do this after
    /// receiving a matched address.
    ///
    /// Calling this method while the receiver is not in address detection mode
    /// has no effect.
    pub fn stop_address_detection(&mut self, usart: &mut I)
        ensures
            final(usart).regs() == (pac::UsartRegisters {
                ctl: old(usart).regs().ctl & !CTL_ADDRDET,
                ..old(usart).regs()
            }),
    {
        let mut regs = usart.registers();
        regs.ctl = regs.ctl & !CTL_ADDRDET;
        usart.set_registers(regs);
    }

    /// Query whether the provided flag is set
    ///
    /// Looks at the USART's status register as last read from the device.
    /// Flags that need to be reset by software are reset by this operation;
    /// on the device, by writing [`Flag::reset_value`] to STAT.
    pub fn is_flag_set(&self, flag: Flag, usart: &mut I) -> (set: bool)
        ensures
            set == flag_set_in(flag, old(usart).regs().stat),
            final(usart).regs() == (pac::UsartRegisters {
                stat: old(usart).regs().stat & !flag_reset_value(flag),
                ..old(usart).regs()
            }),
            final(usart).clock_mask() == old(usart).clock_mask(),
    {
        let mut regs = usart.registers();
        let set = flag.is_set(regs.stat);
        regs.stat = regs.stat & !flag.reset_value();
        usart.set_registers(regs);
        set
    }

    /// Enable interrupts
    ///
    /// Enables all interrupts set to `true` in `interrupts`. Interrupts set to
    /// `false` are not affected.
    pub fn enable_interrupts(&mut self, usart: &mut I, interrupts: Interrupts)
        ensures
            final(usart).regs() == (pac::UsartRegisters {
                inten: old(usart).regs().inten | interrupts.spec_mask(),
                ..old(usart).regs()
            }),
    {
        let mut regs = usart.registers();
        regs.inten = regs.inten | interrupts.mask();
        usart.set_registers(regs);
    }

    /// Disable interrupts
    ///
    /// Disables all interrupts set to `true` in `interrupts`. Interrupts set to
    /// `false` are not affected.
    pub fn disable_interrupts(&mut self, usart: &mut I, interrupts: Interrupts)
        ensures
            final(usart).regs() == (pac::UsartRegisters {
                inten: old(usart).regs().inten & !interrupts.spec_mask(),
                ..old(usart).regs()
            }),
    {
        let mut regs = usart.registers();
        regs.inten = regs.inten & !interrupts.mask();
        usart.set_registers(regs);
    }

    /// Whether reading a word has to fetch RXDATSTAT, given STAT as last read
    /// from the device
    ///
    /// Reading RXDATSTAT takes the character out of the receiver, so it is
    /// read only when this returns `true`.
    pub fn fetches_data(&self, usart: &I) -> (fetch: bool)
        ensures
            fetch == read_fetches_data(usart.regs().stat),
    {
        let stat = usart.registers().stat;
        proof {
            assert(stat & 1 == (stat >> 0u32) & 1) by (bit_vector);
        }
        (stat >> 10u32) & 1 != 1 && stat & 1 == 1
    }

    /// Reads a single word
    ///
    /// Decides on STAT as last read from the device. `rx_dat_stat` is the value
    /// read from RXDATSTAT afterwards, if [`Rx::fetches_data`] asked for it (it
    /// is ignored otherwise).
    pub fn read(&mut self, usart: &I, rx_dat_stat: u32) -> (result: Result<W, nonblocking::Error<Error>>)
        ensures
            result == match read_outcome(usart.regs().stat, rx_dat_stat) {
                Ok(v) => Ok(W::spec_from_u16(v)),
                Err(e) => Err(e),
            },
    {
        let stat = usart.registers().stat;
        proof {
            assert(stat & 1 == (stat >> 0u32) & 1) by (bit_vector);
            assert((rx_dat_stat & 0x1ff) < 0x200) by (bit_vector);
        }
        if (stat >> 10u32) & 1 == 1 {
            return Err(nonblocking::Error::WouldBlock);
        }
        if stat & 1 == 1 {
            if (stat >> 8u32) & 1 == 1 {
                Err(nonblocking::Error::Other(Error::Overrun))
            } else if (rx_dat_stat >> 13u32) & 1 == 1 {
                Err(nonblocking::Error::Other(Error::Framing))
            } else if (rx_dat_stat >> 14u32) & 1 == 1 {
                Err(nonblocking::Error::Other(Error::Parity))
            } else if (rx_dat_stat >> 15u32) & 1 == 1 {
                Err(nonblocking::Error::Other(Error::Noise))
            } else {
                Ok(W::from_u16((rx_dat_stat & 0x1ff) as u16))
            }
        } else {
            Err(nonblocking::Error::WouldBlock)
        }
    }
}

} // verus!
