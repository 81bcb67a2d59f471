use core::marker::PhantomData;

use vstd::prelude::*;

use crate::{
    init_state::Disabled,
    pac, pins,
    swm::{self, FunctionTrait},
    syscon::{self, clock_source::{clock_selected, PeripheralClockSelector}, ClockControl},
};

use super::{
    clock::{Clock, ClockSource},
    flags::{flag_reset_value, flag_set_in, Flag, Interrupts},
    instances::Instance,
    rx::Rx,
    settings::{
        cfg_clock_pol, cfg_data_len, cfg_parity, cfg_polarity, cfg_stop_len, lemma_apply_reads_back, ClockPol,
        DataLen, Parity, Polarity, Settings, StopLen, SETTINGS_MASK,
    },
    state::{AsyncMode, Enabled, NoThrottle, Word},
    tx::Tx,
};

verus! {

/// The CFG bits that enabling clears before applying the settings: CTSEN (9),
/// SYNCEN (11), LOOP (15) and AUTOADDR (19)
pub const CFG_ENABLE_CLEARS: u32 = 0x0008_8a00;

/// The CTL bits that enabling clears: TXBRKEN (1), ADDRDET (2), TXDIS (6) and
/// AUTOBAUD (16)
pub const CTL_ENABLE_CLEARS: u32 = 0x0001_0046;

/// The CFG value that [`USART::enable_async`] writes, given the previous one
pub open spec fn enabled_cfg<W>(cfg: u32, settings: Settings<W>) -> u32 {
    (((cfg | 1) & !CFG_ENABLE_CLEARS) & !SETTINGS_MASK) | settings.cfg_bits()
}

/// Enabling a USART in asynchronous mode sets ENABLE (bit 0) in CFG and writes
/// each requested setting into its CFG field as the user manual encodes it:
/// DATALEN (bits 3:2) 0, 1 or 2 for 7, 8 or 9 data bits, PARITYSEL (bits 5:4)
/// 0, 2 or 3 for no, even or odd parity, STOPLEN (bit 6), CLKPOL (bit 12),
/// RXPOL (bit 22) and TXPOL (bit 23). It clears CTSEN (bit 9), SYNCEN (bit 11),
/// LOOP (bit 15) and AUTOADDR (bit 19), and keeps every other bit of CFG.
pub proof fn lemma_enabled_cfg_fields<W>(cfg: u32, settings: Settings<W>)
    ensures
        enabled_cfg(cfg, settings) & 1 == 1,
        (enabled_cfg(cfg, settings) >> 2u32) & 3 == match settings.data_len {
            DataLen::Bit7 => 0u32,
            DataLen::Bit8 => 1u32,
            DataLen::Bit9 => 2u32,
        },
        (enabled_cfg(cfg, settings) >> 4u32) & 3 == match settings.parity {
            Parity::NoParity => 0u32,
            Parity::EvenParity => 2u32,
            Parity::OddParity => 3u32,
        },
        (enabled_cfg(cfg, settings) >> 6u32) & 1 == if settings.stop_len == StopLen::Bits2 { 1u32 } else { 0u32 },
        (enabled_cfg(cfg, settings) >> 12u32) & 1 == if settings.clock_pol == ClockPol::RisingEdge { 1u32 } else { 0u32 },
        (enabled_cfg(cfg, settings) >> 22u32) & 1 == if settings.rx_pol == Polarity::Inverted { 1u32 } else { 0u32 },
        (enabled_cfg(cfg, settings) >> 23u32) & 1 == if settings.tx_pol == Polarity::Inverted { 1u32 } else { 0u32 },
        (enabled_cfg(cfg, settings) >> 9u32) & 1 == 0,
        (enabled_cfg(cfg, settings) >> 11u32) & 1 == 0,
        (enabled_cfg(cfg, settings) >> 15u32) & 1 == 0,
        (enabled_cfg(cfg, settings) >> 19u32) & 1 == 0,
        enabled_cfg(cfg, settings) & !0x00c8_9a7du32 == cfg & !0x00c8_9a7du32,
{
    let d: u32 = match settings.data_len {
        DataLen::Bit7 => 0u32,
        DataLen::Bit8 => 1u32,
        DataLen::Bit9 => 2u32,
    };
    let p: u32 = match settings.parity {
        Parity::NoParity => 0u32,
        Parity::EvenParity => 2u32,
        Parity::OddParity => 3u32,
    };
    let st: u32 = if settings.stop_len == StopLen::Bits2 { 1u32 } else { 0u32 };
    let c: u32 = if settings.clock_pol == ClockPol::RisingEdge { 1u32 } else { 0u32 };
    let rx: u32 = if settings.rx_pol == Polarity::Inverted { 1u32 } else { 0u32 };
    let tx: u32 = if settings.tx_pol == Polarity::Inverted { 1u32 } else { 0u32 };
    let r = enabled_cfg(cfg, settings);
    assert(r == (((cfg | 1) & !0x0008_8a00u32) & !0x00c0_107cu32) | ((d << 2u32) | (p << 4u32) | (st
        << 6u32) | (c << 12u32) | (rx << 22u32) | (tx << 23u32)));
    assert({
        &&& r & 1 == 1
        &&& (r >> 2u32) & 3 == d
        &&& (r >> 4u32) & 3 == p
        &&& (r >> 6u32) & 1 == st
        &&& (r >> 12u32) & 1 == c
        &&& (r >> 22u32) & 1 == rx
        &&& (r >> 23u32) & 1 == tx
        &&& (r >> 9u32) & 1 == 0
        &&& (r >> 11u32) & 1 == 0
        &&& (r >> 15u32) & 1 == 0
        &&& (r >> 19u32) & 1 == 0
        &&& r & !0x00c8_9a7du32 == cfg & !0x00c8_9a7du32
    }) by (bit_vector)
        requires
            d <= 2,
            p <= 3,
            st <= 1,
            c <= 1,
            rx <= 1,
            tx <= 1,
            r == (((cfg | 1) & !0x0008_8a00u32) & !0x00c0_107cu32) | ((d << 2u32) | (p << 4u32) | (st
                << 6u32) | (c << 12u32) | (rx << 22u32) | (tx << 23u32)),
    ;
}

/// Interface to a USART peripheral
///
/// Controls the USART.
///
/// You can either use this struct as-is, if you need to send and receive in the
/// same place, or you can move the `rx` and `tx` fields out of this struct, to
/// use the sender and receiver from different contexts.
pub struct USART<I, State> {
    /// The USART Receiver
    pub rx: Rx<I, State>,
    /// The USART Transmitter
    pub tx: Tx<I, State, NoThrottle>,
    /// The raw peripheral
    pub usart: I,
}

impl<I> USART<I, Disabled> where I: Instance {
    /// Wrap the raw peripheral
    pub fn new(usart: I) -> (u: Self)
        ensures
            u.usart == usart,
    {
        USART { rx: Rx::new(), tx: Tx::new(), usart }
    }

    /// Enable the USART in asynchronous mode
    ///
    /// This method is only available, if `USART` is in the [`Disabled`] state.
    /// Code that attempts to call this method when the peripheral is already
    /// enabled will not compile.
    ///
    /// Enables the peripheral clock, selects the clock source, writes BRG and
    /// OSR, enables the USART in asynchronous mode with the given settings
    /// (CTS, loopback and automatic address matching disabled), and clears the
    /// break, address detection, transmit disable and autobaud bits of CTL.
    ///
    /// # Limitations
    ///
    /// For USART to function correctly, the UARTFRG reset must be cleared. This
    /// is the default, so unless you have messed with those settings, you
    /// should be good.
    ///
    /// [`Disabled`]: ../init_state/struct.Disabled.html
    pub fn enable_async<RxPin, TxPin, CLOCK, W>(
        self,
        clock: &Clock<CLOCK, AsyncMode>,
        syscon: &mut syscon::Handle,
        _rx: swm::Function<I::Rx, swm::state::Assigned<RxPin>>,
        _tx: swm::Function<I::Tx, swm::state::Assigned<TxPin>>,
        settings: Settings<W>,
    ) -> (usart: USART<I, Enabled<W, AsyncMode>>) where
        RxPin: pins::Trait,
        TxPin: pins::Trait,
        I::Rx: FunctionTrait<RxPin>,
        I::Tx: FunctionTrait<TxPin>,
        CLOCK: ClockSource,
        W: Word,

        requires
            I::register_num() < 11,
        ensures
            usart.usart.regs().brg == clock.brgval as u32,
            usart.usart.regs().osr == clock.osrval as u32,
            usart.usart.regs().cfg == enabled_cfg(self.usart.regs().cfg, settings),
            usart.usart.regs().cfg & 1 == 1,
            cfg_data_len(usart.usart.regs().cfg) == Some(settings.data_len),
            cfg_parity(usart.usart.regs().cfg) == Some(settings.parity),
            cfg_stop_len(usart.usart.regs().cfg) == settings.stop_len,
            cfg_clock_pol(usart.usart.regs().cfg) == settings.clock_pol,
            cfg_polarity(usart.usart.regs().cfg, 22) == settings.rx_pol,
            cfg_polarity(usart.usart.regs().cfg, 23) == settings.tx_pol,
            usart.usart.regs().ctl == self.usart.regs().ctl & !CTL_ENABLE_CLEARS,
            usart.usart.regs().stat == self.usart.regs().stat,
            usart.usart.regs().addr == self.usart.regs().addr,
            usart.usart.regs().inten == self.usart.regs().inten,
            usart.usart.clock_mask() == self.usart.clock_mask(),
            final(syscon).sysahbclkctrl == old(syscon).sysahbclkctrl | self.usart.clock_mask(),
            clock_selected(
                syscon::Handle { sysahbclkctrl: final(syscon).sysahbclkctrl, ..*old(syscon) },
                *final(syscon),
                I::register_num(),
                CLOCK::selection(),
            ),
    {
        proof {
            lemma_apply_reads_back(settings, (self.usart.regs().cfg | 1) & !CFG_ENABLE_CLEARS);
            lemma_enabled_cfg_fields(self.usart.regs().cfg, settings);
        }
        let mut usart = self.usart;
        syscon.enable_clock(&usart);

        CLOCK::select(&usart, syscon);

        let mut regs = usart.registers();
        regs.brg = clock.brgval as u32;
        regs.osr = clock.osrval as u32;

        // According to the user manual, section 13.6.1, we need to make sure
        // that the USART is not sending or receiving data before writing to
        // CFG, and that it is disabled. We statically know that it is disabled
        // at this point, so there isn't anything to do here to ensure it.
        regs.cfg = settings.apply((regs.cfg | 1) & !CFG_ENABLE_CLEARS);
        regs.ctl = regs.ctl & !CTL_ENABLE_CLEARS;
        usart.set_registers(regs);

        USART { rx: Rx::new(), tx: Tx::new(), usart }
    }
}

impl<I, W, Mode> USART<I, Enabled<W, Mode>> where I: Instance, W: Word {
    /// Disable the USART
    ///
    /// This method is only available, if `USART` is in the [`Enabled`] state.
    /// Code that attempts to call this method when the peripheral is already
    /// disabled will not compile.
    ///
    /// [`Enabled`]: ../init_state/struct.Enabled.html
    pub fn disable(self, syscon: &mut syscon::Handle) -> (usart: USART<I, Disabled>)
        ensures
            usart.usart == self.usart,
            final(syscon).sysahbclkctrl == old(syscon).sysahbclkctrl & !self.usart.clock_mask(),
            final(syscon).pdruncfg == old(syscon).pdruncfg,
            final(syscon).presetctrl0 == old(syscon).presetctrl0,
            final(syscon).starterp1 == old(syscon).starterp1,
            final(syscon).pintsel == old(syscon).pintsel,
            final(syscon).fclksel == old(syscon).fclksel,
    {
        syscon.disable_clock(&self.usart);
        USART { rx: Rx::new(), tx: Tx::new(), usart: self.usart }
    }

    /// Query whether the provided flag is set
    ///
    /// Looks at the status register as last read from the device. Flags that
    /// need to be reset by software are reset by this operation; on the
    /// device, by writing [`Flag::reset_value`] to STAT.
    pub fn is_flag_set(&mut self, flag: Flag) -> (set: bool)
        ensures
            set == flag_set_in(flag, old(self).usart.regs().stat),
            final(self).usart.regs() == (pac::UsartRegisters {
                stat: old(self).usart.regs().stat & !flag_reset_value(flag),
                ..old(self).usart.regs()
            }),
            final(self).usart.clock_mask() == old(self).usart.clock_mask(),
    {
        self.rx.is_flag_set(flag, &mut self.usart)
    }

    /// Enable interrupts for this instance in the NVIC
    ///
    /// This only concerns the NVIC. It doesn't enable any specific interrupt
    /// in this USART instance. Returns the value to write to the NVIC's ISER
    /// register.
    pub fn enable_in_nvic(&mut self) -> (iser: u32)
        ensures
            iser == 1u32 << I::interrupt(),
            *final(self) == *old(self),
    {
        1u32 << I::interrupt_number()
    }

    /// Disable interrupts for this instance in the NVIC
    ///
    /// This only concerns the NVIC. It doesn't change anything about the
    /// interrupt configuration within this USART instance. Returns the value to
    /// write to the NVIC's ICER register.
    pub fn disable_in_nvic(&mut self) -> (icer: u32)
        ensures
            icer == 1u32 << I::interrupt(),
            *final(self) == *old(self),
    {
        1u32 << I::interrupt_number()
    }

    /// Clear's this instance's interrupt pending flag in the NVIC
    ///
    /// This only concerns the NVIC. It does not affect any of the
    /// interrupt-related flags in the peripheral. Returns the value to write to
    /// the NVIC's ICPR register.
    pub fn clear_nvic_pending(&mut self) -> (icpr: u32)
        ensures
            icpr == 1u32 << I::interrupt(),
            *final(self) == *old(self),
    {
        1u32 << I::interrupt_number()
    }

    /// Enable interrupts
    ///
    /// Enables all interrupts set to `true` in `interrupts`. Interrupts set to
    /// `false` are not affected.
    pub fn enable_interrupts(&mut self, interrupts: Interrupts)
        ensures
            final(self).usart.regs().inten == old(self).usart.regs().inten | interrupts.spec_mask(),
            final(self).usart.regs() == (pac::UsartRegisters {
                inten: final(self).usart.regs().inten,
                ..old(self).usart.regs()
            }),
    {
        let mut regs = self.usart.registers();
        regs.inten = regs.inten | interrupts.mask();
        self.usart.set_registers(regs);
    }

    /// Disable interrupts
    ///
    /// Disables all interrupts set to `true` in `interrupts`. Interrupts set to
    /// `false` are not affected.
    pub fn disable_interrupts(&mut self, interrupts: Interrupts)
        ensures
            final(self).usart.regs().inten == old(self).usart.regs().inten & !interrupts.spec_mask(),
            final(self).usart.regs() == (pac::UsartRegisters {
                inten: final(self).usart.regs().inten,
                ..old(self).usart.regs()
            }),
    {
        let mut regs = self.usart.registers();
        regs.inten = regs.inten & !interrupts.mask();
        self.usart.set_registers(regs);
    }
}

impl<I, State> USART<I, State> where I: Instance {
    /// Return the raw peripheral
    ///
    /// This method serves as an escape hatch from the HAL API. It returns the
    /// raw peripheral, allowing you to do whatever you want with it, without
    /// limitations imposed by the API.
    pub fn free(self) -> (usart: I)
        ensures
            usart == self.usart,
    {
        self.usart
    }
}

} // verus!
