use vstd::prelude::*;

use crate::{
    init_state::{Disabled, Enabled},
    nonblocking::{self, WouldBlock},
    pac, swm,
    syscon::{self, clock_source::{clock_selected, PeripheralClockSelector}, ClockControl},
    usart::bit_set,
};

use super::{
    clock::{Clock, ClockSource},
    instances::{Instance, SlaveSelect},
    interrupts::Interrupts,
    mode::{Mode, Phase, Polarity},
};

verus! {

/// The CFG value that enabling writes for a mode, as master or as slave:
/// ENABLE (bit 0), MASTER (bit 2), CPHA (bit 4) and CPOL (bit 5)
pub open spec fn configured_cfg(mode: Mode, master: bool) -> u32 {
    1u32 | (if master {
        4u32
    } else {
        0u32
    }) | (if mode.phase == Phase::CaptureOnSecondTransition {
        0x10u32
    } else {
        0u32
    }) | (if mode.polarity == Polarity::IdleHigh {
        0x20u32
    } else {
        0u32
    })
}

/// The TXCTL value that enabling writes: a data length of 8 bits (LEN = 7)
pub const TXCTL_8_BIT: u32 = 0x0700_0000;

/// The registers after [`SPI`] has been configured for `mode`
pub open spec fn configured(before: pac::SpiRegisters, after: pac::SpiRegisters, mode: Mode, master: bool) -> bool {
    &&& after.cfg == configured_cfg(mode, master)
    &&& after.txctl == TXCTL_8_BIT
    &&& after.txdat == 0xff
    &&& after.stat == before.stat
    &&& after.inten == before.inten
}

/// The CFG value that enabling writes reads back as the mode it was written
/// for: the SPI is enabled (bit 0), MASTER (bit 2) tells master from slave,
/// CPHA (bit 4) is set for capture on the second transition and CPOL (bit 5)
/// for a clock that idles high; no other bit is set
pub proof fn lemma_configured_cfg_reads_back(mode: Mode, master: bool)
    ensures
        configured_cfg(mode, master) & 1 == 1,
        ((configured_cfg(mode, master) >> 2u32) & 1 == 1) == master,
        ((configured_cfg(mode, master) >> 4u32) & 1 == 1) == (mode.phase
            == Phase::CaptureOnSecondTransition),
        ((configured_cfg(mode, master) >> 5u32) & 1 == 1) == (mode.polarity == Polarity::IdleHigh),
        configured_cfg(mode, master) & !0x35u32 == 0,
{
    let m: u32 = if master {
        4u32
    } else {
        0u32
    };
    let h: u32 = if mode.phase == Phase::CaptureOnSecondTransition {
        0x10u32
    } else {
        0u32
    };
    let l: u32 = if mode.polarity == Polarity::IdleHigh {
        0x20u32
    } else {
        0u32
    };
    let c = configured_cfg(mode, master);
    assert(c == 1u32 | m | h | l);
    assert({
        &&& c & 1 == 1
        &&& ((c >> 2u32) & 1 == 1) == (m == 4)
        &&& ((c >> 4u32) & 1 == 1) == (h == 0x10)
        &&& ((c >> 5u32) & 1 == 1) == (l == 0x20)
        &&& c & !0x35u32 == 0
    }) by (bit_vector)
        requires
            c == 1u32 | m | h | l,
            m == 0 || m == 4,
            h == 0 || h == 0x10,
            l == 0 || l == 0x20,
    ;
}

/// Interface to a SPI peripheral
///
/// Controls the SPI.
pub struct SPI<I, State> {
    /// The raw peripheral
    pub spi: I,
    /// Whether the SPI is enabled, and as master or slave
    pub _state: State,
}

impl<I> SPI<I, Disabled> where I: Instance {
    /// Wrap the raw peripheral
    pub fn new(spi: I) -> (s: Self)
        ensures
            s.spi == spi,
    {
        Self { spi, _state: Disabled }
    }

    /// Enable the SPI peripheral in master mode
    ///
    /// This method is only available, if `SPI` is in the [`Disabled`] state.
    /// Code that attempts to call this method when the peripheral is already
    /// enabled will not compile.
    ///
    /// Enables the peripheral clock, selects the clock source, writes the
    /// clock divider and configures the SPI as master in the given mode, with
    /// 8-bit words.
    ///
    /// [`Disabled`]: ../init_state/struct.Disabled.html
    pub fn enable_as_master<SckPin, MosiPin, MisoPin, CLOCK>(
        self,
        clock: &Clock<CLOCK>,
        syscon: &mut syscon::Handle,
        mode: Mode,
        _sck: swm::Function<I::Sck, swm::state::Assigned<SckPin>>,
        _mosi: swm::Function<I::Mosi, swm::state::Assigned<MosiPin>>,
        _miso: swm::Function<I::Miso, swm::state::Assigned<MisoPin>>,
    ) -> (spi: SPI<I, Enabled<Master>>) where CLOCK: ClockSource
        requires
            I::register_num() < 11,
        ensures
            spi.spi.regs().div == clock.divval as u32,
            configured(self.spi.regs(), spi.spi.regs(), mode, true),
            spi.spi.clock_mask() == self.spi.clock_mask(),
            final(syscon).sysahbclkctrl == old(syscon).sysahbclkctrl | self.spi.clock_mask(),
            clock_selected(
                syscon::Handle { sysahbclkctrl: final(syscon).sysahbclkctrl, ..*old(syscon) },
                *final(syscon),
                I::register_num(),
                CLOCK::selection(),
            ),
    {
        let mut spi = self.spi;
        enable::<I, CLOCK>(&spi, syscon);

        let mut regs = spi.registers();
        regs.div = clock.divval as u32;
        spi.set_registers(regs);

        configure(&mut spi, mode, true);

        SPI { spi, _state: Enabled(Master) }
    }

    /// Enable the SPI peripheral in slave mode
    ///
    /// This method is only available, if `SPI` is in the [`Disabled`] state.
    /// Code that attempts to call this method when the peripheral is already
    /// enabled will not compile.
    ///
    /// [`Disabled`]: ../init_state/struct.Disabled.html
    pub fn enable_as_slave<C, SckPin, MosiPin, MisoPin, Ssel, SselPin>(
        self,
        _clock: &C,
        syscon: &mut syscon::Handle,
        mode: Mode,
        _sck: swm::Function<I::Sck, swm::state::Assigned<SckPin>>,
        _mosi: swm::Function<I::Mosi, swm::state::Assigned<MosiPin>>,
        _miso: swm::Function<I::Miso, swm::state::Assigned<MisoPin>>,
        _ssel: swm::Function<Ssel, swm::state::Assigned<SselPin>>,
    ) -> (spi: SPI<I, Enabled<Slave>>) where C: ClockSource, Ssel: SlaveSelect<I>
        requires
            I::register_num() < 11,
        ensures
            spi.spi.regs().div == self.spi.regs().div,
            configured(self.spi.regs(), spi.spi.regs(), mode, false),
            spi.spi.clock_mask() == self.spi.clock_mask(),
            final(syscon).sysahbclkctrl == old(syscon).sysahbclkctrl | self.spi.clock_mask(),
            clock_selected(
                syscon::Handle { sysahbclkctrl: final(syscon).sysahbclkctrl, ..*old(syscon) },
                *final(syscon),
                I::register_num(),
                C::selection(),
            ),
    {
        let mut spi = self.spi;
        enable::<I, C>(&spi, syscon);
        configure(&mut spi, mode, false);

        SPI { spi, _state: Enabled(Slave) }
    }
}

/// Enables the instance's clock and selects its clock source
fn enable<I: Instance, C: ClockSource>(spi: &I, syscon: &mut syscon::Handle)
    requires
        I::register_num() < 11,
    ensures
        final(syscon).sysahbclkctrl == old(syscon).sysahbclkctrl | spi.clock_mask(),
        clock_selected(
            syscon::Handle { sysahbclkctrl: final(syscon).sysahbclkctrl, ..*old(syscon) },
            *final(syscon),
            I::register_num(),
            C::selection(),
        ),
{
    syscon.enable_clock(spi);
    C::select(spi, syscon);
}

/// Writes CFG for the mode, an 8-bit word length to TXCTL, and a dummy word
/// to TXDAT
fn configure<I: Instance>(spi: &mut I, mode: Mode, master: bool)
    ensures
        configured(old(spi).regs(), final(spi).regs(), mode, master),
        final(spi).regs().div == old(spi).regs().div,
        final(spi).clock_mask() == old(spi).clock_mask(),
{
    let mut regs = spi.registers();
    let cpol: u32 = match mode.polarity {
        Polarity::IdleHigh => 0x20,
        Polarity::IdleLow => 0,
    };
    let cpha: u32 = match mode.phase {
        Phase::CaptureOnFirstTransition => 0,
        Phase::CaptureOnSecondTransition => 0x10,
    };
    let master_bit: u32 = if master {
        4
    } else {
        0
    };
    regs.cfg = 1u32 | master_bit | cpha | cpol;

    // Configure word length: 8 bit length
    regs.txctl = TXCTL_8_BIT;

    // Configuring the word length via TXCTL has no effect until TXDAT is
    // written, so we're doing this here. This is not disruptive, as in
    // master mode, we'll usually overwrite this anyway when starting a
    // transaction, while in slave mode, we actually need some dummy data in
    // TXDAT when receiving the first byte, to prevent a TX underrun error.
    regs.txdat = 0xff;
    spi.set_registers(regs);
}

impl<I, Mode> SPI<I, Enabled<Mode>> where I: Instance {
    /// Enable interrupts
    ///
    /// Enables all interrupts set to `true` in `interrupts`. Interrupts set to
    /// `false` are not affected.
    pub fn enable_interrupts(&mut self, interrupts: Interrupts)
        ensures
            final(self).spi.regs() == (pac::SpiRegisters {
                inten: old(self).spi.regs().inten | interrupts.spec_mask(),
                ..old(self).spi.regs()
            }),
    {
        let mut regs = self.spi.registers();
        regs.inten = regs.inten | interrupts.mask();
        self.spi.set_registers(regs);
    }

    /// Disable interrupts
    ///
    /// Disables all interrupts set to `true` in `interrupts`. Interrupts set to
    /// `false` are not affected.
    pub fn disable_interrupts(&mut self, interrupts: Interrupts)
        ensures
            final(self).spi.regs() == (pac::SpiRegisters {
                inten: old(self).spi.regs().inten & !interrupts.spec_mask(),
                ..old(self).spi.regs()
            }),
    {
        let mut regs = self.spi.registers();
        regs.inten = regs.inten & !interrupts.mask();
        self.spi.set_registers(regs);
    }

    /// Indicates whether the SPI instance is ready to receive
    ///
    /// Corresponds to the RXRDY flag in the STAT register.
    pub fn is_ready_to_receive(&self) -> (ready: bool)
        ensures
            ready == bit_set(self.spi.regs().stat, 0),
    {
        let stat = self.spi.registers().stat;
        proof {
            assert(stat & 1 == (stat >> 0u32) & 1) by (bit_vector);
        }
        stat & 1 == 1
    }

    /// Indicates whether the SPI instance is ready to transmit
    ///
    /// Corresponds to the TXRDY flag in the STAT register.
    pub fn is_ready_to_transmit(&self) -> (ready: bool)
        ensures
            ready == bit_set(self.spi.regs().stat, 1),
    {
        (self.spi.registers().stat >> 1u32) & 1 == 1
    }

    /// Indicates whether a slave select signal has been asserted
    ///
    /// Corresponds to the SSA flag in the STAT register. The flag is cleared
    /// before this method returns; on the device it is cleared by writing
    /// [`SSA`] to STAT.
    pub fn is_slave_select_asserted(&mut self) -> (asserted: bool)
        ensures
            asserted == bit_set(old(self).spi.regs().stat, 4),
            final(self).spi.regs() == (pac::SpiRegisters {
                stat: old(self).spi.regs().stat & !SSA,
                ..old(self).spi.regs()
            }),
    {
        let mut regs = self.spi.registers();
        let flag = (regs.stat >> 4u32) & 1 == 1;
        regs.stat = regs.stat & !SSA;
        self.spi.set_registers(regs);
        flag
    }

    /// Indicates whether a slave select signal has been deasserted
    ///
    /// Corresponds to the SSD flag in the STAT register. The flag is cleared
    /// before this method returns; on the device it is cleared by writing
    /// [`SSD`] to STAT.
    pub fn is_slave_select_deasserted(&mut self) -> (deasserted: bool)
        ensures
            deasserted == bit_set(old(self).spi.regs().stat, 5),
            final(self).spi.regs() == (pac::SpiRegisters {
                stat: old(self).spi.regs().stat & !SSD,
                ..old(self).spi.regs()
            }),
    {
        let mut regs = self.spi.registers();
        let flag = (regs.stat >> 5u32) & 1 == 1;
        regs.stat = regs.stat & !SSD;
        self.spi.set_registers(regs);
        flag
    }

    /// Indicates whether the master is currently idle
    ///
    /// Corresponds to the MSTIDLE flag in the STAT register.
    pub fn is_master_idle(&self) -> (idle: bool)
        ensures
            idle == bit_set(self.spi.regs().stat, 8),
    {
        (self.spi.registers().stat >> 8u32) & 1 == 1
    }

    /// Disable the SPI peripheral
    ///
    /// This method is only available, if `SPI` is in the [`Enabled`] state.
    /// Code that attempts to call this method when the peripheral is already
    /// disabled will not compile.
    ///
    /// [`Enabled`]: ../init_state/struct.Enabled.html
    pub fn disable(self, syscon: &mut syscon::Handle) -> (spi: SPI<I, Disabled>)
        ensures
            spi.spi == self.spi,
            final(syscon).sysahbclkctrl == old(syscon).sysahbclkctrl & !self.spi.clock_mask(),
            final(syscon).pdruncfg == old(syscon).pdruncfg,
            final(syscon).presetctrl0 == old(syscon).presetctrl0,
            final(syscon).starterp1 == old(syscon).starterp1,
            final(syscon).pintsel == old(syscon).pintsel,
            final(syscon).fclksel == old(syscon).fclksel,
    {
        syscon.disable_clock(&self.spi);
        SPI { spi: self.spi, _state: Disabled }
    }
}

/// The STAT value that clears the SSA flag
pub const SSA: u32 = 0x10;

/// The STAT value that clears the SSD flag
pub const SSD: u32 = 0x20;

impl<I> SPI<I, Enabled<Master>> where I: Instance {
    /// Read a word
    ///
    /// `rx_data` is the value read from RXDAT; it is only read once the
    /// receiver is ready (RXRDY in STAT), otherwise the read would block.
    pub fn read(&mut self, rx_data: u32) -> (result: Result<u8, WouldBlock>)
        ensures
            result == if bit_set(old(self).spi.regs().stat, 0) {
                Ok::<u8, WouldBlock>((rx_data % 0x100) as u8)
            } else {
                Err(WouldBlock)
            },
            *final(self) == *old(self),
    {
        if !self.is_ready_to_receive() {
            return Err(WouldBlock);
        }
        proof {
            assert(rx_data as u8 == rx_data % 0x100) by (bit_vector);
        }
        Ok(rx_data as u8)
    }

    /// Send a word
    ///
    /// Writes the word to TXDAT once the transmitter is ready (TXRDY in STAT);
    /// otherwise the send would block.
    pub fn send(&mut self, word: u8) -> (result: Result<(), WouldBlock>)
        ensures
            bit_set(old(self).spi.regs().stat, 1) ==> result == Ok::<(), WouldBlock>(()) && final(self).spi.regs() == (pac::SpiRegisters { txdat: word as u32, ..old(self).spi.regs() }),
            !bit_set(old(self).spi.regs().stat, 1) ==> result == Err::<(), WouldBlock>(WouldBlock)
                && *final(self) == *old(self),
    {
        if !self.is_ready_to_transmit() {
            return Err(WouldBlock);
        }
        let mut regs = self.spi.registers();
        regs.txdat = word as u32;
        self.spi.set_registers(regs);
        Ok(())
    }
}

impl<I> SPI<I, Enabled<Slave>> where I: Instance {
    /// Receive a word
    ///
    /// Reports a receiver overrun (RXOV in STAT) first; otherwise the word in
    /// `rx_data`, the value read from RXDAT, once the receiver is ready (RXRDY
    /// in STAT).
    pub fn receive(&mut self, rx_data: u32) -> (result: Result<u8, nonblocking::Error<RxOverrunError>>)
        ensures
            result == if bit_set(old(self).spi.regs().stat, 2) {
                Err::<u8, nonblocking::Error<RxOverrunError>>(nonblocking::Error::Other(RxOverrunError))
            } else if !bit_set(old(self).spi.regs().stat, 0) {
                Err(nonblocking::Error::WouldBlock)
            } else {
                Ok((rx_data % 0x100) as u8)
            },
            *final(self) == *old(self),
    {
        let stat = self.spi.registers().stat;
        if (stat >> 2u32) & 1 == 1 {
            return Err(nonblocking::Error::Other(RxOverrunError));
        }
        if !self.is_ready_to_receive() {
            return Err(nonblocking::Error::WouldBlock);
        }
        proof {
            assert(rx_data as u8 == rx_data % 0x100) by (bit_vector);
        }
        Ok(rx_data as u8)
    }

    /// Transmit a word
    ///
    /// Reports a transmitter underrun (TXUR in STAT) first; otherwise writes
    /// the word to TXDAT once the transmitter is ready (TXRDY in STAT).
    pub fn transmit(&mut self, word: u8) -> (result: Result<(), nonblocking::Error<TxUnderrunError>>)
        ensures
            bit_set(old(self).spi.regs().stat, 3) ==> result == Err::<
                (),
                nonblocking::Error<TxUnderrunError>,
            >(nonblocking::Error::Other(TxUnderrunError)) && *final(self) == *old(self),
            !bit_set(old(self).spi.regs().stat, 3) && !bit_set(old(self).spi.regs().stat, 1)
                ==> result == Err::<(), nonblocking::Error<TxUnderrunError>>(
                nonblocking::Error::WouldBlock,
            ) && *final(self) == *old(self),
            !bit_set(old(self).spi.regs().stat, 3) && bit_set(old(self).spi.regs().stat, 1)
                ==> result == Ok::<(), nonblocking::Error<TxUnderrunError>>(()) && final(self).spi.regs() == (pac::SpiRegisters { txdat: word as u32, ..old(self).spi.regs() }),
    {
        let stat = self.spi.registers().stat;
        if (stat >> 3u32) & 1 == 1 {
            return Err(nonblocking::Error::Other(TxUnderrunError));
        }
        if !self.is_ready_to_transmit() {
            return Err(nonblocking::Error::WouldBlock);
        }
        let mut regs = self.spi.registers();
        regs.txdat = word as u32;
        self.spi.set_registers(regs);
        Ok(())
    }
}

impl<I, State> SPI<I, State> {
    /// Return the raw peripheral
    ///
    /// This method serves as an escape hatch from the HAL API. It returns the
    /// raw peripheral, allowing you to do whatever you want with it, without
    /// limitations imposed by the API.
    pub fn free(self) -> (spi: I)
        ensures
            spi == self.spi,
    {
        self.spi
    }
}

/// Indicates that SPI is in master mode
///
/// Used as a type parameter on [`SPI`].
pub struct Master;

/// Indicates that SPI is in slave mode
///
/// Used as a type parameter on [`SPI`].
pub struct Slave;

/// Receiver Overrun Error
#[derive(PartialEq, Eq, Structural, Clone, Copy, Debug)]
pub struct RxOverrunError;

/// Transmitter Underrun Error
#[derive(PartialEq, Eq, Structural, Clone, Copy, Debug)]
pub struct TxUnderrunError;

} // verus!
