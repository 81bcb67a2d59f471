//! USART settings

use core::marker::PhantomData;

use vstd::prelude::*;

verus! {

/// Data length (CFG.DATALEN)
#[derive(PartialEq, Eq, Structural, Clone, Copy)]
pub enum DataLen {
    /// 7 bit data length
    Bit7,
    /// 8 bit data length
    Bit8,
    /// 9 bit data length
    Bit9,
}

/// Parity (CFG.PARITYSEL)
#[derive(PartialEq, Eq, Structural, Clone, Copy)]
pub enum Parity {
    /// No parity
    NoParity,
    /// Even parity
    EvenParity,
    /// Odd parity
    OddParity,
}

/// Number of stop bits (CFG.STOPLEN)
#[derive(PartialEq, Eq, Structural, Clone, Copy)]
pub enum StopLen {
    /// One stop bit
    Bit1,
    /// Two stop bits
    Bits2,
}

/// Clock polarity in synchronous mode (CFG.CLKPOL)
#[derive(PartialEq, Eq, Structural, Clone, Copy)]
pub enum ClockPol {
    /// RXD is sampled on the falling edge of SCLK
    FallingEdge,
    /// RXD is sampled on the rising edge of SCLK
    RisingEdge,
}

/// Polarity of a data signal (CFG.RXPOL, CFG.TXPOL)
#[derive(PartialEq, Eq, Structural, Clone, Copy)]
pub enum Polarity {
    /// The signal is used as it is
    Standard,
    /// The signal is inverted
    Inverted,
}

/// The value of the DATALEN field for a data length
pub open spec fn datalen_bits(d: DataLen) -> u32 {
    match d {
        DataLen::Bit7 => 0,
        DataLen::Bit8 => 1,
        DataLen::Bit9 => 2,
    }
}

/// The value of the PARITYSEL field for a parity setting
pub open spec fn parity_bits(p: Parity) -> u32 {
    match p {
        Parity::NoParity => 0,
        Parity::EvenParity => 2,
        Parity::OddParity => 3,
    }
}

/// The value of the STOPLEN bit for a stop length
pub open spec fn stoplen_bit(s: StopLen) -> u32 {
    match s {
        StopLen::Bit1 => 0,
        StopLen::Bits2 => 1,
    }
}

/// The value of the CLKPOL bit for a clock polarity
pub open spec fn clockpol_bit(c: ClockPol) -> u32 {
    match c {
        ClockPol::FallingEdge => 0,
        ClockPol::RisingEdge => 1,
    }
}

/// The value of the RXPOL or TXPOL bit for a signal polarity
pub open spec fn polarity_bit(p: Polarity) -> u32 {
    match p {
        Polarity::Standard => 0,
        Polarity::Inverted => 1,
    }
}

/// The bits of CFG that [`Settings::apply`] writes: DATALEN (3:2),
/// PARITYSEL (5:4), STOPLEN (6), CLKPOL (12), RXPOL (22) and TXPOL (23)
pub const SETTINGS_MASK: u32 = 0x00c0_107c;

/// USART settings
pub struct Settings<Word = u8> {
    /// Data length
    pub data_len: DataLen,
    /// Parity
    pub parity: Parity,
    /// Number of stop bits
    pub stop_len: StopLen,
    /// Clock polarity
    pub clock_pol: ClockPol,
    /// RX polarity
    pub rx_pol: Polarity,
    /// TX polarity
    pub tx_pol: Polarity,
    /// The word type that the data length calls for
    pub _word: PhantomData<Word>,
}

impl<Word> Settings<Word> {
    /// The CFG bits that these settings stand for
    pub open spec fn cfg_bits(&self) -> u32 {
        (datalen_bits(self.data_len) << 2u32) | (parity_bits(self.parity) << 4u32) | (
        stoplen_bit(self.stop_len) << 6u32) | (clockpol_bit(self.clock_pol) << 12u32) | (
        polarity_bit(self.rx_pol) << 22u32) | (polarity_bit(self.tx_pol) << 23u32)
    }

    /// Whether two settings agree on every field
    pub open spec fn same_fields<W2>(&self, other: &Settings<W2>) -> bool {
        &&& self.data_len == other.data_len
        &&& self.parity == other.parity
        &&& self.stop_len == other.stop_len
        &&& self.clock_pol == other.clock_pol
        &&& self.rx_pol == other.rx_pol
        &&& self.tx_pol == other.tx_pol
    }

    /// Set data length to 7 bits
    ///
    /// Overwrites the previous data length setting.
    pub fn data_len_7(self) -> (s: Settings<u8>)
        ensures
            s.data_len == DataLen::Bit7,
            s.parity == self.parity,
            s.stop_len == self.stop_len,
            s.clock_pol == self.clock_pol,
            s.rx_pol == self.rx_pol,
            s.tx_pol == self.tx_pol,
    {
        let mut s = self;
        s.data_len = DataLen::Bit7;
        s.transmute()
    }

    /// Set data length to 8 bits
    ///
    /// Overwrites the previous data length setting. This is the default.
    pub fn data_len_8(self) -> (s: Settings<u8>)
        ensures
            s.data_len == DataLen::Bit8,
            s.parity == self.parity,
            s.stop_len == self.stop_len,
            s.clock_pol == self.clock_pol,
            s.rx_pol == self.rx_pol,
            s.tx_pol == self.tx_pol,
    {
        let mut s = self;
        s.data_len = DataLen::Bit8;
        s.transmute()
    }

    /// Set data length to 9 bits
    ///
    /// Overwrites the previous data length setting.
    pub fn data_len_9(self) -> (s: Settings<u16>)
        ensures
            s.data_len == DataLen::Bit9,
            s.parity == self.parity,
            s.stop_len == self.stop_len,
            s.clock_pol == self.clock_pol,
            s.rx_pol == self.rx_pol,
            s.tx_pol == self.tx_pol,
    {
        let mut s = self;
        s.data_len = DataLen::Bit9;
        s.transmute()
    }

    /// Add no parity bit
    ///
    /// Overwrites the previous parity setting. This is the default.
    pub fn parity_none(self) -> (s: Self)
        ensures
            s.parity == Parity::NoParity,
            s.data_len == self.data_len,
            s.stop_len == self.stop_len,
            s.clock_pol == self.clock_pol,
            s.rx_pol == self.rx_pol,
            s.tx_pol == self.tx_pol,
    {
        let mut s = self;
        s.parity = Parity::NoParity;
        s
    }

    /// Add even parity bit
    ///
    /// Overwrites the previous parity setting.
    pub fn parity_even(self) -> (s: Self)
        ensures
            s.parity == Parity::EvenParity,
            s.data_len == self.data_len,
            s.stop_len == self.stop_len,
            s.clock_pol == self.clock_pol,
            s.rx_pol == self.rx_pol,
            s.tx_pol == self.tx_pol,
    {
        let mut s = self;
        s.parity = Parity::EvenParity;
        s
    }

    /// Add odd parity bit
    ///
    /// Overwrites the previous parity setting.
    pub fn parity_odd(self) -> (s: Self)
        ensures
            s.parity == Parity::OddParity,
            s.data_len == self.data_len,
            s.stop_len == self.stop_len,
            s.clock_pol == self.clock_pol,
            s.rx_pol == self.rx_pol,
            s.tx_pol == self.tx_pol,
    {
        let mut s = self;
        s.parity = Parity::OddParity;
        s
    }

    /// Add one stop bit
    ///
    /// Overwrites the previous stop length setting. This is the default.
    pub fn stop_len_1(self) -> (s: Self)
        ensures
            s.stop_len == StopLen::Bit1,
            s.data_len == self.data_len,
            s.parity == self.parity,
            s.clock_pol == self.clock_pol,
            s.rx_pol == self.rx_pol,
            s.tx_pol == self.tx_pol,
    {
        let mut s = self;
        s.stop_len = StopLen::Bit1;
        s
    }

    /// Add two stop bits
    ///
    /// Overwrites the previous stop length setting.
    pub fn stop_len_2(self) -> (s: Self)
        ensures
            s.stop_len == StopLen::Bits2,
            s.data_len == self.data_len,
            s.parity == self.parity,
            s.clock_pol == self.clock_pol,
            s.rx_pol == self.rx_pol,
            s.tx_pol == self.tx_pol,
    {
        let mut s = self;
        s.stop_len = StopLen::Bits2;
        s
    }

    /// Sample on falling clock edge
    ///
    /// This is only relevant when receiving data in synchronous mode.
    ///
    /// Overwrites the previous clock polarity setting. This is the default.
    pub fn clock_pol_falling(self) -> (s: Self)
        ensures
            s.clock_pol == ClockPol::FallingEdge,
            s.data_len == self.data_len,
            s.parity == self.parity,
            s.stop_len == self.stop_len,
            s.rx_pol == self.rx_pol,
            s.tx_pol == self.tx_pol,
    {
        let mut s = self;
        s.clock_pol = ClockPol::FallingEdge;
        s
    }

    /// Sample on rising clock edge
    ///
    /// This is only relevant when receiving data in synchronous mode.
    ///
    /// Overwrites the previous clock polarity setting.
    pub fn clock_pol_rising(self) -> (s: Self)
        ensures
            s.clock_pol == ClockPol::RisingEdge,
            s.data_len == self.data_len,
            s.parity == self.parity,
            s.stop_len == self.stop_len,
            s.rx_pol == self.rx_pol,
            s.tx_pol == self.tx_pol,
    {
        let mut s = self;
        s.clock_pol = ClockPol::RisingEdge;
        s
    }

    /// Don't invert RX signal
    ///
    /// Overwrites the previous RX polarity setting. This is the default.
    pub fn rx_pol_standard(self) -> (s: Self)
        ensures
            s.rx_pol == Polarity::Standard,
            s.data_len == self.data_len,
            s.parity == self.parity,
            s.stop_len == self.stop_len,
            s.clock_pol == self.clock_pol,
            s.tx_pol == self.tx_pol,
    {
        let mut s = self;
        s.rx_pol = Polarity::Standard;
        s
    }

    /// Invert RX signal
    ///
    /// Overwrites the previous RX polarity setting.
    pub fn rx_pol_inverted(self) -> (s: Self)
        ensures
            s.rx_pol == Polarity::Inverted,
            s.data_len == self.data_len,
            s.parity == self.parity,
            s.stop_len == self.stop_len,
            s.clock_pol == self.clock_pol,
            s.tx_pol == self.tx_pol,
    {
        let mut s = self;
        s.rx_pol = Polarity::Inverted;
        s
    }

    /// Don't invert TX signal
    ///
    /// Overwrites the previous TX polarity setting. This is the default.
    pub fn tx_pol_standard(self) -> (s: Self)
        ensures
            s.tx_pol == Polarity::Standard,
            s.data_len == self.data_len,
            s.parity == self.parity,
            s.stop_len == self.stop_len,
            s.clock_pol == self.clock_pol,
            s.rx_pol == self.rx_pol,
    {
        let mut s = self;
        s.tx_pol = Polarity::Standard;
        s
    }

    /// Invert TX signal
    ///
    /// Overwrites the previous TX polarity setting.
    pub fn tx_pol_inverted(self) -> (s: Self)
        ensures
            s.tx_pol == Polarity::Inverted,
            s.data_len == self.data_len,
            s.parity == self.parity,
            s.stop_len == self.stop_len,
            s.clock_pol == self.clock_pol,
            s.rx_pol == self.rx_pol,
    {
        let mut s = self;
        s.tx_pol = Polarity::Inverted;
        s
    }

    /// Reinterpret the settings for another word type
    pub fn transmute<NewW>(self) -> (s: Settings<NewW>)
        ensures
            s.same_fields(&self),
    {
        Settings {
            data_len: self.data_len,
            parity: self.parity,
            stop_len: self.stop_len,
            clock_pol: self.clock_pol,
            rx_pol: self.rx_pol,
            tx_pol: self.tx_pol,
            _word: PhantomData,
        }
    }

    /// Write the settings into a CFG register value
    ///
    /// Sets the DATALEN, PARITYSEL, STOPLEN, CLKPOL, RXPOL and TXPOL fields and
    /// keeps all other bits of `w`.
    pub fn apply(&self, w: u32) -> (r: u32)
        ensures
            r == (w & !SETTINGS_MASK) | self.cfg_bits(),
    {
        let data_len: u32 = match self.data_len {
            DataLen::Bit7 => 0,
            DataLen::Bit8 => 1,
            DataLen::Bit9 => 2,
        };
        let parity: u32 = match self.parity {
            Parity::NoParity => 0,
            Parity::EvenParity => 2,
            Parity::OddParity => 3,
        };
        let stop_len: u32 = match self.stop_len {
            StopLen::Bit1 => 0,
            StopLen::Bits2 => 1,
        };
        let clock_pol: u32 = match self.clock_pol {
            ClockPol::FallingEdge => 0,
            ClockPol::RisingEdge => 1,
        };
        let rx_pol: u32 = match self.rx_pol {
            Polarity::Standard => 0,
            Polarity::Inverted => 1,
        };
        let tx_pol: u32 = match self.tx_pol {
            Polarity::Standard => 0,
            Polarity::Inverted => 1,
        };
        let bits: u32 = (data_len << 2u32) | (parity << 4u32) | (stop_len << 6u32) | (clock_pol
            << 12u32) | (rx_pol << 22u32) | (tx_pol << 23u32);
        (w & !SETTINGS_MASK) | bits
    }
}

impl Default for Settings {
    /// 8 data bits, no parity, one stop bit, sampling on the falling edge, no
    /// inverted signals
    fn default() -> (s: Self)
        ensures
            s.data_len == DataLen::Bit8,
            s.parity == Parity::NoParity,
            s.stop_len == StopLen::Bit1,
            s.clock_pol == ClockPol::FallingEdge,
            s.rx_pol == Polarity::Standard,
            s.tx_pol == Polarity::Standard,
    {
        Settings {
            data_len: DataLen::Bit8,
            parity: Parity::NoParity,
            stop_len: StopLen::Bit1,
            clock_pol: ClockPol::FallingEdge,
            rx_pol: Polarity::Standard,
            tx_pol: Polarity::Standard,
            _word: PhantomData,
        }
    }
}

/// The data length that the DATALEN field of a CFG value selects
pub open spec fn cfg_data_len(cfg: u32) -> Option<DataLen> {
    let v = (cfg >> 2u32) & 3;
    if v == 0 {
        Some(DataLen::Bit7)
    } else if v == 1 {
        Some(DataLen::Bit8)
    } else if v == 2 {
        Some(DataLen::Bit9)
    } else {
        None
    }
}

/// The parity that the PARITYSEL field of a CFG value selects
pub open spec fn cfg_parity(cfg: u32) -> Option<Parity> {
    let v = (cfg >> 4u32) & 3;
    if v == 0 {
        Some(Parity::NoParity)
    } else if v == 2 {
        Some(Parity::EvenParity)
    } else if v == 3 {
        Some(Parity::OddParity)
    } else {
        None
    }
}

/// The stop length that the STOPLEN bit of a CFG value selects
pub open spec fn cfg_stop_len(cfg: u32) -> StopLen {
    if (cfg >> 6u32) & 1 == 0 {
        StopLen::Bit1
    } else {
        StopLen::Bits2
    }
}

/// The clock polarity that the CLKPOL bit of a CFG value selects
pub open spec fn cfg_clock_pol(cfg: u32) -> ClockPol {
    if (cfg >> 12u32) & 1 == 0 {
        ClockPol::FallingEdge
    } else {
        ClockPol::RisingEdge
    }
}

/// The polarity that bit `pos` of a CFG value selects
pub open spec fn cfg_polarity(cfg: u32, pos: u32) -> Polarity {
    if (cfg >> pos) & 1 == 0 {
        Polarity::Standard
    } else {
        Polarity::Inverted
    }
}

/// Applying settings to a CFG value writes every setting so that it reads
/// back unchanged, and keeps every bit outside the settings' fields
pub proof fn lemma_apply_reads_back<W>(s: Settings<W>, w: u32)
    ensures
        cfg_data_len((w & !SETTINGS_MASK) | s.cfg_bits()) == Some(s.data_len),
        cfg_parity((w & !SETTINGS_MASK) | s.cfg_bits()) == Some(s.parity),
        cfg_stop_len((w & !SETTINGS_MASK) | s.cfg_bits()) == s.stop_len,
        cfg_clock_pol((w & !SETTINGS_MASK) | s.cfg_bits()) == s.clock_pol,
        cfg_polarity((w & !SETTINGS_MASK) | s.cfg_bits(), 22) == s.rx_pol,
        cfg_polarity((w & !SETTINGS_MASK) | s.cfg_bits(), 23) == s.tx_pol,
        ((w & !SETTINGS_MASK) | s.cfg_bits()) & !SETTINGS_MASK == w & !SETTINGS_MASK,
{
    let d = datalen_bits(s.data_len);
    let p = parity_bits(s.parity);
    let st = stoplen_bit(s.stop_len);
    let c = clockpol_bit(s.clock_pol);
    let rx = polarity_bit(s.rx_pol);
    let tx = polarity_bit(s.tx_pol);
    let r = (w & !SETTINGS_MASK) | s.cfg_bits();
    assert(r == (w & !0x00c0_107cu32) | ((d << 2u32) | (p << 4u32) | (st << 6u32) | (c << 12u32)
        | (rx << 22u32) | (tx << 23u32)));
    assert({
        &&& (r >> 2u32) & 3 == d
        &&& (r >> 4u32) & 3 == p
        &&& (r >> 6u32) & 1 == st
        &&& (r >> 12u32) & 1 == c
        &&& (r >> 22u32) & 1 == rx
        &&& (r >> 23u32) & 1 == tx
        &&& r & !0x00c0_107cu32 == w & !0x00c0_107cu32
    }) by (bit_vector)
        requires
            d <= 3,
            p <= 3,
            st <= 1,
            c <= 1,
            rx <= 1,
            tx <= 1,
            r == (w & !0x00c0_107cu32) | ((d << 2u32) | (p << 4u32) | (st << 6u32) | (c
                << 12u32) | (rx << 22u32) | (tx << 23u32)),
    ;
}

} // verus!
