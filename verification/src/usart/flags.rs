use vstd::prelude::*;

verus! {

/// Used to query the state of USART flags
///
/// See `USART::is_flag_set`.
#[allow(non_camel_case_types)]
#[derive(PartialEq, Eq, Structural, Clone, Copy)]
pub enum Flag {
    /// Receiver ready
    RXRDY,
    /// Receiver idle
    RXIDLE,
    /// Transmitter ready
    TXRDY,
    /// Transmitter idle
    TXIDLE,
    /// CTS signal asserted
    CTS,
    /// Change of CTS signal detected
    DELTACTS,
    /// Transmitter disabled
    TXDIS,
    /// Overrun error
    OVERRUN,
    /// Received break
    RXBRK,
    /// RXBRK signal has changed state
    DELTARXBRK,
    /// Start detected
    START,
    /// Framing error
    FRAMERR,
    /// Parity error
    PARITYERR,
    /// Received noise
    RXNOISE,
    /// Autobaud error
    ABERR,
}

/// The position of a flag in the STAT register
pub open spec fn flag_position(flag: Flag) -> u32 {
    match flag {
        Flag::RXRDY => 0,
        Flag::RXIDLE => 1,
        Flag::TXRDY => 2,
        Flag::TXIDLE => 3,
        Flag::CTS => 4,
        Flag::DELTACTS => 5,
        Flag::TXDIS => 6,
        Flag::OVERRUN => 8,
        Flag::RXBRK => 10,
        Flag::DELTARXBRK => 11,
        Flag::START => 12,
        Flag::FRAMERR => 13,
        Flag::PARITYERR => 14,
        Flag::RXNOISE => 15,
        Flag::ABERR => 16,
    }
}

/// Whether software resets the flag by writing a one to it
pub open spec fn flag_is_write_one_to_clear(flag: Flag) -> bool {
    match flag {
        Flag::DELTACTS | Flag::OVERRUN | Flag::DELTARXBRK | Flag::START | Flag::FRAMERR
        | Flag::PARITYERR | Flag::RXNOISE | Flag::ABERR => true,
        _ => false,
    }
}

/// Whether a flag is set in a STAT value
pub open spec fn flag_set_in(flag: Flag, stat: u32) -> bool {
    (stat >> flag_position(flag)) & 1 == 1
}

/// The value to write to STAT to reset `flag`: a one at its position for the
/// flags that software resets, 0 for the others
pub open spec fn flag_reset_value(flag: Flag) -> u32 {
    if flag_is_write_one_to_clear(flag) {
        1u32 << flag_position(flag)
    } else {
        0
    }
}

impl Flag {
    /// The position of this flag in the STAT register
    pub fn position(&self) -> (pos: u32)
        ensures
            pos == flag_position(*self),
    {
        match self {
            Flag::RXRDY => 0,
            Flag::RXIDLE => 1,
            Flag::TXRDY => 2,
            Flag::TXIDLE => 3,
            Flag::CTS => 4,
            Flag::DELTACTS => 5,
            Flag::TXDIS => 6,
            Flag::OVERRUN => 8,
            Flag::RXBRK => 10,
            Flag::DELTARXBRK => 11,
            Flag::START => 12,
            Flag::FRAMERR => 13,
            Flag::PARITYERR => 14,
            Flag::RXNOISE => 15,
            Flag::ABERR => 16,
        }
    }

    /// Whether this flag is set in the STAT value `stat`
    pub fn is_set(&self, stat: u32) -> (set: bool)
        ensures
            set == flag_set_in(*self, stat),
    {
        (stat >> self.position()) & 1 == 1
    }

    /// The value to write to STAT to reset this flag after it has been read
    ///
    /// Flags that software resets are cleared by writing a one to them; the
    /// other flags are left alone, so the value is 0 for them.
    pub fn reset_value(&self) -> (value: u32)
        ensures
            value == flag_reset_value(*self),
    {
        match self {
            Flag::DELTACTS | Flag::OVERRUN | Flag::DELTARXBRK | Flag::START | Flag::FRAMERR
            | Flag::PARITYERR | Flag::RXNOISE | Flag::ABERR => 1u32 << self.position(),
            _ => 0,
        }
    }
}

/// Used to enable or disable USART interrupts
///
/// See `USART::enable_interrupts` and `USART::disable_interrupts`.
#[allow(non_snake_case)]
pub struct Interrupts {
    /// Receiver ready
    pub RXRDY: bool,
    /// Transmitter ready
    pub TXRDY: bool,
    /// Transmitter idle
    pub TXIDLE: bool,
    /// Change of CTS signal detected
    pub DELTACTS: bool,
    /// Transmitter disabled
    pub TXDIS: bool,
    /// Overrun error
    pub OVERRUN: bool,
    /// RXBRK signal has changed state
    pub DELTARXBRK: bool,
    /// Start detected
    pub START: bool,
    /// Framing error
    pub FRAMERR: bool,
    /// Parity error
    pub PARITYERR: bool,
    /// Received noise
    pub RXNOISE: bool,
    /// Autobaud error
    pub ABERR: bool,
}

/// The bit at `pos` if `on`, else 0
pub open spec fn bit_if(on: bool, pos: u32) -> u32 {
    if on {
        1u32 << pos
    } else {
        0
    }
}

impl Interrupts {
    /// The INTENSET/INTENCLR bits of the interrupts that are set to `true`
    pub open spec fn spec_mask(&self) -> u32 {
        bit_if(self.RXRDY, 0) | bit_if(self.TXRDY, 2) | bit_if(self.TXIDLE, 3) | bit_if(
            self.DELTACTS,
            5,
        ) | bit_if(self.TXDIS, 6) | bit_if(self.OVERRUN, 8) | bit_if(self.DELTARXBRK, 11)
            | bit_if(self.START, 12) | bit_if(self.FRAMERR, 13) | bit_if(self.PARITYERR, 14)
            | bit_if(self.RXNOISE, 15) | bit_if(self.ABERR, 16)
    }

    /// The INTENSET/INTENCLR bits of the interrupts that are set to `true`
    pub fn mask(&self) -> (bits: u32)
        ensures
            bits == self.spec_mask(),
    {
        let mut bits: u32 = 0;
        bits = bits | if self.RXRDY { 1u32 << 0u32 } else { 0 };
        bits = bits | if self.TXRDY { 1u32 << 2u32 } else { 0 };
        bits = bits | if self.TXIDLE { 1u32 << 3u32 } else { 0 };
        bits = bits | if self.DELTACTS { 1u32 << 5u32 } else { 0 };
        bits = bits | if self.TXDIS { 1u32 << 6u32 } else { 0 };
        bits = bits | if self.OVERRUN { 1u32 << 8u32 } else { 0 };
        bits = bits | if self.DELTARXBRK { 1u32 << 11u32 } else { 0 };
        bits = bits | if self.START { 1u32 << 12u32 } else { 0 };
        bits = bits | if self.FRAMERR { 1u32 << 13u32 } else { 0 };
        bits = bits | if self.PARITYERR { 1u32 << 14u32 } else { 0 };
        bits = bits | if self.RXNOISE { 1u32 << 15u32 } else { 0 };
        bits = bits | if self.ABERR { 1u32 << 16u32 } else { 0 };
        proof {
            assert(0u32 | bit_if(self.RXRDY, 0) == bit_if(self.RXRDY, 0)) by (bit_vector);
        }
        bits
    }
}

/// Enabling the interrupts of an [`Interrupts`] value (OR-ing its mask into
/// the enable register) sets the bit of every selected interrupt and leaves
/// the bit of every other interrupt as it was; disabling (clearing the mask)
/// clears the bits of the selected interrupts and leaves the others
pub proof fn lemma_interrupt_mask(i: Interrupts, w: u32, m: u32)
    requires
        m == i.spec_mask(),
    ensures
        ((w | m) >> 0u32) & 1 == (if i.RXRDY { 1u32 } else { (w >> 0u32) & 1 }),
        ((w & !m) >> 0u32) & 1 == (if i.RXRDY { 0u32 } else { (w >> 0u32) & 1 }),
        ((w | m) >> 2u32) & 1 == (if i.TXRDY { 1u32 } else { (w >> 2u32) & 1 }),
        ((w & !m) >> 2u32) & 1 == (if i.TXRDY { 0u32 } else { (w >> 2u32) & 1 }),
        ((w | m) >> 3u32) & 1 == (if i.TXIDLE { 1u32 } else { (w >> 3u32) & 1 }),
        ((w & !m) >> 3u32) & 1 == (if i.TXIDLE { 0u32 } else { (w >> 3u32) & 1 }),
        ((w | m) >> 5u32) & 1 == (if i.DELTACTS { 1u32 } else { (w >> 5u32) & 1 }),
        ((w & !m) >> 5u32) & 1 == (if i.DELTACTS { 0u32 } else { (w >> 5u32) & 1 }),
        ((w | m) >> 6u32) & 1 == (if i.TXDIS { 1u32 } else { (w >> 6u32) & 1 }),
        ((w & !m) >> 6u32) & 1 == (if i.TXDIS { 0u32 } else { (w >> 6u32) & 1 }),
        ((w | m) >> 8u32) & 1 == (if i.OVERRUN { 1u32 } else { (w >> 8u32) & 1 }),
        ((w & !m) >> 8u32) & 1 == (if i.OVERRUN { 0u32 } else { (w >> 8u32) & 1 }),
        ((w | m) >> 11u32) & 1 == (if i.DELTARXBRK { 1u32 } else { (w >> 11u32) & 1 }),
        ((w & !m) >> 11u32) & 1 == (if i.DELTARXBRK { 0u32 } else { (w >> 11u32) & 1 }),
        ((w | m) >> 12u32) & 1 == (if i.START { 1u32 } else { (w >> 12u32) & 1 }),
        ((w & !m) >> 12u32) & 1 == (if i.START { 0u32 } else { (w >> 12u32) & 1 }),
        ((w | m) >> 13u32) & 1 == (if i.FRAMERR { 1u32 } else { (w >> 13u32) & 1 }),
        ((w & !m) >> 13u32) & 1 == (if i.FRAMERR { 0u32 } else { (w >> 13u32) & 1 }),
        ((w | m) >> 14u32) & 1 == (if i.PARITYERR { 1u32 } else { (w >> 14u32) & 1 }),
        ((w & !m) >> 14u32) & 1 == (if i.PARITYERR { 0u32 } else { (w >> 14u32) & 1 }),
        ((w | m) >> 15u32) & 1 == (if i.RXNOISE { 1u32 } else { (w >> 15u32) & 1 }),
        ((w & !m) >> 15u32) & 1 == (if i.RXNOISE { 0u32 } else { (w >> 15u32) & 1 }),
        ((w | m) >> 16u32) & 1 == (if i.ABERR { 1u32 } else { (w >> 16u32) & 1 }),
        ((w & !m) >> 16u32) & 1 == (if i.ABERR { 0u32 } else { (w >> 16u32) & 1 }),
{
    let rxrdy = i.RXRDY;
    let txrdy = i.TXRDY;
    let txidle = i.TXIDLE;
    let deltacts = i.DELTACTS;
    let txdis = i.TXDIS;
    let overrun = i.OVERRUN;
    let deltarxbrk = i.DELTARXBRK;
    let start = i.START;
    let framerr = i.FRAMERR;
    let parityerr = i.PARITYERR;
    let rxnoise = i.RXNOISE;
    let aberr = i.ABERR;
    assert(m == (if rxrdy { 0x1u32 } else { 0u32 }) | (if txrdy { 0x4u32 } else { 0u32 }) | (if txidle { 0x8u32 } else { 0u32 }) | (if deltacts { 0x20u32 } else { 0u32 }) | (if txdis { 0x40u32 } else { 0u32 }) | (if overrun { 0x100u32 } else { 0u32 }) | (if deltarxbrk { 0x800u32 } else { 0u32 }) | (if start { 0x1000u32 } else { 0u32 }) | (if framerr { 0x2000u32 } else { 0u32 }) | (if parityerr { 0x4000u32 } else { 0u32 }) | (if rxnoise { 0x8000u32 } else { 0u32 }) | (if aberr { 0x10000u32 } else { 0u32 })) by {
        assert(1u32 << 0u32 == 0x1u32 && 1u32 << 2u32 == 0x4u32 && 1u32 << 3u32 == 0x8u32 && 1u32 << 5u32 == 0x20u32 && 1u32 << 6u32 == 0x40u32 && 1u32 << 8u32 == 0x100u32 && 1u32 << 11u32 == 0x800u32 && 1u32 << 12u32 == 0x1000u32 && 1u32 << 13u32 == 0x2000u32 && 1u32 << 14u32 == 0x4000u32 && 1u32 << 15u32 == 0x8000u32 && 1u32 << 16u32 == 0x10000u32) by (bit_vector);
    }
    assert({
        &&& ((w | m) >> 0u32) & 1 == (if rxrdy { 1u32 } else { (w >> 0u32) & 1 })
        &&& ((w & !m) >> 0u32) & 1 == (if rxrdy { 0u32 } else { (w >> 0u32) & 1 })
        &&& ((w | m) >> 2u32) & 1 == (if txrdy { 1u32 } else { (w >> 2u32) & 1 })
        &&& ((w & !m) >> 2u32) & 1 == (if txrdy { 0u32 } else { (w >> 2u32) & 1 })
        &&& ((w | m) >> 3u32) & 1 == (if txidle { 1u32 } else { (w >> 3u32) & 1 })
        &&& ((w & !m) >> 3u32) & 1 == (if txidle { 0u32 } else { (w >> 3u32) & 1 })
        &&& ((w | m) >> 5u32) & 1 == (if deltacts { 1u32 } else { (w >> 5u32) & 1 })
        &&& ((w & !m) >> 5u32) & 1 == (if deltacts { 0u32 } else { (w >> 5u32) & 1 })
        &&& ((w | m) >> 6u32) & 1 == (if txdis { 1u32 } else { (w >> 6u32) & 1 })
        &&& ((w & !m) >> 6u32) & 1 == (if txdis { 0u32 } else { (w >> 6u32) & 1 })
        &&& ((w | m) >> 8u32) & 1 == (if overrun { 1u32 } else { (w >> 8u32) & 1 })
        &&& ((w & !m) >> 8u32) & 1 == (if overrun { 0u32 } else { (w >> 8u32) & 1 })
        &&& ((w | m) >> 11u32) & 1 == (if deltarxbrk { 1u32 } else { (w >> 11u32) & 1 })
        &&& ((w & !m) >> 11u32) & 1 == (if deltarxbrk { 0u32 } else { (w >> 11u32) & 1 })
        &&& ((w | m) >> 12u32) & 1 == (if start { 1u32 } else { (w >> 12u32) & 1 })
        &&& ((w & !m) >> 12u32) & 1 == (if start { 0u32 } else { (w >> 12u32) & 1 })
        &&& ((w | m) >> 13u32) & 1 == (if framerr { 1u32 } else { (w >> 13u32) & 1 })
        &&& ((w & !m) >> 13u32) & 1 == (if framerr { 0u32 } else { (w >> 13u32) & 1 })
        &&& ((w | m) >> 14u32) & 1 == (if parityerr { 1u32 } else { (w >> 14u32) & 1 })
        &&& ((w & !m) >> 14u32) & 1 == (if parityerr { 0u32 } else { (w >> 14u32) & 1 })
        &&& ((w | m) >> 15u32) & 1 == (if rxnoise { 1u32 } else { (w >> 15u32) & 1 })
        &&& ((w & !m) >> 15u32) & 1 == (if rxnoise { 0u32 } else { (w >> 15u32) & 1 })
        &&& ((w | m) >> 16u32) & 1 == (if aberr { 1u32 } else { (w >> 16u32) & 1 })
        &&& ((w & !m) >> 16u32) & 1 == (if aberr { 0u32 } else { (w >> 16u32) & 1 })
    }) by (bit_vector)
        requires
            m == (if rxrdy { 0x1u32 } else { 0u32 }) | (if txrdy { 0x4u32 } else { 0u32 }) | (if txidle { 0x8u32 } else { 0u32 }) | (if deltacts { 0x20u32 } else { 0u32 }) | (if txdis { 0x40u32 } else { 0u32 }) | (if overrun { 0x100u32 } else { 0u32 }) | (if deltarxbrk { 0x800u32 } else { 0u32 }) | (if start { 0x1000u32 } else { 0u32 }) | (if framerr { 0x2000u32 } else { 0u32 }) | (if parityerr { 0x4000u32 } else { 0u32 }) | (if rxnoise { 0x8000u32 } else { 0u32 }) | (if aberr { 0x10000u32 } else { 0u32 }),
    ;
}

impl Default for Interrupts {
    /// No interrupt selected
    fn default() -> (interrupts: Self)
        ensures
            interrupts.spec_mask() == 0,
    {
        let interrupts = Self {
            RXRDY: false,
            TXRDY: false,
            TXIDLE: false,
            DELTACTS: false,
            TXDIS: false,
            OVERRUN: false,
            DELTARXBRK: false,
            START: false,
            FRAMERR: false,
            PARITYERR: false,
            RXNOISE: false,
            ABERR: false,
        };
        assert(0u32 | 0u32 | 0u32 | 0u32 | 0u32 | 0u32 | 0u32 | 0u32 | 0u32 | 0u32 | 0u32 | 0u32
            == 0u32) by (bit_vector);
        interrupts
    }
}

} // verus!
