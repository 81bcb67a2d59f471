use vstd::prelude::*;

use crate::usart::bit_if;

verus! {

/// Used to enable or disable SPI interrupts
///
/// See [`SPI::enable_interrupts`] or [`SPI::disable_interrupts`].
///
/// [`SPI::enable_interrupts`]: struct.SPI.html#method.enable_interrupts
/// [`SPI::disable_interrupts`]: struct.SPI.html#method.disable_interrupts
pub struct Interrupts {
    /// RX Ready
    pub rx_ready: bool,
    /// TX Ready
    pub tx_ready: bool,
    /// Receiver Overrun
    pub rx_overrun: bool,
    /// Transmitter Underrun
    pub tx_underrun: bool,
    /// Slave Select Asserted
    pub slave_select_asserted: bool,
    /// Slave Select Deasserted
    pub slave_select_deasserted: bool,
}

impl Interrupts {
    /// The INTENSET/INTENCLR bits of the interrupts that are set to `true`
    pub open spec fn spec_mask(&self) -> u32 {
        bit_if(self.rx_ready, 0) | bit_if(self.tx_ready, 1) | bit_if(self.rx_overrun, 2) | bit_if(
            self.tx_underrun,
            3,
        ) | bit_if(self.slave_select_asserted, 4) | bit_if(self.slave_select_deasserted, 5)
    }

    /// The INTENSET/INTENCLR bits of the interrupts that are set to `true`
    pub fn mask(&self) -> (bits: u32)
        ensures
            bits == self.spec_mask(),
    {
        let mut bits: u32 = 0;
        bits = bits | if self.rx_ready { 1u32 << 0u32 } else { 0 };
        bits = bits | if self.tx_ready { 1u32 << 1u32 } else { 0 };
        bits = bits | if self.rx_overrun { 1u32 << 2u32 } else { 0 };
        bits = bits | if self.tx_underrun { 1u32 << 3u32 } else { 0 };
        bits = bits | if self.slave_select_asserted { 1u32 << 4u32 } else { 0 };
        bits = bits | if self.slave_select_deasserted { 1u32 << 5u32 } else { 0 };
        proof {
            assert(0u32 | bit_if(self.rx_ready, 0) == bit_if(self.rx_ready, 0)) by (bit_vector);
        }
        bits
    }
}

/// Enabling the interrupts of an [`Interrupts`] value (OR-ing its mask into
/// the enable register) sets the bit of every selected interrupt and leaves
/// the bit of every other interrupt as it was; disabling (clearing the mask)
/// clears the bits of the selected interrupts and leaves the others
pub proof fn lemma_interrupt_mask(i: Interrupts, w: u32, m: u32)
    requires
        m == i.spec_mask(),
    ensures
        ((w | m) >> 0u32) & 1 == (if i.rx_ready { 1u32 } else { (w >> 0u32) & 1 }),
        ((w & !m) >> 0u32) & 1 == (if i.rx_ready { 0u32 } else { (w >> 0u32) & 1 }),
        ((w | m) >> 1u32) & 1 == (if i.tx_ready { 1u32 } else { (w >> 1u32) & 1 }),
        ((w & !m) >> 1u32) & 1 == (if i.tx_ready { 0u32 } else { (w >> 1u32) & 1 }),
        ((w | m) >> 2u32) & 1 == (if i.rx_overrun { 1u32 } else { (w >> 2u32) & 1 }),
        ((w & !m) >> 2u32) & 1 == (if i.rx_overrun { 0u32 } else { (w >> 2u32) & 1 }),
        ((w | m) >> 3u32) & 1 == (if i.tx_underrun { 1u32 } else { (w >> 3u32) & 1 }),
        ((w & !m) >> 3u32) & 1 == (if i.tx_underrun { 0u32 } else { (w >> 3u32) & 1 }),
        ((w | m) >> 4u32) & 1 == (if i.slave_select_asserted { 1u32 } else { (w >> 4u32) & 1 }),
        ((w & !m) >> 4u32) & 1 == (if i.slave_select_asserted { 0u32 } else { (w >> 4u32) & 1 }),
        ((w | m) >> 5u32) & 1 == (if i.slave_select_deasserted { 1u32 } else { (w >> 5u32) & 1 }),
        ((w & !m) >> 5u32) & 1 == (if i.slave_select_deasserted { 0u32 } else { (w >> 5u32) & 1 }),
{
    let rx_ready = i.rx_ready;
    let tx_ready = i.tx_ready;
    let rx_overrun = i.rx_overrun;
    let tx_underrun = i.tx_underrun;
    let slave_select_asserted = i.slave_select_asserted;
    let slave_select_deasserted = i.slave_select_deasserted;
    assert(m == (if rx_ready { 0x1u32 } else { 0u32 }) | (if tx_ready { 0x2u32 } else { 0u32 }) | (if rx_overrun { 0x4u32 } else { 0u32 }) | (if tx_underrun { 0x8u32 } else { 0u32 }) | (if slave_select_asserted { 0x10u32 } else { 0u32 }) | (if slave_select_deasserted { 0x20u32 } else { 0u32 })) by {
        assert(1u32 << 0u32 == 0x1u32 && 1u32 << 1u32 == 0x2u32 && 1u32 << 2u32 == 0x4u32 && 1u32 << 3u32 == 0x8u32 && 1u32 << 4u32 == 0x10u32 && 1u32 << 5u32 == 0x20u32) by (bit_vector);
    }
    assert({
        &&& ((w | m) >> 0u32) & 1 == (if rx_ready { 1u32 } else { (w >> 0u32) & 1 })
        &&& ((w & !m) >> 0u32) & 1 == (if rx_ready { 0u32 } else { (w >> 0u32) & 1 })
        &&& ((w | m) >> 1u32) & 1 == (if tx_ready { 1u32 } else { (w >> 1u32) & 1 })
        &&& ((w & !m) >> 1u32) & 1 == (if tx_ready { 0u32 } else { (w >> 1u32) & 1 })
        &&& ((w | m) >> 2u32) & 1 == (if rx_overrun { 1u32 } else { (w >> 2u32) & 1 })
        &&& ((w & !m) >> 2u32) & 1 == (if rx_overrun { 0u32 } else { (w >> 2u32) & 1 })
        &&& ((w | m) >> 3u32) & 1 == (if tx_underrun { 1u32 } else { (w >> 3u32) & 1 })
        &&& ((w & !m) >> 3u32) & 1 == (if tx_underrun { 0u32 } else { (w >> 3u32) & 1 })
        &&& ((w | m) >> 4u32) & 1 == (if slave_select_asserted { 1u32 } else { (w >> 4u32) & 1 })
        &&& ((w & !m) >> 4u32) & 1 == (if slave_select_asserted { 0u32 } else { (w >> 4u32) & 1 })
        &&& ((w | m) >> 5u32) & 1 == (if slave_select_deasserted { 1u32 } else { (w >> 5u32) & 1 })
        &&& ((w & !m) >> 5u32) & 1 == (if slave_select_deasserted { 0u32 } else { (w >> 5u32) & 1 })
    }) by (bit_vector)
        requires
            m == (if rx_ready { 0x1u32 } else { 0u32 }) | (if tx_ready { 0x2u32 } else { 0u32 }) | (if rx_overrun { 0x4u32 } else { 0u32 }) | (if tx_underrun { 0x8u32 } else { 0u32 }) | (if slave_select_asserted { 0x10u32 } else { 0u32 }) | (if slave_select_deasserted { 0x20u32 } else { 0u32 }),
    ;
}

impl Default for Interrupts {
    /// No interrupt selected
    fn default() -> (interrupts: Self)
        ensures
            interrupts.spec_mask() == 0,
    {
        let interrupts = Self {
            rx_ready: false,
            tx_ready: false,
            rx_overrun: false,
            tx_underrun: false,
            slave_select_asserted: false,
            slave_select_deasserted: false,
        };
        assert(0u32 | 0u32 | 0u32 | 0u32 | 0u32 | 0u32 == 0u32) by (bit_vector);
        interrupts
    }
}

} // verus!
