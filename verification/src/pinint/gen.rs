use vstd::prelude::*;
use vstd::arithmetic::power2::lemma2_to64;

use super::{interrupt::Interrupt, traits::Trait};

verus! {

/// Provides access to all pin interrupts
#[allow(missing_docs)]
pub struct Interrupts<State> {
    pub pinint0: Interrupt<PININT0, (), State>,
    pub pinint1: Interrupt<PININT1, (), State>,
    pub pinint2: Interrupt<PININT2, (), State>,
    pub pinint3: Interrupt<PININT3, (), State>,
    pub pinint4: Interrupt<PININT4, (), State>,
    pub pinint5: Interrupt<PININT5, (), State>,
    pub pinint6: Interrupt<PININT6, (), State>,
    pub pinint7: Interrupt<PININT7, (), State>,
}

impl<State> Interrupts<State> {
    /// Create all pin interrupts, with no pin selected
    pub(crate) fn new() -> Self {
        Self {
            pinint0: Interrupt::new(),
            pinint1: Interrupt::new(),
            pinint2: Interrupt::new(),
            pinint3: Interrupt::new(),
            pinint4: Interrupt::new(),
            pinint5: Interrupt::new(),
            pinint6: Interrupt::new(),
            pinint7: Interrupt::new(),
        }
    }
}

/// Represents pin interrupt 0
pub struct PININT0;

impl Trait for PININT0 {
    open spec fn index() -> usize {
        0
    }

    open spec fn mask() -> u8 {
        0x1
    }

    fn index_value() -> usize {
        0
    }

    fn mask_value() -> u8 {
        proof {
            lemma2_to64();
        }
        0x1
    }
}

/// Represents pin interrupt 1
pub struct PININT1;

impl Trait for PININT1 {
    open spec fn index() -> usize {
        1
    }

    open spec fn mask() -> u8 {
        0x2
    }

    fn index_value() -> usize {
        1
    }

    fn mask_value() -> u8 {
        proof {
            lemma2_to64();
        }
        0x2
    }
}

/// Represents pin interrupt 2
pub struct PININT2;

impl Trait for PININT2 {
    open spec fn index() -> usize {
        2
    }

    open spec fn mask() -> u8 {
        0x4
    }

    fn index_value() -> usize {
        2
    }

    fn mask_value() -> u8 {
        proof {
            lemma2_to64();
        }
        0x4
    }
}

/// Represents pin interrupt 3
pub struct PININT3;

impl Trait for PININT3 {
    open spec fn index() -> usize {
        3
    }

    open spec fn mask() -> u8 {
        0x8
    }

    fn index_value() -> usize {
        3
    }

    fn mask_value() -> u8 {
        proof {
            lemma2_to64();
        }
        0x8
    }
}

/// Represents pin interrupt 4
pub struct PININT4;

impl Trait for PININT4 {
    open spec fn index() -> usize {
        4
    }

    open spec fn mask() -> u8 {
        0x10
    }

    fn index_value() -> usize {
        4
    }

    fn mask_value() -> u8 {
        proof {
            lemma2_to64();
        }
        0x10
    }
}

/// Represents pin interrupt 5
pub struct PININT5;

impl Trait for PININT5 {
    open spec fn index() -> usize {
        5
    }

    open spec fn mask() -> u8 {
        0x20
    }

    fn index_value() -> usize {
        5
    }

    fn mask_value() -> u8 {
        proof {
            lemma2_to64();
        }
        0x20
    }
}

/// Represents pin interrupt 6
pub struct PININT6;

impl Trait for PININT6 {
    open spec fn index() -> usize {
        6
    }

    open spec fn mask() -> u8 {
        0x40
    }

    fn index_value() -> usize {
        6
    }

    fn mask_value() -> u8 {
        proof {
            lemma2_to64();
        }
        0x40
    }
}

/// Represents pin interrupt 7
pub struct PININT7;

impl Trait for PININT7 {
    open spec fn index() -> usize {
        7
    }

    open spec fn mask() -> u8 {
        0x80
    }

    fn index_value() -> usize {
        7
    }

    fn mask_value() -> u8 {
        proof {
            lemma2_to64();
        }
        0x80
    }
}

/// Pin interrupt `n` selects its pin through PINTSEL register `n` and owns bit
/// `n` of the PINT registers, for each of the eight pin interrupts; no two
/// interrupts share a register or a bit
pub proof fn lemma_pin_interrupt_slots()
    ensures
        PININT0::index() == 0 && PININT0::mask() == 0x01,
        PININT1::index() == 1 && PININT1::mask() == 0x02,
        PININT2::index() == 2 && PININT2::mask() == 0x04,
        PININT3::index() == 3 && PININT3::mask() == 0x08,
        PININT4::index() == 4 && PININT4::mask() == 0x10,
        PININT5::index() == 5 && PININT5::mask() == 0x20,
        PININT6::index() == 6 && PININT6::mask() == 0x40,
        PININT7::index() == 7 && PININT7::mask() == 0x80,
{
}

} // verus!
