//! The pins of the LPC82x

use core::marker::PhantomData;

use vstd::prelude::*;


use super::{pin::Pin, state, traits::Trait};

verus! {
/// Identifies pin PIO0_0
#[allow(non_camel_case_types)]
pub struct PIO0_0(pub(crate) ());

impl Trait for PIO0_0 {
    open spec fn spec_port(&self) -> usize {
        0
    }

    open spec fn spec_id(&self) -> u8 {
        0
    }

    fn port(&self) -> usize {
        0
    }

    fn id(&self) -> u8 {
        0
    }

    fn mask(&self) -> u32 {
        1u32 << 0u8
    }
}
/// Identifies pin PIO0_1
#[allow(non_camel_case_types)]
pub struct PIO0_1(pub(crate) ());

impl Trait for PIO0_1 {
    open spec fn spec_port(&self) -> usize {
        0
    }

    open spec fn spec_id(&self) -> u8 {
        1
    }

    fn port(&self) -> usize {
        0
    }

    fn id(&self) -> u8 {
        1
    }

    fn mask(&self) -> u32 {
        1u32 << 1u8
    }
}
/// Identifies pin PIO0_2
#[allow(non_camel_case_types)]
pub struct PIO0_2(pub(crate) ());

impl Trait for PIO0_2 {
    open spec fn spec_port(&self) -> usize {
        0
    }

    open spec fn spec_id(&self) -> u8 {
        2
    }

    fn port(&self) -> usize {
        0
    }

    fn id(&self) -> u8 {
        2
    }

    fn mask(&self) -> u32 {
        1u32 << 2u8
    }
}
/// Identifies pin PIO0_3
#[allow(non_camel_case_types)]
pub struct PIO0_3(pub(crate) ());

impl Trait for PIO0_3 {
    open spec fn spec_port(&self) -> usize {
        0
    }

    open spec fn spec_id(&self) -> u8 {
        3
    }

    fn port(&self) -> usize {
        0
    }

    fn id(&self) -> u8 {
        3
    }

    fn mask(&self) -> u32 {
        1u32 << 3u8
    }
}
/// Identifies pin PIO0_4
#[allow(non_camel_case_types)]
pub struct PIO0_4(pub(crate) ());

impl Trait for PIO0_4 {
    open spec fn spec_port(&self) -> usize {
        0
    }

    open spec fn spec_id(&self) -> u8 {
        4
    }

    fn port(&self) -> usize {
        0
    }

    fn id(&self) -> u8 {
        4
    }

    fn mask(&self) -> u32 {
        1u32 << 4u8
    }
}
/// Identifies pin PIO0_5
#[allow(non_camel_case_types)]
pub struct PIO0_5(pub(crate) ());

impl Trait for PIO0_5 {
    open spec fn spec_port(&self) -> usize {
        0
    }

    open spec fn spec_id(&self) -> u8 {
        5
    }

    fn port(&self) -> usize {
        0
    }

    fn id(&self) -> u8 {
        5
    }

    fn mask(&self) -> u32 {
        1u32 << 5u8
    }
}
/// Identifies pin PIO0_6
#[allow(non_camel_case_types)]
pub struct PIO0_6(pub(crate) ());

impl Trait for PIO0_6 {
    open spec fn spec_port(&self) -> usize {
        0
    }

    open spec fn spec_id(&self) -> u8 {
        6
    }

    fn port(&self) -> usize {
        0
    }

    fn id(&self) -> u8 {
        6
    }

    fn mask(&self) -> u32 {
        1u32 << 6u8
    }
}
/// Identifies pin PIO0_7
#[allow(non_camel_case_types)]
pub struct PIO0_7(pub(crate) ());

impl Trait for PIO0_7 {
    open spec fn spec_port(&self) -> usize {
        0
    }

    open spec fn spec_id(&self) -> u8 {
        7
    }

    fn port(&self) -> usize {
        0
    }

    fn id(&self) -> u8 {
        7
    }

    fn mask(&self) -> u32 {
        1u32 << 7u8
    }
}
/// Identifies pin PIO0_8
#[allow(non_camel_case_types)]
pub struct PIO0_8(pub(crate) ());

impl Trait for PIO0_8 {
    open spec fn spec_port(&self) -> usize {
        0
    }

    open spec fn spec_id(&self) -> u8 {
        8
    }

    fn port(&self) -> usize {
        0
    }

    fn id(&self) -> u8 {
        8
    }

    fn mask(&self) -> u32 {
        1u32 << 8u8
    }
}
/// Identifies pin PIO0_9
#[allow(non_camel_case_types)]
pub struct PIO0_9(pub(crate) ());

impl Trait for PIO0_9 {
    open spec fn spec_port(&self) -> usize {
        0
    }

    open spec fn spec_id(&self) -> u8 {
        9
    }

    fn port(&self) -> usize {
        0
    }

    fn id(&self) -> u8 {
        9
    }

    fn mask(&self) -> u32 {
        1u32 << 9u8
    }
}
/// Identifies pin PIO0_10
#[allow(non_camel_case_types)]
pub struct PIO0_10(pub(crate) ());

impl Trait for PIO0_10 {
    open spec fn spec_port(&self) -> usize {
        0
    }

    open spec fn spec_id(&self) -> u8 {
        10
    }

    fn port(&self) -> usize {
        0
    }

    fn id(&self) -> u8 {
        10
    }

    fn mask(&self) -> u32 {
        1u32 << 10u8
    }
}
/// Identifies pin PIO0_11
#[allow(non_camel_case_types)]
pub struct PIO0_11(pub(crate) ());

impl Trait for PIO0_11 {
    open spec fn spec_port(&self) -> usize {
        0
    }

    open spec fn spec_id(&self) -> u8 {
        11
    }

    fn port(&self) -> usize {
        0
    }

    fn id(&self) -> u8 {
        11
    }

    fn mask(&self) -> u32 {
        1u32 << 11u8
    }
}
/// Identifies pin PIO0_12
#[allow(non_camel_case_types)]
pub struct PIO0_12(pub(crate) ());

impl Trait for PIO0_12 {
    open spec fn spec_port(&self) -> usize {
        0
    }

    open spec fn spec_id(&self) -> u8 {
        12
    }

    fn port(&self) -> usize {
        0
    }

    fn id(&self) -> u8 {
        12
    }

    fn mask(&self) -> u32 {
        1u32 << 12u8
    }
}
/// Identifies pin PIO0_13
#[allow(non_camel_case_types)]
pub struct PIO0_13(pub(crate) ());

impl Trait for PIO0_13 {
    open spec fn spec_port(&self) -> usize {
        0
    }

    open spec fn spec_id(&self) -> u8 {
        13
    }

    fn port(&self) -> usize {
        0
    }

    fn id(&self) -> u8 {
        13
    }

    fn mask(&self) -> u32 {
        1u32 << 13u8
    }
}
/// Identifies pin PIO0_14
#[allow(non_camel_case_types)]
pub struct PIO0_14(pub(crate) ());

impl Trait for PIO0_14 {
    open spec fn spec_port(&self) -> usize {
        0
    }

    open spec fn spec_id(&self) -> u8 {
        14
    }

    fn port(&self) -> usize {
        0
    }

    fn id(&self) -> u8 {
        14
    }

    fn mask(&self) -> u32 {
        1u32 << 14u8
    }
}
/// Identifies pin PIO0_15
#[allow(non_camel_case_types)]
pub struct PIO0_15(pub(crate) ());

impl Trait for PIO0_15 {
    open spec fn spec_port(&self) -> usize {
        0
    }

    open spec fn spec_id(&self) -> u8 {
        15
    }

    fn port(&self) -> usize {
        0
    }

    fn id(&self) -> u8 {
        15
    }

    fn mask(&self) -> u32 {
        1u32 << 15u8
    }
}
/// Identifies pin PIO0_16
#[allow(non_camel_case_types)]
pub struct PIO0_16(pub(crate) ());

impl Trait for PIO0_16 {
    open spec fn spec_port(&self) -> usize {
        0
    }

    open spec fn spec_id(&self) -> u8 {
        16
    }

    fn port(&self) -> usize {
        0
    }

    fn id(&self) -> u8 {
        16
    }

    fn mask(&self) -> u32 {
        1u32 << 16u8
    }
}
/// Identifies pin PIO0_17
#[allow(non_camel_case_types)]
pub struct PIO0_17(pub(crate) ());

impl Trait for PIO0_17 {
    open spec fn spec_port(&self) -> usize {
        0
    }

    open spec fn spec_id(&self) -> u8 {
        17
    }

    fn port(&self) -> usize {
        0
    }

    fn id(&self) -> u8 {
        17
    }

    fn mask(&self) -> u32 {
        1u32 << 17u8
    }
}
/// Identifies pin PIO0_18
#[allow(non_camel_case_types)]
pub struct PIO0_18(pub(crate) ());

impl Trait for PIO0_18 {
    open spec fn spec_port(&self) -> usize {
        0
    }

    open spec fn spec_id(&self) -> u8 {
        18
    }

    fn port(&self) -> usize {
        0
    }

    fn id(&self) -> u8 {
        18
    }

    fn mask(&self) -> u32 {
        1u32 << 18u8
    }
}
/// Identifies pin PIO0_19
#[allow(non_camel_case_types)]
pub struct PIO0_19(pub(crate) ());

impl Trait for PIO0_19 {
    open spec fn spec_port(&self) -> usize {
        0
    }

    open spec fn spec_id(&self) -> u8 {
        19
    }

    fn port(&self) -> usize {
        0
    }

    fn id(&self) -> u8 {
        19
    }

    fn mask(&self) -> u32 {
        1u32 << 19u8
    }
}
/// Identifies pin PIO0_20
#[allow(non_camel_case_types)]
pub struct PIO0_20(pub(crate) ());

impl Trait for PIO0_20 {
    open spec fn spec_port(&self) -> usize {
        0
    }

    open spec fn spec_id(&self) -> u8 {
        20
    }

    fn port(&self) -> usize {
        0
    }

    fn id(&self) -> u8 {
        20
    }

    fn mask(&self) -> u32 {
        1u32 << 20u8
    }
}
/// Identifies pin PIO0_21
#[allow(non_camel_case_types)]
pub struct PIO0_21(pub(crate) ());

impl Trait for PIO0_21 {
    open spec fn spec_port(&self) -> usize {
        0
    }

    open spec fn spec_id(&self) -> u8 {
        21
    }

    fn port(&self) -> usize {
        0
    }

    fn id(&self) -> u8 {
        21
    }

    fn mask(&self) -> u32 {
        1u32 << 21u8
    }
}
/// Identifies pin PIO0_22
#[allow(non_camel_case_types)]
pub struct PIO0_22(pub(crate) ());

impl Trait for PIO0_22 {
    open spec fn spec_port(&self) -> usize {
        0
    }

    open spec fn spec_id(&self) -> u8 {
        22
    }

    fn port(&self) -> usize {
        0
    }

    fn id(&self) -> u8 {
        22
    }

    fn mask(&self) -> u32 {
        1u32 << 22u8
    }
}
/// Identifies pin PIO0_23
#[allow(non_camel_case_types)]
pub struct PIO0_23(pub(crate) ());

impl Trait for PIO0_23 {
    open spec fn spec_port(&self) -> usize {
        0
    }

    open spec fn spec_id(&self) -> u8 {
        23
    }

    fn port(&self) -> usize {
        0
    }

    fn id(&self) -> u8 {
        23
    }

    fn mask(&self) -> u32 {
        1u32 << 23u8
    }
}
/// Identifies pin PIO0_24
#[allow(non_camel_case_types)]
pub struct PIO0_24(pub(crate) ());

impl Trait for PIO0_24 {
    open spec fn spec_port(&self) -> usize {
        0
    }

    open spec fn spec_id(&self) -> u8 {
        24
    }

    fn port(&self) -> usize {
        0
    }

    fn id(&self) -> u8 {
        24
    }

    fn mask(&self) -> u32 {
        1u32 << 24u8
    }
}
/// Identifies pin PIO0_25
#[allow(non_camel_case_types)]
pub struct PIO0_25(pub(crate) ());

impl Trait for PIO0_25 {
    open spec fn spec_port(&self) -> usize {
        0
    }

    open spec fn spec_id(&self) -> u8 {
        25
    }

    fn port(&self) -> usize {
        0
    }

    fn id(&self) -> u8 {
        25
    }

    fn mask(&self) -> u32 {
        1u32 << 25u8
    }
}
/// Identifies pin PIO0_26
#[allow(non_camel_case_types)]
pub struct PIO0_26(pub(crate) ());

impl Trait for PIO0_26 {
    open spec fn spec_port(&self) -> usize {
        0
    }

    open spec fn spec_id(&self) -> u8 {
        26
    }

    fn port(&self) -> usize {
        0
    }

    fn id(&self) -> u8 {
        26
    }

    fn mask(&self) -> u32 {
        1u32 << 26u8
    }
}
/// Identifies pin PIO0_27
#[allow(non_camel_case_types)]
pub struct PIO0_27(pub(crate) ());

impl Trait for PIO0_27 {
    open spec fn spec_port(&self) -> usize {
        0
    }

    open spec fn spec_id(&self) -> u8 {
        27
    }

    fn port(&self) -> usize {
        0
    }

    fn id(&self) -> u8 {
        27
    }

    fn mask(&self) -> u32 {
        1u32 << 27u8
    }
}
/// Identifies pin PIO0_28
#[allow(non_camel_case_types)]
pub struct PIO0_28(pub(crate) ());

impl Trait for PIO0_28 {
    open spec fn spec_port(&self) -> usize {
        0
    }

    open spec fn spec_id(&self) -> u8 {
        28
    }

    fn port(&self) -> usize {
        0
    }

    fn id(&self) -> u8 {
        28
    }

    fn mask(&self) -> u32 {
        1u32 << 28u8
    }
}
/// Provides access to all pins
///
/// Pins PIO0_2 (SWDIO), PIO0_3 (SWCLK) and PIO0_5 (RESET) start in the SWM
/// state, as their fixed functions are enabled after reset.
#[allow(missing_docs)]
pub struct Pins {
    pub pio0_0: Pin<PIO0_0, state::Unused>,
    pub pio0_1: Pin<PIO0_1, state::Unused>,
    pub pio0_2: Pin<PIO0_2, state::Swm<((),), ()>>,
    pub pio0_3: Pin<PIO0_3, state::Swm<((),), ()>>,
    pub pio0_4: Pin<PIO0_4, state::Unused>,
    pub pio0_5: Pin<PIO0_5, state::Swm<(), ((),)>>,
    pub pio0_6: Pin<PIO0_6, state::Unused>,
    pub pio0_7: Pin<PIO0_7, state::Unused>,
    pub pio0_8: Pin<PIO0_8, state::Unused>,
    pub pio0_9: Pin<PIO0_9, state::Unused>,
    pub pio0_10: Pin<PIO0_10, state::Unused>,
    pub pio0_11: Pin<PIO0_11, state::Unused>,
    pub pio0_12: Pin<PIO0_12, state::Unused>,
    pub pio0_13: Pin<PIO0_13, state::Unused>,
    pub pio0_14: Pin<PIO0_14, state::Unused>,
    pub pio0_15: Pin<PIO0_15, state::Unused>,
    pub pio0_16: Pin<PIO0_16, state::Unused>,
    pub pio0_17: Pin<PIO0_17, state::Unused>,
    pub pio0_18: Pin<PIO0_18, state::Unused>,
    pub pio0_19: Pin<PIO0_19, state::Unused>,
    pub pio0_20: Pin<PIO0_20, state::Unused>,
    pub pio0_21: Pin<PIO0_21, state::Unused>,
    pub pio0_22: Pin<PIO0_22, state::Unused>,
    pub pio0_23: Pin<PIO0_23, state::Unused>,
    pub pio0_24: Pin<PIO0_24, state::Unused>,
    pub pio0_25: Pin<PIO0_25, state::Unused>,
    pub pio0_26: Pin<PIO0_26, state::Unused>,
    pub pio0_27: Pin<PIO0_27, state::Unused>,
    pub pio0_28: Pin<PIO0_28, state::Unused>,
}

impl Pins {
    /// Create the pins in their state after reset
    pub fn new() -> Self {
        Pins {
            pio0_0: Pin { ty: PIO0_0(()), _state: state::Unused::new() },
            pio0_1: Pin { ty: PIO0_1(()), _state: state::Unused::new() },
            pio0_2: Pin { ty: PIO0_2(()), _state: state::Swm::new() },
            pio0_3: Pin { ty: PIO0_3(()), _state: state::Swm::new() },
            pio0_4: Pin { ty: PIO0_4(()), _state: state::Unused::new() },
            pio0_5: Pin { ty: PIO0_5(()), _state: state::Swm::new() },
            pio0_6: Pin { ty: PIO0_6(()), _state: state::Unused::new() },
            pio0_7: Pin { ty: PIO0_7(()), _state: state::Unused::new() },
            pio0_8: Pin { ty: PIO0_8(()), _state: state::Unused::new() },
            pio0_9: Pin { ty: PIO0_9(()), _state: state::Unused::new() },
            pio0_10: Pin { ty: PIO0_10(()), _state: state::Unused::new() },
            pio0_11: Pin { ty: PIO0_11(()), _state: state::Unused::new() },
            pio0_12: Pin { ty: PIO0_12(()), _state: state::Unused::new() },
            pio0_13: Pin { ty: PIO0_13(()), _state: state::Unused::new() },
            pio0_14: Pin { ty: PIO0_14(()), _state: state::Unused::new() },
            pio0_15: Pin { ty: PIO0_15(()), _state: state::Unused::new() },
            pio0_16: Pin { ty: PIO0_16(()), _state: state::Unused::new() },
            pio0_17: Pin { ty: PIO0_17(()), _state: state::Unused::new() },
            pio0_18: Pin { ty: PIO0_18(()), _state: state::Unused::new() },
            pio0_19: Pin { ty: PIO0_19(()), _state: state::Unused::new() },
            pio0_20: Pin { ty: PIO0_20(()), _state: state::Unused::new() },
            pio0_21: Pin { ty: PIO0_21(()), _state: state::Unused::new() },
            pio0_22: Pin { ty: PIO0_22(()), _state: state::Unused::new() },
            pio0_23: Pin { ty: PIO0_23(()), _state: state::Unused::new() },
            pio0_24: Pin { ty: PIO0_24(()), _state: state::Unused::new() },
            pio0_25: Pin { ty: PIO0_25(()), _state: state::Unused::new() },
            pio0_26: Pin { ty: PIO0_26(()), _state: state::Unused::new() },
            pio0_27: Pin { ty: PIO0_27(()), _state: state::Unused::new() },
            pio0_28: Pin { ty: PIO0_28(()), _state: state::Unused::new() },
        }
    }
}

/// A token that proves that a pin may be used for GPIO
///
/// `State` tracks whether the GPIO peripheral is enabled.
pub struct Token<T, State> {
    _pin: PhantomData<T>,
    _state: PhantomData<State>,
}

impl<T, State> Token<T, State> {
    /// Create a token
    pub(crate) fn new() -> Self {
        Token { _pin: PhantomData, _state: PhantomData }
    }
}

/// Provides access to the GPIO tokens of all pins
#[allow(missing_docs)]
pub struct Tokens<State> {
    pub pio0_0: Token<PIO0_0, State>,
    pub pio0_1: Token<PIO0_1, State>,
    pub pio0_2: Token<PIO0_2, State>,
    pub pio0_3: Token<PIO0_3, State>,
    pub pio0_4: Token<PIO0_4, State>,
    pub pio0_5: Token<PIO0_5, State>,
    pub pio0_6: Token<PIO0_6, State>,
    pub pio0_7: Token<PIO0_7, State>,
    pub pio0_8: Token<PIO0_8, State>,
    pub pio0_9: Token<PIO0_9, State>,
    pub pio0_10: Token<PIO0_10, State>,
    pub pio0_11: Token<PIO0_11, State>,
    pub pio0_12: Token<PIO0_12, State>,
    pub pio0_13: Token<PIO0_13, State>,
    pub pio0_14: Token<PIO0_14, State>,
    pub pio0_15: Token<PIO0_15, State>,
    pub pio0_16: Token<PIO0_16, State>,
    pub pio0_17: Token<PIO0_17, State>,
    pub pio0_18: Token<PIO0_18, State>,
    pub pio0_19: Token<PIO0_19, State>,
    pub pio0_20: Token<PIO0_20, State>,
    pub pio0_21: Token<PIO0_21, State>,
    pub pio0_22: Token<PIO0_22, State>,
    pub pio0_23: Token<PIO0_23, State>,
    pub pio0_24: Token<PIO0_24, State>,
    pub pio0_25: Token<PIO0_25, State>,
    pub pio0_26: Token<PIO0_26, State>,
    pub pio0_27: Token<PIO0_27, State>,
    pub pio0_28: Token<PIO0_28, State>,
}

impl<State> Tokens<State> {
    /// Create the tokens
    pub(crate) fn new() -> Self {
        Tokens {
            pio0_0: Token::new(),
            pio0_1: Token::new(),
            pio0_2: Token::new(),
            pio0_3: Token::new(),
            pio0_4: Token::new(),
            pio0_5: Token::new(),
            pio0_6: Token::new(),
            pio0_7: Token::new(),
            pio0_8: Token::new(),
            pio0_9: Token::new(),
            pio0_10: Token::new(),
            pio0_11: Token::new(),
            pio0_12: Token::new(),
            pio0_13: Token::new(),
            pio0_14: Token::new(),
            pio0_15: Token::new(),
            pio0_16: Token::new(),
            pio0_17: Token::new(),
            pio0_18: Token::new(),
            pio0_19: Token::new(),
            pio0_20: Token::new(),
            pio0_21: Token::new(),
            pio0_22: Token::new(),
            pio0_23: Token::new(),
            pio0_24: Token::new(),
            pio0_25: Token::new(),
            pio0_26: Token::new(),
            pio0_27: Token::new(),
            pio0_28: Token::new(),
        }
    }
}

} // verus!
