use vstd::prelude::*;

verus! {

/// Clock polarity
#[derive(PartialEq, Eq, Structural, Clone, Copy)]
pub enum Polarity {
    /// Clock signal low when idle
    IdleLow,
    /// Clock signal high when idle
    IdleHigh,
}

/// Clock phase
#[derive(PartialEq, Eq, Structural, Clone, Copy)]
pub enum Phase {
    /// Data in "captured" on the first clock transition
    CaptureOnFirstTransition,
    /// Data in "captured" on the second clock transition
    CaptureOnSecondTransition,
}

/// SPI mode
#[derive(PartialEq, Eq, Structural, Clone, Copy)]
pub struct Mode {
    /// Clock polarity
    pub polarity: Polarity,
    /// Clock phase
    pub phase: Phase,
}

} // verus!
