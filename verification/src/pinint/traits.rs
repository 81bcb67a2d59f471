use vstd::prelude::*;
use vstd::arithmetic::power2::pow2;

verus! {

/// Implemented by types that identify pin interrupts
///
/// This trait is an internal implementation detail and should neither be
/// implemented nor used outside of this crate.
pub trait Trait {
    /// The index of this interrupt
    ///
    /// Used to select the PINTSEL register for this interupt.
    spec fn index() -> usize;

    /// The interrupt's bit mask
    ///
    /// Used in various registers.
    spec fn mask() -> u8;

    /// The index of this interrupt
    fn index_value() -> (index: usize)
        ensures
            index == Self::index(),
            index < 8,
    ;

    /// The interrupt's bit mask
    ///
    /// Pin interrupt `n` owns bit `n` of the PINT registers.
    fn mask_value() -> (mask: u8)
        ensures
            mask == Self::mask(),
            mask as nat == pow2(Self::index() as nat),
    ;
}

} // verus!
