use vstd::prelude::*;

verus! {

/// Implemented by types that identify pins
///
/// This trait is an internal implementation detail and should neither be
/// implemented nor used outside of this crate.
///
/// Please refer to [`Pin`] for the public API used to control pins.
///
/// [`Pin`]: struct.Pin.html
pub trait Trait {
    /// The port that the pin belongs to
    spec fn spec_port(&self) -> usize;

    /// The pin's number within its port
    spec fn spec_id(&self) -> u8;

    /// Get the number that indentifies the port
    ///
    /// This is `0` for PIO0 pins (e.g. [`PIO0_0`]).
    ///
    /// [`PIO0_0`]: struct.PIO0_0.html
    fn port(&self) -> (port: usize)
        ensures
            port == self.spec_port(),
            port < 2,
    ;

    /// A number that identifies the pin
    ///
    /// This is `0` for [`PIO0_0`], `1` for [`PIO0_1`] and so forth.
    ///
    /// [`PIO0_0`]: struct.PIO0_0.html
    /// [`PIO0_1`]: struct.PIO0_1.html
    fn id(&self) -> (id: u8)
        ensures
            id == self.spec_id(),
            id < 32,
    ;

    /// The pin's bit mask
    ///
    /// This is `0x00000001` for [`PIO0_0`], `0x00000002` for [`PIO0_1`],
    /// `0x00000004` for [`PIO0_2`], and so forth.
    ///
    /// [`PIO0_0`]: struct.PIO0_0.html
    /// [`PIO0_1`]: struct.PIO0_1.html
    /// [`PIO0_2`]: struct.PIO0_2.html
    fn mask(&self) -> (mask: u32)
        ensures
            mask == 1u32 << self.spec_id(),
    ;
}

} // verus!
