//! Type state for the USART peripheral

use core::marker::PhantomData;

use vstd::prelude::*;

verus! {

/// Indicates that the USART peripheral is enabled
///
/// Used as a type parameter on [`USART`], [`Rx`], and [`Tx`].
///
/// [`USART`]: ../struct.USART.html
/// [`Rx`]: ../struct.Rx.html
/// [`Tx`]: ../struct.Tx.html
pub struct Enabled<W: Word, Mode>(pub PhantomData<W>, pub PhantomData<Mode>);

/// Implemented for types that represent a supported word size
///
/// The USART peripheral supports word sizes of 7 bits, 8 bits (both represented
/// by `u8`), and 9 bits (represented by `u16`).
pub trait Word: Sized {
    /// The word that a received data value stands for
    spec fn spec_from_u16(w: u16) -> Self;

    /// The data value that a word is sent as
    spec fn spec_to_u16(self) -> u16;

    /// Converts a `u16` to `Self`
    ///
    /// Intended for internal use only.
    fn from_u16(w: u16) -> (r: Self)
        ensures
            r == Self::spec_from_u16(w),
    ;

    /// Converts `Self` to the `u16` that is written to the data register
    fn to_u16(self) -> (r: u16)
        ensures
            r == self.spec_to_u16(),
    ;
}

impl Word for u8 {
    open spec fn spec_from_u16(w: u16) -> u8 {
        (w % 0x100) as u8
    }

    open spec fn spec_to_u16(self) -> u16 {
        self as u16
    }

    fn from_u16(w: u16) -> (r: u8) {
        proof {
            assert((w as u8) == w % 0x100) by (bit_vector);
        }
        w as u8
    }

    fn to_u16(self) -> (r: u16) {
        self as u16
    }
}

impl Word for u16 {
    open spec fn spec_from_u16(w: u16) -> u16 {
        w
    }

    open spec fn spec_to_u16(self) -> u16 {
        self
    }

    fn from_u16(w: u16) -> (r: u16) {
        w
    }

    fn to_u16(self) -> (r: u16) {
        self
    }
}

/// Indicates that a USART instance is operating in asynchronous mode
///
/// Used as a type parameter on [`Enabled`].
pub struct AsyncMode;

/// Indicates that a USART instance is operating in synchronous mode
///
/// Used as a type parameter on [`Enabled`].
pub struct SyncMode;

/// Indicates that transmitter is not throttled
///
/// Used as a type parameter on [`Tx`].
///
/// [`Tx`]: ../struct.Tx.html
pub struct NoThrottle;

/// Indicates that the transmitter is throttled via the CTS signal
///
/// Used as a type parameter on [`Tx`].
///
/// [`Tx`]: ../struct.Tx.html
pub struct CtsThrottle<F>(pub F);

} // verus!
