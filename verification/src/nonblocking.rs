//! Results of operations that may have to wait for the hardware
//!
//! An operation that cannot complete yet returns [`Error::WouldBlock`]; the
//! caller retries it later. This mirrors the convention of the `nb` crate.

use vstd::prelude::*;

verus! {

/// The error of an operation that may have to wait
#[derive(PartialEq, Eq, Structural, Clone, Copy, Debug)]
pub enum Error<E> {
    /// The operation failed with the given error
    Other(E),
    /// The operation cannot complete yet; retry it later
    WouldBlock,
}

/// The operation cannot complete yet; retry it later
///
/// Used by operations that cannot fail otherwise.
#[derive(PartialEq, Eq, Structural, Clone, Copy, Debug)]
pub struct WouldBlock;

} // verus!
