//! Sealing of the SPI traits

use vstd::prelude::*;

verus! {

/// Prevents the SPI traits from being implemented outside this crate
pub trait Sealed {}

} // verus!
