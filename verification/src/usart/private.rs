//! Sealing of the USART traits

use vstd::prelude::*;

verus! {

/// Prevents the USART traits from being implemented outside this crate
pub trait Sealed {}

} // verus!
