//! Clock selection on the LPC82x

use vstd::prelude::*;

use super::CTRL_CLKSEL;

verus! {

/// Selects the divided IRC clock as the WKT's internal clock (CLKSEL
/// cleared), given the CTRL value
pub fn select_internal_oscillator(w: u32) -> (r: u32)
    ensures
        r == w & !CTRL_CLKSEL,
{
    w & !CTRL_CLKSEL
}

} // verus!
