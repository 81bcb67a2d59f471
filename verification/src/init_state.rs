//! Types that mark whether a peripheral or clock is enabled

use vstd::prelude::*;

verus! {

/// Marks a peripheral or clock as enabled
///
/// The field carries the mode a peripheral was enabled in, where there is one.
pub struct Enabled<T = ()>(pub T);

/// Marks a peripheral or clock as disabled
pub struct Disabled;

} // verus!
