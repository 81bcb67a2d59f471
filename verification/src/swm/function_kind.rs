use vstd::prelude::*;

verus! {

/// Implemented for types that designate whether a function is input or output
///
/// This trait is an internal implementation detail and should neither be
/// implemented nor used outside of this crate.
pub trait FunctionKind {}

/// Designates an SWM function as an input function
pub struct Input;

impl FunctionKind for Input {}

/// Designates an SWM function as an output function
pub struct Output;

impl FunctionKind for Output {}

/// Designates an SWM function as an analog function
pub struct Analog;

impl FunctionKind for Analog {}

} // verus!
