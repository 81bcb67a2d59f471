use core::marker::PhantomData;

use vstd::prelude::*;

use crate::{init_state, pac};

use super::{fixed_functions::FixedFunctions, handle::Handle, movable_functions::MovableFunctions};

verus! {

/// Entry point to the switch matrix (SWM) API
///
/// The SWM API is split into multiple parts, which are all available through
/// [`swm::Parts`]. You can use [`SWM::split`] to gain access to [`swm::Parts`].
///
/// You can also use this struct to gain access to the raw peripheral using
/// [`SWM::free`]. This is the main reason this struct exists, as it's no longer
/// possible to do this after the API has been split.
///
/// [`swm::Parts`]: struct.Parts.html
pub struct SWM<State = init_state::Enabled> {
    /// The raw peripheral
    pub swm: pac::SWM0,
    /// Whether the switch matrix is enabled
    pub state: PhantomData<State>,
}

impl<STATE> SWM<STATE> {
    /// Wrap the raw peripheral
    pub fn new(swm: pac::SWM0) -> (s: Self)
        ensures
            s.swm == swm,
    {
        SWM { swm, state: PhantomData }
    }

    /// Splits the SWM API into its component parts
    ///
    /// This is the regular way to access the SWM API. It exists as an explicit
    /// step, as it's no longer possible to gain access to the raw peripheral
    /// using [`SWM::free`] after you've called this method.
    pub fn split(self) -> (parts: Parts<STATE>)
        ensures
            parts.handle.swm == self.swm,
    {
        Parts {
            handle: Handle::new(self.swm),
            movable_functions: MovableFunctions::new(),
            fixed_functions: FixedFunctions::new(),
        }
    }

    /// Return the raw peripheral
    ///
    /// This method serves as an escape hatch from the HAL API. It returns the
    /// raw peripheral, allowing you to do whatever you want with it, without
    /// limitations imposed by the API.
    pub fn free(self) -> (swm: pac::SWM0)
        ensures
            swm == self.swm,
    {
        self.swm
    }
}

/// The main API for the switch matrix (SWM)
///
/// Provides access to all types that make up the SWM API. You gain access to
/// this struct by calling [`SWM::split`].
pub struct Parts<STATE> {
    /// Handle to the switch matrix
    pub handle: Handle<STATE>,
    /// Movable functions
    pub movable_functions: MovableFunctions,
    /// Fixed functions
    pub fixed_functions: FixedFunctions,
}

} // verus!
