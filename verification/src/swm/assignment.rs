use vstd::prelude::*;

use crate::pins::{self, HasPin, Pin};

use super::{function_kind::{Analog, Input, Output}, FunctionTrait};

verus! {

/// Internal trait used to assign functions to pins
///
/// This trait is an internal implementation detail and should neither be
/// implemented nor used outside of this crate.
///
/// Please refer to [`Function::assign`] for the public API that uses this
/// trait.
///
/// [`Function::assign`]: struct.Function.html#method.assign
pub trait AssignFunction<Function, Kind>: HasPin {
    /// The type of the pin after the function has been assigned
    type Assigned: HasPin<Id = Self::Id>;

    /// Internal method for assigning a function to a pin
    ///
    /// The result is the same pin, in the state that records the assignment.
    fn assign(self) -> (assigned: Self::Assigned)
        ensures
            assigned.pin_id() == self.pin_id(),
    ;
}

/// Internal trait used to unassign functions from pins
///
/// This trait is an internal implementation detail and should neither be
/// implemented nor used outside of this crate.
///
/// Please refer to [`Function::unassign`] for the public API that uses this
/// trait.
///
/// [`Function::unassign`]: struct.Function.html#method.unassign
pub trait UnassignFunction<Function, Kind>: HasPin {
    /// The type of the pin after the function has been unassigned
    type Unassigned: HasPin<Id = Self::Id>;

    /// Internal method for unassigning a function from a pin
    ///
    /// The result is the same pin, in the state that records the
    /// unassignment.
    fn unassign(self) -> (unassigned: Self::Unassigned)
        ensures
            unassigned.pin_id() == self.pin_id(),
    ;
}

impl<T, F, O, Is> AssignFunction<F, Input> for Pin<T, pins::state::Swm<O, Is>> where
    T: pins::Trait,
    F: FunctionTrait<T, Kind = Input>,
 {
    type Assigned = Pin<T, pins::state::Swm<O, (Is,)>>;

    fn assign(self) -> (pin: Pin<T, pins::state::Swm<O, (Is,)>>) {
        Pin { ty: self.ty, _state: pins::state::Swm::new() }
    }
}

impl<T, F, Is> AssignFunction<F, Output> for Pin<T, pins::state::Swm<(), Is>> where
    T: pins::Trait,
    F: FunctionTrait<T, Kind = Output>,
 {
    type Assigned = Pin<T, pins::state::Swm<((),), Is>>;

    fn assign(self) -> (pin: Pin<T, pins::state::Swm<((),), Is>>) {
        Pin { ty: self.ty, _state: pins::state::Swm::new() }
    }
}

impl<T, F, O, Is> UnassignFunction<F, Input> for Pin<T, pins::state::Swm<O, (Is,)>> where
    T: pins::Trait,
    F: FunctionTrait<T, Kind = Input>,
 {
    type Unassigned = Pin<T, pins::state::Swm<O, Is>>;

    fn unassign(self) -> (pin: Pin<T, pins::state::Swm<O, Is>>) {
        Pin { ty: self.ty, _state: pins::state::Swm::new() }
    }
}

impl<T, F, Is> UnassignFunction<F, Output> for Pin<T, pins::state::Swm<((),), Is>> where
    T: pins::Trait,
    F: FunctionTrait<T, Kind = Output>,
 {
    type Unassigned = Pin<T, pins::state::Swm<(), Is>>;

    fn unassign(self) -> (pin: Pin<T, pins::state::Swm<(), Is>>) {
        Pin { ty: self.ty, _state: pins::state::Swm::new() }
    }
}

impl<T, F> AssignFunction<F, Analog> for Pin<T, pins::state::Swm<(), ()>> where
    T: pins::Trait,
    F: FunctionTrait<T, Kind = Analog>,
 {
    type Assigned = Pin<T, pins::state::Analog>;

    fn assign(self) -> (pin: Pin<T, pins::state::Analog>) {
        Pin { ty: self.ty, _state: pins::state::Analog }
    }
}

} // verus!
