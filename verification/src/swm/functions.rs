use core::marker::PhantomData;

use vstd::prelude::*;

use crate::{pac, pins::{self, HasPin, Pin}};

use super::{
    assignment::{AssignFunction, UnassignFunction},
    function_kind::FunctionKind,
    handle::Handle,
    state::{Assigned, State, Unassigned},
};

verus! {

/// A fixed or movable function that can be assigned to a pin
///
/// The type parameter `T` identifies the fixed or movable function that an
/// instance of `Function` controls. The other type paramter, `State`, tracks
/// whether this function is assigned to a pin, and which pin it is assigned to.
pub struct Function<T, S> {
    /// Identifies the function
    pub ty: T,
    /// The function's state
    pub _state: S,
}

impl<T, S> Function<T, S> where S: State {
    /// Create the function in state `S`
    pub(crate) fn new(ty: T) -> (function: Self)
        ensures
            function.ty == ty,
    {
        Self { ty, _state: S::new() }
    }
}

impl<T> Function<T, Unassigned> {
    /// Assign this function to a pin
    ///
    /// This method is only available if a number of requirements are met:
    /// - `Function` must be in the [`Unassigned`] state, as a function can only
    ///   be assigned to one pin.
    /// - The [`Pin`] must be in the SWM state ([`pins::state::Swm`]). See
    ///   documentation on [`Pin`] for information on pin state management.
    /// - The function must be assignable to the pin. Movable functions can be
    ///   assigned to any pin, but fixed functions can be assigned to only one
    ///   pin.
    /// - The state of the pin must allow another function of this type to be
    ///   assigned. Input functions can always be assigned, but only one output
    ///   or bidirectional function can be assigned to a given pin at any time.
    ///
    /// Code attempting to call this method while these requirement are not met,
    /// will not compile.
    ///
    /// Consumes this instance of `Function`, as well as the provided [`Pin`],
    /// and returns new instances. The returned `Function` instance will have its
    /// state set to indicate that it has been assigned to the pin. The returned
    /// [`Pin`] will have its state updated to indicate that a function of this
    /// `Function`'s type has been assigned.
    ///
    /// [`Unassigned`]: state/struct.Unassigned.html
    pub fn assign<P, S>(self, pin: Pin<P, S>, swm: &mut Handle) -> (result: (
        Function<T, Assigned<P>>,
        <Pin<P, S> as AssignFunction<T, T::Kind>>::Assigned,
    )) where
        T: FunctionTrait<P>,
        P: pins::Trait,
        S: pins::State,
        Pin<P, S>: AssignFunction<T, T::Kind>,

        ensures
            self.ty.assigned(pin.ty, old(swm).swm, final(swm).swm),
            result.0.ty == self.ty,
            result.1.pin_id() == pin.pin_id(),
    {
        let mut ty = self.ty;
        let mut pin = pin;
        ty.assign(&mut pin.ty, swm);

        let function = Function { ty, _state: Assigned(PhantomData) };

        (function, pin.assign())
    }
}

impl<T, P> Function<T, Assigned<P>> {
    /// Unassign this function from a pin
    ///
    /// This method is only available if a number of requirements are met:
    /// - The function must be assigned to the provided pin. This means
    ///   `Function` must be in the [`Assigned`] state, and the type parameter
    ///   of [`Assigned`] must indicate that the function is assigned to the
    ///   same pin that is provided as an argument.
    /// - The [`Pin`] must be in the SWM state ([`pins::state::Swm`]), and the
    ///   state must indicate that a function of this `Function`'s type is
    ///   currently assigned.
    ///
    /// Code attempting to call this method while these requirement are not met,
    /// will not compile.
    ///
    /// [`Assigned`]: state/struct.Assigned.html
    pub fn unassign<S>(self, pin: Pin<P, S>, swm: &mut Handle) -> (result: (
        Function<T, Unassigned>,
        <Pin<P, S> as UnassignFunction<T, T::Kind>>::Unassigned,
    )) where
        T: FunctionTrait<P>,
        P: pins::Trait,
        S: pins::State,
        Pin<P, S>: UnassignFunction<T, T::Kind>,

        ensures
            self.ty.unassigned(pin.ty, old(swm).swm, final(swm).swm),
            result.0.ty == self.ty,
            result.1.pin_id() == pin.pin_id(),
    {
        let mut ty = self.ty;
        let mut pin = pin;
        ty.unassign(&mut pin.ty, swm);

        let function = Function { ty, _state: Unassigned };

        (function, pin.unassign())
    }
}

/// Assigning a function to a pin with [`Function::assign`] and unassigning it
/// with [`Function::unassign`] from the pin that the first call returned
/// leaves the switch matrix as if the function had only been unassigned
///
/// For a movable function, its PINASSIGN field holds 0xff afterwards; for a
/// fixed function, its PINENABLE0 bit is set. Every other register bit is as
/// it was before the assignment. `before`, `mid` and `after` are the switch
/// matrix registers before the assignment, between the calls and after the
/// unassignment; `assigned_pin` is the pin that `assign` returned, which is
/// `pin` in the state that records the assignment.
pub proof fn lemma_function_assign_then_unassign<T, P, S, S2>(
    function: Function<T, Unassigned>,
    pin: Pin<P, S>,
    assigned_pin: Pin<P, S2>,
    before: pac::SWM0,
    mid: pac::SWM0,
    after: pac::SWM0,
)
    where
        T: FunctionTrait<P>,
        P: pins::Trait,
        S: pins::State,
        S2: pins::State,

    requires
        function.ty.assigned(pin.ty, before, mid),
        assigned_pin.ty == pin.ty,
        function.ty.unassigned(assigned_pin.ty, mid, after),
    ensures
        function.ty.unassigned(pin.ty, before, after),
{
    function.ty.lemma_assign_then_unassign(pin.ty, before, mid, after);
}

/// Implemented for all fixed and movable functions
///
/// This trait is an internal implementation detail and should neither be
/// implemented nor used outside of this crate.
///
/// Please refer [`Function::assign`] and [`Function::unassign`] for the public
/// API that uses this trait.
pub trait FunctionTrait<P: pins::Trait>: Sized {
    /// Whether this is an input or output function
    ///
    /// There are also bidirectional functions, but for our purposes, they are
    /// treated as output functions.
    type Kind: FunctionKind;

    /// The switch matrix registers `after` result from `before` by assigning
    /// this function to `pin`
    spec fn assigned(self, pin: P, before: pac::SWM0, after: pac::SWM0) -> bool;

    /// The switch matrix registers `after` result from `before` by
    /// unassigning this function from `pin`
    spec fn unassigned(self, pin: P, before: pac::SWM0, after: pac::SWM0) -> bool;

    /// Unassigning this function after assigning it to `pin` leaves the
    /// switch matrix as if it had only been unassigned: its PINASSIGN field
    /// holds 0xff (a movable function) or its PINENABLE0 bit is set (a fixed
    /// function), and every other register bit is as it was before the
    /// assignment
    proof fn lemma_assign_then_unassign(self, pin: P, before: pac::SWM0, mid: pac::SWM0, after: pac::SWM0)
        requires
            self.assigned(pin, before, mid),
            self.unassigned(pin, mid, after),
        ensures
            self.unassigned(pin, before, after),
    ;

    /// Internal method to assign a function to a pin
    fn assign(&mut self, pin: &mut P, swm: &mut Handle)
        ensures
            old(self).assigned(*old(pin), old(swm).swm, final(swm).swm),
            *final(self) == *old(self),
            *final(pin) == *old(pin),
    ;

    /// Internal method to unassign a function from a pin
    fn unassign(&mut self, pin: &mut P, swm: &mut Handle)
        ensures
            old(self).unassigned(*old(pin), old(swm).swm, final(swm).swm),
            *final(self) == *old(self),
            *final(pin) == *old(pin),
    ;
}

} // verus!
