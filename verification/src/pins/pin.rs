use vstd::prelude::*;

use crate::{
    gpio::{direction, with_direction, with_level, write_direction, write_level, GpioPin, Level},
    init_state, pac,
};

use super::{gen::Token, state, traits::Trait};

verus! {

/// Main API for controlling pins
///
/// `Pin` has two type parameters:
/// - `T`, to indicate which specific pin this instance of `Pin` represents
///   ([`PIO0_0`], [`PIO0_1`], and so on).
/// - `S`, to indicate which state the represented pin is currently in.
///
/// A pin instance can be in one of the following states:
/// - [`state::Unused`], to indicate that the pin is currently not used.
/// - [`state::Swm`], to indicate that the pin is available for switch
///   matrix function assignment.
/// - [`state::Analog`], to indicate that the pin is being used for analog
///   input.
///
/// A pin that is in the GPIO state is represented by its own struct,
/// [`GpioPin`].
///
/// # State Management
///
/// All pins start out in their initial state, as defined in the user manual. To
/// prevent the user from making a mistake, only the methods that induce a valid
/// state transition are available. Code that tries to call a method that would
/// cause an invalid state transition will simply not compile.
///
/// Functions can be input or output functions. Any number of input functions
/// can be assigned to a pin at the same time, but at most one output function
/// can be assigned to a pin at once (see user manual, section 7.4). These rules
/// are enforced by the API at compile time.
///
/// [`PIO0_0`]: struct.PIO0_0.html
/// [`PIO0_1`]: struct.PIO0_1.html
/// [`state::Unused`]: state/struct.Unused.html
/// [`state::Swm`]: state/struct.Swm.html
/// [`state::Analog`]: state/struct.Analog.html
/// [`GpioPin`]: ../gpio/struct.GpioPin.html
pub struct Pin<T: Trait, S: state::State> {
    /// Identifies the pin
    pub ty: T,
    /// The pin's state
    pub _state: S,
}

/// Implemented by values that stand for a pin, whatever state they record
pub trait HasPin {
    /// The type that identifies the pin
    type Id;

    /// The pin's identity
    spec fn pin_id(&self) -> Self::Id;
}

impl<T: Trait, S: state::State> HasPin for Pin<T, S> {
    type Id = T;

    open spec fn pin_id(&self) -> T {
        self.ty
    }
}

/// Marks the current directin of a Dynamic Pin.
#[derive(PartialEq, Eq, Structural, Copy, Clone, Debug)]
pub enum DynamicPinDirection {
    /// Pin is currently Input
    Input,
    /// Pin is currently Output
    Output,
}

impl<T> Pin<T, state::Unused> where T: Trait {
    /// Transition pin to GPIO input mode
    ///
    /// This method is only available while the pin is in the unused state.
    ///
    /// Consumes this `Pin` instance and returns an instance of [`GpioPin`],
    /// which provides access to all GPIO functions. Clears the pin's bit in
    /// its port's DIR register, making it an input.
    ///
    /// This method requires a GPIO token from the [`GPIO`] struct, to ensure
    /// that the GPIO peripheral is enabled, and stays enabled while the pin is
    /// in the GPIO mode.
    ///
    /// [`GpioPin`]: ../gpio/struct.GpioPin.html
    /// [`GPIO`]: ../gpio/struct.GPIO.html
    pub fn into_input_pin(self, token: Token<T, init_state::Enabled>, gpio: &mut pac::GPIO) -> (pin: GpioPin<
        T,
        direction::Input,
    >)
        ensures
            pin.token == token,
            final(gpio).dir@ == old(gpio).dir@.update(
                self.ty.spec_port() as int,
                with_direction(old(gpio).dir[self.ty.spec_port() as int], 1u32 << self.ty.spec_id(), false),
            ),
            final(gpio).set == old(gpio).set,
    {
        let port = self.ty.port();
        let mask = self.ty.mask();
        write_direction(gpio, port, mask, false);
        GpioPin::new(token, direction::Input)
    }

    /// Transition pin to GPIO output mode
    ///
    /// This method is only available while the pin is in the unused state.
    ///
    /// Consumes this `Pin` instance and returns an instance of [`GpioPin`].
    /// Sets the pin's output bit to the `initial` level first, then sets its
    /// bit in the port's DIR register, so the pin drives `initial` from the
    /// moment it becomes an output.
    ///
    /// [`GpioPin`]: ../gpio/struct.GpioPin.html
    pub fn into_output_pin(self, token: Token<T, init_state::Enabled>, initial: Level, gpio: &mut pac::GPIO) -> (pin:
        GpioPin<T, direction::Output>)
        ensures
            pin.token == token,
            pin.direction.level == initial,
            final(gpio).set@ == old(gpio).set@.update(
                self.ty.spec_port() as int,
                with_level(old(gpio).set[self.ty.spec_port() as int], 1u32 << self.ty.spec_id(), initial),
            ),
            final(gpio).dir@ == old(gpio).dir@.update(
                self.ty.spec_port() as int,
                with_direction(old(gpio).dir[self.ty.spec_port() as int], 1u32 << self.ty.spec_id(), true),
            ),
    {
        let port = self.ty.port();
        let mask = self.ty.mask();
        write_level(gpio, port, mask, initial);
        write_direction(gpio, port, mask, true);
        GpioPin::new(token, direction::Output { level: initial })
    }

    /// Transition pin to Dynamic mode, i.e. GPIO direction switchable at runtime
    ///
    /// This method is only available while the pin is in the unused state.
    ///
    /// Consumes this `Pin` instance and returns an instance of [`GpioPin`],
    /// whose direction can be switched at runtime. As an output, the pin's
    /// output bit is set to `level` first, then its DIR bit is set; as an
    /// input, its DIR bit is cleared and the output bit is left alone.
    ///
    /// [`GpioPin`]: ../gpio/struct.GpioPin.html
    pub fn into_dynamic_pin(
        self,
        token: Token<T, init_state::Enabled>,
        level: Level,
        direction: DynamicPinDirection,
        gpio: &mut pac::GPIO,
    ) -> (pin: GpioPin<T, direction::Dynamic>)
        ensures
            pin.token == token,
            pin.direction.level == level,
            pin.direction.direction == direction,
            final(gpio).set@ == if direction == DynamicPinDirection::Output {
                old(gpio).set@.update(
                    self.ty.spec_port() as int,
                    with_level(old(gpio).set[self.ty.spec_port() as int], 1u32 << self.ty.spec_id(), level),
                )
            } else {
                old(gpio).set@
            },
            final(gpio).dir@ == old(gpio).dir@.update(
                self.ty.spec_port() as int,
                with_direction(
                    old(gpio).dir[self.ty.spec_port() as int],
                    1u32 << self.ty.spec_id(),
                    direction == DynamicPinDirection::Output,
                ),
            ),
    {
        let port = self.ty.port();
        let mask = self.ty.mask();
        match direction {
            DynamicPinDirection::Output => {
                write_level(gpio, port, mask, level);
                write_direction(gpio, port, mask, true);
            },
            DynamicPinDirection::Input => {
                write_direction(gpio, port, mask, false);
            },
        }
        GpioPin::new(token, direction::Dynamic { level, direction })
    }

    /// Transition pin to SWM mode
    ///
    /// This method is only available while the pin is in the unused state.
    ///
    /// Consumes this pin instance and returns a new instance that is in the SWM
    /// state, making this pin available for switch matrix function assignment.
    pub fn into_swm_pin(self) -> (pin: Pin<T, state::Swm<(), ()>>)
        ensures
            pin.ty == self.ty,
    {
        Pin { ty: self.ty, _state: state::Swm::new() }
    }
}

impl<T> Pin<T, state::Swm<(), ()>> where T: Trait {
    /// Transitions this pin from the SWM state to the unused state
    ///
    /// This method is only available, if two conditions are met:
    /// - The pin is in the SWM state.
    /// - No functions are assigned to this pin.
    ///
    /// Unless both of these conditions are met, code trying to call this method
    /// will not compile.
    pub fn into_unused_pin(self) -> (pin: Pin<T, state::Unused>)
        ensures
            pin.ty == self.ty,
    {
        Pin { ty: self.ty, _state: state::Unused }
    }
}

} // verus!
