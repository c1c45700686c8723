//! The widgets a panel is made of, and the interface through which they take
//! input from the hardware buttons and rotary encoders.

pub mod button;
pub mod knob;
pub mod textbox;

use vstd::prelude::*;

pub use crate::geometry::{Point, Size};

verus! {

/// A reading of a hardware input: a button state or an encoder position.
#[derive(Clone, Copy, Debug, PartialEq, Eq, Structural)]
pub enum Value {
    Bool(bool),
    Int(i32),
}

/// The number identifying a hardware input.
pub type InputId = u32;

/// Something that reacts to the hardware inputs.
///
/// A widget's reaction may need its owner to run a handler (for example to
/// change a synth parameter); `input_update` then returns what the owner has
/// to run, as a `Request`.
pub trait InputConsumer: Sized {
    type Request;

    /// The state of the consumer that its reaction to input depends on.
    type Model;

    spec fn model(&self) -> Self::Model;

    /// Whether `input_update` can take this input without an arithmetic
    /// overflow.
    spec fn accepts(m: Self::Model, input_id: InputId, value: Value) -> bool;

    /// The state after `input_reset`.
    spec fn after_reset(m: Self::Model) -> Self::Model;

    /// The state after `input_update`.
    spec fn after_update(m: Self::Model, input_id: InputId, value: Value) -> Self::Model;

    /// Whether `r` is what `input_update` asks its owner to run.
    spec fn is_request(m: Self::Model, input_id: InputId, value: Value, r: Self::Request) -> bool;

    /// Forgets the previous readings, as when the panel comes on screen.
    fn input_reset(&mut self)
        ensures
            final(self).model() == Self::after_reset(old(self).model()),
    ;

    /// Takes a new reading of input `input_id`.
    fn input_update(&mut self, input_id: InputId, value: Value) -> (r: Self::Request)
        requires
            Self::accepts(old(self).model(), input_id, value),
        ensures
            final(self).model() == Self::after_update(old(self).model(), input_id, value),
            Self::is_request(old(self).model(), input_id, value, r),
    ;
}

} // verus!
