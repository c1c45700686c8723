//! A button that shows the state of its hardware button.

use vstd::prelude::*;

use super::framework::{InputConsumer, InputId, Point, Value};

verus! {

/// A button widget without a handler: it is drawn pressed while its
/// hardware button is held.
#[derive(Clone, Copy, Debug)]
pub struct Button {
    pub pos: Point,
    pub caption: &'static str,
    pub input_id: InputId,
    pub pressed: bool,
    pub dirty: bool,
}

impl Button {
    pub fn new(pos: Point, caption: &'static str, input_id: InputId) -> (b: Button)
        ensures
            b == (Button { pos, caption, input_id, pressed: false, dirty: true }),
    {
        Button { pos, caption, input_id, pressed: false, dirty: true }
    }

    pub fn is_dirty(&self) -> (r: bool)
        ensures
            r == self.dirty,
    {
        self.dirty
    }

    /// The button has been drawn.
    pub fn rendered(&mut self)
        ensures
            *final(self) == (Button { dirty: false, ..*old(self) }),
    {
        self.dirty = false;
    }
}

impl InputConsumer for Button {
    type Request = ();

    type Model = Button;

    open spec fn model(&self) -> Button {
        *self
    }

    open spec fn accepts(m: Button, input_id: InputId, value: Value) -> bool {
        true
    }

    /// The button is drawn again when its panel comes on screen.
    open spec fn after_reset(m: Button) -> Button {
        Button { dirty: true, ..m }
    }

    /// A reading of this button's input that differs from its state becomes
    /// its state.
    open spec fn after_update(m: Button, input_id: InputId, value: Value) -> Button {
        match value {
            Value::Bool(pressed) => if input_id == m.input_id && pressed != m.pressed {
                Button { pressed, dirty: true, ..m }
            } else {
                m
            },
            Value::Int(_) => m,
        }
    }

    open spec fn is_request(m: Button, input_id: InputId, value: Value, r: ()) -> bool {
        true
    }

    fn input_reset(&mut self) {
        self.dirty = true;
    }

    fn input_update(&mut self, input_id: InputId, value: Value) {
        if let Value::Bool(pressed) = value {
            if input_id == self.input_id && pressed != self.pressed {
                self.pressed = pressed;
                self.dirty = true;
            }
        }
    }
}

} // verus!
