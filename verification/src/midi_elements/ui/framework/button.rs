//! A button that follows its hardware button through a handler: the handler
//! decides whether the button takes the new state.

use vstd::prelude::*;

use super::{InputConsumer, InputId, Point, Value};

verus! {

/// A button widget with a handler. When `input_update` returns
/// `Some(pressed)`, the owner calls the handler with `pressed` and passes its
/// answer to `handler_returned`.
#[derive(Clone, Copy, Debug)]
pub struct Button {
    pub pos: Point,
    pub caption: &'static str,
    pub input_id: InputId,
    pub pressed: bool,
    pub dirty: bool,
}

impl Button {
    pub fn new(pos: Point, caption: &'static str, input_id: InputId) -> (b: Button)
        ensures
            b == (Button { pos, caption, input_id, pressed: false, dirty: true }),
    {
        Button { pos, caption, input_id, pressed: false, dirty: true }
    }

    /// A reading of this button's input that differs from its state goes to
    /// the handler.
    pub open spec fn request_for(&self, input_id: InputId, value: Value) -> Option<bool> {
        match value {
            Value::Bool(pressed) => if input_id == self.input_id && pressed != self.pressed {
                Some(pressed)
            } else {
                None
            },
            Value::Int(_) => None,
        }
    }

    /// The handler was called with `pressed` and answered `accepted`: an
    /// accepted state becomes the button's, to be drawn again.
    pub fn handler_returned(&mut self, pressed: bool, accepted: bool)
        ensures
            *final(self) == if accepted {
                Button { pressed, dirty: true, ..*old(self) }
            } else {
                *old(self)
            },
    {
        if accepted {
            self.pressed = pressed;
            self.dirty = true;
        }
    }

    pub fn is_dirty(&self) -> (r: bool)
        ensures
            r == self.dirty,
    {
        self.dirty
    }

    /// The button has been drawn.
    pub fn rendered(&mut self)
        ensures
            *final(self) == (Button { dirty: false, ..*old(self) }),
    {
        self.dirty = false;
    }
}

impl InputConsumer for Button {
    /// `Some(pressed)`: call the handler with `pressed`.
    type Request = Option<bool>;

    type Model = Button;

    open spec fn model(&self) -> Button {
        *self
    }

    open spec fn accepts(m: Button, input_id: InputId, value: Value) -> bool {
        true
    }

    open spec fn after_reset(m: Button) -> Button {
        Button { dirty: true, ..m }
    }

    open spec fn after_update(m: Button, input_id: InputId, value: Value) -> Button {
        m
    }

    open spec fn is_request(m: Button, input_id: InputId, value: Value, r: Option<bool>) -> bool {
        r == m.request_for(input_id, value)
    }

    fn input_reset(&mut self) {
        self.dirty = true;
    }

    fn input_update(&mut self, input_id: InputId, value: Value) -> (r: Option<bool>) {
        if let Value::Bool(pressed) = value {
            if input_id == self.input_id && pressed != self.pressed {
                return Some(pressed);
            }
        }
        None
    }
}

} // verus!
