//! A button of the top row: a caption that calls a handler when its hardware
//! button sends a reading.

use vstd::prelude::*;

use super::{InputConsumer, InputId, Point, Value};

verus! {

/// A button widget. Its handler is run by the owner of the button: when
/// `input_update` returns `Some(pressed)`, the owner calls the handler with
/// `pressed` and passes its answer to `handler_returned`.
pub struct Button<'a> {
    pub pos: Point,
    pub caption: &'a str,
    pub input_id: InputId,
    pub highlight: bool,
    pub dirty: bool,
}

impl<'a> Button<'a> {
    pub fn new(pos: Point, caption: &'a str, input_id: InputId) -> (b: Button<'a>)
        ensures
            b.pos == pos,
            b.caption == caption,
            b.input_id == input_id,
            !b.highlight,
            b.dirty,
    {
        Button { pos, caption, input_id, highlight: false, dirty: true }
    }

    /// The handler answered `redraw`: when it is true the button has to be
    /// drawn again.
    pub fn handler_returned(&mut self, redraw: bool)
        ensures
            *final(self) == (Button { dirty: old(self).dirty || redraw, ..*old(self) }),
    {
        if redraw {
            self.dirty = true;
        }
    }

    pub open spec fn request_for(&self, input_id: InputId, value: Value) -> Option<bool> {
        match value {
            Value::Bool(pressed) => if input_id == self.input_id {
                Some(pressed)
            } else {
                None
            },
            Value::Int(_) => None,
        }
    }

    pub fn is_dirty(&self) -> (r: bool)
        ensures
            r == self.dirty,
    {
        self.dirty
    }

    /// The button has been drawn.
    pub fn rendered(&mut self)
        ensures
            *final(self) == (Button { dirty: false, ..*old(self) }),
    {
        self.dirty = false;
    }
}

impl<'a> InputConsumer for Button<'a> {
    /// `Some(pressed)`: call the handler with `pressed`.
    type Request = Option<bool>;

    type Model = Self;

    open spec fn model(&self) -> Self {
        *self
    }

    open spec fn accepts(m: Self, input_id: InputId, value: Value) -> bool {
        true
    }

    open spec fn after_reset(m: Self) -> Self {
        Button { dirty: true, ..m }
    }

    open spec fn after_update(m: Self, input_id: InputId, value: Value) -> Self {
        m
    }

    open spec fn is_request(m: Self, input_id: InputId, value: Value, r: Option<bool>) -> bool {
        r == m.request_for(input_id, value)
    }

    fn input_reset(&mut self) {
        self.dirty = true;
    }

    /// A button reading of this button's input goes to the handler.
    fn input_update(&mut self, input_id: InputId, value: Value) -> (r: Option<bool>) {
        if let Value::Bool(pressed) = value {
            if input_id == self.input_id {
                return Some(pressed);
            }
        }
        None
    }
}

} // verus!
