//! A knob that passes small encoder moves to its handler and shows the
//! two-digit value the handler answers.

use vstd::prelude::*;

use numtoa::NumToA;

use super::framework::{InputConsumer, InputId, Point, Value};

verus! {

/// An encoder move of this many steps or more is taken for a glitch and
/// ignored.
pub const DELTA_THRESHOLD: i32 = 10;

/// A knob widget. When `input_update` returns `Some(delta)`, the owner calls
/// the knob's handler with `delta` and passes its answer to
/// `handler_returned`.
#[derive(Clone, Copy, Debug, PartialEq, Eq, Structural)]
pub struct Knob {
    pub pos: Point,
    pub input_id: InputId,
    pub value: u8,
    pub last_input_value: i32,
    pub dirty: bool,
}

/// The ASCII digit of `d`, which is below 10.
pub open spec fn digit(d: u8) -> u8 {
    (48 + d) as u8
}

/// A buffer after the decimal digits of `value` have been written at its
/// end: the last place holds the units, and the places before it the tens
/// and hundreds where `value` has them; the other places keep their bytes.
pub open spec fn decimal_written(buffer: Seq<u8>, value: u8) -> Seq<u8> {
    seq![
        if value >= 100 { digit(value / 100) } else { buffer[0] },
        if value >= 10 { digit((value / 10) % 10) } else { buffer[1] },
        digit(value % 10),
    ]
}

/// The text a knob shows for `value`: its last two decimal digits, with a
/// space in place of a missing tens digit.
pub open spec fn value_text_of(value: u8) -> Seq<u8> {
    seq![if value >= 10 { digit((value / 10) % 10) } else { 32u8 }, digit(value % 10)]
}

/// Writes the decimal digits of `value` at the end of `buffer`, with
/// `numtoa`'s `u8` conversion in base 10. That conversion writes the units in
/// the last byte, the tens (for 10 and above) before it and the hundreds (for
/// 100 and above) before those, and leaves the bytes in front untouched.
#[verifier::external_body]
fn write_decimal(value: u8, buffer: &mut [u8; 3])
    ensures
        final(buffer)@ == decimal_written(old(buffer)@, value),
{
    value.numtoa(10, buffer);
}

impl Knob {
    /// A knob showing `value`, the answer of its handler to a turn of 0.
    pub fn new(pos: Point, input_id: InputId, value: u8) -> (k: Knob)
        ensures
            k == (Knob { pos, input_id, value, last_input_value: 0, dirty: true }),
    {
        Knob { pos, input_id, value, last_input_value: 0, dirty: true }
    }

    /// A reading of this knob's encoder that moved it by fewer than
    /// `DELTA_THRESHOLD` steps goes to the handler.
    pub open spec fn request_for(&self, input_id: InputId, value: Value) -> Option<i8> {
        match value {
            Value::Int(v) => {
                let delta = v - self.last_input_value;
                if input_id == self.input_id && delta != 0 && delta < DELTA_THRESHOLD && delta > -DELTA_THRESHOLD {
                    Some(delta as i8)
                } else {
                    None
                }
            },
            Value::Bool(_) => None,
        }
    }

    /// The handler answered `value`, which the knob now shows.
    pub fn handler_returned(&mut self, value: u8)
        ensures
            *final(self) == (Knob { value, ..*old(self) }),
    {
        self.value = value;
    }

    pub fn is_dirty(&self) -> (r: bool)
        ensures
            r == self.dirty,
    {
        self.dirty
    }

    /// The knob has been drawn.
    pub fn rendered(&mut self)
        ensures
            *final(self) == (Knob { dirty: false, ..*old(self) }),
    {
        self.dirty = false;
    }

    /// The two characters the knob draws for its value.
    pub fn value_text(&self) -> (r: [u8; 2])
        ensures
            r@ == value_text_of(self.value),
    {
        let mut buffer = [0u8; 3];
        write_decimal(self.value, &mut buffer);
        if buffer[1] == 0 {
            buffer[1] = 32u8;
        }
        [buffer[1], buffer[2]]
    }
}

impl InputConsumer for Knob {
    /// `Some(delta)`: call the handler with `delta`.
    type Request = Option<i8>;

    type Model = Knob;

    open spec fn model(&self) -> Knob {
        *self
    }

    /// The encoder reading differs from the previous one by an amount that
    /// fits an `i32`.
    open spec fn accepts(m: Knob, input_id: InputId, value: Value) -> bool {
        match value {
            Value::Int(v) => input_id == m.input_id ==> i32::MIN <= v - m.last_input_value <= i32::MAX,
            Value::Bool(_) => true,
        }
    }

    /// The knob is drawn again when its panel comes on screen.
    open spec fn after_reset(m: Knob) -> Knob {
        Knob { dirty: true, ..m }
    }

    /// A reading of this knob's encoder becomes the last reading; a move that
    /// goes to the handler makes the knob due to be drawn.
    open spec fn after_update(m: Knob, input_id: InputId, value: Value) -> Knob {
        match value {
            Value::Int(v) => if input_id == m.input_id {
                Knob { last_input_value: v, dirty: m.dirty || m.request_for(input_id, value) is Some, ..m }
            } else {
                m
            },
            Value::Bool(_) => m,
        }
    }

    open spec fn is_request(m: Knob, input_id: InputId, value: Value, r: Option<i8>) -> bool {
        r == m.request_for(input_id, value)
    }

    fn input_reset(&mut self) {
        self.dirty = true;
    }

    fn input_update(&mut self, input_id: InputId, value: Value) -> (r: Option<i8>) {
        if let Value::Int(input_value) = value {
            if input_id == self.input_id {
                let delta = input_value - self.last_input_value;
                let mut request = None;
                if delta != 0 && delta < DELTA_THRESHOLD && delta > -DELTA_THRESHOLD {
                    request = Some(delta as i8);
                    self.dirty = true;
                }
                self.last_input_value = input_value;
                return request;
            }
        }
        None
    }
}


/// An encoder jump of `DELTA_THRESHOLD` steps or more reaches no handler;
/// the knob takes the new position as its last reading, so the next small
/// move counts from there.
pub proof fn lemma_knob_ignores_jumps(k: Knob, v: i32)
    requires
        v - k.last_input_value >= DELTA_THRESHOLD || v - k.last_input_value <= -DELTA_THRESHOLD,
    ensures
        k.request_for(k.input_id, Value::Int(v)) == None::<i8>,
        Knob::after_update(k, k.input_id, Value::Int(v)) == (Knob { last_input_value: v, ..k }),
{
}

/// A small move reaches the handler as exactly that number of steps and
/// makes the knob due to be drawn.
pub proof fn lemma_knob_small_move(k: Knob, v: i32)
    requires
        v != k.last_input_value,
        -DELTA_THRESHOLD < v - k.last_input_value < DELTA_THRESHOLD,
    ensures
        k.request_for(k.input_id, Value::Int(v)) matches Some(d) && d as int == v - k.last_input_value,
        Knob::after_update(k, k.input_id, Value::Int(v)) == (Knob { last_input_value: v, dirty: true, ..k }),
{
    let d = (v - k.last_input_value) as i32;
    assert(-10i32 < d && d < 10i32 ==> (d as i8) as i32 == d) by (bit_vector);
}

} // verus!
