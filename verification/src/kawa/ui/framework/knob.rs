//! A knob of the bottom row: a rotary encoder whose turns go to a handler,
//! which answers the value the knob shows.

use vstd::prelude::*;

use embedded_graphics::geometry::Dimensions;

use super::{InputConsumer, InputId, Point, Size, Value};

verus! {

/// The radius of a knob's dial, in pixels.
pub const KNOB_SIZE: u32 = 10;

/// How far below the knob's centre its caption is drawn.
pub const TEXT_OFFSET_Y: i32 = 14;

/// Whether text has an empty line, as `str::lines` splits it: a line feed
/// at the start, right after another line feed, or closing a carriage return
/// that starts the text or follows a line feed.
pub open spec fn has_empty_line(s: Seq<char>) -> bool {
    exists|i: int|
        0 <= i < s.len() && #[trigger] s[i] == '\n' && (i == 0 || s[i - 1] == '\n' || (s[i - 1] == '\r' && (i == 1
            || s[i - 2] == '\n')))
}

/// The width in pixels of a caption drawn in the 6x6 font of
/// embedded-graphics.
pub uninterp spec fn caption_text_width(caption: Seq<char>) -> u32;

/// The width of `caption` in embedded-graphics' `Font6x6`, as the size of the
/// styled text gives it (`Dimensions::size`): the widest line, each character
/// as wide as its glyph (at most 6 pixels) with 1 pixel of spacing between
/// characters, so at most 7 pixels a character. The size takes the spacing
/// off each line's sum, which underflows on an empty line, and sums in `u32`.
#[verifier::external_body]
fn caption_width(caption: &str) -> (w: u32)
    requires
        !has_empty_line(caption@),
        7 * caption@.len() <= u32::MAX,
    ensures
        w == caption_text_width(caption@),
        w <= 7 * caption@.len(),
{
    let style = embedded_graphics::style::TextStyle::new(
        embedded_graphics::fonts::Font6x6,
        embedded_graphics::pixelcolor::BinaryColor::On,
    );
    embedded_graphics::fonts::Text::new(caption, embedded_graphics::geometry::Point::new(0, 0))
        .into_styled(style)
        .size()
        .width
}

/// Where a knob at `pos` draws a caption `caption_width` pixels wide:
/// centred under the knob, `TEXT_OFFSET_Y` pixels below its centre.
pub fn caption_place(pos: Point, caption_width: u32) -> (p: Point)
    requires
        pos.x - caption_width / 2 >= i32::MIN,
        pos.y + TEXT_OFFSET_Y <= i32::MAX,
    ensures
        p == (Point { x: (pos.x - caption_width / 2) as i32, y: (pos.y + TEXT_OFFSET_Y) as i32 }),
{
    Point { x: pos.x - (caption_width / 2) as i32, y: pos.y + TEXT_OFFSET_Y }
}

/// How a knob is drawn.
#[derive(Clone, Copy, Debug, PartialEq, Eq, Structural)]
pub struct KnobOptions {
    /// Draw the dial that shows the value; without it only the caption is
    /// drawn.
    pub render_value: bool,
}

impl KnobOptions {
    pub fn default() -> (o: KnobOptions)
        ensures
            o.render_value,
    {
        KnobOptions { render_value: true }
    }
}

/// A knob widget. Its handler is run by the owner of the knob: when
/// `input_update` returns `Some(delta)`, the owner calls the handler with
/// `delta` and passes the value it answers to `handler_returned`.
pub struct Knob<'a> {
    pub pos: Point,
    pub caption: &'a str,
    pub input_id: InputId,
    pub value: u8,
    pub last_input_value: Option<i32>,
    pub max_value: i32,
    /// Where the caption is drawn.
    pub text_pos: Point,
    pub dirty: bool,
    pub dirty_text: bool,
    pub options: KnobOptions,
}

/// The position of an encoder, moved by `delta` steps, as the knob's handler
/// gets it: the low eight bits of the difference, as a signed byte.
pub open spec fn turn_of(delta: int) -> i8 {
    delta as i8
}

impl<'a> Knob<'a> {
    /// A knob showing `value`, the answer of its handler to a turn of 0, with
    /// its caption centred below it.
    pub fn new(
        pos: Point,
        caption: &'a str,
        input_id: InputId,
        value: u8,
        max_value: i32,
        options: KnobOptions,
    ) -> (k: Knob<'a>)
        requires
            !has_empty_line(caption@),
            7 * caption@.len() <= i32::MAX,
            pos.x - 4 * caption@.len() >= i32::MIN,
            pos.y + TEXT_OFFSET_Y <= i32::MAX,
        ensures
            k == (Knob {
                pos,
                caption,
                input_id,
                value,
                last_input_value: None,
                max_value,
                text_pos: Point {
                    x: (pos.x - caption_text_width(caption@) / 2) as i32,
                    y: (pos.y + TEXT_OFFSET_Y) as i32,
                },
                dirty: true,
                dirty_text: true,
                options,
            }),
    {
        let width = caption_width(caption);
        let text_pos = caption_place(pos, width);
        Knob {
            pos,
            caption,
            input_id,
            value,
            last_input_value: None,
            max_value,
            text_pos,
            dirty: true,
            dirty_text: true,
            options,
        }
    }

    /// The handler answered `value`: the knob shows it, and its dial is
    /// drawn again if it is drawn at all.
    pub fn handler_returned(&mut self, value: u8)
        ensures
            *final(self) == (Knob {
                value,
                dirty: old(self).dirty || old(self).options.render_value,
                ..*old(self)
            }),
    {
        self.value = value;
        self.dirty = self.dirty || self.options.render_value;
    }

    /// The first reading after a reset calls the handler with 0, to learn
    /// the value to show; later readings call it with the number of steps
    /// the encoder moved, when it moved.
    pub open spec fn request_for(&self, input_id: InputId, value: Value) -> Option<i8> {
        match value {
            Value::Int(v) => if input_id != self.input_id {
                None
            } else {
                match self.last_input_value {
                    Some(last) => if v - last != 0 {
                        Some(turn_of(v - last))
                    } else {
                        None
                    },
                    None => Some(0i8),
                }
            },
            Value::Bool(_) => None,
        }
    }

    pub fn is_dirty(&self) -> (r: bool)
        ensures
            r == self.dirty,
    {
        self.dirty
    }

    /// The area a knob's drawing covers: the square around its dial when it
    /// draws one, and an empty area at the origin when it does not.
    pub open spec fn drawn_area(&self) -> (Point, Size) {
        if self.options.render_value {
            (
                Point { x: (self.pos.x - KNOB_SIZE) as i32, y: (self.pos.y - KNOB_SIZE) as i32 },
                Size { width: (2 * KNOB_SIZE) as u32, height: (2 * KNOB_SIZE) as u32 },
            )
        } else {
            (Point { x: 0, y: 0 }, Size { width: 0, height: 0 })
        }
    }

    /// The knob has been drawn: the caption is drawn when it was due, and the
    /// dial when the knob draws it. Returns the area the drawing covers.
    pub fn rendered(&mut self) -> (area: (Point, Size))
        requires
            old(self).options.render_value ==> old(self).pos.x - KNOB_SIZE >= i32::MIN && old(self).pos.y - KNOB_SIZE
                >= i32::MIN,
        ensures
            *final(self) == (Knob {
                dirty_text: false,
                dirty: if old(self).options.render_value { false } else { old(self).dirty },
                ..*old(self)
            }),
            area == old(self).drawn_area(),
    {
        self.dirty_text = false;
        if self.options.render_value {
            self.dirty = false;
            (
                Point { x: self.pos.x - KNOB_SIZE as i32, y: self.pos.y - KNOB_SIZE as i32 },
                Size { width: KNOB_SIZE * 2, height: KNOB_SIZE * 2 },
            )
        } else {
            (Point { x: 0, y: 0 }, Size { width: 0, height: 0 })
        }
    }
}

impl<'a> InputConsumer for Knob<'a> {
    /// `Some(delta)`: call the handler with `delta`.
    type Request = Option<i8>;

    type Model = Self;

    open spec fn model(&self) -> Self {
        *self
    }

    /// The encoder reading differs from the previous one by an amount that
    /// fits an `i32`.
    open spec fn accepts(m: Self, input_id: InputId, value: Value) -> bool {
        match (value, m.last_input_value) {
            (Value::Int(v), Some(last)) => input_id == m.input_id ==> i32::MIN <= v - last <= i32::MAX,
            _ => true,
        }
    }

    open spec fn after_reset(m: Self) -> Self {
        Knob { last_input_value: None, dirty_text: true, ..m }
    }

    open spec fn after_update(m: Self, input_id: InputId, value: Value) -> Self {
        match value {
            Value::Int(v) => if input_id == m.input_id {
                Knob { last_input_value: Some(v), ..m }
            } else {
                m
            },
            Value::Bool(_) => m,
        }
    }

    open spec fn is_request(m: Self, input_id: InputId, value: Value, r: Option<i8>) -> bool {
        r == m.request_for(input_id, value)
    }

    fn input_reset(&mut self) {
        self.last_input_value = None;
        self.dirty_text = true;
    }

    fn input_update(&mut self, input_id: InputId, value: Value) -> (r: Option<i8>) {
        if let Value::Int(input_value) = value {
            if input_id == self.input_id {
                let request = if let Some(last_input_value) = self.last_input_value {
                    let delta = input_value - last_input_value;
                    if delta != 0 {
                        Some(delta as i8)
                    } else {
                        None
                    }
                } else {
                    Some(0i8)
                };
                self.last_input_value = Some(input_value);
                return request;
            }
        }
        None
    }
}


proof fn lemma_i8_cast_in_range(d: i32)
    requires
        i8::MIN <= d <= i8::MAX,
    ensures
        (d as i8) as int == d as int,
{
    assert(-128i32 <= d && d <= 127i32 ==> (d as i8) as i32 == d) by (bit_vector);
}

/// After a reset the first reading of the knob's encoder, whatever it is,
/// asks the handler for the value with a turn of 0; reading the same position
/// again asks for nothing.
pub proof fn lemma_knob_first_reading_after_reset(k: Knob, v: i32)
    ensures
        Knob::after_reset(k).request_for(k.input_id, Value::Int(v)) == Some(0i8),
        Knob::after_update(Knob::after_reset(k), k.input_id, Value::Int(v)).request_for(k.input_id, Value::Int(v))
            == None::<i8>,
{
}

/// A move of the encoder that fits a signed byte reaches the handler as
/// exactly that number of steps.
pub proof fn lemma_knob_turn_is_the_move(k: Knob, v: i32)
    requires
        k.last_input_value is Some,
        v != k.last_input_value->0,
        i8::MIN <= v - k.last_input_value->0 <= i8::MAX,
    ensures
        k.request_for(k.input_id, Value::Int(v)) matches Some(d) && d as int == v - k.last_input_value->0,
{
    lemma_i8_cast_in_range((v - k.last_input_value->0) as i32);
}

} // verus!
