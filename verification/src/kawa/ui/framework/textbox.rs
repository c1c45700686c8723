//! A line of text that other widgets edit, such as a patch name.

use vstd::prelude::*;

use embedded_graphics::geometry::Dimensions;

use super::{Point, Size};

verus! {

/// The width of a character of the text box's font, in pixels.
pub open spec fn glyph_width(byte: u8) -> nat {
    if byte == 10 {
        0
    } else {
        6
    }
}

/// The height of a character of the text box's font, in pixels.
pub open spec fn glyph_height(byte: u8) -> nat {
    if byte == 10 {
        0
    } else {
        12
    }
}

/// The width of a row of characters.
pub open spec fn row_width(bytes: Seq<u8>) -> nat
    decreases bytes.len(),
{
    if bytes.len() == 0 {
        0
    } else {
        row_width(bytes.drop_last()) + glyph_width(bytes.last())
    }
}

/// The height of a row of characters: that of its tallest character.
pub open spec fn row_height(bytes: Seq<u8>) -> nat
    decreases bytes.len(),
{
    if bytes.len() == 0 {
        0
    } else {
        let rest = row_height(bytes.drop_last());
        if glyph_height(bytes.last()) > rest {
            glyph_height(bytes.last())
        } else {
            rest
        }
    }
}

/// The size of `byte` drawn alone in embedded-graphics' `Font6x12`, as the
/// size of the styled text gives it (`Dimensions::size`): the font's fixed
/// 6 by 12 cell with no spacing, except for a line feed, which makes an
/// empty line and takes no room. The byte is read as UTF-8 text, which a
/// byte of 128 or more is not.
#[verifier::external_body]
fn glyph_size(byte: u8) -> (s: Size)
    requires
        byte < 128,
    ensures
        s.width == glyph_width(byte) && s.height == glyph_height(byte),
{
    let buffer = [byte];
    let text = core::str::from_utf8(&buffer).unwrap();
    let style = embedded_graphics::style::TextStyle::new(
        embedded_graphics::fonts::Font6x12,
        embedded_graphics::pixelcolor::BinaryColor::On,
    );
    let size = embedded_graphics::fonts::Text::new(text, embedded_graphics::geometry::Point::new(0, 0))
        .into_styled(style)
        .size();
    Size { width: size.width, height: size.height }
}

/// The text a content box shows, shared with whatever edits it.
pub struct Content {
    pub bytes: Vec<u8>,
    pub is_dirty: bool,
    /// The place of the character drawn highlighted.
    pub cursor_pos: i32,
}

/// A widget that draws a `Content` one character at a time.
#[derive(Clone, Copy, Debug, PartialEq, Eq, Structural)]
pub struct ContentBox {
    pub pos: Point,
    pub highlight: bool,
}

/// A content box is a text box.
pub type TextBox = ContentBox;

impl ContentBox {
    pub fn new(pos: Point) -> (b: ContentBox)
        ensures
            b == (ContentBox { pos, highlight: false }),
    {
        ContentBox { pos, highlight: false }
    }

    /// Whether character `i` of the content is drawn highlighted: all of
    /// them are when the box is, and otherwise the one under the cursor.
    /// Where each character of `content` is drawn, one after the other from
    /// the box's position, and the size of the drawn row. The characters are
    /// ASCII, as the drawing reads them as text.
    pub fn content_layout(&self, content: &Content) -> (r: (Vec<Point>, Size))
        requires
            forall|i: int| 0 <= i < content.bytes@.len() ==> #[trigger] content.bytes@[i] < 128,
            self.pos.x + 6 * content.bytes@.len() <= i32::MAX,
        ensures
            r.0@.len() == content.bytes@.len(),
            forall|i: int| 0 <= i < r.0@.len() ==> #[trigger] r.0@[i] == (Point {
                x: (self.pos.x + row_width(content.bytes@.take(i))) as i32,
                y: self.pos.y,
            }),
            r.1 == (Size { width: row_width(content.bytes@) as u32, height: row_height(content.bytes@) as u32 }),
    {
        let bytes = &content.bytes;
        let mut places: Vec<Point> = Vec::new();
        let mut x = self.pos.x;
        let mut width: u32 = 0;
        let mut height: u32 = 0;
        let mut i: usize = 0;
        while i < bytes.len()
            invariant
                i <= bytes@.len(),
                forall|j: int| 0 <= j < bytes@.len() ==> #[trigger] bytes@[j] < 128,
                self.pos.x + 6 * bytes@.len() <= i32::MAX,
                row_width(bytes@.take(i as int)) <= 6 * i,
                row_height(bytes@.take(i as int)) <= 12,
                width == row_width(bytes@.take(i as int)),
                height == row_height(bytes@.take(i as int)),
                x == self.pos.x + width,
                places@.len() == i,
                forall|j: int| 0 <= j < i ==> #[trigger] places@[j] == (Point {
                    x: (self.pos.x + row_width(bytes@.take(j))) as i32,
                    y: self.pos.y,
                }),
            decreases bytes@.len() - i,
        {
            assert(bytes@.take(i as int + 1).drop_last() == bytes@.take(i as int));
            places.push(Point { x, y: self.pos.y });
            let glyph = glyph_size(bytes[i]);
            x = x + glyph.width as i32;
            width = width + glyph.width;
            if glyph.height > height {
                height = glyph.height;
            }
            i = i + 1;
        }
        assert(bytes@.take(bytes@.len() as int) == bytes@);
        (places, Size { width, height })
    }

    pub fn char_highlighted(&self, content: &Content, i: usize) -> (r: bool)
        ensures
            r == (self.highlight || i == content.cursor_pos as usize),
    {
        self.highlight || i == content.cursor_pos as usize
    }

    pub fn is_dirty(&self, content: &Content) -> (r: bool)
        ensures
            r == content.is_dirty,
    {
        content.is_dirty
    }

    /// The content has been drawn.
    pub fn rendered(&self, content: &mut Content)
        ensures
            final(content).bytes@ == old(content).bytes@,
            final(content).cursor_pos == old(content).cursor_pos,
            !final(content).is_dirty,
    {
        content.is_dirty = false;
    }
}

} // verus!
