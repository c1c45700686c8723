//! Screen coordinates and the bounding rectangles that the UI panels report
//! back to the display driver.

use vstd::prelude::*;

verus! {

/// A pixel position on the display.
#[derive(Clone, Copy, Debug, PartialEq, Eq, Structural)]
pub struct Point {
    pub x: i32,
    pub y: i32,
}

/// The extent of a rectangle on the display, in pixels.
#[derive(Clone, Copy, Debug, PartialEq, Eq, Structural)]
pub struct Size {
    pub width: u32,
    pub height: u32,
}

impl Point {
    pub fn new(x: i32, y: i32) -> (p: Point)
        ensures
            p == (Point { x, y }),
    {
        Point { x, y }
    }
}

impl Size {
    pub fn new(width: u32, height: u32) -> (s: Size)
        ensures
            s == (Size { width, height }),
    {
        Size { width, height }
    }
}

/// The start of a span after it has been moved to cover `cover_start`.
pub open spec fn span_start_after(start: i32, cover_start: i32) -> i32 {
    if cover_start < start {
        cover_start
    } else {
        start
    }
}

/// Whether the span `[start, start + len)` has to grow to reach the end of
/// `[cover_start, cover_start + cover_len)`; the lengths are read as `i32`, as
/// the comparison on the display is made.
pub open spec fn span_must_grow(start: i32, len: u32, cover_start: i32, cover_len: u32) -> bool {
    cover_start + (cover_len as i32) > span_start_after(start, cover_start) + (len as i32)
}

/// The arithmetic of extending one span stays within the integer types used
/// for it: no addition overflows and no subtraction goes below zero.
pub open spec fn span_extension_fits(start: i32, len: u32, cover_start: i32, cover_len: u32) -> bool {
    let s = span_start_after(start, cover_start);
    &&& i32::MIN <= cover_start + (cover_len as i32) <= i32::MAX
    &&& i32::MIN <= s + (len as i32) <= i32::MAX
    &&& span_must_grow(start, len, cover_start, cover_len) ==> {
        &&& (cover_start as u32) + cover_len <= u32::MAX
        &&& (cover_start as u32) + cover_len >= (s as u32)
    }
}

/// The length of a span after it has been extended to cover another one.
pub open spec fn span_len_after(start: i32, len: u32, cover_start: i32, cover_len: u32) -> u32 {
    if span_must_grow(start, len, cover_start, cover_len) {
        ((cover_start as u32) + cover_len - (span_start_after(start, cover_start) as u32)) as u32
    } else {
        len
    }
}

/// The arithmetic of extending a rectangle fits its types on both axes.
pub open spec fn rect_extension_fits(pos: Point, size: Size, cover_pos: Point, cover_size: Size) -> bool {
    &&& span_extension_fits(pos.x, size.width, cover_pos.x, cover_size.width)
    &&& span_extension_fits(pos.y, size.height, cover_pos.y, cover_size.height)
}

/// The rectangle `(pos, size)` after it has been extended to cover
/// `(cover_pos, cover_size)`.
pub open spec fn extended_rect(pos: Point, size: Size, cover_pos: Point, cover_size: Size) -> (Point, Size) {
    (
        Point {
            x: span_start_after(pos.x, cover_pos.x),
            y: span_start_after(pos.y, cover_pos.y),
        },
        Size {
            width: span_len_after(pos.x, size.width, cover_pos.x, cover_size.width),
            height: span_len_after(pos.y, size.height, cover_pos.y, cover_size.height),
        },
    )
}

/// Moves the start of `pos` and grows `size` so that the rectangle reaches the
/// rectangle `(cover_pos, cover_size)`: the start moves to the smaller
/// coordinate, and the length grows when the other rectangle ends further out
/// than the (moved) rectangle does.
pub fn extend_rect_to_cover(pos: &mut Point, size: &mut Size, cover_pos: &Point, cover_size: &Size)
    requires
        rect_extension_fits(*old(pos), *old(size), *cover_pos, *cover_size),
    ensures
        (*final(pos), *final(size)) == extended_rect(*old(pos), *old(size), *cover_pos, *cover_size),
{
    if cover_pos.x < pos.x {
        pos.x = cover_pos.x;
    }
    if cover_pos.y < pos.y {
        pos.y = cover_pos.y;
    }
    if cover_pos.x + cover_size.width as i32 > pos.x + size.width as i32 {
        size.width = cover_pos.x as u32 + cover_size.width - pos.x as u32;
    }
    if cover_pos.y + cover_size.height as i32 > pos.y + size.height as i32 {
        size.height = cover_pos.y as u32 + cover_size.height - pos.y as u32;
    }
}


proof fn lemma_u32_as_i32(w: u32)
    requires
        w <= i32::MAX,
    ensures
        (w as i32) as int == w as int,
{
    assert(w <= 0x7fff_ffffu32 ==> (w as i32) as int == w as int) by (bit_vector);
}

proof fn lemma_i32_as_u32(x: i32)
    ensures
        x >= 0 ==> (x as u32) as int == x as int,
        x < 0 ==> (x as u32) as int == x as int + 0x1_0000_0000,
{
    assert(x >= 0 ==> (x as u32) as int == x as int) by (bit_vector);
    assert(x < 0 ==> (x as u32) as int == x as int + 0x1_0000_0000) by (bit_vector);
}

/// Extending a span makes it reach the covered span: the new span starts no
/// later and ends no earlier than the covered one. When the covered span does
/// not start before the old one, the old span stays covered too.
pub proof fn lemma_span_extension_covers(start: i32, len: u32, cover_start: i32, cover_len: u32)
    requires
        span_extension_fits(start, len, cover_start, cover_len),
        len <= i32::MAX,
        cover_len <= i32::MAX,
    ensures
        ({
            let s = span_start_after(start, cover_start);
            let l = span_len_after(start, len, cover_start, cover_len);
            &&& s <= cover_start
            &&& s <= start
            &&& cover_start + cover_len <= s + l
            &&& cover_start >= start ==> start + len <= s + l
        }),
{
    lemma_u32_as_i32(len);
    lemma_u32_as_i32(cover_len);
    lemma_i32_as_u32(cover_start);
    lemma_i32_as_u32(span_start_after(start, cover_start));
}

/// Extending a rectangle to cover another makes it contain the other
/// rectangle; when the other rectangle does not start above or left of it,
/// it keeps containing the area it had.
pub proof fn lemma_extended_rect_covers(pos: Point, size: Size, cover_pos: Point, cover_size: Size)
    requires
        rect_extension_fits(pos, size, cover_pos, cover_size),
        size.width <= i32::MAX,
        size.height <= i32::MAX,
        cover_size.width <= i32::MAX,
        cover_size.height <= i32::MAX,
    ensures
        ({
            let (p, s) = extended_rect(pos, size, cover_pos, cover_size);
            &&& p.x <= cover_pos.x
            &&& p.y <= cover_pos.y
            &&& cover_pos.x + cover_size.width <= p.x + s.width
            &&& cover_pos.y + cover_size.height <= p.y + s.height
            &&& (cover_pos.x >= pos.x && cover_pos.y >= pos.y) ==> {
                &&& p == pos
                &&& pos.x + size.width <= p.x + s.width
                &&& pos.y + size.height <= p.y + s.height
            }
        }),
{
    lemma_span_extension_covers(pos.x, size.width, cover_pos.x, cover_size.width);
    lemma_span_extension_covers(pos.y, size.height, cover_pos.y, cover_size.height);
}


/// The rectangle that starts empty at the far corner of the coordinate range
/// and is extended, in turn, to cover each of `rects`.
pub open spec fn covering_rect(rects: Seq<(Point, Size)>) -> (Point, Size)
    decreases rects.len(),
{
    if rects.len() == 0 {
        (Point { x: i32::MAX, y: i32::MAX }, Size { width: 0, height: 0 })
    } else {
        let (pos, size) = covering_rect(rects.drop_last());
        extended_rect(pos, size, rects.last().0, rects.last().1)
    }
}

/// Each extension made by `covering_rect` fits its types.
pub open spec fn covering_fits(rects: Seq<(Point, Size)>) -> bool
    decreases rects.len(),
{
    if rects.len() == 0 {
        true
    } else {
        let (pos, size) = covering_rect(rects.drop_last());
        covering_fits(rects.drop_last()) && rect_extension_fits(pos, size, rects.last().0, rects.last().1)
    }
}

/// The area that the widgets of a panel were drawn over: the rectangles they
/// report, joined in order.
pub fn cover_rects(rects: &Vec<(Point, Size)>) -> (r: (Point, Size))
    requires
        covering_fits(rects@),
    ensures
        r == covering_rect(rects@),
{
    let mut pos = Point { x: i32::MAX, y: i32::MAX };
    let mut size = Size { width: 0, height: 0 };
    let mut i: usize = 0;
    while i < rects.len()
        invariant
            i <= rects@.len(),
            covering_fits(rects@),
            (pos, size) == covering_rect(rects@.take(i as int)),
        decreases rects@.len() - i,
    {
        let ghost prefix = rects@.take(i as int + 1);
        assert(prefix.drop_last() == rects@.take(i as int));
        proof {
            lemma_covering_fits_prefix(rects@, i as int + 1);
        }
        let (cover_pos, cover_size) = rects[i];
        extend_rect_to_cover(&mut pos, &mut size, &cover_pos, &cover_size);
        i = i + 1;
    }
    assert(rects@.take(rects@.len() as int) == rects@);
    (pos, size)
}

/// Whether extending the span `[start, start + len)` to cover
/// `[cover_start, cover_start + cover_len)` fits its integer types.
fn span_extension_fits_check(start: i32, len: u32, cover_start: i32, cover_len: u32) -> (r: bool)
    ensures
        r == span_extension_fits(start, len, cover_start, cover_len),
{
    let s: i32 = if cover_start < start { cover_start } else { start };
    let cover_end: i64 = cover_start as i64 + (cover_len as i32) as i64;
    let end: i64 = s as i64 + (len as i32) as i64;
    if cover_end < i32::MIN as i64 || cover_end > i32::MAX as i64 || end < i32::MIN as i64 || end > i32::MAX as i64 {
        return false;
    }
    if cover_end > end {
        let grown: u64 = (cover_start as u32) as u64 + cover_len as u64;
        grown <= u32::MAX as u64 && grown >= (s as u32) as u64
    } else {
        true
    }
}

/// The area that the widgets of a panel were drawn over, as `cover_rects`
/// gives it, or `None` when joining the rectangles would overflow.
pub fn try_cover_rects(rects: &Vec<(Point, Size)>) -> (r: Option<(Point, Size)>)
    ensures
        r == if covering_fits(rects@) {
            Some(covering_rect(rects@))
        } else {
            None::<(Point, Size)>
        },
{
    let mut pos = Point { x: i32::MAX, y: i32::MAX };
    let mut size = Size { width: 0, height: 0 };
    let mut i: usize = 0;
    while i < rects.len()
        invariant
            i <= rects@.len(),
            covering_fits(rects@.take(i as int)),
            (pos, size) == covering_rect(rects@.take(i as int)),
        decreases rects@.len() - i,
    {
        let ghost prefix = rects@.take(i as int + 1);
        assert(prefix.drop_last() == rects@.take(i as int));
        let (cover_pos, cover_size) = rects[i];
        if !span_extension_fits_check(pos.x, size.width, cover_pos.x, cover_size.width)
            || !span_extension_fits_check(pos.y, size.height, cover_pos.y, cover_size.height) {
            proof {
                if covering_fits(rects@) {
                    lemma_covering_fits_prefix(rects@, i as int + 1);
                }
            }
            return None;
        }
        extend_rect_to_cover(&mut pos, &mut size, &cover_pos, &cover_size);
        i = i + 1;
    }
    assert(rects@.take(rects@.len() as int) == rects@);
    Some((pos, size))
}

/// The extensions of a prefix of the rectangles fit when those of all the
/// rectangles do.
pub proof fn lemma_covering_fits_prefix(rects: Seq<(Point, Size)>, n: int)
    requires
        covering_fits(rects),
        0 <= n <= rects.len(),
    ensures
        covering_fits(rects.take(n)),
    decreases rects.len(),
{
    if n < rects.len() {
        assert(rects.drop_last().take(n) == rects.take(n));
        lemma_covering_fits_prefix(rects.drop_last(), n);
    } else {
        assert(rects.take(n) == rects);
    }
}

/// A rectangle contains another one.
pub open spec fn rect_contains(outer: (Point, Size), inner: (Point, Size)) -> bool {
    &&& outer.0.x <= inner.0.x
    &&& outer.0.y <= inner.0.y
    &&& inner.0.x + inner.1.width <= outer.0.x + outer.1.width
    &&& inner.0.y + inner.1.height <= outer.0.y + outer.1.height
}

/// When the first rectangle lies above and left of all the others, and no
/// length is out of the `i32` range, the joined rectangle contains every one
/// of the rectangles and starts where the first one does.
pub proof fn lemma_covering_rect_contains_all(rects: Seq<(Point, Size)>)
    requires
        rects.len() > 0,
        covering_fits(rects),
        forall|i: int| 0 <= i < rects.len() ==> #[trigger] rects[i].0.x >= rects[0].0.x && rects[i].0.y >= rects[0].0.y,
        forall|i: int| 0 <= i < rects.len() ==> #[trigger] rects[i].1.width <= i32::MAX && rects[i].1.height <= i32::MAX,
    ensures
        covering_rect(rects).0 == rects[0].0,
        covering_rect(rects).1.width <= i32::MAX,
        covering_rect(rects).1.height <= i32::MAX,
        forall|i: int| 0 <= i < rects.len() ==> rect_contains(covering_rect(rects), #[trigger] rects[i]),
    decreases rects.len(),
{
    let last = rects.last();
    let (pos, size) = covering_rect(rects.drop_last());
    assert(last == rects[rects.len() - 1]);
    if rects.len() == 1 {
        assert(rects.drop_last().len() == 0);
        lemma_span_extension_covers(i32::MAX, 0, last.0.x, last.1.width);
        lemma_span_extension_covers(i32::MAX, 0, last.0.y, last.1.height);
        lemma_i32_as_u32(last.0.x);
        lemma_i32_as_u32(last.0.y);
    } else {
        let rest = rects.drop_last();
        assert forall|i: int| 0 <= i < rest.len() implies #[trigger] rest[i].0.x >= rest[0].0.x && rest[i].0.y >= rest[0].0.y by {
            assert(rest[i] == rects[i]);
            assert(rest[0] == rects[0]);
        }
        assert forall|i: int| 0 <= i < rest.len() implies #[trigger] rest[i].1.width <= i32::MAX && rest[i].1.height <= i32::MAX by {
            assert(rest[i] == rects[i]);
        }
        lemma_covering_rect_contains_all(rest);
        assert(rest[0] == rects[0]);
        lemma_extended_rect_covers(pos, size, last.0, last.1);
        lemma_span_len_bound(pos.x, size.width, last.0.x, last.1.width);
        lemma_span_len_bound(pos.y, size.height, last.0.y, last.1.height);
        assert forall|i: int| 0 <= i < rects.len() implies rect_contains(covering_rect(rects), #[trigger] rects[i]) by {
            if i < rects.len() - 1 {
                assert(rest[i] == rects[i]);
            }
        }
    }
}

/// A span that starts at or before the covered span and is extended to it
/// keeps a length within the `i32` range.
proof fn lemma_span_len_bound(start: i32, len: u32, cover_start: i32, cover_len: u32)
    requires
        span_extension_fits(start, len, cover_start, cover_len),
        start <= cover_start,
        len <= i32::MAX,
        cover_len <= i32::MAX,
    ensures
        span_len_after(start, len, cover_start, cover_len) <= i32::MAX,
{
    lemma_u32_as_i32(len);
    lemma_u32_as_i32(cover_len);
    lemma_i32_as_u32(cover_start);
    lemma_i32_as_u32(start);
}

} // verus!
