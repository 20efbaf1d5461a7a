//! Software rasterizer that writes into a flat BGRA framebuffer.
//!
//! All primitives clip against the bounds of the buffer.

use crate::debug_window::font;
use crate::text;
use vstd::prelude::*;

verus! {

/// A 32-bit BGRA colour.
#[derive(Debug, Clone, Copy, PartialEq, Eq, Structural)]
pub struct Color(pub u8, pub u8, pub u8, pub u8);

impl Color {
    /// An opaque colour.
    pub fn rgb(r: u8, g: u8, b: u8) -> (c: Color)
        ensures
            c == Color(b, g, r, 0xFF),
    {
        Color(b, g, r, 0xFF)
    }

    /// A colour with explicit alpha.
    pub fn rgba(r: u8, g: u8, b: u8, a: u8) -> (c: Color)
        ensures
            c == Color(b, g, r, a),
    {
        Color(b, g, r, a)
    }

    /// The byte of the colour at a position in memory: blue, green, red, alpha.
    pub open spec fn channel(self, k: int) -> u8 {
        if k == 0 {
            self.0
        } else if k == 1 {
            self.1
        } else if k == 2 {
            self.2
        } else {
            self.3
        }
    }

    /// The colour as the number that its four bytes make, lowest first.
    pub fn packed(self) -> (r: u32)
        ensures
            r == self.0 + 256 * self.1 + 65536 * self.2 + 16777216 * self.3,
    {
        (self.0 as u32) + 256 * (self.1 as u32) + 65536 * (self.2 as u32) + 16777216 * (
        self.3 as u32)
    }
}

/// A framebuffer in main memory, four bytes per pixel, row by row.
#[derive(Debug)]
pub struct Framebuffer {
    pixels: Vec<u8>,
    width: u32,
    height: u32,
}

/// Bytes in which some pixels, told by their number, have been set to a colour.
pub open spec fn painted(old: Seq<u8>, covered: spec_fn(int) -> bool, c: Color) -> Seq<u8> {
    Seq::new(
        old.len(),
        |i: int|
            if covered(i / 4) {
                c.channel(i % 4)
            } else {
                old[i]
            },
    )
}

/// The pixels of a rectangle in a buffer of a width.
pub open spec fn in_rect(width: int, x: int, y: int, w: int, h: int) -> spec_fn(int) -> bool {
    |p: int| x <= p % width < x + w && y <= p / width < y + h
}

/// The pixels of the outline of a rectangle.
pub open spec fn on_outline(width: int, x: int, y: int, w: int, h: int) -> spec_fn(int) -> bool {
    |p: int|
        in_rect(width, x, y, w, h)(p) && (p % width == x || p % width == x + w - 1 || p / width == y
            || p / width == y + h - 1)
}

/// The pixels of a glyph.
pub open spec fn in_glyph(width: int, x: int, y: int, ch: char) -> spec_fn(int) -> bool {
    |p: int|
        in_rect(width, x, y, 8, 8)(p) && font::glyph_pixel(ch, p / width - y, p % width - x)
}

/// The pixels of a line of text: each glyph stands eight pixels to the right of the one
/// before.
pub open spec fn in_text(width: int, x: int, y: int, s: Seq<char>) -> spec_fn(int) -> bool {
    |p: int|
        exists|k: int|
            0 <= k < s.len() && #[trigger] in_glyph(width, x + 8 * k, y, s[k])(p)
}

impl Framebuffer {
    /// The buffer holds four bytes for each pixel.
    pub closed spec fn wf(&self) -> bool {
        self.pixels@.len() == self.width * self.height * 4
    }

    /// The bytes of the buffer.
    pub closed spec fn view(&self) -> Seq<u8> {
        self.pixels@
    }

    /// The width in pixels.
    pub closed spec fn columns(&self) -> int {
        self.width as int
    }

    /// The height in pixels.
    pub closed spec fn rows(&self) -> int {
        self.height as int
    }

    /// A buffer of a size, all zero.
    pub fn new(width: u32, height: u32) -> (r: Framebuffer)
        requires
            width * height * 4 <= usize::MAX,
        ensures
            r.wf(),
            r.columns() == width,
            r.rows() == height,
            r@ == Seq::new((width * height * 4) as nat, |i: int| 0u8),
    {
        let pixels: Vec<u8> = zeros(width, height);
        Framebuffer { pixels, width, height }
    }

    /// Changes the size. The contents are discarded: the buffer is all zero.
    pub fn resize(&mut self, width: u32, height: u32)
        requires
            width * height * 4 <= usize::MAX,
        ensures
            final(self).wf(),
            final(self).columns() == width,
            final(self).rows() == height,
            final(self)@ == Seq::new((width * height * 4) as nat, |i: int| 0u8),
    {
        *self = Framebuffer::new(width, height);
    }

    /// Width in pixels.
    pub fn width(&self) -> (r: u32)
        ensures
            r == self.columns(),
    {
        self.width
    }

    /// Height in pixels.
    pub fn height(&self) -> (r: u32)
        ensures
            r == self.rows(),
    {
        self.height
    }

    /// The bytes of the buffer.
    pub fn bytes(&self) -> (r: &[u8])
        ensures
            r@ == self@,
    {
        self.pixels.as_slice()
    }

    /// Number of bytes.
    pub fn byte_len(&self) -> (r: usize)
        requires
            self.wf(),
        ensures
            r == self@.len(),
            r == self.columns() * self.rows() * 4,
    {
        self.pixels.len()
    }
}

/// Zero bytes for all pixels.
fn zeros(width: u32, height: u32) -> (r: Vec<u8>)
    requires
        width * height * 4 <= usize::MAX,
    ensures
        r@ == Seq::new((width * height * 4) as nat, |i: int| 0u8),
{
    proof {
        vstd::arithmetic::mul::lemma_mul_nonnegative(width as int, height as int);
    }
    let n: usize = (width as usize) * (height as usize) * 4;
    let r: Vec<u8> = vec![0u8; n];
    assert(r@ =~= Seq::new((width * height * 4) as nat, |i: int| 0u8));
    r
}

/// Painting twice in one colour covers what either covers.
proof fn lemma_painted_twice(
    old: Seq<u8>,
    f: spec_fn(int) -> bool,
    g: spec_fn(int) -> bool,
    h: spec_fn(int) -> bool,
    c: Color,
)
    requires
        forall|i: int|
            0 <= i < old.len() ==> #[trigger] h(i / 4) == (f(i / 4) || g(i / 4)),
    ensures
        painted(painted(old, f, c), g, c) == painted(old, h, c),
{
    let a = painted(painted(old, f, c), g, c);
    let b = painted(old, h, c);
    assert forall|i: int| 0 <= i < old.len() implies a[i] == b[i] by {
        assert(h(i / 4) == (f(i / 4) || g(i / 4)));
    }
    assert(a =~= b);
}

/// Properties that agree on all pixels paint alike.
proof fn lemma_painted_same(
    old: Seq<u8>,
    f: spec_fn(int) -> bool,
    g: spec_fn(int) -> bool,
    c: Color,
)
    requires
        forall|i: int| 0 <= i < old.len() ==> #[trigger] f(i / 4) == g(i / 4),
    ensures
        painted(old, f, c) == painted(old, g, c),
{
    assert forall|i: int| 0 <= i < old.len() implies painted(old, f, c)[i] == painted(old, g, c)[i] by {
        assert(f(i / 4) == g(i / 4));
    }
    assert(painted(old, f, c) =~= painted(old, g, c));
}

/// Painting nothing changes nothing.
proof fn lemma_painted_none(old: Seq<u8>, f: spec_fn(int) -> bool, c: Color)
    requires
        forall|i: int| 0 <= i < old.len() ==> !#[trigger] f(i / 4),
    ensures
        painted(old, f, c) == old,
{
    assert forall|i: int| 0 <= i < old.len() implies painted(old, f, c)[i] == old[i] by {
        assert(!f(i / 4));
    }
    assert(painted(old, f, c) =~= old);
}

/// The number of a pixel gives its row and its column.
proof fn lemma_pixel_number(width: int, x: int, y: int)
    requires
        0 <= x < width,
    ensures
        (y * width + x) / width == y,
        (y * width + x) % width == x,
{
    vstd::arithmetic::div_mod::lemma_fundamental_div_mod_converse(y * width + x, width, y, x);
}

/// A pixel within the bounds has a number below the number of pixels.
proof fn lemma_pixel_bound(width: int, height: int, x: int, y: int)
    requires
        0 <= x < width,
        0 <= y < height,
    ensures
        0 <= y * width + x < width * height,
{
    assert(0 <= y * width + x < width * height) by (nonlinear_arith)
        requires
            0 <= x < width,
            0 <= y < height,
    ;
}

/// Sets the pixel with a number.
fn set_pixel(pixels: &mut Vec<u8>, p: usize, c: Color)
    requires
        4 * p + 3 < old(pixels)@.len(),
    ensures
        final(pixels)@ == painted(old(pixels)@, |q: int| q == p, c),
{
    assert(4 * p + 3 < pixels.len());
    let b: usize = 4 * p;
    pixels.set(b, c.0);
    pixels.set(b + 1, c.1);
    pixels.set(b + 2, c.2);
    pixels.set(b + 3, c.3);
    assert(pixels@ =~= painted(old(pixels)@, |q: int| q == p, c));
}

/// The pixels in the rows from `y0` up to `y` and, of row `y`, those from `x0` up to `x`.
spec fn filled_so_far(width: int, x0: int, x1: int, y0: int, y: int, x: int) -> spec_fn(
    int,
) -> bool {
    |p: int|
        (x0 <= p % width < x1 && y0 <= p / width < y) || (x0 <= p % width < x && p / width == y)
}

/// Fills a rectangle that lies within the bounds.
fn fill(pixels: &mut Vec<u8>, width: usize, height: usize, x0: usize, y0: usize, x1: usize, y1: usize, c: Color)
    requires
        old(pixels)@.len() == width * height * 4,
        x0 <= x1 <= width,
        y0 <= y1 <= height,
    ensures
        final(pixels)@ == painted(
            old(pixels)@,
            in_rect(width as int, x0 as int, y0 as int, x1 - x0, y1 - y0),
            c,
        ),
{
    let ghost w = width as int;
    let ghost start = pixels@;
    let total: usize = pixels.len();
    proof {
        lemma_painted_none(
            start,
            filled_so_far(w, x0 as int, x1 as int, y0 as int, y0 as int, x0 as int),
            c,
        );
    }
    let mut y: usize = y0;
    while y < y1
        invariant
            w == width,
            start.len() == width * height * 4,
            total == start.len(),
            x0 <= x1 <= width,
            y0 <= y <= y1 <= height,
            pixels@.len() == start.len(),
            pixels@ == painted(
                start,
                filled_so_far(w, x0 as int, x1 as int, y0 as int, y as int, x0 as int),
                c,
            ),
        decreases y1 - y,
    {
        let mut x: usize = x0;
        while x < x1
            invariant
                w == width,
                start.len() == width * height * 4,
                total == start.len(),
                x0 <= x <= x1 <= width,
                y0 <= y < y1 <= height,
                pixels@.len() == start.len(),
                pixels@ == painted(
                    start,
                    filled_so_far(w, x0 as int, x1 as int, y0 as int, y as int, x as int),
                    c,
                ),
            decreases x1 - x,
        {
            proof {
                lemma_pixel_bound(w, height as int, x as int, y as int);
                lemma_pixel_number(w, x as int, y as int);
                vstd::arithmetic::mul::lemma_mul_nonnegative(y as int, w);
            }
            let p: usize = y * width + x;
            set_pixel(pixels, p, c);
            proof {
                let f = filled_so_far(w, x0 as int, x1 as int, y0 as int, y as int, x as int);
                let g = |q: int| q == p;
                let h = filled_so_far(w, x0 as int, x1 as int, y0 as int, y as int, x + 1);
                assert forall|i: int| 0 <= i < start.len() implies #[trigger] h(i / 4) == (f(i / 4)
                    || g(i / 4)) by {
                    lemma_same_pixel(w, i / 4, x as int, y as int);
                }
                lemma_painted_twice(start, f, g, h, c);
            }
            x = x + 1;
        }
        proof {
            let f = filled_so_far(w, x0 as int, x1 as int, y0 as int, y as int, x1 as int);
            let g = filled_so_far(w, x0 as int, x1 as int, y0 as int, y + 1, x0 as int);
            lemma_painted_same(start, f, g, c);
        }
        y = y + 1;
    }
    proof {
        let f = filled_so_far(w, x0 as int, x1 as int, y0 as int, y1 as int, x0 as int);
        let g = in_rect(w, x0 as int, y0 as int, x1 - x0, y1 - y0);
        lemma_painted_same(start, f, g, c);
    }
}

/// A pixel is known by its row and its column.
proof fn lemma_same_pixel(width: int, p: int, x: int, y: int)
    requires
        0 <= x < width,
    ensures
        p == y * width + x <==> p / width == y && p % width == x,
{
    lemma_pixel_number(width, x, y);
    vstd::arithmetic::div_mod::lemma_fundamental_div_mod(p, width);
    vstd::arithmetic::mul::lemma_mul_is_commutative(width, p / width);
}

/// A coordinate moved into the range from 0 to a limit.
fn clamped(v: i64, limit: u32) -> (r: usize)
    ensures
        r == if v < 0 { 0 } else if v > limit { limit as int } else { v as int },
{
    if v < 0 {
        0
    } else if v > limit as i64 {
        limit as usize
    } else {
        v as usize
    }
}

impl Framebuffer {
    /// `new` is the buffer with some pixels set to a colour.
    pub open spec fn paints(&self, new: &Framebuffer, covered: spec_fn(int) -> bool, c: Color) -> bool {
        &&& new.wf()
        &&& new.columns() == self.columns()
        &&& new.rows() == self.rows()
        &&& new@ == painted(self@, covered, c)
    }

    /// Fills the whole buffer with one colour.
    pub fn clear(&mut self, c: Color)
        requires
            old(self).wf(),
        ensures
            old(self).paints(final(self), |p: int| true, c),
    {
        let w: usize = self.width as usize;
        let h: usize = self.height as usize;
        fill(&mut self.pixels, w, h, 0, 0, w, h, c);
        proof {
            lemma_all_in_rect(old(self).pixels@, self.width as int, self.height as int, c);
        }
    }

    /// Sets a pixel. One that is out of bounds is dropped.
    pub fn put(&mut self, x: i32, y: i32, c: Color)
        requires
            old(self).wf(),
        ensures
            old(self).paints(
                final(self),
                in_rect(old(self).columns(), x as int, y as int, 1, 1),
                c,
            ),
    {
        self.area(x as i64, y as i64, 1, 1, c);
    }

    /// Fills the part of a rectangle that lies within the bounds.
    fn area(&mut self, x: i64, y: i64, w: i64, h: i64, c: Color)
        requires
            old(self).wf(),
            w >= 0,
            h >= 0,
            x + w <= i64::MAX,
            y + h <= i64::MAX,
        ensures
            old(self).paints(
                final(self),
                in_rect(old(self).columns(), x as int, y as int, w as int, h as int),
                c,
            ),
    {
        let x0: usize = clamped(x, self.width);
        let y0: usize = clamped(y, self.height);
        let x1: usize = clamped(x + w, self.width);
        let y1: usize = clamped(y + h, self.height);
        let width: usize = self.width as usize;
        let height: usize = self.height as usize;
        fill(&mut self.pixels, width, height, x0, y0, x1, y1, c);
        proof {
            lemma_clipped(
                old(self).pixels@,
                self.width as int,
                self.height as int,
                x as int,
                y as int,
                w as int,
                h as int,
                c,
            );
        }
    }

    /// Fills a rectangle, clipped to the bounds. One without width or height is dropped.
    pub fn rect(&mut self, x: i32, y: i32, w: i32, h: i32, c: Color)
        requires
            old(self).wf(),
        ensures
            old(self).paints(
                final(self),
                in_rect(old(self).columns(), x as int, y as int, w as int, h as int),
                c,
            ),
    {
        self.rect_at(x as i64, y as i64, w as i64, h as i64, c);
    }

    /// Fills a rectangle that is placed in wider numbers.
    pub(crate) fn rect_at(&mut self, x: i64, y: i64, w: i64, h: i64, c: Color)
        requires
            old(self).wf(),
            x + w <= i64::MAX,
            y + h <= i64::MAX,
        ensures
            old(self).paints(
                final(self),
                in_rect(old(self).columns(), x as int, y as int, w as int, h as int),
                c,
            ),
    {
        if w <= 0 || h <= 0 {
            proof {
                lemma_painted_none(
                    self@,
                    in_rect(self.columns(), x as int, y as int, w as int, h as int),
                    c,
                );
            }
            return;
        }
        self.area(x, y, w, h, c);
    }

    /// Draws the outline of a rectangle, one pixel thick.
    pub fn rect_outline(&mut self, x: i32, y: i32, w: i32, h: i32, c: Color)
        requires
            old(self).wf(),
        ensures
            old(self).paints(
                final(self),
                on_outline(old(self).columns(), x as int, y as int, w as int, h as int),
                c,
            ),
    {
        self.outline_at(x as i64, y as i64, w as i64, h as i64, c);
    }

    /// Draws the outline of a rectangle that is placed in wider numbers.
    pub(crate) fn outline_at(&mut self, x: i64, y: i64, w: i64, h: i64, c: Color)
        requires
            old(self).wf(),
            x + w < i64::MAX,
            y + h < i64::MAX,
        ensures
            old(self).paints(
                final(self),
                on_outline(old(self).columns(), x as int, y as int, w as int, h as int),
                c,
            ),
    {
        let ghost n = self.columns();
        let ghost b0 = self@;
        let ghost f = on_outline(n, x as int, y as int, w as int, h as int);
        if w <= 0 || h <= 0 {
            proof {
                lemma_painted_none(b0, f, c);
            }
            return;
        }
        self.area(x, y, w, 1, c);
        self.area(x, y + h - 1, w, 1, c);
        self.area(x, y, 1, h, c);
        self.area(x + w - 1, y, 1, h, c);
        proof {
            let top = in_rect(n, x as int, y as int, w as int, 1);
            let bottom = in_rect(n, x as int, y + h - 1, w as int, 1);
            let left = in_rect(n, x as int, y as int, 1, h as int);
            let right = in_rect(n, x + w - 1, y as int, 1, h as int);
            let two = |p: int| top(p) || bottom(p);
            let three = |p: int| two(p) || left(p);
            lemma_painted_twice(b0, top, bottom, two, c);
            lemma_painted_twice(b0, two, left, three, c);
            lemma_painted_twice(b0, three, right, f, c);
        }
    }
}

/// All pixels lie in the rectangle that fills the buffer.
proof fn lemma_all_in_rect(old: Seq<u8>, width: int, height: int, c: Color)
    requires
        old.len() == width * height * 4,
        width >= 0,
        height >= 0,
    ensures
        painted(old, in_rect(width, 0, 0, width, height), c) == painted(old, |p: int| true, c),
{
    let f = in_rect(width, 0, 0, width, height);
    let g = |p: int| true;
    assert forall|i: int| 0 <= i < old.len() implies #[trigger] f(i / 4) == g(i / 4) by {
        lemma_pixel_in_bounds(width, height, i);
    }
    lemma_painted_same(old, f, g, c);
}

/// The pixel of a byte lies within the bounds.
proof fn lemma_pixel_in_bounds(width: int, height: int, i: int)
    requires
        0 <= i < width * height * 4,
        width >= 0,
        height >= 0,
    ensures
        width > 0,
        0 <= (i / 4) % width < width,
        0 <= (i / 4) / width < height,
{
    assert(width > 0) by (nonlinear_arith)
        requires
            0 <= i < width * height * 4,
            width >= 0,
            height >= 0,
    ;
    let p = i / 4;
    assert(p < width * height);
    vstd::arithmetic::div_mod::lemma_mod_bound(p, width);
    vstd::arithmetic::div_mod::lemma_div_pos_is_pos(p, width);
    vstd::arithmetic::mul::lemma_mul_is_commutative(width, height);
    vstd::arithmetic::div_mod::lemma_multiply_divide_lt(p, width, height);
}

/// Clipping a rectangle to the bounds does not change what it covers.
proof fn lemma_clipped(
    old: Seq<u8>,
    width: int,
    height: int,
    x: int,
    y: int,
    w: int,
    h: int,
    c: Color,
)
    requires
        old.len() == width * height * 4,
        width >= 0,
        height >= 0,
        w >= 0,
        h >= 0,
    ensures
        ({
            let x0 = if x < 0 { 0 } else if x > width { width } else { x };
            let y0 = if y < 0 { 0 } else if y > height { height } else { y };
            let x1 = if x + w < 0 { 0 } else if x + w > width { width } else { x + w };
            let y1 = if y + h < 0 { 0 } else if y + h > height { height } else { y + h };
            painted(old, in_rect(width, x0, y0, x1 - x0, y1 - y0), c) == painted(
                old,
                in_rect(width, x, y, w, h),
                c,
            )
        }),
{
    let x0 = if x < 0 { 0 } else if x > width { width } else { x };
    let y0 = if y < 0 { 0 } else if y > height { height } else { y };
    let x1 = if x + w < 0 { 0 } else if x + w > width { width } else { x + w };
    let y1 = if y + h < 0 { 0 } else if y + h > height { height } else { y + h };
    let f = in_rect(width, x0, y0, x1 - x0, y1 - y0);
    let g = in_rect(width, x, y, w, h);
    assert forall|i: int| 0 <= i < old.len() implies #[trigger] f(i / 4) == g(i / 4) by {
        lemma_pixel_in_bounds(width, height, i);
    }
    lemma_painted_same(old, f, g, c);
}

/// The pixels of a glyph in the rows above `row` and, in that row, left of `col`.
spec fn glyph_so_far(width: int, x: int, y: int, ch: char, row: int, col: int) -> spec_fn(
    int,
) -> bool {
    |p: int|
        in_glyph(width, x, y, ch)(p) && (p / width - y < row || (p / width - y == row && p % width
            - x < col))
}

/// The pixels of the first `n` glyphs of a line of text.
spec fn text_so_far(width: int, x: int, y: int, s: Seq<char>, n: int) -> spec_fn(int) -> bool {
    |p: int| exists|k: int| 0 <= k < n && #[trigger] in_glyph(width, x + 8 * k, y, s[k])(p)
}

impl Framebuffer {
    fn glyph_at(&mut self, x: i64, y: i64, ch: char, c: Color)
        requires
            old(self).wf(),
            x + 9 <= i64::MAX,
            y + 9 <= i64::MAX,
        ensures
            old(self).paints(
                final(self),
                in_glyph(old(self).columns(), x as int, y as int, ch),
                c,
            ),
    {
        let ghost n = self.columns();
        let ghost start = self@;
        let ghost height = self.rows();
        proof {
            lemma_painted_none(start, glyph_so_far(n, x as int, y as int, ch, 0, 0), c);
        }
        let mut row: u8 = 0;
        while row < 8
            invariant
                self.wf(),
                self.columns() == n,
                self.rows() == height,
                row <= 8,
                x + 9 <= i64::MAX,
                y + 9 <= i64::MAX,
                self@ == painted(
                    start,
                    glyph_so_far(n, x as int, y as int, ch, row as int, 0),
                    c,
                ),
            decreases 8 - row,
        {
            let mut col: u8 = 0;
            while col < 8
                invariant
                    self.wf(),
                    self.columns() == n,
                    self.rows() == height,
                    row < 8,
                    col <= 8,
                    x + 9 <= i64::MAX,
                    y + 9 <= i64::MAX,
                    self@ == painted(
                        start,
                        glyph_so_far(n, x as int, y as int, ch, row as int, col as int),
                        c,
                    ),
                decreases 8 - col,
            {
                let ghost f = glyph_so_far(n, x as int, y as int, ch, row as int, col as int);
                let ghost h = glyph_so_far(n, x as int, y as int, ch, row as int, col + 1);
                if font::is_set(ch, row, col) {
                    self.area(x + col as i64, y + row as i64, 1, 1, c);
                    proof {
                        let g = in_rect(n, x + col, y + row, 1, 1);
                        assert forall|i: int| 0 <= i < start.len() implies #[trigger] h(i / 4) == (
                        f(i / 4) || g(i / 4)) by {}
                        lemma_painted_twice(start, f, g, h, c);
                    }
                } else {
                    proof {
                        lemma_painted_same(start, f, h, c);
                    }
                }
                col = col + 1;
            }
            proof {
                lemma_painted_same(
                    start,
                    glyph_so_far(n, x as int, y as int, ch, row as int, 8),
                    glyph_so_far(n, x as int, y as int, ch, row + 1, 0),
                    c,
                );
            }
            row = row + 1;
        }
        proof {
            lemma_painted_same(
                start,
                glyph_so_far(n, x as int, y as int, ch, 8, 0),
                in_glyph(n, x as int, y as int, ch),
                c,
            );
        }
    }

    /// Draws the glyph of a character, clipped to the bounds.
    pub fn glyph(&mut self, x: i32, y: i32, ch: char, c: Color)
        requires
            old(self).wf(),
        ensures
            old(self).paints(
                final(self),
                in_glyph(old(self).columns(), x as int, y as int, ch),
                c,
            ),
    {
        self.glyph_at(x as i64, y as i64, ch, c);
    }

    /// Draws a line of text, clipped to the bounds. Each character advances by eight pixels.
    pub fn text(&mut self, x: i32, y: i32, s: &str, c: Color)
        requires
            old(self).wf(),
        ensures
            old(self).paints(
                final(self),
                in_text(old(self).columns(), x as int, y as int, s@),
                c,
            ),
    {
        self.text_at(x as i64, y as i64, s, c);
    }

    /// Draws a line of text that is placed in wider numbers.
    pub(crate) fn text_at(&mut self, x: i64, y: i64, s: &str, c: Color)
        requires
            old(self).wf(),
            x + 9 <= i64::MAX,
            y + 9 <= i64::MAX,
        ensures
            old(self).paints(
                final(self),
                in_text(old(self).columns(), x as int, y as int, s@),
                c,
            ),
    {
        let ghost n = self.columns();
        let ghost start = self@;
        let ghost height = self.rows();
        let chars: Vec<char> = text::characters(s);
        proof {
            lemma_painted_none(start, text_so_far(n, x as int, y as int, s@, 0), c);
        }
        let edge: i64 = self.width as i64;
        let mut cx: i64 = x;
        let mut k: usize = 0;
        while k < chars.len() && cx < edge
            invariant
                self.wf(),
                self.columns() == n,
                self.rows() == height,
                edge == n,
                n <= u32::MAX,
                start.len() == n * height * 4,
                0 <= height,
                chars@ == s@,
                k <= s@.len(),
                cx == x + 8 * k,
                cx < edge + 8 || k == 0,
                x + 9 <= i64::MAX,
                y + 9 <= i64::MAX,
                self@ == painted(start, text_so_far(n, x as int, y as int, s@, k as int), c),
            decreases s@.len() - k,
        {
            let ch: char = chars[k];
            self.glyph_at(cx, y, ch, c);
            proof {
                let f = text_so_far(n, x as int, y as int, s@, k as int);
                let g = in_glyph(n, cx as int, y as int, ch);
                let h = text_so_far(n, x as int, y as int, s@, k + 1);
                assert forall|i: int| 0 <= i < start.len() implies #[trigger] h(i / 4) == (f(i / 4)
                    || g(i / 4)) by {
                    let p = i / 4;
                    if g(p) {
                        assert(in_glyph(n, x + 8 * k as int, y as int, s@[k as int])(p));
                    }
                    if h(p) {
                        let j = choose|j: int|
                            0 <= j < k + 1 && #[trigger] in_glyph(n, x + 8 * j, y as int, s@[j])(p);
                        if j < k {
                            assert(in_glyph(n, x + 8 * j, y as int, s@[j])(p));
                        }
                    }
                    if f(p) {
                        let j = choose|j: int|
                            0 <= j < k && #[trigger] in_glyph(n, x + 8 * j, y as int, s@[j])(p);
                        assert(in_glyph(n, x + 8 * j, y as int, s@[j])(p));
                    }
                }
                lemma_painted_twice(start, f, g, h, c);
            }
            cx = cx + 8;
            k = k + 1;
        }
        proof {
            let f = text_so_far(n, x as int, y as int, s@, k as int);
            let g = in_text(n, x as int, y as int, s@);
            assert forall|i: int| 0 <= i < start.len() implies #[trigger] f(i / 4) == g(i / 4) by {
                let p = i / 4;
                lemma_pixel_in_bounds(n, height, i);
                if g(p) {
                    let j = choose|j: int|
                        0 <= j < s@.len() && #[trigger] in_glyph(n, x + 8 * j, y as int, s@[j])(p);
                    assert(j < k);
                }
                if f(p) {
                    let j = choose|j: int|
                        0 <= j < k && #[trigger] in_glyph(n, x + 8 * j, y as int, s@[j])(p);
                    assert(in_glyph(n, x + 8 * j, y as int, s@[j])(p));
                }
            }
            lemma_painted_same(start, f, g, c);
        }
    }

    /// Width in pixels of a line of text.
    pub fn text_width(s: &str) -> (r: i32)
        requires
            8 * s@.len() <= i32::MAX,
        ensures
            r == 8 * s@.len(),
    {
        (s.unicode_len() as i32) * 8
    }
}

/// A primitive leaves every pixel alone that it does not cover, and sets every other to
/// its colour.
pub proof fn law_primitives_touch_covered_pixels_only(
    before: Framebuffer,
    after: Framebuffer,
    covered: spec_fn(int) -> bool,
    c: Color,
    i: int,
)
    requires
        before.paints(&after, covered, c),
        0 <= i < before@.len(),
    ensures
        !covered(i / 4) ==> after@[i] == before@[i],
        covered(i / 4) ==> after@[i] == c.channel(i % 4),
        after@.len() == before@.len(),
{
}

/// Drawing the same thing twice is the same as drawing it once.
pub proof fn law_drawing_is_idempotent(
    b0: Framebuffer,
    b1: Framebuffer,
    b2: Framebuffer,
    covered: spec_fn(int) -> bool,
    c: Color,
)
    requires
        b0.paints(&b1, covered, c),
        b1.paints(&b2, covered, c),
    ensures
        b2@ == b1@,
{
    assert(b2@ =~= b1@);
}

} // verus!
