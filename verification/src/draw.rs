//! Software rendering of the zone chooser into a premultiplied ARGB pixel buffer
//! of `width * height` pixels, four bytes per pixel, rows top to bottom.

use vstd::prelude::*;
use vstd::arithmetic::div_mod::{lemma_fundamental_div_mod, lemma_fundamental_div_mod_converse};

verus! {

/// A rectangle of whole pixels: columns `x0..x1`, rows `y0..y1`.
#[derive(Debug, Clone, Copy, PartialEq, Eq, Structural)]
pub struct PixelRect {
    pub x0: i32,
    pub y0: i32,
    pub x1: i32,
    pub y1: i32,
}

/// Integer division by two, rounding toward zero as Rust's `/` does.
pub open spec fn half_toward_zero(v: int) -> int {
    if v >= 0 {
        v / 2
    } else {
        -((-v) / 2)
    }
}

/// Division rounding toward zero, as Rust's `/` on signed integers.
pub open spec fn div_toward_zero(v: int, d: int) -> int {
    if v >= 0 {
        v / d
    } else {
        -((-v) / d)
    }
}

pub open spec fn fits_i32(v: int) -> bool {
    i32::MIN <= v <= i32::MAX
}

impl PixelRect {
    /// The middle pixel of the rectangle.
    pub fn center(self) -> (r: (i32, i32))
        requires
            fits_i32(self.x0 + self.x1),
            fits_i32(self.y0 + self.y1),
        ensures
            r.0 == half_toward_zero(self.x0 + self.x1),
            r.1 == half_toward_zero(self.y0 + self.y1),
    {
        ((self.x0 + self.x1) / 2, (self.y0 + self.y1) / 2)
    }
}

/// `v` limited to `lo..=hi`.
pub open spec fn clamp_int(v: int, lo: int, hi: int) -> int {
    if v < lo {
        lo
    } else if v > hi {
        hi
    } else {
        v
    }
}

/// `Ord::clamp` on `i32`.
pub fn clamp_i32(v: i32, lo: i32, hi: i32) -> (r: i32)
    requires
        lo <= hi,
    ensures
        r == clamp_int(v as int, lo as int, hi as int),
{
    if v < lo {
        lo
    } else if v > hi {
        hi
    } else {
        v
    }
}

/// The pixel that byte `i` of a buffer `w` pixels wide belongs to lies in columns
/// `x0..x1` and rows `y0..y1`.
pub open spec fn in_box(i: int, w: int, x0: int, x1: int, y0: int, y1: int) -> bool {
    &&& w > 0
    &&& x0 <= (i / 4) % w < x1
    &&& y0 <= (i / 4) / w < y1
}

/// The columns and rows of `b` that lie inside a `w` by `h` buffer.
pub open spec fn clamped(w: int, h: int, b: PixelRect) -> (int, int, int, int) {
    (clamp_int(b.x0 as int, 0, w), clamp_int(b.x1 as int, 0, w), clamp_int(b.y0 as int, 0, h), clamp_int(b.y1 as int, 0, h))
}

/// The buffer after filling the part of `b` inside the buffer with `color`.
pub open spec fn painted(c: Seq<u8>, w: int, h: int, b: PixelRect, color: [u8; 4]) -> Seq<u8> {
    let (x0, x1, y0, y1) = clamped(w, h, b);
    Seq::new(c.len(), |i: int| if in_box(i, w, x0, x1, y0, y1) { color@[i % 4] } else { c[i] })
}

/// Every byte that filling `b` writes lies in a buffer of `len` bytes.
pub open spec fn fill_fits(len: int, w: int, h: int, b: PixelRect) -> bool {
    let (x0, x1, y0, y1) = clamped(w, h, b);
    x0 >= x1 || y0 >= y1 || ((y1 - 1) * w + x1) * 4 <= len
}

/// A buffer of `width * height` pixels has room for any fill.
pub proof fn lemma_full_buffer_fits(len: int, w: int, h: int, b: PixelRect)
    requires
        w >= 0,
        h >= 0,
        len >= w * h * 4,
    ensures
        fill_fits(len, w, h, b),
{
    let (x0, x1, y0, y1) = clamped(w, h, b);
    if x0 < x1 && y0 < y1 {
        assert(((y1 - 1) * w + x1) * 4 <= w * h * 4) by (nonlinear_arith)
            requires
                1 <= y1 <= h,
                x1 <= w,
                w >= 0,
        ;
    }
}

proof fn lemma_pixel_bytes(i: int, w: int, x: int, y: int)
    requires
        w > 0,
        0 <= x < w,
        y >= 0,
        i >= 0,
    ensures
        ((i / 4) % w == x && (i / 4) / w == y) <==> ((y * w + x) * 4 <= i < (y * w + x) * 4 + 4),
{
    lemma_fundamental_div_mod(i, 4);
    let p = i / 4;
    lemma_fundamental_div_mod(p, w);
    if (y * w + x) * 4 <= i < (y * w + x) * 4 + 4 {
        lemma_fundamental_div_mod_converse(i, 4, y * w + x, i - (y * w + x) * 4);
        lemma_fundamental_div_mod_converse(y * w + x, w, y, x);
    }
    if (i / 4) % w == x && (i / 4) / w == y {
        assert(p == w * y + x);
        assert(i == 4 * p + i % 4);
        assert(0 <= i % 4 < 4);
        assert((y * w + x) * 4 <= i < (y * w + x) * 4 + 4) by (nonlinear_arith)
            requires
                p == w * y + x,
                i == 4 * p + i % 4,
                0 <= i % 4 < 4,
        ;
    }
}

/// Writes one pixel.
fn put_pixel(canvas: &mut [u8], offset: usize, color: [u8; 4])
    requires
        offset + 4 <= old(canvas)@.len(),
    ensures
        final(canvas)@.len() == old(canvas)@.len(),
        forall|i: int|
            0 <= i < old(canvas)@.len() ==> #[trigger] final(canvas)@[i] == if offset <= i < offset + 4 {
                color@[i - offset]
            } else {
                old(canvas)@[i]
            },
{
    canvas[offset] = color[0];
    canvas[offset + 1] = color[1];
    canvas[offset + 2] = color[2];
    canvas[offset + 3] = color[3];
}

/// Fills the part of `bounds` that lies inside the buffer with `color`.
pub fn fill_rect(canvas: &mut [u8], size: (u32, u32), bounds: PixelRect, color: [u8; 4])
    requires
        size.0 <= i32::MAX,
        size.1 <= i32::MAX,
        fill_fits(old(canvas)@.len() as int, size.0 as int, size.1 as int, bounds),
    ensures
        final(canvas)@ == painted(old(canvas)@, size.0 as int, size.1 as int, bounds, color),
{
    let (width, height) = size;
    let x0 = clamp_i32(bounds.x0, 0, width as i32);
    let x1 = clamp_i32(bounds.x1, 0, width as i32);
    let y0 = clamp_i32(bounds.y0, 0, height as i32);
    let y1 = clamp_i32(bounds.y1, 0, height as i32);
    let ghost w = width as int;
    let ghost start = canvas@;
    let n = canvas.len();
    let ghost len = start.len() as int;
    assert(len == n);
    let mut y = y0;
    while y < y1
        invariant
            w == width as int,
            len == canvas@.len(),
            len == n,
            0 <= x0 <= w,
            0 <= x1 <= w,
            0 <= y0 <= size.1,
            0 <= y1 <= size.1,
            y0 <= y,
            y0 < y1 ==> y <= y1,
            y0 >= y1 ==> y == y0,
            x0 >= x1 || y0 >= y1 || ((y1 - 1) * w + x1) * 4 <= len,
            canvas@ == Seq::new(
                start.len(),
                |i: int| if in_box(i, w, x0 as int, x1 as int, y0 as int, y as int) { color@[i % 4] } else { start[i] },
            ),
        decreases y1 - y,
    {
        let mut x = x0;
        while x < x1
            invariant
                w == width as int,
                len == canvas@.len(),
                len == n,
                0 <= x0 <= w,
                0 <= x1 <= w,
                0 <= y0 <= y < y1 <= size.1,
                x0 <= x,
                x0 < x1 ==> x <= x1,
                x0 >= x1 ==> x == x0,
                x0 >= x1 || ((y1 - 1) * w + x1) * 4 <= len,
                canvas@ == Seq::new(
                    start.len(),
                    |i: int|
                        if in_box(i, w, x0 as int, x1 as int, y0 as int, y as int) || in_box(
                            i,
                            w,
                            x0 as int,
                            x as int,
                            y as int,
                            y + 1,
                        ) {
                            color@[i % 4]
                        } else {
                            start[i]
                        },
                ),
            decreases x1 - x,
        {
            assert((y * w + x) * 4 + 4 <= ((y1 - 1) * w + x1) * 4) by (nonlinear_arith)
                requires
                    0 <= y <= y1 - 1,
                    0 <= x < x1 <= w,
            ;
            assert(0 <= y * w <= y * w + x) by (nonlinear_arith)
                requires
                    0 <= y,
                    0 <= w,
                    0 <= x,
            ;
            let offset = (y as usize * width as usize + x as usize) * 4;
            let ghost prev = canvas@;
            put_pixel(canvas, offset, color);
            assert forall|i: int| 0 <= i < start.len() implies #[trigger] canvas@[i] == (if in_box(
                i,
                w,
                x0 as int,
                x1 as int,
                y0 as int,
                y as int,
            ) || in_box(i, w, x0 as int, x as int + 1, y as int, y + 1) {
                color@[i % 4]
            } else {
                start[i]
            }) by {
                lemma_pixel_bytes(i, w, x as int, y as int);
                if offset <= i < offset + 4 {
                    lemma_fundamental_div_mod_converse(i, 4, y * w + x, i - offset);
                }
            }
            assert(canvas@ =~= Seq::new(
                start.len(),
                |i: int|
                    if in_box(i, w, x0 as int, x1 as int, y0 as int, y as int) || in_box(
                        i,
                        w,
                        x0 as int,
                        x as int + 1,
                        y as int,
                        y + 1,
                    ) {
                        color@[i % 4]
                    } else {
                        start[i]
                    },
            ));
            x = x + 1;
        }
        assert(canvas@ =~= Seq::new(
            start.len(),
            |i: int| if in_box(i, w, x0 as int, x1 as int, y0 as int, y as int + 1) { color@[i % 4] } else { start[i] },
        )) by {
            assert forall|i: int| 0 <= i < start.len() implies (in_box(i, w, x0 as int, x1 as int, y0 as int, y as int) || in_box(
                i,
                w,
                x0 as int,
                x as int,
                y as int,
                y + 1,
            )) == in_box(i, w, x0 as int, x1 as int, y0 as int, y as int + 1) by {}
        }
        y = y + 1;
    }
    assert(canvas@ =~= painted(start, w, size.1 as int, bounds, color));
}


/// The buffer after filling each rectangle of `rects` in turn.
pub open spec fn painted_all(c: Seq<u8>, w: int, h: int, rects: Seq<PixelRect>, color: [u8; 4]) -> Seq<u8>
    decreases rects.len(),
{
    if rects.len() == 0 {
        c
    } else {
        painted(painted_all(c, w, h, rects.drop_last(), color), w, h, rects.last(), color)
    }
}

proof fn lemma_painted_all_len(c: Seq<u8>, w: int, h: int, rects: Seq<PixelRect>, color: [u8; 4])
    ensures
        painted_all(c, w, h, rects, color).len() == c.len(),
    decreases rects.len(),
{
    if rects.len() > 0 {
        lemma_painted_all_len(c, w, h, rects.drop_last(), color);
    }
}

/// The four bands of width `t` along the edges of `b`: top, bottom, left, right.
pub open spec fn stroke_bands(b: PixelRect, t: i32) -> Seq<PixelRect> {
    seq![
        PixelRect { x0: b.x0, y0: b.y0, x1: b.x1, y1: (b.y0 + t) as i32 },
        PixelRect { x0: b.x0, y0: (b.y1 - t) as i32, x1: b.x1, y1: b.y1 },
        PixelRect { x0: b.x0, y0: b.y0, x1: (b.x0 + t) as i32, y1: b.y1 },
        PixelRect { x0: (b.x1 - t) as i32, y0: b.y0, x1: b.x1, y1: b.y1 },
    ]
}

/// The band edges of a stroke are representable.
pub open spec fn stroke_fits(b: PixelRect, t: i32) -> bool {
    fits_i32(b.y0 + t) && fits_i32(b.y1 - t) && fits_i32(b.x0 + t) && fits_i32(b.x1 - t)
}

/// Draws a border of thickness `thickness` just inside the edges of `bounds`.
pub fn stroke_rect(canvas: &mut [u8], size: (u32, u32), bounds: PixelRect, thickness: i32, color: [u8; 4])
    requires
        size.0 <= i32::MAX,
        size.1 <= i32::MAX,
        stroke_fits(bounds, thickness),
        forall|k: int|
            0 <= k < 4 ==> fill_fits(
                old(canvas)@.len() as int,
                size.0 as int,
                size.1 as int,
                #[trigger] stroke_bands(bounds, thickness)[k],
            ),
    ensures
        final(canvas)@ == painted_all(
            old(canvas)@,
            size.0 as int,
            size.1 as int,
            stroke_bands(bounds, thickness),
            color,
        ),
{
    let ghost start = canvas@;
    let ghost w = size.0 as int;
    let ghost h = size.1 as int;
    let ghost bands = stroke_bands(bounds, thickness);
    let PixelRect { x0, y0, x1, y1 } = bounds;
    assert(fill_fits(start.len() as int, w, h, bands[0]));
    fill_rect(canvas, size, PixelRect { x0, y0, x1, y1: y0 + thickness }, color);
    assert(fill_fits(start.len() as int, w, h, bands[1]));
    fill_rect(canvas, size, PixelRect { x0, y0: y1 - thickness, x1, y1 }, color);
    assert(fill_fits(start.len() as int, w, h, bands[2]));
    fill_rect(canvas, size, PixelRect { x0, y0, x1: x0 + thickness, y1 }, color);
    assert(fill_fits(start.len() as int, w, h, bands[3]));
    fill_rect(canvas, size, PixelRect { x0: x1 - thickness, y0, x1, y1 }, color);
    proof {
        assert(bands.drop_last().drop_last().drop_last().drop_last() =~= Seq::<PixelRect>::empty());
        assert(bands.drop_last().drop_last().drop_last() =~= seq![bands[0]]);
        assert(bands.drop_last().drop_last() =~= seq![bands[0], bands[1]]);
        assert(bands.drop_last() =~= seq![bands[0], bands[1], bands[2]]);
        reveal_with_fuel(painted_all, 5);
    }
}

/// The rows of the 5 by 7 bitmap of each decimal digit; bit 4 is the leftmost column.
pub open spec fn glyph_rows(digit: u8) -> Seq<u8> {
    if digit == 0 {
        seq![0b11111u8, 0b10001, 0b10011, 0b10101, 0b11001, 0b10001, 0b11111]
    } else if digit == 1 {
        seq![0b00100u8, 0b01100, 0b10100, 0b00100, 0b00100, 0b00100, 0b11111]
    } else if digit == 2 {
        seq![0b11110u8, 0b00001, 0b00001, 0b11110, 0b10000, 0b10000, 0b11111]
    } else if digit == 3 {
        seq![0b11110u8, 0b00001, 0b00001, 0b01110, 0b00001, 0b00001, 0b11110]
    } else if digit == 4 {
        seq![0b10010u8, 0b10010, 0b10010, 0b11111, 0b00010, 0b00010, 0b00010]
    } else if digit == 5 {
        seq![0b11111u8, 0b10000, 0b10000, 0b11110, 0b00001, 0b00001, 0b11110]
    } else if digit == 6 {
        seq![0b01111u8, 0b10000, 0b10000, 0b11110, 0b10001, 0b10001, 0b01110]
    } else if digit == 7 {
        seq![0b11111u8, 0b00001, 0b00010, 0b00100, 0b01000, 0b01000, 0b01000]
    } else if digit == 8 {
        seq![0b01110u8, 0b10001, 0b10001, 0b01110, 0b10001, 0b10001, 0b01110]
    } else {
        seq![0b01110u8, 0b10001, 0b10001, 0b01111, 0b00001, 0b00001, 0b11110]
    }
}

fn glyph(digit: u8) -> (r: [u8; 7])
    requires
        digit <= 9,
    ensures
        r@ == glyph_rows(digit),
{
    let g: [u8; 7] = if digit == 0 {
        [0b11111, 0b10001, 0b10011, 0b10101, 0b11001, 0b10001, 0b11111]
    } else if digit == 1 {
        [0b00100, 0b01100, 0b10100, 0b00100, 0b00100, 0b00100, 0b11111]
    } else if digit == 2 {
        [0b11110, 0b00001, 0b00001, 0b11110, 0b10000, 0b10000, 0b11111]
    } else if digit == 3 {
        [0b11110, 0b00001, 0b00001, 0b01110, 0b00001, 0b00001, 0b11110]
    } else if digit == 4 {
        [0b10010, 0b10010, 0b10010, 0b11111, 0b00010, 0b00010, 0b00010]
    } else if digit == 5 {
        [0b11111, 0b10000, 0b10000, 0b11110, 0b00001, 0b00001, 0b11110]
    } else if digit == 6 {
        [0b01111, 0b10000, 0b10000, 0b11110, 0b10001, 0b10001, 0b01110]
    } else if digit == 7 {
        [0b11111, 0b00001, 0b00010, 0b00100, 0b01000, 0b01000, 0b01000]
    } else if digit == 8 {
        [0b01110, 0b10001, 0b10001, 0b01110, 0b10001, 0b10001, 0b01110]
    } else {
        [0b01110, 0b10001, 0b10001, 0b01111, 0b00001, 0b00001, 0b11110]
    };
    assert(g@ =~= glyph_rows(digit));
    g
}

/// Column `column` (0 is leftmost) of a glyph row is set.
pub open spec fn glyph_bit(bits: u8, column: int) -> bool {
    bits & (1u8 << ((4 - column) as u8)) != 0
}

/// The top-left corner of a digit drawn at `center` with cells of `scale` pixels.
pub open spec fn digit_origin(center: (i32, i32), scale: i32) -> (int, int) {
    (
        center.0 - half_toward_zero(5 * scale),
        center.1 - half_toward_zero(7 * scale),
    )
}

/// The pixel cell of glyph row `row`, column `column`.
pub open spec fn digit_cell(center: (i32, i32), scale: i32, row: int, column: int) -> PixelRect {
    let (sx, sy) = digit_origin(center, scale);
    PixelRect {
        x0: (sx + column * scale) as i32,
        y0: (sy + row * scale) as i32,
        x1: (sx + column * scale + scale) as i32,
        y1: (sy + row * scale + scale) as i32,
    }
}

/// The set cells of the first `k` cells of a digit, in row-major order.
pub open spec fn digit_cells(digit: u8, center: (i32, i32), scale: i32, k: nat) -> Seq<PixelRect>
    decreases k,
{
    if k == 0 {
        Seq::empty()
    } else {
        let j = (k - 1) as int;
        let prev = digit_cells(digit, center, scale, (k - 1) as nat);
        if glyph_bit(glyph_rows(digit)[j / 5], j % 5) {
            prev.push(digit_cell(center, scale, j / 5, j % 5))
        } else {
            prev
        }
    }
}

/// The arithmetic that places a digit's cells stays within `i32`.
pub open spec fn digit_fits(center: (i32, i32), scale: i32) -> bool {
    let (sx, sy) = digit_origin(center, scale);
    &&& fits_i32(7 * scale)
    &&& fits_i32(sx)
    &&& fits_i32(sy)
    &&& fits_i32(sx + 5 * scale)
    &&& fits_i32(sy + 7 * scale)
}

fn glyph_bit_exec(bits: u8, column: i32) -> (r: bool)
    requires
        0 <= column < 5,
    ensures
        r == glyph_bit(bits, column as int),
{
    bits & (1u8 << ((4 - column) as u8)) != 0
}

/// Draws decimal digit `digit` as a 5 by 7 grid of `scale`-pixel cells centered on `center`.
pub fn draw_digit(canvas: &mut [u8], size: (u32, u32), digit: u8, center: (i32, i32), scale: i32, color: [u8; 4])
    requires
        digit <= 9,
        size.0 <= i32::MAX,
        size.1 <= i32::MAX,
        digit_fits(center, scale),
        forall|r: int, c: int|
            0 <= r < 7 && 0 <= c < 5 ==> fill_fits(
                old(canvas)@.len() as int,
                size.0 as int,
                size.1 as int,
                #[trigger] digit_cell(center, scale, r, c),
            ),
    ensures
        final(canvas)@ == painted_all(
            old(canvas)@,
            size.0 as int,
            size.1 as int,
            digit_cells(digit, center, scale, 35),
            color,
        ),
{
    let ghost start = canvas@;
    let ghost w = size.0 as int;
    let ghost h = size.1 as int;
    let (center_x, center_y) = center;
    let glyph = glyph(digit);
    let glyph_width = 5 * scale;
    let glyph_height = 7 * scale;
    let start_x = center_x - glyph_width / 2;
    let start_y = center_y - glyph_height / 2;
    assert(start_x == digit_origin(center, scale).0);
    assert(start_y == digit_origin(center, scale).1);
    let mut row: usize = 0;
    while row < 7
        invariant
            glyph@ == glyph_rows(digit),
            row <= 7,
            digit_fits(center, scale),
            start_x == digit_origin(center, scale).0,
            start_y == digit_origin(center, scale).1,
            size.0 <= i32::MAX,
            size.1 <= i32::MAX,
            w == size.0,
            h == size.1,
            canvas@.len() == start.len(),
            forall|r: int, c: int|
                0 <= r < 7 && 0 <= c < 5 ==> fill_fits(start.len() as int, w, h, #[trigger] digit_cell(center, scale, r, c)),
            canvas@ == painted_all(start, w, h, digit_cells(digit, center, scale, (row * 5) as nat), color),
        decreases 7 - row,
    {
        let bits = glyph[row];
        let mut column: i32 = 0;
        while column < 5
            invariant
                glyph@ == glyph_rows(digit),
                row < 7,
                bits == glyph_rows(digit)[row as int],
                0 <= column <= 5,
                digit_fits(center, scale),
                start_x == digit_origin(center, scale).0,
                start_y == digit_origin(center, scale).1,
                size.0 <= i32::MAX,
                size.1 <= i32::MAX,
                w == size.0,
                h == size.1,
                canvas@.len() == start.len(),
                forall|r: int, c: int|
                    0 <= r < 7 && 0 <= c < 5 ==> fill_fits(start.len() as int, w, h, #[trigger] digit_cell(center, scale, r, c)),
                canvas@ == painted_all(start, w, h, digit_cells(digit, center, scale, (row * 5 + column) as nat), color),
            decreases 5 - column,
        {
            let ghost k = (row * 5 + column) as int;
            assert(k / 5 == row && k % 5 == column);
            let set = glyph_bit_exec(bits, column);
            proof {
                let cells = digit_cells(digit, center, scale, k as nat);
                let next = digit_cells(digit, center, scale, (k + 1) as nat);
                assert(next == if set { cells.push(digit_cell(center, scale, row as int, column as int)) } else { cells });
                if set {
                    assert(next.drop_last() =~= cells);
                }
            }
            if set {
                // A cell lies between the glyph's first and last edges, whatever the
                // sign of `scale`.
                assert(i32::MIN <= column * scale <= i32::MAX && i32::MIN <= start_x + column * scale
                    <= i32::MAX && i32::MIN <= start_x + column * scale + scale <= i32::MAX) by (nonlinear_arith)
                    requires
                        0 <= column < 5,
                        i32::MIN <= 7 * scale <= i32::MAX,
                        i32::MIN <= start_x <= i32::MAX,
                        i32::MIN <= start_x + 5 * scale <= i32::MAX,
                ;
                assert(i32::MIN <= (row as int) * scale <= i32::MAX && i32::MIN <= start_y + (row as int) * scale
                    <= i32::MAX && i32::MIN <= start_y + (row as int) * scale + scale <= i32::MAX)
                    by (nonlinear_arith)
                    requires
                        0 <= row < 7,
                        i32::MIN <= 7 * scale <= i32::MAX,
                        i32::MIN <= start_y <= i32::MAX,
                        i32::MIN <= start_y + 7 * scale <= i32::MAX,
                ;
                let x = start_x + column * scale;
                let y = start_y + row as i32 * scale;
                let cell = PixelRect { x0: x, y0: y, x1: x + scale, y1: y + scale };
                assert(cell == digit_cell(center, scale, row as int, column as int));
                fill_rect(canvas, size, cell, color);
            }
            proof {
                lemma_painted_all_len(start, w, h, digit_cells(digit, center, scale, (k + 1) as nat), color);
            }
            column = column + 1;
        }
        row = row + 1;
    }
}

/// The bytes of `v`, least significant first.
pub open spec fn le_bytes(v: u32) -> Seq<u8> {
    seq![(v % 256) as u8, ((v / 256) % 256) as u8, ((v / 65536) % 256) as u8, (v / 16777216) as u8]
}

/// The bytes of `v`, most significant first.
pub open spec fn be_bytes(v: u32) -> Seq<u8> {
    seq![(v / 16777216) as u8, ((v / 65536) % 256) as u8, ((v / 256) % 256) as u8, (v % 256) as u8]
}

/// Calls `u32::to_ne_bytes`: the bytes of `value` in the machine's byte order, which
/// is either little-endian or big-endian; which one is not stated.
#[verifier::external_body]
fn native_bytes(value: u32) -> (r: [u8; 4])
    ensures
        r@ == le_bytes(value) || r@ == be_bytes(value),
{
    value.to_ne_bytes()
}

/// A color channel scaled by opacity `alpha` (out of 255), rounded down.
pub open spec fn premul_channel(channel: u8, alpha: u8) -> int {
    channel as int * alpha as int / 255
}

/// An ARGB pixel value with premultiplied color channels.
pub open spec fn premul_pixel(alpha: u8, red: u8, green: u8, blue: u8) -> u32 {
    (alpha as int * 16777216 + premul_channel(red, alpha) * 65536 + premul_channel(green, alpha) * 256
        + premul_channel(blue, alpha)) as u32
}

/// Packs a color with opacity `alpha` as a premultiplied ARGB value.
pub fn premul_value(alpha: u8, red: u8, green: u8, blue: u8) -> (r: u32)
    ensures
        r == premul_pixel(alpha, red, green, blue),
{
    let a = alpha as u32;
    assert(red as int * a <= 255 * 255 && green as int * a <= 255 * 255 && blue as int * a <= 255 * 255) by (nonlinear_arith)
        requires
            a <= 255,
    ;
    let r = red as u32 * a / 255;
    let g = green as u32 * a / 255;
    let b = blue as u32 * a / 255;
    assert(r <= 255 && g <= 255 && b <= 255) by (nonlinear_arith)
        requires
            a <= 255,
            r == red as int * a / 255,
            g == green as int * a / 255,
            b == blue as int * a / 255,
    ;
    let packed = (a << 24) | (r << 16) | (g << 8) | b;
    assert(packed == a * 16777216 + r * 65536 + g * 256 + b) by (bit_vector)
        requires
            a <= 255,
            r <= 255,
            g <= 255,
            b <= 255,
            packed == (a << 24) | (r << 16) | (g << 8) | b,
    ;
    packed
}

/// A premultiplied ARGB pixel in the buffer's byte order (the machine's).
pub fn premul(alpha: u8, red: u8, green: u8, blue: u8) -> (r: [u8; 4])
    ensures
        r@ == le_bytes(premul_pixel(alpha, red, green, blue)) || r@ == be_bytes(
            premul_pixel(alpha, red, green, blue),
        ),
{
    native_bytes(premul_value(alpha, red, green, blue))
}


/// `bytes` is the pixel value `v` in one of the two byte orders.
pub open spec fn pixel_bytes(bytes: Seq<u8>, v: u32) -> bool {
    bytes == le_bytes(v) || bytes == be_bytes(v)
}

/// The fill and border colors of a zone tile, brighter for the selected zone.
pub fn zone_colors(selected: bool) -> (r: ([u8; 4], [u8; 4]))
    ensures
        selected ==> pixel_bytes(r.0@, premul_pixel(104, 52, 132, 246)) && pixel_bytes(
            r.1@,
            premul_pixel(230, 120, 190, 255),
        ),
        !selected ==> pixel_bytes(r.0@, premul_pixel(58, 55, 94, 160)) && pixel_bytes(
            r.1@,
            premul_pixel(145, 150, 170, 210),
        ),
{
    let fill = if selected {
        premul(104, 52, 132, 246)
    } else {
        premul(58, 55, 94, 160)
    };
    let border = if selected {
        premul(230, 120, 190, 255)
    } else {
        premul(145, 150, 170, 210)
    };
    (fill, border)
}

/// The color of the digit drawn on each zone tile.
pub fn label_color() -> (r: [u8; 4])
    ensures
        pixel_bytes(r@, premul_pixel(245, 255, 255, 255)),
{
    premul(245, 255, 255, 255)
}

/// The cell size of a zone's digit: a eighteenth of the tile's shorter side, kept
/// within 6..=18 pixels.
pub open spec fn label_scale(b: PixelRect) -> int {
    let shorter = if b.x1 - b.x0 <= b.y1 - b.y0 {
        b.x1 - b.x0
    } else {
        b.y1 - b.y0
    };
    clamp_int(div_toward_zero(shorter, 18), 6, 18)
}

/// The centre of a tile.
pub open spec fn tile_center(b: PixelRect) -> (i32, i32) {
    (half_toward_zero(b.x0 + b.x1) as i32, half_toward_zero(b.y0 + b.y1) as i32)
}

/// Every fill that painting a zone tile makes lies in a buffer of `len` bytes.
pub open spec fn zone_fits(len: int, w: int, h: int, b: PixelRect, label: usize) -> bool {
    &&& fill_fits(len, w, h, b)
    &&& forall|k: int| 0 <= k < 4 ==> fill_fits(len, w, h, #[trigger] stroke_bands(b, 3)[k])
    &&& label <= 9 ==> fits_i32(b.x0 + b.x1) && fits_i32(b.y0 + b.y1)
    &&& label <= 9 ==> digit_fits(tile_center(b), label_scale(b) as i32)
    &&& label <= 9 ==> forall|r: int, c: int|
        0 <= r < 7 && 0 <= c < 5 ==> fill_fits(
            len,
            w,
            h,
            #[trigger] digit_cell(tile_center(b), label_scale(b) as i32, r, c),
        )
}

/// The buffer after painting a zone tile: its area in `fill`, a border of three pixels
/// in `border`, and, for labels 0 to 9, the label's digit in `text`.
pub open spec fn zone_painted(
    c: Seq<u8>,
    w: int,
    h: int,
    b: PixelRect,
    fill: [u8; 4],
    border: [u8; 4],
    label: usize,
    text: [u8; 4],
) -> Seq<u8> {
    let framed = painted_all(painted(c, w, h, b, fill), w, h, stroke_bands(b, 3), border);
    if label <= 9 {
        painted_all(
            framed,
            w,
            h,
            digit_cells(label as u8, tile_center(b), label_scale(b) as i32, 35),
            text,
        )
    } else {
        framed
    }
}

/// Paints one zone tile whose pixel bounds lie inside the buffer.
pub fn paint_zone(
    canvas: &mut [u8],
    size: (u32, u32),
    bounds: PixelRect,
    fill: [u8; 4],
    border: [u8; 4],
    label: usize,
    text: [u8; 4],
)
    requires
        size.0 <= i32::MAX,
        size.1 <= i32::MAX,
        0 <= bounds.x0 < bounds.x1 <= size.0,
        0 <= bounds.y0 < bounds.y1 <= size.1,
        stroke_fits(bounds, 3),
        zone_fits(old(canvas)@.len() as int, size.0 as int, size.1 as int, bounds, label),
    ensures
        final(canvas)@ == zone_painted(
            old(canvas)@,
            size.0 as int,
            size.1 as int,
            bounds,
            fill,
            border,
            label,
            text,
        ),
{
    let ghost start = canvas@;
    fill_rect(canvas, size, bounds, fill);
    stroke_rect(canvas, size, bounds, 3, border);
    proof {
        lemma_painted_all_len(
            painted(start, size.0 as int, size.1 as int, bounds, fill),
            size.0 as int,
            size.1 as int,
            stroke_bands(bounds, 3),
            border,
        );
    }
    if label <= 9 {
        let width = bounds.x1 - bounds.x0;
        let height = bounds.y1 - bounds.y0;
        let shorter = if width <= height {
            width
        } else {
            height
        };
        let scale = clamp_i32(shorter / 18, 6, 18);
        let center = bounds.center();
        assert(center == tile_center(bounds));
        assert(scale == label_scale(bounds));
        draw_digit(canvas, size, label as u8, center, scale, text);
    }
}


/// The fill, border and label colors a zone tile is painted with.
pub open spec fn zone_palette(selected: bool, fill: Seq<u8>, border: Seq<u8>, text: Seq<u8>) -> bool {
    &&& selected ==> pixel_bytes(fill, premul_pixel(104, 52, 132, 246))
    &&& selected ==> pixel_bytes(border, premul_pixel(230, 120, 190, 255))
    &&& !selected ==> pixel_bytes(fill, premul_pixel(58, 55, 94, 160))
    &&& !selected ==> pixel_bytes(border, premul_pixel(145, 150, 170, 210))
    &&& pixel_bytes(text, premul_pixel(245, 255, 255, 255))
}

/// In a buffer of `width * height` pixels every part of a zone tile that lies inside
/// it can be painted.
pub proof fn lemma_full_buffer_fits_zone(len: int, w: int, h: int, b: PixelRect, label: usize)
    requires
        0 <= w <= i32::MAX,
        0 <= h <= i32::MAX,
        len >= w * h * 4,
        0 <= b.x0 < b.x1 <= w,
        0 <= b.y0 < b.y1 <= h,
        label <= 9 ==> fits_i32(b.x0 + b.x1) && fits_i32(b.y0 + b.y1),
    ensures
        zone_fits(len, w, h, b, label),
{
    lemma_full_buffer_fits(len, w, h, b);
    assert forall|k: int| 0 <= k < 4 implies fill_fits(len, w, h, #[trigger] stroke_bands(b, 3)[k]) by {
        lemma_full_buffer_fits(len, w, h, stroke_bands(b, 3)[k]);
    }
    if label <= 9 {
        let center = tile_center(b);
        let scale = label_scale(b) as i32;
        assert(0 <= center.0 <= i32::MAX / 2 && 0 <= center.1 <= i32::MAX / 2);
        assert(6 <= scale <= 18);
        assert(digit_fits(center, scale));
        assert forall|r: int, c: int| 0 <= r < 7 && 0 <= c < 5 implies fill_fits(
            len,
            w,
            h,
            #[trigger] digit_cell(center, scale, r, c),
        ) by {
            lemma_full_buffer_fits(len, w, h, digit_cell(center, scale, r, c));
        }
    }
}

/// Draws one zone tile into a buffer of `size.0 * size.1` pixels: its area filled,
/// a border of three pixels, and for labels 0 to 9 the label's digit; the selected
/// zone is drawn brighter. The border's edges and, for a digit, the sums of the
/// tile's opposite edges must stay within `i32`.
pub fn draw_zone(canvas: &mut [u8], size: (u32, u32), bounds: PixelRect, selected: bool, label: usize)
    requires
        size.0 <= i32::MAX,
        size.1 <= i32::MAX,
        old(canvas)@.len() >= size.0 * size.1 * 4,
        0 <= bounds.x0 < bounds.x1 <= size.0,
        0 <= bounds.y0 < bounds.y1 <= size.1,
        stroke_fits(bounds, 3),
        label <= 9 ==> fits_i32(bounds.x0 + bounds.x1) && fits_i32(bounds.y0 + bounds.y1),
    ensures
        exists|fill: [u8; 4], border: [u8; 4], text: [u8; 4]|
            zone_palette(selected, fill@, border@, text@) && #[trigger] zone_painted(
                old(canvas)@,
                size.0 as int,
                size.1 as int,
                bounds,
                fill,
                border,
                label,
                text,
            ) == final(canvas)@,
{
    proof {
        lemma_full_buffer_fits_zone(old(canvas)@.len() as int, size.0 as int, size.1 as int, bounds, label);
    }
    let (fill, border) = zone_colors(selected);
    let text = label_color();
    paint_zone(canvas, size, bounds, fill, border, label, text);
    assert(zone_palette(selected, fill@, border@, text@));
}

/// The label font: each decimal digit is drawn from its own 5 by 7 bitmap (rows top
/// to bottom, leftmost column in the highest of five bits), and no two digits share
/// a bitmap, so every label reads as the digit it stands for.
pub proof fn law_digit_glyphs(a: u8, b: u8)
    ensures
        glyph_rows(0) == seq![0b11111u8, 0b10001, 0b10011, 0b10101, 0b11001, 0b10001, 0b11111],
        glyph_rows(1) == seq![0b00100u8, 0b01100, 0b10100, 0b00100, 0b00100, 0b00100, 0b11111],
        glyph_rows(2) == seq![0b11110u8, 0b00001, 0b00001, 0b11110, 0b10000, 0b10000, 0b11111],
        glyph_rows(3) == seq![0b11110u8, 0b00001, 0b00001, 0b01110, 0b00001, 0b00001, 0b11110],
        glyph_rows(4) == seq![0b10010u8, 0b10010, 0b10010, 0b11111, 0b00010, 0b00010, 0b00010],
        glyph_rows(5) == seq![0b11111u8, 0b10000, 0b10000, 0b11110, 0b00001, 0b00001, 0b11110],
        glyph_rows(6) == seq![0b01111u8, 0b10000, 0b10000, 0b11110, 0b10001, 0b10001, 0b01110],
        glyph_rows(7) == seq![0b11111u8, 0b00001, 0b00010, 0b00100, 0b01000, 0b01000, 0b01000],
        glyph_rows(8) == seq![0b01110u8, 0b10001, 0b10001, 0b01110, 0b10001, 0b10001, 0b01110],
        glyph_rows(9) == seq![0b01110u8, 0b10001, 0b10001, 0b01111, 0b00001, 0b00001, 0b11110],
        a <= 9 && b <= 9 && a != b ==> glyph_rows(a) != glyph_rows(b),
{
    if a <= 9 && b <= 9 && a != b {
        assert(glyph_rows(a)[0] != glyph_rows(b)[0] || glyph_rows(a)[3] != glyph_rows(b)[3]);
    }
}

} // verus!
