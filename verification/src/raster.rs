//! Drawing annotation markers into RGBA pixel buffers.
//!
//! A buffer holds `w` x `h` pixels of four bytes each, row by row. Every
//! drawing operation blends a colour into the pixels of a shape; pixels
//! outside the image, or whose four bytes do not all lie in the buffer, are
//! left alone. The effect of painting a shape is stated by [`paint_shape`].

use vstd::prelude::*;
use vstd::arithmetic::div_mod::lemma_fundamental_div_mod;
use vstd::arithmetic::div_mod::lemma_fundamental_div_mod_converse;
use vstd::arithmetic::div_mod::lemma_mod_bound;
use vstd::arithmetic::div_mod::lemma_div_pos_is_pos;

verus! {

/// An RGBA colour.
#[derive(Debug, Clone, Copy, PartialEq, Eq, Structural)]
pub struct Color {
    pub r: u8,
    pub g: u8,
    pub b: u8,
    pub a: u8,
}

/// A fully opaque colour: painting it replaces a pixel outright.
pub open spec fn opaque(c: Color) -> bool {
    c.a == 255
}

/// One channel of `base` after blending in `paint` with opacity `alpha`
/// (out of 255), rounded to the nearest integer.
pub open spec fn blend_channel(base: u8, paint: u8, alpha: u8) -> u8 {
    ((2 * (paint as int * alpha as int + base as int * (255 - alpha as int)) + 255) / 510) as u8
}

/// Byte `channel` of a pixel whose old value is `old` after painting `c`:
/// red, green and blue are blended, the alpha byte becomes 255.
pub open spec fn painted_byte(old: u8, channel: int, c: Color) -> u8 {
    if channel == 0 {
        blend_channel(old, c.r, c.a)
    } else if channel == 1 {
        blend_channel(old, c.g, c.a)
    } else if channel == 2 {
        blend_channel(old, c.b, c.a)
    } else {
        255
    }
}

/// Byte `i` of a `len`-byte buffer of a `w` x `h` image belongs to a pixel
/// of the image, all four of whose bytes lie in the buffer, and whose
/// coordinates satisfy `shape`.
pub open spec fn byte_in_shape(
    i: int,
    len: int,
    w: int,
    h: int,
    shape: spec_fn(int, int) -> bool,
) -> bool {
    &&& w > 0
    &&& (i / 4) * 4 + 4 <= len
    &&& (i / 4) / w < h
    &&& shape((i / 4) % w, (i / 4) / w)
}

/// The buffer after painting every pixel of `shape` once with `c`.
pub open spec fn paint_shape(
    buf: Seq<u8>,
    w: int,
    h: int,
    shape: spec_fn(int, int) -> bool,
    c: Color,
) -> Seq<u8> {
    Seq::new(
        buf.len(),
        |i: int|
            if byte_in_shape(i, buf.len() as int, w, h, shape) {
                painted_byte(buf[i], i % 4, c)
            } else {
                buf[i]
            },
    )
}

proof fn lemma_blend_opaque(v: u8, p: u8)
    ensures
        blend_channel(v, p, 255) == p,
{
    assert(v as int * (255 - 255) == 0);
    assert((2 * (p as int * 255 + 0) + 255) / 510 == p as int);
}

proof fn lemma_pixel_coords(i: int, w: int)
    requires
        0 <= i,
        0 < w,
    ensures
        0 <= (i / 4) % w < w,
        0 <= (i / 4) / w,
        i / 4 == w * ((i / 4) / w) + (i / 4) % w,
{
    lemma_mod_bound(i / 4, w);
    lemma_div_pos_is_pos(i / 4, w);
    lemma_fundamental_div_mod(i / 4, w);
}

/// Painting only looks at the pixels of the image: two shapes that agree on
/// them paint alike.
proof fn lemma_paint_same(
    buf: Seq<u8>,
    w: int,
    h: int,
    s: spec_fn(int, int) -> bool,
    t: spec_fn(int, int) -> bool,
    c: Color,
)
    requires
        forall|a: int, b: int| 0 <= a < w && 0 <= b < h ==> #[trigger] s(a, b) == t(a, b),
    ensures
        paint_shape(buf, w, h, s, c) == paint_shape(buf, w, h, t, c),
{
    assert forall|i: int| 0 <= i < buf.len() implies byte_in_shape(i, buf.len() as int, w, h, s)
        == byte_in_shape(i, buf.len() as int, w, h, t) by {
        if w > 0 {
            lemma_pixel_coords(i, w);
        }
    }
    assert(paint_shape(buf, w, h, s, c) =~= paint_shape(buf, w, h, t, c));
}

/// Painting `s` and then `t` paints their union, when the colour is opaque
/// or the shapes share no pixel of the image.
proof fn lemma_paint_union(
    buf: Seq<u8>,
    w: int,
    h: int,
    s: spec_fn(int, int) -> bool,
    t: spec_fn(int, int) -> bool,
    u: spec_fn(int, int) -> bool,
    c: Color,
)
    requires
        opaque(c) || (forall|a: int, b: int|
            0 <= a < w && 0 <= b < h ==> !(#[trigger] s(a, b) && t(a, b))),
        forall|a: int, b: int| 0 <= a < w && 0 <= b < h ==> #[trigger] u(a, b) == (s(a, b) || t(a, b)),
    ensures
        paint_shape(paint_shape(buf, w, h, s, c), w, h, t, c) == paint_shape(buf, w, h, u, c),
{
    let p1 = paint_shape(buf, w, h, s, c);
    let p2 = paint_shape(p1, w, h, t, c);
    let q = paint_shape(buf, w, h, u, c);
    assert forall|i: int| 0 <= i < buf.len() implies p2[i] == q[i] by {
        if w > 0 {
            lemma_pixel_coords(i, w);
            if opaque(c) {
                lemma_blend_opaque(buf[i], c.r);
                lemma_blend_opaque(buf[i], c.g);
                lemma_blend_opaque(buf[i], c.b);
                lemma_blend_opaque(p1[i], c.r);
                lemma_blend_opaque(p1[i], c.g);
                lemma_blend_opaque(p1[i], c.b);
            }
        }
    }
    assert(p2 =~= q);
}

/// Painting a shape with no pixel in the image leaves the buffer as it was.
proof fn lemma_paint_nothing(buf: Seq<u8>, w: int, h: int, s: spec_fn(int, int) -> bool, c: Color)
    requires
        forall|a: int, b: int| 0 <= a < w && 0 <= b < h ==> !#[trigger] s(a, b),
    ensures
        paint_shape(buf, w, h, s, c) == buf,
{
    assert forall|i: int| 0 <= i < buf.len() implies !byte_in_shape(
        i,
        buf.len() as int,
        w,
        h,
        s,
    ) by {
        if w > 0 {
            lemma_pixel_coords(i, w);
        }
    }
    assert(paint_shape(buf, w, h, s, c) =~= buf);
}

/// One channel blended as [`blend_channel`] states.
fn blend_channel_value(base: u8, paint: u8, alpha: u8) -> (r: u8)
    ensures
        r == blend_channel(base, paint, alpha),
{
    assert(paint as int * alpha as int <= 255 * 255) by (nonlinear_arith)
        requires
            paint <= 255,
            alpha <= 255,
    ;
    assert(base as int * (255 - alpha as int) <= 255 * 255) by (nonlinear_arith)
        requires
            base <= 255,
            alpha <= 255,
    ;
    let sum: u32 = (paint as u32) * (alpha as u32) + (base as u32) * (255 - alpha as u32);
    let v: u32 = (2 * sum + 255) / 510;
    v as u8
}

/// Blends `c` into the pixel whose bytes start at `idx`: red, green and blue
/// are blended, the alpha byte becomes 255.
fn blend_pixel(buf: &mut Vec<u8>, idx: usize, c: Color)
    requires
        idx + 4 <= old(buf)@.len(),
    ensures
        final(buf)@.len() == old(buf)@.len(),
        final(buf)@[idx as int] == painted_byte(old(buf)@[idx as int], 0, c),
        final(buf)@[idx + 1] == painted_byte(old(buf)@[idx + 1], 1, c),
        final(buf)@[idx + 2] == painted_byte(old(buf)@[idx + 2], 2, c),
        final(buf)@[idx + 3] == painted_byte(old(buf)@[idx + 3], 3, c),
        forall|j: int|
            0 <= j < old(buf)@.len() && !(idx <= j < idx + 4) ==> final(buf)@[j] == old(buf)@[j],
{
    let n = buf.len();
    assert(idx + 4 <= n);
    let i1 = idx + 1;
    let i2 = idx + 2;
    let i3 = idx + 3;
    let r = blend_channel_value(buf[idx], c.r, c.a);
    buf.set(idx, r);
    let g = blend_channel_value(buf[i1], c.g, c.a);
    buf.set(i1, g);
    let b = blend_channel_value(buf[i2], c.b, c.a);
    buf.set(i2, b);
    buf.set(i3, 255);
}

/// Blends `c` into the pixel at column `x`, row `y`, when it lies in the
/// image and its four bytes in the buffer.
pub fn set_pixel(buf: &mut Vec<u8>, w: i64, h: i64, x: i64, y: i64, c: Color)
    requires
        0 <= w <= 0xffff_ffff,
        0 <= h <= 0xffff_ffff,
    ensures
        final(buf)@ == paint_shape(old(buf)@, w as int, h as int, |a: int, b: int| a == x && b == y, c),
{
    let ghost shape = |a: int, b: int| a == x && b == y;
    if x < 0 || y < 0 || x >= w || y >= h {
        proof {
            lemma_paint_nothing(old(buf)@, w as int, h as int, shape, c);
        }
        return;
    }
    assert(y as int * w as int <= 0xffff_ffff * 0xffff_ffff) by (nonlinear_arith)
        requires
            0 <= y <= 0xffff_ffff,
            0 <= w <= 0xffff_ffff,
    ;
    let p: u128 = (y as u128) * (w as u128) + (x as u128);
    let idx: u128 = 4 * p;
    proof {
        lemma_fundamental_div_mod_converse(p as int, w as int, y as int, x as int);
        lemma_fundamental_div_mod(p as int, w as int);
    }
    if idx + 4 > buf.len() as u128 {
        proof {
            assert forall|i: int|
                0 <= i < old(buf)@.len() implies !byte_in_shape(
                i,
                old(buf)@.len() as int,
                w as int,
                h as int,
                shape,
            ) by {
                lemma_pixel_coords(i, w as int);
            }
            assert(paint_shape(old(buf)@, w as int, h as int, shape, c) =~= old(buf)@);
        }
        return;
    }
    let ghost before = buf@;
    let i = idx as usize;
    blend_pixel(buf, i, c);
    proof {
        let target = paint_shape(before, w as int, h as int, shape, c);
        assert forall|j: int| 0 <= j < before.len() implies buf@[j] == target[j] by {
            lemma_pixel_coords(j, w as int);
            if i <= j < i + 4 {
                assert(j / 4 == p);
                assert(buf@[j] == painted_byte(before[j], j - i, c));
            } else {
                assert(j / 4 != p);
            }
        }
        assert(buf@ =~= target);
    }
}

/// The pixels of the rectangle `rect_w` x `rect_h` whose top left corner is
/// at (`x`, `y`).
pub open spec fn in_rect(x: int, y: int, rect_w: int, rect_h: int, a: int, b: int) -> bool {
    x <= a < x + rect_w && y <= b < y + rect_h
}

/// The buffer after filling the rectangle with `c`, each pixel blended once.
pub open spec fn filled_rect_pixels(
    buf: Seq<u8>,
    w: int,
    h: int,
    x: int,
    y: int,
    rect_w: int,
    rect_h: int,
    c: Color,
) -> Seq<u8> {
    paint_shape(buf, w, h, |a: int, b: int| in_rect(x, y, rect_w, rect_h, a, b), c)
}

/// Fills a rectangle with `c`, blending each of its pixels in the image once.
pub fn draw_filled_rect(
    buf: &mut Vec<u8>,
    w: i64,
    h: i64,
    x: i64,
    y: i64,
    rect_w: i64,
    rect_h: i64,
    c: Color,
)
    requires
        0 <= w <= 0xffff_ffff,
        0 <= h <= 0xffff_ffff,
        -0x100_0000_0000 <= x <= 0x100_0000_0000,
        -0x100_0000_0000 <= y <= 0x100_0000_0000,
        -0x100_0000_0000 <= rect_w <= 0x100_0000_0000,
        -0x100_0000_0000 <= rect_h <= 0x100_0000_0000,
    ensures
        final(buf)@ == filled_rect_pixels(
            old(buf)@,
            w as int,
            h as int,
            x as int,
            y as int,
            rect_w as int,
            rect_h as int,
            c,
        ),
{
    let ghost start = buf@;
    let x0: i64 = if x > 0 { x } else { 0 };
    let x1: i64 = if x + rect_w < w { x + rect_w } else { w };
    let y0: i64 = if y > 0 { y } else { 0 };
    let y1: i64 = if y + rect_h < h { y + rect_h } else { h };
    let mut yy: i64 = y0;
    proof {
        lemma_paint_nothing(start, w as int, h as int, |a: int, b: int| false, c);
        lemma_paint_same(
            start,
            w as int,
            h as int,
            |a: int, b: int| false,
            |a: int, b: int| y0 <= b < yy && x0 <= a < x1,
            c,
        );
    }
    while yy < y1
        invariant
            0 <= w <= 0xffff_ffff,
            0 <= h <= 0xffff_ffff,
            y0 <= yy,
            yy <= y1 || yy == y0,
            buf@ == paint_shape(
                start,
                w as int,
                h as int,
                |a: int, b: int| y0 <= b < yy && x0 <= a < x1,
                c,
            ),
        decreases y1 - yy,
    {
        let mut xx: i64 = x0;
        proof {
            lemma_paint_same(
                start,
                w as int,
                h as int,
                |a: int, b: int| y0 <= b < yy && x0 <= a < x1,
                |a: int, b: int| (y0 <= b < yy && x0 <= a < x1) || (b == yy && x0 <= a < xx),
                c,
            );
        }
        while xx < x1
            invariant
                0 <= w <= 0xffff_ffff,
                0 <= h <= 0xffff_ffff,
                y0 <= yy < y1,
                x0 <= xx,
                xx <= x1 || xx == x0,
                buf@ == paint_shape(
                    start,
                    w as int,
                    h as int,
                    |a: int, b: int| (y0 <= b < yy && x0 <= a < x1) || (b == yy && x0 <= a < xx),
                    c,
                ),
            decreases x1 - xx,
        {
            let ghost before = buf@;
            set_pixel(buf, w, h, xx, yy, c);
            proof {
                lemma_paint_union(
                    start,
                    w as int,
                    h as int,
                    |a: int, b: int| (y0 <= b < yy && x0 <= a < x1) || (b == yy && x0 <= a < xx),
                    |a: int, b: int| a == xx && b == yy,
                    |a: int, b: int|
                        (y0 <= b < yy && x0 <= a < x1) || (b == yy && x0 <= a < xx + 1),
                    c,
                );
            }
            xx = xx + 1;
        }
        proof {
            lemma_paint_same(
                start,
                w as int,
                h as int,
                |a: int, b: int| (y0 <= b < yy && x0 <= a < x1) || (b == yy && x0 <= a < xx),
                |a: int, b: int| y0 <= b < yy + 1 && x0 <= a < x1,
                c,
            );
        }
        yy = yy + 1;
    }
    proof {
        lemma_paint_same(
            start,
            w as int,
            h as int,
            |a: int, b: int| y0 <= b < yy && x0 <= a < x1,
            |a: int, b: int| in_rect(x as int, y as int, rect_w as int, rect_h as int, a, b),
            c,
        );
    }
}

/// The steps of Bresenham's algorithm on a segment spanning `a` columns and
/// `b` rows, from step `(i, j)` on: each step is the number of columns and
/// rows already advanced, ending with `(a, b)`.
pub open spec fn bresenham_steps(a: int, b: int, i: int, j: int) -> Seq<(int, int)>
    decreases (a - i) + (b - j),
    when 0 <= i <= a && 0 <= j <= b
{
    if i == a && j == b {
        seq![(i, j)]
    } else {
        let err = a * (1 + j) - b * (1 + i);
        let ni = if 2 * err >= -b { i + 1 } else { i };
        let nj = if 2 * err <= a { j + 1 } else { j };
        proof {
            lemma_bresenham_step(a, b, i, j);
        }
        seq![(i, j)] + bresenham_steps(a, b, ni, nj)
    }
}

/// A step of Bresenham's algorithm never passes the end of the segment, and
/// always advances.
pub proof fn lemma_bresenham_step(a: int, b: int, i: int, j: int)
    requires
        0 <= i <= a,
        0 <= j <= b,
        !(i == a && j == b),
    ensures
        2 * (a * (1 + j) - b * (1 + i)) >= -b ==> i < a,
        2 * (a * (1 + j) - b * (1 + i)) <= a ==> j < b,
        2 * (a * (1 + j) - b * (1 + i)) >= -b || 2 * (a * (1 + j) - b * (1 + i)) <= a,
{
    if i == a {
        assert(2 * (a * (1 + j) - b * (1 + i)) < -b) by (nonlinear_arith)
            requires
                i == a,
                0 <= j < b,
                0 <= a,
        ;
    }
    if j == b {
        assert(2 * (a * (1 + j) - b * (1 + i)) > a) by (nonlinear_arith)
            requires
                j == b,
                0 <= i < a,
                0 <= b,
        ;
    }
}

/// The coordinate `k` steps from `start` towards `end`.
pub open spec fn toward(start: int, end: int, k: int) -> int {
    if start < end {
        start + k
    } else {
        start - k
    }
}

/// The absolute value of `v`.
pub open spec fn abs(v: int) -> int {
    if v < 0 {
        -v
    } else {
        v
    }
}

/// The steps of Bresenham's algorithm from (`x0`, `y0`) to (`x1`, `y1`).
pub open spec fn line_steps(x0: int, y0: int, x1: int, y1: int) -> Seq<(int, int)> {
    bresenham_steps(abs(x1 - x0), abs(y1 - y0), 0, 0)
}

/// Pixel (`a`, `b`) lies within `half` columns and rows of the point that
/// `step` reaches on the segment from (`x0`, `y0`) to (`x1`, `y1`).
pub open spec fn near_step(
    step: (int, int),
    x0: int,
    y0: int,
    x1: int,
    y1: int,
    half: int,
    a: int,
    b: int,
) -> bool {
    let px = toward(x0, x1, step.0);
    let py = toward(y0, y1, step.1);
    px - half <= a <= px + half && py - half <= b <= py + half
}

/// Pixel (`a`, `b`) lies near one of `steps`.
pub open spec fn near_steps(
    steps: Seq<(int, int)>,
    x0: int,
    y0: int,
    x1: int,
    y1: int,
    half: int,
    a: int,
    b: int,
) -> bool {
    exists|k: int| 0 <= k < steps.len() && #[trigger] near_step(steps[k], x0, y0, x1, y1, half, a, b)
}

/// Pixel (`a`, `b`) lies on the segment from (`x0`, `y0`) to (`x1`, `y1`)
/// as Bresenham's algorithm draws it with a square pen reaching `half`
/// pixels from its centre.
pub open spec fn on_line(x0: int, y0: int, x1: int, y1: int, half: int, a: int, b: int) -> bool {
    near_steps(line_steps(x0, y0, x1, y1), x0, y0, x1, y1, half, a, b)
}

/// Pixel (`a`, `b`) lies on the segment drawn `thickness` pixels thick: a
/// square pen reaching `thickness / 2` pixels from its centre.
pub open spec fn on_thick_line(
    x0: int,
    y0: int,
    x1: int,
    y1: int,
    thickness: int,
    a: int,
    b: int,
) -> bool {
    on_line(x0, y0, x1, y1, thickness / 2, a, b)
}

proof fn lemma_near_steps_push(
    steps: Seq<(int, int)>,
    p: (int, int),
    x0: int,
    y0: int,
    x1: int,
    y1: int,
    half: int,
    a: int,
    b: int,
)
    ensures
        near_steps(steps.push(p), x0, y0, x1, y1, half, a, b) == (near_steps(
            steps,
            x0,
            y0,
            x1,
            y1,
            half,
            a,
            b,
        ) || near_step(p, x0, y0, x1, y1, half, a, b)),
{
    let s2 = steps.push(p);
    if near_step(p, x0, y0, x1, y1, half, a, b) {
        assert(s2[steps.len() as int] == p);
    }
    if near_steps(steps, x0, y0, x1, y1, half, a, b) {
        let k = choose|k: int|
            0 <= k < steps.len() && #[trigger] near_step(steps[k], x0, y0, x1, y1, half, a, b);
        assert(s2[k] == steps[k]);
    }
    if near_steps(s2, x0, y0, x1, y1, half, a, b) {
        let k = choose|k: int|
            0 <= k < s2.len() && #[trigger] near_step(s2[k], x0, y0, x1, y1, half, a, b);
        if k < steps.len() {
            assert(s2[k] == steps[k]);
        }
    }
}

/// Draws the segment from (`x0`, `y0`) to (`x1`, `y1`) with Bresenham's
/// algorithm, stamping a square `thickness` pixels wide (rounded down to an
/// odd width) at each step.
pub fn draw_line(
    buf: &mut Vec<u8>,
    w: i64,
    h: i64,
    x0: i64,
    y0: i64,
    x1: i64,
    y1: i64,
    c: Color,
    thickness: i64,
)
    requires
        opaque(c),
        0 <= w <= 0xffff_ffff,
        0 <= h <= 0xffff_ffff,
        -0x40_0000_0000 <= x0 <= 0x40_0000_0000,
        -0x40_0000_0000 <= y0 <= 0x40_0000_0000,
        -0x40_0000_0000 <= x1 <= 0x40_0000_0000,
        -0x40_0000_0000 <= y1 <= 0x40_0000_0000,
        0 <= thickness <= 0x7fff_ffff,
    ensures
        final(buf)@ == paint_shape(
            old(buf)@,
            w as int,
            h as int,
            |a: int, b: int|
                on_thick_line(x0 as int, y0 as int, x1 as int, y1 as int, thickness as int, a, b),
            c,
        ),
{
    let ghost start = buf@;
    let half: i64 = thickness / 2;
    let dx: i64 = if x1 >= x0 { x1 - x0 } else { x0 - x1 };
    let sx: i64 = if x0 < x1 { 1 } else { -1 };
    let dy: i64 = if y1 >= y0 { y0 - y1 } else { y1 - y0 };
    let sy: i64 = if y0 < y1 { 1 } else { -1 };
    let mut err: i64 = dx + dy;
    let mut cx: i64 = x0;
    let mut cy: i64 = y0;
    let ghost a: int = dx as int;
    let ghost b: int = -dy;
    let ghost full = bresenham_steps(a, b, 0, 0);
    let ghost mut i: int = 0;
    let ghost mut j: int = 0;
    let ghost mut visited: Seq<(int, int)> = Seq::empty();
    proof {
        assert(a * (1 + j) - b * (1 + i) == a - b) by (nonlinear_arith)
            requires
                i == 0,
                j == 0,
        ;
        assert(visited + full =~= full);
        lemma_paint_nothing(
            start,
            w as int,
            h as int,
            |p: int, q: int|
                near_steps(visited, x0 as int, y0 as int, x1 as int, y1 as int, half as int, p, q),
            c,
        );
    }
    loop
        invariant_except_break
            visited + bresenham_steps(a, b, i, j) == full,
        invariant
            opaque(c),
            0 <= w <= 0xffff_ffff,
            0 <= h <= 0xffff_ffff,
            -0x40_0000_0000 <= x0 <= 0x40_0000_0000,
            -0x40_0000_0000 <= y0 <= 0x40_0000_0000,
            -0x40_0000_0000 <= x1 <= 0x40_0000_0000,
            -0x40_0000_0000 <= y1 <= 0x40_0000_0000,
            0 <= half <= 0x4000_0000,
            half == thickness / 2,
            a == abs(x1 - x0),
            b == abs(y1 - y0),
            dx == a,
            dy == -b,
            sx == (if x0 < x1 { 1int } else { -1int }),
            sy == (if y0 < y1 { 1int } else { -1int }),
            full == line_steps(x0 as int, y0 as int, x1 as int, y1 as int),
            0 <= i <= a,
            0 <= j <= b,
            cx == toward(x0 as int, x1 as int, i),
            cy == toward(y0 as int, y1 as int, j),
            err == a * (1 + j) - b * (1 + i),
            -2 * b <= err <= 2 * a,
            buf@ == paint_shape(
                start,
                w as int,
                h as int,
                |p: int, q: int|
                    near_steps(visited, x0 as int, y0 as int, x1 as int, y1 as int, half as int, p, q),
                c,
            ),
        ensures
            visited == full,
        decreases (a - i) + (b - j),
    {
        let ghost before = buf@;
        draw_filled_rect(buf, w, h, cx - half, cy - half, 2 * half + 1, 2 * half + 1, c);
        proof {
            let shape_before = |p: int, q: int|
                near_steps(visited, x0 as int, y0 as int, x1 as int, y1 as int, half as int, p, q);
            let shape_after = |p: int, q: int|
                near_steps(
                    visited.push((i, j)),
                    x0 as int,
                    y0 as int,
                    x1 as int,
                    y1 as int,
                    half as int,
                    p,
                    q,
                );
            assert forall|p: int, q: int| 0 <= p < w && 0 <= q < h implies #[trigger] shape_after(
                p,
                q,
            ) == (shape_before(p, q) || in_rect(
                (cx - half) as int,
                (cy - half) as int,
                (2 * half + 1) as int,
                (2 * half + 1) as int,
                p,
                q,
            )) by {
                lemma_near_steps_push(
                    visited,
                    (i, j),
                    x0 as int,
                    y0 as int,
                    x1 as int,
                    y1 as int,
                    half as int,
                    p,
                    q,
                );
            }
            lemma_paint_union(
                start,
                w as int,
                h as int,
                shape_before,
                |p: int, q: int|
                    in_rect(
                        (cx - half) as int,
                        (cy - half) as int,
                        (2 * half + 1) as int,
                        (2 * half + 1) as int,
                        p,
                        q,
                    ),
                shape_after,
                c,
            );
            visited = visited.push((i, j));
        }
        if cx == x1 && cy == y1 {
            proof {
                assert(i == a && j == b);
                assert(bresenham_steps(a, b, i, j) == seq![(i, j)]);
                assert(visited =~= full);
            }
            break;
        }
        proof {
            assert(!(i == a && j == b));
            lemma_bresenham_step(a, b, i, j);
        }
        let ghost old_i = i;
        let ghost old_j = j;
        let ghost old_err = err as int;
        let e2: i64 = 2 * err;
        if e2 >= dy {
            err = err + dy;
            cx = cx + sx;
            proof {
                i = i + 1;
            }
        }
        if e2 <= dx {
            err = err + dx;
            cy = cy + sy;
            proof {
                j = j + 1;
            }
        }
        proof {
            assert(bresenham_steps(a, b, old_i, old_j) == seq![(old_i, old_j)] + bresenham_steps(
                a,
                b,
                i,
                j,
            ));
            assert(visited + bresenham_steps(a, b, i, j) =~= (visited.drop_last() + (seq![
                (old_i, old_j),
            ] + bresenham_steps(a, b, i, j))));
            assert(a * (1 + j) - b * (1 + i) == old_err + (if i == old_i { 0 } else { -b }) + (if j
                == old_j {
                0
            } else {
                a
            })) by (nonlinear_arith)
                requires
                    old_err == a * (1 + old_j) - b * (1 + old_i),
                    i == old_i || i == old_i + 1,
                    j == old_j || j == old_j + 1,
            ;
        }
    }
}

/// Pixel (`a`, `b`) lies on ring `t` of the outline of the rectangle
/// `rect_w` x `rect_h` at (`x`, `y`): the four one-pixel segments `t` pixels
/// inside its top, bottom, left and right edges.
pub open spec fn on_outline_ring(
    x: int,
    y: int,
    rect_w: int,
    rect_h: int,
    t: int,
    a: int,
    b: int,
) -> bool {
    ||| on_thick_line(x, y + t, x + rect_w, y + t, 1, a, b)
    ||| on_thick_line(x, y + rect_h - t, x + rect_w, y + rect_h - t, 1, a, b)
    ||| on_thick_line(x + t, y, x + t, y + rect_h, 1, a, b)
    ||| on_thick_line(x + rect_w - t, y, x + rect_w - t, y + rect_h, 1, a, b)
}

/// Pixel (`a`, `b`) lies on one of the first `thickness` rings of the
/// outline of the rectangle.
pub open spec fn on_outline(
    x: int,
    y: int,
    rect_w: int,
    rect_h: int,
    thickness: int,
    a: int,
    b: int,
) -> bool {
    exists|t: int| 0 <= t < thickness && #[trigger] on_outline_ring(x, y, rect_w, rect_h, t, a, b)
}

proof fn lemma_outline_extend(x: int, y: int, rect_w: int, rect_h: int, n: int, a: int, b: int)
    requires
        0 <= n,
    ensures
        on_outline(x, y, rect_w, rect_h, n + 1, a, b) == (on_outline(x, y, rect_w, rect_h, n, a, b)
            || on_outline_ring(x, y, rect_w, rect_h, n, a, b)),
{
    if on_outline(x, y, rect_w, rect_h, n + 1, a, b) {
        let t = choose|t: int|
            0 <= t < n + 1 && #[trigger] on_outline_ring(x, y, rect_w, rect_h, t, a, b);
        if t < n {
            assert(on_outline(x, y, rect_w, rect_h, n, a, b));
        }
    }
    if on_outline(x, y, rect_w, rect_h, n, a, b) {
        let t = choose|t: int|
            0 <= t < n && #[trigger] on_outline_ring(x, y, rect_w, rect_h, t, a, b);
        assert(on_outline(x, y, rect_w, rect_h, n + 1, a, b));
    }
}

/// Draws ring `t` of a rectangle's outline: its four one-pixel segments.
fn draw_outline_ring(
    buf: &mut Vec<u8>,
    w: i64,
    h: i64,
    x: i64,
    y: i64,
    rect_w: i64,
    rect_h: i64,
    c: Color,
    t: i64,
)
    requires
        opaque(c),
        0 <= w <= 0xffff_ffff,
        0 <= h <= 0xffff_ffff,
        -0x4_0000_0000 <= x <= 0x4_0000_0000,
        -0x4_0000_0000 <= y <= 0x4_0000_0000,
        -0x4_0000_0000 <= rect_w <= 0x4_0000_0000,
        -0x4_0000_0000 <= rect_h <= 0x4_0000_0000,
        0 <= t <= 0x7fff_ffff,
    ensures
        final(buf)@ == paint_shape(
            old(buf)@,
            w as int,
            h as int,
            |a: int, b: int|
                on_outline_ring(x as int, y as int, rect_w as int, rect_h as int, t as int, a, b),
            c,
        ),
{
    let ghost start = buf@;
    let ghost (xi, yi, wi, hi, ti) = (x as int, y as int, rect_w as int, rect_h as int, t as int);
    let ghost l1 = |a: int, b: int| on_thick_line(xi, yi + ti, xi + wi, yi + ti, 1, a, b);
    let ghost l2 = |a: int, b: int| on_thick_line(xi, yi + hi - ti, xi + wi, yi + hi - ti, 1, a, b);
    let ghost l3 = |a: int, b: int| on_thick_line(xi + ti, yi, xi + ti, yi + hi, 1, a, b);
    let ghost l4 = |a: int, b: int| on_thick_line(xi + wi - ti, yi, xi + wi - ti, yi + hi, 1, a, b);
    draw_line(buf, w, h, x, y + t, x + rect_w, y + t, c, 1);
    draw_line(buf, w, h, x, y + rect_h - t, x + rect_w, y + rect_h - t, c, 1);
    proof {
        lemma_paint_union(start, wi, hi, l1, l2, |a: int, b: int| l1(a, b) || l2(a, b), c);
    }
    draw_line(buf, w, h, x + t, y, x + t, y + rect_h, c, 1);
    proof {
        lemma_paint_union(
            start,
            w as int,
            h as int,
            |a: int, b: int| l1(a, b) || l2(a, b),
            l3,
            |a: int, b: int| l1(a, b) || l2(a, b) || l3(a, b),
            c,
        );
    }
    draw_line(buf, w, h, x + rect_w - t, y, x + rect_w - t, y + rect_h, c, 1);
    proof {
        lemma_paint_union(
            start,
            w as int,
            h as int,
            |a: int, b: int| l1(a, b) || l2(a, b) || l3(a, b),
            l4,
            |a: int, b: int| on_outline_ring(xi, yi, wi, hi, ti, a, b),
            c,
        );
    }
}

/// Draws the outline of the rectangle `rect_w` x `rect_h` at (`x`, `y`),
/// `thickness` rings deep, each ring made of four one-pixel segments.
pub fn draw_rect_outline(
    buf: &mut Vec<u8>,
    w: i64,
    h: i64,
    x: i64,
    y: i64,
    rect_w: i64,
    rect_h: i64,
    c: Color,
    thickness: i64,
)
    requires
        opaque(c),
        0 <= w <= 0xffff_ffff,
        0 <= h <= 0xffff_ffff,
        -0x4_0000_0000 <= x <= 0x4_0000_0000,
        -0x4_0000_0000 <= y <= 0x4_0000_0000,
        -0x4_0000_0000 <= rect_w <= 0x4_0000_0000,
        -0x4_0000_0000 <= rect_h <= 0x4_0000_0000,
        -0x8000_0000 <= thickness <= 0x7fff_ffff,
    ensures
        final(buf)@ == paint_shape(
            old(buf)@,
            w as int,
            h as int,
            |a: int, b: int|
                on_outline(x as int, y as int, rect_w as int, rect_h as int, thickness as int, a, b),
            c,
        ),
{
    let ghost start = buf@;
    let ghost (xi, yi, wi, hi) = (x as int, y as int, rect_w as int, rect_h as int);
    let mut t: i64 = 0;
    proof {
        lemma_paint_nothing(start, w as int, h as int, |a: int, b: int| on_outline(xi, yi, wi, hi, 0, a, b), c);
    }
    if thickness <= 0 {
        proof {
            lemma_paint_nothing(
                start,
                w as int,
                h as int,
                |a: int, b: int| on_outline(xi, yi, wi, hi, thickness as int, a, b),
                c,
            );
        }
        return;
    }
    while t < thickness
        invariant
            opaque(c),
            0 <= w <= 0xffff_ffff,
            0 <= h <= 0xffff_ffff,
            -0x4_0000_0000 <= x <= 0x4_0000_0000,
            -0x4_0000_0000 <= y <= 0x4_0000_0000,
            -0x4_0000_0000 <= rect_w <= 0x4_0000_0000,
            -0x4_0000_0000 <= rect_h <= 0x4_0000_0000,
            0 <= t <= thickness <= 0x7fff_ffff,
            xi == x,
            yi == y,
            wi == rect_w,
            hi == rect_h,
            buf@ == paint_shape(
                start,
                w as int,
                h as int,
                |a: int, b: int| on_outline(xi, yi, wi, hi, t as int, a, b),
                c,
            ),
        decreases thickness - t,
    {
        draw_outline_ring(buf, w, h, x, y, rect_w, rect_h, c, t);
        proof {
            assert forall|a: int, b: int| 0 <= a < w && 0 <= b < h implies #[trigger] on_outline(
                xi,
                yi,
                wi,
                hi,
                t + 1,
                a,
                b,
            ) == (on_outline(xi, yi, wi, hi, t as int, a, b) || on_outline_ring(
                xi,
                yi,
                wi,
                hi,
                t as int,
                a,
                b,
            )) by {
                lemma_outline_extend(xi, yi, wi, hi, t as int, a, b);
            }
            lemma_paint_union(
                start,
                w as int,
                h as int,
                |a: int, b: int| on_outline(xi, yi, wi, hi, t as int, a, b),
                |a: int, b: int| on_outline_ring(xi, yi, wi, hi, t as int, a, b),
                |a: int, b: int| on_outline(xi, yi, wi, hi, t + 1, a, b),
                c,
            );
        }
        t = t + 1;
    }
}

/// Pixel (`a`, `b`) lies within `r` columns and rows of (`cx`, `cy`), and
/// its squared distance from it lies between `inner_sq` and `r * r`.
pub open spec fn in_ring(cx: int, cy: int, r: int, inner_sq: int, a: int, b: int) -> bool {
    &&& -r <= a - cx <= r
    &&& -r <= b - cy <= r
    &&& inner_sq <= (a - cx) * (a - cx) + (b - cy) * (b - cy) <= r * r
}

/// Pixel (`a`, `b`) lies in the disc of radius `r` around (`cx`, `cy`).
pub open spec fn in_disc(cx: int, cy: int, r: int, a: int, b: int) -> bool {
    in_ring(cx, cy, r, 0, a, b)
}

/// Pixel (`a`, `b`) lies on the circle of radius `r` around (`cx`, `cy`)
/// drawn `thickness` pixels deep inwards.
pub open spec fn in_circle_outline(cx: int, cy: int, r: int, thickness: int, a: int, b: int) -> bool {
    let inner = if r - thickness > 0 {
        r - thickness
    } else {
        0
    };
    in_ring(cx, cy, r, inner * inner, a, b)
}

/// Paints the pixels of [`in_ring`], row by row.
fn draw_ring(buf: &mut Vec<u8>, w: i64, h: i64, cx: i64, cy: i64, r: i64, inner_sq: i64, c: Color)
    requires
        opaque(c),
        0 <= w <= 0xffff_ffff,
        0 <= h <= 0xffff_ffff,
        -0x4_0000_0000 <= cx <= 0x4_0000_0000,
        -0x4_0000_0000 <= cy <= 0x4_0000_0000,
        -46340 <= r <= 46340,
    ensures
        final(buf)@ == paint_shape(
            old(buf)@,
            w as int,
            h as int,
            |a: int, b: int| in_ring(cx as int, cy as int, r as int, inner_sq as int, a, b),
            c,
        ),
{
    let ghost start = buf@;
    let ghost (ci, di, ri, li) = (cx as int, cy as int, r as int, inner_sq as int);
    if r < 0 {
        proof {
            lemma_paint_nothing(
                start,
                w as int,
                h as int,
                |a: int, b: int| in_ring(ci, di, ri, li, a, b),
                c,
            );
        }
        return;
    }
    let mut dy: i64 = -r;
    proof {
        lemma_paint_nothing(
            start,
            w as int,
            h as int,
            |a: int, b: int| in_ring(ci, di, ri, li, a, b) && b - di < dy,
            c,
        );
    }
    while dy <= r
        invariant
            opaque(c),
            0 <= w <= 0xffff_ffff,
            0 <= h <= 0xffff_ffff,
            -0x4_0000_0000 <= cx <= 0x4_0000_0000,
            -0x4_0000_0000 <= cy <= 0x4_0000_0000,
            -46340 <= r <= 46340,
            -r <= dy <= r + 1,
            ci == cx,
            di == cy,
            ri == r,
            li == inner_sq,
            buf@ == paint_shape(
                start,
                w as int,
                h as int,
                |a: int, b: int| in_ring(ci, di, ri, li, a, b) && b - di < dy,
                c,
            ),
        decreases r + 1 - dy,
    {
        let mut dx: i64 = -r;
        proof {
            lemma_paint_same(
                start,
                w as int,
                h as int,
                |a: int, b: int| in_ring(ci, di, ri, li, a, b) && b - di < dy,
                |a: int, b: int|
                    in_ring(ci, di, ri, li, a, b) && (b - di < dy || (b - di == dy && a - ci < dx)),
                c,
            );
        }
        while dx <= r
            invariant
                opaque(c),
                0 <= w <= 0xffff_ffff,
                0 <= h <= 0xffff_ffff,
                -0x4_0000_0000 <= cx <= 0x4_0000_0000,
                -0x4_0000_0000 <= cy <= 0x4_0000_0000,
                -46340 <= r <= 46340,
                -r <= dy <= r,
                -r <= dx <= r + 1,
                ci == cx,
                di == cy,
                ri == r,
                li == inner_sq,
                buf@ == paint_shape(
                    start,
                    w as int,
                    h as int,
                    |a: int, b: int|
                        in_ring(ci, di, ri, li, a, b) && (b - di < dy || (b - di == dy && a - ci
                            < dx)),
                    c,
                ),
            decreases r + 1 - dx,
        {
            assert(0 <= dx * dx <= 46341 * 46341) by (nonlinear_arith)
                requires
                    -46341 <= dx <= 46341,
            ;
            assert(0 <= dy * dy <= 46341 * 46341) by (nonlinear_arith)
                requires
                    -46341 <= dy <= 46341,
            ;
            assert(0 <= r * r <= 46340 * 46340) by (nonlinear_arith)
                requires
                    -46340 <= r <= 46340,
            ;
            let dist: i64 = dx * dx + dy * dy;
            if dist <= r * r && dist >= inner_sq {
                set_pixel(buf, w, h, cx + dx, cy + dy, c);
                proof {
                    lemma_paint_union(
                        start,
                        w as int,
                        h as int,
                        |a: int, b: int|
                            in_ring(ci, di, ri, li, a, b) && (b - di < dy || (b - di == dy && a
                                - ci < dx)),
                        |a: int, b: int| a == cx + dx && b == cy + dy,
                        |a: int, b: int|
                            in_ring(ci, di, ri, li, a, b) && (b - di < dy || (b - di == dy && a
                                - ci < dx + 1)),
                        c,
                    );
                }
            } else {
                proof {
                    lemma_paint_same(
                        start,
                        w as int,
                        h as int,
                        |a: int, b: int|
                            in_ring(ci, di, ri, li, a, b) && (b - di < dy || (b - di == dy && a
                                - ci < dx)),
                        |a: int, b: int|
                            in_ring(ci, di, ri, li, a, b) && (b - di < dy || (b - di == dy && a
                                - ci < dx + 1)),
                        c,
                    );
                }
            }
            dx = dx + 1;
        }
        proof {
            lemma_paint_same(
                start,
                w as int,
                h as int,
                |a: int, b: int|
                    in_ring(ci, di, ri, li, a, b) && (b - di < dy || (b - di == dy && a - ci < dx)),
                |a: int, b: int| in_ring(ci, di, ri, li, a, b) && b - di < dy + 1,
                c,
            );
        }
        dy = dy + 1;
    }
    proof {
        lemma_paint_same(
            start,
            w as int,
            h as int,
            |a: int, b: int| in_ring(ci, di, ri, li, a, b) && b - di < dy,
            |a: int, b: int| in_ring(ci, di, ri, li, a, b),
            c,
        );
    }
}

/// Fills the disc of radius `r` around (`cx`, `cy`).
pub fn draw_filled_circle(buf: &mut Vec<u8>, w: i64, h: i64, cx: i64, cy: i64, r: i64, c: Color)
    requires
        opaque(c),
        0 <= w <= 0xffff_ffff,
        0 <= h <= 0xffff_ffff,
        -0x4_0000_0000 <= cx <= 0x4_0000_0000,
        -0x4_0000_0000 <= cy <= 0x4_0000_0000,
        -46340 <= r <= 46340,
    ensures
        final(buf)@ == paint_shape(
            old(buf)@,
            w as int,
            h as int,
            |a: int, b: int| in_disc(cx as int, cy as int, r as int, a, b),
            c,
        ),
{
    draw_ring(buf, w, h, cx, cy, r, 0, c);
}

/// Draws a circle of radius `r` around (`cx`, `cy`), `thickness` pixels
/// deep inwards.
pub fn draw_circle_outline(
    buf: &mut Vec<u8>,
    w: i64,
    h: i64,
    cx: i64,
    cy: i64,
    r: i64,
    c: Color,
    thickness: i64,
)
    requires
        opaque(c),
        0 <= w <= 0xffff_ffff,
        0 <= h <= 0xffff_ffff,
        -0x4_0000_0000 <= cx <= 0x4_0000_0000,
        -0x4_0000_0000 <= cy <= 0x4_0000_0000,
        -46340 <= r <= 46340,
        r - 46340 <= thickness <= 0x7fff_ffff,
    ensures
        final(buf)@ == paint_shape(
            old(buf)@,
            w as int,
            h as int,
            |a: int, b: int| in_circle_outline(cx as int, cy as int, r as int, thickness as int, a, b),
            c,
        ),
{
    let inner: i64 = if r - thickness > 0 { r - thickness } else { 0 };
    assert(inner * inner <= 46340 * 46340) by (nonlinear_arith)
        requires
            0 <= inner <= 46340,
    ;
    draw_ring(buf, w, h, cx, cy, r, inner * inner, c);
}

/// The uppercase form of an ASCII lowercase letter; any other character as
/// it is.
pub open spec fn ascii_upper(ch: char) -> char {
    if 'a' <= ch <= 'z' {
        ((ch as int) - 32) as char
    } else {
        ch
    }
}

/// The 5 x 7 bitmap font of the label chips: for a digit or an ASCII letter
/// (either case), its seven rows from the top, the leftmost column in bit 4.
pub open spec fn glyph_table(ch: char) -> Option<Seq<u8>> {
    match ascii_upper(ch) {
        '0' => Some(seq![0x0E, 0x11, 0x13, 0x15, 0x19, 0x11, 0x0E]),
        '1' => Some(seq![0x04, 0x0C, 0x04, 0x04, 0x04, 0x04, 0x0E]),
        '2' => Some(seq![0x0E, 0x11, 0x01, 0x02, 0x04, 0x08, 0x1F]),
        '3' => Some(seq![0x1E, 0x01, 0x01, 0x0E, 0x01, 0x01, 0x1E]),
        '4' => Some(seq![0x02, 0x06, 0x0A, 0x12, 0x1F, 0x02, 0x02]),
        '5' => Some(seq![0x1F, 0x10, 0x1E, 0x01, 0x01, 0x11, 0x0E]),
        '6' => Some(seq![0x06, 0x08, 0x10, 0x1E, 0x11, 0x11, 0x0E]),
        '7' => Some(seq![0x1F, 0x01, 0x02, 0x04, 0x08, 0x08, 0x08]),
        '8' => Some(seq![0x0E, 0x11, 0x11, 0x0E, 0x11, 0x11, 0x0E]),
        '9' => Some(seq![0x0E, 0x11, 0x11, 0x0F, 0x01, 0x02, 0x0C]),
        'A' => Some(seq![0x0E, 0x11, 0x11, 0x1F, 0x11, 0x11, 0x11]),
        'B' => Some(seq![0x1E, 0x11, 0x11, 0x1E, 0x11, 0x11, 0x1E]),
        'C' => Some(seq![0x0E, 0x11, 0x10, 0x10, 0x10, 0x11, 0x0E]),
        'D' => Some(seq![0x1C, 0x12, 0x11, 0x11, 0x11, 0x12, 0x1C]),
        'E' => Some(seq![0x1F, 0x10, 0x10, 0x1E, 0x10, 0x10, 0x1F]),
        'F' => Some(seq![0x1F, 0x10, 0x10, 0x1E, 0x10, 0x10, 0x10]),
        'G' => Some(seq![0x0E, 0x11, 0x10, 0x17, 0x11, 0x11, 0x0E]),
        'H' => Some(seq![0x11, 0x11, 0x11, 0x1F, 0x11, 0x11, 0x11]),
        'I' => Some(seq![0x0E, 0x04, 0x04, 0x04, 0x04, 0x04, 0x0E]),
        'J' => Some(seq![0x07, 0x02, 0x02, 0x02, 0x12, 0x12, 0x0C]),
        'K' => Some(seq![0x11, 0x12, 0x14, 0x18, 0x14, 0x12, 0x11]),
        'L' => Some(seq![0x10, 0x10, 0x10, 0x10, 0x10, 0x10, 0x1F]),
        'M' => Some(seq![0x11, 0x1B, 0x15, 0x15, 0x11, 0x11, 0x11]),
        'N' => Some(seq![0x11, 0x11, 0x19, 0x15, 0x13, 0x11, 0x11]),
        'O' => Some(seq![0x0E, 0x11, 0x11, 0x11, 0x11, 0x11, 0x0E]),
        'P' => Some(seq![0x1E, 0x11, 0x11, 0x1E, 0x10, 0x10, 0x10]),
        'Q' => Some(seq![0x0E, 0x11, 0x11, 0x11, 0x15, 0x12, 0x0D]),
        'R' => Some(seq![0x1E, 0x11, 0x11, 0x1E, 0x14, 0x12, 0x11]),
        'S' => Some(seq![0x0F, 0x10, 0x10, 0x0E, 0x01, 0x01, 0x1E]),
        'T' => Some(seq![0x1F, 0x04, 0x04, 0x04, 0x04, 0x04, 0x04]),
        'U' => Some(seq![0x11, 0x11, 0x11, 0x11, 0x11, 0x11, 0x0E]),
        'V' => Some(seq![0x11, 0x11, 0x11, 0x11, 0x11, 0x0A, 0x04]),
        'W' => Some(seq![0x11, 0x11, 0x11, 0x15, 0x15, 0x15, 0x0A]),
        'X' => Some(seq![0x11, 0x11, 0x0A, 0x04, 0x0A, 0x11, 0x11]),
        'Y' => Some(seq![0x11, 0x11, 0x0A, 0x04, 0x04, 0x04, 0x04]),
        'Z' => Some(seq![0x1F, 0x01, 0x02, 0x04, 0x08, 0x10, 0x1F]),
        _ => None,
    }
}

/// The bitmap rows of `ch`, if the font has it.
pub fn glyph_rows(ch: char) -> (r: Option<[u8; 7]>)
    ensures
        match glyph_table(ch) {
            Some(rows) => r matches Some(a) && a@ == rows,
            None => r is None,
        },
{
    let r = match ch {
        '0' => Some([0x0E, 0x11, 0x13, 0x15, 0x19, 0x11, 0x0E]),
        '1' => Some([0x04, 0x0C, 0x04, 0x04, 0x04, 0x04, 0x0E]),
        '2' => Some([0x0E, 0x11, 0x01, 0x02, 0x04, 0x08, 0x1F]),
        '3' => Some([0x1E, 0x01, 0x01, 0x0E, 0x01, 0x01, 0x1E]),
        '4' => Some([0x02, 0x06, 0x0A, 0x12, 0x1F, 0x02, 0x02]),
        '5' => Some([0x1F, 0x10, 0x1E, 0x01, 0x01, 0x11, 0x0E]),
        '6' => Some([0x06, 0x08, 0x10, 0x1E, 0x11, 0x11, 0x0E]),
        '7' => Some([0x1F, 0x01, 0x02, 0x04, 0x08, 0x08, 0x08]),
        '8' => Some([0x0E, 0x11, 0x11, 0x0E, 0x11, 0x11, 0x0E]),
        '9' => Some([0x0E, 0x11, 0x11, 0x0F, 0x01, 0x02, 0x0C]),
        'A' | 'a' => Some([0x0E, 0x11, 0x11, 0x1F, 0x11, 0x11, 0x11]),
        'B' | 'b' => Some([0x1E, 0x11, 0x11, 0x1E, 0x11, 0x11, 0x1E]),
        'C' | 'c' => Some([0x0E, 0x11, 0x10, 0x10, 0x10, 0x11, 0x0E]),
        'D' | 'd' => Some([0x1C, 0x12, 0x11, 0x11, 0x11, 0x12, 0x1C]),
        'E' | 'e' => Some([0x1F, 0x10, 0x10, 0x1E, 0x10, 0x10, 0x1F]),
        'F' | 'f' => Some([0x1F, 0x10, 0x10, 0x1E, 0x10, 0x10, 0x10]),
        'G' | 'g' => Some([0x0E, 0x11, 0x10, 0x17, 0x11, 0x11, 0x0E]),
        'H' | 'h' => Some([0x11, 0x11, 0x11, 0x1F, 0x11, 0x11, 0x11]),
        'I' | 'i' => Some([0x0E, 0x04, 0x04, 0x04, 0x04, 0x04, 0x0E]),
        'J' | 'j' => Some([0x07, 0x02, 0x02, 0x02, 0x12, 0x12, 0x0C]),
        'K' | 'k' => Some([0x11, 0x12, 0x14, 0x18, 0x14, 0x12, 0x11]),
        'L' | 'l' => Some([0x10, 0x10, 0x10, 0x10, 0x10, 0x10, 0x1F]),
        'M' | 'm' => Some([0x11, 0x1B, 0x15, 0x15, 0x11, 0x11, 0x11]),
        'N' | 'n' => Some([0x11, 0x11, 0x19, 0x15, 0x13, 0x11, 0x11]),
        'O' | 'o' => Some([0x0E, 0x11, 0x11, 0x11, 0x11, 0x11, 0x0E]),
        'P' | 'p' => Some([0x1E, 0x11, 0x11, 0x1E, 0x10, 0x10, 0x10]),
        'Q' | 'q' => Some([0x0E, 0x11, 0x11, 0x11, 0x15, 0x12, 0x0D]),
        'R' | 'r' => Some([0x1E, 0x11, 0x11, 0x1E, 0x14, 0x12, 0x11]),
        'S' | 's' => Some([0x0F, 0x10, 0x10, 0x0E, 0x01, 0x01, 0x1E]),
        'T' | 't' => Some([0x1F, 0x04, 0x04, 0x04, 0x04, 0x04, 0x04]),
        'U' | 'u' => Some([0x11, 0x11, 0x11, 0x11, 0x11, 0x11, 0x0E]),
        'V' | 'v' => Some([0x11, 0x11, 0x11, 0x11, 0x11, 0x0A, 0x04]),
        'W' | 'w' => Some([0x11, 0x11, 0x11, 0x15, 0x15, 0x15, 0x0A]),
        'X' | 'x' => Some([0x11, 0x11, 0x0A, 0x04, 0x0A, 0x11, 0x11]),
        'Y' | 'y' => Some([0x11, 0x11, 0x0A, 0x04, 0x04, 0x04, 0x04]),
        'Z' | 'z' => Some([0x1F, 0x01, 0x02, 0x04, 0x08, 0x10, 0x1F]),
        _ => None,
    };
    proof {
        if let Some(a) = r {
            assert(a@ =~= glyph_table(ch).unwrap());
        }
    }
    r
}

/// Column `col` (0 to 4, from the left) of a bitmap row is set.
pub open spec fn glyph_bit(row: u8, col: u8) -> bool {
    row & (1u8 << ((4 - col) as u8)) != 0
}

/// Pixel (`a`, `b`) is lit in the glyph with bitmap `rows` drawn at twice
/// its size with its top left corner at (`gx`, `gy`).
pub open spec fn in_glyph(rows: Seq<u8>, gx: int, gy: int, a: int, b: int) -> bool {
    &&& 0 <= a - gx < 10
    &&& 0 <= b - gy < 14
    &&& glyph_bit(rows[(b - gy) / 2], ((a - gx) / 2) as u8)
}

/// Pixel (`a`, `b`) is lit in `ch` drawn at (`gx`, `gy`); a character the
/// font lacks lights nothing.
pub open spec fn glyph_shape(ch: char, gx: int, gy: int, a: int, b: int) -> bool {
    match glyph_table(ch) {
        Some(rows) => in_glyph(rows, gx, gy, a, b),
        None => false,
    }
}

/// Draws `ch` at twice the font's size with its top left corner at
/// (`gx`, `gy`); nothing for a character the font lacks.
pub fn draw_glyph(buf: &mut Vec<u8>, w: i64, h: i64, gx: i64, gy: i64, ch: char, c: Color)
    requires
        opaque(c),
        0 <= w <= 0xffff_ffff,
        0 <= h <= 0xffff_ffff,
        -0x40_0000_0000 <= gx <= 0x40_0000_0000,
        -0x40_0000_0000 <= gy <= 0x40_0000_0000,
    ensures
        final(buf)@ == paint_shape(
            old(buf)@,
            w as int,
            h as int,
            |a: int, b: int| glyph_shape(ch, gx as int, gy as int, a, b),
            c,
        ),
{
    let ghost start = buf@;
    let ghost (gxi, gyi) = (gx as int, gy as int);
    match glyph_rows(ch) {
        None => {
            proof {
                lemma_paint_nothing(
                    start,
                    w as int,
                    h as int,
                    |a: int, b: int| glyph_shape(ch, gxi, gyi, a, b),
                    c,
                );
            }
        },
        Some(rows) => {
            let ghost rs = rows@;
            let mut row: usize = 0;
            proof {
                lemma_paint_nothing(
                    start,
                    w as int,
                    h as int,
                    |a: int, b: int| in_glyph(rs, gxi, gyi, a, b) && (b - gyi) / 2 < row,
                    c,
                );
            }
            while row < 7
                invariant
                    opaque(c),
                    0 <= w <= 0xffff_ffff,
                    0 <= h <= 0xffff_ffff,
                    -0x40_0000_0000 <= gx <= 0x40_0000_0000,
                    -0x40_0000_0000 <= gy <= 0x40_0000_0000,
                    gxi == gx,
                    gyi == gy,
                    rs == rows@,
                    rs.len() == 7,
                    row <= 7,
                    buf@ == paint_shape(
                        start,
                        w as int,
                        h as int,
                        |a: int, b: int| in_glyph(rs, gxi, gyi, a, b) && (b - gyi) / 2 < row,
                        c,
                    ),
                decreases 7 - row,
            {
                let mut col: u8 = 0;
                proof {
                    lemma_paint_same(
                        start,
                        w as int,
                        h as int,
                        |a: int, b: int| in_glyph(rs, gxi, gyi, a, b) && (b - gyi) / 2 < row,
                        |a: int, b: int|
                            in_glyph(rs, gxi, gyi, a, b) && ((b - gyi) / 2 < row || ((b - gyi) / 2
                                == row && (a - gxi) / 2 < col)),
                        c,
                    );
                }
                while col < 5
                    invariant
                        opaque(c),
                        0 <= w <= 0xffff_ffff,
                        0 <= h <= 0xffff_ffff,
                        -0x40_0000_0000 <= gx <= 0x40_0000_0000,
                        -0x40_0000_0000 <= gy <= 0x40_0000_0000,
                        gxi == gx,
                        gyi == gy,
                        rs == rows@,
                        rs.len() == 7,
                        row < 7,
                        col <= 5,
                        buf@ == paint_shape(
                            start,
                            w as int,
                            h as int,
                            |a: int, b: int|
                                in_glyph(rs, gxi, gyi, a, b) && ((b - gyi) / 2 < row || ((b - gyi)
                                    / 2 == row && (a - gxi) / 2 < col)),
                            c,
                        ),
                    decreases 5 - col,
                {
                    let bits: u8 = rows[row];
                    let lit = bits & (1u8 << (4 - col)) != 0;
                    let ghost before_shape = |a: int, b: int|
                        in_glyph(rs, gxi, gyi, a, b) && ((b - gyi) / 2 < row || ((b - gyi) / 2
                            == row && (a - gxi) / 2 < col));
                    let ghost after_shape = |a: int, b: int|
                        in_glyph(rs, gxi, gyi, a, b) && ((b - gyi) / 2 < row || ((b - gyi) / 2
                            == row && (a - gxi) / 2 < col + 1));
                    if lit {
                        let cx = gx + 2 * (col as i64);
                        let cy = gy + 2 * (row as i64);
                        draw_filled_rect(buf, w, h, cx, cy, 2, 2, c);
                        proof {
                            assert(glyph_bit(rs[row as int], col));
                            lemma_paint_union(
                                start,
                                w as int,
                                h as int,
                                before_shape,
                                |a: int, b: int| in_rect(cx as int, cy as int, 2, 2, a, b),
                                after_shape,
                                c,
                            );
                        }
                    } else {
                        proof {
                            assert(!glyph_bit(rs[row as int], col));
                            lemma_paint_same(start, w as int, h as int, before_shape, after_shape, c);
                        }
                    }
                    col = col + 1;
                }
                proof {
                    lemma_paint_same(
                        start,
                        w as int,
                        h as int,
                        |a: int, b: int|
                            in_glyph(rs, gxi, gyi, a, b) && ((b - gyi) / 2 < row || ((b - gyi) / 2
                                == row && (a - gxi) / 2 < col)),
                        |a: int, b: int| in_glyph(rs, gxi, gyi, a, b) && (b - gyi) / 2 < row + 1,
                        c,
                    );
                }
                row = row + 1;
            }
            proof {
                lemma_paint_same(
                    start,
                    w as int,
                    h as int,
                    |a: int, b: int| in_glyph(rs, gxi, gyi, a, b) && (b - gyi) / 2 < row,
                    |a: int, b: int| glyph_shape(ch, gxi, gyi, a, b),
                    c,
                );
            }
        },
    }
}

/// Pixel (`a`, `b`) is lit in character `k` of `text` written from
/// (`x`, `y`), each character 12 pixels right of the one before.
pub open spec fn glyph_in_text(text: Seq<char>, k: int, x: int, y: int, a: int, b: int) -> bool {
    glyph_shape(text[k], x + 12 * k, y, a, b)
}

/// Pixel (`a`, `b`) is lit in one of the first `n` characters of `text`
/// written from (`x`, `y`).
pub open spec fn in_text(text: Seq<char>, n: int, x: int, y: int, a: int, b: int) -> bool {
    exists|k: int| 0 <= k < n && #[trigger] glyph_in_text(text, k, x, y, a, b)
}

proof fn lemma_text_extend(text: Seq<char>, n: int, x: int, y: int, a: int, b: int)
    requires
        0 <= n,
    ensures
        in_text(text, n + 1, x, y, a, b) == (in_text(text, n, x, y, a, b) || glyph_in_text(
            text,
            n,
            x,
            y,
            a,
            b,
        )),
{
    if in_text(text, n + 1, x, y, a, b) {
        let k = choose|k: int| 0 <= k < n + 1 && #[trigger] glyph_in_text(text, k, x, y, a, b);
        if k < n {
            assert(in_text(text, n, x, y, a, b));
        }
    }
    if in_text(text, n, x, y, a, b) {
        let k = choose|k: int| 0 <= k < n && #[trigger] glyph_in_text(text, k, x, y, a, b);
        assert(in_text(text, n + 1, x, y, a, b));
    }
}

/// The most characters a label chip holds: its width in pixels, 8 plus 12
/// per character, stays within `i32`.
pub const MAX_LABEL_CHARS: usize = 178_956_969;

/// The translucent dark background of a label chip.
pub open spec fn label_background() -> Color {
    Color { r: 24, g: 24, b: 27, a: 235 }
}

/// The colour of label text and of a pin's rim.
pub open spec fn label_foreground() -> Color {
    Color { r: 255, g: 255, b: 255, a: 255 }
}

/// The colour of pins.
pub open spec fn pin_color() -> Color {
    Color { r: 255, g: 95, b: 86, a: 255 }
}

/// The colour of rectangles.
pub open spec fn rect_color() -> Color {
    Color { r: 255, g: 179, b: 71, a: 255 }
}

fn label_background_value() -> (c: Color)
    ensures
        c == label_background(),
{
    Color { r: 24, g: 24, b: 27, a: 235 }
}

fn label_foreground_value() -> (c: Color)
    ensures
        c == label_foreground(),
{
    Color { r: 255, g: 255, b: 255, a: 255 }
}

fn pin_color_value() -> (c: Color)
    ensures
        c == pin_color(),
{
    Color { r: 255, g: 95, b: 86, a: 255 }
}

fn rect_color_value() -> (c: Color)
    ensures
        c == rect_color(),
{
    Color { r: 255, g: 179, b: 71, a: 255 }
}

/// The width of a label chip holding `n` characters.
pub open spec fn chip_width(n: int) -> int {
    8 + 12 * n
}

/// The buffer after drawing a label chip for `text` at (`x`, `y`): a
/// 20-pixel-high translucent box as wide as the text plus padding, a
/// one-pixel `accent` frame, and the text in `fg` from 4 pixels right and 3
/// pixels down of the corner.
pub open spec fn chip_pixels(
    buf: Seq<u8>,
    w: int,
    h: int,
    x: int,
    y: int,
    text: Seq<char>,
    accent: Color,
    fg: Color,
) -> Seq<u8> {
    let cw = chip_width(text.len() as int);
    let boxed = paint_shape(buf, w, h, |a: int, b: int| in_rect(x, y, cw, 20, a, b), label_background());
    let framed = paint_shape(boxed, w, h, |a: int, b: int| on_outline(x, y, cw, 20, 1, a, b), accent);
    paint_shape(framed, w, h, |a: int, b: int| in_text(text, text.len() as int, x + 4, y + 3, a, b), fg)
}

/// Draws a label chip for `text` at (`x`, `y`), as [`chip_pixels`] states.
pub fn draw_label_chip(
    buf: &mut Vec<u8>,
    w: i64,
    h: i64,
    x: i64,
    y: i64,
    text: &str,
    accent: Color,
    fg: Color,
)
    requires
        opaque(accent),
        opaque(fg),
        0 <= w <= 0xffff_ffff,
        0 <= h <= 0xffff_ffff,
        -0x2_0000_0000 <= x <= 0x2_0000_0000,
        -0x2_0000_0000 <= y <= 0x2_0000_0000,
        text@.len() <= MAX_LABEL_CHARS,
    ensures
        final(buf)@ == chip_pixels(old(buf)@, w as int, h as int, x as int, y as int, text@, accent, fg),
{
    let ghost start = buf@;
    let chars = crate::text::chars_of(text);
    let n = chars.len();
    let chip_w: i64 = 8 + 12 * (n as i64);
    let chip_h: i64 = 20;
    draw_filled_rect(buf, w, h, x, y, chip_w, chip_h, label_background_value());
    draw_rect_outline(buf, w, h, x, y, chip_w, chip_h, accent, 1);
    let ghost framed = buf@;
    let ghost (xi, yi) = (x as int + 4, y as int + 3);
    let ghost ts = chars@;
    let mut k: usize = 0;
    let mut cursor_x: i64 = x + 4;
    proof {
        lemma_paint_nothing(framed, w as int, h as int, |a: int, b: int| in_text(ts, 0, xi, yi, a, b), fg);
    }
    while k < n
        invariant
            opaque(fg),
            0 <= w <= 0xffff_ffff,
            0 <= h <= 0xffff_ffff,
            -0x2_0000_0000 <= x <= 0x2_0000_0000,
            -0x2_0000_0000 <= y <= 0x2_0000_0000,
            n == chars@.len(),
            n <= MAX_LABEL_CHARS,
            ts == chars@,
            xi == x + 4,
            yi == y + 3,
            k <= n,
            cursor_x == x + 4 + 12 * k,
            buf@ == paint_shape(
                framed,
                w as int,
                h as int,
                |a: int, b: int| in_text(ts, k as int, xi, yi, a, b),
                fg,
            ),
        decreases n - k,
    {
        draw_glyph(buf, w, h, cursor_x, y + 3, chars[k], fg);
        proof {
            assert forall|a: int, b: int| 0 <= a < w && 0 <= b < h implies #[trigger] in_text(
                ts,
                k + 1,
                xi,
                yi,
                a,
                b,
            ) == (in_text(ts, k as int, xi, yi, a, b) || glyph_shape(
                ts[k as int],
                cursor_x as int,
                yi,
                a,
                b,
            )) by {
                lemma_text_extend(ts, k as int, xi, yi, a, b);
            }
            lemma_paint_union(
                framed,
                w as int,
                h as int,
                |a: int, b: int| in_text(ts, k as int, xi, yi, a, b),
                |a: int, b: int| glyph_shape(ts[k as int], cursor_x as int, yi, a, b),
                |a: int, b: int| in_text(ts, k + 1, xi, yi, a, b),
                fg,
            );
        }
        k = k + 1;
        cursor_x = cursor_x + 12;
    }
}

/// The buffer after drawing a pin at (`x`, `y`) labelled `label`: a
/// three-pixel stem from 6 to 30 pixels below the point, a disc of radius
/// 12 on the point, a two-pixel white rim of radius 13, and a label chip to
/// the upper right.
pub open spec fn pin_pixels(buf: Seq<u8>, w: int, h: int, x: int, y: int, label: Seq<char>) -> Seq<
    u8,
> {
    let stem = paint_shape(
        buf,
        w,
        h,
        |a: int, b: int| on_thick_line(x, y + 6, x, y + 30, 3, a, b),
        pin_color(),
    );
    let head = paint_shape(stem, w, h, |a: int, b: int| in_disc(x, y, 12, a, b), pin_color());
    let rim = paint_shape(
        head,
        w,
        h,
        |a: int, b: int| in_circle_outline(x, y, 13, 2, a, b),
        label_foreground(),
    );
    chip_pixels(rim, w, h, x + 14, y - 10, label, pin_color(), label_foreground())
}

/// Draws a pin at (`x`, `y`), as [`pin_pixels`] states.
pub fn draw_pin(buf: &mut Vec<u8>, w: i64, h: i64, x: i64, y: i64, label: &str)
    requires
        0 <= w <= 0xffff_ffff,
        0 <= h <= 0xffff_ffff,
        -0x1_0000_0000 <= x <= 0x1_0000_0000,
        -0x1_0000_0000 <= y <= 0x1_0000_0000,
        label@.len() <= MAX_LABEL_CHARS,
    ensures
        final(buf)@ == pin_pixels(old(buf)@, w as int, h as int, x as int, y as int, label@),
{
    let pin = pin_color_value();
    let fg = label_foreground_value();
    draw_line(buf, w, h, x, y + 6, x, y + 30, pin, 3);
    draw_filled_circle(buf, w, h, x, y, 12, pin);
    draw_circle_outline(buf, w, h, x, y, 13, fg, 2);
    draw_label_chip(buf, w, h, x + 14, y - 10, label, pin, fg);
}

/// The buffer after drawing a rectangle marker: a three-pixel outline of
/// the rectangle and a label chip 8 pixels inside its top left corner.
pub open spec fn rectangle_pixels(
    buf: Seq<u8>,
    w: int,
    h: int,
    x: int,
    y: int,
    rect_w: int,
    rect_h: int,
    label: Seq<char>,
) -> Seq<u8> {
    let framed = paint_shape(
        buf,
        w,
        h,
        |a: int, b: int| on_outline(x, y, rect_w, rect_h, 3, a, b),
        rect_color(),
    );
    chip_pixels(framed, w, h, x + 8, y + 8, label, rect_color(), label_foreground())
}

/// Draws a rectangle marker, as [`rectangle_pixels`] states.
pub fn draw_rectangle(
    buf: &mut Vec<u8>,
    w: i64,
    h: i64,
    x: i64,
    y: i64,
    rect_w: i64,
    rect_h: i64,
    label: &str,
)
    requires
        0 <= w <= 0xffff_ffff,
        0 <= h <= 0xffff_ffff,
        -0x1_0000_0000 <= x <= 0x1_0000_0000,
        -0x1_0000_0000 <= y <= 0x1_0000_0000,
        -0x1_0000_0000 <= rect_w <= 0x1_0000_0000,
        -0x1_0000_0000 <= rect_h <= 0x1_0000_0000,
        label@.len() <= MAX_LABEL_CHARS,
    ensures
        final(buf)@ == rectangle_pixels(
            old(buf)@,
            w as int,
            h as int,
            x as int,
            y as int,
            rect_w as int,
            rect_h as int,
            label@,
        ),
{
    let color = rect_color_value();
    draw_rect_outline(buf, w, h, x, y, rect_w, rect_h, color, 3);
    draw_label_chip(buf, w, h, x + 8, y + 8, label, color, label_foreground_value());
}

} // verus!
