//! RGBA pixel buffers and the pixel work done on key images: the
//! placeholder avatar, the rounded LIVE badge, and the darkened strips
//! under the text.
use vstd::prelude::*;

verus! {

/// One RGBA pixel.
#[derive(Clone, Copy, Debug, PartialEq, Eq, Structural)]
pub struct Rgba8 {
    pub r: u8,
    pub g: u8,
    pub b: u8,
    pub a: u8,
}

/// An image as rows of RGBA pixels, top row first.
pub struct Raster {
    pub width: u32,
    pub height: u32,
    /// The pixels, row after row: pixel `(x, y)` is at `y * width + x`.
    pub pixels: Vec<Rgba8>,
}

impl Raster {
    /// The buffer holds one pixel per position.
    pub open spec fn wf(&self) -> bool {
        self.pixels@.len() == self.width * self.height
    }

    /// The pixel at `(x, y)`.
    pub open spec fn at(&self, x: int, y: int) -> Rgba8 {
        self.pixels@[y * self.width + x]
    }
}

/// The pixel at `(x, y)` of row-major pixels `px` with rows `w` wide.
pub open spec fn pixel_at(px: Seq<Rgba8>, w: int, x: int, y: int) -> Rgba8 {
    px[y * w + x]
}

/// The position of pixel `(x, y)` in a `w × h` image lies inside its buffer.
pub proof fn lemma_index_in_bounds(w: int, h: int, x: int, y: int)
    requires
        0 <= x < w,
        0 <= y < h,
    ensures
        0 <= y * w + x < w * h,
{
    assert(0 <= y * w) by (nonlinear_arith)
        requires
            0 <= y,
            0 <= w,
    ;
    assert(y * w + x < w * h) by (nonlinear_arith)
        requires
            0 <= x < w,
            0 <= y < h,
    ;
}

proof fn lemma_next_row(w: int, y: int)
    ensures
        (y + 1) * w == y * w + w,
{
    assert((y + 1) * w == y * w + w) by (nonlinear_arith);
}

/// Two positions of the same buffer differ when their coordinates do.
proof fn lemma_index_distinct(w: int, x1: int, y1: int, x2: int, y2: int)
    requires
        0 <= x1 < w,
        0 <= x2 < w,
        0 <= y1,
        0 <= y2,
        y1 < y2 || (y1 == y2 && x1 < x2),
    ensures
        y1 * w + x1 < y2 * w + x2,
{
    if y1 < y2 {
        assert(y1 * w + w <= y2 * w) by (nonlinear_arith)
            requires
                y1 < y2,
                0 <= w,
        ;
    }
}

// ── Pixel operations ───────────────────────────────────────────────────────

/// A change applied to every pixel of an image, depending on its place.
pub enum PixelOp {
    /// Darken the pixels with `x < cols` and `y < rows` towards black: each
    /// colour channel `c` becomes `c * keep / 2^25`.
    Shade { rows: u32, cols: u32, keep: u32 },
    /// Paint the pixels inside a rectangle with rounded corners.
    RoundedRect { x1: i64, y1: i64, x2: i64, y2: i64, ri: i64, color: Rgba8 },
    /// Replace every pixel by the placeholder's pixel at its place.
    Placeholder { live: bool },
}

/// A colour channel darkened towards black, keeping `keep / 2^25` of it.
pub open spec fn shade_channel(c: u8, keep: u32) -> u8 {
    ((c as nat * keep as nat) / 33554432) as u8
}

/// A pixel darkened towards black; alpha stays.
pub open spec fn shade_pixel(p: Rgba8, keep: u32) -> Rgba8 {
    Rgba8 {
        r: shade_channel(p.r, keep),
        g: shade_channel(p.g, keep),
        b: shade_channel(p.b, keep),
        a: p.a,
    }
}

/// The centre of the corner circle nearest to a coordinate: the coordinate
/// itself between the corners, else the corner circle's centre.
pub open spec fn corner_centre(p: int, lo: int, hi: int, ri: int) -> int {
    if p < lo + ri {
        lo + ri
    } else if p >= hi - ri {
        hi - ri - 1
    } else {
        p
    }
}

/// Whether `(px, py)` lies in the rectangle `[x1, x2) × [y1, y2)` with its
/// corners rounded to quarter circles of radius `ri`.
pub open spec fn in_rounded_rect(px: int, py: int, x1: int, y1: int, x2: int, y2: int, ri: int) -> bool {
    let dx = px - corner_centre(px, x1, x2, ri);
    let dy = py - corner_centre(py, y1, y2, ri);
    x1 <= px < x2 && y1 <= py < y2 && dx * dx + dy * dy <= ri * ri
}

/// The placeholder's fill: purple when live, grey when offline.
pub open spec fn placeholder_fill(live: bool) -> Rgba8 {
    if live {
        Rgba8 { r: 0x91, g: 0x46, b: 0xff, a: 0xff }
    } else {
        Rgba8 { r: 0x55, g: 0x55, b: 0x55, a: 0xff }
    }
}

/// The placeholder's letter colour: white when live, light grey offline.
pub open spec fn placeholder_ink(live: bool) -> Rgba8 {
    if live {
        Rgba8 { r: 0xff, g: 0xff, b: 0xff, a: 0xff }
    } else {
        Rgba8 { r: 0xaa, g: 0xaa, b: 0xaa, a: 0xff }
    }
}

/// Whether `(x, y)` is on the placeholder's "T": the bar across rows 44 to
/// 61 from column 36 to 107, and the stem across rows 62 to 111 from column
/// 64 to 79.
pub open spec fn on_letter_t(x: int, y: int) -> bool {
    (44 <= y < 62 && 36 <= x < 108) || (62 <= y < 112 && 64 <= x < 80)
}

/// Whether `(x, y)` is on the placeholder's disc of radius 68 about (72, 72).
pub open spec fn on_disc(x: int, y: int) -> bool {
    (x - 72) * (x - 72) + (y - 72) * (y - 72) <= 68 * 68
}

/// The placeholder's pixel at `(x, y)`: the letter over the disc over a
/// transparent background.
pub open spec fn placeholder_pixel(live: bool, x: int, y: int) -> Rgba8 {
    if on_letter_t(x, y) {
        placeholder_ink(live)
    } else if on_disc(x, y) {
        placeholder_fill(live)
    } else {
        Rgba8 { r: 0, g: 0, b: 0, a: 0 }
    }
}

/// What an operation makes of pixel `p` at `(x, y)`.
pub open spec fn op_pixel(op: PixelOp, p: Rgba8, x: int, y: int) -> Rgba8 {
    match op {
        PixelOp::Shade { rows, cols, keep } => if x < cols && y < rows {
            shade_pixel(p, keep)
        } else {
            p
        },
        PixelOp::RoundedRect { x1, y1, x2, y2, ri, color } => if in_rounded_rect(
            x,
            y,
            x1 as int,
            y1 as int,
            x2 as int,
            y2 as int,
            ri as int,
        ) {
            color
        } else {
            p
        },
        PixelOp::Placeholder { live } => placeholder_pixel(live, x, y),
    }
}

/// The operation can be computed without overflow on an image of this size.
pub open spec fn op_ok(op: PixelOp, w: u32, h: u32) -> bool {
    match op {
        PixelOp::Shade { rows, cols, keep } => keep < 33554432,
        PixelOp::RoundedRect { x1, y1, x2, y2, ri, color } => {
            &&& 0 <= x1
            &&& 0 <= y1
            &&& x2 <= u32::MAX
            &&& y2 <= u32::MAX
            &&& 0 <= ri <= 32767
            &&& x1 <= x2
            &&& y1 <= y2
            &&& 2 * ri <= x2 - x1
            &&& 2 * ri <= y2 - y1
        },
        PixelOp::Placeholder { live } => w <= 144 && h <= 144,
    }
}

fn shade_channel_exec(c: u8, keep: u32) -> (r: u8)
    requires
        keep < 33554432,
    ensures
        r == shade_channel(c, keep),
{
    assert((c as int) * (keep as int) <= 255 * 33554432) by (nonlinear_arith)
        requires
            c <= 255,
            keep < 33554432,
    ;
    let v: u64 = (c as u64) * (keep as u64);
    let q = v / 33554432;
    assert(q < 256);
    q as u8
}

fn corner_centre_exec(p: i64, lo: i64, hi: i64, ri: i64) -> (r: i64)
    requires
        0 <= ri <= 32767,
        0 <= lo <= hi <= u32::MAX,
        0 <= p <= u32::MAX,
        2 * ri <= hi - lo,
    ensures
        r == corner_centre(p as int, lo as int, hi as int, ri as int),
{
    if p < lo + ri {
        lo + ri
    } else if p >= hi - ri {
        hi - ri - 1
    } else {
        p
    }
}

fn op_pixel_exec(op: &PixelOp, p: Rgba8, x: u32, y: u32, w: u32, h: u32) -> (r: Rgba8)
    requires
        op_ok(*op, w, h),
        x < w,
        y < h,
    ensures
        r == op_pixel(*op, p, x as int, y as int),
{
    match op {
        PixelOp::Shade { rows, cols, keep } => {
            if x < *cols && y < *rows {
                Rgba8 {
                    r: shade_channel_exec(p.r, *keep),
                    g: shade_channel_exec(p.g, *keep),
                    b: shade_channel_exec(p.b, *keep),
                    a: p.a,
                }
            } else {
                p
            }
        },
        PixelOp::RoundedRect { x1, y1, x2, y2, ri, color } => {
            let px = x as i64;
            let py = y as i64;
            if px < *x1 || px >= *x2 || py < *y1 || py >= *y2 {
                return p;
            }
            let cx = corner_centre_exec(px, *x1, *x2, *ri);
            let cy = corner_centre_exec(py, *y1, *y2, *ri);
            let dx = px - cx;
            let dy = py - cy;
            let r2 = *ri;
            assert(-r2 <= dx <= r2);
            assert(-r2 <= dy <= r2);
            assert(dx * dx <= r2 * r2 && dy * dy <= r2 * r2 && r2 * r2 <= 32767 * 32767)
                by (nonlinear_arith)
                requires
                    -r2 <= dx <= r2,
                    -r2 <= dy <= r2,
                    0 <= r2 <= 32767,
            ;
            assert(0 <= dx * dx && 0 <= dy * dy) by (nonlinear_arith);
            if dx * dx + dy * dy <= r2 * r2 {
                *color
            } else {
                p
            }
        },
        PixelOp::Placeholder { live } => {
            let xi = x as i32;
            let yi = y as i32;
            let on_t = (44 <= yi && yi < 62 && 36 <= xi && xi < 108) || (62 <= yi && yi < 112 && 64
                <= xi && xi < 80);
            if on_t {
                if *live {
                    Rgba8 { r: 0xff, g: 0xff, b: 0xff, a: 0xff }
                } else {
                    Rgba8 { r: 0xaa, g: 0xaa, b: 0xaa, a: 0xff }
                }
            } else {
                let dx = xi - 72;
                let dy = yi - 72;
                assert(dx * dx <= 72 * 72 && dy * dy <= 72 * 72) by (nonlinear_arith)
                    requires
                        -72 <= dx <= 72,
                        -72 <= dy <= 72,
                ;
                assert(0 <= dx * dx && 0 <= dy * dy) by (nonlinear_arith);
                if dx * dx + dy * dy <= 68 * 68 {
                    if *live {
                        Rgba8 { r: 0x91, g: 0x46, b: 0xff, a: 0xff }
                    } else {
                        Rgba8 { r: 0x55, g: 0x55, b: 0x55, a: 0xff }
                    }
                } else {
                    Rgba8 { r: 0, g: 0, b: 0, a: 0 }
                }
            }
        },
    }
}

/// The image with `op` applied to every pixel.
#[verifier::loop_isolation(false)]
pub fn apply_op(img: &Raster, op: &PixelOp) -> (out: Raster)
    requires
        img.wf(),
        op_ok(*op, img.width, img.height),
    ensures
        out.wf(),
        out.width == img.width,
        out.height == img.height,
        forall|x: int, y: int|
            0 <= x < img.width && 0 <= y < img.height ==> #[trigger] pixel_at(
                out.pixels@,
                img.width as int,
                x,
                y,
            ) == op_pixel(*op, pixel_at(img.pixels@, img.width as int, x, y), x, y),
{
    let w = img.width;
    let h = img.height;
    let ghost wi = w as int;
    let n = img.pixels.len();
    let mut px: Vec<Rgba8> = Vec::new();
    let mut idx: usize = 0;
    let mut y: u32 = 0;
    while y < h
        invariant
            y <= h,
            idx == y * wi,
            px@.len() == idx,
            forall|x2: int, y2: int|
                0 <= x2 < wi && 0 <= y2 < y ==> #[trigger] pixel_at(px@, wi, x2, y2) == op_pixel(
                    *op,
                    pixel_at(img.pixels@, wi, x2, y2),
                    x2,
                    y2,
                ),
        decreases h - y,
    {
        let mut x: u32 = 0;
        while x < w
            invariant
                y < h,
                x <= w,
                idx == y * wi + x,
                px@.len() == idx,
                forall|x2: int, y2: int|
                    0 <= x2 < wi && 0 <= y2 < y ==> #[trigger] pixel_at(px@, wi, x2, y2)
                        == op_pixel(*op, pixel_at(img.pixels@, wi, x2, y2), x2, y2),
                forall|x2: int|
                    0 <= x2 < x ==> #[trigger] pixel_at(px@, wi, x2, y as int) == op_pixel(
                        *op,
                        pixel_at(img.pixels@, wi, x2, y as int),
                        x2,
                        y as int,
                    ),
            decreases w - x,
        {
            proof {
                lemma_index_in_bounds(wi, h as int, x as int, y as int);
            }
            assert(idx < n);
            let p = img.pixels[idx];
            let q = op_pixel_exec(op, p, x, y, w, h);
            let ghost prev = px@;
            px.push(q);
            proof {
                assert forall|x2: int, y2: int|
                    0 <= x2 < wi && 0 <= y2 < y implies #[trigger] pixel_at(px@, wi, x2, y2)
                    == op_pixel(*op, pixel_at(img.pixels@, wi, x2, y2), x2, y2) by {
                    lemma_index_distinct(wi, x2, y2, x as int, y as int);
                    assert(pixel_at(px@, wi, x2, y2) == pixel_at(prev, wi, x2, y2));
                }
                assert forall|x2: int|
                    0 <= x2 < x + 1 implies #[trigger] pixel_at(px@, wi, x2, y as int) == op_pixel(
                    *op,
                    pixel_at(img.pixels@, wi, x2, y as int),
                    x2,
                    y as int,
                ) by {
                    if x2 < x {
                        lemma_index_distinct(wi, x2, y as int, x as int, y as int);
                        assert(pixel_at(px@, wi, x2, y as int) == pixel_at(prev, wi, x2, y as int));
                    }
                }
            }
            x = x + 1;
            idx = idx + 1;
        }
        proof {
            lemma_next_row(wi, y as int);
        }
        y = y + 1;
    }
    assert(h * wi == wi * h) by (nonlinear_arith);
    Raster { width: w, height: h, pixels: px }
}

// ── The drawings ───────────────────────────────────────────────────────────

/// A `width × height` image of transparent black pixels.
pub fn blank(width: u32, height: u32) -> (out: Raster)
    requires
        width * height <= usize::MAX,
    ensures
        out.wf(),
        out.width == width,
        out.height == height,
        forall|i: int| 0 <= i < out.pixels@.len() ==> #[trigger] out.pixels@[i] == (Rgba8 {
            r: 0,
            g: 0,
            b: 0,
            a: 0,
        }),
{
    let n: usize = (width as u64 * height as u64) as usize;
    let v: Vec<Rgba8> = vec![Rgba8 { r: 0, g: 0, b: 0, a: 0 }; n];
    Raster { width, height, pixels: v }
}

/// The 144 × 144 placeholder avatar: a "T" on a disc, purple and white when
/// live, greys when offline, on a transparent background.
pub fn placeholder_raster(is_live: bool) -> (out: Raster)
    ensures
        out.wf(),
        out.width == 144,
        out.height == 144,
        forall|x: int, y: int|
            0 <= x < 144 && 0 <= y < 144 ==> #[trigger] pixel_at(out.pixels@, 144, x, y)
                == placeholder_pixel(is_live, x, y),
{
    let base = blank(144, 144);
    apply_op(&base, &PixelOp::Placeholder { live: is_live })
}

/// The corner radius actually used for a `w × h` rectangle: at most half
/// of either side.
pub open spec fn clamped_radius(w: u32, h: u32, r: u32) -> u32 {
    let a = if r < w / 2 {
        r
    } else {
        w / 2
    };
    if a < h / 2 {
        a
    } else {
        h / 2
    }
}

/// A corner's centre, seen from the mirror image of a position.
proof fn lemma_corner_mirror(p: int, lo: int, hi: int, ri: int)
    requires
        0 <= ri,
        2 * ri <= hi - lo,
        lo <= p < hi,
    ensures
        (lo + hi - 1 - p) - corner_centre(lo + hi - 1 - p, lo, hi, ri) == -(p - corner_centre(
            p,
            lo,
            hi,
            ri,
        )),
{
}

/// The filled rounded rectangle is symmetric: mirroring a position across
/// the rectangle's middle column (`px ↦ x1 + x2 - 1 - px`) or middle row
/// keeps it inside or outside.
pub proof fn lemma_rounded_rect_mirror(px: int, py: int, x1: int, y1: int, x2: int, y2: int, ri: int)
    requires
        0 <= ri,
        2 * ri <= x2 - x1,
        2 * ri <= y2 - y1,
    ensures
        in_rounded_rect(px, py, x1, y1, x2, y2, ri) == in_rounded_rect(
            x1 + x2 - 1 - px,
            py,
            x1,
            y1,
            x2,
            y2,
            ri,
        ),
        in_rounded_rect(px, py, x1, y1, x2, y2, ri) == in_rounded_rect(
            px,
            y1 + y2 - 1 - py,
            x1,
            y1,
            x2,
            y2,
            ri,
        ),
{
    let mx = x1 + x2 - 1 - px;
    let my = y1 + y2 - 1 - py;
    let dx = px - corner_centre(px, x1, x2, ri);
    let dy = py - corner_centre(py, y1, y2, ri);
    if x1 <= px < x2 {
        lemma_corner_mirror(px, x1, x2, ri);
        let mdx = mx - corner_centre(mx, x1, x2, ri);
        assert(mdx * mdx == dx * dx) by (nonlinear_arith)
            requires
                mdx == -dx,
        ;
    }
    if y1 <= py < y2 {
        lemma_corner_mirror(py, y1, y2, ri);
        let mdy = my - corner_centre(my, y1, y2, ri);
        assert(mdy * mdy == dy * dy) by (nonlinear_arith)
            requires
                mdy == -dy,
        ;
    }
}

/// What `fill_rounded_rect` paints is symmetric under the same mirrors:
/// the clamped radius is at most half of either side.
pub proof fn lemma_fill_rounded_rect_mirror(px: int, py: int, x: u32, y: u32, w: u32, h: u32, r: u32)
    ensures
        ({
            let ri = clamped_radius(w, h, r) as int;
            let inside = |a: int, b: int| in_rounded_rect(a, b, x as int, y as int, x + w, y + h, ri);
            &&& inside(px, py) == inside(2 * x + w - 1 - px, py)
            &&& inside(px, py) == inside(px, 2 * y + h - 1 - py)
        }),
{
    let ri = clamped_radius(w, h, r) as int;
    assert(2 * ri <= w && 2 * ri <= h);
    lemma_rounded_rect_mirror(px, py, x as int, y as int, x + w, y + h, ri);
}

/// Whether a rectangle from `x` of width `w` starts below 2^31 but reaches
/// past it; drawing with 32-bit signed coordinates, such a rectangle has an
/// empty range of columns (or rows), and nothing is painted.
pub open spec fn crosses_i32(x: u32, w: u32) -> bool {
    x <= i32::MAX && x + w > i32::MAX
}

/// Paints the rectangle at `(x, y)` of size `w × h` with corners rounded to
/// radius `r` (at most half a side) in `color`, clipped to the image.  A
/// rectangle whose columns or rows start below 2^31 and reach past it
/// paints nothing.
pub fn fill_rounded_rect(img: &mut Raster, x: u32, y: u32, w: u32, h: u32, r: u32, color: Rgba8)
    requires
        old(img).wf(),
        x + w <= u32::MAX,
        y + h <= u32::MAX,
        clamped_radius(w, h, r) <= 32767,
    ensures
        final(img).wf(),
        final(img).width == old(img).width,
        final(img).height == old(img).height,
        forall|px: int, py: int|
            0 <= px < old(img).width && 0 <= py < old(img).height ==> #[trigger] pixel_at(
                final(img).pixels@,
                old(img).width as int,
                px,
                py,
            ) == (if !crosses_i32(x, w) && !crosses_i32(y, h) && in_rounded_rect(
                px,
                py,
                x as int,
                y as int,
                x + w,
                y + h,
                clamped_radius(w, h, r) as int,
            ) {
                color
            } else {
                pixel_at(old(img).pixels@, old(img).width as int, px, py)
            }),
{
    if (x <= 2147483647 && w > 2147483647 - x) || (y <= 2147483647 && h > 2147483647 - y) {
        return;
    }
    let a = if r < w / 2 {
        r
    } else {
        w / 2
    };
    let ri = if a < h / 2 {
        a
    } else {
        h / 2
    };
    let op = PixelOp::RoundedRect {
        x1: x as i64,
        y1: y as i64,
        x2: x as i64 + w as i64,
        y2: y as i64 + h as i64,
        ri: ri as i64,
        color,
    };
    let out = apply_op(img, &op);
    *img = out;
}

/// Darkens the pixels with `x < cols` and `y < rows` towards black, keeping
/// `keep / 2^25` of each colour channel; alpha stays.
pub fn shade(img: &mut Raster, rows: u32, cols: u32, keep: u32)
    requires
        old(img).wf(),
        keep < 33554432,
    ensures
        final(img).wf(),
        final(img).width == old(img).width,
        final(img).height == old(img).height,
        forall|px: int, py: int|
            0 <= px < old(img).width && 0 <= py < old(img).height ==> #[trigger] pixel_at(
                final(img).pixels@,
                old(img).width as int,
                px,
                py,
            ) == (if px < cols && py < rows {
                shade_pixel(pixel_at(old(img).pixels@, old(img).width as int, px, py), keep)
            } else {
                pixel_at(old(img).pixels@, old(img).width as int, px, py)
            }),
{
    let out = apply_op(img, &PixelOp::Shade { rows, cols, keep });
    *img = out;
}

/// The share of each colour channel kept under the viewer-count banner
/// (black at alpha 179), scaled by 2^25: the single-precision value of
/// `1 - 179/255` is exactly 10000536 / 2^25.
pub open spec fn banner_keep() -> u32 {
    10000536
}

/// The share kept under the follows counter's overlay (black at alpha 140),
/// scaled by 2^25: the single-precision value of `1 - 140/255` is exactly
/// 15132390 / 2^25.
pub open spec fn follows_keep() -> u32 {
    15132390
}

/// Darkening keeps a channel at or below its value.
pub proof fn lemma_shade_darkens(c: u8, keep: u32)
    requires
        keep < 33554432,
    ensures
        shade_channel(c, keep) <= c,
{
    assert((c as nat * keep as nat) / 33554432 <= c) by (nonlinear_arith)
        requires
            keep < 33554432,
    ;
}

/// Paints the red LIVE badge's background at the bottom right of a
/// 144 × 144 key image: 46 × 24 at (94, 116), corner radius 5.
pub fn live_badge_background(img: &mut Raster)
    requires
        old(img).wf(),
    ensures
        final(img).wf(),
        final(img).width == old(img).width,
        final(img).height == old(img).height,
        forall|px: int, py: int|
            0 <= px < old(img).width && 0 <= py < old(img).height ==> #[trigger] pixel_at(
                final(img).pixels@,
                old(img).width as int,
                px,
                py,
            ) == (if in_rounded_rect(px, py, 94, 116, 140, 140, 5) {
                Rgba8 { r: 0xe9, g: 0x19, b: 0x16, a: 0xff }
            } else {
                pixel_at(old(img).pixels@, old(img).width as int, px, py)
            }),
{
    fill_rounded_rect(img, 94, 116, 46, 24, 5, Rgba8 { r: 0xe9, g: 0x19, b: 0x16, a: 0xff });
}

/// Darkens the top 40 rows of a 144-wide key image under the viewer count.
pub fn viewer_banner(img: &mut Raster)
    requires
        old(img).wf(),
        old(img).width >= 144,
        old(img).height >= 40,
    ensures
        final(img).wf(),
        final(img).width == old(img).width,
        final(img).height == old(img).height,
        forall|px: int, py: int|
            0 <= px < old(img).width && 0 <= py < old(img).height ==> #[trigger] pixel_at(
                final(img).pixels@,
                old(img).width as int,
                px,
                py,
            ) == (if px < 144 && py < 40 {
                shade_pixel(
                    pixel_at(old(img).pixels@, old(img).width as int, px, py),
                    banner_keep(),
                )
            } else {
                pixel_at(old(img).pixels@, old(img).width as int, px, py)
            }),
{
    shade(img, 40, 144, 10000536);
}

/// Darkens the 72 × 72 follows-counter icon under its text.
pub fn follows_overlay(img: &mut Raster)
    requires
        old(img).wf(),
        old(img).width >= 72,
        old(img).height >= 72,
    ensures
        final(img).wf(),
        final(img).width == old(img).width,
        final(img).height == old(img).height,
        forall|px: int, py: int|
            0 <= px < old(img).width && 0 <= py < old(img).height ==> #[trigger] pixel_at(
                final(img).pixels@,
                old(img).width as int,
                px,
                py,
            ) == (if px < 72 && py < 72 {
                shade_pixel(
                    pixel_at(old(img).pixels@, old(img).width as int, px, py),
                    follows_keep(),
                )
            } else {
                pixel_at(old(img).pixels@, old(img).width as int, px, py)
            }),
{
    shade(img, 72, 72, 15132390);
}

/// The colour of the follows counter's "Live" label: purple while some
/// followed channel is live, grey otherwise.
pub fn follows_label_color(count: u32) -> (c: Rgba8)
    ensures
        c == (if count > 0 {
            Rgba8 { r: 0x91, g: 0x46, b: 0xff, a: 0xff }
        } else {
            Rgba8 { r: 0x88, g: 0x88, b: 0x88, a: 0xff }
        }),
{
    if count > 0 {
        Rgba8 { r: 0x91, g: 0x46, b: 0xff, a: 0xff }
    } else {
        Rgba8 { r: 0x88, g: 0x88, b: 0x88, a: 0xff }
    }
}

} // verus!
