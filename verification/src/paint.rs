//! Painting blocks of pixels into a surface buffer.
//!
//! A surface is a buffer of packed pixels, `buf_width` to a row. Everything
//! the compositor draws is a block: a rectangle of cells, painted row by
//! row, where an ink says what each cell does to the pixel under it. A cell
//! whose pixel would lie left of or above the surface, or beyond the end of
//! the buffer, paints nothing.

use vstd::prelude::*;
use crate::color::{alpha_of, argb, blend_over, blue_of, green_of, red_of};
use crate::fixed::sqrt_of;
use crate::sample::{bicubic, bilinear};

verus! {

/// What a cell does to the pixel under it.
#[derive(Debug, Clone, Copy, PartialEq, Eq, Structural)]
pub enum Stroke {
    /// Leaves the pixel as it is.
    Skip,
    /// Replaces the pixel.
    Put(u32),
    /// Composites a pixel over it.
    Over(u32),
}

/// The highest peak a glow can have: an alpha of 255 in fixed point.
pub const MAX_PEAK: u32 = 255 * 65536;

/// What a block is painted with.
pub enum Ink {
    /// A square image scaled to `dst` pixels a side.
    Icon { pixels: Seq<u32>, src: u32, dst: u32, smooth: bool },
    /// The lower part of an image, upside down and fading out downward.
    Reflection { pixels: Seq<u32>, src: u32, dst: u32, smooth: bool },
    /// A round glow that thins out toward its rim. `peak` is the alpha at
    /// its middle, in fixed point.
    Glow { radius: u32, rgb: (u8, u8, u8), peak: u32 },
    /// A round dot of one colour.
    Dot { radius: u32, color: u32 },
    /// A square with rounded corners, of one colour.
    Placeholder { size: u32, color: u32 },
    /// An upright bar whose ends fade out. `alpha` is the alpha of its
    /// middle part, `edge` the share of each end in hundredths.
    Bar { width: u32, height: u32, rgb: (u8, u8, u8), alpha: u8, edge: u8 },
    /// The dock's background: a rounded rectangle, brighter toward the top.
    Background { width: u32, height: u32, radius: u32, color: u32 },
}

/// The pixel with the alpha and the colour given.
pub open spec fn tinted(a: int, rgb: (u8, u8, u8)) -> u32 {
    argb(a, rgb.0 as int, rgb.1 as int, rgb.2 as int)
}

/// The position in the source image, in fixed point, that cell `i` of
/// `dst` samples.
pub open spec fn sample_pos(i: int, src: int, dst: int) -> int {
    i * src * 65536 / dst
}

/// How many rows the reflection of an icon of the size given has: 35
/// hundredths of the icon.
pub open spec fn reflection_rows(dst: int) -> int {
    dst * 35 / 100
}

/// The alpha of row `r` of a reflection of `h` rows: 60 at the top,
/// falling off with the square of the distance.
pub open spec fn row_fade(h: int, r: int) -> int {
    60 * ((h - r) * (h - r)) / (h * h)
}

/// A pixel with its alpha scaled by `row_alpha` out of 255, and held to
/// at most `row_alpha`.
pub open spec fn faded(p: u32, row_alpha: int) -> u32 {
    let a = alpha_of(p) * row_alpha / 255;
    argb(
        if a > row_alpha {
            row_alpha
        } else {
            a
        },
        red_of(p),
        green_of(p),
        blue_of(p),
    )
}

/// The alpha of a glow at the offset `(dx, dy)` from its middle: the peak
/// times the square of the share of the radius that is left.
pub open spec fn glow_alpha(radius: int, peak: int, dx: int, dy: int) -> int {
    let d = dx * dx + dy * dy;
    if radius > 0 && d <= radius * radius {
        let left = radius * 256 - sqrt_of(d * 65536);
        peak * (left * left) / (65536 * ((radius * 256) * (radius * 256)))
    } else {
        0
    }
}

/// The alpha of row `r` of a bar of `h` rows: rising over the first
/// `edge` hundredths, `peak` in the middle, falling over the last.
pub open spec fn bar_alpha(h: int, peak: int, edge: int, r: int) -> int {
    if r * 100 < edge * h {
        peak * 100 * r / (edge * h)
    } else if r * 100 > (100 - edge) * h {
        peak * 100 * (h - r) / (edge * h)
    } else {
        peak
    }
}

/// Whether the cell `(c, r)` lies in the square of the size given with
/// its corners rounded off at a sixth of the size.
pub open spec fn in_rounded_square(size: int, c: int, r: int) -> bool {
    let rad = size / 6;
    if c < rad && r < rad {
        (rad - c) * (rad - c) + (rad - r) * (rad - r) <= rad * rad
    } else if c >= size - rad && r < rad {
        (c - (size - rad - 1)) * (c - (size - rad - 1)) + (rad - r) * (rad - r) <= rad * rad
    } else if c < rad && r >= size - rad {
        (rad - c) * (rad - c) + (r - (size - rad - 1)) * (r - (size - rad - 1)) <= rad * rad
    } else if c >= size - rad && r >= size - rad {
        (c - (size - rad - 1)) * (c - (size - rad - 1)) + (r - (size - rad - 1)) * (r - (size
            - rad - 1)) <= rad * rad
    } else {
        true
    }
}

/// The square of the distance of `(x, y)` from the middle of the corner
/// circle it belongs to, in a rectangle with corners of the radius given;
/// `None` for a point in no corner.
pub open spec fn corner_distance(w: int, h: int, rad: int, x: int, y: int) -> Option<int> {
    if x < rad && y < rad {
        Some((rad - x) * (rad - x) + (rad - y) * (rad - y))
    } else if x >= w - rad && y < rad {
        Some((x - (w - rad - 1)) * (x - (w - rad - 1)) + (rad - y) * (rad - y))
    } else if x < rad && y >= h - rad {
        Some((rad - x) * (rad - x) + (y - (h - rad - 1)) * (y - (h - rad - 1)))
    } else if x >= w - rad && y >= h - rad {
        Some(
            (x - (w - rad - 1)) * (x - (w - rad - 1)) + (y - (h - rad - 1)) * (y - (h - rad
                - 1)),
        )
    } else {
        None
    }
}

/// How much of a pixel the rounded rectangle covers, out of 256: all of
/// it inside the corner circle, none of it a pixel or more outside, and in
/// the band between the two what is left of the pixel.
pub open spec fn coverage(rad: int, distance: Option<int>) -> int {
    match distance {
        None => 256,
        Some(d) => if d < rad * rad {
            256
        } else if d < (rad + 1) * (rad + 1) {
            (rad + 1) * 256 - sqrt_of(d * 65536)
        } else {
            0
        },
    }
}

/// A colour channel of the background in row `y` of `h`: the base colour
/// made brighter toward the top, by up to 8 hundredths over the whole
/// height and by up to a quarter more over the highest 15 hundredths.
pub open spec fn shaded(base: int, h: int, y: int) -> int {
    let v = if y * 100 < 15 * h {
        base * (399 * h - 524 * y) / (300 * h)
    } else {
        base * (27 * h - 2 * y) / (25 * h)
    };
    if v > 255 {
        255
    } else {
        v
    }
}

impl Ink {
    /// How many cells wide the block of the ink is.
    pub open spec fn cols(self) -> int {
        match self {
            Ink::Icon { dst, .. } => dst as int,
            Ink::Reflection { dst, .. } => dst as int,
            Ink::Glow { radius, .. } => 2 * radius + 1,
            Ink::Dot { radius, .. } => 2 * radius + 1,
            Ink::Placeholder { size, .. } => size as int,
            Ink::Bar { width, .. } => width as int,
            Ink::Background { width, .. } => width as int,
        }
    }

    /// How many cells high the block of the ink is.
    pub open spec fn rows(self) -> int {
        match self {
            Ink::Icon { dst, .. } => dst as int,
            Ink::Reflection { dst, .. } => reflection_rows(dst as int),
            Ink::Glow { radius, .. } => 2 * radius + 1,
            Ink::Dot { radius, .. } => 2 * radius + 1,
            Ink::Placeholder { size, .. } => size as int,
            Ink::Bar { height, .. } => height as int,
            Ink::Background { height, .. } => height as int,
        }
    }

    /// What the cell in column `c` and row `r` of the block does.
    pub open spec fn stroke(self, c: int, r: int) -> Stroke {
        match self {
            Ink::Icon { pixels, src, dst, smooth } => {
                let x = sample_pos(c, src as int, dst as int);
                let y = sample_pos(r, src as int, dst as int);
                Stroke::Over(
                    if smooth {
                        bicubic(pixels, src as int, x, y)
                    } else {
                        bilinear(pixels, src as int, x, y)
                    },
                )
            },
            Ink::Reflection { pixels, src, dst, smooth } => {
                let x = sample_pos(c, src as int, dst as int);
                let y = sample_pos(dst - 1 - r, src as int, dst as int);
                let p = if smooth {
                    bicubic(pixels, src as int, x, y)
                } else {
                    bilinear(pixels, src as int, x, y)
                };
                Stroke::Over(faded(p, row_fade(reflection_rows(dst as int), r)))
            },
            Ink::Glow { radius, rgb, peak } => {
                let a = glow_alpha(radius as int, peak as int, c - radius, r - radius);
                if a > 0 {
                    Stroke::Over(tinted(a, rgb))
                } else {
                    Stroke::Skip
                }
            },
            Ink::Dot { radius, color } => {
                if (c - radius) * (c - radius) + (r - radius) * (r - radius) <= radius * radius {
                    Stroke::Put(color)
                } else {
                    Stroke::Skip
                }
            },
            Ink::Placeholder { size, color } => {
                if in_rounded_square(size as int, c, r) {
                    Stroke::Over(color)
                } else {
                    Stroke::Skip
                }
            },
            Ink::Bar { height, rgb, alpha, edge, .. } => Stroke::Over(
                tinted(bar_alpha(height as int, alpha as int, edge as int, r), rgb),
            ),
            Ink::Background { width, height, radius, color } => {
                let cover = coverage(
                    radius as int,
                    corner_distance(width as int, height as int, radius as int, c, r),
                );
                if cover > 0 {
                    Stroke::Put(
                        argb(
                            alpha_of(color) * cover / 256,
                            shaded(red_of(color), height as int, r),
                            shaded(green_of(color), height as int, r),
                            shaded(blue_of(color), height as int, r),
                        ),
                    )
                } else {
                    Stroke::Skip
                }
            },
        }
    }

    /// Whether the numbers of the ink are such that its strokes are
    /// pixels: a glow's peak is an alpha, and a bar's edge is a share of at
    /// most half.
    pub open spec fn wf(self) -> bool {
        match self {
            Ink::Glow { peak, .. } => peak <= MAX_PEAK,
            Ink::Bar { edge, .. } => 1 <= edge <= 50,
            _ => true,
        }
    }
}

/// The buffer after `stroke` was applied to the pixel at `(px, py)`.
pub open spec fn dabbed(buf: Seq<u32>, buf_width: int, px: int, py: int, stroke: Stroke) -> Seq<u32> {
    let idx = py * buf_width + px;
    if px >= 0 && py >= 0 && 0 <= idx < buf.len() {
        match stroke {
            Stroke::Skip => buf,
            Stroke::Put(p) => buf.update(idx, p),
            Stroke::Over(p) => buf.update(idx, blend_over(buf[idx], p)),
        }
    } else {
        buf
    }
}

/// The buffer after the first `count` cells of a block were painted, row
/// by row from the upper left. The block's upper left cell lies on the
/// pixel `(ox, oy)`.
pub open spec fn painted(
    buf: Seq<u32>,
    buf_width: int,
    ox: int,
    oy: int,
    ink: Ink,
    count: int,
) -> Seq<u32>
    decreases count,
{
    if count <= 0 || ink.cols() <= 0 {
        buf
    } else {
        let k = count - 1;
        dabbed(
            painted(buf, buf_width, ox, oy, ink, k),
            buf_width,
            ox + k % ink.cols(),
            oy + k / ink.cols(),
            ink.stroke(k % ink.cols(), k / ink.cols()),
        )
    }
}

/// The buffer after the whole block was painted.
pub open spec fn drawn(buf: Seq<u32>, buf_width: int, ox: int, oy: int, ink: Ink) -> Seq<u32> {
    painted(buf, buf_width, ox, oy, ink, ink.cols() * ink.rows())
}

/// Painting keeps the size of the buffer.
pub proof fn lemma_painted_len(
    buf: Seq<u32>,
    buf_width: int,
    ox: int,
    oy: int,
    ink: Ink,
    count: int,
)
    ensures
        painted(buf, buf_width, ox, oy, ink, count).len() == buf.len(),
    decreases count,
{
    if count > 0 && ink.cols() > 0 {
        lemma_painted_len(buf, buf_width, ox, oy, ink, count - 1);
        let k = count - 1;
        let before = painted(buf, buf_width, ox, oy, ink, k);
        let stroke = ink.stroke(k % ink.cols(), k / ink.cols());
        assert(painted(buf, buf_width, ox, oy, ink, count) == dabbed(
            before,
            buf_width,
            ox + k % ink.cols(),
            oy + k / ink.cols(),
            stroke,
        ));
        lemma_dabbed_len(before, buf_width, ox + k % ink.cols(), oy + k / ink.cols(), stroke);
    }
}

/// A block keeps the size of the buffer.
pub proof fn lemma_drawn_len(buf: Seq<u32>, buf_width: int, ox: int, oy: int, ink: Ink)
    ensures
        #[trigger] drawn(buf, buf_width, ox, oy, ink).len() == buf.len(),
{
    lemma_painted_len(buf, buf_width, ox, oy, ink, ink.cols() * ink.rows());
}

/// A stroke keeps the size of the buffer.
pub proof fn lemma_dabbed_len(buf: Seq<u32>, buf_width: int, px: int, py: int, stroke: Stroke)
    ensures
        dabbed(buf, buf_width, px, py, stroke).len() == buf.len(),
{
}

/// The pixel that a stroke makes of the pixel under it.
pub open spec fn applied(under: u32, stroke: Stroke) -> u32 {
    match stroke {
        Stroke::Skip => under,
        Stroke::Put(p) => p,
        Stroke::Over(p) => blend_over(under, p),
    }
}

/// The place in the buffer of the pixel under the cell `(c, r)` of a block.
pub open spec fn cell_index(buf_width: int, ox: int, oy: int, c: int, r: int) -> int {
    (oy + r) * buf_width + (ox + c)
}

/// Whether a block lies within the surface: it begins right of and below
/// the surface's corner, ends before the surface's right edge, and its last
/// row is a row of the buffer.
pub open spec fn block_within(buf: Seq<u32>, buf_width: int, ox: int, oy: int, ink: Ink) -> bool {
    &&& 0 <= ox
    &&& 0 <= oy
    &&& 0 < ink.cols()
    &&& 0 <= ink.rows()
    &&& ox + ink.cols() <= buf_width
    &&& (oy + ink.rows()) * buf_width <= buf.len()
}

/// Whether the pixel at the place `i` of the buffer lies under a block.
pub open spec fn under_block(buf_width: int, ox: int, oy: int, ink: Ink, i: int) -> bool {
    &&& ox <= i % buf_width < ox + ink.cols()
    &&& oy <= i / buf_width < oy + ink.rows()
}

proof fn lemma_cell_place(buf: Seq<u32>, buf_width: int, ox: int, oy: int, ink: Ink, c: int, r: int)
    requires
        block_within(buf, buf_width, ox, oy, ink),
        0 <= c < ink.cols(),
        0 <= r < ink.rows(),
    ensures
        0 <= cell_index(buf_width, ox, oy, c, r) < buf.len(),
        cell_index(buf_width, ox, oy, c, r) % buf_width == ox + c,
        cell_index(buf_width, ox, oy, c, r) / buf_width == oy + r,
        0 <= r * ink.cols() + c < ink.cols() * ink.rows(),
        (r * ink.cols() + c) % ink.cols() == c,
        (r * ink.cols() + c) / ink.cols() == r,
{
    let i = cell_index(buf_width, ox, oy, c, r);
    assert(i == buf_width * (oy + r) + (ox + c)) by (nonlinear_arith)
        requires
            i == (oy + r) * buf_width + (ox + c),
    ;
    vstd::arithmetic::div_mod::lemma_fundamental_div_mod_converse(i, buf_width, oy + r, ox + c);
    assert(0 <= i < (oy + ink.rows()) * buf_width) by (nonlinear_arith)
        requires
            i == (oy + r) * buf_width + (ox + c),
            0 <= ox + c < buf_width,
            0 <= oy,
            0 <= r < ink.rows(),
    ;
    let k = r * ink.cols() + c;
    assert(0 <= k < ink.cols() * ink.rows() && k == ink.cols() * r + c) by (nonlinear_arith)
        requires
            k == r * ink.cols() + c,
            0 <= c < ink.cols(),
            0 <= r < ink.rows(),
    ;
    vstd::arithmetic::div_mod::lemma_fundamental_div_mod_converse(k, ink.cols(), r, c);
}

/// A block within the surface paints each pixel under it once, with the
/// stroke of the cell over it, and leaves every other pixel as it was.
/// After the first `count` cells, the pixels under those cells are painted.
pub proof fn lemma_block_within_surface(
    buf: Seq<u32>,
    buf_width: int,
    ox: int,
    oy: int,
    ink: Ink,
    count: int,
)
    requires
        block_within(buf, buf_width, ox, oy, ink),
        0 <= count <= ink.cols() * ink.rows(),
    ensures
        painted(buf, buf_width, ox, oy, ink, count).len() == buf.len(),
        forall|c: int, r: int|
            0 <= c < ink.cols() && 0 <= r < ink.rows() ==> painted(
                buf,
                buf_width,
                ox,
                oy,
                ink,
                count,
            )[#[trigger] cell_index(buf_width, ox, oy, c, r)] == (if r * ink.cols() + c < count {
                applied(buf[cell_index(buf_width, ox, oy, c, r)], ink.stroke(c, r))
            } else {
                buf[cell_index(buf_width, ox, oy, c, r)]
            }),
        forall|i: int|
            0 <= i < buf.len() && !under_block(buf_width, ox, oy, ink, i) ==> #[trigger] painted(
                buf,
                buf_width,
                ox,
                oy,
                ink,
                count,
            )[i] == buf[i],
    decreases count,
{
    lemma_painted_len(buf, buf_width, ox, oy, ink, count);
    if count > 0 {
        let k = count - 1;
        let cols = ink.cols();
        lemma_block_within_surface(buf, buf_width, ox, oy, ink, k);
        let before = painted(buf, buf_width, ox, oy, ink, k);
        let after = painted(buf, buf_width, ox, oy, ink, count);
        let ck = k % cols;
        let rk = k / cols;
        assert(0 <= rk < ink.rows() && k == rk * cols + ck) by {
            vstd::arithmetic::div_mod::lemma_fundamental_div_mod(k, cols);
            assert(k == cols * rk + ck);
            assert(rk < ink.rows() && rk >= 0 && cols * rk == rk * cols) by (nonlinear_arith)
                requires
                    k == cols * rk + ck,
                    0 <= ck < cols,
                    0 <= k < cols * ink.rows(),
            ;
        }
        lemma_cell_place(buf, buf_width, ox, oy, ink, ck, rk);
        let at = cell_index(buf_width, ox, oy, ck, rk);
        let stroke = ink.stroke(ck, rk);
        assert(after == dabbed(before, buf_width, ox + ck, oy + rk, stroke));
        lemma_painted_len(buf, buf_width, ox, oy, ink, k);
        assert(before[at] == buf[at]);
        assert forall|c: int, r: int| 0 <= c < cols && 0 <= r < ink.rows() implies after[#[trigger] cell_index(
            buf_width,
            ox,
            oy,
            c,
            r,
        )] == (if r * cols + c < count {
            applied(buf[cell_index(buf_width, ox, oy, c, r)], ink.stroke(c, r))
        } else {
            buf[cell_index(buf_width, ox, oy, c, r)]
        }) by {
            lemma_cell_place(buf, buf_width, ox, oy, ink, c, r);
            let i = cell_index(buf_width, ox, oy, c, r);
            if i == at {
                assert(c == ck && r == rk);
            } else {
                assert(r * cols + c != k);
                assert(after[i] == before[i]);
            }
        }
        assert forall|i: int|
            0 <= i < buf.len() && !under_block(buf_width, ox, oy, ink, i) implies #[trigger] after[i]
            == buf[i] by {
            assert(i != at);
            assert(after[i] == before[i]);
        }
    }
}

/// A flat icon is painted flat: every cell of an icon whose image is
/// complete and of one colour lays that colour over its pixel, whatever
/// the size the icon is scaled to.
pub proof fn lemma_flat_icon_strokes(pixels: Seq<u32>, src: u32, dst: u32, colour: u32, c: int, r: int)
    requires
        crate::sample::is_flat(pixels, src as int, colour),
    ensures
        (Ink::Icon { pixels, src, dst, smooth: true }).stroke(c, r) == Stroke::Over(colour),
{
    crate::sample::lemma_bicubic_flat(
        pixels,
        src as int,
        colour,
        sample_pos(c, src as int, dst as int),
        sample_pos(r, src as int, dst as int),
    );
}

} // verus!
