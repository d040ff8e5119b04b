//! The picture shown in the system tray: three small rounded squares in a
//! row, in the indicator colour.

use vstd::prelude::*;
use crate::color::{blue, blue_of, green, green_of, red, red_of};
use crate::hex::{hex_number, read_hex, strip_hashes, FALLBACK_INDICATOR};

verus! {

/// The side of the tray picture, in pixels.
pub const TRAY_SIZE: usize = 32;

/// The side of each square.
pub const SQUARE_SIZE: usize = 7;

/// The distance from the left edge of one square to that of the next.
pub const SQUARE_PITCH: usize = 10;

/// The column of the left edge of the first square.
pub const SQUARES_LEFT: usize = 2;

/// The row of the upper edge of the squares.
pub const SQUARES_TOP: usize = 12;

/// The colour of the tray picture for a colour string: the colour that at
/// least six digits write, and the fallback indicator colour otherwise.
pub open spec fn tray_color(s: Seq<char>) -> u32 {
    match hex_number(strip_hashes(s)) {
        Some(v) => if strip_hashes(s).len() >= 6 {
            v
        } else {
            FALLBACK_INDICATOR
        },
        None => FALLBACK_INDICATOR,
    }
}

/// Whether the pixel `(x, y)` of the tray picture belongs to one of the
/// squares: within one of the three, and not on one of its four corners.
pub open spec fn on_square(x: int, y: int) -> bool {
    let dx = (x - SQUARES_LEFT) % (SQUARE_PITCH as int);
    let dy = y - SQUARES_TOP;
    &&& SQUARES_LEFT <= x < SQUARES_LEFT + 3 * SQUARE_PITCH
    &&& dx < SQUARE_SIZE
    &&& 0 <= dy < SQUARE_SIZE
    &&& !((dx == 0 || dx == SQUARE_SIZE - 1) && (dy == 0 || dy == SQUARE_SIZE - 1))
}

/// Byte `k` of the tray picture in the colour given: red, green, blue and
/// full alpha on the squares, nothing elsewhere.
pub open spec fn tray_byte(color: u32, k: int) -> u8 {
    let x = (k / 4) % (TRAY_SIZE as int);
    let y = (k / 4) / (TRAY_SIZE as int);
    if on_square(x, y) {
        if k % 4 == 0 {
            red_of(color) as u8
        } else if k % 4 == 1 {
            green_of(color) as u8
        } else if k % 4 == 2 {
            blue_of(color) as u8
        } else {
            255
        }
    } else {
        0
    }
}

/// The tray picture for a colour string: 32 by 32 pixels of four bytes
/// each, red, green, blue, alpha, row by row.
pub fn tray_icon_pixels(color_hex: &str) -> (rgba: Vec<u8>)
    ensures
        rgba@.len() == TRAY_SIZE * TRAY_SIZE * 4,
        forall|k: int| 0 <= k < rgba@.len() ==> rgba@[k] == tray_byte(tray_color(color_hex@), k),
{
    let color: u32 = tray_color_of(color_hex);
    let mut rgba: Vec<u8> = Vec::new();
    let mut y: usize = 0;
    while y < TRAY_SIZE
        invariant
            y <= TRAY_SIZE,
            color == tray_color(color_hex@),
            rgba@.len() == y * TRAY_SIZE * 4,
            forall|k: int| 0 <= k < rgba@.len() ==> rgba@[k] == tray_byte(color, k),
        decreases TRAY_SIZE - y,
    {
        let mut x: usize = 0;
        while x < TRAY_SIZE
            invariant
                y < TRAY_SIZE,
                x <= TRAY_SIZE,
                color == tray_color(color_hex@),
                rgba@.len() == (y * TRAY_SIZE + x) * 4,
                forall|k: int| 0 <= k < rgba@.len() ==> rgba@[k] == tray_byte(color, k),
            decreases TRAY_SIZE - x,
        {
            let inside: bool = is_on_square(x, y);
            if inside {
                rgba.push(red(color) as u8);
                rgba.push(green(color) as u8);
                rgba.push(blue(color) as u8);
                rgba.push(255);
            } else {
                rgba.push(0);
                rgba.push(0);
                rgba.push(0);
                rgba.push(0);
            }
            x += 1;
        }
        y += 1;
    }
    rgba
}

fn is_on_square(x: usize, y: usize) -> (r: bool)
    requires
        x < TRAY_SIZE,
        y < TRAY_SIZE,
    ensures
        r == on_square(x as int, y as int),
{
    if x < SQUARES_LEFT || x >= SQUARES_LEFT + 3 * SQUARE_PITCH || y < SQUARES_TOP {
        return false;
    }
    let dx: usize = (x - SQUARES_LEFT) % SQUARE_PITCH;
    let dy: usize = y - SQUARES_TOP;
    dx < SQUARE_SIZE && dy < SQUARE_SIZE && !((dx == 0 || dx == SQUARE_SIZE - 1) && (dy == 0 || dy
        == SQUARE_SIZE - 1))
}

fn tray_color_of(color_hex: &str) -> (color: u32)
    ensures
        color == tray_color(color_hex@),
{
    let n: usize = color_hex.unicode_len();
    let mut start: usize = 0;
    while start < n && color_hex.get_char(start) == '#'
        invariant
            n == color_hex@.len(),
            start <= n,
            forall|j: int| 0 <= j < start ==> color_hex@[j] == '#',
        decreases n - start,
    {
        start += 1;
    }
    proof {
        crate::hex::lemma_strip_length(color_hex@, start as int);
    }
    match read_hex(color_hex) {
        Some(v) => if n - start >= 6 {
            v
        } else {
            FALLBACK_INDICATOR
        },
        None => FALLBACK_INDICATOR,
    }
}

} // verus!
