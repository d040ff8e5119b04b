//! The compositor's strokes: each thing the dock shows, as a block painted
//! with its ink.

use vstd::prelude::*;
use crate::brush::{fill_block, Brush};
use crate::color::argb;
use crate::paint::{drawn, Ink};
use crate::renderer::Renderer;

verus! {

/// The alpha at the middle of the glow behind a magnified icon, for an
/// intensity of 1.
pub const GLOW_ALPHA: u32 = 50;

/// The alpha at the middle of the glow around a running indicator.
pub const INDICATOR_GLOW_ALPHA: u32 = 80;

/// The radius of the glow around a running indicator.
pub const INDICATOR_GLOW_RADIUS: u32 = 8;

/// The radius of the dot of a running indicator.
pub const INDICATOR_DOT_RADIUS: u32 = 3;

/// The radius of the glow behind an icon of the size given: six tenths of it.
pub open spec fn glow_radius(size: u32) -> u32 {
    (size as int * 6 / 10) as u32
}

/// The peak of a glow of the intensity given, which is held to at most 1.
pub open spec fn glow_peak(intensity: u32) -> u32 {
    if intensity > 65536 {
        (GLOW_ALPHA * 65536) as u32
    } else {
        (GLOW_ALPHA * intensity) as u32
    }
}

/// The height of a separator line for icons of the size given: six tenths of it.
pub open spec fn separator_height(icon_size: u32) -> u32 {
    (icon_size as int * 6 / 10) as u32
}

impl Renderer {
    /// The colour of running indicators and drop marks, fully opaque.
    pub open spec fn indicator_pixel(&self) -> u32 {
        argb(
            255,
            self.indicator_color.0 as int,
            self.indicator_color.1 as int,
            self.indicator_color.2 as int,
        )
    }

    /// The colour of placeholders: the indicator colour at half its
    /// brightness and half transparent.
    pub open spec fn placeholder_pixel(&self) -> u32 {
        argb(
            128,
            self.indicator_color.0 as int / 2,
            self.indicator_color.1 as int / 2,
            self.indicator_color.2 as int / 2,
        )
    }

    /// The ink of the background of a surface of the size given.
    pub open spec fn background_ink(&self, width: u32, height: u32) -> Ink {
        Ink::Background { width, height, radius: self.corner_radius, color: self.bg_color }
    }

    /// The ink of the glow behind a magnified icon.
    pub open spec fn glow_ink(&self, size: u32, intensity: u32) -> Ink {
        Ink::Glow {
            radius: glow_radius(size),
            rgb: self.indicator_color,
            peak: glow_peak(intensity),
        }
    }

    /// The ink of the glow around a running indicator.
    pub open spec fn indicator_glow_ink(&self) -> Ink {
        Ink::Glow {
            radius: INDICATOR_GLOW_RADIUS,
            rgb: self.indicator_color,
            peak: (INDICATOR_GLOW_ALPHA * 65536) as u32,
        }
    }

    /// The ink of the dot of a running indicator.
    pub open spec fn indicator_dot_ink(&self) -> Ink {
        Ink::Dot { radius: INDICATOR_DOT_RADIUS, color: self.indicator_pixel() }
    }

    /// The ink of a separator line.
    pub open spec fn separator_ink(&self, icon_size: u32) -> Ink {
        Ink::Bar {
            width: 2,
            height: separator_height(icon_size),
            rgb: self.indicator_color,
            alpha: 128,
            edge: 15,
        }
    }

    /// The ink of a drop mark.
    pub open spec fn drop_ink(&self, icon_size: u32) -> Ink {
        Ink::Bar { width: 3, height: icon_size, rgb: self.indicator_color, alpha: 220, edge: 10 }
    }

    /// The surface with the indicator around `(center_x, center_y)`: a
    /// glow, and a dot over it.
    pub open spec fn with_indicator(
        &self,
        buf: Seq<u32>,
        buf_width: int,
        center_x: int,
        center_y: int,
    ) -> Seq<u32> {
        drawn(
            drawn(
                buf,
                buf_width,
                center_x - INDICATOR_GLOW_RADIUS,
                center_y - INDICATOR_GLOW_RADIUS,
                self.indicator_glow_ink(),
            ),
            buf_width,
            center_x - INDICATOR_DOT_RADIUS,
            center_y - INDICATOR_DOT_RADIUS,
            self.indicator_dot_ink(),
        )
    }

    /// The surface with a separator line in the slot whose upper left
    /// corner is `(x, y)`: upright in the middle of the slot.
    pub open spec fn with_separator(
        &self,
        buf: Seq<u32>,
        buf_width: int,
        x: int,
        y: int,
        icon_size: u32,
    ) -> Seq<u32> {
        drawn(
            buf,
            buf_width,
            x + icon_size / 6 - 1,
            y + (icon_size - separator_height(icon_size)) / 2,
            self.separator_ink(icon_size),
        )
    }

    /// Paints the background over a surface of the size given: a rounded
    /// rectangle in the background colour, brighter toward the top. Pixels
    /// outside the rounded corners are left as they are.
    pub fn draw_background(&self, buffer: &mut [u32], width: u32, height: u32)
        ensures
            final(buffer)@ == drawn(
                old(buffer)@,
                width as int,
                0,
                0,
                self.background_ink(width, height),
            ),
    {
        let brush = Brush::Background {
            width,
            height,
            radius: self.corner_radius,
            color: self.bg_color,
        };
        fill_block(buffer, width as usize, 0, 0, &brush);
    }

    /// Paints a soft round glow in the indicator colour around
    /// `(cx, cy)`, for an icon of the size given. The intensity is in
    /// fixed point and is held to at most 1.
    pub fn draw_glow_scaled(
        &self,
        buffer: &mut [u32],
        buf_width: usize,
        cx: i64,
        cy: i64,
        size: u32,
        intensity: u32,
    )
        ensures
            final(buffer)@ == drawn(
                old(buffer)@,
                buf_width as int,
                cx - glow_radius(size),
                cy - glow_radius(size),
                self.glow_ink(size, intensity),
            ),
    {
        let radius: u32 = ((size as u64) * 6 / 10) as u32;
        let held: u32 = if intensity > 65536 {
            65536
        } else {
            intensity
        };
        let brush = Brush::Glow { radius, rgb: self.indicator_color, peak: GLOW_ALPHA * held };
        fill_block(
            buffer,
            buf_width,
            cx as i128 - radius as i128,
            cy as i128 - radius as i128,
            &brush,
        );
    }

    /// Paints the reflection of an icon with its upper left corner at
    /// `(x, y)`: the lower part of the icon upside down, fading out
    /// downward, with bicubic sampling.
    pub fn draw_reflection_bicubic(
        &self,
        buffer: &mut [u32],
        buf_width: usize,
        pixels: &[u32],
        src_size: u32,
        x: i64,
        y: i64,
        dst_size: u32,
    )
        ensures
            final(buffer)@ == drawn(
                old(buffer)@,
                buf_width as int,
                x as int,
                y as int,
                (Ink::Reflection { pixels: pixels@, src: src_size, dst: dst_size, smooth: true }),
            ),
    {
        let brush = Brush::Reflection { pixels, src: src_size, dst: dst_size, smooth: true };
        fill_block(buffer, buf_width, x as i128, y as i128, &brush);
    }

    /// Paints the reflection of an icon with bilinear sampling.
    pub fn draw_reflection(
        &self,
        buffer: &mut [u32],
        buf_width: usize,
        pixels: &[u32],
        src_size: u32,
        x: i64,
        y: i64,
        dst_size: u32,
    )
        ensures
            final(buffer)@ == drawn(
                old(buffer)@,
                buf_width as int,
                x as int,
                y as int,
                (Ink::Reflection { pixels: pixels@, src: src_size, dst: dst_size, smooth: false }),
            ),
    {
        let brush = Brush::Reflection { pixels, src: src_size, dst: dst_size, smooth: false };
        fill_block(buffer, buf_width, x as i128, y as i128, &brush);
    }

    /// Paints an icon scaled to `dst_size` pixels a side, with its upper
    /// left corner at `(x, y)` and bicubic sampling.
    pub fn draw_icon_bicubic(
        &self,
        buffer: &mut [u32],
        buf_width: usize,
        pixels: &[u32],
        src_size: u32,
        x: i64,
        y: i64,
        dst_size: u32,
    )
        ensures
            final(buffer)@ == drawn(
                old(buffer)@,
                buf_width as int,
                x as int,
                y as int,
                (Ink::Icon { pixels: pixels@, src: src_size, dst: dst_size, smooth: true }),
            ),
    {
        let brush = Brush::Icon { pixels, src: src_size, dst: dst_size, smooth: true };
        fill_block(buffer, buf_width, x as i128, y as i128, &brush);
    }

    /// Paints an icon with bilinear sampling.
    pub fn draw_icon_bilinear(
        &self,
        buffer: &mut [u32],
        buf_width: usize,
        pixels: &[u32],
        src_size: u32,
        x: i64,
        y: i64,
        dst_size: u32,
    )
        ensures
            final(buffer)@ == drawn(
                old(buffer)@,
                buf_width as int,
                x as int,
                y as int,
                (Ink::Icon { pixels: pixels@, src: src_size, dst: dst_size, smooth: false }),
            ),
    {
        let brush = Brush::Icon { pixels, src: src_size, dst: dst_size, smooth: false };
        fill_block(buffer, buf_width, x as i128, y as i128, &brush);
    }

    /// Paints the mark of a running item around `(center_x, center_y)`: a
    /// glow, and an opaque dot over it.
    pub fn draw_indicator_glow(
        &self,
        buffer: &mut [u32],
        buf_width: usize,
        center_x: i64,
        center_y: i64,
    )
        ensures
            final(buffer)@ == self.with_indicator(
                old(buffer)@,
                buf_width as int,
                center_x as int,
                center_y as int,
            ),
    {
        let glow = Brush::Glow {
            radius: INDICATOR_GLOW_RADIUS,
            rgb: self.indicator_color,
            peak: INDICATOR_GLOW_ALPHA * 65536,
        };
        fill_block(
            buffer,
            buf_width,
            center_x as i128 - INDICATOR_GLOW_RADIUS as i128,
            center_y as i128 - INDICATOR_GLOW_RADIUS as i128,
            &glow,
        );
        let dot = Brush::Dot {
            radius: INDICATOR_DOT_RADIUS,
            color: crate::color::pack(
                255,
                self.indicator_color.0 as u32,
                self.indicator_color.1 as u32,
                self.indicator_color.2 as u32,
            ),
        };
        fill_block(
            buffer,
            buf_width,
            center_x as i128 - INDICATOR_DOT_RADIUS as i128,
            center_y as i128 - INDICATOR_DOT_RADIUS as i128,
            &dot,
        );
    }

    /// Paints the stand-in for an icon that could not be loaded: a
    /// rounded square, tinted with the indicator colour.
    pub fn draw_placeholder(&self, buffer: &mut [u32], buf_width: usize, x: i64, y: i64, size: u32)
        ensures
            final(buffer)@ == drawn(
                old(buffer)@,
                buf_width as int,
                x as int,
                y as int,
                (Ink::Placeholder { size, color: self.placeholder_pixel() }),
            ),
    {
        let brush = Brush::Placeholder {
            size,
            color: crate::color::pack(
                128,
                self.indicator_color.0 as u32 / 2,
                self.indicator_color.1 as u32 / 2,
                self.indicator_color.2 as u32 / 2,
            ),
        };
        fill_block(buffer, buf_width, x as i128, y as i128, &brush);
    }

    /// Paints a separator: a short upright line with faded ends, in the
    /// middle of the slot whose upper left corner is `(x, y)`.
    pub fn draw_separator(
        &self,
        buffer: &mut [u32],
        buf_width: usize,
        x: i64,
        y: i64,
        icon_size: u32,
    )
        ensures
            final(buffer)@ == self.with_separator(
                old(buffer)@,
                buf_width as int,
                x as int,
                y as int,
                icon_size,
            ),
    {
        let height: u32 = ((icon_size as u64) * 6 / 10) as u32;
        let brush = Brush::Bar {
            width: 2,
            height,
            rgb: self.indicator_color,
            alpha: 128,
            edge: 15,
        };
        fill_block(
            buffer,
            buf_width,
            x as i128 + (icon_size / 6) as i128 - 1,
            y as i128 + ((icon_size - height) / 2) as i128,
            &brush,
        );
    }

    /// Paints a drop mark: a bright upright bar with its upper left corner
    /// at `(x, y)`, as high as an icon.
    pub fn draw_drop_indicator(
        &self,
        buffer: &mut [u32],
        buf_width: usize,
        x: i64,
        y: i64,
        icon_size: u32,
    )
        ensures
            final(buffer)@ == drawn(
                old(buffer)@,
                buf_width as int,
                x as int,
                y as int,
                self.drop_ink(icon_size),
            ),
    {
        let brush = Brush::Bar {
            width: 3,
            height: icon_size,
            rgb: self.indicator_color,
            alpha: 220,
            edge: 10,
        };
        fill_block(buffer, buf_width, x as i128, y as i128, &brush);
    }
}

} // verus!
