//! The renderer: the dock surface's geometry and colours, and its icons.

use vstd::prelude::*;
use crate::config::{DockItem, DockSettings, ItemSpacing, Spacing};
use crate::hex::{parse_hex_color, parse_hex_rgb, color_number, opacity_alpha, FALLBACK_BACKGROUND, FALLBACK_INDICATOR};
use crate::color::{red_of, green_of, blue_of};
use crate::icon_cache::IconCache;

verus! {

/// Why a renderer could not be made.
#[derive(Debug, Clone, Copy, PartialEq, Eq)]
pub enum RenderError {
    /// The surface would be wider or taller than 32 bits can say.
    SurfaceTooLarge,
}

/// Paints the dock surface. The surface is `width` by `height` pixels; the
/// icons sit `padding.top` below its upper edge.
pub struct Renderer {
    pub width: u32,
    pub height: u32,
    pub icon_size: u32,
    pub spacing: ItemSpacing,
    pub padding: Spacing,
    pub negative_vertical_offset: i32,
    pub corner_radius: u32,
    pub bg_color: u32,
    pub indicator_color: (u8, u8, u8),
    pub icons: IconCache,
}

/// The room kept beside the row for magnified icons: two fifths of an icon.
pub open spec fn magnification_room(icon_size: int) -> int {
    icon_size * 4 / 10
}

/// The height kept below the row for reflections: a fifth of an icon.
pub open spec fn reflection_room(icon_size: int) -> int {
    icon_size * 2 / 10
}

/// The width of the surface for `count` items.
pub open spec fn surface_width(settings: DockSettings, count: int) -> int {
    if count > 0 {
        count * settings.icon_size + (count - 1) * settings.spacing.x + settings.padding.left
            + settings.padding.right + magnification_room(settings.icon_size as int)
    } else {
        settings.padding.left + settings.padding.right
    }
}

/// The height of the surface.
pub open spec fn surface_height(settings: DockSettings) -> int {
    settings.icon_size + settings.padding.top + settings.padding.bottom + reflection_room(
        settings.icon_size as int,
    ) + 4
}

/// The side of the square buffers that icons are kept in: six times the
/// shown size, and at least 384.
pub open spec fn icon_resolution(icon_size: int) -> int {
    if icon_size * 6 > 384 {
        icon_size * 6
    } else {
        384
    }
}

impl Renderer {
    /// Whether the renderer has the surface and the colours that the
    /// settings give for `count` items.
    pub open spec fn made_for(&self, settings: DockSettings, count: int) -> bool {
        &&& self.width == surface_width(settings, count)
        &&& self.height == surface_height(settings)
        &&& self.icon_size == settings.icon_size
        &&& self.spacing == settings.spacing
        &&& self.padding == settings.padding
        &&& self.negative_vertical_offset == settings.negative_vertical_offset
        &&& self.corner_radius == settings.corner_radius
        &&& self.bg_color == (opacity_alpha(settings.background_opacity) << 24)
            | color_number(settings.background_color@, FALLBACK_BACKGROUND)
        &&& self.indicator_color.0 == red_of(
            color_number(settings.indicator_color@, FALLBACK_INDICATOR),
        )
        &&& self.indicator_color.1 == green_of(
            color_number(settings.indicator_color@, FALLBACK_INDICATOR),
        )
        &&& self.indicator_color.2 == blue_of(
            color_number(settings.indicator_color@, FALLBACK_INDICATOR),
        )
    }

    /// A renderer for the settings and the number of items given, with no
    /// icon loaded yet. It fails exactly when the surface would not fit.
    pub fn new(settings: &DockSettings, items: &[DockItem]) -> (r: Result<Self, RenderError>)
        ensures
            match r {
                Ok(renderer) => {
                    &&& renderer.made_for(*settings, items@.len() as int)
                    &&& renderer.icons@ == Map::<Seq<char>, Seq<u32>>::empty()
                },
                Err(e) => {
                    &&& e == RenderError::SurfaceTooLarge
                    &&& (surface_width(*settings, items@.len() as int) > u32::MAX
                        || surface_height(*settings) > u32::MAX)
                },
            },
    {
        let icon: u128 = settings.icon_size as u128;
        let count: u128 = items.len() as u128;
        let room: u128 = icon * 4 / 10;
        let side: u128 = settings.padding.left as u128 + settings.padding.right as u128;
        let width: u128 = if count > 0 {
            assert(count * icon <= 0xffff_ffff_ffff_ffff * 0xffff_ffff) by (nonlinear_arith)
                requires
                    count <= 0xffff_ffff_ffff_ffff,
                    icon <= 0xffff_ffff,
            ;
            assert((count - 1) * (settings.spacing.x as u128) <= 0xffff_ffff_ffff_ffff
                * 0xffff_ffff) by (nonlinear_arith)
                requires
                    0 < count <= 0xffff_ffff_ffff_ffff,
                    settings.spacing.x <= 0xffff_ffff,
            ;
            count * icon + (count - 1) * (settings.spacing.x as u128) + side + room
        } else {
            side
        };
        let height: u128 = icon + settings.padding.top as u128 + settings.padding.bottom as u128
            + icon * 2 / 10 + 4;
        if width > 0xffff_ffff || height > 0xffff_ffff {
            return Err(RenderError::SurfaceTooLarge);
        }
        Ok(
            Renderer {
                width: width as u32,
                height: height as u32,
                icon_size: settings.icon_size,
                spacing: settings.spacing,
                padding: settings.padding,
                negative_vertical_offset: settings.negative_vertical_offset,
                corner_radius: settings.corner_radius,
                bg_color: parse_hex_color(
                    settings.background_color.as_str(),
                    settings.background_opacity,
                ),
                indicator_color: parse_hex_rgb(settings.indicator_color.as_str()),
                icons: IconCache::new(),
            },
        )
    }

    /// The side of the square buffers that this renderer keeps icons in.
    pub fn source_size(&self) -> (r: u64)
        ensures
            r == icon_resolution(self.icon_size as int),
    {
        let six: u64 = self.icon_size as u64 * 6;
        if six > 384 {
            six
        } else {
            384
        }
    }
}

} // verus!
