//! Scrollbar configuration: visibility mode, dimensions and colors.
//!
//! Every field has a standalone default, so a host that reads a partial
//! configuration can fall back field by field.

use vstd::prelude::*;

verus! {

/// Fixed-point unit: this many `i64` steps make one logical pixel, and this
/// many make 1.0 of a color channel.
pub const PX: i64 = 1000;

/// Scrollbar visibility mode.
#[derive(Debug, Clone, Copy, PartialEq, Eq, Structural)]
pub enum ScrollbarMode {
    /// Always show the scrollbar.
    Always,
    /// Show the scrollbar only when there is scrollback history.
    Auto,
    /// Never show the scrollbar.
    Never,
}

impl Default for ScrollbarMode {
    fn default() -> (r: Self)
        ensures
            r == ScrollbarMode::Auto,
    {
        ScrollbarMode::Auto
    }
}

/// An RGBA color; each channel counts thousandths, `0` to `PX` standing for
/// 0.0 to 1.0.
#[derive(Debug, Clone, Copy, PartialEq, Eq, Structural)]
pub struct Rgba {
    pub r: i64,
    pub g: i64,
    pub b: i64,
    pub a: i64,
}

/// Default scrollbar width: 8 logical pixels.
pub fn default_width() -> (r: i64)
    ensures
        r == 8 * PX,
{
    8 * PX
}

/// Default minimum thumb height: 20 logical pixels.
pub fn default_thumb_min_height() -> (r: i64)
    ensures
        r == 20 * PX,
{
    20 * PX
}

/// Default border radius: 4 logical pixels.
pub fn default_border_radius() -> (r: i64)
    ensures
        r == 4 * PX,
{
    4 * PX
}

/// Default track color (semi-transparent dark): 0.25 per channel.
pub fn default_track_color() -> (r: Rgba)
    ensures
        r == (Rgba { r: 250, g: 250, b: 250, a: 250 }),
{
    Rgba { r: 250, g: 250, b: 250, a: 250 }
}

/// Default thumb color (semi-transparent light): 0.5 gray, 0.67 alpha.
pub fn default_thumb_color() -> (r: Rgba)
    ensures
        r == (Rgba { r: 500, g: 500, b: 500, a: 670 }),
{
    Rgba { r: 500, g: 500, b: 500, a: 670 }
}

/// Default thumb hover color (more opaque): 0.63 gray, 0.87 alpha.
pub fn default_thumb_hover_color() -> (r: Rgba)
    ensures
        r == (Rgba { r: 630, g: 630, b: 630, a: 870 }),
{
    Rgba { r: 630, g: 630, b: 630, a: 870 }
}

/// Scrollbar configuration.
#[derive(Debug, Clone, PartialEq, Eq, Structural)]
pub struct Scrollbar {
    /// Scrollbar visibility mode.
    pub mode: ScrollbarMode,
    /// Scrollbar width in fixed-point logical pixels.
    pub width: i64,
    /// Track background color.
    pub track_color: Rgba,
    /// Thumb color.
    pub thumb_color: Rgba,
    /// Thumb color while the mouse hovers over the thumb.
    pub thumb_hover_color: Rgba,
    /// Minimum thumb height in fixed-point logical pixels.
    pub thumb_min_height: i64,
    /// Border radius for scrollbar elements (cosmetic; not used by the
    /// geometry math).
    pub border_radius: i64,
}

/// The default configuration, every field at its standalone default.
pub open spec fn spec_default_scrollbar() -> Scrollbar {
    Scrollbar {
        mode: ScrollbarMode::Auto,
        width: 8000,
        track_color: Rgba { r: 250, g: 250, b: 250, a: 250 },
        thumb_color: Rgba { r: 500, g: 500, b: 500, a: 670 },
        thumb_hover_color: Rgba { r: 630, g: 630, b: 630, a: 870 },
        thumb_min_height: 20000,
        border_radius: 4000,
    }
}

impl Default for Scrollbar {
    fn default() -> (r: Self)
        ensures
            r == spec_default_scrollbar(),
    {
        Scrollbar {
            mode: ScrollbarMode::default(),
            width: default_width(),
            track_color: default_track_color(),
            thumb_color: default_thumb_color(),
            thumb_hover_color: default_thumb_hover_color(),
            thumb_min_height: default_thumb_min_height(),
            border_radius: default_border_radius(),
        }
    }
}

} // verus!
