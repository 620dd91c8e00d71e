//! Drawable emission: turning a computed scrollbar state into the ordered
//! rectangle primitives the rendering pipeline paints.

use vstd::prelude::*;

use crate::config::{Rgba, Scrollbar};
use crate::geometry::ScrollbarState;

verus! {

/// Per-corner radii of a rectangle primitive.
#[derive(Debug, Clone, Copy, PartialEq, Eq, Structural)]
pub struct CornerRadii {
    pub top_left: i64,
    pub top_right: i64,
    pub bottom_right: i64,
    pub bottom_left: i64,
}

/// A rectangle primitive for the rendering pipeline: color, position and
/// size, plus decorative fields (corner radii, shadow, border) that this
/// widget always leaves at zero or transparent.
#[derive(Debug, Clone, Copy, PartialEq, Eq, Structural)]
pub struct Quad {
    /// Fill color.
    pub color: Rgba,
    /// Left edge, logical pixels.
    pub x: i64,
    /// Top edge, logical pixels.
    pub y: i64,
    /// Width, logical pixels.
    pub width: i64,
    /// Height, logical pixels.
    pub height: i64,
    /// Corner radii.
    pub border_radius: CornerRadii,
    /// Shadow blur radius.
    pub shadow_blur_radius: i64,
    /// Shadow offset, x then y.
    pub shadow_offset_x: i64,
    pub shadow_offset_y: i64,
    /// Shadow color.
    pub shadow_color: Rgba,
    /// Border color.
    pub border_color: Rgba,
    /// Border width.
    pub border_width: i64,
}

/// Fully transparent black.
pub open spec fn spec_transparent() -> Rgba {
    Rgba { r: 0, g: 0, b: 0, a: 0 }
}

/// A plain rectangle: the given color, position and size, every decorative
/// field zeroed.
pub open spec fn spec_plain_quad(color: Rgba, x: int, y: int, width: int, height: int) -> Quad {
    Quad {
        color,
        x: x as i64,
        y: y as i64,
        width: width as i64,
        height: height as i64,
        border_radius: CornerRadii { top_left: 0, top_right: 0, bottom_right: 0, bottom_left: 0 },
        shadow_blur_radius: 0,
        shadow_offset_x: 0,
        shadow_offset_y: 0,
        shadow_color: spec_transparent(),
        border_color: spec_transparent(),
        border_width: 0,
    }
}

/// The track rectangle for a state: the track's box in the track color.
pub open spec fn spec_track_quad(s: ScrollbarState, config: Scrollbar) -> Quad {
    spec_plain_quad(config.track_color, s.x as int, s.track_y as int, s.width as int,
        s.track_height as int)
}

/// The thumb rectangle for a state: the thumb's box, in the hover color when
/// hovered and the plain thumb color otherwise.
pub open spec fn spec_thumb_quad(s: ScrollbarState, config: Scrollbar, hovered: bool) -> Quad {
    let color = if hovered {
        config.thumb_hover_color
    } else {
        config.thumb_color
    };
    spec_plain_quad(color, s.x as int, s.thumb_y as int, s.width as int, s.thumb_height as int)
}

/// What `draw_scrollbar` emits: nothing for a hidden state, else the track
/// rectangle and then the thumb rectangle, in that order.
pub open spec fn spec_draw_scrollbar(s: ScrollbarState, config: Scrollbar, hovered: bool) -> Seq<
    Quad,
> {
    if !s.visible {
        Seq::empty()
    } else {
        seq![spec_track_quad(s, config), spec_thumb_quad(s, config, hovered)]
    }
}

/// Build a plain rectangle with every decorative field zeroed.
fn plain_quad(color: Rgba, x: i64, y: i64, width: i64, height: i64) -> (r: Quad)
    ensures
        r == spec_plain_quad(color, x as int, y as int, width as int, height as int),
{
    Quad {
        color,
        x,
        y,
        width,
        height,
        border_radius: CornerRadii { top_left: 0, top_right: 0, bottom_right: 0, bottom_left: 0 },
        shadow_blur_radius: 0,
        shadow_offset_x: 0,
        shadow_offset_y: 0,
        shadow_color: Rgba { r: 0, g: 0, b: 0, a: 0 },
        border_color: Rgba { r: 0, g: 0, b: 0, a: 0 },
        border_width: 0,
    }
}

/// Emit the scrollbar's drawable rectangles: an empty sequence when the
/// state is hidden, otherwise exactly the track and then the thumb, so that
/// the thumb is painted on top. The configured border radius is not applied;
/// both rectangles are plain.
pub fn draw_scrollbar(state: &ScrollbarState, config: &Scrollbar, hovered: bool) -> (r: Vec<Quad>)
    ensures
        r@ == spec_draw_scrollbar(*state, *config, hovered),
        !state.visible ==> r@.len() == 0,
        state.visible ==> r@.len() == 2 && r@[0] == spec_track_quad(*state, *config) && r@[1]
            == spec_thumb_quad(*state, *config, hovered),
{
    let mut objects: Vec<Quad> = Vec::new();
    if !state.visible {
        assert(objects@ =~= spec_draw_scrollbar(*state, *config, hovered));
        return objects;
    }

    objects.push(plain_quad(config.track_color, state.x, state.track_y, state.width,
        state.track_height));

    let thumb_color = if hovered {
        config.thumb_hover_color
    } else {
        config.thumb_color
    };
    objects.push(plain_quad(thumb_color, state.x, state.thumb_y, state.width,
        state.thumb_height));

    assert(objects@ =~= spec_draw_scrollbar(*state, *config, hovered));
    objects
}

} // verus!
