//! Laws of the geometry engine, stated and proved once for all inputs.

use vstd::prelude::*;
use vstd::arithmetic::div_mod::{
    lemma_div_multiples_vanish, lemma_div_nonincreasing, lemma_div_pos_is_pos,
};

use crate::config::{Scrollbar, ScrollbarMode, PX};
use crate::geometry::{
    spec_geometry, spec_hit_test, spec_to_logical, spec_visible, ScrollbarHit, ScrollbarState,
};

verus! {

/// The visibility policy, for every history size: `Never` never shows,
/// `Always` always shows (a history of zero included), and `Auto` shows
/// exactly when there is scrollback history.
pub proof fn lemma_visibility_policy(history_size: int)
    ensures
        !spec_visible(ScrollbarMode::Never, history_size),
        spec_visible(ScrollbarMode::Always, history_size),
        spec_visible(ScrollbarMode::Auto, history_size) == (history_size > 0),
{
}

/// The geometry computation is a pure function of its inputs: two states
/// computed from identical inputs are identical, bit for bit.
pub proof fn lemma_geometry_deterministic(
    config: Scrollbar,
    content_x: int,
    content_y: int,
    content_width: int,
    content_height: int,
    display_offset: int,
    history_size: int,
    screen_lines: int,
    s1: ScrollbarState,
    s2: ScrollbarState,
)
    requires
        spec_geometry(config, content_x, content_y, content_width, content_height,
            display_offset, history_size, screen_lines, s1),
        spec_geometry(config, content_x, content_y, content_width, content_height,
            display_offset, history_size, screen_lines, s2),
    ensures
        s1 == s2,
{
}

/// A conversion at a display scale of 1.0 leaves the coordinate unchanged.
pub proof fn lemma_to_logical_identity(v: int)
    ensures
        spec_to_logical(v, PX as int) == v,
{
    if v >= 0 {
        lemma_div_multiples_vanish(v, PX as int);
    } else {
        lemma_div_multiples_vanish(-v, PX as int);
    }
}

/// A hit test at the thumb's horizontal and vertical center lands on the
/// thumb, for every visible state whose thumb lies within its track
/// (excluded: the degenerate states whose thumb overflows a too-short
/// track, where the center can leave the track's box).
pub proof fn lemma_hit_test_thumb_center(s: ScrollbarState)
    requires
        s.visible,
        s.well_formed(),
        s.track_y <= s.thumb_y,
        s.thumb_y + s.thumb_height <= s.track_y + s.track_height,
    ensures
        spec_hit_test(s, s.x + s.width / 2, s.thumb_y + s.thumb_height / 2, PX as int)
            == ScrollbarHit::Thumb,
{
    lemma_to_logical_identity(s.x + s.width / 2);
    lemma_to_logical_identity(s.thumb_y + s.thumb_height / 2);
    lemma_div_pos_is_pos(s.width as int, 2);
    lemma_div_nonincreasing(s.width as int, 2);
    lemma_div_pos_is_pos(s.thumb_height as int, 2);
    lemma_div_nonincreasing(s.thumb_height as int, 2);
}

/// A point within the track's box but strictly above the thumb's top edge
/// classifies as `TrackAbove`; strictly below the thumb's bottom edge, as
/// `TrackBelow`. Coordinates are logical (a display scale of 1.0).
pub proof fn lemma_hit_test_track(s: ScrollbarState, lx: int, ly: int)
    requires
        s.visible,
        0 <= s.thumb_height,
        s.x <= lx <= s.x + s.width,
        s.track_y <= ly <= s.track_y + s.track_height,
    ensures
        ly < s.thumb_y ==> spec_hit_test(s, lx, ly, PX as int) == ScrollbarHit::TrackAbove,
        ly > s.thumb_y + s.thumb_height ==> spec_hit_test(s, lx, ly, PX as int)
            == ScrollbarHit::TrackBelow,
{
    lemma_to_logical_identity(lx);
    lemma_to_logical_identity(ly);
}

/// A point outside the track's bounding box never hits, whatever the state;
/// neither does any point when the state is hidden.
pub proof fn lemma_hit_test_outside(s: ScrollbarState, mouse_x: int, mouse_y: int, scale: int)
    requires
        scale > 0,
    ensures
        !s.visible ==> spec_hit_test(s, mouse_x, mouse_y, scale) == ScrollbarHit::Outside,
        spec_to_logical(mouse_x, scale) < s.x || spec_to_logical(mouse_x, scale) > s.x + s.width
            || spec_to_logical(mouse_y, scale) < s.track_y || spec_to_logical(mouse_y, scale)
            > s.track_y + s.track_height ==> spec_hit_test(s, mouse_x, mouse_y, scale)
            == ScrollbarHit::Outside,
{
}

} // verus!
