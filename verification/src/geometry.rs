//! Scrollbar geometry: computing the track and thumb from the scroll state,
//! classifying pointer positions, and inverting a pointer position into a
//! scroll offset.
//!
//! All lengths and coordinates are logical pixels in fixed point (`PX` units
//! per pixel, see the crate root). Pointer positions arrive in physical
//! pixels and are converted by dividing by the display scale factor, itself
//! given in `PX` units (`PX` = a scale of 1.0).

use vstd::prelude::*;
use vstd::arithmetic::div_mod::{
    lemma_div_multiples_vanish, lemma_div_nonincreasing, lemma_div_of0, lemma_div_pos_is_pos,
    lemma_multiply_divide_le, lemma_multiply_divide_lt,
};
use vstd::arithmetic::mul::{lemma_mul_by_zero_is_zero, lemma_mul_inequality, lemma_mul_upper_bound};

use crate::config::{Scrollbar, ScrollbarMode, PX};

verus! {

/// Largest magnitude accepted for a content coordinate, a content size or a
/// configured dimension: 100,000 logical pixels in fixed point. Keeps every
/// intermediate product inside `i64`/`u64`.
pub const MAX_DIM: i64 = 100_000_000;

/// Largest accepted line count (scrollback history or visible lines).
pub const MAX_LINES: usize = 100_000_000;

/// Bound that every field of a computed `ScrollbarState` stays within.
pub const MAX_COORD: i64 = 400_000_000;

/// Largest magnitude accepted for a pointer coordinate in physical pixels
/// (fixed point).
pub const MAX_POINT: i64 = 1_000_000_000_000;

/// Largest accepted display scale factor, in `PX` units: a scale of 1000.0.
pub const MAX_SCALE: i64 = 1_000_000;

/// Result of hit testing against the scrollbar.
#[derive(Debug, Clone, Copy, PartialEq, Eq, Structural)]
pub enum ScrollbarHit {
    /// Not over the scrollbar.
    Outside,
    /// Over the thumb (draggable part).
    Thumb,
    /// Over the track, above the thumb.
    TrackAbove,
    /// Over the track, below the thumb.
    TrackBelow,
}

/// Computed scrollbar state for a single frame.
#[derive(Debug, Clone, PartialEq, Eq, Structural)]
pub struct ScrollbarState {
    /// X position of the scrollbar (left edge).
    pub x: i64,
    /// Y position of the track (top edge).
    pub track_y: i64,
    /// Width of the scrollbar.
    pub width: i64,
    /// Height of the track.
    pub track_height: i64,
    /// Y position of the thumb (top edge, relative to window).
    pub thumb_y: i64,
    /// Height of the thumb.
    pub thumb_height: i64,
    /// Whether the scrollbar should be visible.
    pub visible: bool,
    /// Whether the thumb is being hovered (set by the caller after a hit
    /// test; never set by the geometry computation itself).
    pub hovered: bool,
}

/// The hidden state: geometry zeroed, dimensions at their defaults, not
/// visible.
pub open spec fn spec_default_state() -> ScrollbarState {
    ScrollbarState {
        x: 0,
        track_y: 0,
        width: 8000,
        track_height: 0,
        thumb_y: 0,
        thumb_height: 20000,
        visible: false,
        hovered: false,
    }
}

/// Visibility policy: `Always` shows, `Never` hides, `Auto` shows exactly
/// when there is scrollback history.
pub open spec fn spec_visible(mode: ScrollbarMode, history_size: int) -> bool {
    match mode {
        ScrollbarMode::Always => true,
        ScrollbarMode::Auto => history_size > 0,
        ScrollbarMode::Never => false,
    }
}

/// Thumb height: the track height scaled by the visible share of all lines
/// (the whole track when there are no lines at all), but never below the
/// configured minimum. The minimum only raises, so a track shorter than the
/// minimum yields a thumb taller than its track.
pub open spec fn spec_thumb_height(
    track_height: int,
    history_size: int,
    screen_lines: int,
    thumb_min_height: int,
) -> int {
    let total_lines = history_size + screen_lines;
    let raw = if total_lines > 0 {
        track_height * screen_lines / total_lines
    } else {
        track_height
    };
    if raw < thumb_min_height {
        thumb_min_height
    } else {
        raw
    }
}

/// Thumb top edge: offset 0 puts the thumb at the track's bottom edge,
/// offset = `history_size` at the top edge, linearly in between (rounded
/// toward the top). With no history the thumb sits at the bottom. A
/// negative scrollable range (thumb taller than track) is not clamped; the
/// thumb then overflows the track upward.
pub open spec fn spec_thumb_y(
    track_y: int,
    track_height: int,
    thumb_height: int,
    display_offset: int,
    history_size: int,
) -> int {
    let range = track_height - thumb_height;
    if history_size == 0 {
        track_y + range
    } else if range >= 0 {
        track_y + (history_size - display_offset) * range / history_size
    } else {
        track_y - (history_size - display_offset) * (thumb_height - track_height) / history_size
    }
}

/// What `ScrollbarState::calculate` computes: `s` is the geometry for the
/// given configuration, content area and scroll state. When hidden, `s` is
/// the default hidden state; when visible, the track occupies the content
/// area's right edge and the thumb follows the scroll offset.
pub open spec fn spec_geometry(
    config: Scrollbar,
    content_x: int,
    content_y: int,
    content_width: int,
    content_height: int,
    display_offset: int,
    history_size: int,
    screen_lines: int,
    s: ScrollbarState,
) -> bool {
    if spec_visible(config.mode, history_size) {
        &&& s.visible
        &&& !s.hovered
        &&& s.width == config.width
        &&& s.x == content_x + content_width - config.width
        &&& s.track_y == content_y
        &&& s.track_height == content_height
        &&& s.thumb_height == spec_thumb_height(
            content_height,
            history_size,
            screen_lines,
            config.thumb_min_height as int,
        )
        &&& s.thumb_y == spec_thumb_y(
            content_y,
            content_height,
            s.thumb_height as int,
            display_offset,
            history_size,
        )
    } else {
        s == spec_default_state()
    }
}

impl ScrollbarState {
    /// Field bounds that every computed state satisfies; the later queries
    /// rely on them to stay clear of overflow.
    pub open spec fn well_formed(self) -> bool {
        &&& -MAX_COORD <= self.x <= MAX_COORD
        &&& -MAX_COORD <= self.track_y <= MAX_COORD
        &&& 0 <= self.width <= MAX_COORD
        &&& 0 <= self.track_height <= MAX_COORD
        &&& -MAX_COORD <= self.thumb_y <= MAX_COORD
        &&& 0 <= self.thumb_height <= MAX_COORD
    }
}

impl Default for ScrollbarState {
    fn default() -> (r: Self)
        ensures
            r == spec_default_state(),
            r.well_formed(),
    {
        ScrollbarState {
            x: 0,
            track_y: 0,
            width: 8000,
            track_height: 0,
            thumb_y: 0,
            thumb_height: 20000,
            visible: false,
            hovered: false,
        }
    }
}

impl ScrollbarState {
    /// Compute the scrollbar geometry for one frame.
    ///
    /// `display_offset` counts scrolled-back lines: 0 at the bottom
    /// (newest), `history_size` at the top (oldest). The content area's
    /// top-left corner may be anywhere; its sizes are nonnegative. `_scale`
    /// is accepted for interface symmetry with the pointer queries but the
    /// computation works in logical pixels throughout and does not use it.
    pub fn calculate(
        config: &Scrollbar,
        content_x: i64,
        content_y: i64,
        content_width: i64,
        content_height: i64,
        display_offset: usize,
        history_size: usize,
        screen_lines: usize,
        _scale: i64,
    ) -> (r: ScrollbarState)
        requires
            -MAX_DIM <= content_x <= MAX_DIM,
            -MAX_DIM <= content_y <= MAX_DIM,
            0 <= content_width <= MAX_DIM,
            0 <= content_height <= MAX_DIM,
            0 <= config.width <= MAX_DIM,
            0 <= config.thumb_min_height <= MAX_DIM,
            display_offset <= history_size,
            history_size <= MAX_LINES,
            screen_lines <= MAX_LINES,
        ensures
            spec_geometry(
                *config,
                content_x as int,
                content_y as int,
                content_width as int,
                content_height as int,
                display_offset as int,
                history_size as int,
                screen_lines as int,
                r,
            ),
            r.visible == spec_visible(config.mode, history_size as int),
            r.well_formed(),
            r.visible && display_offset == 0 ==> r.thumb_y + r.thumb_height == r.track_y
                + r.track_height,
            r.visible && display_offset == history_size && history_size > 0 ==> r.thumb_y
                == r.track_y,
    {
        let visible = match config.mode {
            ScrollbarMode::Always => true,
            ScrollbarMode::Auto => history_size > 0,
            ScrollbarMode::Never => false,
        };

        if !visible {
            return ScrollbarState::default();
        }

        let width = config.width;
        let x = content_x + content_width - width;
        let track_y = content_y;
        let track_height = content_height;

        // Thumb size: track height scaled by the share of visible lines.
        let total_lines = history_size + screen_lines;
        let raw_thumb_height: i64 = if total_lines > 0 {
            proof {
                lemma_mul_upper_bound(
                    track_height as int,
                    MAX_DIM as int,
                    screen_lines as int,
                    MAX_LINES as int,
                );
                assert((track_height as int) * (screen_lines as int) <= (total_lines as int)
                    * (track_height as int)) by (nonlinear_arith)
                    requires
                        screen_lines <= total_lines,
                        0 <= track_height,
                ;
                lemma_multiply_divide_le(
                    (track_height as int) * (screen_lines as int),
                    total_lines as int,
                    track_height as int,
                );
                lemma_div_pos_is_pos(
                    (track_height as int) * (screen_lines as int),
                    total_lines as int,
                );
            }
            let q = (track_height as u64) * (screen_lines as u64) / (total_lines as u64);
            q as i64
        } else {
            track_height
        };
        let thumb_height = if raw_thumb_height < config.thumb_min_height {
            config.thumb_min_height
        } else {
            raw_thumb_height
        };

        // Thumb position: at the bottom for offset 0, at the top for offset
        // = history_size. The scrollable range may be negative when the
        // thumb overflows a short track; the division then runs on its
        // magnitude.
        let range = track_height - thumb_height;
        let thumb_y: i64 = if history_size == 0 {
            track_y + range
        } else {
            let lines_up = (history_size - display_offset) as u64;
            let h = history_size as u64;
            if range >= 0 {
                proof {
                    lemma_mul_upper_bound(lines_up as int, MAX_LINES as int, range as int,
                        MAX_DIM as int);
                    lemma_mul_inequality(lines_up as int, h as int, range as int);
                    lemma_multiply_divide_le((lines_up as int) * (range as int), h as int,
                        range as int);
                    lemma_div_pos_is_pos((lines_up as int) * (range as int), h as int);
                    if display_offset == 0 {
                        lemma_div_multiples_vanish(range as int, h as int);
                    }
                    if display_offset == history_size {
                        lemma_mul_by_zero_is_zero(range as int);
                        lemma_div_of0(h as int);
                    }
                }
                let q = lines_up * (range as u64) / h;
                track_y + (q as i64)
            } else {
                let neg_range = thumb_height - track_height;
                proof {
                    lemma_mul_upper_bound(lines_up as int, MAX_LINES as int, neg_range as int,
                        MAX_DIM as int);
                    lemma_mul_inequality(lines_up as int, h as int, neg_range as int);
                    lemma_multiply_divide_le((lines_up as int) * (neg_range as int), h as int,
                        neg_range as int);
                    lemma_div_pos_is_pos((lines_up as int) * (neg_range as int), h as int);
                    if display_offset == 0 {
                        lemma_div_multiples_vanish(neg_range as int, h as int);
                    }
                    if display_offset == history_size {
                        lemma_mul_by_zero_is_zero(neg_range as int);
                        lemma_div_of0(h as int);
                    }
                }
                let q = lines_up * (neg_range as u64) / h;
                track_y - (q as i64)
            }
        };

        proof {
            // Pin the edge-alignment postconditions here, close to the
            // division facts they rest on.
            if display_offset == 0 {
                assert(thumb_y + thumb_height == track_y + track_height);
            }
            if display_offset == history_size && history_size > 0 {
                assert(thumb_y == track_y);
            }
        }

        ScrollbarState {
            x,
            track_y,
            width,
            track_height,
            thumb_y,
            thumb_height,
            visible,
            hovered: false,
        }
    }
}

/// A physical-pixel value divided by the display scale factor, rounded
/// toward zero: the logical-pixel value the pointer queries compare against.
pub open spec fn spec_to_logical(v: int, scale: int) -> int {
    if v >= 0 {
        v * PX / scale
    } else {
        -((-v) * PX / scale)
    }
}

/// Convert a physical-pixel coordinate to logical pixels.
fn to_logical(v: i64, scale: i64) -> (r: i64)
    requires
        -MAX_POINT <= v <= MAX_POINT,
        0 < scale <= MAX_SCALE,
    ensures
        r == spec_to_logical(v as int, scale as int),
{
    if v >= 0 {
        proof {
            lemma_mul_upper_bound(v as int, MAX_POINT as int, PX as int, PX as int);
            lemma_div_nonincreasing((v as int) * (PX as int), scale as int);
            lemma_div_pos_is_pos((v as int) * (PX as int), scale as int);
        }
        ((v as u64) * (PX as u64) / (scale as u64)) as i64
    } else {
        let m = -v;
        proof {
            lemma_mul_upper_bound(m as int, MAX_POINT as int, PX as int, PX as int);
            lemma_div_nonincreasing((m as int) * (PX as int), scale as int);
            lemma_div_pos_is_pos((m as int) * (PX as int), scale as int);
        }
        -(((m as u64) * (PX as u64) / (scale as u64)) as i64)
    }
}

/// What `ScrollbarState::hit_test` returns: the pointer position, taken to
/// logical pixels, classified against the state. Hidden states and points
/// outside the track's box give `Outside`; points inside the thumb's span
/// (all edges inclusive) give `Thumb`; the rest of the track is `TrackAbove`
/// or `TrackBelow` of the thumb.
pub open spec fn spec_hit_test(
    s: ScrollbarState,
    mouse_x: int,
    mouse_y: int,
    scale: int,
) -> ScrollbarHit {
    if !s.visible {
        ScrollbarHit::Outside
    } else {
        let lx = spec_to_logical(mouse_x, scale);
        let ly = spec_to_logical(mouse_y, scale);
        if lx < s.x || lx > s.x + s.width {
            ScrollbarHit::Outside
        } else if ly < s.track_y || ly > s.track_y + s.track_height {
            ScrollbarHit::Outside
        } else if s.thumb_y <= ly && ly <= s.thumb_y + s.thumb_height {
            ScrollbarHit::Thumb
        } else if ly < s.thumb_y {
            ScrollbarHit::TrackAbove
        } else {
            ScrollbarHit::TrackBelow
        }
    }
}

impl ScrollbarState {
    /// Classify a pointer position (physical pixels) against this state.
    /// Boundary coordinates count as inside: every comparison is inclusive.
    pub fn hit_test(&self, mouse_x: i64, mouse_y: i64, scale: i64) -> (r: ScrollbarHit)
        requires
            self.well_formed(),
            -MAX_POINT <= mouse_x <= MAX_POINT,
            -MAX_POINT <= mouse_y <= MAX_POINT,
            0 < scale <= MAX_SCALE,
        ensures
            r == spec_hit_test(*self, mouse_x as int, mouse_y as int, scale as int),
    {
        if !self.visible {
            return ScrollbarHit::Outside;
        }

        let logical_mouse_x = to_logical(mouse_x, scale);
        let logical_mouse_y = to_logical(mouse_y, scale);

        if logical_mouse_x < self.x || logical_mouse_x > self.x + self.width {
            return ScrollbarHit::Outside;
        }

        if logical_mouse_y < self.track_y || logical_mouse_y > self.track_y + self.track_height {
            return ScrollbarHit::Outside;
        }

        if logical_mouse_y >= self.thumb_y && logical_mouse_y <= self.thumb_y + self.thumb_height {
            return ScrollbarHit::Thumb;
        }

        if logical_mouse_y < self.thumb_y {
            ScrollbarHit::TrackAbove
        } else {
            ScrollbarHit::TrackBelow
        }
    }
}

/// What `ScrollbarState::y_to_offset` returns: the pointer's y position,
/// taken as the desired thumb center, inverted into a scroll offset. Hidden
/// states, an empty history and a non-positive scrollable range give 0; the
/// candidate thumb top is clamped into the track, so the result always lies
/// in `[0, history_size]`.
pub open spec fn spec_y_to_offset(
    s: ScrollbarState,
    y: int,
    history_size: int,
    scale: int,
) -> int {
    if !s.visible || history_size == 0 {
        0
    } else {
        let range = s.track_height - s.thumb_height;
        if range <= 0 {
            0
        } else {
            let logical_y = spec_to_logical(y, scale);
            let thumb_top_y = logical_y - s.thumb_height / 2;
            let rel = thumb_top_y - s.track_y;
            let clamped = if rel < 0 {
                0
            } else if rel > range {
                range
            } else {
                rel
            };
            // offset = (range - clamped) / range * history_size, rounded to
            // the nearest integer (halves away from zero).
            ((range - clamped) * history_size * 2 + range) / (2 * range)
        }
    }
}

impl ScrollbarState {
    /// Map a pointer y position (physical pixels) to the scroll offset whose
    /// thumb center would sit there: 0 at the bottom, `history_size` at the
    /// top.
    pub fn y_to_offset(&self, y: i64, history_size: usize, scale: i64) -> (r: usize)
        requires
            self.well_formed(),
            -MAX_POINT <= y <= MAX_POINT,
            0 < scale <= MAX_SCALE,
            history_size <= MAX_LINES,
        ensures
            r == spec_y_to_offset(*self, y as int, history_size as int, scale as int),
            r <= history_size,
    {
        if !self.visible || history_size == 0 {
            return 0;
        }

        let range = self.track_height - self.thumb_height;
        if range <= 0 {
            return 0;
        }

        let logical_y = to_logical(y, scale);
        let thumb_top_y = logical_y - ((self.thumb_height as u64 / 2) as i64);
        let rel = thumb_top_y - self.track_y;
        let clamped: i64 = if rel < 0 {
            0
        } else if rel > range {
            range
        } else {
            rel
        };

        let slack = (range - clamped) as u64;
        let hist = history_size as u64;
        let range_u = range as u64;
        proof {
            lemma_mul_upper_bound(slack as int, 2 * MAX_COORD, hist as int, MAX_LINES as int);
            lemma_div_pos_is_pos((slack as int) * (hist as int) * 2 + range, 2 * range);
            assert((slack as int) * (hist as int) * 2 + range < (2 * range) * ((hist as int)
                + 1)) by (nonlinear_arith)
                requires
                    0 <= slack <= range,
                    0 < range,
                    0 <= hist,
            ;
            lemma_multiply_divide_lt((slack as int) * (hist as int) * 2 + range, 2 * range,
                (hist as int) + 1);
        }
        let offset = (slack * hist * 2 + range_u) / (2 * range_u);
        offset as usize
    }
}

} // verus!
