//! Further tests: the worked scenario, the offset mapper, drawing, purity
//! and the degenerate short-track case. Fixed point throughout: 1000 units
//! to a logical pixel.

use scrollbar::config::Scrollbar;
use scrollbar::draw::draw_scrollbar;
use scrollbar::geometry::{ScrollbarHit, ScrollbarState};

/// Content area (0,0)-(800,600), 100 lines of history, 24 on screen,
/// scrolled halfway up.
fn halfway_state() -> ScrollbarState {
    ScrollbarState::calculate(&Scrollbar::default(), 0, 0, 800_000, 600_000, 50, 100, 24, 1000)
}

#[test]
fn test_scenario_halfway() {
    let state = halfway_state();
    assert!(state.visible);
    assert_eq!(state.x, 792_000); // 800 - 8 px
    assert_eq!(state.track_y, 0);
    assert_eq!(state.width, 8_000);
    assert_eq!(state.track_height, 600_000);
    // max(600 * 24 / 124, 20) px, in thousandths, rounded down
    assert_eq!(state.thumb_height, 116_129);
    // scrollable range 483.871 px; halfway leaves half of it above
    assert_eq!(state.thumb_y, 241_935);
}

#[test]
fn test_calculate_idempotent() {
    let a = ScrollbarState::calculate(&Scrollbar::default(), 5_000, 7_000, 640_000, 480_000, 3,
        40, 24, 2000);
    let b = ScrollbarState::calculate(&Scrollbar::default(), 5_000, 7_000, 640_000, 480_000, 3,
        40, 24, 2000);
    assert_eq!(a, b);
}

#[test]
fn test_hit_test_track_below() {
    let state = ScrollbarState::calculate(
        &Scrollbar::default(),
        0,
        0,
        800_000,
        600_000,
        100, // thumb at top
        100,
        24,
        1000,
    );
    let hit = state.hit_test(state.x + state.width / 2, state.track_y + 599_000, 1000);
    assert_eq!(hit, ScrollbarHit::TrackBelow);
}

#[test]
fn test_hit_test_at_scale_two() {
    let state = halfway_state();
    // Physical coordinates at a display scale of 2.0 are twice the logical.
    let hit = state.hit_test(
        (state.x + state.width / 2) * 2,
        (state.thumb_y + state.thumb_height / 2) * 2,
        2000,
    );
    assert_eq!(hit, ScrollbarHit::Thumb);
}

#[test]
fn test_hit_test_hidden() {
    let state = ScrollbarState::calculate(&Scrollbar::default(), 0, 0, 800_000, 600_000, 0, 0,
        24, 1000);
    assert!(!state.visible);
    // Even a point that would lie on the track of a visible bar misses.
    assert_eq!(state.hit_test(796_000, 300_000, 1000), ScrollbarHit::Outside);
}

#[test]
fn test_y_to_offset_thumb_center_round_trip() {
    let state = halfway_state();
    // The y at the thumb's center maps back to the offset it was computed
    // from.
    let y = state.thumb_y + state.thumb_height / 2;
    assert_eq!(state.y_to_offset(y, 100, 1000), 50);
}

#[test]
fn test_y_to_offset_extremes() {
    let state = halfway_state();
    // Above the track: clamped to the top, the oldest line.
    assert_eq!(state.y_to_offset(0, 100, 1000), 100);
    assert_eq!(state.y_to_offset(-50_000, 100, 1000), 100);
    // Below the track: clamped to the bottom, offset zero.
    assert_eq!(state.y_to_offset(600_000, 100, 1000), 0);
}

#[test]
fn test_y_to_offset_guards() {
    // Hidden state: always 0.
    let hidden = ScrollbarState::default();
    assert_eq!(hidden.y_to_offset(300_000, 100, 1000), 0);

    // No history: always 0.
    let state = halfway_state();
    assert_eq!(state.y_to_offset(300_000, 0, 1000), 0);

    // Thumb as tall as its track (non-positive scrollable range): always 0.
    let mut flat = halfway_state();
    flat.thumb_height = flat.track_height;
    assert_eq!(flat.y_to_offset(300_000, 100, 1000), 0);
}

#[test]
fn test_draw_hidden_is_empty() {
    let state = ScrollbarState::default();
    let quads = draw_scrollbar(&state, &Scrollbar::default(), false);
    assert!(quads.is_empty());
}

#[test]
fn test_draw_visible_track_then_thumb() {
    let config = Scrollbar::default();
    let state = halfway_state();
    let quads = draw_scrollbar(&state, &config, false);
    assert_eq!(quads.len(), 2);

    // Track first, covering the whole track box.
    assert_eq!(quads[0].color, config.track_color);
    assert_eq!(quads[0].x, state.x);
    assert_eq!(quads[0].y, state.track_y);
    assert_eq!(quads[0].width, state.width);
    assert_eq!(quads[0].height, state.track_height);

    // Thumb second, so it paints on top.
    assert_eq!(quads[1].color, config.thumb_color);
    assert_eq!(quads[1].x, state.x);
    assert_eq!(quads[1].y, state.thumb_y);
    assert_eq!(quads[1].width, state.width);
    assert_eq!(quads[1].height, state.thumb_height);

    // Decorative fields stay zeroed.
    assert_eq!(quads[1].border_radius.top_left, 0);
    assert_eq!(quads[1].shadow_blur_radius, 0);
    assert_eq!(quads[1].border_width, 0);
    assert_eq!(quads[1].shadow_color.a, 0);
    assert_eq!(quads[1].border_color.a, 0);
}

#[test]
fn test_draw_hover_switches_thumb_color() {
    let config = Scrollbar::default();
    let state = halfway_state();
    let plain = draw_scrollbar(&state, &config, false);
    let hovered = draw_scrollbar(&state, &config, true);
    assert_eq!(plain[1].color, config.thumb_color);
    assert_eq!(hovered[1].color, config.thumb_hover_color);
    // The track is not affected by hovering.
    assert_eq!(plain[0], hovered[0]);
}

#[test]
fn test_short_track_thumb_overflows() {
    // A 10 px track cannot hold the 20 px minimum thumb: the clamp only
    // raises, so the thumb overflows the track upward but stays anchored to
    // the bottom edge at offset zero.
    let state = ScrollbarState::calculate(&Scrollbar::default(), 0, 0, 800_000, 10_000, 0, 100,
        24, 1000);
    assert_eq!(state.thumb_height, 20_000);
    assert!(state.thumb_height > state.track_height);
    assert_eq!(state.thumb_y + state.thumb_height, state.track_y + state.track_height);
    assert_eq!(state.thumb_y, -10_000);
}

#[test]
fn test_always_mode_zero_lines() {
    // Always-visible with no lines at all: the share is taken as the whole
    // track, then raised to the minimum if need be.
    let mut config = Scrollbar::default();
    config.mode = scrollbar::config::ScrollbarMode::Always;
    let state = ScrollbarState::calculate(&config, 0, 0, 800_000, 600_000, 0, 0, 0, 1000);
    assert!(state.visible);
    assert_eq!(state.thumb_height, 600_000);
    assert_eq!(state.thumb_y, 0);
}
