//! Scrollbar geometry for a terminal display.
//!
//! All coordinates are logical pixels stored in fixed point: an `i64` counts
//! thousandths of a logical pixel (`PX` units per pixel). Color channels use
//! the same fixed-point unit, covering 0 to `PX` for 0.0 to 1.0. The engine
//! is a set of pure functions: compute the visible geometry from the scroll
//! state, classify a pointer position against it, invert a pointer position
//! into a scroll offset, and emit drawable rectangles.

pub mod config;
pub mod draw;
pub mod geometry;
pub mod laws;

pub use config::PX;
