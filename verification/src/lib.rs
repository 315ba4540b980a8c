//! Frame-level logic of a small Gomoku-style board demo with a bloom
//! post-processing effect: mapping pointer clicks from screen space to board
//! space, snapping to grid intersections, tracking pointer movement, and a
//! keyboard-driven controller for the bloom parameters.
//!
//! The rendering engine, windowing and raw input delivery are external; this
//! crate holds the decisions made each frame, stated over exact fixed-point
//! integers:
//!
//! * board coordinates are measured in *fine units*, 1710 per board unit, so
//!   that the grid cell `600/19` board units is exactly `54000` fine units and
//!   the ruled-line spacing `598/18` is exactly `56810`;
//! * bloom parameters are measured in micro-units, `1_000_000` per 1.0;
//! * frame time is measured in ticks of 10 microseconds, so that the per-key
//!   adjustment rate `dt/10` is exactly one micro-unit per tick.

pub mod bloom;
pub mod geometry;
pub mod input;
pub mod scene;
