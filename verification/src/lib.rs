//! Core logic of a small 2D tower-defence simulation.
//!
//! The library covers the engine-independent pieces of the game:
//! converting level-editor pixel coordinates into world coordinates,
//! decoding editor-authored entity fields into typed spawner data,
//! a repeating countdown timer, the per-frame enemy spawner system,
//! and the level loader that ties them together.
//!
//! All coordinates are held as integers: world positions are expressed
//! in thousandths of a pixel, pivots in thousandths of the entity's
//! bounding box, and time in milliseconds.  The host engine (rendering,
//! asset loading, the ECS scheduler) stays outside this crate and talks
//! to it through plain values.

use vstd::prelude::*;

pub mod fields;
pub mod geometry;
pub mod resources;
pub mod spawning;
pub mod timer;
pub mod world_loading;

verus! {

/// Width of the game window in pixels.
pub const WINDOW_WIDTH: u32 = 1280;

/// Height of the game window in pixels.
pub const WINDOW_HEIGHT: u32 = 768;

} // verus!
