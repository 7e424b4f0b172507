//! Simulation core of a side-scrolling arcade game: a bird flies through a
//! field of pipe pairs, one point per gap passed.
//!
//! The library holds no floating-point state. Every length is a whole number
//! of sub-pixel units ([`geometry::UNITS_PER_PIXEL`] to the pixel), every time
//! span a whole number of microseconds, so that each frame is an exact
//! function of the state, the input and the randomly drawn gap.
use vstd::prelude::*;

pub mod geometry;
pub mod input;
pub mod prefabs;
pub mod render;
pub mod scenes;
pub mod systems;

verus! {

/// The gravity constant: thirty times the speed a falling bird gains
/// each frame.
pub const GRAVITY: i64 = 2730;

/// Distance the ground and the pipes travel each frame.
pub const SCROLL_SPEED: i64 = 900;

} // verus!
