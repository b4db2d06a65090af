//! A first-person raycasting renderer over a fixed square occupancy grid.
//!
//! All geometry is carried out in exact arithmetic: continuous world
//! coordinates are scaled integers (units of `1 / SCALE`), and distances
//! along a ray are exact rational numbers.  Per screen column the engine
//! derives a ray, marches it cell by cell with a digital differential
//! analyzer, and projects the perpendicular hit distance into a shaded
//! vertical wall slice.

pub mod camera;
pub mod control;
pub mod grid;
pub mod project;
pub mod rat;
pub mod ray;
pub mod render;

use vstd::prelude::*;

verus! {

/// Number of integer units per world-coordinate unit: positions,
/// directions and view planes are stored as multiples of `1 / SCALE`.
pub const SCALE: i64 = 4096;

} // verus!
