//! A voxel terrain generator and the first-person camera that flies over it.
//!
//! Everything here is decided over integers. A scalar (a noise sample, a colour
//! channel, a coordinate handed to a noise field, an angle, a length, a span of
//! time) is a count of millionths; see [`units`]. Whatever needs real numbers,
//! such as the noise field itself or the sines behind an orientation, is handed
//! in by the caller as a function.
//!
//! - [`terrain`]: the rules that make a cell solid and give it its colour.
//! - [`extents`], [`volume`]: the grid of cells and its two generators, one of
//!   which builds the columns side by side.
//! - [`column`]: what it means for a column to follow from the noise fields.
//! - [`laws`]: what holds of every generated volume.
//! - [`camera`]: position, angles, pointer capture and movement.
//! - [`frame`]: one frame of input applied to a session.

pub mod camera;
pub mod column;
pub mod extents;
pub mod frame;
pub mod laws;
mod parallel;
pub mod terrain;
pub mod units;
pub mod volume;
