//! The 2D spatial subsystem: coordinates, directions, regions, grids.

pub mod area;
pub mod direction;
pub mod matrix;
pub mod point;

pub use area::Area;
pub use matrix::Matrix;
pub use point::Point;
