//! Generic spatial and arithmetic primitives for grid-based puzzle and
//! simulation programs: a coordinate type, compass directions with
//! quarter-turn rotations, an axis-aligned rectangular region, a dense
//! row-major matrix, and the checked numeric capability traits that let
//! them operate over every integer width without overflow.

pub mod errors;
pub mod iterators;
pub mod math;
pub mod num;
pub mod parsing;
pub mod spatial;
pub mod tuples;
