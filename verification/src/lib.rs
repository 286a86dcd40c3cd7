//! A four-component homogeneous tuple `(x, y, z, w)` for 3D geometry,
//! together with the point/vector algebra built on it: construction,
//! the point and vector predicates, approximate equality, addition,
//! subtraction and negation.
//!
//! Coordinates are exact fixed-point numbers: a signed 64-bit count of
//! raw units, `SCALE` units to one whole coordinate. Arithmetic on them
//! is exact, so the tolerance used by approximate equality collapses to
//! one raw unit (see `EPSILON` in [`tuple`]).

pub mod tuple;
