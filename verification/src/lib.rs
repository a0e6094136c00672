//! Profiles for lofting a square into a circle.
//!
//! A loft joins two closed profiles vertex by vertex: the vertex at each
//! place of the bottom profile to the vertex at the same place of the top
//! one. This crate lays out a square and a circle for one segment count so
//! that they can be joined that way: with the same number of vertices, the
//! same winding and the same start angle.
//!
//! The layouts are exact. A vertex of the square is a step along a side and
//! a vertex of the circle is a step of a turn; coordinates and angles are
//! fractions of integers, and every law of the layouts is proved of them.
//! Turning a layout into rounded coordinates for a given size is left to
//! the caller.
//!
//! - [`segments`]: the segment count and the requests for one.
//! - [`square`] and [`circle`]: the two layouts.
//! - [`alignment`]: how the layouts correspond.
//! - [`driver`]: planning a loft, and the errors of a run.
//! - [`export`]: the name and the STL text of the result.
//! - [`decimal`]: reading and writing decimal numbers.

pub mod alignment;
pub mod circle;
pub mod decimal;
pub mod driver;
pub mod export;
pub mod segments;
pub mod square;
