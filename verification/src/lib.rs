//! Direction-aware geometry primitives for flexbox-style layout.

pub mod geometry;
pub mod number;
pub mod style;
