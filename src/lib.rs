//! Coordinate-axis bookkeeping for small Euclidean vector types.
//!
//! The vector types themselves hold `f64` components; what is proved here is
//! the part of their behaviour that does not depend on floating point: which
//! axis a textual label names (for the 2D and the 3D selector), and which axis
//! a component position names (for positional access to a 3D vector).
pub mod axis;

pub use axis::Axis;
