//! A value held between a minimum and a maximum.
//!
//! [`ClampedValue`] stores a current value together with two bounds and keeps
//! `min <= value <= max` across every operation. Bound changes that would break
//! the invariant are rejected; value changes are clamped into range. Arithmetic
//! on the value saturates at the limits of the scalar type before it is clamped.

pub mod clamped;
mod integers;
pub mod laws;
mod saturating;
pub mod scalar;

pub use clamped::{ClampedError, ClampedValue, Interval, Ratio};
pub use scalar::Scalar;
