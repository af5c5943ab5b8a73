//! Error-bounded floating-point arithmetic.
//!
//! The crate tracks, beside a best-estimate value, a conservative interval
//! `[low, high]` guaranteed to contain the true mathematical result of a chain
//! of finite-precision arithmetic operations, together with a double-precision
//! shadow value used to validate the interval logic.
//!
//! All floating-point values cross the crate's boundary as IEEE-754 bit
//! patterns (`u32` for single precision, `u64` for double precision), so that
//! the bit-exact stepping, comparison and interval logic can be stated and
//! verified over plain integers. Callers convert with `f32::to_bits`,
//! `f32::from_bits` and their double-precision counterparts.

pub mod bits;
pub mod step;
pub mod efloat32;

pub use efloat32::EFloat32;
pub use step::next_f32_up;
pub use step::next_f32_down;
pub use step::next_f64_up;
pub use step::next_f64_down;
