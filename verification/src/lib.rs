//! Typesafe trigonometry over a variety of angle formats (radians, degrees,
//! gradians, turns, and clock faces).
//!
//! Angles are carried by the tagged union [`angle::Angle`]; its payload is the
//! binary fixed-point scalar [`scalar::Scalar`], so construction, conversion
//! and arithmetic are exact integer computations with stated contracts.

pub mod angle;
pub mod scalar;
pub mod trig;

pub use angle::Angle;
pub use angle::AngleError;
pub use angle::Unit;
pub use scalar::Scalar;
pub use trig::acos;
pub use trig::asin;
pub use trig::atan;
pub use trig::cos;
pub use trig::sin;
pub use trig::tan;
pub use trig::BaseFloat;
pub use trig::Trigonometry;
