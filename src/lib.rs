//! Temperature scales and their display symbols.
//!
//! The magnitudes of temperatures are floating-point numbers and live with the
//! conversion formulas outside the verified part; what every scale shows next
//! to its magnitude is fixed here.

pub mod scale;

pub use scale::Scale;
