//! Temperature scales and the conversions between them.
//!
//! The magnitude of a temperature is a floating-point number, which this
//! library does not handle: it decides, for a pair of scales, which formula
//! turns a magnitude in one into the other, and gives each scale its symbol.
//! The formulas' exact meaning over rational numbers is stated and proved
//! here, including that the two directions undo each other.

mod conversion;
mod unit;

pub use conversion::{
    conversion_between, lemma_round_trip, lemma_same_scale_keeps_magnitude, same_ratio, Conversion,
};
pub use unit::TemperatureUnit;
