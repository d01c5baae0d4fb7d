use vstd::prelude::*;

use crate::unit::TemperatureUnit;

verus! {

/// The formula that turns a magnitude in one scale into the magnitude of the
/// same temperature in another.
#[derive(Debug, Clone, Copy, PartialEq, Eq, Structural)]
pub enum Conversion {
    /// `f = c * 1.8 + 32`
    CelsiusToFahrenheit,
    /// `c = (f - 32) / 1.8`
    FahrenheitToCelsius,
    /// The magnitude is kept as it is.
    Unchanged,
}

/// The formula for a pair of scales: one of the two directions, and the
/// magnitude kept for any other pair, which is a pair of equal scales.
pub open spec fn conversion_between(from: TemperatureUnit, to: TemperatureUnit) -> Conversion {
    match (from, to) {
        (TemperatureUnit::Celsius, TemperatureUnit::Fahrenheit) => Conversion::CelsiusToFahrenheit,
        (TemperatureUnit::Fahrenheit, TemperatureUnit::Celsius) => Conversion::FahrenheitToCelsius,
        _ => Conversion::Unchanged,
    }
}

/// Two rational numbers, each a numerator over a positive denominator, are
/// the same number.
pub open spec fn same_ratio(a: (int, int), b: (int, int)) -> bool {
    a.0 * b.1 == b.0 * a.1
}

impl Conversion {
    /// The formula evaluated exactly on the rational `num / den`, as a
    /// numerator over a denominator; with `1.8` read as `9 / 5`.
    pub open spec fn apply(self, num: int, den: int) -> (int, int) {
        match self {
            Conversion::CelsiusToFahrenheit => (9 * num + 160 * den, 5 * den),
            Conversion::FahrenheitToCelsius => (5 * (num - 32 * den), 9 * den),
            Conversion::Unchanged => (num, den),
        }
    }
}

impl TemperatureUnit {
    /// The formula that converts a magnitude in this scale into `target`.
    pub fn conversion_to(self, target: TemperatureUnit) -> (r: Conversion)
        ensures
            r == conversion_between(self, target),
            r == Conversion::Unchanged <==> self == target,
    {
        match (self, target) {
            (TemperatureUnit::Celsius, TemperatureUnit::Fahrenheit) => Conversion::CelsiusToFahrenheit,
            (TemperatureUnit::Fahrenheit, TemperatureUnit::Celsius) => Conversion::FahrenheitToCelsius,
            _ => Conversion::Unchanged,
        }
    }
}

/// Converting a temperature into the scale it is already in gives it back
/// unchanged.
pub proof fn lemma_same_scale_keeps_magnitude(unit: TemperatureUnit, num: int, den: int)
    ensures
        conversion_between(unit, unit) == Conversion::Unchanged,
        conversion_between(unit, unit).apply(num, den) == (num, den),
{
}

/// Converting a temperature into another scale and back gives the magnitude
/// it started from, in exact arithmetic.
pub proof fn lemma_round_trip(from: TemperatureUnit, to: TemperatureUnit, num: int, den: int)
    requires
        den > 0,
    ensures
        same_ratio(
            conversion_between(to, from).apply(
                conversion_between(from, to).apply(num, den).0,
                conversion_between(from, to).apply(num, den).1,
            ),
            (num, den),
        ),
{
    let there = conversion_between(from, to).apply(num, den);
    let back = conversion_between(to, from).apply(there.0, there.1);
    match (from, to) {
        (TemperatureUnit::Celsius, TemperatureUnit::Fahrenheit) => {
            assert(back.0 == 5 * ((9 * num + 160 * den) - 32 * (5 * den)));
            assert(back.1 == 9 * (5 * den));
            assert(back.0 * den == num * back.1) by (nonlinear_arith)
                requires
                    back.0 == 5 * ((9 * num + 160 * den) - 32 * (5 * den)),
                    back.1 == 9 * (5 * den),
            ;
        },
        (TemperatureUnit::Fahrenheit, TemperatureUnit::Celsius) => {
            assert(back.0 == 9 * (5 * (num - 32 * den)) + 160 * (9 * den));
            assert(back.1 == 5 * (9 * den));
            assert(back.0 * den == num * back.1) by (nonlinear_arith)
                requires
                    back.0 == 9 * (5 * (num - 32 * den)) + 160 * (9 * den),
                    back.1 == 5 * (9 * den),
            ;
        },
        _ => {
            assert(back == (num, den));
        },
    }
}

} // verus!
