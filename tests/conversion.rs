use temperature::{Conversion, TemperatureUnit};

#[test]
fn celsius_to_fahrenheit_uses_forward_formula() {
    assert_eq!(
        TemperatureUnit::Celsius.conversion_to(TemperatureUnit::Fahrenheit),
        Conversion::CelsiusToFahrenheit
    );
}

#[test]
fn fahrenheit_to_celsius_uses_inverse_formula() {
    assert_eq!(
        TemperatureUnit::Fahrenheit.conversion_to(TemperatureUnit::Celsius),
        Conversion::FahrenheitToCelsius
    );
}

#[test]
fn same_scale_keeps_magnitude() {
    assert_eq!(
        TemperatureUnit::Fahrenheit.conversion_to(TemperatureUnit::Fahrenheit),
        Conversion::Unchanged
    );
    assert_eq!(
        TemperatureUnit::Celsius.conversion_to(TemperatureUnit::Celsius),
        Conversion::Unchanged
    );
}

#[test]
fn there_and_back_are_opposite_directions() {
    let there = TemperatureUnit::Celsius.conversion_to(TemperatureUnit::Fahrenheit);
    let back = TemperatureUnit::Fahrenheit.conversion_to(TemperatureUnit::Celsius);
    assert_ne!(there, back);
    assert_ne!(there, Conversion::Unchanged);
    assert_ne!(back, Conversion::Unchanged);
}
