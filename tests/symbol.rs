use temperature::TemperatureUnit;

#[test]
fn celsius_symbol() {
    assert_eq!(TemperatureUnit::Celsius.symbol(), "C");
}

#[test]
fn fahrenheit_symbol() {
    assert_eq!(TemperatureUnit::Fahrenheit.symbol(), "F");
}

#[test]
fn rendered_suffix() {
    assert_eq!(format!("{:.1}°{}", 32.0f64, TemperatureUnit::Fahrenheit.symbol()), "32.0°F");
    assert_eq!(format!("{:.1}°{}", 100.0f64, TemperatureUnit::Celsius.symbol()), "100.0°C");
    assert_eq!(format!("{:.1}°{}", -10.0f64, TemperatureUnit::Celsius.symbol()), "-10.0°C");
}
