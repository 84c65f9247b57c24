//! Unit conversion checks over the fixed-point representation: a value
//! `v` stands for `v / 10000` units.

use weather_app::conversions::{Distance, Pressure, Speed, Temperature};

fn to_units(v: i64) -> f64 {
    v as f64 / 10000.0
}

#[test]
fn test_celsius_to_fahrenheit() {
    assert_eq!(Temperature::celsius_to_fahrenheit(0), 320000);
    assert_eq!(Temperature::celsius_to_fahrenheit(1000000), 2120000);
}

#[test]
fn test_kmh_to_mph() {
    let result = Speed::kmh_to_mph(1000000);
    assert!((to_units(result) - 62.1371).abs() < 0.0001);
}

#[test]
fn test_mm_to_inches() {
    let result = Distance::mm_to_inches(254000);
    assert!((to_units(result) - 1.0).abs() < 0.001);
}

#[test]
fn test_meters_to_feet() {
    let result = Distance::meters_to_feet(10000);
    assert!((to_units(result) - 3.28084).abs() < 0.0001);
}

#[test]
fn test_hpa_to_inhg() {
    let result = Pressure::hpa_to_inhg(10132500);
    assert!((to_units(result) - 29.92).abs() < 0.01);
}

#[test]
fn negative_temperatures_convert() {
    // -40 Celsius is -40 Fahrenheit.
    assert_eq!(Temperature::celsius_to_fahrenheit(-400000), -400000);
}
