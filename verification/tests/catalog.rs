//! Condition catalog checks: compass bucketing and the totality of the
//! weather-code tables.

use weather_app::catalog::{
    compass_bucket, compass_name, weather_code_to_color, weather_code_to_description,
    weather_code_to_icon, ColorClass, CompassPoint,
};
use weather_app::view::ClView;

// Degrees are fixed-point ten-thousandths: 1 degree is 10000.

#[test]
fn compass_bucket_cardinal_points() {
    assert_eq!(compass_bucket(0), CompassPoint::North);
    assert_eq!(compass_bucket(3_599_000), CompassPoint::North);  // 359.9 degrees
    assert_eq!(compass_bucket(450_000), CompassPoint::NorthEast);  // 45 degrees
    assert_eq!(compass_bucket(900_000), CompassPoint::East);
    assert_eq!(compass_bucket(1_800_000), CompassPoint::South);
    assert_eq!(compass_bucket(2_700_000), CompassPoint::West);
}

#[test]
fn compass_bucket_normalizes_out_of_range() {
    assert_eq!(compass_bucket(-100_000), CompassPoint::North);  // -10 degrees
    assert_eq!(compass_bucket(3_700_000), CompassPoint::North);  // 370 degrees
    assert_eq!(compass_bucket(-450_000), CompassPoint::NorthWest);  // -45 degrees
}

#[test]
fn compass_bucket_boundaries_are_half_open() {
    assert_eq!(compass_bucket(225_000), CompassPoint::NorthEast);  // 22.5 owns NE
    assert_eq!(compass_bucket(224_999), CompassPoint::North);
    assert_eq!(compass_bucket(3_375_000), CompassPoint::North);  // 337.5 owns N
    assert_eq!(compass_bucket(3_374_999), CompassPoint::NorthWest);
}

#[test]
fn compass_names() {
    assert_eq!(compass_name(CompassPoint::North), "N");
    assert_eq!(compass_name(CompassPoint::SouthWest), "SW");
    assert_eq!(ClView::wind_direction_name(450_000), "NE");
    assert_eq!(ClView::wind_direction_name(-100_000), "N");
}

#[test]
fn descriptions_cover_the_code_families() {
    assert_eq!(ClView::weather_code_description(0), "Clear sky");
    assert_eq!(ClView::weather_code_description(2), "Partly cloudy");
    assert_eq!(ClView::weather_code_description(45), "Fog");
    assert_eq!(ClView::weather_code_description(48), "Fog");
    assert_eq!(ClView::weather_code_description(55), "Drizzle");
    assert_eq!(ClView::weather_code_description(63), "Rain");
    assert_eq!(ClView::weather_code_description(75), "Snow");
    assert_eq!(ClView::weather_code_description(77), "Snow grains");
    assert_eq!(ClView::weather_code_description(81), "Rain showers");
    assert_eq!(ClView::weather_code_description(86), "Snow showers");
    assert_eq!(ClView::weather_code_description(95), "Thunderstorm");
    assert_eq!(ClView::weather_code_description(99), "Thunderstorm with hail");
}

#[test]
fn descriptions_are_total_over_unmapped_codes() {
    // Negative, gap and large codes all fall to a non-empty fallback.
    for code in [-1, -1000, 4, 44, 50, 60, 79, 94, 100, 12345, i32::MIN, i32::MAX] {
        assert_eq!(ClView::weather_code_description(code), "Unknown");
        assert_eq!(weather_code_to_description(code), "Unknown");
        assert!(!weather_code_to_icon(code).is_empty());
    }
}

#[test]
fn detailed_descriptions_and_icons() {
    assert_eq!(weather_code_to_description(0), "Clear Sky");
    assert_eq!(weather_code_to_description(48), "Depositing Rime Fog");
    assert_eq!(weather_code_to_description(77), "Snow Grains");
    assert_eq!(weather_code_to_description(82), "Violent Rain Showers");
    assert_eq!(weather_code_to_description(99), "Thunderstorm with Heavy Hail");
    assert_eq!(weather_code_to_icon(0), "\u{2600}");
    assert_eq!(weather_code_to_icon(63), "\u{2614}");
    assert_eq!(weather_code_to_icon(73), "\u{2744}");
}

#[test]
fn color_classes() {
    assert_eq!(weather_code_to_color(0), ColorClass::Sun);
    assert_eq!(weather_code_to_color(2), ColorClass::Neutral);
    assert_eq!(weather_code_to_color(45), ColorClass::Muted);
    assert_eq!(weather_code_to_color(61), ColorClass::Wet);
    assert_eq!(weather_code_to_color(96), ColorClass::Storm);
    assert_eq!(weather_code_to_color(-7), ColorClass::Neutral);
}
