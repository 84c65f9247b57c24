//! Display selection checks: timestamp and date trimming, and the
//! pairing rules for display lines.

use weather_app::models::{CurrentWeather, DailyForecast};
use weather_app::view::{
    cloud_cover_line, current_precipitation_line, extract_time, feels_like_line, format_date,
    hourly_time_label, humidity_line, precipitation_line, pressure_line, sun_times_line,
    temperature_line, temperature_range_line, visibility_line, weather_code_line, wind_line,
};

fn empty_current() -> CurrentWeather {
    CurrentWeather {
        temperature: None,
        apparent_temperature: None,
        humidity: None,
        precipitation: None,
        weather_code: None,
        wind_speed: None,
        wind_direction: None,
        cloud_cover: None,
        pressure: None,
        visibility: None,
    }
}

fn empty_day() -> DailyForecast {
    DailyForecast {
        date: String::from("2024-01-01"),
        temperature_max: None,
        temperature_min: None,
        weather_code: None,
        precipitation_sum: None,
        precipitation_probability: None,
        wind_speed_max: None,
        sunrise: None,
        sunset: None,
    }
}

#[test]
fn extracts_clock_time_from_timestamps() {
    assert_eq!(extract_time("2024-01-01T06:30:15"), "06:30");
    assert_eq!(extract_time("2024-01-01T06:30"), "06:30");
    assert_eq!(extract_time("2024-01-01"), "2024-01-01");
    assert_eq!(extract_time("aTb"), "aTb");
    assert_eq!(extract_time(""), "");
    assert_eq!(extract_time("T12:00"), "12:00");
}

#[test]
fn labels_hourly_timestamps_by_hour() {
    assert_eq!(hourly_time_label("2024-01-01T14:00"), "14");
    assert_eq!(hourly_time_label("2024-01-01"), "2024-01-01");
    assert_eq!(hourly_time_label("T09"), "09");
}

#[test]
fn formats_dates_with_month_names() {
    assert_eq!(format_date("2025-03-07"), "Mar 07");
    assert_eq!(format_date("2024-12-31"), "Dec 31");
    assert_eq!(format_date("2024-01-01"), "Jan 01");
    // An unmapped month number stays as it is.
    assert_eq!(format_date("2024-13-01"), "13 01");
    // Other shapes are handed back unchanged.
    assert_eq!(format_date("20240101"), "20240101");
    assert_eq!(format_date("2024-01"), "2024-01");
    assert_eq!(format_date("2024-01-01-extra"), "2024-01-01-extra");
}

#[test]
fn temperature_line_requires_a_temperature() {
    let mut current = empty_current();
    assert!(temperature_line(&current).is_none());
    current.temperature = Some(150000);
    assert_eq!(
        temperature_line(&current).unwrap(),
        "Temperature: 15.0\u{b0}C / 59.0\u{b0}F"
    );
}

#[test]
fn feels_like_line_requires_an_apparent_temperature() {
    let mut current = empty_current();
    assert!(feels_like_line(&current).is_none());
    current.apparent_temperature = Some(-25000);
    assert_eq!(
        feels_like_line(&current).unwrap(),
        "Feels Like: -2.5\u{b0}C / 27.5\u{b0}F"
    );
}

#[test]
fn wind_line_pairs_speed_with_optional_direction() {
    let mut current = empty_current();
    // No line without a speed, even when a direction is present.
    current.wind_direction = Some(1_800_000);
    assert!(wind_line(&current).is_none());
    current.wind_speed = Some(100000);
    assert_eq!(
        wind_line(&current).unwrap(),
        "Wind: 10.0 km/h / 6.2 mph from 180.0\u{b0} (S)"
    );
    current.wind_direction = None;
    assert_eq!(wind_line(&current).unwrap(), "Wind: 10.0 km/h / 6.2 mph");
}

#[test]
fn precipitation_line_requires_a_positive_amount() {
    assert!(precipitation_line(None, Some(500000)).is_none());
    assert!(precipitation_line(Some(0), Some(500000)).is_none());
    assert!(precipitation_line(Some(-10000), None).is_none());
    assert_eq!(
        precipitation_line(Some(25000), None).unwrap(),
        "Precipitation: 2.5 mm / 0.10 in"
    );
    assert_eq!(
        precipitation_line(Some(25000), Some(450000)).unwrap(),
        "Precipitation: 2.5 mm / 0.10 in (45% chance)"
    );
}

#[test]
fn temperature_range_line_requires_both_ends() {
    let mut day = empty_day();
    assert!(temperature_range_line(&day).is_none());
    day.temperature_max = Some(100000);
    assert!(temperature_range_line(&day).is_none());
    day.temperature_min = Some(20000);
    assert_eq!(
        temperature_range_line(&day).unwrap(),
        "Temperature: 2.0\u{b0}C to 10.0\u{b0}C / 35.6\u{b0}F to 50.0\u{b0}F"
    );
}

#[test]
fn scalar_lines_require_their_values() {
    let mut current = empty_current();
    assert!(humidity_line(&current).is_none());
    assert!(cloud_cover_line(&current).is_none());
    assert!(pressure_line(&current).is_none());
    assert!(visibility_line(&current).is_none());
    assert!(weather_code_line(&current).is_none());
    assert!(current_precipitation_line(&current).is_none());
    current.humidity = Some(845000);
    current.cloud_cover = Some(250000);
    current.pressure = Some(10132500);
    current.visibility = Some(100000000);
    current.weather_code = Some(61);
    current.precipitation = Some(0);
    assert_eq!(humidity_line(&current).unwrap(), "Humidity: 85%");
    assert_eq!(cloud_cover_line(&current).unwrap(), "Cloud Cover: 25%");
    assert_eq!(
        pressure_line(&current).unwrap(),
        "Pressure: 1013.3 hPa / 29.92 inHg"
    );
    assert_eq!(
        visibility_line(&current).unwrap(),
        "Visibility: 10000 meters / 32808 feet"
    );
    assert_eq!(weather_code_line(&current).unwrap(), "Weather Code: 61 (Rain)");
    // Unlike the daily rule, the current block shows a zero amount.
    assert_eq!(
        current_precipitation_line(&current).unwrap(),
        "Precipitation: 0.0 mm / 0.00 in"
    );
}

#[test]
fn hourly_item_line_composes_the_present_fields() {
    let hour = weather_app::models::HourlyForecast {
        time: String::from("2024-01-01T14:00"),
        temperature: Some(150000),
        apparent_temperature: None,
        precipitation_probability: Some(300000),
        precipitation: Some(25000),
        weather_code: Some(61),
        wind_speed: Some(100000),
        humidity: None,
    };
    assert_eq!(
        weather_app::view::hourly_item_line(&hour),
        "14:00 - 15.0\u{b0}C / 59.0\u{b0}F (Rain) | Rain: 30% (2.5mm / 0.10in) | Wind: 10 km/h / 6 mph"
    );
    let bare = weather_app::models::HourlyForecast {
        time: String::from("2024-01-01T03:00"),
        temperature: None,
        apparent_temperature: None,
        precipitation_probability: None,
        precipitation: Some(0),  // zero amounts are left out
        weather_code: None,
        wind_speed: None,
        humidity: None,
    };
    assert_eq!(weather_app::view::hourly_item_line(&bare), "03:00 - ");
}

#[test]
fn sun_times_line_requires_both_times() {
    let mut day = empty_day();
    assert!(sun_times_line(&day).is_none());
    day.sunrise = Some(String::from("2024-01-01T07:58"));
    assert!(sun_times_line(&day).is_none());
    day.sunset = Some(String::from("2024-01-01T16:22"));
    assert_eq!(
        sun_times_line(&day).unwrap(),
        "Sunrise: 07:58 | Sunset: 16:22"
    );
}
