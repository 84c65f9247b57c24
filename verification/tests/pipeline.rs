//! End-to-end checks through the whole pipeline: geocode response,
//! forecast response, mapping, assembly and display.

use weather_app::forecast::parse_forecast_body;
use weather_app::geocode::parse_geocode_response;
use weather_app::mapper::{assemble_weather_info, map_forecast};
use weather_app::models::{Coordinates, WeatherInfo};
use weather_app::repository::{FixedWeatherRepository, WeatherRepository};
use weather_app::view::temperature_line;

fn mocked_info() -> WeatherInfo {
    let coords = parse_geocode_response("london", r#"[{"lat":"51.51","lon":"-0.13"}]"#).unwrap();
    let raw = parse_forecast_body(r#"{"current":{"temperature_2m":15.0}}"#).unwrap();
    assemble_weather_info("london", coords, raw)
}

#[test]
fn london_query_displays_both_scales() {
    let info = mocked_info();
    assert_eq!(info.location, "london");
    assert_eq!(info.latitude, 515100);
    assert_eq!(info.longitude, -1300);
    let line = temperature_line(&info.weather_data.current).unwrap();
    assert!(line.contains("15.0\u{b0}C / 59.0\u{b0}F"));
}

#[test]
fn fixed_repository_answers_with_its_stored_data() {
    let raw = parse_forecast_body(r#"{"current":{"temperature_2m":15.0}}"#).unwrap();
    let repository = FixedWeatherRepository {
        coordinates: Coordinates { latitude: 515100, longitude: -1300 },
        weather: map_forecast(raw),
    };
    let info = repository.fetch_weather("london").unwrap();
    assert_eq!(info.location, "london");
    assert_eq!(info.latitude, 515100);
    assert_eq!(info.longitude, -1300);
    assert_eq!(info.weather_data.current.temperature, Some(150000));
    let line = temperature_line(&info.weather_data.current).unwrap();
    assert_eq!(line, "Temperature: 15.0\u{b0}C / 59.0\u{b0}F");
}

#[test]
fn queries_are_independent() {
    let raw = parse_forecast_body(r#"{"current":{"temperature_2m":-3.5}}"#).unwrap();
    let repository = FixedWeatherRepository {
        coordinates: Coordinates { latitude: 0, longitude: 0 },
        weather: map_forecast(raw),
    };
    let a = repository.fetch_weather("here").unwrap();
    let b = repository.fetch_weather("there").unwrap();
    assert_eq!(a.location, "here");
    assert_eq!(b.location, "there");
    assert_eq!(
        a.weather_data.current.temperature,
        b.weather_data.current.temperature
    );
}
