//! Forecast decoding and mapping checks: the mandatory current block,
//! optional hourly/daily blocks, and the positional zip with its
//! tolerance for short field sequences.

use weather_app::errors::WeatherError;
use weather_app::forecast::{build_weather_api_url, parse_forecast_body, RawHourly};
use weather_app::mapper::{map_forecast, parse_hourly_forecasts};

fn hourly_body(times: usize, temperatures: usize) -> String {
    let time_entries: Vec<String> =
        (0..times).map(|i| format!("\"2024-01-01T{:02}:00\"", i % 24)).collect();
    let temp_entries: Vec<String> = (0..temperatures).map(|i| format!("{}.5", i)).collect();
    let mut body = String::from("{\"current\":{\"temperature_2m\":15.0},\"hourly\":{\"time\":[");
    body.push_str(&time_entries.join(","));
    body.push_str("],\"temperature_2m\":[");
    body.push_str(&temp_entries.join(","));
    body.push_str("],\"apparent_temperature\":[],\"precipitation_probability\":[],");
    body.push_str("\"precipitation\":[],\"weather_code\":[],\"wind_speed_10m\":[],");
    body.push_str("\"relative_humidity_2m\":[]}}");
    body
}

#[test]
fn builds_the_forecast_request() {
    let url = build_weather_api_url(515100, -1300);
    assert!(url.starts_with(
        "https://api.open-meteo.com/v1/forecast?latitude=51.5100&longitude=-0.1300&current="
    ));
    assert!(url.contains("&hourly=temperature_2m,"));
    assert!(url.contains("&daily=temperature_2m_max,"));
    assert!(url.ends_with("&forecast_days=7"));
}

#[test]
fn decodes_a_minimal_payload() {
    let raw = parse_forecast_body(r#"{"current":{"temperature_2m":15.0}}"#).unwrap();
    assert_eq!(raw.current.temperature_2m, Some(150000));
    assert_eq!(raw.current.weather_code, None);
    assert!(raw.hourly.is_none());
    assert!(raw.daily.is_none());
    let data = map_forecast(raw);
    assert_eq!(data.current.temperature, Some(150000));
    assert!(data.hourly.is_empty());
    assert!(data.daily.is_empty());
}

#[test]
fn missing_current_block_is_a_parse_error() {
    for body in [
        r#"{}"#,
        r#"{"hourly":{"time":[]}}"#,
        r#"[1,2,3]"#,
        "not json",
    ] {
        match parse_forecast_body(body) {
            Err(WeatherError::ParseError(_)) => {},
            other => panic!("expected ParseError for {body}, got {:?}", other),
        }
    }
}

#[test]
fn null_fields_are_absent_not_zero() {
    let raw = parse_forecast_body(
        r#"{"current":{"temperature_2m":null,"wind_speed_10m":3.6,"weather_code":2}}"#,
    )
    .unwrap();
    assert_eq!(raw.current.temperature_2m, None);
    assert_eq!(raw.current.wind_speed_10m, Some(36000));
    assert_eq!(raw.current.weather_code, Some(2));
}

#[test]
fn wrong_types_refuse_the_payload() {
    for body in [
        r#"{"current":{"temperature_2m":"warm"}}"#,
        r#"{"current":{"weather_code":2.5}}"#,
        r#"{"current":{},"hourly":{"time":[3]}}"#,
        r#"{"current":{},"hourly":{"time":[]}}"#,  // missing field sequences
    ] {
        match parse_forecast_body(body) {
            Err(WeatherError::ParseError(_)) => {},
            other => panic!("expected ParseError for {body}, got {:?}", other),
        }
    }
}

#[test]
fn hourly_zip_caps_length_and_tolerates_short_fields() {
    let raw = parse_forecast_body(&hourly_body(30, 20)).unwrap();
    let hourly = parse_hourly_forecasts(raw.hourly);
    // min(30, 24) entries survive the cap.
    assert_eq!(hourly.len(), 24);
    for (i, entry) in hourly.iter().enumerate() {
        if i < 20 {
            assert_eq!(entry.temperature, Some(i as i64 * 10000 + 5000));
        } else {
            // Positions past the short sequence are absent, not a failure.
            assert_eq!(entry.temperature, None);
        }
        // The empty parallel sequences are absent at every position.
        assert_eq!(entry.wind_speed, None);
    }
}

#[test]
fn hourly_zip_keeps_positional_order() {
    let raw = parse_forecast_body(&hourly_body(3, 3)).unwrap();
    let hourly = parse_hourly_forecasts(raw.hourly);
    assert_eq!(hourly.len(), 3);
    assert_eq!(hourly[0].time, "2024-01-01T00:00");
    assert_eq!(hourly[1].time, "2024-01-01T01:00");
    assert_eq!(hourly[2].time, "2024-01-01T02:00");
}

#[test]
fn hourly_zip_of_hand_built_sequences() {
    let raw = RawHourly {
        time: vec![String::from("a"), String::from("b")],
        temperature_2m: vec![Some(10000)],
        apparent_temperature: vec![None, Some(20000)],
        precipitation_probability: vec![],
        precipitation: vec![Some(0), Some(5000), Some(99999)],
        weather_code: vec![Some(3)],
        wind_speed_10m: vec![],
        relative_humidity_2m: vec![],
    };
    let hourly = parse_hourly_forecasts(Some(raw));
    assert_eq!(hourly.len(), 2);
    assert_eq!(hourly[0].temperature, Some(10000));
    assert_eq!(hourly[1].temperature, None);
    assert_eq!(hourly[0].apparent_temperature, None);
    assert_eq!(hourly[1].apparent_temperature, Some(20000));
    assert_eq!(hourly[1].precipitation, Some(5000));
    assert_eq!(hourly[0].weather_code, Some(3));
    assert_eq!(hourly[1].weather_code, None);
}

#[test]
fn current_block_must_be_an_object() {
    for body in [
        r#"{"current":5}"#,
        r#"{"current":"warm"}"#,
        r#"{"current":[1,2]}"#,
        r#"{"current":null}"#,
    ] {
        match parse_forecast_body(body) {
            Err(WeatherError::ParseError(_)) => {},
            other => panic!("expected ParseError for {body}, got {:?}", other),
        }
    }
}

#[test]
fn daily_zip_caps_at_the_requested_span() {
    let dates: Vec<String> = (1..=10).map(|d| format!("\"2024-01-{:02}\"", d)).collect();
    let mut body = String::from(r#"{"current":{},"daily":{"time":["#);
    body.push_str(&dates.join(","));
    body.push_str(r#"],"temperature_2m_max":[],"temperature_2m_min":[],"#);
    body.push_str(r#""weather_code":[],"precipitation_sum":[],"#);
    body.push_str(r#""precipitation_probability_max":[],"wind_speed_10m_max":[],"#);
    body.push_str(r#""sunrise":[],"sunset":[]}}"#);
    let raw = parse_forecast_body(&body).unwrap();
    let data = map_forecast(raw);
    assert_eq!(data.daily.len(), 7);
    assert_eq!(data.daily[0].date, "2024-01-01");
    assert_eq!(data.daily[6].date, "2024-01-07");
}

#[test]
fn daily_block_maps_with_sun_times() {
    let mut body = String::from(r#"{"current":{},"daily":{"time":["2024-01-01","2024-01-02"],"#);
    body.push_str(r#""temperature_2m_max":[10.0,null],"temperature_2m_min":[2.0],"#);
    body.push_str(r#""weather_code":[3,45],"precipitation_sum":[0.0,1.2],"#);
    body.push_str(r#""precipitation_probability_max":[10,80],"wind_speed_10m_max":[20.5],"#);
    body.push_str(r#""sunrise":["2024-01-01T07:58",null],"sunset":["2024-01-01T16:22"]}}"#);
    let raw = parse_forecast_body(&body).unwrap();
    let data = map_forecast(raw);
    assert_eq!(data.daily.len(), 2);
    assert_eq!(data.daily[0].date, "2024-01-01");
    assert_eq!(data.daily[0].temperature_max, Some(100000));
    assert_eq!(data.daily[0].temperature_min, Some(20000));
    assert_eq!(data.daily[1].temperature_max, None);
    assert_eq!(data.daily[1].temperature_min, None);
    assert_eq!(data.daily[1].weather_code, Some(45));
    assert_eq!(data.daily[0].sunrise.as_deref(), Some("2024-01-01T07:58"));
    assert_eq!(data.daily[1].sunrise, None);
    assert_eq!(data.daily[1].sunset, None);
}
