//! Geocoder checks: request building and response handling.

use weather_app::errors::WeatherError;
use weather_app::geocode::{
    build_geocode_url, coords_from_texts, geocode_status_error, parse_geocode_response,
    status_is_success, trim_text,
};

#[test]
fn trims_surrounding_whitespace() {
    assert_eq!(trim_text("  london  "), "london");
    assert_eq!(trim_text("\tnew york\n"), "new york");
    assert_eq!(trim_text("london"), "london");
    assert_eq!(trim_text("   "), "");
    assert_eq!(trim_text(""), "");
    // The whole Unicode White_Space set counts as surrounding space.
    assert_eq!(trim_text("\u{a0}london\u{2003}"), "london");
    assert_eq!(trim_text("\u{85}\u{3000}paris\u{202f}"), "paris");
    assert_eq!(trim_text("oslo"), trim_text("  oslo".trim_start_matches(' ')));
}

#[test]
fn builds_the_geocoding_request() {
    assert_eq!(
        build_geocode_url("london"),
        "https://nominatim.openstreetmap.org/search?q=london&format=json&limit=1"
    );
    // Trimmed, and inner spaces percent-encoded.
    assert_eq!(
        build_geocode_url("  new york  "),
        "https://nominatim.openstreetmap.org/search?q=new%20york&format=json&limit=1"
    );
}

#[test]
fn empty_result_list_is_location_not_found() {
    let r = parse_geocode_response("london", "[]");
    match r {
        Err(WeatherError::LocationNotFound(l)) => assert_eq!(l, "london"),
        other => panic!("expected LocationNotFound, got {:?}", other),
    }
}

#[test]
fn first_result_wins_and_the_rest_are_ignored() {
    let body = r#"[{"lat":"51.51","lon":"-0.13"},{"lat":"99.99","lon":"99.99"}]"#;
    let coords = parse_geocode_response("london", body).unwrap();
    assert_eq!(coords.latitude, 515100);
    assert_eq!(coords.longitude, -1300);
}

#[test]
fn malformed_bodies_are_parse_errors() {
    for body in [
        "not json",
        r#"{"lat":"51.51"}"#,  // not an array
        r#"[{"lon":"-0.13"}]"#,  // first result lacks lat
        r#"[{"lat":51.51,"lon":-0.13}]"#,  // numbers, not strings
        r#"[{"lat":"fifty","lon":"-0.13"}]"#,  // not parseable
    ] {
        match parse_geocode_response("london", body) {
            Err(WeatherError::ParseError(_)) => {},
            other => panic!("expected ParseError for {body}, got {:?}", other),
        }
    }
}

#[test]
fn coordinate_texts_decide_latitude_first() {
    let ok = coords_from_texts(Some("51.51"), Some("-0.13")).unwrap();
    assert_eq!(ok.latitude, 515100);
    assert_eq!(ok.longitude, -1300);
    match coords_from_texts(None, Some("-0.13")) {
        Err(WeatherError::ParseError(m)) => assert_eq!(m, "Failed to parse latitude"),
        other => panic!("expected ParseError, got {:?}", other),
    }
    match coords_from_texts(Some("x"), Some("y")) {
        Err(WeatherError::ParseError(m)) => assert_eq!(m, "Failed to parse latitude"),
        other => panic!("expected ParseError, got {:?}", other),
    }
    match coords_from_texts(Some("51.51"), None) {
        Err(WeatherError::ParseError(m)) => assert_eq!(m, "Failed to parse longitude"),
        other => panic!("expected ParseError, got {:?}", other),
    }
}

#[test]
fn status_codes() {
    assert!(status_is_success(200));
    assert!(status_is_success(299));
    assert!(!status_is_success(199));
    assert!(!status_is_success(300));
    assert!(!status_is_success(404));
    let e = geocode_status_error("404 Not Found");
    match e {
        WeatherError::ApiError(m) => {
            assert_eq!(m, "Geocoding API returned status: 404 Not Found")
        },
        other => panic!("expected ApiError, got {:?}", other),
    }
}

#[test]
fn error_messages_render() {
    let e = WeatherError::LocationNotFound(String::from("atlantis"));
    assert_eq!(e.message(), "Location 'atlantis' not found");
    let e = WeatherError::NetworkError(String::from("timed out"));
    assert_eq!(e.message(), "Network error: timed out");
    let e = WeatherError::ParseError(String::from("bad body"));
    assert_eq!(e.message(), "Parse error: bad body");
    let e = WeatherError::ApiError(String::from("500"));
    assert_eq!(e.message(), "API error: 500");
}
