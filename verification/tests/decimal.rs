//! Decimal text checks: parsing into fixed-point ten-thousandths and
//! formatting back out.

use weather_app::decimal::{
    format_fixed, format_fixed0, format_fixed1, format_fixed2, i64_to_string, parse_fixed,
    u64_to_string,
};

#[test]
fn parses_plain_decimals() {
    assert_eq!(parse_fixed("51.51"), Some(515100));
    assert_eq!(parse_fixed("-0.13"), Some(-1300));
    assert_eq!(parse_fixed("0"), Some(0));
    assert_eq!(parse_fixed("15"), Some(150000));
    assert_eq!(parse_fixed("15.0"), Some(150000));
    assert_eq!(parse_fixed("+2.5"), Some(25000));
    assert_eq!(parse_fixed("-7"), Some(-70000));
    assert_eq!(parse_fixed("003.5"), Some(35000));
}

#[test]
fn truncates_past_four_fractional_digits() {
    assert_eq!(parse_fixed("1.23456789"), Some(12345));
    assert_eq!(parse_fixed("0.00009"), Some(0));
}

#[test]
fn refuses_text_that_is_not_a_plain_decimal() {
    assert_eq!(parse_fixed(""), None);
    assert_eq!(parse_fixed("-"), None);
    assert_eq!(parse_fixed("+"), None);
    assert_eq!(parse_fixed("abc"), None);
    assert_eq!(parse_fixed("1e5"), None);
    assert_eq!(parse_fixed("12."), None);
    assert_eq!(parse_fixed(".5"), None);
    assert_eq!(parse_fixed("1.2.3"), None);
    assert_eq!(parse_fixed("1 2"), None);
    assert_eq!(parse_fixed("NaN"), None);
}

#[test]
fn refuses_magnitudes_past_the_whole_unit_cap() {
    assert_eq!(parse_fixed("100000000"), None);
    assert_eq!(parse_fixed("99999999"), Some(999_999_990_000));
    assert_eq!(parse_fixed("00000000000001"), Some(10000));
}

#[test]
fn formats_all_four_fractional_digits() {
    assert_eq!(format_fixed(515100), "51.5100");
    assert_eq!(format_fixed(-1300), "-0.1300");
    assert_eq!(format_fixed(0), "0.0000");
}

#[test]
fn formats_rounded_widths() {
    assert_eq!(format_fixed1(150000), "15.0");
    assert_eq!(format_fixed1(154000), "15.4");
    assert_eq!(format_fixed1(155000), "15.5");
    assert_eq!(format_fixed1(-5000), "-0.5");
    assert_eq!(format_fixed0(846000), "85");
    assert_eq!(format_fixed0(844999), "84");
    assert_eq!(format_fixed2(9999), "1.00");
    assert_eq!(format_fixed2(123449), "12.34");
}

#[test]
fn formats_whole_numbers() {
    assert_eq!(u64_to_string(0), "0");
    assert_eq!(u64_to_string(1013), "1013");
    assert_eq!(i64_to_string(-42), "-42");
    assert_eq!(i64_to_string(7), "7");
}

#[test]
fn round_trips_parse_then_format() {
    for text in ["51.5100", "-0.1300", "0.0000", "123.4567"] {
        let v = parse_fixed(text).unwrap();
        assert_eq!(format_fixed(v), text);
    }
}
