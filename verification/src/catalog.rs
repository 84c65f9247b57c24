//! The condition catalog: fixed lookup tables from WMO weather codes to
//! descriptions, display glyphs and color classes, and compass bucketing
//! of wind directions.
//!
//! Every table is total: any code outside the mapped families falls to an
//! explicit "unknown" entry.

use vstd::arithmetic::div_mod::{lemma_fundamental_div_mod, lemma_fundamental_div_mod_converse};
use vstd::prelude::*;

verus! {

/// Degrees of a full circle, in fixed-point ten-thousandths.
pub const FULL_CIRCLE: u64 = 3_600_000;

/// One of the eight compass points.
#[derive(Debug, Clone, Copy, PartialEq, Eq, Structural)]
pub enum CompassPoint {
    North,
    NorthEast,
    East,
    SouthEast,
    South,
    SouthWest,
    West,
    NorthWest,
}

/// A display color class for a weather condition.
#[derive(Debug, Clone, Copy, PartialEq, Eq, Structural)]
pub enum ColorClass {
    /// Clear sky.
    Sun,
    /// Cloud cover and anything unmapped.
    Neutral,
    /// Fog.
    Muted,
    /// Drizzle, rain, snow and showers.
    Wet,
    /// Thunderstorms.
    Storm,
}

/// The concise description of a weather condition code.
pub open spec fn spec_code_description(code: int) -> Seq<char> {
    if code == 0 {
        "Clear sky"@
    } else if code == 1 {
        "Mainly clear"@
    } else if code == 2 {
        "Partly cloudy"@
    } else if code == 3 {
        "Overcast"@
    } else if code == 45 || code == 48 {
        "Fog"@
    } else if code == 51 || code == 53 || code == 55 {
        "Drizzle"@
    } else if code == 61 || code == 63 || code == 65 {
        "Rain"@
    } else if code == 71 || code == 73 || code == 75 {
        "Snow"@
    } else if code == 77 {
        "Snow grains"@
    } else if 80 <= code <= 82 {
        "Rain showers"@
    } else if code == 85 || code == 86 {
        "Snow showers"@
    } else if code == 95 {
        "Thunderstorm"@
    } else if code == 96 || code == 99 {
        "Thunderstorm with hail"@
    } else {
        "Unknown"@
    }
}

/// The detailed description of a weather condition code.
pub open spec fn spec_code_description_detailed(code: int) -> Seq<char> {
    if code == 0 {
        "Clear Sky"@
    } else if code == 1 {
        "Mainly Clear"@
    } else if code == 2 {
        "Partly Cloudy"@
    } else if code == 3 {
        "Overcast"@
    } else if code == 45 {
        "Foggy"@
    } else if code == 48 {
        "Depositing Rime Fog"@
    } else if code == 51 {
        "Light Drizzle"@
    } else if code == 53 {
        "Moderate Drizzle"@
    } else if code == 55 {
        "Dense Drizzle"@
    } else if code == 61 {
        "Slight Rain"@
    } else if code == 63 {
        "Moderate Rain"@
    } else if code == 65 {
        "Heavy Rain"@
    } else if code == 71 {
        "Slight Snow"@
    } else if code == 73 {
        "Moderate Snow"@
    } else if code == 75 {
        "Heavy Snow"@
    } else if code == 77 {
        "Snow Grains"@
    } else if code == 80 {
        "Slight Rain Showers"@
    } else if code == 81 {
        "Moderate Rain Showers"@
    } else if code == 82 {
        "Violent Rain Showers"@
    } else if code == 85 {
        "Slight Snow Showers"@
    } else if code == 86 {
        "Heavy Snow Showers"@
    } else if code == 95 {
        "Thunderstorm"@
    } else if code == 96 {
        "Thunderstorm with Hail"@
    } else if code == 99 {
        "Thunderstorm with Heavy Hail"@
    } else {
        "Unknown"@
    }
}

/// The display glyph of a weather condition code.
pub open spec fn spec_code_icon(code: int) -> Seq<char> {
    if code == 0 {
        "☀"@
    } else if 1 <= code <= 3 {
        "⛅"@
    } else if code == 45 || code == 48 {
        "~"@
    } else if 51 <= code <= 57 {
        "☂"@
    } else if 61 <= code <= 67 {
        "☔"@
    } else if 71 <= code <= 77 {
        "❄"@
    } else if 80 <= code <= 82 {
        "☔"@
    } else if code == 85 || code == 86 {
        "❄"@
    } else if 95 <= code <= 99 {
        "⚡"@
    } else {
        "○"@
    }
}

/// The color class of a weather condition code.
pub open spec fn spec_code_color(code: int) -> ColorClass {
    if code == 0 {
        ColorClass::Sun
    } else if 1 <= code <= 3 {
        ColorClass::Neutral
    } else if code == 45 || code == 48 {
        ColorClass::Muted
    } else if 51 <= code <= 67 {
        ColorClass::Wet
    } else if 71 <= code <= 77 {
        ColorClass::Wet
    } else if 80 <= code <= 86 {
        ColorClass::Wet
    } else if 95 <= code <= 99 {
        ColorClass::Storm
    } else {
        ColorClass::Neutral
    }
}

/// The detailed description of a weather condition code; total, and
/// never empty.
pub fn weather_code_to_description(code: i32) -> (r: &'static str)
    ensures
        r@ == spec_code_description_detailed(code as int),
        r@.len() > 0,
{
    let r: &'static str = match code {
        0 => "Clear Sky",
        1 => "Mainly Clear",
        2 => "Partly Cloudy",
        3 => "Overcast",
        45 => "Foggy",
        48 => "Depositing Rime Fog",
        51 => "Light Drizzle",
        53 => "Moderate Drizzle",
        55 => "Dense Drizzle",
        61 => "Slight Rain",
        63 => "Moderate Rain",
        65 => "Heavy Rain",
        71 => "Slight Snow",
        73 => "Moderate Snow",
        75 => "Heavy Snow",
        77 => "Snow Grains",
        80 => "Slight Rain Showers",
        81 => "Moderate Rain Showers",
        82 => "Violent Rain Showers",
        85 => "Slight Snow Showers",
        86 => "Heavy Snow Showers",
        95 => "Thunderstorm",
        96 => "Thunderstorm with Hail",
        99 => "Thunderstorm with Heavy Hail",
        _ => "Unknown",
    };
    proof {
        reveal_strlit("Clear Sky");
        reveal_strlit("Mainly Clear");
        reveal_strlit("Partly Cloudy");
        reveal_strlit("Overcast");
        reveal_strlit("Foggy");
        reveal_strlit("Depositing Rime Fog");
        reveal_strlit("Light Drizzle");
        reveal_strlit("Moderate Drizzle");
        reveal_strlit("Dense Drizzle");
        reveal_strlit("Slight Rain");
        reveal_strlit("Moderate Rain");
        reveal_strlit("Heavy Rain");
        reveal_strlit("Slight Snow");
        reveal_strlit("Moderate Snow");
        reveal_strlit("Heavy Snow");
        reveal_strlit("Snow Grains");
        reveal_strlit("Slight Rain Showers");
        reveal_strlit("Moderate Rain Showers");
        reveal_strlit("Violent Rain Showers");
        reveal_strlit("Slight Snow Showers");
        reveal_strlit("Heavy Snow Showers");
        reveal_strlit("Thunderstorm");
        reveal_strlit("Thunderstorm with Hail");
        reveal_strlit("Thunderstorm with Heavy Hail");
        reveal_strlit("Unknown");
    }
    r
}

/// The display glyph of a weather condition code; total, and never
/// empty.
pub fn weather_code_to_icon(code: i32) -> (r: &'static str)
    ensures
        r@ == spec_code_icon(code as int),
        r@.len() > 0,
{
    let r: &'static str = if code == 0 {
        "☀"
    } else if 1 <= code && code <= 3 {
        "⛅"
    } else if code == 45 || code == 48 {
        "~"
    } else if 51 <= code && code <= 57 {
        "☂"
    } else if 61 <= code && code <= 67 {
        "☔"
    } else if 71 <= code && code <= 77 {
        "❄"
    } else if 80 <= code && code <= 82 {
        "☔"
    } else if code == 85 || code == 86 {
        "❄"
    } else if 95 <= code && code <= 99 {
        "⚡"
    } else {
        "○"
    };
    proof {
        reveal_strlit("☀");
        reveal_strlit("⛅");
        reveal_strlit("~");
        reveal_strlit("☂");
        reveal_strlit("☔");
        reveal_strlit("❄");
        reveal_strlit("⚡");
        reveal_strlit("○");
    }
    r
}

/// The color class of a weather condition code; total.
pub fn weather_code_to_color(code: i32) -> (r: ColorClass)
    ensures
        r == spec_code_color(code as int),
{
    if code == 0 {
        ColorClass::Sun
    } else if 1 <= code && code <= 3 {
        ColorClass::Neutral
    } else if code == 45 || code == 48 {
        ColorClass::Muted
    } else if 51 <= code && code <= 67 {
        ColorClass::Wet
    } else if 71 <= code && code <= 77 {
        ColorClass::Wet
    } else if 80 <= code && code <= 86 {
        ColorClass::Wet
    } else if 95 <= code && code <= 99 {
        ColorClass::Storm
    } else {
        ColorClass::Neutral
    }
}

/// Wind direction degrees normalized into `[0, 360)`, fixed-point.
pub open spec fn normalized_degrees(d: int) -> int {
    d % (FULL_CIRCLE as int)
}

/// Normalizes wind direction degrees into `[0, 360)`, fixed-point.
pub fn normalize_wind_degrees(d: i64) -> (r: u64)
    requires
        d > i64::MIN,
    ensures
        r == normalized_degrees(d as int),
        r < FULL_CIRCLE,
{
    let mag: u64 = if d < 0 {
        (-d) as u64
    } else {
        d as u64
    };
    let rem: u64 = mag % FULL_CIRCLE;
    if d < 0 && rem != 0 {
        proof {
            let m = FULL_CIRCLE as int;
            lemma_fundamental_div_mod(mag as int, m);
            let qm = mag as int / m;
            assert(d as int == (-qm - 1) * m + (m - rem)) by {
                assert(mag as int == qm * m + rem);
            }
            lemma_fundamental_div_mod_converse(d as int, m, -qm - 1, m - rem);
        }
        FULL_CIRCLE - rem
    } else if d < 0 {
        proof {
            let m = FULL_CIRCLE as int;
            lemma_fundamental_div_mod(mag as int, m);
            let qm = mag as int / m;
            assert(d as int == (-qm) * m + 0) by {
                assert(mag as int == qm * m + rem);
            }
            lemma_fundamental_div_mod_converse(d as int, m, -qm, 0);
        }
        rem
    } else {
        rem
    }
}

/// The compass point owning the normalized direction: `North` wraps
/// across zero and each point owns a 45-degree band, lower bound
/// inclusive, upper bound exclusive.
pub open spec fn spec_compass_bucket(d: int) -> CompassPoint {
    let n = normalized_degrees(d);
    if n < 225_000 || n >= 3_375_000 {
        CompassPoint::North
    } else if n < 675_000 {
        CompassPoint::NorthEast
    } else if n < 1_125_000 {
        CompassPoint::East
    } else if n < 1_575_000 {
        CompassPoint::SouthEast
    } else if n < 2_025_000 {
        CompassPoint::South
    } else if n < 2_475_000 {
        CompassPoint::SouthWest
    } else if n < 2_925_000 {
        CompassPoint::West
    } else {
        CompassPoint::NorthWest
    }
}

/// Buckets a wind direction, in fixed-point degrees, to its compass
/// point; total over all magnitudes the representation admits.
pub fn compass_bucket(d: i64) -> (r: CompassPoint)
    requires
        d > i64::MIN,
    ensures
        r == spec_compass_bucket(d as int),
{
    let n = normalize_wind_degrees(d);
    if n < 225_000 || n >= 3_375_000 {
        CompassPoint::North
    } else if n < 675_000 {
        CompassPoint::NorthEast
    } else if n < 1_125_000 {
        CompassPoint::East
    } else if n < 1_575_000 {
        CompassPoint::SouthEast
    } else if n < 2_025_000 {
        CompassPoint::South
    } else if n < 2_475_000 {
        CompassPoint::SouthWest
    } else if n < 2_925_000 {
        CompassPoint::West
    } else {
        CompassPoint::NorthWest
    }
}

/// The display name of a compass point.
pub open spec fn spec_compass_name(p: CompassPoint) -> Seq<char> {
    match p {
        CompassPoint::North => "N"@,
        CompassPoint::NorthEast => "NE"@,
        CompassPoint::East => "E"@,
        CompassPoint::SouthEast => "SE"@,
        CompassPoint::South => "S"@,
        CompassPoint::SouthWest => "SW"@,
        CompassPoint::West => "W"@,
        CompassPoint::NorthWest => "NW"@,
    }
}

/// Names a compass point for display.
pub fn compass_name(p: CompassPoint) -> (r: &'static str)
    ensures
        r@ == spec_compass_name(p),
        r@.len() > 0,
{
    let r: &'static str = match p {
        CompassPoint::North => "N",
        CompassPoint::NorthEast => "NE",
        CompassPoint::East => "E",
        CompassPoint::SouthEast => "SE",
        CompassPoint::South => "S",
        CompassPoint::SouthWest => "SW",
        CompassPoint::West => "W",
        CompassPoint::NorthWest => "NW",
    };
    proof {
        reveal_strlit("N");
        reveal_strlit("NE");
        reveal_strlit("E");
        reveal_strlit("SE");
        reveal_strlit("S");
        reveal_strlit("SW");
        reveal_strlit("W");
        reveal_strlit("NW");
    }
    r
}

} // verus!
