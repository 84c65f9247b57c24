//! The forecast client: building the weather request for coordinates
//! and decoding the service's payload into raw parallel sequences.
//!
//! The `current` block is mandatory and must be an object; `hourly` and
//! `daily` blocks are optional and their absence (or `null`) is not an
//! error.  Inside a block, a `null` entry is an absent value, while an
//! entry of the wrong type refuses the payload, as does a numeric entry
//! whose text is not a plain decimal within the representable
//! magnitude (exponent forms included).

use vstd::prelude::*;
use vstd::string::StringExecFns;

use crate::decimal::{parse_fixed, spec_parse_fixed};
use crate::errors::WeatherError;
use crate::json::{
    json_as_array, json_as_i64, json_as_str, json_document, json_elements, json_get,
    json_has_key, json_integer, json_is_array, json_is_integer, json_is_null, json_is_number,
    json_is_object, json_is_string, json_lookup, json_null, json_number_chars, json_number_text,
    json_object_check, json_parses, json_text, parse_json,
};
use crate::models::opt_in_range;

verus! {

/// Whether every present entry of a sequence is within the
/// representable magnitude.
pub open spec fn seq_opt_in_range(s: Seq<Option<i64>>) -> bool {
    forall|i: int| 0 <= i < s.len() ==> opt_in_range(#[trigger] s[i])
}

/// The fixed-point value of a plain decimal text.
pub open spec fn parsed_fixed(t: Seq<char>) -> i64
    recommends
        spec_parse_fixed(t) is Some,
{
    match spec_parse_fixed(t) {
        Some(v) => v as i64,
        None => 0,
    }
}

/// The raw current-conditions block: ten independently optional fields,
/// named as the service reports them.
#[derive(Debug, Clone, Copy)]
pub struct RawCurrent {
    pub temperature_2m: Option<i64>,
    pub apparent_temperature: Option<i64>,
    pub relative_humidity_2m: Option<i64>,
    pub precipitation: Option<i64>,
    pub weather_code: Option<i32>,
    pub wind_speed_10m: Option<i64>,
    pub wind_direction_10m: Option<i64>,
    pub cloud_cover: Option<i64>,
    pub surface_pressure: Option<i64>,
    pub visibility: Option<i64>,
}

impl RawCurrent {
    /// Every present quantity is within the representable magnitude.
    pub open spec fn wf(&self) -> bool {
        opt_in_range(self.temperature_2m) && opt_in_range(self.apparent_temperature)
            && opt_in_range(self.relative_humidity_2m) && opt_in_range(self.precipitation)
            && opt_in_range(self.wind_speed_10m) && opt_in_range(self.wind_direction_10m)
            && opt_in_range(self.cloud_cover) && opt_in_range(self.surface_pressure)
            && opt_in_range(self.visibility)
    }
}

/// The raw hourly block: a time sequence and seven parallel value
/// sequences sharing its positions.
#[derive(Debug, Clone)]
pub struct RawHourly {
    pub time: Vec<String>,
    pub temperature_2m: Vec<Option<i64>>,
    pub apparent_temperature: Vec<Option<i64>>,
    pub precipitation_probability: Vec<Option<i64>>,
    pub precipitation: Vec<Option<i64>>,
    pub weather_code: Vec<Option<i32>>,
    pub wind_speed_10m: Vec<Option<i64>>,
    pub relative_humidity_2m: Vec<Option<i64>>,
}

impl RawHourly {
    /// Every present quantity is within the representable magnitude.
    pub open spec fn wf(&self) -> bool {
        seq_opt_in_range(self.temperature_2m@) && seq_opt_in_range(self.apparent_temperature@)
            && seq_opt_in_range(self.precipitation_probability@) && seq_opt_in_range(
            self.precipitation@,
        ) && seq_opt_in_range(self.wind_speed_10m@) && seq_opt_in_range(
            self.relative_humidity_2m@,
        )
    }
}

/// The raw daily block: a date sequence and eight parallel value
/// sequences sharing its positions.
#[derive(Debug, Clone)]
pub struct RawDaily {
    pub time: Vec<String>,
    pub temperature_2m_max: Vec<Option<i64>>,
    pub temperature_2m_min: Vec<Option<i64>>,
    pub weather_code: Vec<Option<i32>>,
    pub precipitation_sum: Vec<Option<i64>>,
    pub precipitation_probability_max: Vec<Option<i64>>,
    pub wind_speed_10m_max: Vec<Option<i64>>,
    pub sunrise: Vec<Option<String>>,
    pub sunset: Vec<Option<String>>,
}

impl RawDaily {
    /// Every present quantity is within the representable magnitude.
    pub open spec fn wf(&self) -> bool {
        seq_opt_in_range(self.temperature_2m_max@) && seq_opt_in_range(self.temperature_2m_min@)
            && seq_opt_in_range(self.precipitation_sum@) && seq_opt_in_range(
            self.precipitation_probability_max@,
        ) && seq_opt_in_range(self.wind_speed_10m_max@)
    }
}

/// A whole raw forecast payload.
#[derive(Debug, Clone)]
pub struct RawForecast {
    pub current: RawCurrent,
    pub hourly: Option<RawHourly>,
    pub daily: Option<RawDaily>,
}

impl RawForecast {
    /// Every present quantity is within the representable magnitude.
    pub open spec fn wf(&self) -> bool {
        self.current.wf() && (self.hourly matches Some(h) ==> h.wf()) && (self.daily matches Some(
            d,
        ) ==> d.wf())
    }
}

/// Builds the weather request for coordinates: the fixed metric field
/// sets for the current, hourly and daily blocks, and the requested
/// forecast day count.
pub fn build_weather_api_url(lat: i64, lon: i64) -> (r: String)
    requires
        -crate::fixed::FIXED_MAG_LIMIT <= lat <= crate::fixed::FIXED_MAG_LIMIT,
        -crate::fixed::FIXED_MAG_LIMIT <= lon <= crate::fixed::FIXED_MAG_LIMIT,
    ensures
        r@ == "https://api.open-meteo.com/v1/forecast?latitude="@ + crate::decimal::fixed_string(
            lat as int,
        ) + "&longitude="@ + crate::decimal::fixed_string(lon as int)
            + "&current=temperature_2m,apparent_temperature,relative_humidity_2m,precipitation,weather_code,wind_speed_10m,wind_direction_10m,cloud_cover,surface_pressure,visibility&hourly=temperature_2m,apparent_temperature,precipitation_probability,precipitation,weather_code,wind_speed_10m,relative_humidity_2m&daily=temperature_2m_max,temperature_2m_min,weather_code,precipitation_sum,precipitation_probability_max,wind_speed_10m_max,sunrise,sunset&forecast_days=7"@,
{
    let mut out = String::new();
    out.append("https://api.open-meteo.com/v1/forecast?latitude=");
    let lat_text = crate::decimal::format_fixed(lat);
    out.append(lat_text.as_str());
    out.append("&longitude=");
    let lon_text = crate::decimal::format_fixed(lon);
    out.append(lon_text.as_str());
    out.append(
        "&current=temperature_2m,apparent_temperature,relative_humidity_2m,precipitation,weather_code,wind_speed_10m,wind_direction_10m,cloud_cover,surface_pressure,visibility&hourly=temperature_2m,apparent_temperature,precipitation_probability,precipitation,weather_code,wind_speed_10m,relative_humidity_2m&daily=temperature_2m_max,temperature_2m_min,weather_code,precipitation_sum,precipitation_probability_max,wind_speed_10m_max,sunrise,sunset&forecast_days=7",
    );
    proof {
        assert(out@ =~= "https://api.open-meteo.com/v1/forecast?latitude="@
            + crate::decimal::fixed_string(lat as int) + "&longitude="@
            + crate::decimal::fixed_string(lon as int)
            + "&current=temperature_2m,apparent_temperature,relative_humidity_2m,precipitation,weather_code,wind_speed_10m,wind_direction_10m,cloud_cover,surface_pressure,visibility&hourly=temperature_2m,apparent_temperature,precipitation_probability,precipitation,weather_code,wind_speed_10m,relative_humidity_2m&daily=temperature_2m_max,temperature_2m_min,weather_code,precipitation_sum,precipitation_probability_max,wind_speed_10m_max,sunrise,sunset&forecast_days=7"@);
    }
    out
}

/// A scalar field is well-shaped when, if present and not `null`, it is
/// a number whose text is a plain decimal in range.
pub open spec fn scalar_field_wf(block: serde_json::Value, key: Seq<char>) -> bool {
    json_has_key(block, key) && !json_null(json_lookup(block, key)) ==> (json_is_number(
        json_lookup(block, key),
    ) && spec_parse_fixed(json_number_chars(json_lookup(block, key))) is Some)
}

/// The value a well-shaped scalar field decodes to.
pub open spec fn spec_scalar_field(block: serde_json::Value, key: Seq<char>) -> Option<i64> {
    if json_has_key(block, key) && !json_null(json_lookup(block, key)) {
        Some(parsed_fixed(json_number_chars(json_lookup(block, key))))
    } else {
        None
    }
}

/// Reads one optional numeric field of the current block: a missing
/// key or `null` is absence, anything but a plain-decimal number
/// refuses the payload.
fn decode_scalar(block: &serde_json::Value, key: &str) -> (r: Result<Option<i64>, WeatherError>)
    ensures
        r is Ok <==> scalar_field_wf(*block, key@),
        r matches Ok(v) ==> v == spec_scalar_field(*block, key@) && opt_in_range(v),
        r matches Err(e) ==> e matches WeatherError::ParseError(_),
{
    match json_get(block, key) {
        None => Ok(None),
        Some(v) => {
            if json_is_null(v) {
                return Ok(None);
            }
            match json_number_text(v) {
                None => Err(
                    WeatherError::ParseError(
                        String::from_str("Unexpected value type in weather data"),
                    ),
                ),
                Some(t) => match parse_fixed(t.as_str()) {
                    Some(x) => Ok(Some(x)),
                    None => Err(
                        WeatherError::ParseError(
                            String::from_str("Numeric value out of range in weather data"),
                        ),
                    ),
                },
            }
        },
    }
}

/// A code field is well-shaped when, if present and not `null`, it is
/// an integer within the code range.
pub open spec fn code_field_wf(block: serde_json::Value, key: Seq<char>) -> bool {
    json_has_key(block, key) && !json_null(json_lookup(block, key)) ==> (json_is_integer(
        json_lookup(block, key),
    ) && -2147483648 <= json_integer(json_lookup(block, key)) <= 2147483647)
}

/// The value a well-shaped code field decodes to.
pub open spec fn spec_code_field(block: serde_json::Value, key: Seq<char>) -> Option<i32> {
    if json_has_key(block, key) && !json_null(json_lookup(block, key)) {
        Some(json_integer(json_lookup(block, key)) as i32)
    } else {
        None
    }
}

/// Reads the optional weather-code field of the current block.
fn decode_scalar_code(block: &serde_json::Value, key: &str) -> (r: Result<
    Option<i32>,
    WeatherError,
>)
    ensures
        r is Ok <==> code_field_wf(*block, key@),
        r matches Ok(v) ==> v == spec_code_field(*block, key@),
        r matches Err(e) ==> e matches WeatherError::ParseError(_),
{
    match json_get(block, key) {
        None => Ok(None),
        Some(v) => {
            if json_is_null(v) {
                return Ok(None);
            }
            match json_as_i64(v) {
                None => Err(
                    WeatherError::ParseError(
                        String::from_str("Unexpected value type in weather data"),
                    ),
                ),
                Some(x) => {
                    if -2147483648i64 <= x && x <= 2147483647i64 {
                        Ok(Some(x as i32))
                    } else {
                        Err(
                            WeatherError::ParseError(
                                String::from_str("Weather code out of range"),
                            ),
                        )
                    }
                },
            }
        },
    }
}

/// A current block is well-shaped when each of its ten fields is.
pub open spec fn current_block_wf(v: serde_json::Value) -> bool {
    &&& scalar_field_wf(v, "temperature_2m"@)
    &&& scalar_field_wf(v, "apparent_temperature"@)
    &&& scalar_field_wf(v, "relative_humidity_2m"@)
    &&& scalar_field_wf(v, "precipitation"@)
    &&& code_field_wf(v, "weather_code"@)
    &&& scalar_field_wf(v, "wind_speed_10m"@)
    &&& scalar_field_wf(v, "wind_direction_10m"@)
    &&& scalar_field_wf(v, "cloud_cover"@)
    &&& scalar_field_wf(v, "surface_pressure"@)
    &&& scalar_field_wf(v, "visibility"@)
}

/// What a well-shaped current block decodes to.
pub open spec fn spec_current_block(v: serde_json::Value) -> RawCurrent {
    RawCurrent {
        temperature_2m: spec_scalar_field(v, "temperature_2m"@),
        apparent_temperature: spec_scalar_field(v, "apparent_temperature"@),
        relative_humidity_2m: spec_scalar_field(v, "relative_humidity_2m"@),
        precipitation: spec_scalar_field(v, "precipitation"@),
        weather_code: spec_code_field(v, "weather_code"@),
        wind_speed_10m: spec_scalar_field(v, "wind_speed_10m"@),
        wind_direction_10m: spec_scalar_field(v, "wind_direction_10m"@),
        cloud_cover: spec_scalar_field(v, "cloud_cover"@),
        surface_pressure: spec_scalar_field(v, "surface_pressure"@),
        visibility: spec_scalar_field(v, "visibility"@),
    }
}

/// Decodes the mandatory current block.
fn decode_current(block: &serde_json::Value) -> (r: Result<RawCurrent, WeatherError>)
    ensures
        r is Ok <==> current_block_wf(*block),
        r matches Ok(c) ==> c == spec_current_block(*block) && c.wf(),
        r matches Err(e) ==> e matches WeatherError::ParseError(_),
{
    let temperature_2m = decode_scalar(block, "temperature_2m")?;
    let apparent_temperature = decode_scalar(block, "apparent_temperature")?;
    let relative_humidity_2m = decode_scalar(block, "relative_humidity_2m")?;
    let precipitation = decode_scalar(block, "precipitation")?;
    let weather_code = decode_scalar_code(block, "weather_code")?;
    let wind_speed_10m = decode_scalar(block, "wind_speed_10m")?;
    let wind_direction_10m = decode_scalar(block, "wind_direction_10m")?;
    let cloud_cover = decode_scalar(block, "cloud_cover")?;
    let surface_pressure = decode_scalar(block, "surface_pressure")?;
    let visibility = decode_scalar(block, "visibility")?;
    Ok(
        RawCurrent {
            temperature_2m,
            apparent_temperature,
            relative_humidity_2m,
            precipitation,
            weather_code,
            wind_speed_10m,
            wind_direction_10m,
            cloud_cover,
            surface_pressure,
            visibility,
        },
    )
}

/// An array field is well-shaped when it is present and an array.
pub open spec fn array_field_wf(block: serde_json::Value, key: Seq<char>) -> bool {
    json_has_key(block, key) && json_is_array(json_lookup(block, key))
}

/// The elements of an array field.
pub open spec fn spec_array_field(block: serde_json::Value, key: Seq<char>) -> Seq<
    serde_json::Value,
> {
    json_elements(json_lookup(block, key))
}

/// Reads a mandatory array field of a block.
fn get_array_field<'a>(block: &'a serde_json::Value, key: &str) -> (r: Result<
    &'a Vec<serde_json::Value>,
    WeatherError,
>)
    ensures
        r is Ok <==> array_field_wf(*block, key@),
        r matches Ok(a) ==> a@ == spec_array_field(*block, key@),
        r matches Err(e) ==> e matches WeatherError::ParseError(_),
{
    match json_get(block, key) {
        None => Err(WeatherError::ParseError(String::from_str("Missing field in weather data"))),
        Some(v) => match json_as_array(v) {
            None => Err(
                WeatherError::ParseError(
                    String::from_str("Unexpected value type in weather data"),
                ),
            ),
            Some(a) => Ok(a),
        },
    }
}

/// A string-sequence field is well-shaped when it is an array of
/// strings.
pub open spec fn string_seq_wf(block: serde_json::Value, key: Seq<char>) -> bool {
    array_field_wf(block, key) && (forall|i: int|
        0 <= i < spec_array_field(block, key).len() ==> json_is_string(
            #[trigger] spec_array_field(block, key)[i],
        ))
}

/// A decoded string sequence carries each element's text in order.
pub open spec fn strings_match(v: Seq<String>, block: serde_json::Value, key: Seq<char>) -> bool {
    v.len() == spec_array_field(block, key).len() && (forall|i: int|
        0 <= i < v.len() ==> (#[trigger] v[i])@ == json_text(spec_array_field(block, key)[i]))
}

/// Decodes a mandatory sequence of strings.
fn decode_string_seq(block: &serde_json::Value, key: &str) -> (r: Result<Vec<String>, WeatherError>)
    ensures
        r is Ok <==> string_seq_wf(*block, key@),
        r matches Ok(v) ==> strings_match(v@, *block, key@),
        r matches Err(e) ==> e matches WeatherError::ParseError(_),
{
    let arr = get_array_field(block, key)?;
    let ghost elems = spec_array_field(*block, key@);
    let mut out: Vec<String> = Vec::new();
    let mut i: usize = 0;
    while i < arr.len()
        invariant
            arr@ == elems,
            elems == spec_array_field(*block, key@),
            i <= elems.len(),
            out@.len() == i,
            forall|j: int| 0 <= j < i ==> json_is_string(#[trigger] elems[j]),
            forall|j: int| 0 <= j < i ==> (#[trigger] out@[j])@ == json_text(elems[j]),
        decreases arr.len() - i,
    {
        match json_as_str(&arr[i]) {
            Some(s) => out.push(String::from_str(s)),
            None => {
                proof {
                    assert(!json_is_string(spec_array_field(*block, key@)[i as int]));
                }
                return Err(
                    WeatherError::ParseError(
                        String::from_str("Unexpected value type in weather data"),
                    ),
                );
            },
        }
        i = i + 1;
    }
    Ok(out)
}

/// An optional-number entry is `null` or a plain-decimal number.
pub open spec fn opt_num_entry_wf(v: serde_json::Value) -> bool {
    !json_null(v) ==> (json_is_number(v) && spec_parse_fixed(json_number_chars(v)) is Some)
}

/// What an optional-number entry decodes to.
pub open spec fn spec_opt_num_entry(v: serde_json::Value) -> Option<i64> {
    if json_null(v) {
        None
    } else {
        Some(parsed_fixed(json_number_chars(v)))
    }
}

/// An optional-number field is well-shaped when it is an array of
/// `null`s and plain-decimal numbers.
pub open spec fn opt_num_seq_wf(block: serde_json::Value, key: Seq<char>) -> bool {
    array_field_wf(block, key) && (forall|i: int|
        0 <= i < spec_array_field(block, key).len() ==> opt_num_entry_wf(
            #[trigger] spec_array_field(block, key)[i],
        ))
}

/// A decoded optional-number sequence carries each entry's value.
pub open spec fn opt_nums_match(
    v: Seq<Option<i64>>,
    block: serde_json::Value,
    key: Seq<char>,
) -> bool {
    v.len() == spec_array_field(block, key).len() && (forall|i: int|
        0 <= i < v.len() ==> #[trigger] v[i] == spec_opt_num_entry(spec_array_field(block, key)[i]))
}

/// Decodes a mandatory sequence of optional numbers; `null` entries are
/// absent values.
fn decode_opt_num_seq(block: &serde_json::Value, key: &str) -> (r: Result<
    Vec<Option<i64>>,
    WeatherError,
>)
    ensures
        r is Ok <==> opt_num_seq_wf(*block, key@),
        r matches Ok(v) ==> opt_nums_match(v@, *block, key@) && seq_opt_in_range(v@),
        r matches Err(e) ==> e matches WeatherError::ParseError(_),
{
    let arr = get_array_field(block, key)?;
    let ghost elems = spec_array_field(*block, key@);
    let mut out: Vec<Option<i64>> = Vec::new();
    let mut i: usize = 0;
    while i < arr.len()
        invariant
            arr@ == elems,
            elems == spec_array_field(*block, key@),
            i <= elems.len(),
            out@.len() == i,
            forall|j: int| 0 <= j < i ==> opt_num_entry_wf(#[trigger] elems[j]),
            forall|j: int| 0 <= j < i ==> #[trigger] out@[j] == spec_opt_num_entry(elems[j]),
            seq_opt_in_range(out@),
        decreases arr.len() - i,
    {
        if json_is_null(&arr[i]) {
            out.push(None);
        } else {
            match json_number_text(&arr[i]) {
                None => {
                    proof {
                        assert(!opt_num_entry_wf(spec_array_field(*block, key@)[i as int]));
                    }
                    return Err(
                        WeatherError::ParseError(
                            String::from_str("Unexpected value type in weather data"),
                        ),
                    );
                },
                Some(t) => match parse_fixed(t.as_str()) {
                    Some(x) => out.push(Some(x)),
                    None => {
                        proof {
                            assert(!opt_num_entry_wf(spec_array_field(*block, key@)[i as int]));
                        }
                        return Err(
                            WeatherError::ParseError(
                                String::from_str("Numeric value out of range in weather data"),
                            ),
                        );
                    },
                },
            }
        }
        i = i + 1;
    }
    Ok(out)
}

/// An optional-code entry is `null` or an integer within the code
/// range.
pub open spec fn opt_code_entry_wf(v: serde_json::Value) -> bool {
    !json_null(v) ==> (json_is_integer(v) && -2147483648 <= json_integer(v) <= 2147483647)
}

/// What an optional-code entry decodes to.
pub open spec fn spec_opt_code_entry(v: serde_json::Value) -> Option<i32> {
    if json_null(v) {
        None
    } else {
        Some(json_integer(v) as i32)
    }
}

/// An optional-code field is well-shaped when it is an array of
/// `null`s and in-range integers.
pub open spec fn opt_code_seq_wf(block: serde_json::Value, key: Seq<char>) -> bool {
    array_field_wf(block, key) && (forall|i: int|
        0 <= i < spec_array_field(block, key).len() ==> opt_code_entry_wf(
            #[trigger] spec_array_field(block, key)[i],
        ))
}

/// A decoded optional-code sequence carries each entry's value.
pub open spec fn opt_codes_match(
    v: Seq<Option<i32>>,
    block: serde_json::Value,
    key: Seq<char>,
) -> bool {
    v.len() == spec_array_field(block, key).len() && (forall|i: int|
        0 <= i < v.len() ==> #[trigger] v[i] == spec_opt_code_entry(
            spec_array_field(block, key)[i],
        ))
}

/// Decodes a mandatory sequence of optional weather codes.
fn decode_opt_code_seq(block: &serde_json::Value, key: &str) -> (r: Result<
    Vec<Option<i32>>,
    WeatherError,
>)
    ensures
        r is Ok <==> opt_code_seq_wf(*block, key@),
        r matches Ok(v) ==> opt_codes_match(v@, *block, key@),
        r matches Err(e) ==> e matches WeatherError::ParseError(_),
{
    let arr = get_array_field(block, key)?;
    let ghost elems = spec_array_field(*block, key@);
    let mut out: Vec<Option<i32>> = Vec::new();
    let mut i: usize = 0;
    while i < arr.len()
        invariant
            arr@ == elems,
            elems == spec_array_field(*block, key@),
            i <= elems.len(),
            out@.len() == i,
            forall|j: int| 0 <= j < i ==> opt_code_entry_wf(#[trigger] elems[j]),
            forall|j: int| 0 <= j < i ==> #[trigger] out@[j] == spec_opt_code_entry(elems[j]),
        decreases arr.len() - i,
    {
        if json_is_null(&arr[i]) {
            out.push(None);
        } else {
            match json_as_i64(&arr[i]) {
                None => {
                    proof {
                        assert(!opt_code_entry_wf(spec_array_field(*block, key@)[i as int]));
                    }
                    return Err(
                        WeatherError::ParseError(
                            String::from_str("Unexpected value type in weather data"),
                        ),
                    );
                },
                Some(x) => {
                    if -2147483648i64 <= x && x <= 2147483647i64 {
                        out.push(Some(x as i32));
                    } else {
                        proof {
                            assert(!opt_code_entry_wf(spec_array_field(*block, key@)[i as int]));
                        }
                        return Err(
                            WeatherError::ParseError(
                                String::from_str("Weather code out of range"),
                            ),
                        );
                    }
                },
            }
        }
        i = i + 1;
    }
    Ok(out)
}

/// An optional-string entry is `null` or a string.
pub open spec fn opt_string_entry_wf(v: serde_json::Value) -> bool {
    !json_null(v) ==> json_is_string(v)
}

/// A decoded optional string carries the entry's text, or absence for
/// `null`.
pub open spec fn opt_string_matches(o: Option<String>, v: serde_json::Value) -> bool {
    match o {
        None => json_null(v),
        Some(s) => !json_null(v) && s@ == json_text(v),
    }
}

/// An optional-string field is well-shaped when it is an array of
/// `null`s and strings.
pub open spec fn opt_string_seq_wf(block: serde_json::Value, key: Seq<char>) -> bool {
    array_field_wf(block, key) && (forall|i: int|
        0 <= i < spec_array_field(block, key).len() ==> opt_string_entry_wf(
            #[trigger] spec_array_field(block, key)[i],
        ))
}

/// A decoded optional-string sequence carries each entry's text.
pub open spec fn opt_strings_match(
    v: Seq<Option<String>>,
    block: serde_json::Value,
    key: Seq<char>,
) -> bool {
    v.len() == spec_array_field(block, key).len() && (forall|i: int|
        0 <= i < v.len() ==> opt_string_matches(#[trigger] v[i], spec_array_field(block, key)[i]))
}

/// Decodes a mandatory sequence of optional strings; `null` entries are
/// absent values.
fn decode_opt_string_seq(block: &serde_json::Value, key: &str) -> (r: Result<
    Vec<Option<String>>,
    WeatherError,
>)
    ensures
        r is Ok <==> opt_string_seq_wf(*block, key@),
        r matches Ok(v) ==> opt_strings_match(v@, *block, key@),
        r matches Err(e) ==> e matches WeatherError::ParseError(_),
{
    let arr = get_array_field(block, key)?;
    let ghost elems = spec_array_field(*block, key@);
    let mut out: Vec<Option<String>> = Vec::new();
    let mut i: usize = 0;
    while i < arr.len()
        invariant
            arr@ == elems,
            elems == spec_array_field(*block, key@),
            i <= elems.len(),
            out@.len() == i,
            forall|j: int| 0 <= j < i ==> opt_string_entry_wf(#[trigger] elems[j]),
            forall|j: int| 0 <= j < i ==> opt_string_matches(#[trigger] out@[j], elems[j]),
        decreases arr.len() - i,
    {
        if json_is_null(&arr[i]) {
            out.push(None);
        } else {
            match json_as_str(&arr[i]) {
                Some(s) => out.push(Some(String::from_str(s))),
                None => {
                    proof {
                        assert(!opt_string_entry_wf(spec_array_field(*block, key@)[i as int]));
                    }
                    return Err(
                        WeatherError::ParseError(
                            String::from_str("Unexpected value type in weather data"),
                        ),
                    );
                },
            }
        }
        i = i + 1;
    }
    Ok(out)
}

/// An hourly block is well-shaped when all eight sequences are present
/// and well-typed.
pub open spec fn hourly_block_wf(v: serde_json::Value) -> bool {
    &&& string_seq_wf(v, "time"@)
    &&& opt_num_seq_wf(v, "temperature_2m"@)
    &&& opt_num_seq_wf(v, "apparent_temperature"@)
    &&& opt_num_seq_wf(v, "precipitation_probability"@)
    &&& opt_num_seq_wf(v, "precipitation"@)
    &&& opt_code_seq_wf(v, "weather_code"@)
    &&& opt_num_seq_wf(v, "wind_speed_10m"@)
    &&& opt_num_seq_wf(v, "relative_humidity_2m"@)
}

/// A decoded hourly block carries every sequence of its source.
pub open spec fn hourly_matches(h: RawHourly, v: serde_json::Value) -> bool {
    &&& strings_match(h.time@, v, "time"@)
    &&& opt_nums_match(h.temperature_2m@, v, "temperature_2m"@)
    &&& opt_nums_match(h.apparent_temperature@, v, "apparent_temperature"@)
    &&& opt_nums_match(h.precipitation_probability@, v, "precipitation_probability"@)
    &&& opt_nums_match(h.precipitation@, v, "precipitation"@)
    &&& opt_codes_match(h.weather_code@, v, "weather_code"@)
    &&& opt_nums_match(h.wind_speed_10m@, v, "wind_speed_10m"@)
    &&& opt_nums_match(h.relative_humidity_2m@, v, "relative_humidity_2m"@)
}

/// Decodes an hourly block; all eight sequences must be present.
fn decode_hourly(block: &serde_json::Value) -> (r: Result<RawHourly, WeatherError>)
    ensures
        r is Ok <==> hourly_block_wf(*block),
        r matches Ok(h) ==> hourly_matches(h, *block) && h.wf(),
        r matches Err(e) ==> e matches WeatherError::ParseError(_),
{
    let time = decode_string_seq(block, "time")?;
    let temperature_2m = decode_opt_num_seq(block, "temperature_2m")?;
    let apparent_temperature = decode_opt_num_seq(block, "apparent_temperature")?;
    let precipitation_probability = decode_opt_num_seq(block, "precipitation_probability")?;
    let precipitation = decode_opt_num_seq(block, "precipitation")?;
    let weather_code = decode_opt_code_seq(block, "weather_code")?;
    let wind_speed_10m = decode_opt_num_seq(block, "wind_speed_10m")?;
    let relative_humidity_2m = decode_opt_num_seq(block, "relative_humidity_2m")?;
    Ok(
        RawHourly {
            time,
            temperature_2m,
            apparent_temperature,
            precipitation_probability,
            precipitation,
            weather_code,
            wind_speed_10m,
            relative_humidity_2m,
        },
    )
}

/// A daily block is well-shaped when all nine sequences are present
/// and well-typed.
pub open spec fn daily_block_wf(v: serde_json::Value) -> bool {
    &&& string_seq_wf(v, "time"@)
    &&& opt_num_seq_wf(v, "temperature_2m_max"@)
    &&& opt_num_seq_wf(v, "temperature_2m_min"@)
    &&& opt_code_seq_wf(v, "weather_code"@)
    &&& opt_num_seq_wf(v, "precipitation_sum"@)
    &&& opt_num_seq_wf(v, "precipitation_probability_max"@)
    &&& opt_num_seq_wf(v, "wind_speed_10m_max"@)
    &&& opt_string_seq_wf(v, "sunrise"@)
    &&& opt_string_seq_wf(v, "sunset"@)
}

/// A decoded daily block carries every sequence of its source.
pub open spec fn daily_matches(d: RawDaily, v: serde_json::Value) -> bool {
    &&& strings_match(d.time@, v, "time"@)
    &&& opt_nums_match(d.temperature_2m_max@, v, "temperature_2m_max"@)
    &&& opt_nums_match(d.temperature_2m_min@, v, "temperature_2m_min"@)
    &&& opt_codes_match(d.weather_code@, v, "weather_code"@)
    &&& opt_nums_match(d.precipitation_sum@, v, "precipitation_sum"@)
    &&& opt_nums_match(d.precipitation_probability_max@, v, "precipitation_probability_max"@)
    &&& opt_nums_match(d.wind_speed_10m_max@, v, "wind_speed_10m_max"@)
    &&& opt_strings_match(d.sunrise@, v, "sunrise"@)
    &&& opt_strings_match(d.sunset@, v, "sunset"@)
}

/// Decodes a daily block; all nine sequences must be present.
fn decode_daily(block: &serde_json::Value) -> (r: Result<RawDaily, WeatherError>)
    ensures
        r is Ok <==> daily_block_wf(*block),
        r matches Ok(d) ==> daily_matches(d, *block) && d.wf(),
        r matches Err(e) ==> e matches WeatherError::ParseError(_),
{
    let time = decode_string_seq(block, "time")?;
    let temperature_2m_max = decode_opt_num_seq(block, "temperature_2m_max")?;
    let temperature_2m_min = decode_opt_num_seq(block, "temperature_2m_min")?;
    let weather_code = decode_opt_code_seq(block, "weather_code")?;
    let precipitation_sum = decode_opt_num_seq(block, "precipitation_sum")?;
    let precipitation_probability_max = decode_opt_num_seq(block, "precipitation_probability_max")?;
    let wind_speed_10m_max = decode_opt_num_seq(block, "wind_speed_10m_max")?;
    let sunrise = decode_opt_string_seq(block, "sunrise")?;
    let sunset = decode_opt_string_seq(block, "sunset")?;
    Ok(
        RawDaily {
            time,
            temperature_2m_max,
            temperature_2m_min,
            weather_code,
            precipitation_sum,
            precipitation_probability_max,
            wind_speed_10m_max,
            sunrise,
            sunset,
        },
    )
}

/// Whether a document carries a block under the key that is not `null`.
pub open spec fn has_block(doc: serde_json::Value, key: Seq<char>) -> bool {
    json_has_key(doc, key) && !json_null(json_lookup(doc, key))
}

/// A forecast body is well-shaped when it parses to a document whose
/// mandatory `current` member is a well-shaped object, and whose
/// `hourly` and `daily` members, where present and not `null`, are
/// well-shaped blocks.
pub open spec fn forecast_body_wf(s: Seq<char>) -> bool {
    &&& json_parses(s)
    &&& json_has_key(json_document(s), "current"@)
    &&& json_is_object(json_lookup(json_document(s), "current"@))
    &&& current_block_wf(json_lookup(json_document(s), "current"@))
    &&& (has_block(json_document(s), "hourly"@) ==> hourly_block_wf(
        json_lookup(json_document(s), "hourly"@),
    ))
    &&& (has_block(json_document(s), "daily"@) ==> daily_block_wf(
        json_lookup(json_document(s), "daily"@),
    ))
}

/// A decoded payload carries its document's blocks: the current fields,
/// and the optional blocks exactly where the document has them.
pub open spec fn forecast_matches(f: RawForecast, s: Seq<char>) -> bool {
    &&& f.current == spec_current_block(json_lookup(json_document(s), "current"@))
    &&& (f.hourly is Some <==> has_block(json_document(s), "hourly"@))
    &&& (f.hourly matches Some(h) ==> hourly_matches(
        h,
        json_lookup(json_document(s), "hourly"@),
    ))
    &&& (f.daily is Some <==> has_block(json_document(s), "daily"@))
    &&& (f.daily matches Some(d) ==> daily_matches(d, json_lookup(json_document(s), "daily"@)))
}

/// Decodes a forecast response body: the `current` block is mandatory
/// and must be an object, the `hourly` and `daily` blocks are optional
/// and `null` counts as absent, and any entry of an unexpected type
/// refuses the payload.
pub fn parse_forecast_body(body: &str) -> (r: Result<RawForecast, WeatherError>)
    ensures
        r is Ok <==> forecast_body_wf(body@),
        r matches Ok(f) ==> forecast_matches(f, body@) && f.wf(),
        r matches Err(e) ==> e matches WeatherError::ParseError(_),
{
    let json = match parse_json(body) {
        Ok(json) => json,
        Err(e) => {
            return Err(WeatherError::ParseError(e));
        },
    };
    let current_block = match json_get(&json, "current") {
        Some(v) => v,
        None => {
            return Err(
                WeatherError::ParseError(String::from_str("Missing current weather block")),
            );
        },
    };
    if !json_object_check(current_block) {
        return Err(
            WeatherError::ParseError(String::from_str("Unexpected value type in weather data")),
        );
    }
    let current = decode_current(current_block)?;
    let hourly = match json_get(&json, "hourly") {
        None => None,
        Some(h) => {
            if json_is_null(h) {
                None
            } else {
                Some(decode_hourly(h)?)
            }
        },
    };
    let daily = match json_get(&json, "daily") {
        None => None,
        Some(d) => {
            if json_is_null(d) {
                None
            } else {
                Some(decode_daily(d)?)
            }
        },
    };
    Ok(RawForecast { current, hourly, daily })
}

} // verus!
