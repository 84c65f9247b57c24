//! The geocoder: building the lookup request for a place name and
//! reading coordinates out of the service's response.
//!
//! Only the first result of the upstream result list is used; an empty
//! list is `LocationNotFound`.

use vstd::prelude::*;
use vstd::string::StringExecFns;

use crate::decimal::{parse_fixed, spec_parse_fixed};
use crate::errors::WeatherError;
use crate::fixed::FIXED_MAG_LIMIT;
use crate::json::{
    json_as_array, json_as_str, json_document, json_elements, json_get, json_has_key,
    json_is_array, json_is_string, json_lookup, json_parses, json_text, parse_json,
};
use crate::models::Coordinates;

verus! {

/// Whether `c` counts as surrounding whitespace: the Unicode
/// White_Space characters.
pub open spec fn is_space_char(c: char) -> bool {
    ||| c == '\u{09}'
    ||| c == '\u{0A}'
    ||| c == '\u{0B}'
    ||| c == '\u{0C}'
    ||| c == '\u{0D}'
    ||| c == ' '
    ||| c == '\u{85}'
    ||| c == '\u{A0}'
    ||| c == '\u{1680}'
    ||| ('\u{2000}' <= c && c <= '\u{200A}')
    ||| c == '\u{2028}'
    ||| c == '\u{2029}'
    ||| c == '\u{202F}'
    ||| c == '\u{205F}'
    ||| c == '\u{3000}'
}

/// `s` with leading whitespace removed.
pub open spec fn trim_front(s: Seq<char>) -> Seq<char>
    decreases s.len(),
{
    if s.len() > 0 && is_space_char(s[0]) {
        trim_front(s.drop_first())
    } else {
        s
    }
}

/// `s` with trailing whitespace removed.
pub open spec fn trim_back(s: Seq<char>) -> Seq<char>
    decreases s.len(),
{
    if s.len() > 0 && is_space_char(s.last()) {
        trim_back(s.drop_last())
    } else {
        s
    }
}

/// `s` with surrounding whitespace removed.
pub open spec fn spec_trim(s: Seq<char>) -> Seq<char> {
    trim_back(trim_front(s))
}

/// Leading whitespace up to a non-space pins `trim_front`.
proof fn lemma_trim_front_at(s: Seq<char>, lo: int)
    requires
        0 <= lo <= s.len(),
        forall|k: int| 0 <= k < lo ==> is_space_char(s[k]),
        lo == s.len() || !is_space_char(s[lo]),
    ensures
        trim_front(s) == s.subrange(lo, s.len() as int),
    decreases lo,
{
    if lo == 0 {
        assert(s.subrange(0, s.len() as int) =~= s);
    } else {
        let rest = s.drop_first();
        lemma_trim_front_at(rest, lo - 1);
        assert(rest.subrange(lo - 1, rest.len() as int) =~= s.subrange(lo, s.len() as int));
    }
}

/// Trailing whitespace back to a non-space pins `trim_back`.
proof fn lemma_trim_back_at(s: Seq<char>, hi: int)
    requires
        0 <= hi <= s.len(),
        forall|k: int| hi <= k < s.len() ==> is_space_char(s[k]),
        hi == 0 || !is_space_char(s[hi - 1]),
    ensures
        trim_back(s) == s.subrange(0, hi),
    decreases s.len(),
{
    if hi == s.len() {
        assert(s.subrange(0, hi) =~= s);
    } else {
        let rest = s.drop_last();
        lemma_trim_back_at(rest, hi);
        assert(rest.subrange(0, hi) =~= s.subrange(0, hi));
    }
}

/// Whether `c` counts as surrounding whitespace.
fn is_space(c: char) -> (r: bool)
    ensures
        r == is_space_char(c),
{
    c == '\u{09}' || c == '\u{0A}' || c == '\u{0B}' || c == '\u{0C}' || c == '\u{0D}' || c == ' '
        || c == '\u{85}' || c == '\u{A0}' || c == '\u{1680}' || ('\u{2000}' <= c && c
        <= '\u{200A}') || c == '\u{2028}' || c == '\u{2029}' || c == '\u{202F}' || c == '\u{205F}'
        || c == '\u{3000}'
}

/// Removes surrounding whitespace from a location string.
pub fn trim_text(s: &str) -> (r: String)
    ensures
        r@ == spec_trim(s@),
{
    let n = s.unicode_len();
    let mut lo: usize = 0;
    while lo < n && is_space(s.get_char(lo))
        invariant
            0 <= lo <= n == s@.len(),
            forall|k: int| 0 <= k < lo ==> is_space_char(s@[k]),
        decreases n - lo,
    {
        lo = lo + 1;
    }
    let mut hi: usize = n;
    while hi > lo && is_space(s.get_char(hi - 1))
        invariant
            lo <= hi <= n == s@.len(),
            forall|k: int| hi <= k < n ==> is_space_char(s@[k]),
        decreases hi,
    {
        hi = hi - 1;
    }
    let trimmed = s.substring_char(lo, hi);
    proof {
        lemma_trim_front_at(s@, lo as int);
        let front = s@.subrange(lo as int, n as int);
        lemma_trim_back_at(front, hi - lo as int);
        assert(front.subrange(0, hi - lo as int) =~= s@.subrange(lo as int, hi as int));
    }
    String::from_str(trimmed)
}

/// What the percent-encoder returns for a piece of text; it depends on
/// the characters alone.
pub uninterp spec fn percent_encoded(s: Seq<char>) -> Seq<char>;

/// Relies on urlencoding::encode: percent-encodes every byte except
/// ASCII alphanumerics and `-`, `_`, `.`, `~`; empty text stays empty.
#[verifier::external_body]
fn url_encode(s: &str) -> (r: String)
    ensures
        r@ == percent_encoded(s@),
        s@.len() == 0 ==> r@.len() == 0,
{
    urlencoding::encode(s).into_owned()
}

/// Builds the geocoding request for a location: the text is trimmed of
/// surrounding whitespace and percent-encoded into a single-result
/// JSON query.
pub fn build_geocode_url(location: &str) -> (r: String)
    ensures
        r@ == "https://nominatim.openstreetmap.org/search?q="@ + percent_encoded(
            spec_trim(location@),
        ) + "&format=json&limit=1"@,
{
    let trimmed = trim_text(location);
    let encoded = url_encode(trimmed.as_str());
    let mut out = String::new();
    out.append("https://nominatim.openstreetmap.org/search?q=");
    out.append(encoded.as_str());
    out.append("&format=json&limit=1");
    proof {
        assert(out@ =~= "https://nominatim.openstreetmap.org/search?q="@ + percent_encoded(
            spec_trim(location@),
        ) + "&format=json&limit=1"@);
    }
    out
}

/// The string-encoded coordinate text a result entry carries under a
/// key, where it carries one.
pub open spec fn coordinate_text(entry: serde_json::Value, key: Seq<char>) -> Option<Seq<char>> {
    if json_has_key(entry, key) && json_is_string(json_lookup(entry, key)) {
        Some(json_text(json_lookup(entry, key)))
    } else {
        None
    }
}

/// Reads coordinates from the geocoding result list: an empty list is
/// `LocationNotFound`, and only the first entry is consulted, its
/// string-encoded `lat` and `lon` fields parsed as plain decimals.
pub fn coords_from_results(location: &str, results: &Vec<serde_json::Value>) -> (r: Result<
    Coordinates,
    WeatherError,
>)
    ensures
        (r matches Err(e) && e matches WeatherError::LocationNotFound(_)) <==> results@.len()
            == 0,
        r matches Err(WeatherError::LocationNotFound(l)) ==> l@ == location@,
        results@.len() > 0 ==> (r is Ok <==> parses_as_coordinate(
            coordinate_text(results@[0], "lat"@),
        ) && parses_as_coordinate(coordinate_text(results@[0], "lon"@))),
        r matches Ok(c) ==> (coordinate_text(results@[0], "lat"@) matches Some(t) && Some(
            c.latitude as int,
        ) == spec_parse_fixed(t)),
        r matches Ok(c) ==> (coordinate_text(results@[0], "lon"@) matches Some(t) && Some(
            c.longitude as int,
        ) == spec_parse_fixed(t)),
        r matches Ok(c) ==> -FIXED_MAG_LIMIT <= c.latitude <= FIXED_MAG_LIMIT
            && -FIXED_MAG_LIMIT <= c.longitude <= FIXED_MAG_LIMIT,
        r matches Err(e) ==> (e matches WeatherError::LocationNotFound(_) || e
            matches WeatherError::ParseError(_)),
{
    if results.len() == 0 {
        return Err(WeatherError::LocationNotFound(String::from_str(location)));
    }
    let first = &results[0];
    let lat_text = coordinate_field_text(first, "lat");
    let lon_text = coordinate_field_text(first, "lon");
    coords_from_texts(as_opt_str(&lat_text), as_opt_str(&lon_text))
}

/// Whether an optional text field holds a parseable plain decimal.
pub open spec fn parses_as_coordinate(t: Option<Seq<char>>) -> bool {
    t matches Some(s) && spec_parse_fixed(s) is Some
}

/// Reads coordinates from the string-encoded `lat` and `lon` texts of
/// the first geocoding result: each must be present and a plain
/// decimal, or the response is `ParseError`, the latitude decided
/// first.
pub fn coords_from_texts(lat: Option<&str>, lon: Option<&str>) -> (r: Result<
    Coordinates,
    WeatherError,
>)
    ensures
        ({
            let lat_view = match lat {
                Some(t) => Some(t@),
                None => None,
            };
            let lon_view = match lon {
                Some(t) => Some(t@),
                None => None,
            };
            &&& (r is Ok <==> parses_as_coordinate(lat_view) && parses_as_coordinate(lon_view))
            &&& (r matches Ok(c) ==> lat matches Some(t) && Some(c.latitude as int)
                == spec_parse_fixed(t@))
            &&& (r matches Ok(c) ==> lon matches Some(t) && Some(c.longitude as int)
                == spec_parse_fixed(t@))
            &&& (!parses_as_coordinate(lat_view) ==> (r matches Err(WeatherError::ParseError(m))
                && m@ == "Failed to parse latitude"@))
            &&& (parses_as_coordinate(lat_view) && !parses_as_coordinate(lon_view) ==> (r matches Err(
                WeatherError::ParseError(m),
            ) && m@ == "Failed to parse longitude"@))
            &&& (r matches Ok(c) ==> -FIXED_MAG_LIMIT <= c.latitude <= FIXED_MAG_LIMIT
                && -FIXED_MAG_LIMIT <= c.longitude <= FIXED_MAG_LIMIT)
        }),
{
    let latitude = match lat {
        Some(t) => match parse_fixed(t) {
            Some(v) => v,
            None => {
                return Err(
                    WeatherError::ParseError(String::from_str("Failed to parse latitude")),
                );
            },
        },
        None => {
            return Err(WeatherError::ParseError(String::from_str("Failed to parse latitude")));
        },
    };
    let longitude = match lon {
        Some(t) => match parse_fixed(t) {
            Some(v) => v,
            None => {
                return Err(
                    WeatherError::ParseError(String::from_str("Failed to parse longitude")),
                );
            },
        },
        None => {
            return Err(WeatherError::ParseError(String::from_str("Failed to parse longitude")));
        },
    };
    Ok(Coordinates { latitude, longitude })
}

/// Reads the text of one string-encoded coordinate field.
fn coordinate_field_text(entry: &serde_json::Value, key: &str) -> (r: Option<String>)
    ensures
        r is Some <==> coordinate_text(*entry, key@) is Some,
        r matches Some(t) ==> Some(t@) == coordinate_text(*entry, key@),
{
    match json_get(entry, key) {
        Some(v) => match json_as_str(v) {
            Some(s) => Some(String::from_str(s)),
            None => None,
        },
        None => None,
    }
}

/// Borrows an optional owned string as an optional slice.
fn as_opt_str(t: &Option<String>) -> (r: Option<&str>)
    ensures
        r is Some <==> t is Some,
        r matches Some(s) ==> t matches Some(o) && s@ == o@,
{
    match t {
        Some(s) => Some(s.as_str()),
        None => None,
    }
}

/// Whether a geocoding response body is a JSON array.
pub open spec fn geocode_body_is_list(s: Seq<char>) -> bool {
    json_parses(s) && json_is_array(json_document(s))
}

/// The result entries of a geocoding response body.
pub open spec fn geocode_results(s: Seq<char>) -> Seq<serde_json::Value> {
    json_elements(json_document(s))
}

/// Reads coordinates out of a geocoding response body.  A body that is
/// not a JSON array is `ParseError`, an empty array is
/// `LocationNotFound` for the given location, and otherwise the first
/// entry alone decides: its `lat` and `lon` must be strings holding
/// plain decimals, or the response is `ParseError`.
pub fn parse_geocode_response(location: &str, body: &str) -> (r: Result<Coordinates, WeatherError>)
    ensures
        r matches Err(WeatherError::LocationNotFound(_)) <==> geocode_body_is_list(body@)
            && geocode_results(body@).len() == 0,
        r is Ok <==> geocode_body_is_list(body@) && geocode_results(body@).len() > 0
            && parses_as_coordinate(coordinate_text(geocode_results(body@)[0], "lat"@))
            && parses_as_coordinate(coordinate_text(geocode_results(body@)[0], "lon"@)),
        r matches Ok(c) ==> (coordinate_text(geocode_results(body@)[0], "lat"@) matches Some(t)
            && Some(c.latitude as int) == spec_parse_fixed(t)),
        r matches Ok(c) ==> (coordinate_text(geocode_results(body@)[0], "lon"@) matches Some(t)
            && Some(c.longitude as int) == spec_parse_fixed(t)),
        r matches Ok(c) ==> -FIXED_MAG_LIMIT <= c.latitude <= FIXED_MAG_LIMIT
            && -FIXED_MAG_LIMIT <= c.longitude <= FIXED_MAG_LIMIT,
        r matches Err(e) ==> (e matches WeatherError::LocationNotFound(_) || e
            matches WeatherError::ParseError(_)),
        r matches Err(WeatherError::LocationNotFound(l)) ==> l@ == location@,
{
    let json = match parse_json(body) {
        Ok(json) => json,
        Err(e) => {
            return Err(WeatherError::ParseError(e));
        },
    };
    let results = match json_as_array(&json) {
        Some(results) => results,
        None => {
            return Err(
                WeatherError::ParseError(
                    String::from_str("Invalid response format from geocoding API"),
                ),
            );
        },
    };
    coords_from_results(location, results)
}

/// The failure reported when the geocoding service answers with a
/// non-success status.
pub fn geocode_status_error(status: &str) -> (r: WeatherError)
    ensures
        r matches WeatherError::ApiError(m) && m@ == "Geocoding API returned status: "@
            + status@,
{
    let mut msg = String::new();
    msg.append("Geocoding API returned status: ");
    msg.append(status);
    proof {
        assert(msg@ =~= "Geocoding API returned status: "@ + status@);
    }
    WeatherError::ApiError(msg)
}

/// Whether an HTTP status code reports success.
pub fn status_is_success(status: u16) -> (r: bool)
    ensures
        r == (200 <= status < 300),
{
    200 <= status && status < 300
}

} // verus!
