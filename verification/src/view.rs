//! Display-side data selection: timestamp and date trimming, and the
//! rules for which weather values are paired into a display line.

use vstd::prelude::*;
use vstd::seq_lib::*;
use vstd::string::StringExecFns;

use crate::catalog::{compass_bucket, compass_name, spec_compass_bucket, spec_compass_name};
use crate::catalog::spec_code_description;
use crate::conversions::{
    fahrenheit_of, feet_of_meters, inches_of_mm, inhg_of_hpa, mph_of_kmh, Distance, Pressure,
    Speed, Temperature,
};
use crate::decimal::{
    fixed0_string, fixed1_string, fixed2_string, format_fixed0, format_fixed1, format_fixed2,
    i64_to_string, int_string,
};
use crate::fixed::FIXED_MAG_LIMIT;
use crate::models::{opt_in_range, CurrentWeather, DailyForecast, HourlyForecast};

verus! {

/// A found occurrence at `i` with none earlier pins `index_of_first`.
proof fn lemma_index_of_first_witness(s: Seq<char>, c: char, i: int)
    requires
        0 <= i < s.len(),
        s[i] == c,
        forall|k: int| 0 <= k < i ==> s[k] != c,
    ensures
        s.index_of_first(c) == Some(i),
{
    s.index_of_first_ensures(c);
    match s.index_of_first(c) {
        Some(j) => {
            if j < i {
                assert(s[j] == c);
                assert(false);
            }
            if j > i {
                assert(false);
            }
        },
        None => {
            assert(s[i] != c);
            assert(false);
        },
    }
}

/// With no occurrence at all, `index_of_first` finds none.
proof fn lemma_index_of_first_absent(s: Seq<char>, c: char)
    requires
        forall|k: int| 0 <= k < s.len() ==> s[k] != c,
    ensures
        s.index_of_first(c) is None,
{
    s.index_of_first_ensures(c);
    match s.index_of_first(c) {
        Some(j) => {
            assert(s[j] == c);
            assert(false);
        },
        None => {},
    }
}

/// Finds the first occurrence of `c` in `s[from..to)`.
fn find_char_range(s: &str, from: usize, to: usize, c: char) -> (r: Option<usize>)
    requires
        from <= to <= s@.len(),
    ensures
        match r {
            Some(i) => from <= i < to && s@[i as int] == c && (forall|k: int|
                from <= k < i ==> s@[k] != c),
            None => forall|k: int| from <= k < to ==> s@[k] != c,
        },
{
    let mut j: usize = from;
    while j < to
        invariant
            from <= j <= to <= s@.len(),
            forall|k: int| from <= k < j ==> s@[k] != c,
        decreases to - j,
    {
        if s.get_char(j) == c {
            return Some(j);
        }
        j = j + 1;
    }
    None
}

/// The clock time taken out of an ISO 8601 timestamp: the hour and
/// minute of the segment after the first `'T'`; the input itself when
/// there is no `'T'` or the segment has no `':'`.
pub open spec fn spec_extract_time(s: Seq<char>) -> Seq<char> {
    match s.index_of_first('T') {
        None => s,
        Some(t) => {
            let after = s.subrange(t + 1, s.len() as int);
            let seg = match after.index_of_first('T') {
                None => after,
                Some(t2) => after.subrange(0, t2),
            };
            match seg.index_of_first(':') {
                None => s,
                Some(c1) => {
                    let hour = seg.subrange(0, c1);
                    let rest = seg.subrange(c1 + 1, seg.len() as int);
                    let minute = match rest.index_of_first(':') {
                        None => rest,
                        Some(c2) => rest.subrange(0, c2),
                    };
                    hour + seq![':'] + minute
                },
            }
        },
    }
}

/// Extracts `hour:minute` from an ISO 8601 timestamp, handing back the
/// input verbatim when it has no date/time separator or no clock part.
pub fn extract_time(datetime_str: &str) -> (r: String)
    ensures
        r@ == spec_extract_time(datetime_str@),
{
    let n = datetime_str.unicode_len();
    let ghost s = datetime_str@;
    let t = match find_char_range(datetime_str, 0, n, 'T') {
        None => {
            proof {
                lemma_index_of_first_absent(s, 'T');
            }
            return String::from_str(datetime_str);
        },
        Some(t) => t,
    };
    proof {
        lemma_index_of_first_witness(s, 'T', t as int);
    }
    let ghost after = s.subrange(t + 1, n as int);
    // End of the segment: the next 'T', or the end of the string.
    let seg_end: usize = match find_char_range(datetime_str, t + 1, n, 'T') {
        None => {
            proof {
                assert(forall|k: int| 0 <= k < after.len() ==> after[k] != 'T');
                lemma_index_of_first_absent(after, 'T');
            }
            n
        },
        Some(t2) => {
            proof {
                assert(after[t2 - (t + 1)] == 'T');
                lemma_index_of_first_witness(after, 'T', t2 - (t + 1));
            }
            t2
        },
    };
    let ghost seg = if seg_end == n {
        after
    } else {
        after.subrange(0, seg_end - (t + 1))
    };
    proof {
        if seg_end == n {
            assert(seg =~= s.subrange(t + 1, seg_end as int));
        } else {
            assert(seg =~= s.subrange(t + 1, seg_end as int));
        }
    }
    let c1 = match find_char_range(datetime_str, t + 1, seg_end, ':') {
        None => {
            proof {
                assert(forall|k: int| 0 <= k < seg.len() ==> seg[k] != ':');
                lemma_index_of_first_absent(seg, ':');
            }
            return String::from_str(datetime_str);
        },
        Some(c1) => c1,
    };
    proof {
        assert(seg[c1 - (t + 1)] == ':');
        lemma_index_of_first_witness(seg, ':', c1 - (t + 1));
    }
    let ghost rest = seg.subrange(c1 - (t + 1) + 1, seg.len() as int);
    proof {
        assert(rest =~= s.subrange(c1 + 1, seg_end as int));
    }
    // End of the minute part: the next ':', or the end of the segment.
    let min_end: usize = match find_char_range(datetime_str, c1 + 1, seg_end, ':') {
        None => {
            proof {
                assert(forall|k: int| 0 <= k < rest.len() ==> rest[k] != ':');
                lemma_index_of_first_absent(rest, ':');
            }
            seg_end
        },
        Some(c2) => {
            proof {
                assert(rest[c2 - (c1 + 1)] == ':');
                lemma_index_of_first_witness(rest, ':', c2 - (c1 + 1));
            }
            c2
        },
    };
    let hour = datetime_str.substring_char(t + 1, c1);
    let minute = datetime_str.substring_char(c1 + 1, min_end);
    let mut out = String::from_str(hour);
    out.append(":");
    out.append(minute);
    proof {
        reveal_strlit(":");
        assert(seg.subrange(0, c1 - (t + 1)) =~= s.subrange(t + 1, c1 as int));
        if min_end == seg_end {
            assert(rest =~= s.subrange(c1 + 1, min_end as int));
        } else {
            assert(rest.subrange(0, min_end - (c1 + 1)) =~= s.subrange(c1 + 1, min_end as int));
        }
        assert(out@ =~= spec_extract_time(s));
    }
    out
}

/// The month abbreviation for a two-digit month number; any other text
/// is handed back unchanged.
pub open spec fn spec_month_name(m: Seq<char>) -> Seq<char> {
    if m == "01"@ {
        "Jan"@
    } else if m == "02"@ {
        "Feb"@
    } else if m == "03"@ {
        "Mar"@
    } else if m == "04"@ {
        "Apr"@
    } else if m == "05"@ {
        "May"@
    } else if m == "06"@ {
        "Jun"@
    } else if m == "07"@ {
        "Jul"@
    } else if m == "08"@ {
        "Aug"@
    } else if m == "09"@ {
        "Sep"@
    } else if m == "10"@ {
        "Oct"@
    } else if m == "11"@ {
        "Nov"@
    } else if m == "12"@ {
        "Dec"@
    } else {
        m
    }
}

/// Maps a two-digit month number to its abbreviation.
pub fn month_name<'a>(m: &'a str) -> (r: &'a str)
    ensures
        r@ == spec_month_name(m@),
{
    proof {
        reveal_strlit("01");
        reveal_strlit("02");
        reveal_strlit("03");
        reveal_strlit("04");
        reveal_strlit("05");
        reveal_strlit("06");
        reveal_strlit("07");
        reveal_strlit("08");
        reveal_strlit("09");
        reveal_strlit("10");
        reveal_strlit("11");
        reveal_strlit("12");
    }
    if m.unicode_len() != 2 {
        return m;
    }
    let c0 = m.get_char(0);
    let c1 = m.get_char(1);
    proof {
        assert(m@ =~= seq![c0, c1]);
    }
    if c0 == '0' && c1 == '1' {
        proof {
            assert(m@ =~= "01"@);
        }
        return "Jan";
    }
    if c0 == '0' && c1 == '2' {
        proof {
            assert(m@ =~= "02"@);
        }
        return "Feb";
    }
    if c0 == '0' && c1 == '3' {
        proof {
            assert(m@ =~= "03"@);
        }
        return "Mar";
    }
    if c0 == '0' && c1 == '4' {
        proof {
            assert(m@ =~= "04"@);
        }
        return "Apr";
    }
    if c0 == '0' && c1 == '5' {
        proof {
            assert(m@ =~= "05"@);
        }
        return "May";
    }
    if c0 == '0' && c1 == '6' {
        proof {
            assert(m@ =~= "06"@);
        }
        return "Jun";
    }
    if c0 == '0' && c1 == '7' {
        proof {
            assert(m@ =~= "07"@);
        }
        return "Jul";
    }
    if c0 == '0' && c1 == '8' {
        proof {
            assert(m@ =~= "08"@);
        }
        return "Aug";
    }
    if c0 == '0' && c1 == '9' {
        proof {
            assert(m@ =~= "09"@);
        }
        return "Sep";
    }
    if c0 == '1' && c1 == '0' {
        proof {
            assert(m@ =~= "10"@);
        }
        return "Oct";
    }
    if c0 == '1' && c1 == '1' {
        proof {
            assert(m@ =~= "11"@);
        }
        return "Nov";
    }
    if c0 == '1' && c1 == '2' {
        proof {
            assert(m@ =~= "12"@);
        }
        return "Dec";
    }
    m
}

/// A date of the shape `year-month-day` rendered as `Mon day`; any
/// other shape is handed back unchanged.
pub open spec fn spec_format_date(s: Seq<char>) -> Seq<char> {
    match s.index_of_first('-') {
        None => s,
        Some(i) => {
            let rest = s.subrange(i + 1, s.len() as int);
            match rest.index_of_first('-') {
                None => s,
                Some(j) => {
                    let day = rest.subrange(j + 1, rest.len() as int);
                    if day.index_of_first('-') is Some {
                        s
                    } else {
                        spec_month_name(rest.subrange(0, j)) + seq![' '] + day
                    }
                },
            }
        },
    }
}

/// Formats an ISO 8601 date for display as `Mon day`.
pub fn format_date(date_str: &str) -> (r: String)
    ensures
        r@ == spec_format_date(date_str@),
{
    let n = date_str.unicode_len();
    let ghost s = date_str@;
    let i = match find_char_range(date_str, 0, n, '-') {
        None => {
            proof {
                lemma_index_of_first_absent(s, '-');
            }
            return String::from_str(date_str);
        },
        Some(i) => i,
    };
    proof {
        lemma_index_of_first_witness(s, '-', i as int);
    }
    let ghost rest = s.subrange(i + 1, n as int);
    let j = match find_char_range(date_str, i + 1, n, '-') {
        None => {
            proof {
                assert(forall|k: int| 0 <= k < rest.len() ==> rest[k] != '-');
                lemma_index_of_first_absent(rest, '-');
            }
            return String::from_str(date_str);
        },
        Some(j) => j,
    };
    proof {
        assert(rest[j - (i + 1)] == '-');
        lemma_index_of_first_witness(rest, '-', j - (i + 1));
    }
    let ghost day = rest.subrange(j - (i + 1) + 1, rest.len() as int);
    proof {
        assert(day =~= s.subrange(j + 1, n as int));
    }
    if let Some(k) = find_char_range(date_str, j + 1, n, '-') {
        proof {
            assert(day[k - (j + 1)] == '-');
            lemma_index_of_first_witness(day, '-', k - (j + 1));
        }
        return String::from_str(date_str);
    }
    proof {
        assert(forall|k: int| 0 <= k < day.len() ==> day[k] != '-');
        lemma_index_of_first_absent(day, '-');
    }
    let month = date_str.substring_char(i + 1, j);
    let day_text = date_str.substring_char(j + 1, n);
    let named = month_name(month);
    let mut out = String::from_str(named);
    out.append(" ");
    out.append(day_text);
    proof {
        reveal_strlit(" ");
        assert(month@ =~= rest.subrange(0, j - (i + 1)));
        assert(out@ =~= spec_format_date(s));
    }
    out
}

/// The hour of an ISO 8601 timestamp: the segment after the first
/// `'T'`, cut before its first `':'`; the input itself when there is no
/// `'T'`.
pub open spec fn spec_hour_label(s: Seq<char>) -> Seq<char> {
    match s.index_of_first('T') {
        None => s,
        Some(t) => {
            let after = s.subrange(t + 1, s.len() as int);
            let seg = match after.index_of_first('T') {
                None => after,
                Some(t2) => after.subrange(0, t2),
            };
            match seg.index_of_first(':') {
                None => seg,
                Some(c1) => seg.subrange(0, c1),
            }
        },
    }
}

/// Extracts the hour label of an hourly timestamp for display.
pub fn hourly_time_label(time: &str) -> (r: String)
    ensures
        r@ == spec_hour_label(time@),
{
    let n = time.unicode_len();
    let ghost s = time@;
    let t = match find_char_range(time, 0, n, 'T') {
        None => {
            proof {
                lemma_index_of_first_absent(s, 'T');
            }
            return String::from_str(time);
        },
        Some(t) => t,
    };
    proof {
        lemma_index_of_first_witness(s, 'T', t as int);
    }
    let ghost after = s.subrange(t + 1, n as int);
    let seg_end: usize = match find_char_range(time, t + 1, n, 'T') {
        None => {
            proof {
                assert(forall|k: int| 0 <= k < after.len() ==> after[k] != 'T');
                lemma_index_of_first_absent(after, 'T');
            }
            n
        },
        Some(t2) => {
            proof {
                assert(after[t2 - (t + 1)] == 'T');
                lemma_index_of_first_witness(after, 'T', t2 - (t + 1));
            }
            t2
        },
    };
    let ghost seg = if seg_end == n {
        after
    } else {
        after.subrange(0, seg_end - (t + 1))
    };
    proof {
        assert(seg =~= s.subrange(t + 1, seg_end as int));
    }
    let cut: usize = match find_char_range(time, t + 1, seg_end, ':') {
        None => {
            proof {
                assert(forall|k: int| 0 <= k < seg.len() ==> seg[k] != ':');
                lemma_index_of_first_absent(seg, ':');
            }
            seg_end
        },
        Some(c1) => {
            proof {
                assert(seg[c1 - (t + 1)] == ':');
                lemma_index_of_first_witness(seg, ':', c1 - (t + 1));
            }
            c1
        },
    };
    let label = time.substring_char(t + 1, cut);
    proof {
        if cut < seg_end {
            assert(seg.subrange(0, cut - (t + 1)) =~= s.subrange(t + 1, cut as int));
        }
    }
    String::from_str(label)
}

/// One hourly entry's display line: the hour label, then a fragment
/// for each present field — temperature in both scales, the concise
/// condition description, rain probability, a positive precipitation
/// amount in both scales, and wind speed in both scales.
pub open spec fn spec_hourly_item_line(h: HourlyForecast) -> Seq<char> {
    spec_hour_label(h.time@) + ":00 - "@ + (match h.temperature {
        None => Seq::<char>::empty(),
        Some(t) => spec_celsius_pair(t as int),
    }) + (match h.weather_code {
        None => Seq::<char>::empty(),
        Some(c) => " ("@ + spec_code_description(c as int) + ")"@,
    }) + (match h.precipitation_probability {
        None => Seq::<char>::empty(),
        Some(p) => " | Rain: "@ + fixed0_string(p as int) + "%"@,
    }) + (match h.precipitation {
        None => Seq::<char>::empty(),
        Some(p) => if p <= 0 {
            Seq::<char>::empty()
        } else {
            " ("@ + fixed1_string(p as int) + "mm / "@ + fixed2_string(inches_of_mm(p as int))
                + "in)"@
        },
    }) + (match h.wind_speed {
        None => Seq::<char>::empty(),
        Some(w) => " | Wind: "@ + fixed0_string(w as int) + " km/h / "@ + fixed0_string(
            mph_of_kmh(w as int),
        ) + " mph"@,
    })
}

/// Renders one hourly entry for display.
#[verifier::rlimit(100)]
pub fn hourly_item_line(hour: &HourlyForecast) -> (r: String)
    requires
        hour.wf(),
    ensures
        r@ == spec_hourly_item_line(*hour),
{
    let ghost mut acc: Seq<char> = spec_hour_label(hour.time@) + ":00 - "@;
    let mut out = hourly_time_label(hour.time.as_str());
    out.append(":00 - ");
    proof {
        assert(out@ =~= acc);
    }
    if let Some(t) = hour.temperature {
        let pair = celsius_pair(t);
        out.append(pair.as_str());
        proof {
            acc = acc + spec_celsius_pair(t as int);
        }
    }
    if let Some(code) = hour.weather_code {
        out.append(" (");
        out.append(ClView::weather_code_description(code));
        out.append(")");
        proof {
            acc = acc + (" ("@ + spec_code_description(code as int) + ")"@);
            assert(out@ =~= acc);
        }
    }
    if let Some(p) = hour.precipitation_probability {
        out.append(" | Rain: ");
        let prob = format_fixed0(p);
        out.append(prob.as_str());
        out.append("%");
        proof {
            acc = acc + (" | Rain: "@ + fixed0_string(p as int) + "%"@);
            assert(out@ =~= acc);
        }
    }
    if let Some(p) = hour.precipitation {
        if p > 0 {
            out.append(" (");
            let amount = format_fixed1(p);
            out.append(amount.as_str());
            out.append("mm / ");
            let inches = format_fixed2(Distance::mm_to_inches(p));
            out.append(inches.as_str());
            out.append("in)");
            proof {
                acc = acc + (" ("@ + fixed1_string(p as int) + "mm / "@ + fixed2_string(
                    inches_of_mm(p as int),
                ) + "in)"@);
                assert(out@ =~= acc);
            }
        }
    }
    if let Some(w) = hour.wind_speed {
        out.append(" | Wind: ");
        let speed = format_fixed0(w);
        out.append(speed.as_str());
        out.append(" km/h / ");
        let mph = format_fixed0(Speed::kmh_to_mph(w));
        out.append(mph.as_str());
        out.append(" mph");
        proof {
            acc = acc + (" | Wind: "@ + fixed0_string(w as int) + " km/h / "@ + fixed0_string(
                mph_of_kmh(w as int),
            ) + " mph"@);
            assert(out@ =~= acc);
        }
    }
    proof {
        assert(out@ =~= acc);
        assert(acc =~= spec_hourly_item_line(*hour));
    }
    out
}

/// A Celsius value shown in both scales: `c°C / f°F`, one decimal each.
pub open spec fn spec_celsius_pair(c: int) -> Seq<char> {
    fixed1_string(c) + "°C / "@ + fixed1_string(fahrenheit_of(c)) + "°F"@
}

/// Renders a Celsius temperature in both scales.
pub fn celsius_pair(v: i64) -> (r: String)
    requires
        -FIXED_MAG_LIMIT <= v <= FIXED_MAG_LIMIT,
    ensures
        r@ == spec_celsius_pair(v as int),
{
    let f = Temperature::celsius_to_fahrenheit(v);
    let mut out = format_fixed1(v);
    out.append("°C / ");
    let fs = format_fixed1(f);
    out.append(fs.as_str());
    out.append("°F");
    proof {
        assert(out@ =~= spec_celsius_pair(v as int));
    }
    out
}

/// The current-temperature display line, emitted only when a
/// temperature is present.
pub open spec fn spec_temperature_line(t: Option<i64>) -> Option<Seq<char>> {
    match t {
        None => None,
        Some(c) => Some("Temperature: "@ + spec_celsius_pair(c as int)),
    }
}

/// Selects the current-temperature line.
pub fn temperature_line(current: &CurrentWeather) -> (r: Option<String>)
    requires
        opt_in_range(current.temperature),
    ensures
        r is Some <==> current.temperature is Some,
        r matches Some(line) ==> Some(line@) == spec_temperature_line(current.temperature),
{
    match current.temperature {
        None => None,
        Some(t) => {
            let mut out = String::new();
            out.append("Temperature: ");
            let pair = celsius_pair(t);
            out.append(pair.as_str());
            proof {
                assert(out@ =~= "Temperature: "@ + spec_celsius_pair(t as int));
            }
            Some(out)
        },
    }
}

/// The feels-like display line, emitted only when an apparent
/// temperature is present.
pub open spec fn spec_feels_like_line(t: Option<i64>) -> Option<Seq<char>> {
    match t {
        None => None,
        Some(c) => Some("Feels Like: "@ + spec_celsius_pair(c as int)),
    }
}

/// Selects the feels-like line.
pub fn feels_like_line(current: &CurrentWeather) -> (r: Option<String>)
    requires
        opt_in_range(current.apparent_temperature),
    ensures
        r is Some <==> current.apparent_temperature is Some,
        r matches Some(line) ==> Some(line@) == spec_feels_like_line(
            current.apparent_temperature,
        ),
{
    match current.apparent_temperature {
        None => None,
        Some(t) => {
            let mut out = String::new();
            out.append("Feels Like: ");
            let pair = celsius_pair(t);
            out.append(pair.as_str());
            proof {
                assert(out@ =~= "Feels Like: "@ + spec_celsius_pair(t as int));
            }
            Some(out)
        },
    }
}

/// The wind display line: emitted only when a wind speed is present,
/// and naming a direction only when one is present too.
pub open spec fn spec_wind_line(speed: Option<i64>, direction: Option<i64>) -> Option<Seq<char>> {
    match speed {
        None => None,
        Some(s) => {
            let base = "Wind: "@ + fixed1_string(s as int) + " km/h / "@ + fixed1_string(
                mph_of_kmh(s as int),
            ) + " mph"@;
            match direction {
                None => Some(base),
                Some(d) => Some(
                    base + " from "@ + fixed1_string(d as int) + "° ("@ + spec_compass_name(
                        spec_compass_bucket(d as int),
                    ) + ")"@,
                ),
            }
        },
    }
}

/// Selects and pairs the wind line.
pub fn wind_line(current: &CurrentWeather) -> (r: Option<String>)
    requires
        opt_in_range(current.wind_speed),
        opt_in_range(current.wind_direction),
    ensures
        r is Some <==> current.wind_speed is Some,
        r matches Some(line) ==> Some(line@) == spec_wind_line(
            current.wind_speed,
            current.wind_direction,
        ),
{
    let s = match current.wind_speed {
        None => {
            return None;
        },
        Some(s) => s,
    };
    let mph = Speed::kmh_to_mph(s);
    let mut out = String::new();
    out.append("Wind: ");
    let ss = format_fixed1(s);
    out.append(ss.as_str());
    out.append(" km/h / ");
    let ms = format_fixed1(mph);
    out.append(ms.as_str());
    out.append(" mph");
    match current.wind_direction {
        None => {
            proof {
                assert(Some(out@) == spec_wind_line(current.wind_speed, current.wind_direction))
                    by {
                    assert(out@ =~= "Wind: "@ + fixed1_string(s as int) + " km/h / "@
                        + fixed1_string(mph_of_kmh(s as int)) + " mph"@);
                }
            }
            Some(out)
        },
        Some(d) => {
            out.append(" from ");
            let ds = format_fixed1(d);
            out.append(ds.as_str());
            out.append("° (");
            out.append(compass_name(compass_bucket(d)));
            out.append(")");
            proof {
                assert(Some(out@) == spec_wind_line(current.wind_speed, current.wind_direction))
                    by {
                    assert(out@ =~= "Wind: "@ + fixed1_string(s as int) + " km/h / "@
                        + fixed1_string(mph_of_kmh(s as int)) + " mph"@ + " from "@
                        + fixed1_string(d as int) + "° ("@ + spec_compass_name(
                        spec_compass_bucket(d as int),
                    ) + ")"@);
                }
            }
            Some(out)
        },
    }
}

/// The precipitation display line: emitted only when an amount is
/// present and positive, pairing it with a probability when one is
/// present.
pub open spec fn spec_precipitation_line(amount: Option<i64>, probability: Option<i64>) -> Option<
    Seq<char>,
> {
    match amount {
        None => None,
        Some(a) => if a <= 0 {
            None
        } else {
            let base = "Precipitation: "@ + fixed1_string(a as int) + " mm / "@ + fixed2_string(
                inches_of_mm(a as int),
            ) + " in"@;
            match probability {
                None => Some(base),
                Some(p) => Some(base + " ("@ + fixed0_string(p as int) + "% chance)"@),
            }
        },
    }
}

/// Selects and pairs the precipitation line.
pub fn precipitation_line(amount: Option<i64>, probability: Option<i64>) -> (r: Option<String>)
    requires
        opt_in_range(amount),
        opt_in_range(probability),
    ensures
        r is Some <==> (amount matches Some(a) && a > 0),
        r matches Some(line) ==> Some(line@) == spec_precipitation_line(amount, probability),
{
    let a = match amount {
        None => {
            return None;
        },
        Some(a) => a,
    };
    if a <= 0 {
        return None;
    }
    let inches = Distance::mm_to_inches(a);
    let mut out = String::new();
    out.append("Precipitation: ");
    let asx = format_fixed1(a);
    out.append(asx.as_str());
    out.append(" mm / ");
    let ins = format_fixed2(inches);
    out.append(ins.as_str());
    out.append(" in");
    match probability {
        None => {
            proof {
                assert(Some(out@) == spec_precipitation_line(amount, probability)) by {
                    assert(out@ =~= "Precipitation: "@ + fixed1_string(a as int) + " mm / "@
                        + fixed2_string(inches_of_mm(a as int)) + " in"@);
                }
            }
            Some(out)
        },
        Some(p) => {
            out.append(" (");
            let ps = format_fixed0(p);
            out.append(ps.as_str());
            out.append("% chance)");
            proof {
                assert(Some(out@) == spec_precipitation_line(amount, probability)) by {
                    assert(out@ =~= "Precipitation: "@ + fixed1_string(a as int) + " mm / "@
                        + fixed2_string(inches_of_mm(a as int)) + " in"@ + " ("@ + fixed0_string(
                        p as int,
                    ) + "% chance)"@);
                }
            }
            Some(out)
        },
    }
}

/// The humidity display line, emitted only when a humidity is present.
pub open spec fn spec_humidity_line(h: Option<i64>) -> Option<Seq<char>> {
    match h {
        None => None,
        Some(v) => Some("Humidity: "@ + fixed0_string(v as int) + "%"@),
    }
}

/// Selects the humidity line.
pub fn humidity_line(current: &CurrentWeather) -> (r: Option<String>)
    requires
        opt_in_range(current.humidity),
    ensures
        r is Some <==> current.humidity is Some,
        r matches Some(line) ==> Some(line@) == spec_humidity_line(current.humidity),
{
    match current.humidity {
        None => None,
        Some(v) => {
            let mut out = String::new();
            out.append("Humidity: ");
            let t = format_fixed0(v);
            out.append(t.as_str());
            out.append("%");
            proof {
                assert(out@ =~= "Humidity: "@ + fixed0_string(v as int) + "%"@);
            }
            Some(out)
        },
    }
}

/// The cloud-cover display line, emitted only when a cloud cover is
/// present.
pub open spec fn spec_cloud_cover_line(c: Option<i64>) -> Option<Seq<char>> {
    match c {
        None => None,
        Some(v) => Some("Cloud Cover: "@ + fixed0_string(v as int) + "%"@),
    }
}

/// Selects the cloud-cover line.
pub fn cloud_cover_line(current: &CurrentWeather) -> (r: Option<String>)
    requires
        opt_in_range(current.cloud_cover),
    ensures
        r is Some <==> current.cloud_cover is Some,
        r matches Some(line) ==> Some(line@) == spec_cloud_cover_line(current.cloud_cover),
{
    match current.cloud_cover {
        None => None,
        Some(v) => {
            let mut out = String::new();
            out.append("Cloud Cover: ");
            let t = format_fixed0(v);
            out.append(t.as_str());
            out.append("%");
            proof {
                assert(out@ =~= "Cloud Cover: "@ + fixed0_string(v as int) + "%"@);
            }
            Some(out)
        },
    }
}

/// The pressure display line, emitted only when a pressure is present:
/// hectopascals beside inches of mercury.
pub open spec fn spec_pressure_line(p: Option<i64>) -> Option<Seq<char>> {
    match p {
        None => None,
        Some(v) => Some(
            "Pressure: "@ + fixed1_string(v as int) + " hPa / "@ + fixed2_string(
                inhg_of_hpa(v as int),
            ) + " inHg"@,
        ),
    }
}

/// Selects the pressure line.
pub fn pressure_line(current: &CurrentWeather) -> (r: Option<String>)
    requires
        opt_in_range(current.pressure),
    ensures
        r is Some <==> current.pressure is Some,
        r matches Some(line) ==> Some(line@) == spec_pressure_line(current.pressure),
{
    match current.pressure {
        None => None,
        Some(v) => {
            let inhg = Pressure::hpa_to_inhg(v);
            let mut out = String::new();
            out.append("Pressure: ");
            let t = format_fixed1(v);
            out.append(t.as_str());
            out.append(" hPa / ");
            let u = format_fixed2(inhg);
            out.append(u.as_str());
            out.append(" inHg");
            proof {
                assert(out@ =~= "Pressure: "@ + fixed1_string(v as int) + " hPa / "@
                    + fixed2_string(inhg_of_hpa(v as int)) + " inHg"@);
            }
            Some(out)
        },
    }
}

/// The visibility display line, emitted only when a visibility is
/// present: meters beside feet.
pub open spec fn spec_visibility_line(v: Option<i64>) -> Option<Seq<char>> {
    match v {
        None => None,
        Some(m) => Some(
            "Visibility: "@ + fixed0_string(m as int) + " meters / "@ + fixed0_string(
                feet_of_meters(m as int),
            ) + " feet"@,
        ),
    }
}

/// Selects the visibility line.
pub fn visibility_line(current: &CurrentWeather) -> (r: Option<String>)
    requires
        opt_in_range(current.visibility),
    ensures
        r is Some <==> current.visibility is Some,
        r matches Some(line) ==> Some(line@) == spec_visibility_line(current.visibility),
{
    match current.visibility {
        None => None,
        Some(m) => {
            let feet = Distance::meters_to_feet(m);
            let mut out = String::new();
            out.append("Visibility: ");
            let t = format_fixed0(m);
            out.append(t.as_str());
            out.append(" meters / ");
            let u = format_fixed0(feet);
            out.append(u.as_str());
            out.append(" feet");
            proof {
                assert(out@ =~= "Visibility: "@ + fixed0_string(m as int) + " meters / "@
                    + fixed0_string(feet_of_meters(m as int)) + " feet"@);
            }
            Some(out)
        },
    }
}

/// The weather-code display line, emitted only when a code is present:
/// the code number beside its concise description.
pub open spec fn spec_weather_code_line(c: Option<i32>) -> Option<Seq<char>> {
    match c {
        None => None,
        Some(code) => Some(
            "Weather Code: "@ + int_string(code as int) + " ("@ + spec_code_description(
                code as int,
            ) + ")"@,
        ),
    }
}

/// Selects the weather-code line.
pub fn weather_code_line(current: &CurrentWeather) -> (r: Option<String>)
    ensures
        r is Some <==> current.weather_code is Some,
        r matches Some(line) ==> Some(line@) == spec_weather_code_line(current.weather_code),
{
    match current.weather_code {
        None => None,
        Some(code) => {
            let mut out = String::new();
            out.append("Weather Code: ");
            let t = i64_to_string(code as i64);
            out.append(t.as_str());
            out.append(" (");
            out.append(ClView::weather_code_description(code));
            out.append(")");
            proof {
                assert(out@ =~= "Weather Code: "@ + int_string(code as int) + " ("@
                    + spec_code_description(code as int) + ")"@);
            }
            Some(out)
        },
    }
}

/// The current-precipitation display line, emitted whenever an amount
/// is present: millimeters beside inches.
pub open spec fn spec_current_precipitation_line(p: Option<i64>) -> Option<Seq<char>> {
    match p {
        None => None,
        Some(v) => Some(
            "Precipitation: "@ + fixed1_string(v as int) + " mm / "@ + fixed2_string(
                inches_of_mm(v as int),
            ) + " in"@,
        ),
    }
}

/// Selects the current-precipitation line.
pub fn current_precipitation_line(current: &CurrentWeather) -> (r: Option<String>)
    requires
        opt_in_range(current.precipitation),
    ensures
        r is Some <==> current.precipitation is Some,
        r matches Some(line) ==> Some(line@) == spec_current_precipitation_line(
            current.precipitation,
        ),
{
    match current.precipitation {
        None => None,
        Some(v) => {
            let inches = Distance::mm_to_inches(v);
            let mut out = String::new();
            out.append("Precipitation: ");
            let t = format_fixed1(v);
            out.append(t.as_str());
            out.append(" mm / ");
            let u = format_fixed2(inches);
            out.append(u.as_str());
            out.append(" in");
            proof {
                assert(out@ =~= "Precipitation: "@ + fixed1_string(v as int) + " mm / "@
                    + fixed2_string(inches_of_mm(v as int)) + " in"@);
            }
            Some(out)
        },
    }
}

/// The daily temperature-range line: emitted only when the minimum and
/// maximum are jointly present.
pub open spec fn spec_temperature_range_line(min: Option<i64>, max: Option<i64>) -> Option<
    Seq<char>,
> {
    match (min, max) {
        (Some(lo), Some(hi)) => Some(
            "Temperature: "@ + fixed1_string(lo as int) + "°C to "@ + fixed1_string(hi as int)
                + "°C / "@ + fixed1_string(fahrenheit_of(lo as int)) + "°F to "@ + fixed1_string(
                fahrenheit_of(hi as int),
            ) + "°F"@,
        ),
        _ => None,
    }
}

/// Selects the daily temperature-range line.
pub fn temperature_range_line(day: &DailyForecast) -> (r: Option<String>)
    requires
        opt_in_range(day.temperature_min),
        opt_in_range(day.temperature_max),
    ensures
        r is Some <==> (day.temperature_min is Some && day.temperature_max is Some),
        r matches Some(line) ==> Some(line@) == spec_temperature_range_line(
            day.temperature_min,
            day.temperature_max,
        ),
{
    let (lo, hi) = match (day.temperature_min, day.temperature_max) {
        (Some(lo), Some(hi)) => (lo, hi),
        _ => {
            return None;
        },
    };
    let lo_f = Temperature::celsius_to_fahrenheit(lo);
    let hi_f = Temperature::celsius_to_fahrenheit(hi);
    let mut out = String::new();
    out.append("Temperature: ");
    let a = format_fixed1(lo);
    out.append(a.as_str());
    out.append("°C to ");
    let b = format_fixed1(hi);
    out.append(b.as_str());
    out.append("°C / ");
    let c = format_fixed1(lo_f);
    out.append(c.as_str());
    out.append("°F to ");
    let d = format_fixed1(hi_f);
    out.append(d.as_str());
    out.append("°F");
    proof {
        assert(Some(out@) == spec_temperature_range_line(day.temperature_min, day.temperature_max))
            by {
            assert(out@ =~= "Temperature: "@ + fixed1_string(lo as int) + "°C to "@
                + fixed1_string(hi as int) + "°C / "@ + fixed1_string(fahrenheit_of(lo as int))
                + "°F to "@ + fixed1_string(fahrenheit_of(hi as int)) + "°F"@);
        }
    }
    Some(out)
}

/// The sun-times line: emitted only when sunrise and sunset are both
/// present, each trimmed to its clock time.
pub open spec fn spec_sun_times_line(sunrise: Option<Seq<char>>, sunset: Option<Seq<char>>)
    -> Option<Seq<char>> {
    match (sunrise, sunset) {
        (Some(rise), Some(set)) => Some(
            "Sunrise: "@ + spec_extract_time(rise) + " | Sunset: "@ + spec_extract_time(set),
        ),
        _ => None,
    }
}

/// Selects the sun-times line of a daily entry.
pub fn sun_times_line(day: &DailyForecast) -> (r: Option<String>)
    ensures
        r is Some <==> (day.sunrise is Some && day.sunset is Some),
        r matches Some(line) ==> ({
            let rise = match day.sunrise {
                Some(t) => Some(t@),
                None => None,
            };
            let set = match day.sunset {
                Some(t) => Some(t@),
                None => None,
            };
            Some(line@) == spec_sun_times_line(rise, set)
        }),
{
    let (rise, set) = match (&day.sunrise, &day.sunset) {
        (Some(rise), Some(set)) => (rise, set),
        _ => {
            return None;
        },
    };
    let mut out = String::new();
    out.append("Sunrise: ");
    let rt = extract_time(rise.as_str());
    out.append(rt.as_str());
    out.append(" | Sunset: ");
    let st = extract_time(set.as_str());
    out.append(st.as_str());
    proof {
        assert(out@ =~= "Sunrise: "@ + spec_extract_time(rise@) + " | Sunset: "@
            + spec_extract_time(set@));
    }
    Some(out)
}

/// Stateless console view helpers.
pub struct ClView;

impl ClView {
    /// The concise description of a weather condition code; total, and
    /// never empty.
    pub fn weather_code_description(code: i32) -> (r: &'static str)
        ensures
            r@ == spec_code_description(code as int),
            r@.len() > 0,
    {
        let r: &'static str = if code == 0 {
            "Clear sky"
        } else if code == 1 {
            "Mainly clear"
        } else if code == 2 {
            "Partly cloudy"
        } else if code == 3 {
            "Overcast"
        } else if code == 45 || code == 48 {
            "Fog"
        } else if code == 51 || code == 53 || code == 55 {
            "Drizzle"
        } else if code == 61 || code == 63 || code == 65 {
            "Rain"
        } else if code == 71 || code == 73 || code == 75 {
            "Snow"
        } else if code == 77 {
            "Snow grains"
        } else if 80 <= code && code <= 82 {
            "Rain showers"
        } else if code == 85 || code == 86 {
            "Snow showers"
        } else if code == 95 {
            "Thunderstorm"
        } else if code == 96 || code == 99 {
            "Thunderstorm with hail"
        } else {
            "Unknown"
        };
        proof {
            reveal_strlit("Clear sky");
            reveal_strlit("Mainly clear");
            reveal_strlit("Partly cloudy");
            reveal_strlit("Overcast");
            reveal_strlit("Fog");
            reveal_strlit("Drizzle");
            reveal_strlit("Rain");
            reveal_strlit("Snow");
            reveal_strlit("Snow grains");
            reveal_strlit("Rain showers");
            reveal_strlit("Snow showers");
            reveal_strlit("Thunderstorm");
            reveal_strlit("Thunderstorm with hail");
            reveal_strlit("Unknown");
        }
        r
    }

    /// The compass name of a wind direction given in fixed-point
    /// degrees; total over all representable magnitudes.
    pub fn wind_direction_name(degrees: i64) -> (r: &'static str)
        requires
            degrees > i64::MIN,
        ensures
            r@ == spec_compass_name(spec_compass_bucket(degrees as int)),
            r@.len() > 0,
    {
        compass_name(compass_bucket(degrees))
    }
}

} // verus!
