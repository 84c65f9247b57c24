//! The response mapper: zipping the raw parallel sequences positionally
//! into the domain model.
//!
//! At each position, a field sequence shorter than the time sequence
//! yields an absent value rather than an error; hourly output is capped
//! at `HOURLY_FORECAST_LIMIT` and daily output at
//! `DAILY_FORECAST_DAYS`; positional order is preserved.

use vstd::prelude::*;

use crate::constants::{DAILY_FORECAST_DAYS, HOURLY_FORECAST_LIMIT};
use crate::errors::WeatherError;
use crate::forecast::{RawCurrent, RawDaily, RawForecast, RawHourly};
use crate::models::{
    Coordinates, CurrentWeather, DailyForecast, HourlyForecast, WeatherData, WeatherInfo,
};
use vstd::string::StringExecFns;

verus! {

/// The entry of a field sequence at a position, absent when the
/// sequence is too short.
pub open spec fn opt_at<T>(s: Seq<Option<T>>, i: int) -> Option<T> {
    if 0 <= i < s.len() {
        s[i]
    } else {
        None
    }
}

/// Looks a field sequence up at a position, tolerating short sequences.
fn get_opt<T: Copy>(v: &Vec<Option<T>>, i: usize) -> (r: Option<T>)
    ensures
        r == opt_at(v@, i as int),
{
    if i < v.len() {
        v[i]
    } else {
        None
    }
}

/// Looks a string field sequence up at a position, tolerating short
/// sequences.
fn get_opt_string(v: &Vec<Option<String>>, i: usize) -> (r: Option<String>)
    ensures
        r == opt_at(v@, i as int),
{
    if i < v.len() {
        match &v[i] {
            Some(s) => Some(s.clone()),
            None => None,
        }
    } else {
        None
    }
}

/// The current block carried into the domain model field by field.
pub open spec fn spec_map_current(c: RawCurrent) -> CurrentWeather {
    CurrentWeather {
        temperature: c.temperature_2m,
        apparent_temperature: c.apparent_temperature,
        humidity: c.relative_humidity_2m,
        precipitation: c.precipitation,
        weather_code: c.weather_code,
        wind_speed: c.wind_speed_10m,
        wind_direction: c.wind_direction_10m,
        cloud_cover: c.cloud_cover,
        pressure: c.surface_pressure,
        visibility: c.visibility,
    }
}

/// Maps the raw current block to the domain model.
pub fn parse_current_weather(current: &RawCurrent) -> (r: CurrentWeather)
    ensures
        r == spec_map_current(*current),
        current.wf() ==> r.wf(),
{
    CurrentWeather {
        temperature: current.temperature_2m,
        apparent_temperature: current.apparent_temperature,
        humidity: current.relative_humidity_2m,
        precipitation: current.precipitation,
        weather_code: current.weather_code,
        wind_speed: current.wind_speed_10m,
        wind_direction: current.wind_direction_10m,
        cloud_cover: current.cloud_cover,
        pressure: current.surface_pressure,
        visibility: current.visibility,
    }
}

/// How many hourly entries the mapping produces: the length of the time
/// sequence, capped at `HOURLY_FORECAST_LIMIT`.
pub open spec fn spec_hourly_len(h: RawHourly) -> int {
    if h.time@.len() < HOURLY_FORECAST_LIMIT {
        h.time@.len() as int
    } else {
        HOURLY_FORECAST_LIMIT as int
    }
}

/// The positional zip of an hourly block: entry `i` pairs the time at
/// `i` with each field sequence's entry at `i`, absent when that
/// sequence is too short.
pub open spec fn spec_map_hourly(h: RawHourly) -> Seq<HourlyForecast> {
    Seq::new(
        spec_hourly_len(h) as nat,
        |i: int|
            HourlyForecast {
                time: h.time@[i],
                temperature: opt_at(h.temperature_2m@, i),
                apparent_temperature: opt_at(h.apparent_temperature@, i),
                precipitation_probability: opt_at(h.precipitation_probability@, i),
                precipitation: opt_at(h.precipitation@, i),
                weather_code: opt_at(h.weather_code@, i),
                wind_speed: opt_at(h.wind_speed_10m@, i),
                humidity: opt_at(h.relative_humidity_2m@, i),
            },
    )
}

/// Maps an optional raw hourly block to the hourly forecast sequence;
/// absence yields an empty sequence.
pub fn parse_hourly_forecasts(hourly: Option<RawHourly>) -> (r: Vec<HourlyForecast>)
    ensures
        match hourly {
            None => r@.len() == 0,
            Some(h) => r@ == spec_map_hourly(h),
        },
        r@.len() <= HOURLY_FORECAST_LIMIT,
        (hourly matches Some(h) && h.wf()) ==> forall|i: int|
            0 <= i < r@.len() ==> (#[trigger] r@[i]).wf(),
{
    let h = match hourly {
        None => {
            return Vec::new();
        },
        Some(h) => h,
    };
    let count: usize = if h.time.len() < HOURLY_FORECAST_LIMIT {
        h.time.len()
    } else {
        HOURLY_FORECAST_LIMIT
    };
    let mut out: Vec<HourlyForecast> = Vec::new();
    let mut i: usize = 0;
    while i < count
        invariant
            i <= count,
            count == spec_hourly_len(h),
            count <= h.time@.len(),
            out@ =~= spec_map_hourly(h).subrange(0, i as int),
        decreases count - i,
    {
        let entry = HourlyForecast {
            time: h.time[i].clone(),
            temperature: get_opt(&h.temperature_2m, i),
            apparent_temperature: get_opt(&h.apparent_temperature, i),
            precipitation_probability: get_opt(&h.precipitation_probability, i),
            precipitation: get_opt(&h.precipitation, i),
            weather_code: get_opt(&h.weather_code, i),
            wind_speed: get_opt(&h.wind_speed_10m, i),
            humidity: get_opt(&h.relative_humidity_2m, i),
        };
        proof {
            assert(entry == spec_map_hourly(h)[i as int]);
        }
        out.push(entry);
        proof {
            assert(out@ =~= spec_map_hourly(h).subrange(0, i + 1));
        }
        i = i + 1;
    }
    proof {
        assert(spec_map_hourly(h).subrange(0, count as int) =~= spec_map_hourly(h));
    }
    out
}

/// How many daily entries the mapping produces: the length of the time
/// sequence, capped at `DAILY_FORECAST_DAYS`.
pub open spec fn spec_daily_len(d: RawDaily) -> int {
    if d.time@.len() < DAILY_FORECAST_DAYS {
        d.time@.len() as int
    } else {
        DAILY_FORECAST_DAYS as int
    }
}

/// The positional zip of a daily block: one entry per reported day up
/// to the requested span, each field sequence consulted at the shared
/// position and absent when too short.
pub open spec fn spec_map_daily(d: RawDaily) -> Seq<DailyForecast> {
    Seq::new(
        spec_daily_len(d) as nat,
        |i: int|
            DailyForecast {
                date: d.time@[i],
                temperature_max: opt_at(d.temperature_2m_max@, i),
                temperature_min: opt_at(d.temperature_2m_min@, i),
                weather_code: opt_at(d.weather_code@, i),
                precipitation_sum: opt_at(d.precipitation_sum@, i),
                precipitation_probability: opt_at(d.precipitation_probability_max@, i),
                wind_speed_max: opt_at(d.wind_speed_10m_max@, i),
                sunrise: opt_at(d.sunrise@, i),
                sunset: opt_at(d.sunset@, i),
            },
    )
}

/// Maps an optional raw daily block to the daily forecast sequence;
/// absence yields an empty sequence.
pub fn parse_daily_forecasts(daily: Option<RawDaily>) -> (r: Vec<DailyForecast>)
    ensures
        match daily {
            None => r@.len() == 0,
            Some(d) => r@ == spec_map_daily(d),
        },
        r@.len() <= DAILY_FORECAST_DAYS,
        (daily matches Some(d) && d.wf()) ==> forall|i: int|
            0 <= i < r@.len() ==> (#[trigger] r@[i]).wf(),
{
    let d = match daily {
        None => {
            return Vec::new();
        },
        Some(d) => d,
    };
    let mut out: Vec<DailyForecast> = Vec::new();
    let mut i: usize = 0;
    let count: usize = if d.time.len() < DAILY_FORECAST_DAYS {
        d.time.len()
    } else {
        DAILY_FORECAST_DAYS
    };
    while i < count
        invariant
            i <= count,
            count == spec_daily_len(d),
            count <= d.time@.len(),
            out@ =~= spec_map_daily(d).subrange(0, i as int),
        decreases count - i,
    {
        let entry = DailyForecast {
            date: d.time[i].clone(),
            temperature_max: get_opt(&d.temperature_2m_max, i),
            temperature_min: get_opt(&d.temperature_2m_min, i),
            weather_code: get_opt(&d.weather_code, i),
            precipitation_sum: get_opt(&d.precipitation_sum, i),
            precipitation_probability: get_opt(&d.precipitation_probability_max, i),
            wind_speed_max: get_opt(&d.wind_speed_10m_max, i),
            sunrise: get_opt_string(&d.sunrise, i),
            sunset: get_opt_string(&d.sunset, i),
        };
        proof {
            assert(entry == spec_map_daily(d)[i as int]);
        }
        out.push(entry);
        proof {
            assert(out@ =~= spec_map_daily(d).subrange(0, i + 1));
        }
        i = i + 1;
    }
    proof {
        assert(spec_map_daily(d).subrange(0, count as int) =~= spec_map_daily(d));
    }
    out
}

/// Maps a whole raw payload to the domain model, applying the hourly
/// cap and keeping positional order.
pub fn map_forecast(raw: RawForecast) -> (r: WeatherData)
    ensures
        r.current == spec_map_current(raw.current),
        match raw.hourly {
            None => r.hourly@.len() == 0,
            Some(h) => r.hourly@ == spec_map_hourly(h),
        },
        match raw.daily {
            None => r.daily@.len() == 0,
            Some(d) => r.daily@ == spec_map_daily(d),
        },
        r.hourly_capped(),
        r.daily_capped(),
        raw.wf() ==> r.current.wf() && (forall|i: int|
            0 <= i < r.hourly@.len() ==> (#[trigger] r.hourly@[i]).wf()) && (forall|i: int|
            0 <= i < r.daily@.len() ==> (#[trigger] r.daily@[i]).wf()),
{
    let current = parse_current_weather(&raw.current);
    let hourly = parse_hourly_forecasts(raw.hourly);
    let daily = parse_daily_forecasts(raw.daily);
    WeatherData { current, hourly, daily }
}

/// Bundles a finished query into its terminal artifact.
pub fn assemble_weather_info(location: &str, coords: Coordinates, raw: RawForecast) -> (r:
    WeatherInfo)
    ensures
        r.location@ == location@,
        r.latitude == coords.latitude,
        r.longitude == coords.longitude,
        r.weather_data.current == spec_map_current(raw.current),
        match raw.hourly {
            None => r.weather_data.hourly@.len() == 0,
            Some(h) => r.weather_data.hourly@ == spec_map_hourly(h),
        },
        match raw.daily {
            None => r.weather_data.daily@.len() == 0,
            Some(d) => r.weather_data.daily@ == spec_map_daily(d),
        },
        r.weather_data.hourly_capped(),
        r.weather_data.daily_capped(),
{
    let data = map_forecast(raw);
    WeatherInfo::new(String::from_str(location), coords.latitude, coords.longitude, data)
}

/// The zip's tolerance stated on its own: however the parallel
/// sequences relate, the hourly output length is exactly the capped
/// time-sequence length, and any position at or past the end of a
/// field sequence carries an absent value, never a failure.
pub proof fn lemma_hourly_zip_tolerates_short_fields(h: RawHourly)
    ensures
        spec_map_hourly(h).len() == spec_hourly_len(h),
        forall|i: int|
            0 <= i < spec_map_hourly(h).len() && i >= h.temperature_2m@.len()
                ==> (#[trigger] spec_map_hourly(h)[i]).temperature is None,
        forall|i: int|
            0 <= i < spec_map_hourly(h).len() && i >= h.relative_humidity_2m@.len()
                ==> (#[trigger] spec_map_hourly(h)[i]).humidity is None,
{
}

} // verus!
