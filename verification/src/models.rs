//! The domain model a weather query produces.
//!
//! All measurements are metric and carried as fixed-point ten-thousandths
//! (see `fixed`).  A field missing from the upstream payload is `None`,
//! never a sentinel number.

use vstd::prelude::*;

verus! {

/// Whether an optional quantity stays within the magnitude the scaling
/// arithmetic admits.
pub open spec fn opt_in_range(v: Option<i64>) -> bool {
    match v {
        None => true,
        Some(x) => -crate::fixed::FIXED_MAG_LIMIT <= x <= crate::fixed::FIXED_MAG_LIMIT,
    }
}

/// Geographic coordinates, in fixed-point degrees.
#[derive(Debug, Clone, Copy)]
pub struct Coordinates {
    /// Latitude in ten-thousandths of a degree.
    pub latitude: i64,
    /// Longitude in ten-thousandths of a degree.
    pub longitude: i64,
}

/// Current weather conditions; every field is independently optional.
#[derive(Debug, Clone, Copy)]
pub struct CurrentWeather {
    /// Temperature in Celsius.
    pub temperature: Option<i64>,
    /// Feels-like temperature in Celsius.
    pub apparent_temperature: Option<i64>,
    /// Relative humidity percentage.
    pub humidity: Option<i64>,
    /// Precipitation amount in millimeters.
    pub precipitation: Option<i64>,
    /// Weather condition code (WMO code).
    pub weather_code: Option<i32>,
    /// Wind speed in kilometers per hour.
    pub wind_speed: Option<i64>,
    /// Wind direction in degrees.
    pub wind_direction: Option<i64>,
    /// Cloud cover percentage.
    pub cloud_cover: Option<i64>,
    /// Atmospheric pressure in hectopascals.
    pub pressure: Option<i64>,
    /// Visibility in meters.
    pub visibility: Option<i64>,
}

impl CurrentWeather {
    /// Every present quantity is within the representable magnitude.
    pub open spec fn wf(&self) -> bool {
        opt_in_range(self.temperature) && opt_in_range(self.apparent_temperature) && opt_in_range(
            self.humidity,
        ) && opt_in_range(self.precipitation) && opt_in_range(self.wind_speed) && opt_in_range(
            self.wind_direction,
        ) && opt_in_range(self.cloud_cover) && opt_in_range(self.pressure) && opt_in_range(
            self.visibility,
        )
    }
}

/// One hourly forecast entry.
#[derive(Debug, Clone)]
pub struct HourlyForecast {
    /// Time of the forecast (ISO 8601).
    pub time: String,
    /// Temperature in Celsius.
    pub temperature: Option<i64>,
    /// Feels-like temperature in Celsius.
    pub apparent_temperature: Option<i64>,
    /// Precipitation probability percentage.
    pub precipitation_probability: Option<i64>,
    /// Precipitation amount in millimeters.
    pub precipitation: Option<i64>,
    /// Weather condition code.
    pub weather_code: Option<i32>,
    /// Wind speed in kilometers per hour.
    pub wind_speed: Option<i64>,
    /// Relative humidity percentage.
    pub humidity: Option<i64>,
}

impl HourlyForecast {
    /// Every present quantity is within the representable magnitude.
    pub open spec fn wf(&self) -> bool {
        opt_in_range(self.temperature) && opt_in_range(self.apparent_temperature) && opt_in_range(
            self.precipitation_probability,
        ) && opt_in_range(self.precipitation) && opt_in_range(self.wind_speed) && opt_in_range(
            self.humidity,
        )
    }
}

/// One daily forecast entry.
#[derive(Debug, Clone)]
pub struct DailyForecast {
    /// Date of the forecast (ISO 8601).
    pub date: String,
    /// Maximum temperature in Celsius.
    pub temperature_max: Option<i64>,
    /// Minimum temperature in Celsius.
    pub temperature_min: Option<i64>,
    /// Weather condition code.
    pub weather_code: Option<i32>,
    /// Total precipitation in millimeters.
    pub precipitation_sum: Option<i64>,
    /// Precipitation probability percentage.
    pub precipitation_probability: Option<i64>,
    /// Maximum wind speed in kilometers per hour.
    pub wind_speed_max: Option<i64>,
    /// Sunrise time (ISO 8601).
    pub sunrise: Option<String>,
    /// Sunset time (ISO 8601).
    pub sunset: Option<String>,
}

impl DailyForecast {
    /// Every present quantity is within the representable magnitude.
    pub open spec fn wf(&self) -> bool {
        opt_in_range(self.temperature_max) && opt_in_range(self.temperature_min) && opt_in_range(
            self.precipitation_sum,
        ) && opt_in_range(self.precipitation_probability) && opt_in_range(self.wind_speed_max)
    }
}

/// Complete weather data for one location.
#[derive(Debug, Clone)]
pub struct WeatherData {
    /// Current conditions.
    pub current: CurrentWeather,
    /// Hourly forecasts, positional order preserved from upstream.
    pub hourly: Vec<HourlyForecast>,
    /// Daily forecasts, positional order preserved from upstream.
    pub daily: Vec<DailyForecast>,
}

impl WeatherData {
    /// The hourly sequence never exceeds its configured cap.
    pub open spec fn hourly_capped(&self) -> bool {
        self.hourly@.len() <= crate::constants::HOURLY_FORECAST_LIMIT
    }

    /// The daily sequence never exceeds the requested span.
    pub open spec fn daily_capped(&self) -> bool {
        self.daily@.len() <= crate::constants::DAILY_FORECAST_DAYS
    }
}

/// Copies weather data value for value.
pub fn clone_weather_data(w: &WeatherData) -> (r: WeatherData)
    ensures
        r.current == w.current,
        r.hourly@ == w.hourly@,
        r.daily@ == w.daily@,
{
    let current = w.current;
    let mut hourly: Vec<HourlyForecast> = Vec::new();
    let mut i: usize = 0;
    while i < w.hourly.len()
        invariant
            i <= w.hourly@.len(),
            hourly@ =~= w.hourly@.subrange(0, i as int),
        decreases w.hourly@.len() - i,
    {
        let e = &w.hourly[i];
        let entry = HourlyForecast {
            time: e.time.clone(),
            temperature: e.temperature,
            apparent_temperature: e.apparent_temperature,
            precipitation_probability: e.precipitation_probability,
            precipitation: e.precipitation,
            weather_code: e.weather_code,
            wind_speed: e.wind_speed,
            humidity: e.humidity,
        };
        proof {
            assert(entry == w.hourly@[i as int]);
        }
        hourly.push(entry);
        proof {
            assert(hourly@ =~= w.hourly@.subrange(0, i + 1));
        }
        i = i + 1;
    }
    let mut daily: Vec<DailyForecast> = Vec::new();
    let mut j: usize = 0;
    while j < w.daily.len()
        invariant
            j <= w.daily@.len(),
            daily@ =~= w.daily@.subrange(0, j as int),
        decreases w.daily@.len() - j,
    {
        let e = &w.daily[j];
        let sunrise = match &e.sunrise {
            Some(s) => Some(s.clone()),
            None => None,
        };
        let sunset = match &e.sunset {
            Some(s) => Some(s.clone()),
            None => None,
        };
        let entry = DailyForecast {
            date: e.date.clone(),
            temperature_max: e.temperature_max,
            temperature_min: e.temperature_min,
            weather_code: e.weather_code,
            precipitation_sum: e.precipitation_sum,
            precipitation_probability: e.precipitation_probability,
            wind_speed_max: e.wind_speed_max,
            sunrise,
            sunset,
        };
        proof {
            assert(entry == w.daily@[j as int]);
        }
        daily.push(entry);
        proof {
            assert(daily@ =~= w.daily@.subrange(0, j + 1));
        }
        j = j + 1;
    }
    proof {
        assert(hourly@ =~= w.hourly@);
        assert(daily@ =~= w.daily@);
    }
    WeatherData { current, hourly, daily }
}

/// The terminal artifact of one query: a location, its coordinates and
/// its weather, immutable after construction.
#[derive(Debug, Clone)]
pub struct WeatherInfo {
    /// The location name as the caller gave it.
    pub location: String,
    /// Latitude in ten-thousandths of a degree.
    pub latitude: i64,
    /// Longitude in ten-thousandths of a degree.
    pub longitude: i64,
    /// The weather data for this location.
    pub weather_data: WeatherData,
}

impl WeatherInfo {
    /// Bundles a finished query result.
    pub fn new(location: String, latitude: i64, longitude: i64, weather_data: WeatherData) -> (r:
        WeatherInfo)
        ensures
            r.location == location,
            r.latitude == latitude,
            r.longitude == longitude,
            r.weather_data == weather_data,
    {
        WeatherInfo { location, latitude, longitude, weather_data }
    }
}

} // verus!
