//! The weather data source abstraction: anything that can answer a
//! location query with a complete `WeatherInfo`.
//!
//! The live implementation performs network requests and lives with the
//! surrounding application; the fixed-data implementation here answers
//! from values it was built with, for testing and offline use.

use vstd::prelude::*;
use vstd::string::StringExecFns;

use crate::errors::WeatherError;
use crate::models::{clone_weather_data, Coordinates, WeatherData, WeatherInfo};

verus! {

/// A source of weather information for a named location.
pub trait WeatherRepository {
    /// Resolves a location and produces its weather, or a terminal
    /// error of the query.
    fn fetch_weather(&self, location: &str) -> Result<WeatherInfo, WeatherError>;
}

/// A data source answering every query from fixed coordinates and
/// weather data.
pub struct FixedWeatherRepository {
    /// The coordinates reported for every location.
    pub coordinates: Coordinates,
    /// The weather reported for every location.
    pub weather: WeatherData,
}

impl FixedWeatherRepository {
    /// Answers a query from the stored values, under the queried
    /// location's name.
    pub fn respond(&self, location: &str) -> (r: WeatherInfo)
        ensures
            r.location@ == location@,
            r.latitude == self.coordinates.latitude,
            r.longitude == self.coordinates.longitude,
            r.weather_data.current == self.weather.current,
            r.weather_data.hourly@ == self.weather.hourly@,
            r.weather_data.daily@ == self.weather.daily@,
    {
        let data = clone_weather_data(&self.weather);
        WeatherInfo::new(
            String::from_str(location),
            self.coordinates.latitude,
            self.coordinates.longitude,
            data,
        )
    }
}

impl WeatherRepository for FixedWeatherRepository {
    fn fetch_weather(&self, location: &str) -> (r: Result<WeatherInfo, WeatherError>)
        ensures
            r matches Ok(w) && w.location@ == location@ && w.latitude
                == self.coordinates.latitude && w.longitude == self.coordinates.longitude
                && w.weather_data.current == self.weather.current && w.weather_data.hourly@
                == self.weather.hourly@ && w.weather_data.daily@ == self.weather.daily@,
    {
        Ok(self.respond(location))
    }
}

} // verus!
