//! Service endpoints and the fixed limits of a query.

use vstd::prelude::*;

verus! {

/// Geocoding service resolving location names to coordinates.
pub const NOMINATIM_API_URL: &'static str = "https://nominatim.openstreetmap.org/search";

/// Forecast service answering weather queries by coordinates.
pub const OPEN_METEO_API_URL: &'static str = "https://api.open-meteo.com/v1/forecast";

/// User agent sent with every request; the geocoding service requires
/// one.
pub const USER_AGENT: &'static str = "RustWeatherApp/1.0";

/// Number of hourly forecast entries kept.
pub const HOURLY_FORECAST_LIMIT: usize = 24;

/// Number of days requested from the forecast service.
pub const DAILY_FORECAST_DAYS: usize = 7;

} // verus!
