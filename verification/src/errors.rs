//! The closed error taxonomy of the weather pipeline.

use vstd::prelude::*;
use vstd::string::StringExecFns;

verus! {

/// A terminal failure of one weather query.
#[derive(Debug, Clone)]
pub enum WeatherError {
    /// The request could not be sent or timed out.
    NetworkError(String),
    /// The response body was malformed or structurally unexpected.
    ParseError(String),
    /// The geocoding service returned no results for the location.
    LocationNotFound(String),
    /// An upstream service answered with a non-success status.
    ApiError(String),
}

impl WeatherError {
    /// A human-readable account of the failure.
    pub fn message(&self) -> (r: String)
        ensures
            match self {
                WeatherError::NetworkError(m) => r@ == "Network error: "@ + m@,
                WeatherError::ParseError(m) => r@ == "Parse error: "@ + m@,
                WeatherError::LocationNotFound(l) => r@ == "Location '"@ + l@ + "' not found"@,
                WeatherError::ApiError(m) => r@ == "API error: "@ + m@,
            },
    {
        let mut out = String::new();
        match self {
            WeatherError::NetworkError(m) => {
                out.append("Network error: ");
                out.append(m.as_str());
            },
            WeatherError::ParseError(m) => {
                out.append("Parse error: ");
                out.append(m.as_str());
            },
            WeatherError::LocationNotFound(l) => {
                out.append("Location '");
                out.append(l.as_str());
                out.append("' not found");
            },
            WeatherError::ApiError(m) => {
                out.append("API error: ");
                out.append(m.as_str());
            },
        }
        proof {
            assert(Seq::<char>::empty() + "Network error: "@ =~= "Network error: "@);
            assert(Seq::<char>::empty() + "Parse error: "@ =~= "Parse error: "@);
            assert(Seq::<char>::empty() + "Location '"@ =~= "Location '"@);
            assert(Seq::<char>::empty() + "API error: "@ =~= "API error: "@);
        }
        out
    }
}

} // verus!
