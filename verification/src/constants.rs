//! Names and URL templates that the whole program shares.

use vstd::prelude::*;

verus! {

/// Suffix of the JSON file that keeps the API key.
pub const API_JSON_NAME: &'static str = "api";

/// Suffix of the JSON file that keeps the user's settings.
pub const USER_SETTING_JSON_NAME: &'static str = "setting";

/// Template of the request for the current weather at a place. Its
/// placeholders: `{LAT_VALUE}` and `{LON_VALUE}` for the coordinates,
/// `{API_KEY}` for the key and `{UNIT}` for `standard`, `metric` or `imperial`.
pub const WEATHER_API_URL: &'static str =
    "https://api.openweathermap.org/data/2.5/weather?lat={LAT_VALUE}&lon={LON_VALUE}&appid={API_KEY}&units={UNIT}";

/// Template of the request that looks a place up by name. Its placeholders:
/// `{QUERY}` for the name and `{API_KEY}` for the key.
pub const GEOLOCATION_API_URL: &'static str =
    "http://api.openweathermap.org/geo/1.0/direct?q={QUERY}&limit=10&appid={API_KEY}";

} // verus!
