//! The requests to the weather service: their URLs, and what must hold of a
//! search before it is sent.

use vstd::prelude::*;
use vstd::string::StringExecFns;

use crate::constants::{GEOLOCATION_API_URL, WEATHER_API_URL};
use crate::types::user_settings::Units;
use crate::url_template::{
    fill_placeholders, placeholder_pairs, replace_url_placeholders, URLPlaceholder,
};

verus! {

/// Why a search for a city is not sent.
#[derive(Clone, Copy, Debug, PartialEq, Eq, Structural)]
pub enum RequestError {
    /// There is nothing to search for.
    EmptyQuery,
}

impl RequestError {
    /// The failure in words.
    pub fn message(&self) -> (text: String)
        ensures
            text@ == "Query cannot be empty."@,
    {
        String::from_str("Query cannot be empty.")
    }
}

/// Accepts a search text unless it is empty.
pub fn check_query(query: &str) -> (checked: Result<(), RequestError>)
    ensures
        checked is Ok <==> query@.len() > 0,
        checked is Err ==> checked == Err::<(), RequestError>(RequestError::EmptyQuery),
{
    if query.is_empty() {
        Err(RequestError::EmptyQuery)
    } else {
        Ok(())
    }
}

/// A placeholder with its value.
fn placeholder(name: &str, value: &str) -> (pair: URLPlaceholder)
    ensures
        pair@ == (name@, value@),
{
    URLPlaceholder { placeholder: String::from_str(name), value: String::from_str(value) }
}

/// The URL that asks for the current weather at the coordinates given as
/// text: the weather template with the latitude, the longitude, the key and
/// the name of the system of measurement filled in, in this order.
pub open spec fn weather_url(
    latitude: Seq<char>,
    longitude: Seq<char>,
    api_key: Seq<char>,
    units: Units,
) -> Seq<char> {
    fill_placeholders(
        WEATHER_API_URL@,
        seq![
            ("{LAT_VALUE}"@, latitude),
            ("{LON_VALUE}"@, longitude),
            ("{API_KEY}"@, api_key),
            ("{UNIT}"@, units.name_text()),
        ],
    )
}

/// Builds the URL that asks for the current weather at a place. The
/// coordinates come as the text that the URL is to show.
pub fn weather_request_url(latitude: &str, longitude: &str, api_key: &str, units: Units) -> (url:
    String)
    ensures
        url@ == weather_url(latitude@, longitude@, api_key@, units),
{
    let unit_name = units.name();
    let mut placeholders: Vec<URLPlaceholder> = Vec::new();
    placeholders.push(placeholder("{LAT_VALUE}", latitude));
    placeholders.push(placeholder("{LON_VALUE}", longitude));
    placeholders.push(placeholder("{API_KEY}", api_key));
    placeholders.push(placeholder("{UNIT}", unit_name.as_str()));
    proof {
        assert(placeholder_pairs(placeholders@) =~= seq![
            ("{LAT_VALUE}"@, latitude@),
            ("{LON_VALUE}"@, longitude@),
            ("{API_KEY}"@, api_key@),
            ("{UNIT}"@, units.name_text()),
        ]);
    }
    replace_url_placeholders(WEATHER_API_URL, placeholders.as_slice())
}

/// The URL that searches for places by name: the search template with the
/// search text and then the key filled in.
pub open spec fn geolocation_url(query: Seq<char>, api_key: Seq<char>) -> Seq<char> {
    fill_placeholders(GEOLOCATION_API_URL@, seq![("{QUERY}"@, query), ("{API_KEY}"@, api_key)])
}

/// Builds the URL that searches for places by name.
pub fn geolocation_request_url(query: &str, api_key: &str) -> (url: String)
    ensures
        url@ == geolocation_url(query@, api_key@),
{
    let mut placeholders: Vec<URLPlaceholder> = Vec::new();
    placeholders.push(placeholder("{QUERY}", query));
    placeholders.push(placeholder("{API_KEY}", api_key));
    proof {
        assert(placeholder_pairs(placeholders@) =~= seq![
            ("{QUERY}"@, query@),
            ("{API_KEY}"@, api_key@),
        ]);
    }
    replace_url_placeholders(GEOLOCATION_API_URL, placeholders.as_slice())
}

} // verus!
