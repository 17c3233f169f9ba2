//! Parts of the weather service's answer for the current weather.

use vstd::prelude::*;

verus! {

/// One weather condition of the answer.
#[derive(Debug)]
pub struct Weather {
    pub id: Option<u32>,
    /// The group of the condition, such as `Clouds`.
    pub main: String,
    /// The condition within its group, such as `overcast clouds`.
    pub description: String,
    /// The code of the icon that goes with the condition.
    pub icon: Option<String>,
}

/// How much of the sky is covered.
#[derive(Clone, Copy, Debug)]
pub struct Clouds {
    /// Cloudiness in percent.
    pub all: Option<u32>,
}

/// What the service tells of the place itself.
#[derive(Debug)]
pub struct Sys {
    pub type_: Option<u32>,
    pub id: Option<u32>,
    pub message: Option<String>,
    pub country: Option<String>,
    /// Sunrise, in seconds since the epoch.
    pub sunrise: u32,
    /// Sunset, in seconds since the epoch.
    pub sunset: u32,
}

} // verus!
