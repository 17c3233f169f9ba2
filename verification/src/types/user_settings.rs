//! What the user has set: the API key and the units of measurement.

use vstd::prelude::*;
use vstd::string::StringExecFns;

verus! {

/// The key of the weather service, as the key file keeps it.
#[derive(Debug)]
pub struct ApiSetting {
    pub key: String,
}

/// The systems of measurement that the weather service offers.
#[derive(Clone, Copy, Debug, PartialEq, Eq, Structural)]
pub enum Units {
    Standard,
    Metric,
    Imperial,
}

impl Units {
    /// The name that the weather service knows the system by.
    pub open spec fn name_text(self) -> Seq<char> {
        match self {
            Units::Standard => "standard"@,
            Units::Metric => "metric"@,
            Units::Imperial => "imperial"@,
        }
    }

    /// The unit in which the system gives the speed of the wind.
    pub open spec fn wind_speed_text(self) -> Seq<char> {
        match self {
            Units::Standard => "m/s"@,
            Units::Metric => "m/s"@,
            Units::Imperial => "mph"@,
        }
    }

    /// The name that the weather service knows the system by.
    pub fn name(&self) -> (name: String)
        ensures
            name@ == self.name_text(),
    {
        match self {
            Units::Standard => String::from_str("standard"),
            Units::Metric => String::from_str("metric"),
            Units::Imperial => String::from_str("imperial"),
        }
    }

    /// The unit in which the system gives the speed of the wind.
    pub fn wind_speed_unit(&self) -> (unit: &'static str)
        ensures
            unit@ == self.wind_speed_text(),
    {
        match self {
            Units::Standard => "m/s",
            Units::Metric => "m/s",
            Units::Imperial => "mph",
        }
    }
}

/// The two temperature scales of the short report.
#[derive(Clone, Copy, Debug, PartialEq, Eq, Structural)]
pub enum Unit {
    /// Degrees Celsius.
    Metric,
    /// Degrees Fahrenheit.
    Imperial,
}

impl Unit {
    /// The name that the weather service knows the scale by.
    pub open spec fn name_text(self) -> Seq<char> {
        match self {
            Unit::Metric => "metric"@,
            Unit::Imperial => "imperial"@,
        }
    }

    /// The sign that follows a temperature on the scale.
    pub open spec fn symbol_text(self) -> Seq<char> {
        match self {
            Unit::Metric => "℃"@,
            Unit::Imperial => "℉"@,
        }
    }

    /// The name that people know the scale by.
    pub open spec fn scale_text(self) -> Seq<char> {
        match self {
            Unit::Metric => "Celsius"@,
            Unit::Imperial => "Fahrenheit"@,
        }
    }

    /// The scale that a stored preference stands for: 1 for Celsius, 2 for
    /// Fahrenheit, none for any other number.
    pub open spec fn of_preference(preferred_unit: i64) -> Option<Unit> {
        if preferred_unit == 1 {
            Some(Unit::Metric)
        } else if preferred_unit == 2 {
            Some(Unit::Imperial)
        } else {
            None
        }
    }

    /// The name that the weather service knows the scale by.
    pub fn name(&self) -> (name: String)
        ensures
            name@ == self.name_text(),
    {
        match self {
            Unit::Metric => String::from_str("metric"),
            Unit::Imperial => String::from_str("imperial"),
        }
    }

    /// The sign that follows a temperature on the scale.
    pub fn symbol(&self) -> (symbol: &'static str)
        ensures
            symbol@ == self.symbol_text(),
    {
        match self {
            Unit::Metric => "℃",
            Unit::Imperial => "℉",
        }
    }

    /// The name that people know the scale by.
    pub fn scale_name(&self) -> (name: &'static str)
        ensures
            name@ == self.scale_text(),
    {
        match self {
            Unit::Metric => "Celsius",
            Unit::Imperial => "Fahrenheit",
        }
    }

    /// Reads a stored preference: 1 is Celsius, 2 is Fahrenheit.
    pub fn from_preference(preferred_unit: i64) -> (unit: Option<Unit>)
        ensures
            unit == Unit::of_preference(preferred_unit),
    {
        if preferred_unit == 1 {
            Some(Unit::Metric)
        } else if preferred_unit == 2 {
            Some(Unit::Imperial)
        } else {
            None
        }
    }
}

} // verus!
