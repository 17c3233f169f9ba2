//! Choices that the user makes by typing a number: a city from a numbered
//! list, and a system of measurement.

use vstd::prelude::*;
use vstd::string::StringExecFns;

use crate::types::user_settings::Units;

verus! {

/// Why a typed number chose nothing.
#[derive(Clone, Copy, Debug, PartialEq, Eq, Structural)]
pub enum SelectionError {
    /// The number is beyond the end of the list of cities.
    InvalidCityIndex,
    /// The number stands for no system of measurement.
    UnitOutOfRange,
}

impl SelectionError {
    /// The failure in words.
    pub open spec fn message_text(self) -> Seq<char> {
        match self {
            SelectionError::InvalidCityIndex => "Invalid city index."@,
            SelectionError::UnitOutOfRange => "Input is out of range!"@,
        }
    }

    /// The failure in words.
    pub fn message(&self) -> (text: String)
        ensures
            text@ == self.message_text(),
    {
        match self {
            SelectionError::InvalidCityIndex => String::from_str("Invalid city index."),
            SelectionError::UnitOutOfRange => String::from_str("Input is out of range!"),
        }
    }
}

/// The place in a list of `count` cities that the number `choice` stands for.
/// The list is shown numbered from 1, so the number is one more than the place.
pub open spec fn chosen_city(choice: usize, count: usize) -> Result<usize, SelectionError> {
    if choice > count {
        Err(SelectionError::InvalidCityIndex)
    } else {
        Ok((choice - 1) as usize)
    }
}

/// Finds the place in the list of cities that the typed number stands for.
/// The numbers start at 1; 0 stands for no place and is not asked about.
pub fn select_city(choice: usize, count: usize) -> (place: Result<usize, SelectionError>)
    requires
        choice >= 1,
    ensures
        place == chosen_city(choice, count),
        place matches Ok(index) ==> index < count,
{
    if choice > count {
        Err(SelectionError::InvalidCityIndex)
    } else {
        Ok(choice - 1)
    }
}

/// The system of measurement that a number stands for: 1 for standard, 2 for
/// metric, 3 for imperial.
pub open spec fn chosen_units(choice: usize) -> Result<Units, SelectionError> {
    if choice == 1 {
        Ok(Units::Standard)
    } else if choice == 2 {
        Ok(Units::Metric)
    } else if choice == 3 {
        Ok(Units::Imperial)
    } else {
        Err(SelectionError::UnitOutOfRange)
    }
}

/// Finds the system of measurement that the typed number stands for.
pub fn select_units(choice: usize) -> (units: Result<Units, SelectionError>)
    ensures
        units == chosen_units(choice),
{
    if choice == 1 {
        Ok(Units::Standard)
    } else if choice == 2 {
        Ok(Units::Metric)
    } else if choice == 3 {
        Ok(Units::Imperial)
    } else {
        Err(SelectionError::UnitOutOfRange)
    }
}

} // verus!
