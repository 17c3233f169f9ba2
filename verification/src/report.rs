//! The lines of a weather report.

use vstd::prelude::*;
use vstd::string::StringExecFns;

use crate::digits::{decimal, decimal_text};
use crate::emoji::{emoji_text, get_emoji};
use crate::events::{label_text, EventPair, PairModel};
use crate::types::response_types::Weather;
use crate::types::user_settings::{Unit, Units};

verus! {

/// The measurements of a report. Those that the weather service gives with
/// a fraction come as the text that the report is to show.
#[derive(Debug)]
pub struct Figures {
    pub temperature: String,
    pub highest: String,
    pub lowest: String,
    pub wind_speed: String,
    /// Humidity in percent.
    pub humidity: u32,
    /// Pressure in hectopascal.
    pub pressure: u32,
}

/// The line that names the place: `Toronto (CA)`.
pub open spec fn place_line(city_name: Seq<char>, country: Seq<char>) -> Seq<char> {
    city_name + " ("@ + country + ")"@
}

/// The line of the temperature and the condition: `9.57° / Clouds (overcast clouds)`.
pub open spec fn condition_line(
    temperature: Seq<char>,
    condition: Seq<char>,
    description: Seq<char>,
) -> Seq<char> {
    temperature + "° / "@ + condition + " ("@ + description + ")"@
}

/// The line of the day's highest and lowest temperature: `H: 9.57°, L: 9.57°`.
pub open spec fn range_line(highest: Seq<char>, lowest: Seq<char>) -> Seq<char> {
    "H: "@ + highest + "°, L: "@ + lowest + "°"@
}

/// The line of the wind, after an empty line: `- Wind Speed: 4.59 m/s,`.
pub open spec fn wind_line(wind_speed: Seq<char>, units: Units) -> Seq<char> {
    "\n- Wind Speed: "@ + wind_speed + " "@ + units.wind_speed_text() + ","@
}

/// The line of the humidity: `- Humidity: 61 %,`.
pub open spec fn humidity_line(humidity: nat) -> Seq<char> {
    "- Humidity: "@ + decimal_text(humidity) + " %,"@
}

/// The line of the pressure: `- Pressure: 1017 hPa`.
pub open spec fn pressure_line(pressure: nat) -> Seq<char> {
    "- Pressure: "@ + decimal_text(pressure) + " hPa"@
}

/// The line of the event that comes next: `- Sunrise: 06:22 AM`.
pub open spec fn next_event_line(label: Seq<char>) -> Seq<char> {
    "- "@ + label
}

/// The line of the event after that: `  (Sunset: 08:09 PM)`.
pub open spec fn following_event_line(label: Seq<char>) -> Seq<char> {
    "  ("@ + label + ")"@
}

/// The nine lines of a report: an empty one, the place, the condition, the
/// range of the temperature, the wind, the humidity, the pressure, and the
/// two events of the day, the next one first.
pub open spec fn report_text(
    city_name: Seq<char>,
    country: Seq<char>,
    weather: Weather,
    figures: Figures,
    units: Units,
    events: PairModel,
) -> Seq<Seq<char>> {
    seq![
        Seq::empty(),
        place_line(city_name, country),
        condition_line(figures.temperature@, weather.main@, weather.description@),
        range_line(figures.highest@, figures.lowest@),
        wind_line(figures.wind_speed@, units),
        humidity_line(figures.humidity as nat),
        pressure_line(figures.pressure as nat),
        next_event_line(label_text(events.next)),
        following_event_line(label_text(events.following)),
    ]
}

/// The lines as characters.
pub open spec fn texts_of(lines: Seq<String>) -> Seq<Seq<char>> {
    lines.map_values(|line: String| line@)
}

/// Writes the lines of a report on the weather at a place.
pub fn report_lines(
    city_name: &str,
    country: &str,
    weather: &Weather,
    figures: &Figures,
    units: Units,
    events: &EventPair,
) -> (lines: Vec<String>)
    ensures
        texts_of(lines@) == report_text(city_name@, country@, *weather, *figures, units, events@),
{
    let mut lines: Vec<String> = Vec::new();
    lines.push(String::new());
    lines.push(String::from_str(city_name).concat(" (").concat(country).concat(")"));
    lines.push(
        String::from_str(figures.temperature.as_str()).concat("° / ").concat(
            weather.main.as_str(),
        ).concat(" (").concat(weather.description.as_str()).concat(")"),
    );
    lines.push(
        String::from_str("H: ").concat(figures.highest.as_str()).concat("°, L: ").concat(
            figures.lowest.as_str(),
        ).concat("°"),
    );
    lines.push(
        String::from_str("\n- Wind Speed: ").concat(figures.wind_speed.as_str()).concat(" ").concat(
            units.wind_speed_unit(),
        ).concat(","),
    );
    lines.push(
        String::from_str("- Humidity: ").concat(decimal(figures.humidity).as_str()).concat(" %,"),
    );
    lines.push(
        String::from_str("- Pressure: ").concat(decimal(figures.pressure).as_str()).concat(" hPa"),
    );
    lines.push(String::from_str("- ").concat(events.next().label().as_str()));
    lines.push(String::from_str("  (").concat(events.following().label().as_str()).concat(")"));
    proof {
        assert(texts_of(lines@) =~= report_text(
            city_name@,
            country@,
            *weather,
            *figures,
            units,
            events@,
        ));
    }
    lines
}

/// The one line of the short report: the temperature with the sign of its
/// scale, then the picture of the icon, the condition and its description:
/// `21.4℃ / ` followed by the picture and `Clear (clear sky)`.
pub open spec fn short_report_text(
    temperature: Seq<char>,
    unit: Unit,
    icon_id: Seq<char>,
    condition: Seq<char>,
    description: Seq<char>,
) -> Seq<char> {
    temperature + unit.symbol_text() + " / "@ + emoji_text(icon_id) + condition + " ("@
        + description + ")"@
}

/// Writes the one line of the short report.
pub fn short_report_line(
    temperature: &str,
    unit: Unit,
    icon_id: &str,
    condition: &str,
    description: &str,
) -> (line: String)
    ensures
        line@ == short_report_text(temperature@, unit, icon_id@, condition@, description@),
{
    let emoji = get_emoji(icon_id);
    String::from_str(temperature).concat(unit.symbol()).concat(" / ").concat(
        emoji.as_str(),
    ).concat(condition).concat(" (").concat(description).concat(")")
}

} // verus!
