//! The small picture that goes with a kind of weather.

use vstd::prelude::*;
use vstd::string::StringExecFns;

use crate::same_text;

verus! {

/// The picture for an icon code of the weather service, followed by a space;
/// nothing for a code that is not known. The codes end in `d` by day and in
/// `n` by night. Each picture is written out as the character sequence that
/// the program prints for it.
pub open spec fn emoji_text(icon_id: Seq<char>) -> Seq<char> {
    if icon_id == "01d"@ {
        "â˜€ï¸ "@
    } else if icon_id == "02d"@ {
        "â›…ï¸ "@
    } else if icon_id == "03d"@ || icon_id == "04d"@ || icon_id == "03n"@ {
        "â˜ï¸ "@
    } else if icon_id == "09d"@ || icon_id == "09n"@ {
        "ğŸŒ§ï¸ "@
    } else if icon_id == "10d"@ {
        "ğŸŒ¦ï¸ "@
    } else if icon_id == "11d"@ || icon_id == "11n"@ {
        "â›ˆï¸ "@
    } else if icon_id == "13d"@ || icon_id == "13n"@ {
        "â„ï¸ "@
    } else if icon_id == "50d"@ {
        "ğŸŒ¨ï¸ "@
    } else if icon_id == "01n"@ {
        "ğŸŒ‘ "@
    } else if icon_id == "02n"@ {
        "ğŸŒ‘â˜ï¸ "@
    } else if icon_id == "04n"@ {
        "â˜ï¸â˜ï¸ "@
    } else if icon_id == "10n"@ {
        "â˜”ï¸ "@
    } else {
        Seq::empty()
    }
}

/// Gives the picture for an icon code of the weather service, followed by a
/// space, or the empty string for a code that is not known.
pub fn get_emoji(icon_id: &str) -> (emoji: String)
    ensures
        emoji@ == emoji_text(icon_id@),
{
    if same_text(icon_id, "01d") {
        String::from_str("â˜€ï¸ ")
    } else if same_text(icon_id, "02d") {
        String::from_str("â›…ï¸ ")
    } else if same_text(icon_id, "03d") || same_text(icon_id, "04d") || same_text(icon_id, "03n") {
        String::from_str("â˜ï¸ ")
    } else if same_text(icon_id, "09d") || same_text(icon_id, "09n") {
        String::from_str("ğŸŒ§ï¸ ")
    } else if same_text(icon_id, "10d") {
        String::from_str("ğŸŒ¦ï¸ ")
    } else if same_text(icon_id, "11d") || same_text(icon_id, "11n") {
        String::from_str("â›ˆï¸ ")
    } else if same_text(icon_id, "13d") || same_text(icon_id, "13n") {
        String::from_str("â„ï¸ ")
    } else if same_text(icon_id, "50d") {
        String::from_str("ğŸŒ¨ï¸ ")
    } else if same_text(icon_id, "01n") {
        String::from_str("ğŸŒ‘ ")
    } else if same_text(icon_id, "02n") {
        String::from_str("ğŸŒ‘â˜ï¸ ")
    } else if same_text(icon_id, "04n") {
        String::from_str("â˜ï¸â˜ï¸ ")
    } else if same_text(icon_id, "10n") {
        String::from_str("â˜”ï¸ ")
    } else {
        String::new()
    }
}

} // verus!
