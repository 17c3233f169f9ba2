//! Building blocks of a command-line weather report: which of sunrise and
//! sunset comes next at a place with a fixed UTC offset, how each is shown,
//! and the names, messages and URLs that the program around them uses.

pub mod answers;
pub mod api_key;
pub mod clock;
pub mod constants;
pub mod digits;
pub mod emoji;
pub mod events;
pub mod program_info;
pub mod report;
pub mod requests;
pub mod selection;
pub mod types;
pub mod url_template;

pub use emoji::get_emoji;
pub use url_template::{replace_url_placeholders, URLPlaceholder};

use vstd::prelude::*;
use vstd::string::StringExecFns;

verus! {

/// The name of the JSON file with the given suffix.
pub open spec fn json_file_name(suffix: Seq<char>) -> Seq<char> {
    "weather-cli-"@ + suffix + ".json"@
}

/// Completes the name of a JSON file: `api` gives `weather-cli-api.json`.
pub fn make_json_file_name(suffix: &str) -> (name: String)
    ensures
        name@ == json_file_name(suffix@),
{
    String::from_str("weather-cli-").concat(suffix).concat(".json")
}

/// Where the JSON file with the given suffix lies in a directory.
pub open spec fn json_file_location(directory: Seq<char>, suffix: Seq<char>) -> Seq<char> {
    directory + "/"@ + json_file_name(suffix)
}

/// The path of the JSON file with the given suffix in a directory.
pub fn json_file_path(directory: &str, suffix: &str) -> (path: String)
    ensures
        path@ == json_file_location(directory@, suffix@),
{
    let name = make_json_file_name(suffix);
    String::from_str(directory).concat("/").concat(name.as_str())
}

/// What went wrong while reading.
#[derive(Clone, Copy, Debug, PartialEq, Eq, Structural)]
pub enum ErrorMessageType {
    /// A settings file could not be read.
    SettingRead,
    /// An answer of the weather service could not be read.
    ApiResponseRead,
    /// The weather service refused the API key.
    InvalidApiKey,
}

/// A refused key has nothing to name; the two other failures name what could
/// not be read.
pub open spec fn message_has_subject(error_type: ErrorMessageType, context: Option<Seq<char>>) -> bool {
    error_type is InvalidApiKey <==> context is None
}

/// The message for a failure and what it concerns.
pub open spec fn file_read_error_message(
    error_type: ErrorMessageType,
    context: Option<Seq<char>>,
) -> Seq<char>
    recommends
        message_has_subject(error_type, context),
{
    match (error_type, context) {
        (ErrorMessageType::SettingRead, Some(name)) => if name == "api"@ {
            "Failed to read "@ + json_file_name(name)
                + ". Please make sure to setup your API key."@
        } else {
            "Failed to read the following file: "@ + name
        },
        (ErrorMessageType::ApiResponseRead, Some(name)) => "The given '"@ + name
            + "' JSON input may be invalid."@,
        _ => "API Key is invalid. Please try again."@,
    }
}

/// Whether two strings hold the same characters.
pub(crate) fn same_text(one: &str, other: &str) -> (same: bool)
    ensures
        same == (one@ == other@),
{
    String::from_str(one) == String::from_str(other)
}

/// Words the failure to read something. `context` names the settings file or
/// the kind of answer; a refused API key comes without one.
pub fn get_file_read_error_message(error_type: ErrorMessageType, context: Option<&str>) -> (message:
    String)
    requires
        message_has_subject(
            error_type,
            match context {
                Some(name) => Some(name@),
                None => None,
            },
        ),
    ensures
        message@ == file_read_error_message(
            error_type,
            match context {
                Some(name) => Some(name@),
                None => None,
            },
        ),
{
    match (error_type, context) {
        (ErrorMessageType::SettingRead, Some(name)) => {
            if same_text(name, "api") {
                let file = make_json_file_name(name);
                String::from_str("Failed to read ").concat(file.as_str()).concat(
                    ". Please make sure to setup your API key.",
                )
            } else {
                String::from_str("Failed to read the following file: ").concat(name)
            }
        },
        (ErrorMessageType::ApiResponseRead, Some(name)) => {
            String::from_str("The given '").concat(name).concat("' JSON input may be invalid.")
        },
        _ => String::from_str("API Key is invalid. Please try again."),
    }
}

} // verus!
