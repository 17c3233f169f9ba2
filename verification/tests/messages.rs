use weather_cli::constants::{API_JSON_NAME, USER_SETTING_JSON_NAME};
use weather_cli::selection::{select_city, select_units, SelectionError};
use weather_cli::types::user_settings::{Unit, Units};
use weather_cli::{get_file_read_error_message, make_json_file_name, ErrorMessageType};

#[test]
fn a_json_file_is_named_after_its_suffix() {
    assert_eq!(make_json_file_name("api"), "weather-cli-api.json");
    assert_eq!(make_json_file_name(API_JSON_NAME), "weather-cli-api.json");
    assert_eq!(make_json_file_name(USER_SETTING_JSON_NAME), "weather-cli-setting.json");
    assert_eq!(make_json_file_name(""), "weather-cli-.json");
}

#[test]
fn a_missing_key_file_asks_for_the_key() {
    assert_eq!(
        get_file_read_error_message(ErrorMessageType::SettingRead, Some("api")),
        "Failed to read weather-cli-api.json. Please make sure to setup your API key."
    );
}

#[test]
fn another_settings_file_is_named_as_given() {
    assert_eq!(
        get_file_read_error_message(ErrorMessageType::SettingRead, Some("setting")),
        "Failed to read the following file: setting"
    );
    assert_eq!(
        get_file_read_error_message(ErrorMessageType::SettingRead, Some("")),
        "Failed to read the following file: "
    );
}

#[test]
fn an_unreadable_answer_names_its_kind() {
    assert_eq!(
        get_file_read_error_message(ErrorMessageType::ApiResponseRead, Some("WeatherApiResponse")),
        "The given 'WeatherApiResponse' JSON input may be invalid."
    );
    assert_eq!(
        get_file_read_error_message(ErrorMessageType::ApiResponseRead, Some("api")),
        "The given 'api' JSON input may be invalid."
    );
}

#[test]
fn a_refused_key_has_its_own_message() {
    assert_eq!(
        get_file_read_error_message(ErrorMessageType::InvalidApiKey, None),
        "API Key is invalid. Please try again."
    );
}

#[test]
fn units_have_the_names_of_the_service() {
    assert_eq!(Units::Standard.name(), "standard");
    assert_eq!(Units::Metric.name(), "metric");
    assert_eq!(Units::Imperial.name(), "imperial");
    assert_eq!(Units::Standard.wind_speed_unit(), "m/s");
    assert_eq!(Units::Metric.wind_speed_unit(), "m/s");
    assert_eq!(Units::Imperial.wind_speed_unit(), "mph");
}

#[test]
fn the_two_scales_of_the_short_report() {
    assert_eq!(Unit::Metric.name(), "metric");
    assert_eq!(Unit::Imperial.name(), "imperial");
    assert_eq!(Unit::Metric.symbol(), "℃");
    assert_eq!(Unit::Imperial.symbol(), "℉");
    assert_eq!(Unit::from_preference(1), Some(Unit::Metric));
    assert_eq!(Unit::from_preference(2), Some(Unit::Imperial));
    assert_eq!(Unit::from_preference(0), None);
    assert_eq!(Unit::from_preference(3), None);
    assert_eq!(Unit::from_preference(-1), None);
}

#[test]
fn a_city_is_chosen_by_its_number() {
    assert_eq!(select_city(1, 3), Ok(0));
    assert_eq!(select_city(3, 3), Ok(2));
    assert_eq!(select_city(4, 3), Err(SelectionError::InvalidCityIndex));
    assert_eq!(select_city(1, 0), Err(SelectionError::InvalidCityIndex));
    assert_eq!(select_city(usize::MAX, 10), Err(SelectionError::InvalidCityIndex));
    assert_eq!(SelectionError::InvalidCityIndex.message(), "Invalid city index.");
}

#[test]
fn units_are_chosen_by_their_number() {
    assert_eq!(select_units(1), Ok(Units::Standard));
    assert_eq!(select_units(2), Ok(Units::Metric));
    assert_eq!(select_units(3), Ok(Units::Imperial));
    assert_eq!(select_units(0), Err(SelectionError::UnitOutOfRange));
    assert_eq!(select_units(4), Err(SelectionError::UnitOutOfRange));
    assert_eq!(SelectionError::UnitOutOfRange.message(), "Input is out of range!");
}
