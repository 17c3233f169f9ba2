//! Plain records: what the weather service answers and what the user has set.

pub mod response_types;
pub mod user_settings;
