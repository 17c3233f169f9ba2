use chrono::{DateTime, FixedOffset, Utc};
use weather_cli::clock::{MAX_UTC_SECONDS, MIN_UTC_SECONDS};
use weather_cli::events::{resolve_next_event, ErrorKind, EventKind, EventPair, LocalEvent};

// 1 May 2024, 00:00:00 UTC.
const MIDNIGHT: i64 = 1_714_521_600;
// 06:22:00 and 20:09:00 of that day.
const SUNRISE: i64 = MIDNIGHT + 6 * 3600 + 22 * 60;
const SUNSET: i64 = MIDNIGHT + 20 * 3600 + 9 * 60;

fn kinds(pair: &EventPair) -> (EventKind, EventKind) {
    (pair.next().kind(), pair.following().kind())
}

fn labels(pair: &EventPair) -> (String, String) {
    (pair.next().label(), pair.following().label())
}

#[test]
fn before_sunrise_the_sunrise_comes_first() {
    let pair = resolve_next_event(SUNRISE, SUNSET, 0, SUNRISE - 1).unwrap();
    assert_eq!(kinds(&pair), (EventKind::Sunrise, EventKind::Sunset));
    assert_eq!(pair.next().instant().utc_seconds(), SUNRISE);
    assert_eq!(pair.following().instant().utc_seconds(), SUNSET);
    let long_before = resolve_next_event(SUNRISE, SUNSET, 3600, 0).unwrap();
    assert_eq!(kinds(&long_before), (EventKind::Sunrise, EventKind::Sunset));
}

#[test]
fn in_daytime_the_sunset_comes_first() {
    let pair = resolve_next_event(SUNRISE, SUNSET, 0, SUNRISE + 1).unwrap();
    assert_eq!(kinds(&pair), (EventKind::Sunset, EventKind::Sunrise));
    assert_eq!(pair.next().instant().utc_seconds(), SUNSET);
    assert_eq!(pair.following().instant().utc_seconds(), SUNRISE);
    let last_second = resolve_next_event(SUNRISE, SUNSET, -18_000, SUNSET - 1).unwrap();
    assert_eq!(kinds(&last_second), (EventKind::Sunset, EventKind::Sunrise));
}

#[test]
fn from_sunset_on_the_sunrise_comes_first_again() {
    let at_sunset = resolve_next_event(SUNRISE, SUNSET, 0, SUNSET).unwrap();
    assert_eq!(kinds(&at_sunset), (EventKind::Sunrise, EventKind::Sunset));
    let at_night = resolve_next_event(SUNRISE, SUNSET, 0, SUNSET + 7200).unwrap();
    assert_eq!(kinds(&at_night), (EventKind::Sunrise, EventKind::Sunset));
    // The sunrise that is named is still the one that was given.
    assert_eq!(at_night.next().instant().utc_seconds(), SUNRISE);
}

#[test]
fn the_instant_of_sunrise_counts_as_daytime() {
    let pair = resolve_next_event(SUNRISE, SUNSET, 0, SUNRISE).unwrap();
    assert_eq!(kinds(&pair), (EventKind::Sunset, EventKind::Sunrise));
    let elsewhere = resolve_next_event(SUNRISE, SUNSET, 32_400, SUNRISE).unwrap();
    assert_eq!(kinds(&elsewhere), (EventKind::Sunset, EventKind::Sunrise));
}

#[test]
fn the_same_inputs_give_the_same_result() {
    for now in [0, SUNRISE - 1, SUNRISE, SUNRISE + 1, SUNSET, SUNSET + 1] {
        let first = resolve_next_event(SUNRISE, SUNSET, 7200, now);
        let second = resolve_next_event(SUNRISE, SUNSET, 7200, now);
        assert_eq!(first, second);
        assert_eq!(labels(&first.unwrap()), labels(&second.unwrap()));
    }
    assert_eq!(
        resolve_next_event(SUNRISE, SUNSET, 90_000, 5),
        resolve_next_event(SUNRISE, SUNSET, 90_000, 5)
    );
}

#[test]
fn labels_show_a_twelve_hour_clock_in_utc() {
    let pair = resolve_next_event(SUNRISE, SUNSET, 0, MIDNIGHT).unwrap();
    assert_eq!(pair.next().label(), "Sunrise: 06:22 AM");
    assert_eq!(pair.following().label(), "Sunset: 08:09 PM");
}

#[test]
fn labels_show_the_local_clock_not_the_utc_one() {
    // Toronto in summer: four hours behind UTC.
    let toronto = resolve_next_event(SUNRISE + 4 * 3600, SUNSET + 4 * 3600, -14_400, MIDNIGHT).unwrap();
    assert_eq!(labels(&toronto), ("Sunrise: 06:22 AM".to_string(), "Sunset: 08:09 PM".to_string()));
    // Kathmandu: five hours and three quarters ahead.
    let kathmandu = resolve_next_event(MIDNIGHT, MIDNIGHT + 12 * 3600, 20_700, MIDNIGHT - 1).unwrap();
    assert_eq!(labels(&kathmandu), ("Sunrise: 05:45 AM".to_string(), "Sunset: 05:45 PM".to_string()));
    // Seconds do not show, and the minute is not rounded up.
    let late = resolve_next_event(MIDNIGHT + 59, MIDNIGHT + 86_399, 0, 0).unwrap();
    assert_eq!(labels(&late), ("Sunrise: 12:00 AM".to_string(), "Sunset: 11:59 PM".to_string()));
}

#[test]
fn noon_and_midnight_are_twelve() {
    let pair = resolve_next_event(MIDNIGHT, MIDNIGHT + 12 * 3600, 0, 0).unwrap();
    assert_eq!(pair.next().label(), "Sunrise: 12:00 AM");
    assert_eq!(pair.following().label(), "Sunset: 12:00 PM");
    let one = resolve_next_event(MIDNIGHT + 3600, MIDNIGHT + 13 * 3600 + 5 * 60, 0, 0).unwrap();
    assert_eq!(one.next().label(), "Sunrise: 01:00 AM");
    assert_eq!(one.following().label(), "Sunset: 01:05 PM");
}

#[test]
fn labels_before_the_epoch() {
    // One second before the epoch is 23:59 of the day before.
    let pair = resolve_next_event(-1, -86_400 + 6 * 3600, 0, 0).unwrap();
    assert_eq!(pair.next().label(), "Sunrise: 11:59 PM");
    assert_eq!(pair.following().label(), "Sunset: 06:00 AM");
}

#[test]
fn an_offset_of_more_than_a_day_is_no_timezone() {
    assert_eq!(resolve_next_event(SUNRISE, SUNSET, 90_000, SUNRISE), Err(ErrorKind::InvalidTimezone));
    assert_eq!(resolve_next_event(SUNRISE, SUNSET, -90_000, SUNRISE), Err(ErrorKind::InvalidTimezone));
}

#[test]
fn an_offset_of_exactly_a_day_is_no_timezone() {
    assert_eq!(resolve_next_event(SUNRISE, SUNSET, 86_400, 0), Err(ErrorKind::InvalidTimezone));
    assert_eq!(resolve_next_event(SUNRISE, SUNSET, -86_400, 0), Err(ErrorKind::InvalidTimezone));
    assert!(resolve_next_event(SUNRISE, SUNSET, 86_399, 0).is_ok());
    assert!(resolve_next_event(SUNRISE, SUNSET, -86_399, 0).is_ok());
    assert_eq!(resolve_next_event(SUNRISE, SUNSET, i32::MAX, 0), Err(ErrorKind::InvalidTimezone));
    assert_eq!(resolve_next_event(SUNRISE, SUNSET, i32::MIN, 0), Err(ErrorKind::InvalidTimezone));
}

#[test]
fn a_timestamp_out_of_range_names_its_event() {
    assert_eq!(
        resolve_next_event(i64::MAX, SUNSET, 0, 0),
        Err(ErrorKind::InvalidTimestamp(EventKind::Sunrise))
    );
    assert_eq!(
        resolve_next_event(SUNRISE, i64::MIN, 0, 0),
        Err(ErrorKind::InvalidTimestamp(EventKind::Sunset))
    );
    // The sunrise is judged before the sunset, the offset before both.
    assert_eq!(
        resolve_next_event(i64::MAX, i64::MAX, 0, 0),
        Err(ErrorKind::InvalidTimestamp(EventKind::Sunrise))
    );
    assert_eq!(resolve_next_event(i64::MAX, i64::MAX, 90_000, 0), Err(ErrorKind::InvalidTimezone));
}

#[test]
fn the_range_of_timestamps_is_that_of_the_calendar() {
    assert_eq!(MIN_UTC_SECONDS, DateTime::<Utc>::MIN_UTC.timestamp());
    assert_eq!(MAX_UTC_SECONDS, DateTime::<Utc>::MAX_UTC.timestamp());
    assert!(resolve_next_event(MIN_UTC_SECONDS, MAX_UTC_SECONDS, 0, 0).is_ok());
    assert_eq!(
        resolve_next_event(MIN_UTC_SECONDS - 1, SUNSET, 0, 0),
        Err(ErrorKind::InvalidTimestamp(EventKind::Sunrise))
    );
    assert_eq!(
        resolve_next_event(SUNRISE, MAX_UTC_SECONDS + 1, 0, 0),
        Err(ErrorKind::InvalidTimestamp(EventKind::Sunset))
    );
}

#[test]
fn labels_at_the_ends_of_the_calendar() {
    let before_all = i64::MIN;
    let pair = resolve_next_event(MIN_UTC_SECONDS, MAX_UTC_SECONDS, 0, before_all).unwrap();
    assert_eq!(labels(&pair), ("Sunrise: 12:00 AM".to_string(), "Sunset: 11:59 PM".to_string()));
    // The local clock may run past either end.
    let west = resolve_next_event(MIN_UTC_SECONDS, MAX_UTC_SECONDS, -3600, before_all).unwrap();
    assert_eq!(labels(&west), ("Sunrise: 11:00 PM".to_string(), "Sunset: 10:59 PM".to_string()));
    let east = resolve_next_event(MIN_UTC_SECONDS, MAX_UTC_SECONDS, 3600, before_all).unwrap();
    assert_eq!(labels(&east), ("Sunrise: 01:00 AM".to_string(), "Sunset: 12:59 AM".to_string()));
    // In between, the sunset comes first.
    let between = resolve_next_event(MIN_UTC_SECONDS, MAX_UTC_SECONDS, 0, 0).unwrap();
    assert_eq!(labels(&between), ("Sunset: 11:59 PM".to_string(), "Sunrise: 12:00 AM".to_string()));
}

#[test]
fn labels_agree_with_the_calendar_on_many_instants() {
    let offsets = [-86_399, -43_200, -12_600, -1, 0, 1, 3600, 20_700, 45_900, 86_399];
    let mut ts: i64 = -1_000_000_007;
    while ts < 4_000_000_000 {
        for offset in offsets {
            let pair = resolve_next_event(ts, ts + 1, offset, ts).unwrap();
            let zone = FixedOffset::east_opt(offset).unwrap();
            let local = DateTime::<Utc>::from_timestamp(ts, 0).unwrap().with_timezone(&zone);
            assert_eq!(pair.following().label(), local.format("Sunrise: %I:%M %p").to_string());
        }
        ts += 86_400 * 37 + 3_581;
    }
}

#[test]
fn an_event_tells_its_kind_and_instant() {
    let pair = resolve_next_event(SUNRISE, SUNSET, 3600, SUNRISE).unwrap();
    match pair.next() {
        LocalEvent::Sunset(at) => {
            assert_eq!(at.utc_seconds(), SUNSET);
            assert_eq!(at.offset_seconds(), 3600);
        }
        LocalEvent::Sunrise(_) => panic!("the sunset comes first in daytime"),
    }
    assert_eq!(pair.following().instant().offset_seconds(), 3600);
}

#[test]
fn each_failure_has_its_words() {
    assert_eq!(ErrorKind::InvalidTimezone.message(), "Failed to read timezone value.");
    assert_eq!(
        ErrorKind::InvalidTimestamp(EventKind::Sunrise).message(),
        "Failed to read sunrise time."
    );
    assert_eq!(
        ErrorKind::InvalidTimestamp(EventKind::Sunset).message(),
        "Failed to read sunset Time."
    );
}
