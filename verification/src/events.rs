//! Sunrise and sunset as local wall-clock events, in the order in which a
//! report shows them.

use vstd::prelude::*;

use crate::clock::{
    clock_text, format_local_clock, instant_exists, offset_exists, valid_offset, valid_timestamp,
};
use vstd::string::StringExecFns;

verus! {

/// Which of the day's two events.
#[derive(Clone, Copy, Debug, PartialEq, Eq, Structural)]
pub enum EventKind {
    Sunrise,
    Sunset,
}

/// Why no pair of events could be worked out.
#[derive(Clone, Copy, Debug, PartialEq, Eq, Structural)]
pub enum ErrorKind {
    /// The UTC offset is a day or more.
    InvalidTimezone,
    /// The named event's epoch seconds name no UTC instant.
    InvalidTimestamp(EventKind),
}

/// What an event is, as numbers: its kind, its instant in epoch seconds, and
/// the offset of the place it is told for.
pub ghost struct EventModel {
    pub kind: EventKind,
    pub utc_seconds: int,
    pub offset_seconds: int,
}

impl EventModel {
    /// The wall clock at the place, in seconds: the instant moved by the offset.
    pub open spec fn local_seconds(self) -> int {
        self.utc_seconds + self.offset_seconds
    }
}

/// The event shown first, then the other one.
pub ghost struct PairModel {
    pub next: EventModel,
    pub following: EventModel,
}

/// The sunrise at `utc_seconds`, told for a place at `offset_seconds`.
pub open spec fn sunrise_at(utc_seconds: int, offset_seconds: int) -> EventModel {
    EventModel { kind: EventKind::Sunrise, utc_seconds, offset_seconds }
}

/// The sunset at `utc_seconds`, told for a place at `offset_seconds`.
pub open spec fn sunset_at(utc_seconds: int, offset_seconds: int) -> EventModel {
    EventModel { kind: EventKind::Sunset, utc_seconds, offset_seconds }
}

/// Sunrise first, sunset second.
pub open spec fn sunrise_first(sunrise_ts: int, sunset_ts: int, offset_seconds: int) -> PairModel {
    PairModel {
        next: sunrise_at(sunrise_ts, offset_seconds),
        following: sunset_at(sunset_ts, offset_seconds),
    }
}

/// Sunset first, sunrise second.
pub open spec fn sunset_first(sunrise_ts: int, sunset_ts: int, offset_seconds: int) -> PairModel {
    PairModel {
        next: sunset_at(sunset_ts, offset_seconds),
        following: sunrise_at(sunrise_ts, offset_seconds),
    }
}

/// The whole rule. The offset is judged first, then the sunrise, then the
/// sunset. All three instants are read on the same local clock: before the
/// sunrise the sunrise comes next; from the sunrise on and before the sunset
/// the sunset comes next; from the sunset on the sunrise is named first again,
/// with the instant that was given.
pub open spec fn resolution(sunrise_ts: int, sunset_ts: int, offset_seconds: int, now: int) -> Result<
    PairModel,
    ErrorKind,
> {
    let now_local = now + offset_seconds;
    let sunrise = sunrise_at(sunrise_ts, offset_seconds);
    let sunset = sunset_at(sunset_ts, offset_seconds);
    if !valid_offset(offset_seconds) {
        Err(ErrorKind::InvalidTimezone)
    } else if !valid_timestamp(sunrise_ts) {
        Err(ErrorKind::InvalidTimestamp(EventKind::Sunrise))
    } else if !valid_timestamp(sunset_ts) {
        Err(ErrorKind::InvalidTimestamp(EventKind::Sunset))
    } else if now_local < sunrise.local_seconds() {
        Ok(sunrise_first(sunrise_ts, sunset_ts, offset_seconds))
    } else if now_local < sunset.local_seconds() {
        Ok(sunset_first(sunrise_ts, sunset_ts, offset_seconds))
    } else {
        Ok(sunrise_first(sunrise_ts, sunset_ts, offset_seconds))
    }
}

/// An instant on the wall clock of a place: the UTC instant and the offset
/// that moves it there. Both are in range, so the calendar can always show it.
#[derive(Clone, Copy, Debug, PartialEq, Eq)]
pub struct LocalInstant {
    utc_seconds: i64,
    offset_seconds: i32,
}

impl LocalInstant {
    #[verifier::type_invariant]
    spec fn in_range(self) -> bool {
        valid_timestamp(self.utc_seconds as int) && valid_offset(self.offset_seconds as int)
    }

    /// The instant in seconds since the epoch.
    pub closed spec fn utc(self) -> int {
        self.utc_seconds as int
    }

    /// The offset of the place, in seconds east of UTC.
    pub closed spec fn offset(self) -> int {
        self.offset_seconds as int
    }

    /// The instant in seconds since the epoch.
    pub fn utc_seconds(&self) -> (seconds: i64)
        ensures
            seconds == self.utc(),
            valid_timestamp(seconds as int),
    {
        proof {
            use_type_invariant(self);
        }
        self.utc_seconds
    }

    /// The offset of the place, in seconds east of UTC.
    pub fn offset_seconds(&self) -> (seconds: i32)
        ensures
            seconds == self.offset(),
            valid_offset(seconds as int),
    {
        proof {
            use_type_invariant(self);
        }
        self.offset_seconds
    }
}

/// Sunrise or sunset, with the local instant at which it happens.
#[derive(Clone, Copy, Debug, PartialEq, Eq)]
pub enum LocalEvent {
    Sunrise(LocalInstant),
    Sunset(LocalInstant),
}

impl View for LocalEvent {
    type V = EventModel;

    open spec fn view(&self) -> EventModel {
        match *self {
            LocalEvent::Sunrise(at) => sunrise_at(at.utc(), at.offset()),
            LocalEvent::Sunset(at) => sunset_at(at.utc(), at.offset()),
        }
    }
}

impl PairModel {
    /// One of the two events is the sunrise and the other the sunset, and
    /// both are told for the same place.
    pub open spec fn one_of_each(self) -> bool {
        &&& self.next.kind != self.following.kind
        &&& self.next.offset_seconds == self.following.offset_seconds
    }
}

/// The two events of a day in the order of a report: the one to show first,
/// then the other. One is the sunrise and the other the sunset.
#[derive(Clone, Copy, Debug, PartialEq, Eq)]
pub struct EventPair {
    next: LocalEvent,
    following: LocalEvent,
}

impl View for EventPair {
    type V = PairModel;

    closed spec fn view(&self) -> PairModel {
        PairModel { next: self.next@, following: self.following@ }
    }
}

impl EventPair {
    #[verifier::type_invariant]
    spec fn well_formed(self) -> bool {
        self@.one_of_each()
    }

    /// The event to show first.
    pub fn next(&self) -> (event: LocalEvent)
        ensures
            event@ == self@.next,
            self@.one_of_each(),
    {
        proof {
            use_type_invariant(self);
        }
        self.next
    }

    /// The event to show second.
    pub fn following(&self) -> (event: LocalEvent)
        ensures
            event@ == self@.following,
            self@.one_of_each(),
    {
        proof {
            use_type_invariant(self);
        }
        self.following
    }
}

/// The words that open the label of an event of the given kind.
pub open spec fn tag_text(kind: EventKind) -> Seq<char> {
    match kind {
        EventKind::Sunrise => "Sunrise: "@,
        EventKind::Sunset => "Sunset: "@,
    }
}

/// The line of a report that tells an event: its tag, then its time of day on
/// the local clock.
pub open spec fn label_text(event: EventModel) -> Seq<char> {
    tag_text(event.kind) + clock_text(event.local_seconds())
}

impl LocalEvent {
    /// Whether this is the sunrise or the sunset.
    pub fn kind(&self) -> (kind: EventKind)
        ensures
            kind == self@.kind,
    {
        match self {
            LocalEvent::Sunrise(_) => EventKind::Sunrise,
            LocalEvent::Sunset(_) => EventKind::Sunset,
        }
    }

    /// The local instant at which the event happens.
    pub fn instant(&self) -> (at: LocalInstant)
        ensures
            at.utc() == self@.utc_seconds,
            at.offset() == self@.offset_seconds,
    {
        match self {
            LocalEvent::Sunrise(at) => *at,
            LocalEvent::Sunset(at) => *at,
        }
    }

    /// The event as a report shows it, such as `Sunrise: 06:22 AM`: always
    /// the time on the local clock, never the UTC one.
    pub fn label(&self) -> (text: String)
        ensures
            text@ == label_text(self@),
    {
        let at = self.instant();
        let clock = format_local_clock(at.utc_seconds(), at.offset_seconds(), "%I:%M %p");
        let tag = match self {
            LocalEvent::Sunrise(_) => "Sunrise: ",
            LocalEvent::Sunset(_) => "Sunset: ",
        };
        String::from_str(tag).concat(clock.as_str())
    }
}

impl ErrorKind {
    /// The failure in words.
    pub fn message(&self) -> (text: String)
        ensures
            text@ == error_text(*self),
    {
        match self {
            ErrorKind::InvalidTimezone => String::from_str("Failed to read timezone value."),
            ErrorKind::InvalidTimestamp(EventKind::Sunrise) => String::from_str(
                "Failed to read sunrise time.",
            ),
            ErrorKind::InvalidTimestamp(EventKind::Sunset) => String::from_str(
                "Failed to read sunset Time.",
            ),
        }
    }
}

/// What is said of each failure.
pub open spec fn error_text(error: ErrorKind) -> Seq<char> {
    match error {
        ErrorKind::InvalidTimezone => "Failed to read timezone value."@,
        ErrorKind::InvalidTimestamp(EventKind::Sunrise) => "Failed to read sunrise time."@,
        ErrorKind::InvalidTimestamp(EventKind::Sunset) => "Failed to read sunset Time."@,
    }
}

/// A result as numbers: the pair by its view, the error as it is.
pub open spec fn outcome(result: Result<EventPair, ErrorKind>) -> Result<PairModel, ErrorKind> {
    match result {
        Ok(pair) => Ok(pair@),
        Err(error) => Err(error),
    }
}

/// Tells which of sunrise and sunset to show first at the instant `now`, for a
/// place `utc_offset_seconds` east of UTC. The three instants are in seconds
/// since the epoch. `now` counts whole seconds: the events have no fraction
/// of a second, so a fraction of `now` could not change the order.
pub fn resolve_next_event(
    sunrise_ts: i64,
    sunset_ts: i64,
    utc_offset_seconds: i32,
    now: i64,
) -> (result: Result<EventPair, ErrorKind>)
    ensures
        outcome(result) == resolution(
            sunrise_ts as int,
            sunset_ts as int,
            utc_offset_seconds as int,
            now as int,
        ),
{
    if !offset_exists(utc_offset_seconds) {
        return Err(ErrorKind::InvalidTimezone);
    }
    if !instant_exists(sunrise_ts) {
        return Err(ErrorKind::InvalidTimestamp(EventKind::Sunrise));
    }
    if !instant_exists(sunset_ts) {
        return Err(ErrorKind::InvalidTimestamp(EventKind::Sunset));
    }
    let sunrise = LocalEvent::Sunrise(
        LocalInstant { utc_seconds: sunrise_ts, offset_seconds: utc_offset_seconds },
    );
    let sunset = LocalEvent::Sunset(
        LocalInstant { utc_seconds: sunset_ts, offset_seconds: utc_offset_seconds },
    );
    if now < sunrise_ts {
        Ok(EventPair { next: sunrise, following: sunset })
    } else if now < sunset_ts {
        Ok(EventPair { next: sunset, following: sunrise })
    } else {
        Ok(EventPair { next: sunrise, following: sunset })
    }
}

/// Before the local sunrise, with the sunrise before the sunset, the sunrise
/// is shown first and the sunset second.
pub proof fn sunrise_is_next_before_sunrise(
    sunrise_ts: int,
    sunset_ts: int,
    offset_seconds: int,
    now: int,
)
    requires
        valid_offset(offset_seconds),
        valid_timestamp(sunrise_ts),
        valid_timestamp(sunset_ts),
        sunrise_ts < sunset_ts,
        now + offset_seconds < sunrise_at(sunrise_ts, offset_seconds).local_seconds(),
    ensures
        resolution(sunrise_ts, sunset_ts, offset_seconds, now) == Ok::<PairModel, ErrorKind>(
            sunrise_first(sunrise_ts, sunset_ts, offset_seconds),
        ),
{
}

/// Strictly between the local sunrise and the local sunset, the sunset is
/// shown first and the sunrise second.
pub proof fn sunset_is_next_in_daytime(
    sunrise_ts: int,
    sunset_ts: int,
    offset_seconds: int,
    now: int,
)
    requires
        valid_offset(offset_seconds),
        valid_timestamp(sunrise_ts),
        valid_timestamp(sunset_ts),
        sunrise_at(sunrise_ts, offset_seconds).local_seconds() < now + offset_seconds,
        now + offset_seconds < sunset_at(sunset_ts, offset_seconds).local_seconds(),
    ensures
        resolution(sunrise_ts, sunset_ts, offset_seconds, now) == Ok::<PairModel, ErrorKind>(
            sunset_first(sunrise_ts, sunset_ts, offset_seconds),
        ),
{
}

/// At the local sunset and after it, the sunrise is shown first again and the
/// sunset second, each with the instant that was given.
pub proof fn sunrise_is_next_from_sunset_on(
    sunrise_ts: int,
    sunset_ts: int,
    offset_seconds: int,
    now: int,
)
    requires
        valid_offset(offset_seconds),
        valid_timestamp(sunrise_ts),
        valid_timestamp(sunset_ts),
        now + offset_seconds >= sunset_at(sunset_ts, offset_seconds).local_seconds(),
    ensures
        resolution(sunrise_ts, sunset_ts, offset_seconds, now) == Ok::<PairModel, ErrorKind>(
            sunrise_first(sunrise_ts, sunset_ts, offset_seconds),
        ),
{
}

/// At the very instant of the sunrise, with the sunset still to come, the
/// sunrise no longer counts as ahead: the sunset is shown first.
pub proof fn sunrise_instant_counts_as_daytime(
    sunrise_ts: int,
    sunset_ts: int,
    offset_seconds: int,
    now: int,
)
    requires
        valid_offset(offset_seconds),
        valid_timestamp(sunrise_ts),
        valid_timestamp(sunset_ts),
        sunrise_ts < sunset_ts,
        now + offset_seconds == sunrise_at(sunrise_ts, offset_seconds).local_seconds(),
    ensures
        resolution(sunrise_ts, sunset_ts, offset_seconds, now) == Ok::<PairModel, ErrorKind>(
            sunset_first(sunrise_ts, sunset_ts, offset_seconds),
        ),
{
}

/// Asking twice with the same four numbers gives the same answer: two results
/// that both answer them are one value, and so are the labels of their events.
pub proof fn same_inputs_same_result(
    first: Result<EventPair, ErrorKind>,
    second: Result<EventPair, ErrorKind>,
    sunrise_ts: int,
    sunset_ts: int,
    offset_seconds: int,
    now: int,
)
    requires
        outcome(first) == resolution(sunrise_ts, sunset_ts, offset_seconds, now),
        outcome(second) == resolution(sunrise_ts, sunset_ts, offset_seconds, now),
    ensures
        first == second,
        first matches Ok(pair) ==> second matches Ok(again) && label_text(pair@.next)
            == label_text(again@.next) && label_text(pair@.following) == label_text(
            again@.following,
        ),
{
    if let Ok(pair) = first {
        let again = second->Ok_0;
        same_view_same_event(pair.next, again.next);
        same_view_same_event(pair.following, again.following);
    }
}

/// Two events with the same kind, instant and offset are the same event.
proof fn same_view_same_event(one: LocalEvent, other: LocalEvent)
    requires
        one@ == other@,
    ensures
        one == other,
{
}

} // verus!
