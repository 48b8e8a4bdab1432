//! Readings of a wall clock, the time zones that they are resolved in, and
//! the instants on the UTC time line that they come to.
//!
//! The calendar and the time zone database are `chrono`'s and `chrono_tz`'s.
//! What they compute is known here by name only: each name stands for the
//! result of one of their functions, which depends on nothing but the
//! arguments given.

use chrono::{DateTime, LocalResult, NaiveDateTime, SecondsFormat, Utc};
use chrono_tz::Tz;
use std::str::FromStr;
use vstd::prelude::*;

verus! {

/// The error of `chrono`'s parser, carried from the call to the place where
/// it is turned into this crate's own errors.
#[verifier::external_type_specification]
#[verifier::external_body]
pub struct ExChronoParseError(chrono::format::ParseError);

/// The pattern that a wall-clock reading is written in: the date as
/// `YYYY-MM-DD`, one space, the time as `HH:MM:SS`.
pub const DATE_TIME_FORMAT: &'static str = "%Y-%m-%d %H:%M:%S";

/// One minute in milliseconds, the longest span that is refused: an entry
/// must last longer than this to be imported.
pub const LONGEST_REFUSED_SPAN_MILLIS: i64 = 60_000;

/// A date and a time of day as a wall clock shows them, with no zone: counted
/// in milliseconds from the reading 1970-01-01 00:00:00. The count knows no
/// leap second: a reading of 60 seconds counts as the first second of the
/// next minute.
#[derive(Clone, Copy, Debug, PartialEq, Eq, Structural)]
pub struct WallClock {
    pub millis: i64,
}

impl View for WallClock {
    type V = int;

    open spec fn view(&self) -> int {
        self.millis as int
    }
}

/// A point on the UTC time line, counted in non-leap milliseconds since
/// 1970-01-01T00:00:00Z.
#[derive(Clone, Copy, Debug, PartialEq, Eq, Structural)]
pub struct Instant {
    pub millis: i64,
}

impl View for Instant {
    type V = int;

    open spec fn view(&self) -> int {
        self.millis as int
    }
}

/// What a wall-clock reading comes to in a time zone.
#[derive(Clone, Copy, Debug, PartialEq, Eq, Structural)]
pub enum LocalTime {
    /// No instant has this reading: the zone's clocks skipped it, or it lies
    /// beyond the calendar.
    Missing,
    /// Exactly one instant has this reading.
    Single(Instant),
    /// Two instants have this reading, because the zone's clocks were set
    /// back over it: the earlier one, then the later one.
    Ambiguous(Instant, Instant),
}

/// The wall-clock reading that `text` holds when read by the pattern
/// `format`; `None` where `text` does not fit `format`.
pub uninterp spec fn wall_clock_reading(text: Seq<char>, format: Seq<char>) -> Option<WallClock>;

/// Whether the time zone database has a zone of this name.
pub uninterp spec fn zone_known(name: Seq<char>) -> bool;

/// What the wall-clock reading `millis` comes to in the zone named `zone`;
/// `None` where the reading lies beyond the calendar.
pub uninterp spec fn zone_resolution(millis: int, zone: Seq<char>) -> Option<LocalTime>;

/// The RFC 3339 text of the instant `millis` milliseconds after the epoch, in
/// UTC with three decimals of a second and the suffix `Z`; `None` where the
/// instant lies beyond the calendar.
pub uninterp spec fn utc_text(millis: int) -> Option<Seq<char>>;

/// What a wall-clock reading comes to in a zone, a reading beyond the
/// calendar being one that no instant has.
pub open spec fn local_time_in(clock: WallClock, zone: Seq<char>) -> LocalTime {
    match zone_resolution(clock@, zone) {
        Some(local) => local,
        None => LocalTime::Missing,
    }
}

/// Whether the span from `start` to `end` is too short to be imported:
/// at most one minute, which includes every span that is empty or negative.
pub open spec fn too_short(start: Instant, end: Instant) -> bool {
    end@ - start@ <= LONGEST_REFUSED_SPAN_MILLIS as int
}

/// Reads `text` with `chrono`'s `NaiveDateTime::parse_from_str`.
///
/// Trusted: the outcome is `wall_clock_reading` of the two texts, that is, it
/// depends on nothing else; the parser's error stands for `None`. The reading
/// is handed over as `timestamp_millis` counts it when it is taken for UTC.
/// Only `DATE_TIME_FORMAT` is let in as the pattern: with a pattern that asks
/// for a Unix timestamp the parser can panic at the edge of the calendar.
#[verifier::external_body]
fn read_wall_clock(
    text: &str,
    format: &str,
) -> (reading: Result<WallClock, chrono::format::ParseError>)
    requires
        format@ == DATE_TIME_FORMAT@,
    ensures
        match reading {
            Ok(clock) => wall_clock_reading(text@, format@) == Some(clock),
            Err(_) => wall_clock_reading(text@, format@) is None,
        },
{
    let naive = NaiveDateTime::parse_from_str(text, format)?;
    Ok(WallClock { millis: naive.and_utc().timestamp_millis() })
}

/// Looks `name` up with `chrono_tz`'s `Tz::from_str`.
///
/// Trusted: the answer is `zone_known` of the name, that is, the lookup
/// depends on nothing but the name.
#[verifier::external_body]
fn zone_exists(name: &str) -> (known: bool)
    ensures
        known == zone_known(name@),
{
    Tz::from_str(name).is_ok()
}

/// Resolves a wall-clock reading in a zone with `chrono`'s
/// `NaiveDateTime::and_local_timezone`, the zone being `chrono_tz`'s of that
/// name.
///
/// Trusted: the outcome is `zone_resolution` of the count and the name, that
/// is, it depends on nothing else; `None` is the refusal of
/// `DateTime::from_timestamp_millis` to take a count that lies beyond the
/// calendar. Each instant is handed over as `DateTime::timestamp_millis`
/// counts it.
#[verifier::external_body]
fn resolve_in_zone(clock: WallClock, zone: &str) -> (local: Option<LocalTime>)
    requires
        zone_known(zone@),
    ensures
        local == zone_resolution(clock@, zone@),
{
    let tz = Tz::from_str(zone).unwrap();
    let naive = DateTime::<Utc>::from_timestamp_millis(clock.millis)?.naive_utc();
    Some(
        match naive.and_local_timezone(tz) {
            LocalResult::None => LocalTime::Missing,
            LocalResult::Single(t) => LocalTime::Single(Instant { millis: t.timestamp_millis() }),
            LocalResult::Ambiguous(a, b) => LocalTime::Ambiguous(
                Instant { millis: a.timestamp_millis() },
                Instant { millis: b.timestamp_millis() },
            ),
        },
    )
}

/// Writes an instant with `chrono`'s `DateTime::to_rfc3339_opts`, asking for
/// milliseconds and for `Z` as the zone.
///
/// Trusted: the text is `utc_text` of the count, that is, it depends on
/// nothing else; `None` is the refusal of `DateTime::from_timestamp_millis`
/// to take a count that lies beyond the calendar.
#[verifier::external_body]
fn render_utc(millis: i64) -> (text: Option<String>)
    ensures
        match text {
            Some(t) => utc_text(millis as int) == Some(t@),
            None => utc_text(millis as int) is None,
        },
{
    match DateTime::<Utc>::from_timestamp_millis(millis) {
        Some(t) => Some(t.to_rfc3339_opts(SecondsFormat::Millis, true)),
        None => None,
    }
}

impl WallClock {
    /// The reading that `text` holds when read by `DATE_TIME_FORMAT`; `None`
    /// where `text` does not fit the pattern.
    pub fn parse(text: &str) -> (reading: Option<WallClock>)
        ensures
            reading == wall_clock_reading(text@, DATE_TIME_FORMAT@),
    {
        match read_wall_clock(text, DATE_TIME_FORMAT) {
            Ok(clock) => Some(clock),
            Err(_) => None,
        }
    }
}

/// A time zone of the IANA database, known by its name, such as
/// `Europe/Berlin`.
#[derive(Debug, PartialEq, Eq)]
pub struct Zone {
    name: String,
}

impl View for Zone {
    type V = Seq<char>;

    closed spec fn view(&self) -> Seq<char> {
        self.name@
    }
}

impl Clone for Zone {
    fn clone(&self) -> (copy: Zone)
        ensures
            copy@ == self@,
    {
        proof {
            use_type_invariant(self);
        }
        Zone { name: self.name.clone() }
    }
}

impl Zone {
    #[verifier::type_invariant]
    spec fn in_database(self) -> bool {
        zone_known(self.name@)
    }

    /// The zone of this name, if the database has one.
    pub fn parse(name: &str) -> (zone: Option<Zone>)
        ensures
            zone is Some <==> zone_known(name@),
            zone matches Some(z) ==> z@ == name@,
    {
        if zone_exists(name) {
            Some(Zone { name: name.to_owned() })
        } else {
            None
        }
    }

    /// The zone's name.
    pub fn name(&self) -> (name: &str)
        ensures
            name@ == self@,
    {
        self.name.as_str()
    }

    /// What the wall-clock reading `clock` comes to in this zone.
    pub fn resolve(&self, clock: WallClock) -> (local: LocalTime)
        ensures
            local == local_time_in(clock, self@),
    {
        proof {
            use_type_invariant(self);
        }
        match resolve_in_zone(clock, self.name.as_str()) {
            Some(local) => local,
            None => LocalTime::Missing,
        }
    }
}

impl Instant {
    /// The instant `millis` milliseconds after the epoch.
    pub fn from_millis(millis: i64) -> (instant: Instant)
        ensures
            instant@ == millis,
    {
        Instant { millis }
    }

    /// Milliseconds from `self` to `later`; negative where `later` comes first.
    pub fn millis_until(&self, later: &Instant) -> (span: i128)
        ensures
            span == later@ - self@,
    {
        later.millis as i128 - self.millis as i128
    }

    /// Decides whether an entry running from `self` to `end` is too short.
    pub fn is_too_short_until(&self, end: &Instant) -> (short: bool)
        ensures
            short == too_short(*self, *end),
    {
        self.millis_until(end) <= LONGEST_REFUSED_SPAN_MILLIS as i128
    }

    /// The instant as RFC 3339 text in UTC, with milliseconds and the suffix
    /// `Z`; `None` where the instant lies beyond the calendar.
    pub fn to_utc_text(&self) -> (text: Option<String>)
        ensures
            match text {
                Some(t) => utc_text(self@) == Some(t@),
                None => utc_text(self@) is None,
            },
    {
        render_utc(self.millis)
    }
}

} // verus!
