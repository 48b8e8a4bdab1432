//! One row of a Toggl export, and the instants that its date and time fields
//! stand for.

use crate::time::{
    local_time_in, utc_text, wall_clock_reading, Instant, LocalTime, WallClock, Zone,
    DATE_TIME_FORMAT,
};
use vstd::prelude::*;

verus! {

/// What the message of a `DateTimeError` begins with.
pub const DATE_TIME_ERROR_PREFIX: &'static str = "Failed to parse date time: ";

/// A time entry as Toggl exports it: every field is the text of its column.
#[derive(Clone, Debug, PartialEq, Eq)]
pub struct TogglTimeEntry {
    pub user: String,
    pub email: String,
    pub client: String,
    pub project: String,
    pub task: String,
    pub description: String,
    pub billable: String,
    pub start_date: String,
    pub start_time: String,
    pub end_date: String,
    pub end_time: String,
    pub duration: String,
    pub tags: String,
    pub amount: String,
}

/// The contents of a `TogglTimeEntry`.
pub struct SourceTimeEntry {
    pub user: Seq<char>,
    pub email: Seq<char>,
    pub client: Seq<char>,
    pub project: Seq<char>,
    pub task: Seq<char>,
    pub description: Seq<char>,
    pub billable: Seq<char>,
    pub start_date: Seq<char>,
    pub start_time: Seq<char>,
    pub end_date: Seq<char>,
    pub end_time: Seq<char>,
    pub duration: Seq<char>,
    pub tags: Seq<char>,
    pub amount: Seq<char>,
}

impl View for TogglTimeEntry {
    type V = SourceTimeEntry;

    open spec fn view(&self) -> SourceTimeEntry {
        SourceTimeEntry {
            user: self.user@,
            email: self.email@,
            client: self.client@,
            project: self.project@,
            task: self.task@,
            description: self.description@,
            billable: self.billable@,
            start_date: self.start_date@,
            start_time: self.start_time@,
            end_date: self.end_date@,
            end_time: self.end_time@,
            duration: self.duration@,
            tags: self.tags@,
            amount: self.amount@,
        }
    }
}

/// Why a date and a time gave no instant.
#[derive(Clone, Debug, PartialEq, Eq)]
pub enum DateTimeError {
    /// The text does not fit `YYYY-MM-DD HH:MM:SS`.
    PatternMismatch { text: String },
    /// The text names a local time that the zone does not resolve to exactly
    /// one valid instant: its clocks skipped it or showed it twice.
    AmbiguousOrInvalidLocalTime { text: String },
}

/// The contents of a `DateTimeError`.
pub enum DateTimeFailure {
    PatternMismatch { text: Seq<char> },
    AmbiguousOrInvalidLocalTime { text: Seq<char> },
}

impl View for DateTimeError {
    type V = DateTimeFailure;

    open spec fn view(&self) -> DateTimeFailure {
        match self {
            DateTimeError::PatternMismatch { text } => {
                DateTimeFailure::PatternMismatch { text: text@ }
            },
            DateTimeError::AmbiguousOrInvalidLocalTime { text } => {
                DateTimeFailure::AmbiguousOrInvalidLocalTime { text: text@ }
            },
        }
    }
}

impl DateTimeFailure {
    /// The date and time that gave no instant, joined as they were read.
    pub open spec fn text(self) -> Seq<char> {
        match self {
            DateTimeFailure::PatternMismatch { text } => text,
            DateTimeFailure::AmbiguousOrInvalidLocalTime { text } => text,
        }
    }
}

impl DateTimeError {
    /// The date and time that gave no instant, joined as they were read.
    pub fn text(&self) -> (text: &str)
        ensures
            text@ == self@.text(),
    {
        match self {
            DateTimeError::PatternMismatch { text } => text.as_str(),
            DateTimeError::AmbiguousOrInvalidLocalTime { text } => text.as_str(),
        }
    }

    /// The error in words: that the date and time could not be read, and
    /// what they were.
    pub fn message(&self) -> (message: String)
        ensures
            message@ == DATE_TIME_ERROR_PREFIX@ + self@.text(),
    {
        let mut message = DATE_TIME_ERROR_PREFIX.to_owned();
        message.append(self.text());
        message
    }
}

/// A date and a time as one text: the date, one space, the time.
pub open spec fn date_time_text(date: Seq<char>, time: Seq<char>) -> Seq<char> {
    date + seq![' '] + time
}

/// The instant that a date and a time come to, going by what was made of
/// their joined text: `local` is what the reading of the text came to in the
/// zone, `None` where the text does not fit the pattern, and
/// `within_calendar` says whether the one instant of the reading, if it has
/// exactly one, can be written as a date again.
pub open spec fn local_instant(
    text: Seq<char>,
    local: Option<LocalTime>,
    within_calendar: bool,
) -> Result<Instant, DateTimeFailure> {
    match local {
        None => Err(DateTimeFailure::PatternMismatch { text }),
        Some(LocalTime::Single(instant)) => if within_calendar {
            Ok(instant)
        } else {
            Err(DateTimeFailure::AmbiguousOrInvalidLocalTime { text })
        },
        Some(_) => Err(DateTimeFailure::AmbiguousOrInvalidLocalTime { text }),
    }
}

/// What the joined text of a date and a time comes to in a zone: it is read
/// by `DATE_TIME_FORMAT` as the reading of a wall clock, and the reading is
/// resolved in the zone. `None` where the text does not fit the pattern.
pub open spec fn local_time(text: Seq<char>, zone: Seq<char>) -> Option<LocalTime> {
    match wall_clock_reading(text, DATE_TIME_FORMAT@) {
        Some(clock) => Some(local_time_in(clock, zone)),
        None => None,
    }
}

/// Whether `local` is one instant that can be written as a date again.
pub open spec fn is_within_calendar(local: Option<LocalTime>) -> bool {
    local matches Some(LocalTime::Single(instant)) && utc_text(instant@) is Some
}

/// The instant that a date and a time stand for in a zone.
pub open spec fn date_time_reading(
    date: Seq<char>,
    time: Seq<char>,
    zone: Seq<char>,
) -> Result<Instant, DateTimeFailure> {
    let text = date_time_text(date, time);
    let local = local_time(text, zone);
    local_instant(text, local, is_within_calendar(local))
}

/// Whether `parsed` is what `reading` says, the error taken by its contents.
pub open spec fn is_reading(
    parsed: Result<Instant, DateTimeError>,
    reading: Result<Instant, DateTimeFailure>,
) -> bool {
    match parsed {
        Ok(instant) => reading == Ok::<Instant, DateTimeFailure>(instant),
        Err(error) => reading == Err::<Instant, DateTimeFailure>(error@),
    }
}

impl SourceTimeEntry {
    /// The instant at which the entry starts.
    pub open spec fn start(self, zone: Seq<char>) -> Result<Instant, DateTimeFailure> {
        date_time_reading(self.start_date, self.start_time, zone)
    }

    /// The instant at which the entry ends.
    pub open spec fn end(self, zone: Seq<char>) -> Result<Instant, DateTimeFailure> {
        date_time_reading(self.end_date, self.end_time, zone)
    }
}

/// Joins a date and a time by one space.
pub fn join_date_time(date: &str, time: &str) -> (text: String)
    ensures
        text@ == date_time_text(date@, time@),
{
    let mut text = date.to_owned();
    text.append(" ");
    text.append(time);
    proof {
        reveal_strlit(" ");
    }
    text
}

/// Says which instant a date and a time come to, from what was made of their
/// joined text `text`.
///
/// A text that did not fit the pattern gives `PatternMismatch`. A reading
/// that has no instant in the zone, or two, or one that cannot be written as
/// a date again, gives `AmbiguousOrInvalidLocalTime`.
pub fn instant_of(
    text: String,
    local: Option<LocalTime>,
    within_calendar: bool,
) -> (found: Result<Instant, DateTimeError>)
    ensures
        is_reading(found, local_instant(text@, local, within_calendar)),
{
    match local {
        None => Err(DateTimeError::PatternMismatch { text }),
        Some(LocalTime::Single(instant)) => {
            if within_calendar {
                Ok(instant)
            } else {
                Err(DateTimeError::AmbiguousOrInvalidLocalTime { text })
            }
        },
        Some(_) => Err(DateTimeError::AmbiguousOrInvalidLocalTime { text }),
    }
}

/// Reads a date (`YYYY-MM-DD`) and a time (`HH:MM:SS`) as a local time of
/// `time_zone` and gives the instant that it stands for.
pub fn parse_date_time(
    date: &str,
    time: &str,
    time_zone: &Zone,
) -> (parsed: Result<Instant, DateTimeError>)
    ensures
        is_reading(parsed, date_time_reading(date@, time@, time_zone@)),
        parsed matches Ok(instant) ==> utc_text(instant@) is Some,
{
    let text = join_date_time(date, time);
    let local = match WallClock::parse(text.as_str()) {
        Some(clock) => Some(time_zone.resolve(clock)),
        None => None,
    };
    let within_calendar = match local {
        Some(LocalTime::Single(instant)) => instant.to_utc_text().is_some(),
        _ => false,
    };
    instant_of(text, local, within_calendar)
}

impl TogglTimeEntry {
    /// The instant at which the entry starts, its start date and start time
    /// read as a local time of `time_zone`.
    pub fn start(&self, time_zone: &Zone) -> (parsed: Result<Instant, DateTimeError>)
        ensures
            is_reading(parsed, self@.start(time_zone@)),
            parsed matches Ok(instant) ==> utc_text(instant@) is Some,
    {
        parse_date_time(self.start_date.as_str(), self.start_time.as_str(), time_zone)
    }

    /// The instant at which the entry ends, its end date and end time read
    /// as a local time of `time_zone`.
    pub fn end(&self, time_zone: &Zone) -> (parsed: Result<Instant, DateTimeError>)
        ensures
            is_reading(parsed, self@.end(time_zone@)),
            parsed matches Ok(instant) ==> utc_text(instant@) is Some,
    {
        parse_date_time(self.end_date.as_str(), self.end_time.as_str(), time_zone)
    }
}

} // verus!
