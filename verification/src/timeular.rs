//! What is said to the Timeular service and what it answers: the addresses,
//! the bodies of the requests and responses, and how an answer is judged.

use crate::text::{lemma_without_trailing, trim_end_matches, without_trailing};
use vstd::prelude::*;

verus! {

/// The address under which every operation of the service lives.
pub const API_ROOT: &'static str = "https://api.timeular.com/api/v3";

/// Where to sign in, below `API_ROOT`.
pub const SIGN_IN_PATH: &'static str = "/developer/sign-in";

/// Where the activities are listed, below `API_ROOT`.
pub const ACTIVITIES_PATH: &'static str = "/activities";

/// Where time entries are created, below `API_ROOT`.
pub const TIME_ENTRIES_PATH: &'static str = "/time-entries";

/// What stands before the token in the credential sent with every request.
pub const BEARER_PREFIX: &'static str = "Bearer ";

/// The zone suffix that the service does not take at the end of a time.
pub const ZONE_SUFFIX: char = 'Z';

/// The full address of the operation at `path`.
pub fn url(path: &str) -> (address: String)
    ensures
        address@ == API_ROOT@ + path@,
{
    let mut address = API_ROOT.to_owned();
    address.append(path);
    address
}

/// The body of the request to sign in.
#[derive(Clone, Debug, PartialEq, Eq)]
pub struct SignInRequest {
    pub api_key: String,
    pub api_secret: String,
}

/// The answer to a request to sign in.
#[derive(Clone, Debug, PartialEq, Eq)]
pub struct SignInResponse {
    pub token: String,
}

impl SignInResponse {
    /// The credential to send with every later request: the token as a
    /// bearer credential.
    pub fn authorization(&self) -> (credential: String)
        ensures
            credential@ == BEARER_PREFIX@ + self.token@,
    {
        let mut credential = BEARER_PREFIX.to_owned();
        credential.append(self.token.as_str());
        credential
    }
}

/// The activities of an account, by their state.
#[derive(Clone, Debug, PartialEq, Eq)]
pub struct ActivitiesResponse {
    pub activities: Vec<Activity>,
    pub inactive_activities: Vec<Activity>,
    pub archived_activities: Vec<Activity>,
}

/// Something that time can be tracked on.
#[derive(Clone, Debug, PartialEq, Eq)]
pub struct Activity {
    pub id: String,
    pub name: String,
    pub color: String,
    pub integration: String,
    pub space_id: String,
}

/// The body of the request to create a time entry.
#[derive(Clone, Debug, PartialEq, Eq)]
pub struct CreateTimeEntryRequest {
    pub activity_id: String,
    pub started_at: String,
    pub stopped_at: String,
    pub note: Note,
}

/// The note of a time entry.
#[derive(Clone, Debug, PartialEq, Eq)]
pub struct Note {
    pub text: String,
}

/// The contents of a `CreateTimeEntryRequest`.
pub struct OutboundTimeEntry {
    pub activity_id: Seq<char>,
    pub started_at: Seq<char>,
    pub stopped_at: Seq<char>,
    pub note: Seq<char>,
}

impl View for CreateTimeEntryRequest {
    type V = OutboundTimeEntry;

    open spec fn view(&self) -> OutboundTimeEntry {
        OutboundTimeEntry {
            activity_id: self.activity_id@,
            started_at: self.started_at@,
            stopped_at: self.stopped_at@,
            note: self.note.text@,
        }
    }
}

/// A time as the service takes it: the RFC 3339 text of an instant in UTC,
/// without the zone suffix at its end.
pub open spec fn timestamp_text(utc_text: Seq<char>) -> Seq<char> {
    without_trailing(utc_text, ZONE_SUFFIX)
}

/// What is sent for an entry of the activity `activity_id` that started and
/// stopped at the instants whose RFC 3339 texts in UTC are given, with `note`
/// as its note.
pub open spec fn outbound(
    activity_id: Seq<char>,
    started_at_utc: Seq<char>,
    stopped_at_utc: Seq<char>,
    note: Seq<char>,
) -> OutboundTimeEntry {
    OutboundTimeEntry {
        activity_id,
        started_at: timestamp_text(started_at_utc),
        stopped_at: timestamp_text(stopped_at_utc),
        note,
    }
}

impl CreateTimeEntryRequest {
    /// The request to create an entry of the activity `activity_id`, from the
    /// RFC 3339 texts in UTC of the instants at which it started and
    /// stopped, and with `note` as its note. The zone suffix is cut off both
    /// texts.
    pub fn new(
        activity_id: String,
        started_at_utc: &str,
        stopped_at_utc: &str,
        note: &str,
    ) -> (request: CreateTimeEntryRequest)
        ensures
            request@ == outbound(activity_id@, started_at_utc@, stopped_at_utc@, note@),
    {
        CreateTimeEntryRequest {
            activity_id,
            started_at: trim_end_matches(started_at_utc, ZONE_SUFFIX).to_owned(),
            stopped_at: trim_end_matches(stopped_at_utc, ZONE_SUFFIX).to_owned(),
            note: Note { text: note.to_owned() },
        }
    }
}

/// A time written for the service never ends in the zone suffix, and is what
/// the text in UTC begins with.
pub proof fn lemma_timestamp_has_no_zone_suffix(utc_text: Seq<char>)
    ensures
        timestamp_text(utc_text).len() == 0 || timestamp_text(utc_text).last() != ZONE_SUFFIX,
        timestamp_text(utc_text) == utc_text.subrange(0, timestamp_text(utc_text).len() as int),
{
    lemma_without_trailing(utc_text, ZONE_SUFFIX);
}

/// The answer to a request to create a time entry.
#[derive(Clone, Debug, PartialEq, Eq)]
pub struct CreateTimeEntryResponse {
    pub message: Option<String>,
}

/// The service refused a time entry, with this message.
#[derive(Clone, Debug, PartialEq, Eq)]
pub struct RemoteSubmissionError {
    pub message: String,
}

impl CreateTimeEntryResponse {
    /// Whether the answer is a refusal: it holds a message that is not empty.
    pub open spec fn is_refusal(self) -> bool {
        self.message matches Some(message) && message@.len() > 0
    }

    /// Judges the answer: a message that is not empty is the service's
    /// refusal of the entry. Without a message, or with an empty one, the
    /// entry was created.
    pub fn into_result(self) -> (outcome: Result<(), RemoteSubmissionError>)
        ensures
            self.is_refusal() ==> outcome == Err::<(), RemoteSubmissionError>(
                RemoteSubmissionError { message: self.message.unwrap() },
            ),
            !self.is_refusal() ==> outcome is Ok,
    {
        match self.message {
            Some(message) => {
                if message.as_str().is_empty() {
                    Ok(())
                } else {
                    Err(RemoteSubmissionError { message })
                }
            },
            None => Ok(()),
        }
    }
}

} // verus!
