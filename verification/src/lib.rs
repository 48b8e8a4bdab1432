//! Moves time-tracking records exported by Toggl into Timeular.
//!
//! The crate holds the decisions of an import run: how one exported row
//! becomes a pair of instants, which rule maps it to an activity, whether it
//! is long enough to be imported, and what is sent for it. Reading files and
//! talking to the remote service is left to the program around it.
//!
//! - [`toggl`]: a row of an export, and the instants of its start and end.
//! - [`time`]: wall-clock readings, time zones and instants.
//! - [`mapping`]: the rules that give an entry its activity.
//! - [`import`]: what is done with each entry of a run, and what the run
//!   reports at its end.
//! - [`timeular`]: what is sent to the service, and how its answer is judged.
//! - [`credentials`]: the API key and secret in the text of a credentials
//!   file.
//! - [`text`]: letter case and cutting text.

pub mod credentials;
pub mod import;
pub mod mapping;
pub mod text;
pub mod time;
pub mod timeular;
pub mod toggl;
