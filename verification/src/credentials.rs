//! The credentials of a Timeular account, as they stand in a text of two
//! lines: the API key on the first, the API secret on the second.

use vstd::prelude::*;

verus! {

/// What ends a line.
pub const LINE_FEED: char = '\n';

/// What may stand before a line feed and then belongs to the line's end.
pub const CARRIAGE_RETURN: char = '\r';

/// Why a text gave no credentials.
#[derive(Clone, Copy, Debug, PartialEq, Eq, Structural)]
pub enum ConfigError {
    /// The text has no line at all.
    MissingApiKey,
    /// The text has one line only.
    MissingApiSecret,
}

impl ConfigError {
    /// The error in words.
    pub fn message(&self) -> (message: &'static str)
        ensures
            message@ == match self {
                ConfigError::MissingApiKey => "Missing api key"@,
                ConfigError::MissingApiSecret => "Missing api secret"@,
            },
    {
        match self {
            ConfigError::MissingApiKey => "Missing api key",
            ConfigError::MissingApiSecret => "Missing api secret",
        }
    }
}

/// Where the first line feed at or after `from` stands in `text`; the end of
/// `text` where there is none.
pub open spec fn line_break_from(text: Seq<char>, from: int) -> int
    decreases text.len() - from,
{
    if 0 <= from < text.len() && text[from] != LINE_FEED {
        line_break_from(text, from + 1)
    } else {
        from
    }
}

/// Where the first line of `text` ends: at its first line feed, or at the end
/// of `text` where it has none.
pub open spec fn line_break(text: Seq<char>) -> int {
    line_break_from(text, 0)
}

/// `line` without the carriage return at its end, if it has one.
pub open spec fn without_carriage_return(line: Seq<char>) -> Seq<char> {
    if line.len() > 0 && line.last() == CARRIAGE_RETURN {
        line.drop_last()
    } else {
        line
    }
}

/// The first line of `text` and what follows it; `None` where `text` is
/// empty.
///
/// A line ends with a line feed, or with a carriage return and a line feed,
/// neither of which belongs to it. The last line may end with the text
/// instead, and then all of it belongs to the line.
pub open spec fn first_line(text: Seq<char>) -> Option<(Seq<char>, Seq<char>)> {
    let at = line_break(text);
    if text.len() == 0 {
        None
    } else if at == text.len() {
        Some((text, Seq::empty()))
    } else {
        Some(
            (
                without_carriage_return(text.subrange(0, at)),
                text.subrange(at + 1, text.len() as int),
            ),
        )
    }
}

/// The API key and the API secret that `text` holds: its first and its second
/// line. What follows the second line is not looked at.
pub open spec fn credentials(text: Seq<char>) -> Result<(Seq<char>, Seq<char>), ConfigError> {
    match first_line(text) {
        None => Err(ConfigError::MissingApiKey),
        Some((api_key, rest)) => match first_line(rest) {
            None => Err(ConfigError::MissingApiSecret),
            Some((api_secret, _)) => Ok((api_key, api_secret)),
        },
    }
}

/// A place where a line feed or the end of the text stands, with no line feed
/// from `from` up to it, is where the line ends.
pub proof fn lemma_line_break_is(text: Seq<char>, from: int, at: int)
    requires
        0 <= from <= at <= text.len(),
        forall|before: int| from <= before < at ==> text[before] != LINE_FEED,
        at < text.len() ==> text[at] == LINE_FEED,
    ensures
        line_break_from(text, from) == at,
    decreases at - from,
{
    if from < at {
        lemma_line_break_is(text, from + 1, at);
    }
}

/// Splits the first line off `text`.
pub fn split_first_line(text: &str) -> (split: Option<(&str, &str)>)
    ensures
        match split {
            Some((line, rest)) => first_line(text@) == Some((line@, rest@)),
            None => first_line(text@) is None,
        },
{
    let len: usize = text.unicode_len();
    if len == 0 {
        return None;
    }
    let mut at: usize = 0;
    while at < len && text.get_char(at) != LINE_FEED
        invariant
            at <= len,
            len == text@.len(),
            forall|before: int| 0 <= before < at ==> text@[before] != LINE_FEED,
        decreases len - at,
    {
        at += 1;
    }
    proof {
        lemma_line_break_is(text@, 0, at as int);
    }
    if at == len {
        let rest = text.substring_char(len, len);
        return Some((text, rest));
    }
    let rest = text.substring_char(at + 1, len);
    let end: usize = if at > 0 && text.get_char(at - 1) == CARRIAGE_RETURN {
        at - 1
    } else {
        at
    };
    let line = text.substring_char(0, end);
    proof {
        let whole = text@.subrange(0, at as int);
        if end < at {
            assert(whole.drop_last() == text@.subrange(0, end as int));
        }
    }
    Some((line, rest))
}

/// Whether `found` is what `expected` says, the texts taken by their
/// contents.
pub open spec fn is_credentials(
    found: Result<(String, String), ConfigError>,
    expected: Result<(Seq<char>, Seq<char>), ConfigError>,
) -> bool {
    match found {
        Ok((api_key, api_secret)) => expected == Ok::<(Seq<char>, Seq<char>), ConfigError>(
            (api_key@, api_secret@),
        ),
        Err(error) => expected == Err::<(Seq<char>, Seq<char>), ConfigError>(error),
    }
}

/// Reads the API key and the API secret from the text of a credentials file:
/// the key is its first line, the secret its second.
pub fn parse_credentials(text: &str) -> (found: Result<(String, String), ConfigError>)
    ensures
        is_credentials(found, credentials(text@)),
{
    let (api_key, rest) = match split_first_line(text) {
        Some(split) => split,
        None => {
            return Err(ConfigError::MissingApiKey);
        },
    };
    let (api_secret, _) = match split_first_line(rest) {
        Some(split) => split,
        None => {
            return Err(ConfigError::MissingApiSecret);
        },
    };
    Ok((api_key.to_owned(), api_secret.to_owned()))
}

} // verus!
