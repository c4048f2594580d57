//! Timestamps: RFC 3339 texts, read by `chrono` into milliseconds since the Unix epoch.

use vstd::prelude::*;
use crate::errors::ErrorKind;

verus! {

/// The error of `chrono`'s parsers.
#[verifier::external_type_specification]
#[verifier::external_body]
pub struct ExParseError(chrono::ParseError);

/// The milliseconds since 1970-01-01T00:00:00Z (leap seconds not counted) of the instant
/// that an RFC 3339 date-and-time text names, or nothing where `chrono` does not read
/// the text as one.
pub uninterp spec fn rfc3339_millis(text: Seq<char>) -> Option<i64>;

/// Calls `chrono::DateTime::parse_from_rfc3339` and, on the date it returns,
/// `timestamp_millis`. Trusted: the result is the one that `rfc3339_millis` names.
#[verifier::external_body]
pub(crate) fn parse_rfc3339_millis(text: &str) -> (res: Result<i64, chrono::ParseError>)
    ensures
        res is Ok <==> rfc3339_millis(text@) is Some,
        res matches Ok(millis) ==> rfc3339_millis(text@) == Some(millis),
{
    match chrono::DateTime::parse_from_rfc3339(text) {
        Ok(instant) => Ok(instant.timestamp_millis()),
        Err(e) => Err(e),
    }
}

/// What a parsed timestamp is worth as an ordering score: the milliseconds, or a
/// serialization error where the text was not a timestamp.
pub open spec fn score_of(parsed: Option<i64>) -> Result<i64, ErrorKind> {
    match parsed {
        Some(millis) => Ok(millis),
        None => Err(ErrorKind::SerializationError),
    }
}

/// Turns what the parser returned into an ordering score.
pub fn score_from_parsed(parsed: Result<i64, chrono::ParseError>) -> (res: Result<i64, ErrorKind>)
    ensures
        res == score_of(
            match parsed {
                Ok(millis) => Some(millis),
                Err(_) => None,
            },
        ),
{
    match parsed {
        Ok(millis) => Ok(millis),
        Err(_) => Err(ErrorKind::SerializationError),
    }
}

/// The ordering score of an RFC 3339 timestamp: its milliseconds since the Unix epoch.
/// A text that is no such timestamp is a serialization error.
pub fn epoch_millis(timestamp: &str) -> (res: Result<i64, ErrorKind>)
    ensures
        res == score_of(rfc3339_millis(timestamp@)),
{
    score_from_parsed(parse_rfc3339_millis(timestamp))
}

} // verus!
