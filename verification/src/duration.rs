//! Duration accessor, at seconds granularity.
//!
//! The text must be a non-negative whole number of seconds; decimals,
//! negative numbers, units and the empty string are parse failures.

use crate::defaulted_value;
use crate::digits::parse_unsigned;
use crate::digits::unsigned_of_text;
use crate::err_to_view;
use crate::optional_value;
use crate::required_value;
use crate::EnvError;
use crate::RawValue;
use vstd::prelude::*;
use vstd::string::StringExecFns;

verus! {

/// A span of whole seconds.
#[derive(Clone, Copy, Debug, PartialEq, Eq, Structural)]
pub struct DurationSeconds {
    /// The length of the span, in seconds.
    pub secs: u64,
}

/// The duration a text value denotes, if any: a non-negative whole
/// number of seconds that fits the counter.
pub open spec fn duration_of_text(s: Seq<char>) -> Option<DurationSeconds> {
    match unsigned_of_text(s, u64::MAX as int) {
        Some(v) => Some(DurationSeconds { secs: v as u64 }),
        None => None,
    }
}

/// Diagnostic text reported when a value cannot be read as a number of
/// seconds.
pub open spec fn duration_parse_reason(s: Seq<char>) -> Seq<char> {
    "Couldn't parse as number: '"@ + s + "'"@
}

/// Parses a whole number of seconds.
fn parse_duration_text(s: &str) -> (r: Option<DurationSeconds>)
    ensures
        r == duration_of_text(s@),
{
    match parse_unsigned(s, u64::MAX) {
        Some(v) => Some(DurationSeconds { secs: v }),
        None => None,
    }
}

/// Builds the parse-failure diagnostic around the offending text.
fn duration_reason_string(s: &str) -> (r: String)
    ensures
        r@ == duration_parse_reason(s@),
{
    let mut msg = String::from_str("Couldn't parse as number: '");
    msg.append(s);
    msg.append("'");
    msg
}

/// Reads a raw environment value as a duration in seconds.
/// Absence, unreadable bytes and malformed text all yield `None`.
pub fn get_env_duration_seconds_optional(raw: RawValue) -> (r: Option<DurationSeconds>)
    ensures
        r == optional_value(raw@, |s: Seq<char>| duration_of_text(s)),
{
    match raw {
        RawValue::Text(val) => parse_duration_text(val.as_str()),
        _ => None,
    }
}

/// Reads a raw environment value as a duration in seconds, or falls back
/// to the provided default. Absence, unreadable bytes and malformed text
/// all yield the default.
pub fn get_env_duration_seconds_or_default(raw: RawValue, default: DurationSeconds) -> (r:
    DurationSeconds)
    ensures
        r == defaulted_value(raw@, |s: Seq<char>| duration_of_text(s), default),
{
    match raw {
        RawValue::Text(val) => match parse_duration_text(val.as_str()) {
            Some(d) => d,
            None => default,
        },
        _ => default,
    }
}

/// Reads a raw environment value as a duration in seconds.
/// Absence, unreadable bytes and malformed text each yield their own
/// error.
pub fn get_env_duration_seconds_required(raw: RawValue) -> (r: Result<DurationSeconds, EnvError>)
    ensures
        err_to_view(r) == required_value(
            raw@,
            |s: Seq<char>| duration_of_text(s),
            |s: Seq<char>| duration_parse_reason(s),
        ),
{
    match raw {
        RawValue::Absent => Err(EnvError::RequiredNotPresent),
        RawValue::NotUnicode => Err(EnvError::NotUnicode),
        RawValue::Text(val) => match parse_duration_text(val.as_str()) {
            Some(d) => Ok(d),
            None => Err(EnvError::ParseError { reason: duration_reason_string(val.as_str()) }),
        },
    }
}

} // verus!
