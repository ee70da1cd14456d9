//! Numeric accessor, generic over the library's parseable number types.
//!
//! The defaulted mode here is deliberately asymmetric: an absent variable
//! yields the caller's default, but a present, malformed value is always
//! reported as an error, never silently replaced by the default. Optional
//! and required behavior for numbers are obtained by the caller treating
//! the `Err` case as absence, or demanding the `Ok` case, respectively.

use crate::digits::parse_signed;
use crate::digits::parse_unsigned;
use crate::digits::signed_of_text;
use crate::digits::unsigned_of_text;
use crate::err_to_view;
use crate::EnvError;
use crate::EnvErrorView;
use crate::RawValue;
use crate::RawView;
use vstd::prelude::*;
use vstd::string::StringExecFns;

verus! {

/// A number type an environment variable can be read as: the type names
/// the texts it accepts, and its parser returns exactly those values.
pub trait EnvNumber: Sized {
    /// The value the text denotes for this type, if any.
    spec fn parse_spec(s: Seq<char>) -> Option<Self>;

    /// Parses text into this type; returns exactly what `parse_spec`
    /// names.
    fn parse_text(s: &str) -> (r: Option<Self>)
        ensures
            r == Self::parse_spec(s@),
    ;
}

impl EnvNumber for u64 {
    open spec fn parse_spec(s: Seq<char>) -> Option<u64> {
        match unsigned_of_text(s, u64::MAX as int) {
            Some(v) => Some(v as u64),
            None => None,
        }
    }

    fn parse_text(s: &str) -> (r: Option<u64>) {
        parse_unsigned(s, u64::MAX)
    }
}

impl EnvNumber for u32 {
    open spec fn parse_spec(s: Seq<char>) -> Option<u32> {
        match unsigned_of_text(s, u32::MAX as int) {
            Some(v) => Some(v as u32),
            None => None,
        }
    }

    fn parse_text(s: &str) -> (r: Option<u32>) {
        match parse_unsigned(s, u32::MAX as u64) {
            Some(v) => Some(v as u32),
            None => None,
        }
    }
}

impl EnvNumber for i64 {
    open spec fn parse_spec(s: Seq<char>) -> Option<i64> {
        match signed_of_text(s, i64::MIN as int, i64::MAX as int) {
            Some(v) => Some(v as i64),
            None => None,
        }
    }

    fn parse_text(s: &str) -> (r: Option<i64>) {
        parse_signed(s, i64::MAX as u64, 0x8000_0000_0000_0000u64)
    }
}

impl EnvNumber for i32 {
    open spec fn parse_spec(s: Seq<char>) -> Option<i32> {
        match signed_of_text(s, i32::MIN as int, i32::MAX as int) {
            Some(v) => Some(v as i32),
            None => None,
        }
    }

    fn parse_text(s: &str) -> (r: Option<i32>) {
        match parse_signed(s, i32::MAX as u64, 0x8000_0000u64) {
            Some(v) => Some(v as i32),
            None => None,
        }
    }
}

/// Diagnostic text reported when a value cannot be read as a number.
pub open spec fn num_parse_reason(s: Seq<char>) -> Seq<char> {
    "Can't parse value: '"@ + s + "'"@
}

/// Defaulted-with-error mode for numbers: absence yields the default,
/// unreadable bytes and malformed text each yield their own error.
pub open spec fn numeric_value<T>(
    raw: RawView,
    parse: spec_fn(Seq<char>) -> Option<T>,
    reason: spec_fn(Seq<char>) -> Seq<char>,
    default: T,
) -> Result<T, EnvErrorView> {
    match raw {
        RawView::Absent => Ok(default),
        RawView::NotUnicode => Err(EnvErrorView::NotUnicode),
        RawView::Text(s) => match parse(s) {
            Some(v) => Ok(v),
            None => Err(EnvErrorView::ParseError { reason: reason(s) }),
        },
    }
}

/// Builds the parse-failure diagnostic around the offending text.
fn num_reason_string(s: &str) -> (r: String)
    ensures
        r@ == num_parse_reason(s@),
{
    let mut msg = String::from_str("Can't parse value: '");
    msg.append(s);
    msg.append("'");
    msg
}

/// Reads a raw environment value as a number, or falls back to the
/// provided default when the variable is absent. A present value that
/// does not parse is an error even though a default is in hand.
pub fn get_env_num<T: EnvNumber>(raw: RawValue, default: T) -> (r: Result<T, EnvError>)
    ensures
        err_to_view(r) == numeric_value(
            raw@,
            |s: Seq<char>| T::parse_spec(s),
            |s: Seq<char>| num_parse_reason(s),
            default,
        ),
{
    match raw {
        RawValue::Absent => Ok(default),
        RawValue::NotUnicode => Err(EnvError::NotUnicode),
        RawValue::Text(val) => match T::parse_text(val.as_str()) {
            Some(v) => Ok(v),
            None => Err(EnvError::ParseError { reason: num_reason_string(val.as_str()) }),
        },
    }
}

/// Law: the numeric default substitutes only for absence; a present text
/// value decides the outcome alone, and a malformed one is an error even
/// though a default was supplied.
pub proof fn lemma_numeric_default_asymmetry<T>(
    parse: spec_fn(Seq<char>) -> Option<T>,
    reason: spec_fn(Seq<char>) -> Seq<char>,
    default: T,
    s: Seq<char>,
)
    ensures
        numeric_value(RawView::Absent, parse, reason, default) == Ok::<T, EnvErrorView>(default),
        parse(s) is None ==> numeric_value(RawView::Text(s), parse, reason, default) == Err::<
            T,
            EnvErrorView,
        >(EnvErrorView::ParseError { reason: reason(s) }),
        parse(s) matches Some(v) ==> numeric_value(RawView::Text(s), parse, reason, default)
            == Ok::<T, EnvErrorView>(v),
{
}

} // verus!
