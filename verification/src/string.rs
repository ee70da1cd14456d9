//! String accessor.
//!
//! A pass-through: present, readable text is returned verbatim, so the
//! only failure that can arise beyond unreadable bytes is absence.

use crate::defaulted_value;
use crate::optional_value;
use crate::required_value;
use crate::EnvError;
use crate::EnvErrorView;
use crate::RawValue;
use crate::RawView;
use vstd::prelude::*;
use vstd::string::StringExecFns;

verus! {

/// Model of an optional string: the text becomes a sequence of
/// characters.
pub open spec fn opt_string_view(r: Option<String>) -> Option<Seq<char>> {
    match r {
        Some(s) => Some(s@),
        None => None,
    }
}

/// Model of a string-or-error result.
pub open spec fn string_result_view(r: Result<String, EnvError>) -> Result<
    Seq<char>,
    EnvErrorView,
> {
    match r {
        Ok(s) => Ok(s@),
        Err(e) => Err(e@),
    }
}

/// Reads a raw environment value as a string.
/// Absence and unreadable bytes yield `None`; text is returned verbatim.
pub fn get_env_string_optional(raw: RawValue) -> (r: Option<String>)
    ensures
        opt_string_view(r) == optional_value(raw@, |s: Seq<char>| Some(s)),
{
    match raw {
        RawValue::Text(val) => Some(val),
        _ => None,
    }
}

/// Reads a raw environment value as a string, or falls back to the
/// provided default. Absence and unreadable bytes yield the default;
/// text is returned verbatim.
pub fn get_env_string_or_default(raw: RawValue, default: &str) -> (r: String)
    ensures
        r@ == defaulted_value(raw@, |s: Seq<char>| Some(s), default@),
{
    match raw {
        RawValue::Text(val) => val,
        _ => String::from_str(default),
    }
}

/// Reads a raw environment value as a string.
/// Absence and unreadable bytes each yield their own error; text is
/// returned verbatim.
pub fn get_env_string_required(raw: RawValue) -> (r: Result<String, EnvError>)
    ensures
        // text always parses, so the diagnostic text is never consulted
        string_result_view(r) == required_value(
            raw@,
            |s: Seq<char>| Some(s),
            |s: Seq<char>| s,
        ),
{
    match raw {
        RawValue::Absent => Err(EnvError::RequiredNotPresent),
        RawValue::NotUnicode => Err(EnvError::NotUnicode),
        RawValue::Text(val) => Ok(val),
    }
}

/// Law: a set text value survives every mode unchanged; no
/// transformation is applied on the way through.
pub proof fn lemma_string_round_trip(s: Seq<char>, default: Seq<char>)
    ensures
        optional_value(RawView::Text(s), |t: Seq<char>| Some(t)) == Some(s),
        defaulted_value(RawView::Text(s), |t: Seq<char>| Some(t), default) == s,
        required_value(RawView::Text(s), |t: Seq<char>| Some(t), |t: Seq<char>| t) == Ok::<
            Seq<char>,
            EnvErrorView,
        >(s),
{
}

} // verus!
