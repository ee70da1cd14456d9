//! File-system path accessor.
//!
//! On the platforms this library models, every piece of text is a
//! syntactically valid path, so parsing never rejects a readable value;
//! the only failures are absence and unreadable bytes. Callers must not
//! expect path-syntax validation to catch malformed paths.

use crate::defaulted_value;
use crate::optional_value;
use crate::required_value;
use crate::EnvError;
use crate::EnvErrorView;
use crate::RawValue;
use crate::RawView;
use vstd::prelude::*;

verus! {

/// A file-system path, held as its text.
#[derive(Debug, Clone, PartialEq, Eq)]
pub struct PathValue {
    /// The path's text, exactly as the environment supplied it.
    pub text: String,
}

impl View for PathValue {
    type V = Seq<char>;

    open spec fn view(&self) -> Seq<char> {
        self.text@
    }
}

/// Model of an optional path: the path becomes its text.
pub open spec fn opt_path_view(r: Option<PathValue>) -> Option<Seq<char>> {
    match r {
        Some(p) => Some(p@),
        None => None,
    }
}

/// Model of a path-or-error result.
pub open spec fn path_result_view(r: Result<PathValue, EnvError>) -> Result<
    Seq<char>,
    EnvErrorView,
> {
    match r {
        Ok(p) => Ok(p@),
        Err(e) => Err(e@),
    }
}

/// Reads a raw environment value as a path.
/// Absence and unreadable bytes yield `None`; any text is accepted.
pub fn get_env_pathbuf_optional(raw: RawValue) -> (r: Option<PathValue>)
    ensures
        opt_path_view(r) == optional_value(raw@, |s: Seq<char>| Some(s)),
{
    match raw {
        RawValue::Text(val) => Some(PathValue { text: val }),
        _ => None,
    }
}

/// Reads a raw environment value as a path, or falls back to the provided
/// default. Absence and unreadable bytes yield the default; any text is
/// accepted.
pub fn get_env_pathbuf_or_default(raw: RawValue, default_value: PathValue) -> (r: PathValue)
    ensures
        r@ == defaulted_value(raw@, |s: Seq<char>| Some(s), default_value@),
{
    match raw {
        RawValue::Text(val) => PathValue { text: val },
        _ => default_value,
    }
}

/// Reads a raw environment value as a path.
/// Absence and unreadable bytes each yield their own error; any text is
/// accepted.
pub fn get_env_pathbuf_required(raw: RawValue) -> (r: Result<PathValue, EnvError>)
    ensures
        // any text parses, so the diagnostic text is never consulted
        path_result_view(r) == required_value(
            raw@,
            |s: Seq<char>| Some(s),
            |s: Seq<char>| s,
        ),
{
    match raw {
        RawValue::Absent => Err(EnvError::RequiredNotPresent),
        RawValue::NotUnicode => Err(EnvError::NotUnicode),
        RawValue::Text(val) => Ok(PathValue { text: val }),
    }
}

/// Law: every readable text value is accepted as a path in all three
/// modes, and comes through with its text unchanged.
pub proof fn lemma_path_accepts_any_text(s: Seq<char>, default: Seq<char>)
    ensures
        optional_value(RawView::Text(s), |t: Seq<char>| Some(t)) == Some(s),
        defaulted_value(RawView::Text(s), |t: Seq<char>| Some(t), default) == s,
        required_value(RawView::Text(s), |t: Seq<char>| Some(t), |t: Seq<char>| t) == Ok::<
            Seq<char>,
            EnvErrorView,
        >(s),
{
}

} // verus!
