//! Typed access to process environment variables.
//!
//! Each accessor takes the raw outcome of looking a variable up in the
//! process environment ([`RawValue`]) and converts it to a typed value.
//! Every supported type offers three access modes: optional (absence or a
//! parse failure yields no value), defaulted (absence or a parse failure
//! yields a caller-supplied fallback), and required (absence or a parse
//! failure yields an explicit [`EnvError`]).  The numeric accessor is the
//! one deliberate exception: even with a default in hand, a present but
//! malformed value is reported as an error.
//!
//! Reading the environment itself is I/O and lives outside this library;
//! callers fetch the raw value and hand it in.

use vstd::prelude::*;

pub mod boolean;
pub mod digits;
pub mod duration;
pub mod num;
pub mod pathbuf;
pub mod string;

pub use boolean::get_env_bool_optional;
pub use boolean::get_env_bool_or_default;
pub use boolean::get_env_bool_required;

pub use duration::get_env_duration_seconds_optional;
pub use duration::get_env_duration_seconds_or_default;
pub use duration::get_env_duration_seconds_required;
pub use duration::DurationSeconds;

pub use num::get_env_num;
pub use num::EnvNumber;

pub use pathbuf::get_env_pathbuf_optional;
pub use pathbuf::get_env_pathbuf_or_default;
pub use pathbuf::get_env_pathbuf_required;
pub use pathbuf::PathValue;

pub use string::get_env_string_optional;
pub use string::get_env_string_or_default;
pub use string::get_env_string_required;

use vstd::string::StringExecFns;

verus! {

/// Name of the environment variable the Rust env logger reads.
pub const ENV_RUST_LOG: &'static str = "RUST_LOG";

/// The raw outcome of looking one variable up in the process environment:
/// the variable is absent, present but not valid text, or present as text.
pub enum RawValue {
    /// The variable is not set.
    Absent,
    /// The variable is set, but its bytes are not valid text.
    NotUnicode,
    /// The variable is set to this text.
    Text(String),
}

/// Mathematical model of a [`RawValue`]: the text becomes a sequence of
/// characters.
pub enum RawView {
    Absent,
    NotUnicode,
    Text(Seq<char>),
}

impl View for RawValue {
    type V = RawView;

    open spec fn view(&self) -> RawView {
        match self {
            RawValue::Absent => RawView::Absent,
            RawValue::NotUnicode => RawView::NotUnicode,
            RawValue::Text(s) => RawView::Text(s@),
        }
    }
}

/// Why a required-mode (or numeric defaulted-mode) accessor could not
/// produce a value.
#[derive(Debug, Clone, PartialEq, Eq)]
pub enum EnvError {
    /// The variable is set, but its bytes are not valid text.
    NotUnicode,
    /// The variable is set to text that does not match the expected form.
    ParseError {
        /// Human-readable description of the failure; free-form diagnostic.
        reason: String,
    },
    /// The variable is not set, but the caller demanded a value.
    RequiredNotPresent,
}

/// Mathematical model of an [`EnvError`].
pub enum EnvErrorView {
    NotUnicode,
    ParseError { reason: Seq<char> },
    RequiredNotPresent,
}

impl View for EnvError {
    type V = EnvErrorView;

    open spec fn view(&self) -> EnvErrorView {
        match self {
            EnvError::NotUnicode => EnvErrorView::NotUnicode,
            EnvError::ParseError { reason } => EnvErrorView::ParseError { reason: reason@ },
            EnvError::RequiredNotPresent => EnvErrorView::RequiredNotPresent,
        }
    }
}

/// Lifts a result whose value is already a mathematical object to the
/// model level by taking the view of the error alone.
pub open spec fn err_to_view<T>(r: Result<T, EnvError>) -> Result<T, EnvErrorView> {
    match r {
        Ok(v) => Ok(v),
        Err(e) => Err(e@),
    }
}

/// Optional mode: a present text value is parsed; absence, unreadable
/// bytes and parse failures all yield no value.
pub open spec fn optional_value<T>(raw: RawView, parse: spec_fn(Seq<char>) -> Option<T>) -> Option<
    T,
> {
    match raw {
        RawView::Text(s) => parse(s),
        _ => None,
    }
}

/// Defaulted mode: a present text value that parses is returned; absence,
/// unreadable bytes and parse failures all yield the caller's default.
pub open spec fn defaulted_value<T>(
    raw: RawView,
    parse: spec_fn(Seq<char>) -> Option<T>,
    default: T,
) -> T {
    match raw {
        RawView::Text(s) => match parse(s) {
            Some(v) => v,
            None => default,
        },
        _ => default,
    }
}

/// Required mode: a present text value that parses is returned; absence,
/// unreadable bytes and parse failures each yield their own error, with
/// `reason` giving the diagnostic text of a parse failure.
pub open spec fn required_value<T>(
    raw: RawView,
    parse: spec_fn(Seq<char>) -> Option<T>,
    reason: spec_fn(Seq<char>) -> Seq<char>,
) -> Result<T, EnvErrorView> {
    match raw {
        RawView::Absent => Err(EnvErrorView::RequiredNotPresent),
        RawView::NotUnicode => Err(EnvErrorView::NotUnicode),
        RawView::Text(s) => match parse(s) {
            Some(v) => Ok(v),
            None => Err(EnvErrorView::ParseError { reason: reason(s) }),
        },
    }
}

/// Model of an optional borrowed string.
pub open spec fn opt_str_view(o: Option<&str>) -> Option<Seq<char>> {
    match o {
        Some(s) => Some(s@),
        None => None,
    }
}

/// The log level the logger bootstrap should write, if any: a value is
/// written only when the variable holds no text, and it is the caller's
/// default, or `info` when the caller supplied none.
pub open spec fn log_level_choice(current: RawView, default_if_absent: Option<Seq<char>>) -> Option<
    Seq<char>,
> {
    if current is Text {
        None
    } else {
        match default_if_absent {
            Some(level) => Some(level),
            None => Some("info"@),
        }
    }
}

/// Decides what the logger bootstrap writes to the log-level variable:
/// nothing when the variable already holds text, otherwise the caller's
/// default, or `info` when the caller supplied none.
pub fn log_level_to_set(current: RawValue, default_if_absent: Option<&str>) -> (r: Option<String>)
    ensures
        string::opt_string_view(r) == log_level_choice(current@, opt_str_view(default_if_absent)),
{
    match current {
        RawValue::Text(_) => None,
        _ => match default_if_absent {
            Some(level) => Some(String::from_str(level)),
            None => Some(String::from_str("info")),
        },
    }
}

/// Law: a log-level variable that already holds a value is never
/// overwritten, whatever default the caller passed.
pub proof fn lemma_set_log_level_kept(s: Seq<char>, default_if_absent: Option<Seq<char>>)
    ensures
        log_level_choice(RawView::Text(s), default_if_absent) is None,
{
}

/// Law: whatever the type, an unset variable yields no value in optional
/// mode, exactly the caller's default in defaulted mode, and a
/// missing-variable error in required mode.
pub proof fn lemma_absent_modes<T>(
    parse: spec_fn(Seq<char>) -> Option<T>,
    reason: spec_fn(Seq<char>) -> Seq<char>,
    default: T,
)
    ensures
        optional_value(RawView::Absent, parse) is None,
        defaulted_value(RawView::Absent, parse, default) == default,
        required_value(RawView::Absent, parse, reason) == Err::<T, EnvErrorView>(
            EnvErrorView::RequiredNotPresent,
        ),
{
}

} // verus!
