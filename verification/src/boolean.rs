//! Boolean accessor.
//!
//! Only the exact literals `true`, `TRUE`, `false` and `FALSE` are
//! recognized; every other text, including `True`, `1` and the empty
//! string, is a parse failure.

use crate::defaulted_value;
use crate::err_to_view;
use crate::optional_value;
use crate::required_value;
use crate::EnvError;
use crate::RawValue;
use vstd::prelude::*;
use vstd::string::StrSliceExecFns;
use vstd::string::StringExecFns;

verus! {

/// The boolean a text value denotes, if any: exactly the four
/// case-sensitive literals are recognized.
pub open spec fn bool_of_text(s: Seq<char>) -> Option<bool> {
    if s == "true"@ || s == "TRUE"@ {
        Some(true)
    } else if s == "false"@ || s == "FALSE"@ {
        Some(false)
    } else {
        None
    }
}

/// Diagnostic text reported when a value cannot be read as a boolean.
pub open spec fn bool_parse_reason(s: Seq<char>) -> Seq<char> {
    "Couldn't parse as bool: '"@ + s + "'"@
}

/// Character-by-character string equality.
fn eq_str(a: &str, b: &str) -> (r: bool)
    ensures
        r == (a@ == b@),
{
    let alen = a.unicode_len();
    let blen = b.unicode_len();
    if alen != blen {
        return false;
    }
    let mut i: usize = 0;
    while i < alen
        invariant
            i <= alen,
            alen == a@.len(),
            alen == b@.len(),
            forall|j: int| 0 <= j < i ==> a@[j] == b@[j],
        decreases alen - i,
    {
        if a.get_char(i) != b.get_char(i) {
            return false;
        }
        i = i + 1;
    }
    proof {
        assert(a@ =~= b@);
    }
    true
}

/// Recognizes the four boolean literals.
fn parse_bool_text(s: &str) -> (r: Option<bool>)
    ensures
        r == bool_of_text(s@),
{
    if eq_str(s, "true") || eq_str(s, "TRUE") {
        Some(true)
    } else if eq_str(s, "false") || eq_str(s, "FALSE") {
        Some(false)
    } else {
        None
    }
}

/// Builds the parse-failure diagnostic around the offending text.
fn bool_reason_string(s: &str) -> (r: String)
    ensures
        r@ == bool_parse_reason(s@),
{
    let mut msg = String::from_str("Couldn't parse as bool: '");
    msg.append(s);
    msg.append("'");
    msg
}

/// Reads a raw environment value as a bool.
/// Absence, unreadable bytes and unrecognized text all yield `None`.
pub fn get_env_bool_optional(raw: RawValue) -> (r: Option<bool>)
    ensures
        r == optional_value(raw@, |s: Seq<char>| bool_of_text(s)),
{
    match raw {
        RawValue::Text(val) => parse_bool_text(val.as_str()),
        _ => None,
    }
}

/// Reads a raw environment value as a bool, or falls back to the provided
/// default. Absence, unreadable bytes and unrecognized text all yield the
/// default.
pub fn get_env_bool_or_default(raw: RawValue, default: bool) -> (r: bool)
    ensures
        r == defaulted_value(raw@, |s: Seq<char>| bool_of_text(s), default),
{
    match raw {
        RawValue::Text(val) => match parse_bool_text(val.as_str()) {
            Some(b) => b,
            None => default,
        },
        _ => default,
    }
}

/// Reads a raw environment value as a bool.
/// Absence, unreadable bytes and unrecognized text each yield their own
/// error.
pub fn get_env_bool_required(raw: RawValue) -> (r: Result<bool, EnvError>)
    ensures
        err_to_view(r) == required_value(
            raw@,
            |s: Seq<char>| bool_of_text(s),
            |s: Seq<char>| bool_parse_reason(s),
        ),
{
    match raw {
        RawValue::Absent => Err(EnvError::RequiredNotPresent),
        RawValue::NotUnicode => Err(EnvError::NotUnicode),
        RawValue::Text(val) => match parse_bool_text(val.as_str()) {
            Some(b) => Ok(b),
            None => Err(EnvError::ParseError { reason: bool_reason_string(val.as_str()) }),
        },
    }
}

/// Law: the four exact literals parse to their boolean, and every other
/// text is a parse failure.
pub proof fn lemma_bool_literals()
    ensures
        bool_of_text("true"@) == Some(true),
        bool_of_text("TRUE"@) == Some(true),
        bool_of_text("false"@) == Some(false),
        bool_of_text("FALSE"@) == Some(false),
        forall|s: Seq<char>|
            s != "true"@ && s != "TRUE"@ && s != "false"@ && s != "FALSE"@
                ==> #[trigger] bool_of_text(s) is None,
{
    reveal_strlit("true");
    reveal_strlit("TRUE");
    reveal_strlit("false");
    reveal_strlit("FALSE");
    assert("true"@.len() == 4);
    assert("TRUE"@.len() == 4);
    assert("false"@.len() == 5);
    assert("FALSE"@.len() == 5);
    assert("false"@[0] == 'f');
    assert("FALSE"@[0] == 'F');
}

} // verus!
