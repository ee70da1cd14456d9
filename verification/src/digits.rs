//! Decimal parsing of environment variable text.
//!
//! The grammar is the one the standard integer parsers accept: an optional
//! sign (`+` always, `-` only for signed targets) followed by one or more
//! ASCII digits, and the resulting value must fit the target's range.

use vstd::prelude::*;
use vstd::string::StrSliceExecFns;

verus! {

/// The character is one of the ASCII digits `0` through `9`.
pub open spec fn is_dec_digit(c: char) -> bool {
    48 <= (c as u32) && (c as u32) <= 57
}

/// Numeric value of an ASCII digit character.
pub open spec fn dec_digit_val(c: char) -> int {
    (c as u32) - 48
}

/// Every character of the sequence is an ASCII digit.
pub open spec fn all_dec_digits(s: Seq<char>) -> bool {
    forall|i: int| 0 <= i < s.len() ==> is_dec_digit(#[trigger] s[i])
}

/// Value of a digit sequence read in base ten, most significant first.
pub open spec fn dec_val(s: Seq<char>) -> int
    decreases s.len(),
{
    if s.len() == 0 {
        0
    } else {
        dec_val(s.drop_last()) * 10 + dec_digit_val(s.last())
    }
}

/// Value of text as an unsigned decimal number no greater than `max`:
/// an optional leading `+`, then one or more digits.
pub open spec fn unsigned_of_text(s: Seq<char>, max: int) -> Option<int> {
    let body = if s.len() > 0 && s[0] == '+' {
        s.subrange(1, s.len() as int)
    } else {
        s
    };
    if body.len() > 0 && all_dec_digits(body) && dec_val(body) <= max {
        Some(dec_val(body))
    } else {
        None
    }
}

/// Value of text as a signed decimal number within `[min, max]`:
/// an optional leading `+` or `-`, then one or more digits.
pub open spec fn signed_of_text(s: Seq<char>, min: int, max: int) -> Option<int> {
    if s.len() > 0 && s[0] == '-' {
        let body = s.subrange(1, s.len() as int);
        if body.len() > 0 && all_dec_digits(body) && -dec_val(body) >= min {
            Some(-dec_val(body))
        } else {
            None
        }
    } else {
        unsigned_of_text(s, max)
    }
}

/// A digit string's value is never negative.
proof fn lemma_dec_val_nonneg(s: Seq<char>)
    requires
        all_dec_digits(s),
    ensures
        dec_val(s) >= 0,
    decreases s.len(),
{
    if s.len() > 0 {
        assert(forall|i: int|
            0 <= i < s.drop_last().len() ==> is_dec_digit(#[trigger] s.drop_last()[i]));
        lemma_dec_val_nonneg(s.drop_last());
    }
}

/// Appending digits to a digit string never decreases its value.
proof fn lemma_dec_val_prefix_le(s: Seq<char>, k: int)
    requires
        all_dec_digits(s),
        0 <= k <= s.len(),
    ensures
        dec_val(s.take(k)) <= dec_val(s),
    decreases s.len(),
{
    if k == s.len() {
        assert(s.take(k) =~= s);
    } else {
        let head = s.drop_last();
        assert(forall|i: int| 0 <= i < head.len() ==> is_dec_digit(#[trigger] head[i]));
        lemma_dec_val_prefix_le(head, k);
        assert(s.take(k) =~= head.take(k));
        lemma_dec_val_nonneg(head);
    }
}

/// Parses `s[start..]` as one or more digits whose value is at most
/// `bound`; rejects an empty digit string, a non-digit, and a value
/// above `bound`.
pub(crate) fn parse_digits_bounded(s: &str, start: usize, bound: u64) -> (r: Option<u64>)
    requires
        start <= s@.len(),
    ensures
        ({
            let body = s@.subrange(start as int, s@.len() as int);
            match r {
                Some(v) => body.len() > 0 && all_dec_digits(body) && dec_val(body) == v && v
                    <= bound,
                None => body.len() == 0 || !all_dec_digits(body) || dec_val(body) > bound,
            }
        }),
{
    let ghost body = s@.subrange(start as int, s@.len() as int);
    let len = s.unicode_len();
    if start == len {
        return None;
    }
    let mut i = start;
    let mut acc: u64 = 0;
    while i < len
        invariant
            start <= i <= len,
            start < len,
            len == s@.len(),
            body == s@.subrange(start as int, s@.len() as int),
            acc <= bound,
            all_dec_digits(body.take(i - start)),
            acc == dec_val(body.take(i - start)),
        decreases len - i,
    {
        let c = s.get_char(i);
        let cv = c as u32;
        if cv < 48 || cv > 57 {
            proof {
                assert(body[i - start] == s@[i as int]);
                assert(!is_dec_digit(body[i - start]));
            }
            return None;
        }
        let d: u64 = (cv - 48) as u64;
        let wide: u128 = (acc as u128) * 10 + (d as u128);
        proof {
            assert(body.take(i + 1 - start).drop_last() =~= body.take(i - start));
            assert(body.take(i + 1 - start).last() == s@[i as int]);
            assert(dec_val(body.take(i + 1 - start)) == acc * 10 + d);
        }
        if wide > bound as u128 {
            proof {
                if all_dec_digits(body) {
                    lemma_dec_val_prefix_le(body, i + 1 - start);
                }
            }
            return None;
        }
        acc = wide as u64;
        i = i + 1;
    }
    proof {
        assert(body.take(i - start) =~= body);
    }
    Some(acc)
}

/// Parses text as an unsigned decimal number no greater than `bound`.
pub(crate) fn parse_unsigned(s: &str, bound: u64) -> (r: Option<u64>)
    ensures
        match r {
            Some(v) => unsigned_of_text(s@, bound as int) == Some(v as int),
            None => unsigned_of_text(s@, bound as int) is None,
        },
{
    let len = s.unicode_len();
    let start: usize = if len > 0 && s.get_char(0) == '+' {
        1
    } else {
        0
    };
    let r = parse_digits_bounded(s, start, bound);
    proof {
        if !(s@.len() > 0 && s@[0] == '+') {
            assert(s@.subrange(0, s@.len() as int) =~= s@);
        }
    }
    r
}

/// Parses text as a signed decimal number in `[-(bound_neg), bound_pos]`.
pub(crate) fn parse_signed(s: &str, bound_pos: u64, bound_neg: u64) -> (r: Option<i64>)
    requires
        bound_pos <= i64::MAX,
        bound_neg <= 0x8000_0000_0000_0000u64,
    ensures
        match r {
            Some(v) => signed_of_text(s@, -(bound_neg as int), bound_pos as int) == Some(v as int),
            None => signed_of_text(s@, -(bound_neg as int), bound_pos as int) is None,
        },
{
    let len = s.unicode_len();
    if len > 0 && s.get_char(0) == '-' {
        match parse_digits_bounded(s, 1, bound_neg) {
            None => None,
            Some(mag) => {
                if mag <= i64::MAX as u64 {
                    Some(-(mag as i64))
                } else {
                    // the magnitude can only be one past `i64::MAX` here
                    Some(i64::MIN)
                }
            },
        }
    } else {
        match parse_unsigned(s, bound_pos) {
            None => None,
            Some(v) => Some(v as i64),
        }
    }
}

} // verus!
