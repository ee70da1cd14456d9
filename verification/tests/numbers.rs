use typed_env::get_env_duration_seconds_optional;
use typed_env::get_env_duration_seconds_or_default;
use typed_env::get_env_duration_seconds_required;
use typed_env::get_env_num;
use typed_env::DurationSeconds;
use typed_env::EnvError;
use typed_env::RawValue;

fn text(s: &str) -> RawValue {
    RawValue::Text(s.to_string())
}

fn secs(n: u64) -> DurationSeconds {
    DurationSeconds { secs: n }
}

#[test]
fn duration_parses_whole_seconds() {
    assert_eq!(get_env_duration_seconds_optional(text("0")), Some(secs(0)));
    assert_eq!(get_env_duration_seconds_optional(text("120")), Some(secs(120)));
    assert_eq!(get_env_duration_seconds_required(text("3600")), Ok(secs(3600)));
}

#[test]
fn duration_rejects_non_integer_text() {
    assert_eq!(get_env_duration_seconds_optional(text("-1")), None);
    assert_eq!(get_env_duration_seconds_optional(text("1.5")), None);
    assert_eq!(get_env_duration_seconds_optional(text("abc")), None);
    assert_eq!(get_env_duration_seconds_optional(text("")), None);
    assert_eq!(get_env_duration_seconds_optional(text("10s")), None);
    assert_eq!(get_env_duration_seconds_or_default(text("-1"), secs(9)), secs(9));
    assert_eq!(
        get_env_duration_seconds_required(text("1.5")),
        Err(EnvError::ParseError {
            reason: "Couldn't parse as number: '1.5'".to_string()
        })
    );
}

#[test]
fn duration_absence_follows_the_tri_mode_contract() {
    assert_eq!(get_env_duration_seconds_optional(RawValue::Absent), None);
    assert_eq!(
        get_env_duration_seconds_or_default(RawValue::Absent, secs(30)),
        secs(30)
    );
    assert_eq!(
        get_env_duration_seconds_required(RawValue::Absent),
        Err(EnvError::RequiredNotPresent)
    );
}

#[test]
fn duration_edge_values() {
    assert_eq!(
        get_env_duration_seconds_optional(text("18446744073709551615")),
        Some(secs(u64::MAX))
    );
    assert_eq!(
        get_env_duration_seconds_optional(text("18446744073709551616")),
        None
    );
    // the standard integer grammar allows a leading plus sign
    assert_eq!(get_env_duration_seconds_optional(text("+5")), Some(secs(5)));
    assert_eq!(get_env_duration_seconds_optional(text("+")), None);
}

#[test]
fn num_default_substitutes_only_for_absence() {
    assert_eq!(get_env_num::<u64>(RawValue::Absent, 5), Ok(5));
    assert_eq!(get_env_num::<u64>(text("42"), 5), Ok(42));
    // a present malformed value is an error, never the default
    assert_eq!(
        get_env_num::<u64>(text("abc"), 5),
        Err(EnvError::ParseError {
            reason: "Can't parse value: 'abc'".to_string()
        })
    );
}

#[test]
fn num_not_unicode_is_its_own_error() {
    assert_eq!(
        get_env_num::<u64>(RawValue::NotUnicode, 5),
        Err(EnvError::NotUnicode)
    );
}

#[test]
fn num_unsigned_ranges() {
    assert_eq!(get_env_num::<u64>(text("18446744073709551615"), 0), Ok(u64::MAX));
    assert!(get_env_num::<u64>(text("18446744073709551616"), 0).is_err());
    assert_eq!(get_env_num::<u32>(text("4294967295"), 0), Ok(u32::MAX));
    assert!(get_env_num::<u32>(text("4294967296"), 0).is_err());
    assert!(get_env_num::<u32>(text("-1"), 0).is_err());
    assert_eq!(get_env_num::<u32>(text("+7"), 0), Ok(7));
}

#[test]
fn num_signed_ranges() {
    assert_eq!(get_env_num::<i64>(text("-7"), 0), Ok(-7));
    assert_eq!(get_env_num::<i64>(text("-0"), 1), Ok(0));
    assert_eq!(
        get_env_num::<i64>(text("-9223372036854775808"), 0),
        Ok(i64::MIN)
    );
    assert!(get_env_num::<i64>(text("-9223372036854775809"), 0).is_err());
    assert_eq!(
        get_env_num::<i64>(text("9223372036854775807"), 0),
        Ok(i64::MAX)
    );
    assert!(get_env_num::<i64>(text("9223372036854775808"), 0).is_err());
    assert_eq!(get_env_num::<i32>(text("-2147483648"), 0), Ok(i32::MIN));
    assert!(get_env_num::<i32>(text("-2147483649"), 0).is_err());
    assert_eq!(get_env_num::<i32>(text("2147483647"), 0), Ok(i32::MAX));
    assert!(get_env_num::<i32>(text("2147483648"), 0).is_err());
}

#[test]
fn num_grammar_matches_the_standard_parsers() {
    // exactly what str::parse accepts for integers, no more
    assert!(get_env_num::<i64>(text(""), 0).is_err());
    assert!(get_env_num::<i64>(text("+"), 0).is_err());
    assert!(get_env_num::<i64>(text("-"), 0).is_err());
    assert!(get_env_num::<i64>(text("+-3"), 0).is_err());
    assert!(get_env_num::<i64>(text("1 "), 0).is_err());
    assert!(get_env_num::<i64>(text("1_000"), 0).is_err());
    assert!(get_env_num::<u64>(text("0x10"), 0).is_err());
    assert_eq!(get_env_num::<u64>(text("007"), 0), Ok(7));
}
