use typed_env::get_env_bool_optional;
use typed_env::get_env_bool_or_default;
use typed_env::get_env_bool_required;
use typed_env::get_env_pathbuf_optional;
use typed_env::get_env_pathbuf_or_default;
use typed_env::get_env_pathbuf_required;
use typed_env::get_env_string_optional;
use typed_env::get_env_string_or_default;
use typed_env::get_env_string_required;
use typed_env::log_level_to_set;
use typed_env::EnvError;
use typed_env::PathValue;
use typed_env::RawValue;

fn text(s: &str) -> RawValue {
    RawValue::Text(s.to_string())
}

#[test]
fn bool_optional_recognizes_exact_literals() {
    assert_eq!(get_env_bool_optional(text("true")), Some(true));
    assert_eq!(get_env_bool_optional(text("TRUE")), Some(true));
    assert_eq!(get_env_bool_optional(text("false")), Some(false));
    assert_eq!(get_env_bool_optional(text("FALSE")), Some(false));
}

#[test]
fn bool_optional_rejects_everything_else() {
    assert_eq!(get_env_bool_optional(text("True")), None);
    assert_eq!(get_env_bool_optional(text("False")), None);
    assert_eq!(get_env_bool_optional(text("1")), None);
    assert_eq!(get_env_bool_optional(text("0")), None);
    assert_eq!(get_env_bool_optional(text("")), None);
    assert_eq!(get_env_bool_optional(text("yes")), None);
    assert_eq!(get_env_bool_optional(text(" true")), None);
}

#[test]
fn bool_optional_absent_and_not_unicode_yield_none() {
    assert_eq!(get_env_bool_optional(RawValue::Absent), None);
    assert_eq!(get_env_bool_optional(RawValue::NotUnicode), None);
}

#[test]
fn bool_or_default_falls_back_on_absence_and_parse_failure() {
    assert_eq!(get_env_bool_or_default(RawValue::Absent, true), true);
    assert_eq!(get_env_bool_or_default(RawValue::Absent, false), false);
    assert_eq!(get_env_bool_or_default(RawValue::NotUnicode, true), true);
    assert_eq!(get_env_bool_or_default(text("yes"), true), true);
    assert_eq!(get_env_bool_or_default(text("false"), true), false);
    assert_eq!(get_env_bool_or_default(text("TRUE"), false), true);
}

#[test]
fn bool_required_reports_each_failure_kind() {
    assert_eq!(get_env_bool_required(text("true")), Ok(true));
    assert_eq!(get_env_bool_required(text("FALSE")), Ok(false));
    assert_eq!(
        get_env_bool_required(RawValue::Absent),
        Err(EnvError::RequiredNotPresent)
    );
    assert_eq!(
        get_env_bool_required(RawValue::NotUnicode),
        Err(EnvError::NotUnicode)
    );
    assert_eq!(
        get_env_bool_required(text("yes")),
        Err(EnvError::ParseError {
            reason: "Couldn't parse as bool: 'yes'".to_string()
        })
    );
}

#[test]
fn string_round_trip_in_all_modes() {
    let value = "some arbitrary value with spaces";
    assert_eq!(get_env_string_optional(text(value)), Some(value.to_string()));
    assert_eq!(
        get_env_string_or_default(text(value), "fallback"),
        value.to_string()
    );
    assert_eq!(get_env_string_required(text(value)), Ok(value.to_string()));
}

#[test]
fn string_empty_text_passes_through() {
    assert_eq!(get_env_string_optional(text("")), Some(String::new()));
    assert_eq!(get_env_string_or_default(text(""), "fallback"), String::new());
    assert_eq!(get_env_string_required(text("")), Ok(String::new()));
}

#[test]
fn string_absence_follows_the_tri_mode_contract() {
    assert_eq!(get_env_string_optional(RawValue::Absent), None);
    assert_eq!(
        get_env_string_or_default(RawValue::Absent, "fallback"),
        "fallback".to_string()
    );
    assert_eq!(
        get_env_string_required(RawValue::Absent),
        Err(EnvError::RequiredNotPresent)
    );
}

#[test]
fn string_not_unicode_is_its_own_error() {
    assert_eq!(get_env_string_optional(RawValue::NotUnicode), None);
    assert_eq!(
        get_env_string_or_default(RawValue::NotUnicode, "fallback"),
        "fallback".to_string()
    );
    assert_eq!(
        get_env_string_required(RawValue::NotUnicode),
        Err(EnvError::NotUnicode)
    );
}

#[test]
fn path_accepts_any_text_in_all_modes() {
    let p = "/var/log/app log.txt";
    let default = PathValue {
        text: "/etc/default".to_string(),
    };
    assert_eq!(
        get_env_pathbuf_optional(text(p)),
        Some(PathValue { text: p.to_string() })
    );
    assert_eq!(
        get_env_pathbuf_or_default(text(p), default.clone()),
        PathValue { text: p.to_string() }
    );
    assert_eq!(
        get_env_pathbuf_required(text(p)),
        Ok(PathValue { text: p.to_string() })
    );
    assert_eq!(
        get_env_pathbuf_optional(text("relative/../path")),
        Some(PathValue {
            text: "relative/../path".to_string()
        })
    );
}

#[test]
fn path_absence_follows_the_tri_mode_contract() {
    let default = PathValue {
        text: "/etc/default".to_string(),
    };
    assert_eq!(get_env_pathbuf_optional(RawValue::Absent), None);
    assert_eq!(
        get_env_pathbuf_or_default(RawValue::Absent, default.clone()),
        default
    );
    assert_eq!(
        get_env_pathbuf_required(RawValue::Absent),
        Err(EnvError::RequiredNotPresent)
    );
}

#[test]
fn path_not_unicode_is_its_own_error() {
    assert_eq!(get_env_pathbuf_optional(RawValue::NotUnicode), None);
    assert_eq!(
        get_env_pathbuf_required(RawValue::NotUnicode),
        Err(EnvError::NotUnicode)
    );
}

#[test]
fn log_level_already_set_is_never_overwritten() {
    assert_eq!(log_level_to_set(text("debug"), Some("warn")), None);
    assert_eq!(log_level_to_set(text("debug"), None), None);
    assert_eq!(log_level_to_set(text(""), Some("warn")), None);
}

#[test]
fn log_level_unset_takes_the_caller_default() {
    assert_eq!(
        log_level_to_set(RawValue::Absent, Some("debug")),
        Some("debug".to_string())
    );
    assert_eq!(
        log_level_to_set(RawValue::NotUnicode, Some("warn")),
        Some("warn".to_string())
    );
}

#[test]
fn log_level_unset_without_default_uses_info() {
    assert_eq!(log_level_to_set(RawValue::Absent, None), Some("info".to_string()));
}
