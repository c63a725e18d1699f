use invoicehandler::settings::{parse_unsigned, Settings, SettingsError, SettingsSection};

fn section(w: Option<&str>, m: Option<&str>, d: Option<&str>) -> SettingsSection {
    SettingsSection {
        watch_directory: w.map(|s| s.to_string()),
        max_lock_retries: m.map(|s| s.to_string()),
        lock_retry_delay_ms: d.map(|s| s.to_string()),
    }
}

fn error_of(sec: Option<&SettingsSection>) -> Option<SettingsError> {
    Settings::from_section(sec).err()
}

#[test]
fn defaults_apply_when_absent() {
    let sec = section(Some("/data/in"), None, None);
    let s = Settings::from_section(Some(&sec)).ok().expect("valid");
    assert_eq!(s.watch_directory, "/data/in");
    assert_eq!(s.max_lock_retries, 30);
    assert_eq!(s.lock_retry_delay_ms, 1000);
}

#[test]
fn explicit_values_are_read() {
    let sec = section(Some("/x"), Some("5"), Some("+250"));
    let s = Settings::from_section(Some(&sec)).ok().expect("valid");
    assert_eq!(s.max_lock_retries, 5);
    assert_eq!(s.lock_retry_delay_ms, 250);
}

#[test]
fn missing_section_and_directory_are_errors() {
    assert_eq!(error_of(None), Some(SettingsError::MissingSection));
    assert_eq!(error_of(Some(&section(None, Some("5"), None))), Some(SettingsError::MissingWatchDirectory));
}

#[test]
fn bad_numbers_are_errors() {
    assert_eq!(error_of(Some(&section(Some("/x"), Some("abc"), None))), Some(SettingsError::InvalidMaxLockRetries));
    assert_eq!(error_of(Some(&section(Some("/x"), Some("0"), None))), Some(SettingsError::InvalidMaxLockRetries));
    assert_eq!(error_of(Some(&section(Some("/x"), Some("4294967296"), None))), Some(SettingsError::InvalidMaxLockRetries));
    assert_eq!(error_of(Some(&section(Some("/x"), None, Some("-1")))), Some(SettingsError::InvalidLockRetryDelay));
    assert_eq!(error_of(Some(&section(Some("/x"), Some("x"), Some("-1")))), Some(SettingsError::InvalidMaxLockRetries));
}

#[test]
fn largest_values_are_accepted() {
    let sec = section(Some("/x"), Some("4294967295"), Some("18446744073709551615"));
    let s = Settings::from_section(Some(&sec)).ok().expect("valid");
    assert_eq!(s.max_lock_retries, u32::MAX);
    assert_eq!(s.lock_retry_delay_ms, u64::MAX);
}

#[test]
fn unsigned_text_parsing() {
    assert_eq!(parse_unsigned("123", 1000), Some(123));
    assert_eq!(parse_unsigned("+007", 1000), Some(7));
    assert_eq!(parse_unsigned("0", 0), Some(0));
    assert_eq!(parse_unsigned("", 1000), None);
    assert_eq!(parse_unsigned("+", 1000), None);
    assert_eq!(parse_unsigned("-1", 1000), None);
    assert_eq!(parse_unsigned(" 1", 1000), None);
    assert_eq!(parse_unsigned("1001", 1000), None);
    assert_eq!(parse_unsigned("1000", 1000), Some(1000));
    assert_eq!(parse_unsigned("18446744073709551616", u64::MAX), None);
    assert_eq!(parse_unsigned("99999999999999999999999x", u64::MAX), None);
    assert_eq!(parse_unsigned("\u{ff11}", 1000), None);
}
