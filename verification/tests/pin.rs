use srotas_desk::pin::{
    format_remaining, hash, lockout_for, remaining_lock_secs, validate_new, verify, BASE_LOCKOUT_SECS, MAX_ATTEMPTS,
    MAX_LOCKOUT_SECS,
};
use srotas_desk::time::UtcTime;

fn utc(t: chrono::DateTime<chrono::Utc>) -> UtcTime {
    UtcTime { secs: t.timestamp(), nanos: t.timestamp_subsec_nanos() }
}

#[test]
fn a_hash_verifies_against_its_own_pin_and_nothing_else() {
    let stored = hash("1234").unwrap();
    assert!(verify("1234", &stored));
    assert!(!verify("1235", &stored));
    assert!(!verify("", &stored));
}

#[test]
fn the_same_pin_hashes_differently_every_time() {
    assert_ne!(hash("1234").unwrap(), hash("1234").unwrap());
}

#[test]
fn a_corrupt_stored_hash_never_verifies() {
    assert!(!verify("1234", "not-a-phc-string"));
    assert!(!verify("1234", ""));
}

#[test]
fn validates_a_new_pin() {
    assert_eq!(validate_new("1234", "1234").unwrap(), Some("1234".to_string()));
    assert_eq!(validate_new("  ", "").unwrap(), None);
    assert!(validate_new("123", "123").is_err());
    assert!(validate_new("1234567", "1234567").is_err());
    assert!(validate_new("12ab", "12ab").is_err());
    assert!(validate_new("1234", "4321").is_err());
}

#[test]
fn validation_messages_name_the_problem() {
    assert_eq!(validate_new("12ab", "12ab").unwrap_err(), "PIN must be 4 to 6 digits");
    assert_eq!(validate_new("1234", "4321").unwrap_err(), "PIN and confirmation don't match");
    assert_eq!(validate_new(" 123456 ", "123456").unwrap(), Some("123456".to_string()));
}

#[test]
fn lockout_starts_only_at_the_threshold_and_then_doubles() {
    assert!(lockout_for(MAX_ATTEMPTS - 1).is_none());
    assert_eq!(lockout_for(MAX_ATTEMPTS).unwrap(), BASE_LOCKOUT_SECS);
    assert_eq!(lockout_for(MAX_ATTEMPTS + 1).unwrap(), BASE_LOCKOUT_SECS * 2);
    assert_eq!(lockout_for(MAX_ATTEMPTS + 2).unwrap(), BASE_LOCKOUT_SECS * 4);
}

#[test]
fn lockout_is_capped() {
    assert_eq!(lockout_for(MAX_ATTEMPTS + 500).unwrap(), MAX_LOCKOUT_SECS);
}

#[test]
fn lockout_reaches_the_cap_after_five_doublings() {
    assert_eq!(lockout_for(MAX_ATTEMPTS + 4).unwrap(), 480);
    assert_eq!(lockout_for(MAX_ATTEMPTS + 5).unwrap(), MAX_LOCKOUT_SECS);
    assert_eq!(lockout_for(i64::MAX).unwrap(), MAX_LOCKOUT_SECS);
    assert!(lockout_for(i64::MIN).is_none());
}

#[test]
fn an_expired_lock_reports_no_remaining_time() {
    let now = chrono::Utc::now();
    assert_eq!(remaining_lock_secs(None, utc(now)), None);
    assert_eq!(remaining_lock_secs(Some(utc(now - chrono::Duration::seconds(5))), utc(now)), None);
    assert_eq!(remaining_lock_secs(Some(utc(now + chrono::Duration::seconds(30))), utc(now)), Some(30));
}

#[test]
fn a_part_second_remaining_rounds_toward_zero() {
    let now = UtcTime { secs: 100, nanos: 500_000_000 };
    assert_eq!(remaining_lock_secs(Some(UtcTime { secs: 101, nanos: 0 }), now), None);
    assert_eq!(remaining_lock_secs(Some(UtcTime { secs: 102, nanos: 0 }), now), Some(1));
}

#[test]
fn formats_remaining_time_for_humans() {
    assert_eq!(format_remaining(45), "45s");
    assert_eq!(format_remaining(90), "1:30");
    assert_eq!(format_remaining(600), "10:00");
}

#[test]
fn formats_the_minute_boundary_and_odd_values() {
    assert_eq!(format_remaining(60), "1:00");
    assert_eq!(format_remaining(59), "59s");
    assert_eq!(format_remaining(0), "0s");
    assert_eq!(format_remaining(-5), "-5s");
    assert_eq!(format_remaining(3601), "60:01");
}

#[test]
fn stored_hashes_are_argon2id_phc_strings() {
    let h = hash("1234").unwrap();
    assert!(h.starts_with("$argon2id$"));
    assert!(verify("1234", &h));
    assert!(!verify("1234", &h[1..]));
}
