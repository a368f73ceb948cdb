use srotas_desk::license::{LicenseError, LicensePayload};
use srotas_desk::models::ShopProfile;
use srotas_desk::pin::hash;
use srotas_desk::time::UtcTime;
use srotas_desk::ui::history::{NoticeKind, Stage};
use srotas_desk::ui::login::{
    failed_attempt, lock_in_force, reset_after_key, reset_completed, submit, submit_reset, verified, Attempt,
    LoginState, Outcome,
};

const UNIVERSAL_KEY: &str = "AR9XD6WnnkgUjtaPDg2Xy3QAAAtTcm90YXMgRGVzawAAAABqj8WdAAAAAAAAAABlosBH6RDtxjB1orI7noaUIoU2i3bnJFSvVdp7Bu7PglyFkOZXzbtpVNFhSSKlVTTfUgDqCmvwab/5FQ07dA4L";

fn now() -> UtcTime {
    let t = chrono::Utc::now();
    UtcTime { secs: t.timestamp(), nanos: t.timestamp_subsec_nanos() }
}

fn at(secs: i64) -> UtcTime {
    UtcTime { secs, nanos: 0 }
}

fn shop(pin_hash: Option<String>, locked_until: Option<UtcTime>) -> ShopProfile {
    ShopProfile {
        shop_name: "Test Shop".into(),
        owner_name: String::new(),
        phone: String::new(),
        address: String::new(),
        pin_hash,
        has_logo: false,
        gst_rate_bp: 1800,
        gstin: None,
        pin_failed_attempts: 3,
        pin_locked_until: locked_until,
    }
}

#[test]
fn a_shop_without_a_pin_unlocks_at_once() {
    let mut login = LoginState::default();
    assert_eq!(submit(&mut login, &Some(shop(None, None)), at(1_000)), Attempt::Unlock);
    assert_eq!(submit(&mut login, &None, at(1_000)), Attempt::Ignored);
}

#[test]
fn a_blank_pin_is_refused_and_a_typed_one_is_checked_trimmed() {
    let mut login = LoginState::default();
    let profile = Some(shop(Some("$argon2id$stored".into()), None));
    login.pin_input = "   ".into();
    assert_eq!(submit(&mut login, &profile, at(1_000)), Attempt::Refused);
    assert_eq!(login.error.as_deref(), Some("Enter your PIN to unlock."));

    login.pin_input = " 1234 ".into();
    assert_eq!(submit(&mut login, &profile, at(1_000)), Attempt::Verify("1234".into()));
    assert!(login.verifying);
    assert_eq!(login.error, None);
    // A second press while the key is being checked does nothing.
    assert_eq!(submit(&mut login, &profile, at(1_000)), Attempt::Ignored);
}

#[test]
fn a_running_lockout_refuses_with_its_countdown() {
    let mut login = LoginState::default();
    login.pin_input = "1234".into();
    let profile = Some(shop(Some("$argon2id$stored".into()), Some(at(1_090))));
    assert_eq!(submit(&mut login, &profile, at(1_000)), Attempt::Refused);
    assert_eq!(login.error.as_deref(), Some("Too many wrong PINs \u{2014} try again in 1:30."));
    assert_eq!(login.pin_input, "1234");
}

#[test]
fn a_stored_lock_is_in_force_only_until_it_expires() {
    assert_eq!(lock_in_force(Some(at(1_060)), at(1_000)), Some(at(1_060)));
    assert_eq!(lock_in_force(Some(at(1_000)), at(1_000)), None);
    assert_eq!(lock_in_force(None, at(1_000)), None);
}

#[test]
fn failures_count_down_and_the_fifth_locks_for_thirty_seconds() {
    match failed_attempt(1, at(1_000)) {
        Outcome::Rejected { attempts_left, locked_until } => assert_eq!((attempts_left, locked_until), (4, None)),
        other => panic!("unexpected {other:?}"),
    }
    match failed_attempt(5, at(1_000)) {
        Outcome::Rejected { attempts_left, locked_until } => {
            assert_eq!((attempts_left, locked_until), (0, Some(at(1_030))))
        }
        other => panic!("unexpected {other:?}"),
    }
    match failed_attempt(7, at(1_000)) {
        Outcome::Rejected { attempts_left, locked_until } => {
            assert_eq!((attempts_left, locked_until), (0, Some(at(1_120))))
        }
        other => panic!("unexpected {other:?}"),
    }
}

#[test]
fn unlocking_clears_the_failures_and_goes_home() {
    let mut login = LoginState::default();
    login.pin_input = "1234".into();
    login.verifying = true;
    let mut profile = Some(shop(Some("h".into()), Some(at(900))));
    let mut stage = Stage::Login;
    assert!(verified(&mut login, &mut profile, &mut stage, Ok(Outcome::Unlocked), at(1_000)));
    assert_eq!(stage, Stage::Home);
    assert!(login.pin_input.is_empty() && !login.verifying);
    let p = profile.unwrap();
    assert_eq!((p.pin_failed_attempts, p.pin_locked_until), (0, None));
}

#[test]
fn a_wrong_pin_says_how_many_tries_are_left() {
    let mut login = LoginState::default();
    login.pin_input = "9999".into();
    let mut profile = Some(shop(Some("h".into()), None));
    let mut stage = Stage::Login;
    let outcome = Outcome::Rejected { attempts_left: 2, locked_until: None };
    assert!(!verified(&mut login, &mut profile, &mut stage, Ok(outcome), at(1_000)));
    assert_eq!(login.error.as_deref(), Some("Incorrect PIN \u{2014} 2 attempts left before this screen locks."));
    assert!(login.pin_input.is_empty());
    assert_eq!(stage, Stage::Login);

    let outcome = Outcome::Rejected { attempts_left: 1, locked_until: None };
    verified(&mut login, &mut profile, &mut stage, Ok(outcome), at(1_000));
    assert_eq!(login.error.as_deref(), Some("Incorrect PIN \u{2014} 1 attempt left before this screen locks."));

    let outcome = Outcome::Rejected { attempts_left: 0, locked_until: Some(at(1_030)) };
    verified(&mut login, &mut profile, &mut stage, Ok(outcome), at(1_000));
    assert_eq!(login.error.as_deref(), Some("Too many wrong PINs \u{2014} try again in 30s."));
    assert_eq!(profile.unwrap().pin_locked_until, Some(at(1_030)));
}

#[test]
fn an_existing_lockout_and_an_error_are_reported() {
    let mut login = LoginState::default();
    let mut profile = Some(shop(Some("h".into()), None));
    let mut stage = Stage::Login;
    verified(&mut login, &mut profile, &mut stage, Ok(Outcome::Locked { locked_until: at(1_300) }), at(1_000));
    assert_eq!(login.error.as_deref(), Some("Too many wrong PINs \u{2014} try again in 5:00."));
    assert_eq!(profile.as_ref().unwrap().pin_locked_until, Some(at(1_300)));

    verified(&mut login, &mut profile, &mut stage, Err("database is locked".into()), at(1_000));
    assert_eq!(login.error.as_deref(), Some("database is locked"));
}

#[test]
fn a_reset_needs_a_license_key() {
    let mut login = LoginState::default();
    login.reset_key = "  ".into();
    assert_eq!(submit_reset(&mut login, "device-a", now()), None);
    assert_eq!(login.reset_error.as_deref(), Some("Paste your license key to confirm this is your shop."));

    login.reset_key = "garbage".into();
    assert_eq!(submit_reset(&mut login, "device-a", now()), None);
    assert_eq!(login.reset_error.as_deref(), Some("that doesn't look like a valid license key"));
}

#[test]
fn a_verified_key_lets_a_new_pin_through() {
    let mut login = LoginState::default();
    login.reset_key = UNIVERSAL_KEY.into();
    login.reset_pin = "4321".into();
    login.reset_confirm = "4321".into();
    assert_eq!(submit_reset(&mut login, "device-a", now()), Some(Some("4321".into())));
    assert!(login.resetting);
    // Already under way: a second press does nothing.
    assert_eq!(submit_reset(&mut login, "device-a", now()), None);
}

#[test]
fn after_the_key_the_new_pin_must_be_valid() {
    let payload = LicensePayload { shop_name: "Shop".into(), issued_at: 0, expires_at: None };
    let mut login = LoginState::default();
    login.reset_pin = "12".into();
    login.reset_confirm = "12".into();
    assert_eq!(reset_after_key(&mut login, Ok(payload)), None);
    assert_eq!(login.reset_error.as_deref(), Some("PIN must be 4 to 6 digits"));

    let payload = LicensePayload { shop_name: "Shop".into(), issued_at: 0, expires_at: None };
    login.reset_pin = String::new();
    login.reset_confirm = String::new();
    assert_eq!(reset_after_key(&mut login, Ok(payload)), Some(None));

    let mut login = LoginState::default();
    assert_eq!(reset_after_key(&mut login, Err(LicenseError::DeviceMismatch)), None);
    assert_eq!(login.reset_error.as_deref(), Some("this license key was issued for a different computer"));
    assert!(!login.resetting);
}

#[test]
fn a_finished_reset_signs_the_shopkeeper_in() {
    let mut login = LoginState::default();
    login.resetting = true;
    let mut profile = Some(shop(Some("old".into()), Some(at(5_000))));
    let mut stage = Stage::Login;
    let mut notice = None;
    let new_hash = hash("4321").unwrap();
    assert!(reset_completed(&mut login, &mut profile, &mut stage, &mut notice, Ok(Some(new_hash.clone()))));
    assert_eq!(stage, Stage::Home);
    let p = profile.as_ref().unwrap();
    assert_eq!((p.pin_hash.clone(), p.pin_failed_attempts, p.pin_locked_until), (Some(new_hash), 0, None));
    let n = notice.unwrap();
    assert_eq!((n.text.as_str(), n.kind), ("PIN reset \u{2014} you're signed in.", NoticeKind::Success));

    let mut login = LoginState::default();
    login.resetting = true;
    let mut notice = None;
    assert!(!reset_completed(&mut login, &mut profile, &mut stage, &mut notice, Err("disk full".into())));
    assert_eq!(login.reset_error.as_deref(), Some("disk full"));
    assert!(!login.resetting && notice.is_none());
}
