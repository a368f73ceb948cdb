use chrono::{DateTime, Duration, Utc};
use srotas_desk::license::LicensePayload;
use srotas_desk::repo::license::LicenseRow;
use srotas_desk::time::UtcTime;
use srotas_desk::ui::activation::{expiry_warning, license_outcome, Outcome, EXPIRY_WARNING_WINDOW_DAYS};

fn utc(t: DateTime<Utc>) -> UtcTime {
    UtcTime { secs: t.timestamp(), nanos: t.timestamp_subsec_nanos() }
}

fn payload(expires_at: Option<DateTime<Utc>>) -> LicensePayload {
    LicensePayload { shop_name: "Test Shop".into(), issued_at: Utc::now().timestamp(), expires_at: expires_at.map(|d| d.timestamp()) }
}

#[test]
fn no_warning_for_a_perpetual_license() {
    assert!(expiry_warning(&payload(None), utc(Utc::now())).is_none());
}

#[test]
fn no_warning_when_expiry_is_well_in_the_future() {
    let expires = Utc::now() + Duration::days(EXPIRY_WARNING_WINDOW_DAYS + 5);
    assert!(expiry_warning(&payload(Some(expires)), utc(Utc::now())).is_none());
}

#[test]
fn warns_once_inside_the_window() {
    let expires = Utc::now() + Duration::days(EXPIRY_WARNING_WINDOW_DAYS - 1);
    let warning = expiry_warning(&payload(Some(expires)), utc(Utc::now())).expect("should warn inside the window");
    assert!(warning.contains("expires on"));
}

#[test]
fn still_warns_right_up_to_expiry() {
    let expires = Utc::now() + Duration::hours(1);
    let warning = expiry_warning(&payload(Some(expires)), utc(Utc::now())).expect("should still warn just before expiry");
    assert!(warning.contains("0 day"));
}

#[test]
fn the_warning_names_the_date_and_the_days_left() {
    let now = UtcTime { secs: 1_800_000_000 - 86_400, nanos: 0 };
    let p = LicensePayload { shop_name: "S".into(), issued_at: 0, expires_at: Some(1_800_000_000) };
    assert_eq!(
        expiry_warning(&p, now).unwrap(),
        "Your license expires on 15 Jan 2027 (1 day left) \u{2014} contact us for a renewal key before then."
    );
    let now = UtcTime { secs: 1_800_000_000 - 3 * 86_400 - 1, nanos: 0 };
    assert!(expiry_warning(&p, now).unwrap().contains("(3 days left)"));
    let now = UtcTime { secs: 1_800_000_000 + 5 * 86_400, nanos: 0 };
    assert!(expiry_warning(&p, now).unwrap().contains("(0 days left)"));
}

#[test]
fn a_row_without_a_key_needs_activation() {
    let row = LicenseRow { device_id: "dev-1".into(), key_text: None };
    match license_outcome(row, utc(Utc::now())) {
        Outcome::NeedsActivation { device_id, message } => {
            assert_eq!(device_id, "dev-1");
            assert!(message.is_none());
        }
        other => panic!("unexpected {other:?}"),
    }
}

#[test]
fn a_row_with_a_bad_key_needs_activation_with_a_reason() {
    let row = LicenseRow { device_id: "dev-1".into(), key_text: Some("garbage".into()) };
    match license_outcome(row, utc(Utc::now())) {
        Outcome::NeedsActivation { device_id, message } => {
            assert_eq!(device_id, "dev-1");
            assert_eq!(message.as_deref(), Some("that doesn't look like a valid license key"));
        }
        other => panic!("unexpected {other:?}"),
    }
}

#[test]
fn the_published_universal_key_is_valid_on_launch() {
    let key = "AR9XD6WnnkgUjtaPDg2Xy3QAAAtTcm90YXMgRGVzawAAAABqj8WdAAAAAAAAAABlosBH6RDtxjB1orI7noaUIoU2i3bnJFSvVdp7Bu7PglyFkOZXzbtpVNFhSSKlVTTfUgDqCmvwab/5FQ07dA4L";
    let row = LicenseRow { device_id: "dev-1".into(), key_text: Some(key.into()) };
    match license_outcome(row, utc(Utc::now())) {
        Outcome::Valid { device_id, expiry_warning } => {
            assert_eq!(device_id, "dev-1");
            assert!(expiry_warning.is_none());
        }
        other => panic!("unexpected {other:?}"),
    }
}
