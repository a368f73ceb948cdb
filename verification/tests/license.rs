use base64::Engine;
use chrono::{DateTime, Duration, Utc};
use ed25519_dalek::{Signer, SigningKey, VerifyingKey};
use srotas_desk::license::{check_signed_payload, verify, verify_with_key, LicenseError};
use srotas_desk::time::UtcTime;
use uuid::Uuid;

fn utc(t: DateTime<Utc>) -> UtcTime {
    UtcTime { secs: t.timestamp(), nanos: t.timestamp_subsec_nanos() }
}

fn now() -> UtcTime {
    utc(Utc::now())
}

fn payload_bytes(device_id: &str, shop_name: &str, issued_at: i64, expires_at: i64) -> Vec<u8> {
    let mut buf = Vec::new();
    buf.push(1u8);
    buf.extend_from_slice(Uuid::new_v4().as_bytes());
    buf.push(device_id.len() as u8);
    buf.extend_from_slice(device_id.as_bytes());
    buf.extend_from_slice(&(shop_name.len() as u16).to_be_bytes());
    buf.extend_from_slice(shop_name.as_bytes());
    buf.extend_from_slice(&issued_at.to_be_bytes());
    buf.extend_from_slice(&expires_at.to_be_bytes());
    buf
}

/// Signs a key the way the issuing backend does.
fn sign_test_key(
    signing_key: &SigningKey,
    device_id: &str,
    shop_name: &str,
    issued_at: DateTime<Utc>,
    expires_at: Option<DateTime<Utc>>,
) -> String {
    let mut buf = payload_bytes(device_id, shop_name, issued_at.timestamp(), expires_at.map(|d| d.timestamp()).unwrap_or(0));
    let signature = signing_key.sign(&buf);
    buf.extend_from_slice(&signature.to_bytes());
    base64::engine::general_purpose::STANDARD.encode(buf)
}

fn test_keypair() -> (SigningKey, VerifyingKey) {
    let signing_key = SigningKey::from_bytes(&[42u8; 32]);
    let verifying_key = signing_key.verifying_key();
    (signing_key, verifying_key)
}

#[test]
fn accepts_a_valid_perpetual_key_for_the_right_device() {
    let (signing_key, verifying_key) = test_keypair();
    let key = sign_test_key(&signing_key, "device-a", "Test Shop", Utc::now(), None);

    let payload = verify_with_key(&key, "device-a", now(), &verifying_key.to_bytes()).unwrap();
    assert_eq!(payload.shop_name, "Test Shop");
    assert!(payload.expires_at.is_none());
}

#[test]
fn rejects_a_key_issued_for_a_different_device() {
    let (signing_key, verifying_key) = test_keypair();
    let key = sign_test_key(&signing_key, "device-a", "Test Shop", Utc::now(), None);

    let err = verify_with_key(&key, "device-b", now(), &verifying_key.to_bytes()).unwrap_err();
    assert!(matches!(err, LicenseError::DeviceMismatch));
}

#[test]
fn a_key_with_empty_device_id_activates_on_any_device() {
    let (signing_key, verifying_key) = test_keypair();
    let key = sign_test_key(&signing_key, "", "Universal", Utc::now(), None);

    assert!(verify_with_key(&key, "device-a", now(), &verifying_key.to_bytes()).is_ok());
    assert!(verify_with_key(&key, "some-other-completely-different-device", now(), &verifying_key.to_bytes()).is_ok());
}

#[test]
fn rejects_an_expired_key() {
    let (signing_key, verifying_key) = test_keypair();
    let issued_at = Utc::now() - Duration::days(400);
    let expires_at = Utc::now() - Duration::days(35);
    let key = sign_test_key(&signing_key, "device-a", "Test Shop", issued_at, Some(expires_at));

    let err = verify_with_key(&key, "device-a", now(), &verifying_key.to_bytes()).unwrap_err();
    assert!(matches!(err, LicenseError::Expired(_)));
}

#[test]
fn accepts_a_key_that_has_not_expired_yet() {
    let (signing_key, verifying_key) = test_keypair();
    let expires_at = Utc::now() + Duration::days(30);
    let key = sign_test_key(&signing_key, "device-a", "Test Shop", Utc::now(), Some(expires_at));

    assert!(verify_with_key(&key, "device-a", now(), &verifying_key.to_bytes()).is_ok());
}

#[test]
fn rejects_a_key_signed_by_a_different_keypair() {
    let (_signing_key, verifying_key) = test_keypair();
    let other_signing_key = SigningKey::from_bytes(&[7u8; 32]);
    let key = sign_test_key(&other_signing_key, "device-a", "Test Shop", Utc::now(), None);

    let err = verify_with_key(&key, "device-a", now(), &verifying_key.to_bytes()).unwrap_err();
    assert!(matches!(err, LicenseError::BadSignature));
}

#[test]
fn rejects_garbage_input() {
    let (_signing_key, verifying_key) = test_keypair();
    let err = verify_with_key("not-a-real-license-key", "device-a", now(), &verifying_key.to_bytes()).unwrap_err();
    assert!(matches!(err, LicenseError::InvalidFormat));
}

#[test]
fn verifies_a_key_actually_issued_by_the_backend_admin_api() {
    let key = "AVT8zU5tzU1stTP/UDLz0lwkMTExMTExMTEtMjIyMi0zMzMzLTQ0NDQtNTU1NTU1NTU1NTU1ABJUZXN0IEhhcmR3YXJlIFNob3AAAAAAao1ADQAAAABsbnONT+PPK7xkNRbGNAdotwZN3fLuZBmD5XzXvUzqbxJDJmVdO9sredw9bTwWmlhvIjGT0OHOHppRWorPijoQdRxlCQ==";
    let payload = verify(key, "11111111-2222-3333-4444-555555555555", now()).unwrap();
    assert_eq!(payload.shop_name, "Test Hardware Shop");
    assert!(payload.expires_at.is_some());
}

#[test]
fn the_published_universal_key_activates_on_any_device() {
    let key = "AR9XD6WnnkgUjtaPDg2Xy3QAAAtTcm90YXMgRGVzawAAAABqj8WdAAAAAAAAAABlosBH6RDtxjB1orI7noaUIoU2i3bnJFSvVdp7Bu7PglyFkOZXzbtpVNFhSSKlVTTfUgDqCmvwab/5FQ07dA4L";
    let payload = verify(key, "any-random-device-id-whatsoever", now()).unwrap();
    assert_eq!(payload.shop_name, "Srotas Desk");
    assert!(payload.expires_at.is_none());
}

#[test]
fn surrounding_whitespace_around_a_pasted_key_is_ignored() {
    let (signing_key, verifying_key) = test_keypair();
    let key = sign_test_key(&signing_key, "device-a", "Test Shop", Utc::now(), None);
    let pasted = format!("  {key}\n");
    assert!(verify_with_key(&pasted, "device-a", now(), &verifying_key.to_bytes()).is_ok());
}

#[test]
fn a_decoded_key_shorter_than_a_signature_is_malformed() {
    let (_signing_key, verifying_key) = test_keypair();
    let short = base64::engine::general_purpose::STANDARD.encode([1u8; 63]);
    assert!(matches!(verify_with_key(&short, "device-a", now(), &verifying_key.to_bytes()), Err(LicenseError::InvalidFormat)));
}

#[test]
fn the_payload_fields_come_back_exactly() {
    let bytes = payload_bytes("dev", "Brass & Co", 1_700_000_000, 1_800_000_000);
    let payload = check_signed_payload(&bytes, true, "dev", UtcTime { secs: 1_750_000_000, nanos: 0 }).unwrap();
    assert_eq!(payload.shop_name, "Brass & Co");
    assert_eq!(payload.issued_at, 1_700_000_000);
    assert_eq!(payload.expires_at, Some(1_800_000_000));
}

#[test]
fn a_key_expires_the_instant_after_its_expiry_second() {
    let bytes = payload_bytes("", "Shop", 1, 1_800_000_000);
    assert!(check_signed_payload(&bytes, true, "x", UtcTime { secs: 1_800_000_000, nanos: 0 }).is_ok());
    let late = check_signed_payload(&bytes, true, "x", UtcTime { secs: 1_800_000_000, nanos: 1 });
    match late {
        Err(LicenseError::Expired(date)) => assert_eq!(date, "15 Jan 2027"),
        other => panic!("expected an expiry, got {other:?}"),
    }
}

#[test]
fn a_bad_signature_is_reported_before_the_payload_is_read() {
    assert!(matches!(check_signed_payload(&[0u8; 3], false, "x", now()), Err(LicenseError::BadSignature)));
    assert!(matches!(check_signed_payload(&[0u8; 3], true, "x", now()), Err(LicenseError::InvalidFormat)));
}

#[test]
fn truncated_and_misversioned_payloads_are_malformed() {
    let bytes = payload_bytes("dev", "Shop", 1, 0);
    for cut in [0, 1, 17, 18, bytes.len() - 1] {
        assert!(matches!(check_signed_payload(&bytes[..cut], true, "dev", now()), Err(LicenseError::InvalidFormat)), "{cut}");
    }
    let mut wrong_version = bytes.clone();
    wrong_version[0] = 2;
    assert!(matches!(check_signed_payload(&wrong_version, true, "dev", now()), Err(LicenseError::InvalidFormat)));
}

#[test]
fn invalid_utf8_in_a_name_is_malformed() {
    let mut bytes = payload_bytes("dev", "Shop", 1, 0);
    let shop_start = 1 + 16 + 1 + 3 + 2;
    bytes[shop_start] = 0xff;
    assert!(matches!(check_signed_payload(&bytes, true, "dev", now()), Err(LicenseError::InvalidFormat)));
}

#[test]
fn an_expiry_chrono_cannot_represent_is_malformed() {
    let bytes = payload_bytes("", "Shop", 1, i64::MAX);
    assert!(matches!(check_signed_payload(&bytes, true, "dev", now()), Err(LicenseError::InvalidFormat)));
    let bytes = payload_bytes("", "Shop", i64::MIN, 0);
    assert!(matches!(check_signed_payload(&bytes, true, "dev", now()), Err(LicenseError::InvalidFormat)));
}

#[test]
fn a_negative_timestamp_decodes_as_twos_complement() {
    let bytes = payload_bytes("", "Shop", -86_400, 0);
    let payload = check_signed_payload(&bytes, true, "dev", now()).unwrap();
    assert_eq!(payload.issued_at, -86_400);
}

#[test]
fn error_messages_read_as_sentences() {
    assert_eq!(LicenseError::InvalidFormat.message(), "that doesn't look like a valid license key");
    assert_eq!(LicenseError::BadSignature.message(), "this license key's signature is invalid");
    assert_eq!(LicenseError::DeviceMismatch.message(), "this license key was issued for a different computer");
    assert_eq!(LicenseError::Expired("01 Jan 2030".into()).message(), "this license expired on 01 Jan 2030");
}

#[test]
fn an_expired_key_names_the_day_it_expired() {
    let (signing_key, verifying_key) = test_keypair();
    let expires_at = DateTime::from_timestamp(1_767_225_600, 0).unwrap(); // 1 Jan 2026
    let key = sign_test_key(&signing_key, "device-a", "Test Shop", expires_at - Duration::days(30), Some(expires_at));
    let later = UtcTime { secs: 1_767_225_600 + 86_400, nanos: 0 };

    match verify_with_key(&key, "device-a", later, &verifying_key.to_bytes()) {
        Err(e @ LicenseError::Expired(_)) => assert_eq!(e.message(), "this license expired on 01 Jan 2026"),
        other => panic!("unexpected {other:?}"),
    }
}

#[test]
fn the_embedded_key_refuses_a_key_signed_by_anyone_else() {
    let (signing_key, _verifying_key) = test_keypair();
    let key = sign_test_key(&signing_key, "", "Test Shop", Utc::now(), None);
    assert!(matches!(verify(&key, "device-a", now()), Err(LicenseError::BadSignature)));
}
