//! Offline verification of Srotas Desk license keys.
//!
//! A key is Base64 text holding a signed payload:
//!
//! ```text
//! version:     u8          (= 1)
//! license_id:  [u8; 16]    (UUID bytes)
//! device_id:   u8 len + UTF-8 bytes (empty = matches any device)
//! shop_name:   u16 len (big-endian) + UTF-8 bytes
//! issued_at:   i64 (big-endian, unix seconds)
//! expires_at:  i64 (big-endian, unix seconds; 0 = perpetual)
//! -- then --
//! signature:   [u8; 64]    (Ed25519 over everything before it)
//! ```
use vstd::prelude::*;
use vstd::utf8::{decode_utf8, valid_utf8};
use crate::text::{spec_trim, trim, same_text, push_decimal};
use crate::time::UtcTime;
use base64::Engine;
use ed25519_dalek::Verifier;

verus! {

/// The Standard-alphabet, padded Base64 decoding of `text`, when `text`
/// is valid Base64.
pub uninterp spec fn spec_base64_decode(text: Seq<char>) -> Option<Seq<u8>>;

/// Whether `secs` seconds after the Unix epoch is a moment chrono can
/// represent (`DateTime::<Utc>::from_timestamp(secs, 0)` is `Some`).
pub uninterp spec fn spec_timestamp_in_range(secs: i64) -> bool;

/// `base64::engine::general_purpose::STANDARD.decode`: the bytes `text`
/// encodes, or `None` when it is not valid padded Standard Base64.
#[verifier::external_body]
fn decode_base64(text: &str) -> (r: Option<Vec<u8>>)
    ensures
        match r {
            Some(bytes) => spec_base64_decode(text@) == Some(bytes@),
            None => spec_base64_decode(text@) is None,
        },
{
    base64::engine::general_purpose::STANDARD.decode(text).ok()
}

/// `String::from_utf8`: succeeds exactly on valid UTF-8, and then holds
/// the characters the bytes encode.
#[verifier::external_body]
fn utf8_to_string(bytes: Vec<u8>) -> (r: Option<String>)
    ensures
        match r {
            Some(s) => valid_utf8(bytes@) && s@ == decode_utf8(bytes@),
            None => !valid_utf8(bytes@),
        },
{
    String::from_utf8(bytes).ok()
}

/// Whether `signature` is a valid Ed25519 signature of `message` under the
/// public key whose 32 bytes are `public_key`, as ed25519-dalek's
/// `VerifyingKey::verify` decides (never, when those bytes are no key).
pub uninterp spec fn spec_signature_holds(public_key: Seq<u8>, message: Seq<u8>, signature: Seq<u8>) -> bool;

/// `ed25519_dalek::VerifyingKey::verify` (through `Verifier`) of `message`
/// and the 64-byte `signature`, under the key `public_key` encodes. Its
/// answer is named, not described.
#[verifier::external_body]
fn signature_holds(public_key: &[u8; 32], message: &[u8], signature: &[u8]) -> (r: bool)
    requires
        signature@.len() == 64,
    ensures
        r == spec_signature_holds(public_key@, message@, signature@),
{
    match ed25519_dalek::VerifyingKey::from_bytes(public_key) {
        Ok(key) => match ed25519_dalek::Signature::from_slice(signature) {
            Ok(sig) => key.verify(message, &sig).is_ok(),
            Err(_) => false,
        },
        Err(_) => false,
    }
}

/// What a shopkeeper reads for the day `secs` seconds after the epoch falls
/// on: chrono's `format("%d %b %Y")` of that moment, e.g. "25 Aug 2027".
pub uninterp spec fn spec_day_label(secs: i64) -> Seq<char>;

/// `chrono::DateTime::<Utc>::from_timestamp(secs, 0).is_some()`: chrono
/// can represent the moment `secs` seconds after the epoch. Chrono's
/// documented range is about 262,000 years either side of the common era,
/// well inside 10^13 seconds.
#[verifier::external_body]
pub(crate) fn timestamp_in_range(secs: i64) -> (r: bool)
    ensures
        r == spec_timestamp_in_range(secs),
        r ==> -10_000_000_000_000 <= secs <= 10_000_000_000_000,
{
    chrono::DateTime::<chrono::Utc>::from_timestamp(secs, 0).is_some()
}

/// `chrono::DateTime::<Utc>::from_timestamp(secs, 0)` written with
/// `format("%d %b %Y")`. Its text is named, not described.
#[verifier::external_body]
pub(crate) fn day_label(secs: i64) -> (r: String)
    requires
        spec_timestamp_in_range(secs),
    ensures
        r@ == spec_day_label(secs),
{
    match chrono::DateTime::<chrono::Utc>::from_timestamp(secs, 0) {
        Some(d) => d.format("%d %b %Y").to_string(),
        None => String::new(),
    }
}

/// Why a license key was refused.
#[derive(Debug)]
pub enum LicenseError {
    InvalidFormat,
    BadSignature,
    DeviceMismatch,
    Expired(String),
}

/// What a verified key says: the shop it was issued to, when, and until
/// when (`None`: perpetual). Times are unix seconds.
#[derive(Debug)]
pub struct LicensePayload {
    pub shop_name: String,
    pub issued_at: i64,
    pub expires_at: Option<i64>,
}

impl LicenseError {
    /// The sentence shown to the shopkeeper.
    pub open spec fn spec_message(&self) -> Seq<char> {
        match self {
            LicenseError::InvalidFormat => "that doesn't look like a valid license key"@,
            LicenseError::BadSignature => "this license key's signature is invalid"@,
            LicenseError::DeviceMismatch => "this license key was issued for a different computer"@,
            LicenseError::Expired(date) => "this license expired on "@ + date@,
        }
    }

    /// The sentence shown to the shopkeeper.
    pub fn message(&self) -> (r: String)
        ensures
            r@ == self.spec_message(),
    {
        match self {
            LicenseError::InvalidFormat => String::from_str("that doesn't look like a valid license key"),
            LicenseError::BadSignature => String::from_str("this license key's signature is invalid"),
            LicenseError::DeviceMismatch => String::from_str("this license key was issued for a different computer"),
            LicenseError::Expired(date) => {
                let mut out = String::from_str("this license expired on ");
                out.append(date.as_str());
                out
            },
        }
    }
}

/// Big-endian value of a byte string.
pub open spec fn be_value(s: Seq<u8>) -> nat
    decreases s.len(),
{
    if s.len() == 0 {
        0
    } else {
        (be_value(s.drop_last()) * 256 + s.last()) as nat
    }
}

/// `i64::from_be_bytes` of eight bytes: two's complement.
pub open spec fn be_i64(s: Seq<u8>) -> int {
    if be_value(s) < 0x8000_0000_0000_0000 {
        be_value(s) as int
    } else {
        be_value(s) - 0x1_0000_0000_0000_0000
    }
}

/// The UTF-8 text in `b[start..end]` and the position after it, when the
/// range lies inside `b` and holds valid UTF-8.
pub open spec fn utf8_field(b: Seq<u8>, start: int, end: int) -> Option<(Seq<char>, int)> {
    if 0 <= start <= end <= b.len() && valid_utf8(b.subrange(start, end)) {
        Some((decode_utf8(b.subrange(start, end)), end))
    } else {
        None
    }
}

/// A string behind a one-byte length, read at `pos`.
pub open spec fn spec_read_u8_prefixed(b: Seq<u8>, pos: int) -> Option<(Seq<char>, int)> {
    if 0 <= pos < b.len() {
        utf8_field(b, pos + 1, pos + 1 + b[pos])
    } else {
        None
    }
}

/// A string behind a two-byte big-endian length, read at `pos`.
pub open spec fn spec_read_u16_prefixed(b: Seq<u8>, pos: int) -> Option<(Seq<char>, int)> {
    if 0 <= pos && pos + 2 <= b.len() {
        utf8_field(b, pos + 2, pos + 2 + b[pos] * 256 + b[pos + 1])
    } else {
        None
    }
}

/// The fields of a payload: device id, shop name, issue and expiry times.
/// Bytes after the expiry are ignored.
pub open spec fn spec_decode_payload(b: Seq<u8>) -> Option<(Seq<char>, Seq<char>, int, int)> {
    if b.len() == 0 || b[0] != 1 {
        None
    } else {
        match spec_read_u8_prefixed(b, 17) {
            None => None,
            Some((device, p)) => match spec_read_u16_prefixed(b, p) {
                None => None,
                Some((shop, q)) => if q + 16 <= b.len() {
                    Some((device, shop, be_i64(b.subrange(q, q + 8)), be_i64(b.subrange(q + 8, q + 16))))
                } else {
                    None
                },
            },
        }
    }
}

/// A unix time in seconds that chrono can turn into a date.
pub open spec fn representable_secs(secs: int) -> bool {
    spec_timestamp_in_range(secs as i64) && -10_000_000_000_000 <= secs <= 10_000_000_000_000
}

/// What checking a payload concludes: the accepted shop name, issue time
/// and expiry, or the refusal. (The date inside `Expired` is left open.)
pub open spec fn spec_check_payload(payload: Seq<u8>, signature_valid: bool, device: Seq<char>, now: UtcTime) -> Result<
    (Seq<char>, i64, Option<i64>),
    LicenseError,
> {
    if !signature_valid {
        Err(LicenseError::BadSignature)
    } else {
        match spec_decode_payload(payload) {
            None => Err(LicenseError::InvalidFormat),
            Some((key_device, shop, issued, expires)) => {
                if key_device.len() != 0 && key_device != device {
                    Err(LicenseError::DeviceMismatch)
                } else if expires != 0 && !representable_secs(expires) {
                    Err(LicenseError::InvalidFormat)
                } else if expires != 0 && now.instant() > expires * 1_000_000_000 {
                    Err(LicenseError::Expired(arbitrary()))
                } else if !representable_secs(issued) {
                    Err(LicenseError::InvalidFormat)
                } else {
                    Ok((shop, issued as i64, if expires == 0 { None } else { Some(expires as i64) }))
                }
            },
        }
    }
}

/// `r` is the conclusion `c`: the same payload, or a refusal of the same
/// kind.
pub open spec fn concludes(r: Result<LicensePayload, LicenseError>, c: Result<(Seq<char>, i64, Option<i64>), LicenseError>) -> bool {
    match (r, c) {
        (Ok(p), Ok(v)) => p.shop_name@ == v.0 && p.issued_at == v.1 && p.expires_at == v.2,
        (Err(LicenseError::Expired(_)), Err(LicenseError::Expired(_))) => true,
        (Err(a), Err(b)) => a == b,
        _ => false,
    }
}

/// The signed part of a decoded key: all but its last 64 bytes.
pub open spec fn signed_part(raw: Seq<u8>) -> Seq<u8> {
    raw.subrange(0, raw.len() - 64)
}

/// What verifying `key_text` concludes, given whether its signature
/// holds: Base64 of the trimmed text, at least 64 bytes, then the payload
/// check.
pub open spec fn key_verdict(key_text: Seq<char>, signature_valid: bool, device: Seq<char>, now: UtcTime) -> Result<
    (Seq<char>, i64, Option<i64>),
    LicenseError,
> {
    match spec_base64_decode(spec_trim(key_text)) {
        None => Err(LicenseError::InvalidFormat),
        Some(raw) => if raw.len() < 64 {
            Err(LicenseError::InvalidFormat)
        } else {
            spec_check_payload(signed_part(raw), signature_valid, device, now)
        },
    }
}

/// A key whose payload names no device activates on every device: the
/// conclusion does not depend on which device asks.
pub proof fn lemma_blank_device_fits_any(payload: Seq<u8>, valid: bool, a: Seq<char>, b: Seq<char>, now: UtcTime)
    requires
        spec_decode_payload(payload) matches Some((device, _, _, _)) && device.len() == 0,
    ensures
        spec_check_payload(payload, valid, a, now) == spec_check_payload(payload, valid, b, now),
{
}

/// Whitespace around a pasted key makes no difference.
pub proof fn lemma_pasted_whitespace_ignored(key: Seq<char>, valid: bool, device: Seq<char>, now: UtcTime)
    ensures
        key_verdict(spec_trim(key), valid, device, now) == key_verdict(key, valid, device, now),
        license_verdict(spec_trim(key), device, now) == license_verdict(key, device, now),
{
    crate::text::lemma_trim_idempotent(key);
}

/// A key whose signature does not hold is never accepted.
pub proof fn lemma_bad_signature_refused(key: Seq<char>, device: Seq<char>, now: UtcTime)
    ensures
        key_verdict(key, false, device, now) is Err,
{
}

/// An accepted key was issued for this device (or for any), and has not
/// expired at `now`.
pub proof fn lemma_accepted_key_is_current(key: Seq<char>, valid: bool, device: Seq<char>, now: UtcTime)
    requires
        key_verdict(key, valid, device, now) is Ok,
    ensures
        valid,
        key_verdict(key, valid, device, now) matches Ok((_, _, Some(e))) ==> now.instant() <= e * 1_000_000_000,
        spec_base64_decode(spec_trim(key)) matches Some(raw) && spec_decode_payload(signed_part(raw)) matches Some(
            (d, _, _, _),
        ) && (d.len() == 0 || d == device),
{
}

fn read_u8_prefixed(bytes: &[u8], pos: &mut usize) -> (r: Result<String, LicenseError>)
    requires
        *old(pos) <= bytes@.len(),
    ensures
        match r {
            Ok(s) => spec_read_u8_prefixed(bytes@, *old(pos) as int) == Some((s@, *final(pos) as int)),
            Err(e) => e is InvalidFormat && spec_read_u8_prefixed(bytes@, *old(pos) as int) is None,
        },
        *final(pos) <= bytes@.len(),
{
    if *pos >= bytes.len() {
        return Err(LicenseError::InvalidFormat);
    }
    let len = bytes[*pos] as usize;
    *pos = *pos + 1;
    let start = *pos;
    if len > bytes.len() - start {
        return Err(LicenseError::InvalidFormat);
    }
    let end = start + len;
    let field = vstd::slice::slice_to_vec(&bytes[start..end]);
    *pos = end;
    match utf8_to_string(field) {
        Some(s) => Ok(s),
        None => Err(LicenseError::InvalidFormat),
    }
}

fn read_u16_prefixed(bytes: &[u8], pos: &mut usize) -> (r: Result<String, LicenseError>)
    requires
        *old(pos) <= bytes@.len(),
    ensures
        match r {
            Ok(s) => spec_read_u16_prefixed(bytes@, *old(pos) as int) == Some((s@, *final(pos) as int)),
            Err(e) => e is InvalidFormat && spec_read_u16_prefixed(bytes@, *old(pos) as int) is None,
        },
        *final(pos) <= bytes@.len(),
{
    if bytes.len() - *pos < 2 {
        return Err(LicenseError::InvalidFormat);
    }
    let len = bytes[*pos] as usize * 256 + bytes[*pos + 1] as usize;
    *pos = *pos + 2;
    let start = *pos;
    if len > bytes.len() - start {
        return Err(LicenseError::InvalidFormat);
    }
    let end = start + len;
    let field = vstd::slice::slice_to_vec(&bytes[start..end]);
    *pos = end;
    match utf8_to_string(field) {
        Some(s) => Ok(s),
        None => Err(LicenseError::InvalidFormat),
    }
}

fn read_i64(bytes: &[u8], pos: &mut usize) -> (r: Result<i64, LicenseError>)
    requires
        *old(pos) <= bytes@.len(),
    ensures
        match r {
            Ok(v) => *old(pos) + 8 <= bytes@.len() && *final(pos) == *old(pos) + 8
                && v == be_i64(bytes@.subrange(*old(pos) as int, *old(pos) + 8)),
            Err(e) => e is InvalidFormat && *old(pos) + 8 > bytes@.len(),
        },
        *final(pos) <= bytes@.len(),
{
    if bytes.len() - *pos < 8 {
        return Err(LicenseError::InvalidFormat);
    }
    let start = *pos;
    let ghost chunk = bytes@.subrange(start as int, start + 8);
    let mut v: u64 = 0;
    let mut k: usize = 0;
    while k < 8
        invariant
            start + 8 <= bytes.len(),
            chunk == bytes@.subrange(start as int, start + 8),
            k <= 8,
            v == be_value(chunk.take(k as int)),
            v < pow256(k as nat),
        decreases 8 - k,
    {
        let b = bytes[start + k];
        assert(chunk.take(k + 1).drop_last() =~= chunk.take(k as int));
        assert(chunk.take(k + 1).last() == b);
        proof {
            lemma_pow256_step(k as nat);
        }
        v = v * 256 + b as u64;
        k = k + 1;
    }
    assert(chunk.take(8) =~= chunk);
    *pos = start + 8;
    if v < 0x8000_0000_0000_0000 {
        Ok(v as i64)
    } else {
        Ok(-((0xffff_ffff_ffff_ffff - v) as i64) - 1)
    }
}

/// `256^k`.
pub open spec fn pow256(k: nat) -> nat
    decreases k,
{
    if k == 0 {
        1
    } else {
        256 * pow256((k - 1) as nat)
    }
}

proof fn lemma_pow256_step(k: nat)
    requires
        k < 8,
    ensures
        pow256(k + 1) == 256 * pow256(k),
        pow256(k + 1) <= 0x1_0000_0000_0000_0000,
    decreases k,
{
    reveal_with_fuel(pow256, 9);
}

/// The payload's fields, still unchecked.
struct DecodedPayload {
    device_id: String,
    shop_name: String,
    issued_at: i64,
    expires_at: i64,
}

fn decode_payload(bytes: &[u8]) -> (r: Result<DecodedPayload, LicenseError>)
    ensures
        match r {
            Ok(d) => spec_decode_payload(bytes@) == Some(
                (d.device_id@, d.shop_name@, d.issued_at as int, d.expires_at as int),
            ),
            Err(e) => e is InvalidFormat && spec_decode_payload(bytes@) is None,
        },
{
    if bytes.len() == 0 || bytes[0] != 1 {
        return Err(LicenseError::InvalidFormat);
    }
    // the version byte, then the license id, which only the issuer needs
    if bytes.len() < 17 {
        return Err(LicenseError::InvalidFormat);
    }
    let mut pos: usize = 17;
    let device_id = read_u8_prefixed(bytes, &mut pos)?;
    let after_device = pos;
    let shop_name = read_u16_prefixed(bytes, &mut pos)?;
    let after_shop = pos;
    let issued_at = read_i64(bytes, &mut pos)?;
    let expires_at = match read_i64(bytes, &mut pos) {
        Ok(v) => v,
        Err(e) => {
            assert(spec_read_u16_prefixed(bytes@, after_device as int) == Some((shop_name@, after_shop as int)));
            return Err(e);
        },
    };
    Ok(DecodedPayload { device_id, shop_name, issued_at, expires_at })
}

/// `now` lies strictly after the whole second `secs`.
fn after_second(now: UtcTime, secs: i64) -> (r: bool)
    ensures
        r == (now.instant() > secs * 1_000_000_000),
{
    (now.secs as i128) * 1_000_000_000 + now.nanos as i128 > (secs as i128) * 1_000_000_000
}

/// Everything a key check does once the signature has been checked:
/// decodes the signed payload, matches its device id (an empty one is a
/// wildcard that activates on any machine) and checks its expiry against
/// `now`.
pub fn check_signed_payload(payload: &[u8], signature_valid: bool, expected_device_id: &str, now: UtcTime) -> (r: Result<
    LicensePayload,
    LicenseError,
>)
    ensures
        concludes(r, spec_check_payload(payload@, signature_valid, expected_device_id@, now)),
        spec_decode_payload(payload@) matches Some((_, _, _, expires)) ==> (r matches Err(
            LicenseError::Expired(date),
        ) ==> date@ == spec_day_label(expires as i64)),
{
    if !signature_valid {
        return Err(LicenseError::BadSignature);
    }
    let decoded = decode_payload(payload)?;
    if decoded.device_id.unicode_len() != 0 && !same_text(decoded.device_id.as_str(), expected_device_id) {
        return Err(LicenseError::DeviceMismatch);
    }
    let expires_at = if decoded.expires_at == 0 {
        None
    } else {
        if !timestamp_in_range(decoded.expires_at) {
            return Err(LicenseError::InvalidFormat);
        }
        if after_second(now, decoded.expires_at) {
            return Err(LicenseError::Expired(day_label(decoded.expires_at)));
        }
        Some(decoded.expires_at)
    };
    if !timestamp_in_range(decoded.issued_at) {
        return Err(LicenseError::InvalidFormat);
    }
    Ok(LicensePayload { shop_name: decoded.shop_name, issued_at: decoded.issued_at, expires_at })
}

/// An `Expired` refusal of `key_text` names the day its payload expires.
pub open spec fn names_expiry(key_text: Seq<char>, r: Result<LicensePayload, LicenseError>) -> bool {
    r matches Err(LicenseError::Expired(date)) ==> (spec_base64_decode(spec_trim(key_text)) matches Some(raw)
        && spec_decode_payload(signed_part(raw)) matches Some((_, _, _, expires)) && date@ == spec_day_label(
        expires as i64,
    ))
}

/// The public half of the keypair license keys are signed with.
pub const PUBLIC_KEY_BYTES: [u8; 32] = [
    136, 115, 100, 241, 52, 113, 96, 169, 214, 26, 243, 17, 2, 180, 121, 72, 21, 123, 64, 21, 60, 137, 234, 29, 61,
    67, 153, 129, 222, 29, 137, 213,
];

/// The last 64 bytes of a decoded key: its signature.
pub open spec fn signature_part(raw: Seq<u8>) -> Seq<u8> {
    raw.subrange(raw.len() - 64, raw.len() as int)
}

/// Whether `key_text`'s signature holds under the public key whose 32
/// bytes are `public_key`.
pub open spec fn signature_holds_under(public_key: Seq<u8>, key_text: Seq<char>) -> bool {
    match spec_base64_decode(spec_trim(key_text)) {
        Some(raw) => raw.len() >= 64 && spec_signature_holds(public_key, signed_part(raw), signature_part(raw)),
        None => false,
    }
}

/// Whether `key_text`'s signature holds under the embedded public key.
pub open spec fn embedded_signature_holds(key_text: Seq<char>) -> bool {
    signature_holds_under(PUBLIC_KEY_BYTES@, key_text)
}

/// What checking `key_text` for `device` at `now` concludes, with its
/// signature checked against the embedded public key.
pub open spec fn license_verdict(key_text: Seq<char>, device: Seq<char>, now: UtcTime) -> Result<
    (Seq<char>, i64, Option<i64>),
    LicenseError,
> {
    key_verdict(key_text, embedded_signature_holds(key_text), device, now)
}

/// Verifies `key_text` against the public key whose 32 bytes are
/// `public_key`, checks it was issued for `expected_device_id` (or for any
/// device), and checks it has not expired as of `now`.
pub fn verify_with_key(key_text: &str, expected_device_id: &str, now: UtcTime, public_key: &[u8; 32]) -> (r: Result<
    LicensePayload,
    LicenseError,
>)
    ensures
        concludes(r, key_verdict(key_text@, signature_holds_under(public_key@, key_text@), expected_device_id@, now)),
        names_expiry(key_text@, r),
{
    let raw = match decode_base64(trim(key_text)) {
        Some(raw) => raw,
        None => return Err(LicenseError::InvalidFormat),
    };
    if raw.len() < 64 {
        return Err(LicenseError::InvalidFormat);
    }
    let split = raw.len() - 64;
    let payload = &raw.as_slice()[0..split];
    let signature = &raw.as_slice()[split..raw.len()];
    assert(payload@ =~= signed_part(raw@));
    assert(signature@ =~= signature_part(raw@));
    let valid = signature_holds(public_key, payload, signature);
    check_signed_payload(payload, valid, expected_device_id, now)
}

/// Verifies `key_text` against the embedded public key, checks it was
/// issued for `expected_device_id` (or for any device), and checks it has
/// not expired as of `now`.
pub fn verify(key_text: &str, expected_device_id: &str, now: UtcTime) -> (r: Result<LicensePayload, LicenseError>)
    ensures
        concludes(r, license_verdict(key_text@, expected_device_id@, now)),
        names_expiry(key_text@, r),
{
    verify_with_key(key_text, expected_device_id, now, &PUBLIC_KEY_BYTES)
}

} // verus!
