//! The activation screen, and what the app concludes from the stored
//! license on every launch.
use vstd::prelude::*;
use crate::license::{
    names_expiry, license_verdict, concludes, day_label, spec_day_label, spec_timestamp_in_range, verify, key_verdict, LicenseError,
    LicensePayload,
};
use crate::text::{spec_trim, trim};
use crate::repo::license::LicenseRow;
use crate::text::{push_decimal, spec_decimal};
use crate::time::{trunc_div, UtcTime};

verus! {

/// Where the Terms & Conditions checkbox links out to.
pub const TNC_URL: &'static str = "https://open-source.srotas.space/products/desk/tnc";

#[derive(Debug)]
pub struct ActivationState {
    /// This machine's permanent device id, shown so the shopkeeper can
    /// send it to whoever issues their license key.
    pub device_id: String,
    pub key_input: String,
    pub agreed_to_tnc: bool,
    pub error: Option<String>,
}

impl Default for ActivationState {
    fn default() -> (r: ActivationState)
        ensures
            r.device_id@.len() == 0 && r.key_input@.len() == 0 && !r.agreed_to_tnc && r.error is None,
    {
        ActivationState { device_id: String::new(), key_input: String::new(), agreed_to_tnc: false, error: None }
    }
}

/// Whether the app may move past the Activation screen.
#[derive(Debug)]
pub enum Outcome {
    /// `expiry_warning` is set when the license is valid but expires soon.
    Valid { device_id: String, expiry_warning: Option<String> },
    NeedsActivation { device_id: String, message: Option<String> },
}

/// How far ahead of a license's expiry to start warning.
pub const EXPIRY_WARNING_WINDOW_DAYS: i64 = 14;

/// Whole days from `now` until `expires_at` (unix seconds), as chrono's
/// `(expires_at - now).num_days()` counts them: rounded toward zero.
pub open spec fn days_left(expires_at: int, now: UtcTime) -> int {
    trunc_div(trunc_div(expires_at * 1_000_000_000 - now.instant(), 1_000_000_000), 86_400)
}

/// The warning text around the expiry date: what precedes the date.
pub open spec fn warning_head() -> Seq<char> {
    "Your license expires on "@
}

/// The warning text after the date, for `days` days left.
pub open spec fn warning_tail(days: int) -> Seq<char> {
    " ("@ + spec_decimal((if days > 0 { days } else { 0 }) as nat) + " day"@ + (if days == 1 {
        Seq::<char>::empty()
    } else {
        "s"@
    }) + " left) \u{2014} contact us for a renewal key before then."@
}

/// A heads-up when a license expires within the warning window: the date
/// it expires and how many days are left. Perpetual licenses never warn.
pub fn expiry_warning(payload: &LicensePayload, now: UtcTime) -> (r: Option<String>)
    requires
        payload.expires_at matches Some(e) ==> spec_timestamp_in_range(e),
        payload.expires_at matches Some(e) ==> -10_000_000_000_000 <= e <= 10_000_000_000_000,
        now.representable(),
    ensures
        match payload.expires_at {
            None => r is None,
            Some(e) => if days_left(e as int, now) > EXPIRY_WARNING_WINDOW_DAYS {
                r is None
            } else {
                r matches Some(w) && w@ == warning_head() + spec_day_label(e) + warning_tail(days_left(e as int, now))
            },
        },
{
    let expires_at = match payload.expires_at {
        Some(e) => e,
        None => return None,
    };
    let seconds = crate::time::seconds_between(now, UtcTime::from_secs(expires_at));
    let days = seconds / 86_400;
    assert(days == days_left(expires_at as int, now));
    if days > EXPIRY_WARNING_WINDOW_DAYS {
        return None;
    }
    let date = day_label(expires_at);
    let mut out = String::from_str("Your license expires on ");
    out.append(date.as_str());
    let ghost head_and_date = out@;
    out.append(" (");
    push_decimal(&mut out, if days > 0 { days as u64 } else { 0 });
    out.append(" day");
    if days != 1 {
        out.append("s");
    }
    out.append(" left) \u{2014} contact us for a renewal key before then.");
    assert(out@ =~= warning_head() + date@ + warning_tail(days as int));
    Some(out)
}

/// The expiry a verified payload carries is a moment chrono can show.
pub open spec fn payload_times_ok(p: LicensePayload) -> bool {
    p.expires_at matches Some(e) ==> spec_timestamp_in_range(e) && -10_000_000_000_000 <= e
        <= 10_000_000_000_000
}

/// What `expiry_warning` gives for `payload` at `now`.
pub open spec fn warns_as(payload: LicensePayload, now: UtcTime, w: Option<String>) -> bool {
    match payload.expires_at {
        None => w is None,
        Some(e) => if days_left(e as int, now) > EXPIRY_WARNING_WINDOW_DAYS {
            w is None
        } else {
            w matches Some(t) && t@ == warning_head() + spec_day_label(e) + warning_tail(days_left(e as int, now))
        },
    }
}

/// What a launch concludes once the stored key has been checked.
pub open spec fn outcome_of(device_id: String, check: Result<LicensePayload, LicenseError>, now: UtcTime, r: Outcome) -> bool {
    match check {
        Ok(p) => r matches Outcome::Valid { device_id: d, expiry_warning: w } && d == device_id && warns_as(
            p,
            now,
            w,
        ),
        Err(e) => r matches Outcome::NeedsActivation { device_id: d, message: Some(m) } && d == device_id && m@
            == e.spec_message(),
    }
}

/// A checked key lets the app proceed, with a warning when expiry is
/// near; a refused one sends the shopkeeper to activation with the reason.
pub fn outcome_of_check(device_id: String, check: Result<LicensePayload, LicenseError>, now: UtcTime) -> (r: Outcome)
    requires
        now.representable(),
        check matches Ok(p) ==> payload_times_ok(p),
    ensures
        outcome_of(device_id, check, now, r),
{
    match check {
        Ok(payload) => {
            let expiry_warning = expiry_warning(&payload, now);
            Outcome::Valid { device_id, expiry_warning }
        },
        Err(e) => Outcome::NeedsActivation { device_id, message: Some(e.message()) },
    }
}

/// A key's verdict, when it lets the key through, carries an expiry chrono
/// can show.
proof fn lemma_verdict_times(key: Seq<char>, valid: bool, device: Seq<char>, now: UtcTime, check: Result<LicensePayload, LicenseError>)
    requires
        concludes(check, key_verdict(key, valid, device, now)),
    ensures
        check matches Ok(p) ==> payload_times_ok(p),
{
}

/// What a launch concludes from the stored license row: no key yet means
/// activation is needed; otherwise the key is checked for this device at
/// `now` and `outcome_of_check` decides.
pub fn license_outcome(row: LicenseRow, now: UtcTime) -> (r: Outcome)
    requires
        now.representable(),
    ensures
        match row.key_text {
            None => r matches Outcome::NeedsActivation { device_id, message } && device_id == row.device_id
                && message is None,
            Some(key) => exists|check: Result<LicensePayload, LicenseError>|
                concludes(check, license_verdict(key@, row.device_id@, now)) && names_expiry(key@, check)
                    && outcome_of(row.device_id, check, now, r),
        },
{
    match row.key_text {
        None => Outcome::NeedsActivation { device_id: row.device_id, message: None },
        Some(key_text) => {
            let check = verify(key_text.as_str(), row.device_id.as_str(), now);
            let ghost checked = check;
            proof {
                lemma_verdict_times(
                    key_text@,
                    crate::license::embedded_signature_holds(key_text@),
                    row.device_id@,
                    now,
                    check,
                );
            }
            let r = outcome_of_check(row.device_id, check, now);
            assert(outcome_of(row.device_id, checked, now, r));
            assert(names_expiry(key_text@, checked));
            r
        },
    }
}

/// Pressing Activate: the typed key (trimmed) must verify for this device
/// at `now`; a refused key shows why. `Some(key)` is the key to store.
pub fn submit(activation: &mut ActivationState, now: UtcTime) -> (r: Option<String>)
    ensures
        final(activation).device_id == old(activation).device_id,
        final(activation).key_input == old(activation).key_input,
        final(activation).agreed_to_tnc == old(activation).agreed_to_tnc,
        spec_trim(old(activation).key_input@).len() == 0 ==> r is None && (final(activation).error matches Some(
            e,
        ) && e@ == "enter your license key"@),
        spec_trim(old(activation).key_input@).len() > 0 ==> exists|check: Result<LicensePayload, LicenseError>|
            {
                &&& concludes(
                    check,
                    license_verdict(spec_trim(old(activation).key_input@), old(activation).device_id@, now),
                )
                &&& names_expiry(spec_trim(old(activation).key_input@), check)
                &&& match check {
                    Err(e) => r is None && (final(activation).error matches Some(m) && m@ == e.spec_message()),
                    Ok(_) => r matches Some(k) && k@ == spec_trim(old(activation).key_input@)
                        && final(activation).error == old(activation).error,
                }
            },
{
    let key = trim(activation.key_input.as_str());
    if key.unicode_len() == 0 {
        activation.error = Some(String::from_str("enter your license key"));
        return None;
    }
    let key_text = String::from_str(key);
    let check = verify(key, activation.device_id.as_str(), now);
    match check {
        Err(e) => {
            activation.error = Some(e.message());
            None
        },
        Ok(_) => Some(key_text),
    }
}

} // verus!
