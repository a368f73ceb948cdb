//! The screen-lock screen: PIN entry, the failed-attempt lockout, and the
//! license-key reset path for a forgotten PIN.
use vstd::prelude::*;
use crate::license::{concludes, license_verdict, names_expiry, verify, LicenseError, LicensePayload};
use crate::models::ShopProfile;
use crate::pin::{
    spec_validate_new, validate_new, format_remaining, lockout_for, remaining_lock_secs, spec_format_remaining, spec_lockout_for,
    spec_remaining_lock_secs, MAX_ATTEMPTS,
};
use crate::text::{spec_trim, trim};
use crate::ui::history::{Notice, NoticeKind, Stage};
use crate::text::{push_decimal, spec_decimal};
use crate::time::UtcTime;

verus! {

#[derive(Debug, Clone, Copy, PartialEq, Eq, Structural)]
pub enum ResetField {
    Key,
    NewPin,
    ConfirmPin,
}

#[derive(Debug)]
pub struct LoginState {
    pub pin_input: String,
    pub error: Option<String>,
    /// True while a verification is in flight.
    pub verifying: bool,
    /// Whether the "Forgot PIN?" panel is expanded.
    pub reset_open: bool,
    pub reset_key: String,
    pub reset_pin: String,
    pub reset_confirm: String,
    pub reset_error: Option<String>,
    pub resetting: bool,
}

impl LoginState {
    /// Nothing typed, nothing in flight, no message.
    pub open spec fn is_blank(&self) -> bool {
        &&& self.pin_input@.len() == 0
        &&& self.error is None
        &&& !self.verifying
        &&& !self.reset_open
        &&& self.reset_key@.len() == 0
        &&& self.reset_pin@.len() == 0
        &&& self.reset_confirm@.len() == 0
        &&& self.reset_error is None
        &&& !self.resetting
    }

    pub open spec fn value(&self, field: ResetField) -> Seq<char> {
        match field {
            ResetField::Key => self.reset_key@,
            ResetField::NewPin => self.reset_pin@,
            ResetField::ConfirmPin => self.reset_confirm@,
        }
    }

    pub fn set_field(&mut self, field: ResetField, value: String)
        ensures
            final(self).value(field) == value@,
            forall|g: ResetField| g != field ==> final(self).value(g) == old(self).value(g),
            final(self).pin_input == old(self).pin_input,
            final(self).error == old(self).error,
            final(self).verifying == old(self).verifying,
            final(self).reset_open == old(self).reset_open,
            final(self).reset_error == old(self).reset_error,
            final(self).resetting == old(self).resetting,
    {
        match field {
            ResetField::Key => self.reset_key = value,
            ResetField::NewPin => self.reset_pin = value,
            ResetField::ConfirmPin => self.reset_confirm = value,
        }
    }

    /// Wipes everything typed here, so a PIN never lingers after use.
    pub fn clear(&mut self)
        ensures
            final(self).is_blank(),
    {
        *self = LoginState::default();
    }
}

impl Default for LoginState {
    fn default() -> (r: LoginState)
        ensures
            r.is_blank(),
    {
        LoginState {
            pin_input: String::new(),
            error: None,
            verifying: false,
            reset_open: false,
            reset_key: String::new(),
            reset_pin: String::new(),
            reset_confirm: String::new(),
            reset_error: None,
            resetting: false,
        }
    }
}

/// What a verification attempt concluded.
#[derive(Debug, Clone, Copy)]
pub enum Outcome {
    Unlocked,
    /// Wrong PIN; `attempts_left` counts down to the lockout.
    Rejected { attempts_left: i64, locked_until: Option<UtcTime> },
    /// The screen was already locked when the attempt arrived.
    Locked { locked_until: UtcTime },
}

pub open spec fn spec_lock_message(secs: int) -> Seq<char> {
    "Too many wrong PINs \u{2014} try again in "@ + spec_format_remaining(secs) + "."@
}

pub fn lock_message(secs: i64) -> (r: String)
    ensures
        r@ == spec_lock_message(secs as int),
{
    let mut out = String::from_str("Too many wrong PINs \u{2014} try again in ");
    let remaining = format_remaining(secs);
    out.append(remaining.as_str());
    out.append(".");
    out
}

/// Wrong PINs still allowed after `attempts` consecutive failures.
pub fn attempts_left(attempts: i64) -> (r: i64)
    requires
        attempts >= MAX_ATTEMPTS - i64::MAX,
    ensures
        r == (if MAX_ATTEMPTS - attempts > 0 { MAX_ATTEMPTS - attempts } else { 0 }),
{
    let left = MAX_ATTEMPTS - attempts;
    if left > 0 {
        left
    } else {
        0
    }
}

/// The message after a wrong PIN: the lockout, if one is running, or how
/// many attempts remain before it.
pub open spec fn spec_rejection_message(attempts_left: int, lock_secs: Option<int>) -> Seq<char> {
    match lock_secs {
        Some(secs) => spec_lock_message(secs),
        None => if attempts_left == 1 {
            "Incorrect PIN \u{2014} 1 attempt left before this screen locks."@
        } else {
            "Incorrect PIN \u{2014} "@ + crate::text::spec_int_string(attempts_left)
                + " attempts left before this screen locks."@
        },
    }
}

pub fn rejection_message(attempts_left: i64, lock_secs: Option<i64>) -> (r: String)
    ensures
        r@ == spec_rejection_message(
            attempts_left as int,
            match lock_secs {
                Some(s) => Some(s as int),
                None => None,
            },
        ),
{
    match lock_secs {
        Some(secs) => lock_message(secs),
        None => {
            if attempts_left == 1 {
                String::from_str("Incorrect PIN \u{2014} 1 attempt left before this screen locks.")
            } else {
                let mut out = String::from_str("Incorrect PIN \u{2014} ");
                let magnitude: u64 = if attempts_left < 0 { (-(attempts_left as i128)) as u64 } else { attempts_left as u64 };
                crate::text::push_signed(&mut out, attempts_left < 0, magnitude);
                out.append(" attempts left before this screen locks.");
                out
            }
        },
    }
}

/// What pressing Unlock leads to.
#[derive(Debug, PartialEq, Eq)]
pub enum Attempt {
    /// Nothing to do: a check is already running, or there is no shop.
    Ignored,
    /// Refused on the spot; the form's `error` says why.
    Refused,
    /// No PIN is set: the screen unlocks straight away.
    Unlock,
    /// Check this PIN (as typed, trimmed) against the stored hash.
    Verify(String),
}

/// `after` is `before` with only the error (and the in-flight flag)
/// possibly changed.
pub open spec fn same_entry(before: LoginState, after: LoginState) -> bool {
    &&& after.pin_input == before.pin_input
    &&& after.reset_open == before.reset_open
    &&& after.reset_key == before.reset_key
    &&& after.reset_pin == before.reset_pin
    &&& after.reset_confirm == before.reset_confirm
    &&& after.reset_error == before.reset_error
    &&& after.resetting == before.resetting
}

/// The times a shop profile holds are ones the library can compute with.
pub open spec fn profile_times_ok(shop: Option<ShopProfile>) -> bool {
    shop matches Some(p) ==> (p.pin_locked_until matches Some(u) ==> u.representable())
}

/// Pressing Unlock: a running lockout refuses with its countdown, a shop
/// without a PIN unlocks at once, a blank PIN is refused, and anything
/// else is sent to be checked, trimmed.
pub fn submit(login: &mut LoginState, shop: &Option<ShopProfile>, now: UtcTime) -> (r: Attempt)
    requires
        now.representable(),
        profile_times_ok(*shop),
    ensures
        old(login).verifying ==> r == Attempt::Ignored && *final(login) == *old(login),
        !old(login).verifying ==> match *shop {
            None => r == Attempt::Ignored && *final(login) == *old(login),
            Some(p) => match spec_remaining_lock_secs(p.pin_locked_until, now) {
                Some(secs) => {
                    &&& r == Attempt::Refused
                    &&& final(login).error matches Some(e) && e@ == spec_lock_message(secs)
                    &&& same_entry(*old(login), *final(login))
                    &&& final(login).verifying == old(login).verifying
                },
                None => if p.pin_hash is None {
                    r == Attempt::Unlock && *final(login) == *old(login)
                } else if spec_trim(old(login).pin_input@).len() == 0 {
                    &&& r == Attempt::Refused
                    &&& final(login).error matches Some(e) && e@ == "Enter your PIN to unlock."@
                    &&& same_entry(*old(login), *final(login))
                    &&& final(login).verifying == old(login).verifying
                } else {
                    &&& r matches Attempt::Verify(pin) && pin@ == spec_trim(old(login).pin_input@)
                    &&& final(login).error is None
                    &&& final(login).verifying
                    &&& same_entry(*old(login), *final(login))
                },
            },
        },
{
    if login.verifying {
        return Attempt::Ignored;
    }
    match shop {
        None => Attempt::Ignored,
        Some(p) => {
            match p.lock_remaining_secs(now) {
                Some(secs) => {
                    login.error = Some(lock_message(secs));
                    return Attempt::Refused;
                },
                None => {},
            }
            if !p.has_pin() {
                return Attempt::Unlock;
            }
            let pin = trim(login.pin_input.as_str());
            if pin.unicode_len() == 0 {
                login.error = Some(String::from_str("Enter your PIN to unlock."));
                return Attempt::Refused;
            }
            let pin = String::from_str(pin);
            login.verifying = true;
            login.error = None;
            Attempt::Verify(pin)
        },
    }
}

/// The stored lockout deadline, if it is still running at `now`: an
/// attempt then is answered `Locked` without looking at the PIN.
pub fn lock_in_force(locked_until: Option<UtcTime>, now: UtcTime) -> (r: Option<UtcTime>)
    requires
        locked_until matches Some(u) ==> u.representable(),
        now.representable(),
    ensures
        r == (if spec_remaining_lock_secs(locked_until, now) is Some {
            locked_until
        } else {
            None
        }),
{
    match remaining_lock_secs(locked_until, now) {
        Some(_) => locked_until,
        None => None,
    }
}

/// The moment `secs` seconds after `t`.
pub open spec fn plus_secs(t: UtcTime, secs: int) -> UtcTime {
    UtcTime { secs: (t.secs + secs) as i64, nanos: t.nanos }
}

/// A wrong PIN that brought the count of consecutive failures to
/// `attempts` at `now`: how many tries remain, and the deadline of the
/// lockout this failure starts, if it starts one.
pub fn failed_attempt(attempts: i64, now: UtcTime) -> (r: Outcome)
    requires
        attempts >= MAX_ATTEMPTS - i64::MAX,
        now.representable(),
    ensures
        r matches Outcome::Rejected { attempts_left, locked_until } && {
            &&& attempts_left == (if MAX_ATTEMPTS - attempts > 0 {
                MAX_ATTEMPTS - attempts
            } else {
                0
            })
            &&& match spec_lockout_for(attempts as int) {
                None => locked_until is None,
                Some(secs) => locked_until == Some(plus_secs(now, secs)),
            }
        },
{
    let left = attempts_left(attempts);
    let locked_until = match lockout_for(attempts) {
        Some(secs) => {
            proof {
                crate::pin::lemma_lockout_policy(attempts as int);
            }
            Some(UtcTime { secs: now.secs + secs, nanos: now.nanos })
        },
        None => None,
    };
    Outcome::Rejected { attempts_left: left, locked_until }
}

/// The times an outcome carries are ones the library can compute with.
pub open spec fn outcome_times_ok(result: Result<Outcome, String>) -> bool {
    match result {
        Ok(Outcome::Rejected { locked_until: Some(u), .. }) => u.representable(),
        Ok(Outcome::Locked { locked_until }) => locked_until.representable(),
        _ => true,
    }
}

/// A PIN check came back. Unlocking clears the form and the shop's
/// failure count and lockout and goes to the home screen (the caller then
/// takes the day's backup if due: the result says so); a wrong PIN clears
/// the typed PIN and says how many tries are left or how long the lockout
/// runs; an existing lockout says how long it runs; an error is shown.
pub fn verified(
    login: &mut LoginState,
    shop: &mut Option<ShopProfile>,
    stage: &mut Stage,
    result: Result<Outcome, String>,
    now: UtcTime,
) -> (backup: bool)
    requires
        now.representable(),
        outcome_times_ok(result),
    ensures
        match result {
            Ok(Outcome::Unlocked) => {
                &&& final(login).is_blank()
                &&& match (*old(shop), *final(shop)) {
                    (Some(a), Some(b)) => b.pin_failed_attempts == 0 && b.pin_locked_until is None
                        && b.pin_hash == a.pin_hash,
                    (None, None) => true,
                    _ => false,
                }
                &&& *final(stage) == Stage::Home
                &&& backup
            },
            Ok(Outcome::Rejected { attempts_left, locked_until }) => {
                &&& final(login).pin_input@.len() == 0
                &&& !final(login).verifying
                &&& final(login).error matches Some(e) && e@ == spec_rejection_message(
                    attempts_left as int,
                    spec_remaining_lock_secs(locked_until, now),
                )
                &&& match (*old(shop), *final(shop)) {
                    (Some(a), Some(b)) => b.pin_locked_until == locked_until && b.pin_failed_attempts
                        == a.pin_failed_attempts,
                    (None, None) => true,
                    _ => false,
                }
                &&& *final(stage) == *old(stage)
                &&& !backup
            },
            Ok(Outcome::Locked { locked_until }) => {
                &&& final(login).pin_input@.len() == 0
                &&& !final(login).verifying
                &&& final(login).error matches Some(e) && e@ == spec_lock_message(
                    match spec_remaining_lock_secs(Some(locked_until), now) {
                        Some(secs) => secs,
                        None => 0,
                    },
                )
                &&& match (*old(shop), *final(shop)) {
                    (Some(a), Some(b)) => b.pin_locked_until == Some(locked_until),
                    (None, None) => true,
                    _ => false,
                }
                &&& *final(stage) == *old(stage)
                &&& !backup
            },
            Err(e) => {
                &&& final(login).error == Some(e)
                &&& !final(login).verifying
                &&& final(login).pin_input == old(login).pin_input
                &&& *final(shop) == *old(shop)
                &&& *final(stage) == *old(stage)
                &&& !backup
            },
        },
{
    login.verifying = false;
    match result {
        Ok(Outcome::Unlocked) => {
            login.clear();
            match shop.take() {
                Some(mut p) => {
                    p.pin_failed_attempts = 0;
                    p.pin_locked_until = None;
                    *shop = Some(p);
                },
                None => {},
            }
            *stage = Stage::Home;
            true
        },
        Ok(Outcome::Rejected { attempts_left, locked_until }) => {
            match shop.take() {
                Some(mut p) => {
                    p.pin_locked_until = locked_until;
                    *shop = Some(p);
                },
                None => {},
            }
            login.pin_input = String::new();
            let secs = remaining_lock_secs(locked_until, now);
            login.error = Some(rejection_message(attempts_left, secs));
            false
        },
        Ok(Outcome::Locked { locked_until }) => {
            match shop.take() {
                Some(mut p) => {
                    p.pin_locked_until = Some(locked_until);
                    *shop = Some(p);
                },
                None => {},
            }
            login.pin_input = String::new();
            let secs = match remaining_lock_secs(Some(locked_until), now) {
                Some(s) => s,
                None => 0,
            };
            login.error = Some(lock_message(secs));
            false
        },
        Err(e) => {
            login.error = Some(e);
            false
        },
    }
}

/// An optional text, by value.
pub open spec fn text_option(o: Option<String>) -> Option<Seq<char>> {
    match o {
        Some(t) => Some(t@),
        None => None,
    }
}

/// `after` is `before` with only the reset panel's error and in-flight
/// flag possibly changed.
pub open spec fn same_reset_entry(before: LoginState, after: LoginState) -> bool {
    &&& after.pin_input == before.pin_input
    &&& after.error == before.error
    &&& after.verifying == before.verifying
    &&& after.reset_open == before.reset_open
    &&& after.reset_key == before.reset_key
    &&& after.reset_pin == before.reset_pin
    &&& after.reset_confirm == before.reset_confirm
}

/// What the reset does once the license key has been checked: a refused
/// key shows why; an accepted key goes on to the new PIN, which must pass
/// `validate_new` (blank removes the PIN); then the reset is under way.
pub open spec fn after_key_check(
    before: LoginState,
    after: LoginState,
    r: Option<Option<String>>,
    key_check: Result<LicensePayload, LicenseError>,
) -> bool {
    &&& same_reset_entry(before, after)
    &&& match key_check {
        Err(e) => {
            &&& r is None
            &&& after.reset_error matches Some(m) && m@ == e.spec_message()
            &&& after.resetting == before.resetting
        },
        Ok(_) => match spec_validate_new(before.reset_pin@, before.reset_confirm@) {
            Err(m) => {
                &&& r is None
                &&& after.reset_error matches Some(t) && t@ == m
                &&& after.resetting == before.resetting
            },
            Ok(pin) => {
                &&& r matches Some(new_pin) && text_option(new_pin) == pin
                &&& after.reset_error is None
                &&& after.resetting
            },
        },
    }
}

/// The forgotten-PIN reset, once the license key has been checked.
pub fn reset_after_key(login: &mut LoginState, key_check: Result<LicensePayload, LicenseError>) -> (r: Option<Option<String>>)
    ensures
        after_key_check(*old(login), *final(login), r, key_check),
{
    match key_check {
        Err(e) => {
            login.reset_error = Some(e.message());
            None
        },
        Ok(_) => match validate_new(login.reset_pin.as_str(), login.reset_confirm.as_str()) {
            Err(m) => {
                login.reset_error = Some(m);
                None
            },
            Ok(pin) => {
                login.resetting = true;
                login.reset_error = None;
                Some(pin)
            },
        },
    }
}

/// Pressing Reset on the forgotten-PIN panel: the pasted license key must
/// verify for this device at `now` (proving the shop is yours) before the
/// new PIN is accepted. `Some(pin)` means: store `pin` (`None` removes
/// the PIN) and clear the lockout.
pub fn submit_reset(login: &mut LoginState, device_id: &str, now: UtcTime) -> (r: Option<Option<String>>)
    ensures
        old(login).resetting ==> r is None && *final(login) == *old(login),
        !old(login).resetting && spec_trim(old(login).reset_key@).len() == 0 ==> {
            &&& r is None
            &&& final(login).reset_error matches Some(m) && m@
                == "Paste your license key to confirm this is your shop."@
            &&& same_reset_entry(*old(login), *final(login))
            &&& final(login).resetting == old(login).resetting
        },
        !old(login).resetting && spec_trim(old(login).reset_key@).len() > 0 ==> exists|
            key_check: Result<LicensePayload, LicenseError>,
        |
            {
                &&& concludes(key_check, license_verdict(spec_trim(old(login).reset_key@), device_id@, now))
                &&& names_expiry(spec_trim(old(login).reset_key@), key_check)
                &&& after_key_check(*old(login), *final(login), r, key_check)
            },
{
    if login.resetting {
        return None;
    }
    let key = trim(login.reset_key.as_str());
    if key.unicode_len() == 0 {
        login.reset_error = Some(String::from_str("Paste your license key to confirm this is your shop."));
        return None;
    }
    let key_check = verify(key, device_id, now);
    let ghost checked = key_check;
    let r = reset_after_key(login, key_check);
    assert(after_key_check(*old(login), *login, r, checked));
    r
}

/// A reset finished storing the new PIN (its hash, or `None` for no PIN):
/// the lockout is gone and the shopkeeper goes straight in (the caller
/// then takes the day's backup if due: the result says so). An error is
/// shown on the panel.
pub fn reset_completed(
    login: &mut LoginState,
    shop: &mut Option<ShopProfile>,
    stage: &mut Stage,
    notice: &mut Option<Notice>,
    result: Result<Option<String>, String>,
) -> (backup: bool)
    ensures
        match result {
            Ok(hash) => {
                &&& final(login).is_blank()
                &&& match (*old(shop), *final(shop)) {
                    (Some(a), Some(b)) => b.pin_hash == hash && b.pin_failed_attempts == 0
                        && b.pin_locked_until is None && b.shop_name == a.shop_name,
                    (None, None) => true,
                    _ => false,
                }
                &&& *final(stage) == Stage::Home
                &&& *final(notice) matches Some(n) && n.kind == NoticeKind::Success && n.text@
                    == "PIN reset \u{2014} you're signed in."@
                &&& backup
            },
            Err(e) => {
                &&& final(login).reset_error == Some(e)
                &&& !final(login).resetting
                &&& final(login).pin_input == old(login).pin_input
                &&& *final(shop) == *old(shop)
                &&& *final(stage) == *old(stage)
                &&& *final(notice) == *old(notice)
                &&& !backup
            },
        },
{
    login.resetting = false;
    match result {
        Ok(hash) => {
            match shop.take() {
                Some(mut p) => {
                    p.pin_hash = hash;
                    p.pin_failed_attempts = 0;
                    p.pin_locked_until = None;
                    *shop = Some(p);
                },
                None => {},
            }
            login.clear();
            *stage = Stage::Home;
            *notice = Some(Notice::success(String::from_str("PIN reset \u{2014} you're signed in.")));
            true
        },
        Err(e) => {
            login.reset_error = Some(e);
            false
        },
    }
}

} // verus!
