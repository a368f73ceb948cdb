//! The counter screen-lock PIN: hashing, verification, and the
//! failed-attempt lockout policy.
//!
//! The PIN is stored as an Argon2id PHC string: the shop database is a
//! plain file that backups copy onto pendrives and synced folders, so
//! nothing readable is kept in it.
use vstd::prelude::*;
use crate::text::{all_digits, is_digit, push_decimal, push_pad2, same_text, spec_decimal, spec_pad2, spec_trim, trim};
use crate::time::{whole_seconds_between, seconds_between, UtcTime};
use argon2::password_hash::rand_core::OsRng;
use argon2::password_hash::{PasswordHash, PasswordHasher, PasswordVerifier, SaltString};
use argon2::Argon2;

verus! {

/// How many consecutive wrong PINs are tolerated before the screen locks.
pub const MAX_ATTEMPTS: i64 = 5;

/// How long the first lockout lasts; each further wrong PIN doubles it.
pub const BASE_LOCKOUT_SECS: i64 = 30;

/// Ceiling on the doubling above.
pub const MAX_LOCKOUT_SECS: i64 = 900;

/// Whether `pin` matches the Argon2 PHC string `stored`, as
/// `Argon2::default().verify_password` decides it (a `stored` string that
/// does not parse as a PHC string matches nothing).
pub uninterp spec fn spec_argon2_accepts(pin: Seq<char>, stored: Seq<char>) -> bool;

/// `Argon2::default().hash_password` of `pin` under a fresh random salt,
/// rendered as a PHC string; the error's text when hashing fails. Every
/// hash it returns verifies against the PIN it was made from (verification
/// recomputes the hash with the salt and parameters the string carries),
/// and, the default algorithm being Argon2id, begins `$argon2id$`.
#[verifier::external_body]
fn argon2_hash(pin: &str) -> (r: Result<String, String>)
    ensures
        r matches Ok(h) ==> spec_argon2_accepts(pin@, h@),
        r matches Ok(h) ==> "$argon2id$"@.is_prefix_of(h@),
{
    let salt = SaltString::generate(&mut OsRng);
    Argon2::default().hash_password(pin.as_bytes(), &salt).map(|h| h.to_string()).map_err(|e| e.to_string())
}

/// `Argon2::default().verify_password` of `pin` against `stored` parsed
/// by `PasswordHash::new`; a string that does not parse verifies nothing,
/// and an empty string, or one not starting with `$`, does not parse.
#[verifier::external_body]
fn argon2_verify(pin: &str, stored: &str) -> (r: bool)
    ensures
        r == spec_argon2_accepts(pin@, stored@),
        (stored@.len() == 0 || stored@[0] != '$') ==> !r,
{
    match PasswordHash::new(stored) {
        Ok(parsed) => Argon2::default().verify_password(pin.as_bytes(), &parsed).is_ok(),
        Err(_) => false,
    }
}

/// Hashes a PIN for storage. Argon2's default parameters are deliberately
/// slow, so callers run this off the UI thread.
pub fn hash(pin: &str) -> (r: Result<String, String>)
    ensures
        r matches Ok(h) ==> spec_argon2_accepts(pin@, h@),
        r matches Ok(h) ==> "$argon2id$"@.is_prefix_of(h@),
        r matches Err(e) ==> "could not secure that PIN: "@.is_prefix_of(e@),
{
    match argon2_hash(pin) {
        Ok(h) => Ok(h),
        Err(e) => {
            let mut message = String::from_str("could not secure that PIN: ");
            let ghost prefix = message@;
            message.append(e.as_str());
            assert(prefix =~= message@.subrange(0, prefix.len() as int));
            Err(message)
        },
    }
}

/// Checks a typed PIN against a stored hash. A malformed stored hash is
/// treated as "doesn't match": failing closed is the safe direction.
pub fn verify(pin: &str, stored_hash: &str) -> (r: bool)
    ensures
        r == spec_argon2_accepts(pin@, stored_hash@),
        (stored_hash@.len() == 0 || stored_hash@[0] != '$') ==> !r,
{
    argon2_verify(pin, stored_hash)
}

/// What `validate_new` decides for the two typed fields.
pub open spec fn spec_validate_new(pin: Seq<char>, confirm: Seq<char>) -> Result<Option<Seq<char>>, Seq<char>> {
    let p = spec_trim(pin);
    if p.len() == 0 {
        Ok(None)
    } else if !(4 <= p.len() <= 6) || !all_digits(p) {
        Err("PIN must be 4 to 6 digits"@)
    } else if p != spec_trim(confirm) {
        Err("PIN and confirmation don't match"@)
    } else {
        Ok(Some(p))
    }
}

/// A new PIN is taken only when it is 4 to 6 ASCII digits (once the
/// surrounding whitespace is trimmed) and the confirmation, trimmed, is
/// the same text; a blank PIN removes the lock; anything else that is not
/// 4 to 6 digits is refused as such.
pub proof fn lemma_new_pin_rules(pin: Seq<char>, confirm: Seq<char>)
    ensures
        spec_validate_new(pin, confirm) matches Ok(Some(p)) ==> {
            &&& p == spec_trim(pin)
            &&& p == spec_trim(confirm)
            &&& 4 <= p.len() <= 6
            &&& forall|i: int| 0 <= i < p.len() ==> '0' <= #[trigger] p[i] <= '9'
        },
        spec_validate_new(pin, confirm) == Ok::<Option<Seq<char>>, Seq<char>>(None) <==> spec_trim(pin).len() == 0,
        ({
            let t = spec_trim(pin);
            4 <= t.len() <= 6 && (forall|i: int| 0 <= i < t.len() ==> '0' <= #[trigger] t[i] <= '9') && t == spec_trim(
                confirm,
            )
        }) ==> spec_validate_new(pin, confirm) == Ok::<Option<Seq<char>>, Seq<char>>(Some(spec_trim(pin))),
        ({
            let t = spec_trim(pin);
            t.len() > 0 && (!(4 <= t.len() <= 6) || exists|i: int| 0 <= i < t.len() && !('0' <= #[trigger] t[i] <= '9'))
        }) ==> spec_validate_new(pin, confirm) == Err::<Option<Seq<char>>, Seq<char>>("PIN must be 4 to 6 digits"@),
{
    let t = spec_trim(pin);
    if 4 <= t.len() <= 6 && !all_digits(t) {
        let j = choose|j: int| 0 <= j < t.len() && !is_digit(#[trigger] t[j]);
        assert(!('0' <= t[j] <= '9'));
    }
    if exists|i: int| 0 <= i < t.len() && !('0' <= #[trigger] t[i] <= '9') {
        let j = choose|j: int| 0 <= j < t.len() && !('0' <= #[trigger] t[j] <= '9');
        assert(!is_digit(t[j]));
    }
}

/// Validates a PIN the user is trying to set. `Ok(None)` means "no PIN"
/// (the field was left blank), which removes the screen lock.
pub fn validate_new(pin: &str, confirm: &str) -> (r: Result<Option<String>, String>)
    ensures
        match (r, spec_validate_new(pin@, confirm@)) {
            (Ok(None), Ok(None)) => true,
            (Ok(Some(p)), Ok(Some(q))) => p@ == q,
            (Err(e), Err(f)) => e@ == f,
            _ => false,
        },
        r matches Ok(Some(p)) ==> 4 <= p@.len() <= 6 && forall|i: int| 0 <= i < p@.len() ==> '0' <= #[trigger] p@[i] <= '9',
{
    proof {
        lemma_new_pin_rules(pin@, confirm@);
    }
    let p = trim(pin);
    let n = p.unicode_len();
    if n == 0 {
        return Ok(None);
    }
    let mut digits = 4 <= n && n <= 6;
    let mut i: usize = 0;
    while i < n
        invariant
            n == p@.len(),
            i <= n,
            digits ==> (4 <= n <= 6 && forall|j: int| 0 <= j < i ==> is_digit(#[trigger] p@[j])),
            !digits ==> (!(4 <= n <= 6) || exists|j: int| 0 <= j < i && !is_digit(#[trigger] p@[j])),
        decreases n - i,
    {
        let c = p.get_char(i);
        if !('0' <= c && c <= '9') {
            digits = false;
        }
        i = i + 1;
    }
    if !digits {
        return Err(String::from_str("PIN must be 4 to 6 digits"));
    }
    if !same_text(p, trim(confirm)) {
        return Err(String::from_str("PIN and confirmation don't match"));
    }
    Ok(Some(String::from_str(p)))
}

/// `2^k`.
pub open spec fn pow2(k: nat) -> nat
    decreases k,
{
    if k == 0 {
        1
    } else {
        2 * pow2((k - 1) as nat)
    }
}

/// Seconds of lockout after `attempts` consecutive failures: none below
/// the threshold, then 30 s doubling with each further failure, capped at
/// 15 minutes.
pub open spec fn spec_lockout_for(attempts: int) -> Option<int> {
    if attempts < MAX_ATTEMPTS {
        None
    } else {
        let over = if attempts - MAX_ATTEMPTS < 16 { attempts - MAX_ATTEMPTS } else { 16 };
        let secs = BASE_LOCKOUT_SECS * pow2(over as nat);
        Some(if secs < MAX_LOCKOUT_SECS { secs } else { MAX_LOCKOUT_SECS as int })
    }
}

/// How long (in seconds) to lock the screen after `attempts` consecutive
/// failures. `None` for anything below the threshold; those are retries.
pub fn lockout_for(attempts: i64) -> (r: Option<i64>)
    ensures
        match r {
            Some(s) => spec_lockout_for(attempts as int) == Some(s as int),
            None => spec_lockout_for(attempts as int) is None,
        },
{
    if attempts < MAX_ATTEMPTS {
        return None;
    }
    let over: u32 = if attempts - MAX_ATTEMPTS < 16 { (attempts - MAX_ATTEMPTS) as u32 } else { 16 };
    let mut factor: i64 = 1;
    let mut k: u32 = 0;
    while k < over
        invariant
            k <= over <= 16,
            factor == pow2(k as nat),
            factor <= 65536,
        decreases over - k,
    {
        proof {
            lemma_pow2_bound(k as nat);
        }
        factor = factor * 2;
        k = k + 1;
    }
    let secs = BASE_LOCKOUT_SECS * factor;
    Some(if secs < MAX_LOCKOUT_SECS { secs } else { MAX_LOCKOUT_SECS })
}

proof fn lemma_pow2_bound(k: nat)
    requires
        k < 16,
    ensures
        pow2(k + 1) == 2 * pow2(k),
        pow2(k + 1) <= 65536,
    decreases k,
{
    reveal_with_fuel(pow2, 17);
}

proof fn lemma_pow2_monotone(a: nat, b: nat)
    requires
        a <= b,
    ensures
        pow2(a) <= pow2(b),
    decreases b,
{
    if a < b {
        lemma_pow2_monotone(a, (b - 1) as nat);
    }
}

/// The lockout policy: no lockout below `MAX_ATTEMPTS` failures; the
/// first lockout lasts `BASE_LOCKOUT_SECS`; each further failure doubles
/// it until it reaches `MAX_LOCKOUT_SECS`, where it stays; and one more
/// failure never shortens it.
pub proof fn lemma_lockout_policy(attempts: int)
    ensures
        spec_lockout_for(attempts) is None <==> attempts < MAX_ATTEMPTS,
        spec_lockout_for(MAX_ATTEMPTS as int) == Some(BASE_LOCKOUT_SECS as int),
        attempts >= MAX_ATTEMPTS ==> 0 < spec_lockout_for(attempts)->0 <= MAX_LOCKOUT_SECS,
        attempts >= MAX_ATTEMPTS && 2 * spec_lockout_for(attempts)->0 <= MAX_LOCKOUT_SECS
            ==> spec_lockout_for(attempts + 1) == Some(2 * spec_lockout_for(attempts)->0),
        attempts >= MAX_ATTEMPTS && 2 * spec_lockout_for(attempts)->0 > MAX_LOCKOUT_SECS
            ==> spec_lockout_for(attempts + 1) == Some(MAX_LOCKOUT_SECS as int),
        attempts >= MAX_ATTEMPTS ==> spec_lockout_for(attempts)->0 <= spec_lockout_for(attempts + 1)->0,
{
    reveal_with_fuel(pow2, 6);
    if attempts >= MAX_ATTEMPTS {
        let over = attempts - MAX_ATTEMPTS;
        if over < 16 {
            lemma_pow2_monotone(0, over as nat);
            assert(pow2((over + 1) as nat) == 2 * pow2(over as nat));
        } else {
            lemma_pow2_monotone(5, 16);
        }
    }
}

/// Seconds still to wait before `locked_until` expires, or `None` once it
/// has (or was never set).
pub open spec fn spec_remaining_lock_secs(locked_until: Option<UtcTime>, now: UtcTime) -> Option<int> {
    match locked_until {
        None => None,
        Some(until) => if whole_seconds_between(now, until) > 0 {
            Some(whole_seconds_between(now, until))
        } else {
            None
        },
    }
}

/// Seconds still to wait before `locked_until` expires, or `None` once it
/// has (or was never set), so a stale timestamp can never lock anyone out
/// for good.
pub fn remaining_lock_secs(locked_until: Option<UtcTime>, now: UtcTime) -> (r: Option<i64>)
    requires
        locked_until matches Some(u) ==> u.representable(),
        now.representable(),
    ensures
        match r {
            Some(s) => spec_remaining_lock_secs(locked_until, now) == Some(s as int),
            None => spec_remaining_lock_secs(locked_until, now) is None,
        },
{
    match locked_until {
        None => None,
        Some(until) => {
            let secs = seconds_between(now, until);
            if secs > 0 {
                Some(secs)
            } else {
                None
            }
        },
    }
}

/// A remaining lockout as a shopkeeper reads it: "1:30" from a minute up,
/// "45s" below.
pub open spec fn spec_format_remaining(secs: int) -> Seq<char> {
    if secs >= 60 {
        spec_decimal((secs / 60) as nat) + seq![':'] + spec_pad2(secs % 60)
    } else {
        crate::text::spec_int_string(secs) + seq!['s']
    }
}

/// Renders a remaining lockout as something readable at a glance.
pub fn format_remaining(secs: i64) -> (r: String)
    ensures
        r@ == spec_format_remaining(secs as int),
{
    proof {
        reveal_strlit(":");
        reveal_strlit("s");
    }
    let mut out = String::new();
    if secs >= 60 {
        push_decimal(&mut out, (secs / 60) as u64);
        out.append(":");
        push_pad2(&mut out, false, (secs % 60) as u64);
    } else {
        let magnitude: u64 = if secs < 0 { (-(secs as i128)) as u64 } else { secs as u64 };
        crate::text::push_signed(&mut out, secs < 0, magnitude);
        out.append("s");
    }
    assert(out@ =~= spec_format_remaining(secs as int));
    out
}

} // verus!
