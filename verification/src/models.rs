//! The records the screens work with, in the plain values the library
//! reasons about.
use vstd::prelude::*;
use crate::time::{UtcTime, whole_seconds_between};

verus! {

/// The unit an item is stocked and sold in. Stored in the database as
/// plain text (see `as_str` / `parse`).
#[derive(Debug, Clone, Copy, PartialEq, Eq, Structural)]
pub enum Unit {
    Piece,
    Kg,
    Metre,
}

impl Unit {
    pub open spec fn spec_name(self) -> Seq<char> {
        match self {
            Unit::Piece => "piece"@,
            Unit::Kg => "kg"@,
            Unit::Metre => "metre"@,
        }
    }

    /// The unit's stored name.
    pub fn as_str(self) -> (r: &'static str)
        ensures
            r@ == self.spec_name(),
    {
        match self {
            Unit::Piece => "piece",
            Unit::Kg => "kg",
            Unit::Metre => "metre",
        }
    }

    /// The unit a stored name stands for.
    pub fn parse(s: &str) -> (r: Option<Unit>)
        ensures
            r matches Some(u) ==> u.spec_name() == s@,
            r is None ==> (s@ != "piece"@ && s@ != "kg"@ && s@ != "metre"@),
    {
        if crate::text::same_text(s, "piece") {
            Some(Unit::Piece)
        } else if crate::text::same_text(s, "kg") {
            Some(Unit::Kg)
        } else if crate::text::same_text(s, "metre") {
            Some(Unit::Metre)
        } else {
            None
        }
    }

    /// Every unit, in the order the pickers list them.
    pub const ALL: [Unit; 3] = [Unit::Piece, Unit::Kg, Unit::Metre];
}

/// The single shop profile row: this shop's identity, its PIN state and
/// its default GST rate.
#[derive(Debug, Clone)]
pub struct ShopProfile {
    pub shop_name: String,
    pub owner_name: String,
    pub phone: String,
    pub address: String,
    /// Argon2 PHC string of the screen-lock PIN, if one is set.
    pub pin_hash: Option<String>,
    pub has_logo: bool,
    /// Default GST rate in basis points (1800 = 18.00%).
    pub gst_rate_bp: i64,
    pub gstin: Option<String>,
    pub pin_failed_attempts: i64,
    pub pin_locked_until: Option<UtcTime>,
}

impl ShopProfile {
    /// Whether a screen-lock PIN is set.
    pub fn has_pin(&self) -> (r: bool)
        ensures
            r == (self.pin_hash is Some),
    {
        self.pin_hash.is_some()
    }

    /// Seconds of lockout left at `now`, if the screen is locked.
    pub fn lock_remaining_secs(&self, now: UtcTime) -> (r: Option<i64>)
        requires
            self.pin_locked_until matches Some(u) ==> u.representable(),
            now.representable(),
        ensures
            match r {
                Some(s) => crate::pin::spec_remaining_lock_secs(self.pin_locked_until, now) == Some(s as int),
                None => crate::pin::spec_remaining_lock_secs(self.pin_locked_until, now) is None,
            },
    {
        crate::pin::remaining_lock_secs(self.pin_locked_until, now)
    }
}

} // verus!
