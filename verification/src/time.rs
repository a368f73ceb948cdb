//! Points in time as the library sees them: whole seconds since the Unix
//! epoch plus a nanosecond fraction, as `chrono::DateTime<Utc>` reports
//! them through `timestamp()` and `timestamp_subsec_nanos()`.
use vstd::prelude::*;

verus! {

/// A moment in UTC.
#[derive(Clone, Copy, Debug, PartialEq, Eq)]
pub struct UtcTime {
    pub secs: i64,
    pub nanos: u32,
}

impl UtcTime {
    /// Nanoseconds since the Unix epoch.
    pub open spec fn instant(self) -> int {
        self.secs * 1_000_000_000 + self.nanos
    }

    /// Within the span that `chrono::DateTime<Utc>` can represent (about
    /// 262,000 years either side of the epoch), with room to spare.
    pub open spec fn representable(self) -> bool {
        -10_000_000_000_000 <= self.secs <= 10_000_000_000_000 && self.nanos < 2_000_000_000
    }

    /// The moment `secs` seconds after the epoch, on the whole second.
    pub fn from_secs(secs: i64) -> (r: UtcTime)
        ensures
            r.secs == secs,
            r.nanos == 0,
            r.instant() == secs * 1_000_000_000,
    {
        UtcTime { secs, nanos: 0 }
    }
}

/// Integer division rounding toward zero, as Rust's `/` on signed values.
pub open spec fn trunc_div(a: int, b: int) -> int
    recommends
        b > 0,
{
    if a < 0 {
        -((-a) / b)
    } else {
        a / b
    }
}

/// Whole seconds from `from` to `to`, as chrono's
/// `(to - from).num_seconds()` counts them (rounded toward zero).
pub open spec fn whole_seconds_between(from: UtcTime, to: UtcTime) -> int {
    trunc_div(to.instant() - from.instant(), 1_000_000_000)
}

/// `(to - from).num_seconds()`.
pub fn seconds_between(from: UtcTime, to: UtcTime) -> (r: i64)
    requires
        from.representable(),
        to.representable(),
    ensures
        r == whole_seconds_between(from, to),
{
    let diff: i128 = (to.secs as i128 - from.secs as i128) * 1_000_000_000 + (to.nanos as i128 - from.nanos as i128);
    let q: i128 = if diff < 0 { -((-diff) / 1_000_000_000) } else { diff / 1_000_000_000 };
    assert(diff == to.instant() - from.instant());
    assert(-20_000_000_000_002 <= q <= 20_000_000_000_002);
    q as i64
}

} // verus!
