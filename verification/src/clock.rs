//! Wall-clock instants as plain values: a UTC timestamp together with the
//! local UTC offset in force, and calendar days counted as `chrono` counts
//! them (days from the Common Era, 0001-01-01 being day 1).

use chrono::Datelike;
use vstd::prelude::*;

verus! {

/// `chrono`'s day number of 1970-01-01.
pub const UNIX_EPOCH_DAY: i64 = 719_163;

/// Bound on local timestamps handled here (about ±253,000 years), well inside
/// the range of `chrono`'s dates.
pub const MAX_LOCAL_SECS: i64 = 8_000_000_000_000;

pub const NANOS_PER_SEC: i64 = 1_000_000_000;

pub const SECS_PER_DAY: i64 = 86_400;

/// A calendar day, numbered as `chrono::Datelike::num_days_from_ce` numbers it.
#[derive(Clone, Copy, Debug, PartialEq, Eq, Structural)]
pub struct Day {
    pub days_from_ce: i32,
}

/// An instant (seconds and nanoseconds since the Unix epoch, UTC) seen in a
/// time zone whose offset from UTC is `offset_secs`.
#[derive(Clone, Copy, Debug, PartialEq, Eq, Structural)]
pub struct LocalTime {
    pub secs: i64,
    pub nanos: u32,
    pub offset_secs: i32,
}

/// Integer division rounded toward zero.
pub open spec fn trunc_div(a: int, b: int) -> int {
    if a >= 0 {
        a / b
    } else {
        -((-a) / b)
    }
}

/// The calendar day that the local timestamp `local_secs` falls on.
pub open spec fn day_of_local_secs(local_secs: int) -> int {
    local_secs / (SECS_PER_DAY as int) + UNIX_EPOCH_DAY
}

/// `chrono::DateTime::from_timestamp(secs, 0)` followed by
/// `date_naive().num_days_from_ce()`: the day number of the (UTC) calendar
/// date of `secs`. `from_timestamp` computes the day as
/// `secs.div_euclid(86_400) + 719_163` and returns `Some` for every `secs`
/// in the range admitted here; the contract states that day number.
#[verifier::external_body]
fn chrono_day_of_timestamp(secs: i64) -> (d: i32)
    requires
        -MAX_LOCAL_SECS - SECS_PER_DAY <= secs <= MAX_LOCAL_SECS + SECS_PER_DAY,
    ensures
        d as int == day_of_local_secs(secs as int),
{
    chrono::DateTime::from_timestamp(secs, 0).unwrap().date_naive().num_days_from_ce()
}

proof fn lemma_div_unique(a: int, q: int)
    requires
        0 <= a,
        q * 1_000_000_000 <= a < q * 1_000_000_000 + 1_000_000_000,
    ensures
        a / 1_000_000_000 == q,
{
    assert(a / 1_000_000_000 == q) by (nonlinear_arith)
        requires
            0 <= a,
            q * 1_000_000_000 <= a < q * 1_000_000_000 + 1_000_000_000,
    ;
}

impl LocalTime {
    /// The representation invariant: sub-second part below one second, the
    /// offset less than a day, and the timestamp within `MAX_LOCAL_SECS`.
    pub open spec fn wf(self) -> bool {
        &&& self.nanos < 1_000_000_000
        &&& -SECS_PER_DAY < self.offset_secs < SECS_PER_DAY
        &&& -MAX_LOCAL_SECS <= self.secs <= MAX_LOCAL_SECS
    }

    /// Nanoseconds since the Unix epoch.
    pub open spec fn instant(self) -> int {
        self.secs * NANOS_PER_SEC + self.nanos
    }

    /// The local calendar day.
    pub open spec fn spec_date(self) -> Day {
        Day { days_from_ce: day_of_local_secs(self.secs + self.offset_secs) as i32 }
    }

    /// Builds a time from its parts; `None` when they break the invariant.
    pub fn from_parts(secs: i64, nanos: u32, offset_secs: i32) -> (r: Option<LocalTime>)
        ensures
            match r {
                Some(t) => t.wf() && t == (LocalTime { secs, nanos, offset_secs }),
                None => !(LocalTime { secs, nanos, offset_secs }).wf(),
            },
    {
        let t = LocalTime { secs, nanos, offset_secs };
        if nanos < 1_000_000_000 && -SECS_PER_DAY < offset_secs as i64 && (offset_secs as i64)
            < SECS_PER_DAY && -MAX_LOCAL_SECS <= secs && secs <= MAX_LOCAL_SECS {
            Some(t)
        } else {
            None
        }
    }

    /// Whether `self` is strictly earlier than `other`.
    pub fn is_before(&self, other: &LocalTime) -> (r: bool)
        requires
            self.wf(),
            other.wf(),
        ensures
            r == (self.instant() < other.instant()),
    {
        self.secs < other.secs || (self.secs == other.secs && self.nanos < other.nanos)
    }

    /// The local calendar day of this instant.
    pub fn date_naive(&self) -> (d: Day)
        requires
            self.wf(),
        ensures
            d == self.spec_date(),
    {
        let local = self.secs + self.offset_secs as i64;
        let n = chrono_day_of_timestamp(local);
        Day { days_from_ce: n }
    }

    /// Whole seconds from `earlier` to `self`, rounded toward zero (negative
    /// when `earlier` is in fact later).
    pub fn whole_seconds_since(&self, earlier: &LocalTime) -> (r: i64)
        requires
            self.wf(),
            earlier.wf(),
        ensures
            r as int == trunc_div(self.instant() - earlier.instant(), NANOS_PER_SEC as int),
    {
        let ds: i64 = self.secs - earlier.secs;
        let dn: i64 = self.nanos as i64 - earlier.nanos as i64;
        let r: i64 = if ds > 0 && dn < 0 {
            ds - 1
        } else if ds < 0 && dn > 0 {
            ds + 1
        } else {
            ds
        };
        proof {
            let total = self.instant() - earlier.instant();
            assert(total == ds * 1_000_000_000 + dn);
            if total >= 0 {
                lemma_div_unique(total, r as int);
            } else {
                lemma_div_unique(-total, -r);
            }
        }
        r
    }
}

} // verus!
