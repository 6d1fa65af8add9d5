//! Temporal value types: a calendar date, a wall-clock time of day, and a
//! signed difference of two times. Durations are measured in whole minutes;
//! a fractional hour is exactly `minutes / 60`, so summing minutes loses
//! nothing against summing fractional hours.

use vstd::prelude::*;

use crate::text::i64_to_string;
use crate::text::spec_i64_str;
use crate::text::spec_u64_str;
use crate::text::u64_to_string;

verus! {

/// The short text of a time of day: hour, a colon, minute, neither
/// zero-padded.
pub open spec fn spec_time_short(t: Time) -> Seq<char> {
    spec_u64_str(t.0 as nat) + seq![':'] + spec_u64_str(t.1 as nat)
}

/// The short text of a time difference: hours, a colon, minutes, each
/// with its own sign.
pub open spec fn spec_time_diff_short(d: TimeDiff) -> Seq<char> {
    spec_i64_str(d.0 as int) + seq![':'] + spec_i64_str(d.1 as int)
}

/// Signed minutes split into whole hours and leftover minutes, both
/// parts carrying the sign of the total.
pub open spec fn spec_from_minutes(m: int) -> TimeDiff {
    if m >= 0 {
        TimeDiff((m / 60) as i32, (m % 60) as i32)
    } else {
        TimeDiff((-((-m) / 60)) as i32, (-((-m) % 60)) as i32)
    }
}

/// The difference of two times of day, as hours and minutes.
pub open spec fn spec_diff(a: Time, b: Time) -> TimeDiff {
    spec_from_minutes(a.spec_minutes() - b.spec_minutes())
}

/// A calendar date: year, month (1-12), day of month (1-31).
#[derive(Clone, Copy, PartialEq, Eq, Structural, Debug)]
pub struct Date(pub i32, pub u32, pub u32);

/// A wall-clock time of day: hour (0-23), minute (0-59). No seconds.
#[derive(Clone, Copy, PartialEq, Eq, Structural, Debug)]
pub struct Time(pub u32, pub u32);

/// A signed difference of two times: hours and leftover minutes, the two
/// parts carrying the same sign, the minute part strictly below one hour.
#[derive(Clone, Copy, PartialEq, Eq, Structural, Debug)]
pub struct TimeDiff(pub i32, pub i32);

impl Date {
    /// The month lies in the calendar range and so does the day of month.
    pub open spec fn wf(self) -> bool {
        &&& 1 <= self.1 <= 12
        &&& 1 <= self.2 <= 31
    }
}

impl Time {
    pub open spec fn wf(self) -> bool {
        &&& self.0 <= 23
        &&& self.1 <= 59
    }

    /// The time as minutes since midnight.
    pub open spec fn spec_minutes(self) -> int {
        self.0 * 60 + self.1
    }

    pub fn to_minutes(&self) -> (m: u32)
        requires
            self.wf(),
        ensures
            m == self.spec_minutes(),
    {
        self.0 * 60 + self.1
    }

    /// The time as `hour:minute`.
    pub fn to_short_str(&self) -> (r: String)
        ensures
            r@ == spec_time_short(*self),
    {
        let mut s = u64_to_string(self.0 as u64);
        proof {
            reveal_strlit(":");
            assert(":"@ =~= seq![':']);
        }
        s.append(":");
        let m = u64_to_string(self.1 as u64);
        s.append(m.as_str());
        proof {
            assert(s@ =~= spec_time_short(*self));
        }
        s
    }

    /// Subtract another time of day from this one, as a signed difference.
    /// Works through total minutes, so an earlier subtrahend with a larger
    /// minute field cannot underflow.
    pub fn sub(&self, rhs: &Time) -> (d: TimeDiff)
        requires
            self.wf(),
            rhs.wf(),
        ensures
            d == spec_diff(*self, *rhs),
            d.spec_minutes() == self.spec_minutes() - rhs.spec_minutes(),
            d.wf(),
    {
        let a = self.to_minutes() as i32;
        let b = rhs.to_minutes() as i32;
        TimeDiff::from_minutes(a - b)
    }
}

impl TimeDiff {
    /// The difference as signed minutes.
    pub open spec fn spec_minutes(self) -> int {
        self.0 * 60 + self.1
    }

    /// Hour and minute parts agree in sign and the minute part is below
    /// one hour in magnitude, so the pair determines the total minutes
    /// and the total minutes determine the pair.
    pub open spec fn wf(self) -> bool {
        &&& -59 <= self.1 <= 59
        &&& self.0 > 0 ==> self.1 >= 0
        &&& self.0 < 0 ==> self.1 <= 0
    }

    /// The difference as `hours:minutes`, each part signed.
    pub fn to_short_str(&self) -> (r: String)
        ensures
            r@ == spec_time_diff_short(*self),
    {
        let mut s = i64_to_string(self.0 as i64);
        proof {
            reveal_strlit(":");
            assert(":"@ =~= seq![':']);
        }
        s.append(":");
        let m = i64_to_string(self.1 as i64);
        s.append(m.as_str());
        proof {
            assert(s@ =~= spec_time_diff_short(*self));
        }
        s
    }

    /// The difference as signed minutes, computed.
    pub fn to_minutes(&self) -> (m: i32)
        requires
            -0x0200_0000 <= self.0 <= 0x0200_0000,
            -60 <= self.1 <= 60,
        ensures
            m == self.spec_minutes(),
    {
        self.0 * 60 + self.1
    }

    /// Split signed minutes into whole hours and leftover minutes.
    pub fn from_minutes(m: i32) -> (d: TimeDiff)
        requires
            -0x7fff_0000 <= m <= 0x7fff_0000,
        ensures
            d == spec_from_minutes(m as int),
            d.spec_minutes() == m,
            d.wf(),
    {
        if m >= 0 {
            let um = m as u32;
            TimeDiff((um / 60) as i32, (um % 60) as i32)
        } else {
            let um = (-m) as u32;
            TimeDiff(-((um / 60) as i32), -((um % 60) as i32))
        }
    }
}

} // verus!
