//! Points in time, to the nanosecond, and what lies between them.

use vstd::prelude::*;

verus! {

/// The first second that can be represented: the start of the year -262143.
pub const FIRST_SECOND: i64 = -8_334_601_228_800;

/// The last second that can be represented: the end of the year 262142.
pub const LAST_SECOND: i64 = 8_210_266_876_799;

pub const NANOS_PER_SECOND: i64 = 1_000_000_000;

pub const SECONDS_PER_DAY: i64 = 86_400;

/// A point in time.
#[derive(Debug, Clone, Copy, PartialEq, Eq, Structural)]
pub struct Timestamp {
    /// Whole seconds since the start of 1970, UTC.
    pub secs: i64,
    /// Nanoseconds after that second.
    pub nanos: u32,
}

/// A length of time that is not negative.
#[derive(Debug, Clone, Copy, PartialEq, Eq, Structural)]
pub struct Delay {
    pub secs: u64,
    pub nanos: u32,
}

/// The quotient without its fraction, for a positive divisor.
pub open spec fn whole(a: int, b: int) -> int {
    if a >= 0 {
        a / b
    } else {
        -((-a) / b)
    }
}

/// The last point that can be represented.
pub open spec fn last_point() -> int {
    LAST_SECOND * NANOS_PER_SECOND + (NANOS_PER_SECOND - 1)
}

/// A point, or the last one that can be represented when it lies beyond that.
pub open spec fn capped(t: int) -> int {
    if t > last_point() {
        last_point()
    } else {
        t
    }
}

/// The length of time from `now` to `until`; none when `until` has passed.
pub open spec fn time_left(until: Timestamp, now: Timestamp) -> int {
    if until@ >= now@ {
        until@ - now@
    } else {
        0
    }
}

impl View for Timestamp {
    type V = int;

    /// Nanoseconds since the start of 1970, UTC.
    open spec fn view(&self) -> int {
        self.secs * NANOS_PER_SECOND + self.nanos
    }
}

impl View for Delay {
    type V = int;

    /// The length in nanoseconds.
    open spec fn view(&self) -> int {
        self.secs * NANOS_PER_SECOND + self.nanos
    }
}

/// `chrono::Utc::now`: the point in time that the system clock shows, which is after the start of
/// 1970 and within what a `Timestamp` can represent. Which point it is, is left open. It does not
/// return on a machine whose clock is set to an earlier time or to one beyond that range.
#[verifier::external_body]
pub(crate) fn utc_now() -> (r: Timestamp)
    ensures
        r.wf(),
        r.secs >= 0,
{
    let now = chrono::Utc::now();
    Timestamp { secs: now.timestamp(), nanos: now.timestamp_subsec_nanos() }
}

/// `chrono::DateTime::from_timestamp` without a fraction: the point in time so many seconds after
/// the start of 1970, when it lies between the first and the last second that can be represented.
#[verifier::external_body]
pub(crate) fn from_unix(secs: i64) -> (r: Option<Timestamp>)
    ensures
        r == (if FIRST_SECOND <= secs <= LAST_SECOND {
            Some(Timestamp { secs, nanos: 0 })
        } else {
            None
        }),
{
    let at = chrono::DateTime::<chrono::Utc>::from_timestamp(secs, 0)?;
    Some(Timestamp { secs: at.timestamp(), nanos: at.timestamp_subsec_nanos() })
}

/// A point in time, given in nanoseconds since the start of 1970, in the form of RFC 3339.
pub uninterp spec fn rfc3339_of(nanos: int) -> Seq<char>;

/// `chrono::DateTime::to_rfc3339_opts` in UTC, with as many digits of the second as the point
/// needs, in groups of three, and `Z` for the zone. The result has the name `rfc3339_of`.
#[verifier::external_body]
pub(crate) fn rfc3339(t: &Timestamp) -> (r: String)
    requires
        t.wf(),
    ensures
        r@ == rfc3339_of(t@),
{
    let at = chrono::DateTime::<chrono::Utc>::from_timestamp(t.secs, t.nanos).unwrap();
    at.to_rfc3339_opts(chrono::SecondsFormat::AutoSi, true)
}

impl Timestamp {
    /// The point lies in the representable range and its fraction is less than a second.
    pub open spec fn wf(self) -> bool {
        &&& FIRST_SECOND <= self.secs <= LAST_SECOND
        &&& self.nanos < NANOS_PER_SECOND
    }

    /// The number of the UTC day, counted from the first of January 1970.
    pub open spec fn day(self) -> int {
        self.secs as int / SECONDS_PER_DAY as int
    }

    /// The first point of the next UTC day.
    pub open spec fn next_midnight(self) -> int {
        (self.day() + 1) * SECONDS_PER_DAY * NANOS_PER_SECOND
    }

    /// Does this point come before the other?
    pub fn before(&self, other: &Timestamp) -> (r: bool)
        requires
            self.wf(),
            other.wf(),
        ensures
            r == (self@ < other@),
    {
        self.secs < other.secs || (self.secs == other.secs && self.nanos < other.nanos)
    }

    /// Whole seconds since an earlier point, negative when it is a later one.
    pub fn seconds_since(&self, earlier: &Timestamp) -> (r: i64)
        requires
            self.wf(),
            earlier.wf(),
        ensures
            r == whole(self@ - earlier@, NANOS_PER_SECOND as int),
    {
        let ds: i64 = self.secs - earlier.secs;
        let dn: i64 = self.nanos as i64 - earlier.nanos as i64;
        assert(self@ - earlier@ == ds * NANOS_PER_SECOND + dn);
        if ds > 0 && dn < 0 {
            ds - 1
        } else if ds < 0 && dn > 0 {
            ds + 1
        } else {
            ds
        }
    }

    /// Whole days since an earlier point, negative when it is a later one.
    pub fn days_since(&self, earlier: &Timestamp) -> (r: i64)
        requires
            self.wf(),
            earlier.wf(),
        ensures
            r == whole(self@ - earlier@, SECONDS_PER_DAY * NANOS_PER_SECOND),
    {
        self.seconds_since(earlier) / SECONDS_PER_DAY
    }

    /// Whole milliseconds since an earlier point.
    pub fn millis_since(&self, earlier: &Timestamp) -> (r: i64)
        requires
            self.wf(),
            earlier.wf(),
            earlier@ <= self@,
        ensures
            r == (self@ - earlier@) / 1_000_000,
    {
        let ds: i64 = self.secs - earlier.secs;
        let dn: i64 = self.nanos as i64 - earlier.nanos as i64;
        assert(self@ - earlier@ == ds * NANOS_PER_SECOND + dn);
        if dn < 0 {
            (ds - 1) * 1000 + (dn + NANOS_PER_SECOND) / 1_000_000
        } else {
            ds * 1000 + dn / 1_000_000
        }
    }

    /// The number of the UTC day.
    pub fn day_number(&self) -> (r: i64)
        requires
            self.wf(),
        ensures
            r == self.day(),
    {
        if self.secs >= 0 {
            self.secs / SECONDS_PER_DAY
        } else {
            -((-self.secs + (SECONDS_PER_DAY - 1)) / SECONDS_PER_DAY)
        }
    }

    /// How long it is from this point to the first point of the next UTC day.
    pub fn until_next_day(&self) -> (r: Delay)
        requires
            self.wf(),
        ensures
            r@ == self.next_midnight() - self@,
            r.nanos < NANOS_PER_SECOND,
            r.secs <= SECONDS_PER_DAY,
    {
        let today: i64 = self.day_number();
        let midnight: i64 = (today + 1) * SECONDS_PER_DAY;
        let left: i64 = midnight - self.secs;
        if self.nanos == 0 {
            Delay { secs: left as u64, nanos: 0 }
        } else {
            Delay { secs: (left - 1) as u64, nanos: 1_000_000_000 - self.nanos }
        }
    }

    /// How long it is from `now` to this point; nothing when the point has passed.
    pub fn left_from(&self, now: &Timestamp) -> (r: Delay)
        requires
            self.wf(),
            now.wf(),
        ensures
            r@ == time_left(*self, *now),
            r.nanos < NANOS_PER_SECOND,
    {
        if self.before(now) {
            return Delay { secs: 0, nanos: 0 };
        }
        let ds: i64 = self.secs - now.secs;
        if self.nanos >= now.nanos {
            Delay { secs: ds as u64, nanos: self.nanos - now.nanos }
        } else {
            Delay { secs: (ds - 1) as u64, nanos: 1_000_000_000 + self.nanos - now.nanos }
        }
    }

    /// The point so many seconds later, but no later than the last one that can be represented.
    pub fn plus_seconds(&self, n: u64) -> (r: Timestamp)
        requires
            self.wf(),
        ensures
            r.wf(),
            r@ == capped(self@ + n * NANOS_PER_SECOND),
    {
        let room: i64 = LAST_SECOND - self.secs;
        if n <= room as u64 {
            Timestamp { secs: self.secs + n as i64, nanos: self.nanos }
        } else {
            Timestamp { secs: LAST_SECOND, nanos: 999_999_999 }
        }
    }

    /// The point so many milliseconds later, but no later than the last one that can be
    /// represented.
    pub fn plus_millis(&self, n: u32) -> (r: Timestamp)
        requires
            self.wf(),
        ensures
            r.wf(),
            r@ == capped(self@ + n * 1_000_000),
    {
        let sum: u32 = self.nanos + (n % 1000) * 1_000_000;
        let whole: i64 = self.secs + (n / 1000) as i64;
        let (secs, nanos): (i64, u32) = if sum >= 1_000_000_000 {
            (whole + 1, sum - 1_000_000_000)
        } else {
            (whole, sum)
        };
        if secs <= LAST_SECOND {
            Timestamp { secs, nanos }
        } else {
            Timestamp { secs: LAST_SECOND, nanos: 999_999_999 }
        }
    }
}

// ── What holds of points in time ───────────────────────────────────────────

/// Midnight comes after every point of its day, at most a day later, and begins the next day.
pub proof fn law_midnight_ends_the_day(t: Timestamp)
    requires
        t.wf(),
    ensures
        t@ < t.next_midnight() <= t@ + 86_400_000_000_000,
        t.next_midnight() % 86_400_000_000_000 == 0,
        t.day() * 86_400 <= t.secs < (t.day() + 1) * 86_400,
{
    let start = t.day() * 86_400;
    assert(t.next_midnight() == (t.day() + 1) * 86_400_000_000_000) by {
        assert((t.day() + 1) * 86_400 * 1_000_000_000 == (t.day() + 1) * 86_400_000_000_000)
            by (nonlinear_arith);
    }
    assert(((t.day() + 1) * 86_400_000_000_000) % 86_400_000_000_000 == 0) by {
        vstd::arithmetic::div_mod::lemma_mod_multiples_basic(t.day() + 1, 86_400_000_000_000);
    }
}

/// Whole parts are counted toward zero: what is left over is smaller than a part and has the sign
/// of the whole.
pub proof fn law_whole_parts_leave_less_than_a_part(a: int, b: int)
    requires
        b > 0,
    ensures
        a >= 0 ==> whole(a, b) >= 0 && 0 <= a - whole(a, b) * b < b,
        a < 0 ==> whole(a, b) <= 0 && 0 <= whole(a, b) * b - a < b,
        whole(-a, b) == -whole(a, b),
{
    let n = if a >= 0 { a } else { -a };
    vstd::arithmetic::div_mod::lemma_fundamental_div_mod(n, b);
    vstd::arithmetic::div_mod::lemma_mod_bound(n, b);
    vstd::arithmetic::div_mod::lemma_div_pos_is_pos(n, b);
    vstd::arithmetic::mul::lemma_mul_is_commutative(b, n / b);
    assert((-(n / b)) * b == -((n / b) * b)) by (nonlinear_arith);
}

/// Time ends with the last point that can be told: what would lie beyond it lies on it, and all
/// else stays.
pub proof fn law_time_ends_with_its_last_point(t: int)
    ensures
        capped(t) <= last_point(),
        t <= last_point() ==> capped(t) == t,
        t > last_point() ==> capped(t) == last_point(),
        last_point() == 8_210_266_876_799_999_999_999,
{
}

/// The time that is left runs down to nothing as the point comes nearer, and stays there.
pub proof fn law_time_left_runs_down(until: Timestamp, now: Timestamp, later: Timestamp)
    requires
        now@ <= later@,
    ensures
        time_left(until, now) >= 0,
        time_left(until, now) == 0 <==> until@ <= now@,
        until@ >= later@ ==> time_left(until, now) - time_left(until, later) == later@ - now@,
        now@ + time_left(until, now) == until@ || time_left(until, now) == 0,
{
}

} // verus!
