//! Central Steam Web API quota governor.
//!
//! Steam's Web API Terms of Use cap a key at **100,000 calls per day**, and
//! the expensive per-user endpoints (GetOwnedGames, GetSteamLevel,
//! GetUserGroupList, GetPlayerAchievements) have no batch form — so the daily
//! key budget is a hard ceiling shared by every user and every code path.
//!
//! Every call that costs quota passes through a governor:
//!
//!   - **UTC quota-day.** Valve doesn't document when the daily counter
//!     resets, so units are counted by UTC date.
//!   - **Scoped ledgers.** The plugin's own key ("main") and each Steamworks
//!     publisher key ("pub:<hash>") have independent daily allowances, so
//!     each gets its own governor.
//!   - **429 → short throttle, not day-long stop.** A Steam 429 usually means
//!     a burst/IP throttle rather than "daily budget gone", so
//!     `mark_throttled` pauses for the `Retry-After` (or a few minutes)
//!     instead of until reset.
//!   - Units spent in the current quota-day are written to a ledger, so that a
//!     restart doesn't reset the counter and over-spend.
//!   - The budget is split into an **interactive reserve** (link-time checks a
//!     user is actively waiting on) and a **background** pool (routine
//!     refreshes). Background can never eat the reserve; interactive may
//!     borrow idle background headroom.
//!   - Background calls are **paced** smoothly across the whole day
//!     (`spacing = time_to_reset / remaining_background_budget`).
//!   - It stops before Steam has to (`Outcome::Exhausted`).

use vstd::prelude::*;
use crate::clock;
use crate::clock::{Delay, Timestamp};
use crate::digest;
use crate::lookup::Lookup;
use crate::text;

verus! {

/// Which budget pool a call draws from.
#[derive(Debug, Clone, Copy, PartialEq, Eq, Structural)]
pub enum Class {
    /// A user is actively waiting on this result (link-time check, fresh-link
    /// first fetch).
    Interactive,
    /// Routine background refresh.
    Background,
}

/// Result of requesting permission to spend one quota unit.
#[derive(Debug, Clone, Copy, PartialEq, Eq, Structural)]
pub enum Outcome {
    /// Go ahead — one unit has been reserved (and, for background, paced).
    Granted,
    /// No budget left in this pool; try again after `retry_after`.
    Exhausted { retry_after: Delay },
}

/// Longest a single background call will be paced to wait. Keeps the worker
/// responsive (and able to notice a quota bump) even when the trickle is slow.
pub const MAX_SPACING_MS: i64 = 60_000;

/// How often, in seconds, the counter is written to the ledger.
pub const FLUSH_INTERVAL_SECS: u64 = 10;

/// Short-term burst floor shared by all classes — politeness to the API and a
/// smoother retry profile. Far above the daily-budget trickle; it only clips
/// genuine bursts (a verify spike draining the interactive reserve).
pub const BURST_PER_SEC: u32 = 25;

/// Default pause after a Steam 429 without a Retry-After header.
pub const DEFAULT_THROTTLE_SECS: u64 = 300;

/// What has been spent of one API key's budget.
#[derive(Debug)]
pub struct QuotaGovernor {
    /// Ledger key: "main" for the plugin's Web API key, "pub:<hash>" per
    /// publisher key.
    pub scope: String,
    /// Usable daily budget = configured quota × safety fraction.
    pub total_budget: i64,
    /// Ceiling for background calls; the gap up to `total_budget` is the
    /// interactive-only reserve.
    pub background_budget: i64,
    /// The UTC quota-day these counters belong to.
    pub date: i64,
    /// Units reserved so far today (interactive + background).
    pub used: i64,
    /// Units reserved but not yet written to the ledger.
    pub unflushed: i64,
    /// Earliest instant the next background call may proceed (pacing gate).
    pub bg_next_at: Timestamp,
    /// Hard pause set when Steam itself throttles us (HTTP 429).
    pub throttled_until: Option<Timestamp>,
}

/// A point-in-time view for health/observability.
#[derive(Debug, Clone, Copy, PartialEq, Eq, Structural)]
pub struct QuotaSnapshot {
    pub date: i64,
    pub used: i64,
    pub total_budget: i64,
    pub background_budget: i64,
    pub reset_in_secs: i64,
    pub throttled: bool,
}

impl QuotaSnapshot {
    /// Units that can still be spent today.
    pub fn remaining(&self) -> (r: i64)
        requires
            self.total_budget - self.used <= i64::MAX,
            self.total_budget - self.used >= i64::MIN,
        ensures
            r == (if self.total_budget > self.used {
                self.total_budget - self.used
            } else {
                0
            }),
    {
        let left: i64 = self.total_budget - self.used;
        if left > 0 {
            left
        } else {
            0
        }
    }
}

/// How many calls a second may be made: about four times the average rate that the budget
/// sustains, at least `BURST_PER_SEC`, at most 100000.
pub fn burst_rate(total_budget: i64) -> (r: u32)
    requires
        0 <= total_budget <= i64::MAX / 4,
    ensures
        ({
            let rate = total_budget * 4 / 86_400;
            r == (if rate < 25 {
                25
            } else if rate > 100_000 {
                100_000
            } else {
                rate
            })
        }),
{
    let rate: i64 = (total_budget * 4) / 86_400;
    if rate < BURST_PER_SEC as i64 {
        BURST_PER_SEC
    } else if rate > 100_000 {
        100_000
    } else {
        rate as u32
    }
}

/// The counters.
pub struct Counters {
    pub date: int,
    pub used: int,
    pub unflushed: int,
    pub bg_next_at: int,
    pub throttled_until: Option<int>,
}

/// The counters of a governor that has not been asked for anything yet.
pub open spec fn fresh_counters(used: int, now: Timestamp) -> Counters {
    Counters {
        date: now.day(),
        used,
        unflushed: 0,
        bg_next_at: now@,
        throttled_until: None,
    }
}

/// The counters once the day has come: those of an earlier day are gone.
pub open spec fn rolled(c: Counters, now: Timestamp) -> Counters {
    if c.date == now.day() {
        c
    } else {
        Counters {
            date: now.day(),
            used: 0,
            unflushed: 0,
            bg_next_at: now@,
            throttled_until: None,
        }
    }
}

/// Are calls paused?
pub open spec fn paused(c: Counters, now: Timestamp) -> bool {
    c.throttled_until matches Some(until) && now@ < until
}

/// The distance in milliseconds between background calls that spreads what is left of the budget
/// over the rest of the day, at most a minute.
pub open spec fn spacing_ms(budget: int, used: int, now: Timestamp) -> int {
    let remaining = if budget - used > 1 {
        budget - used
    } else {
        1
    };
    let left = (now.next_midnight() - now@) / clock::NANOS_PER_SECOND as int;
    let seconds = if left > 1 {
        left
    } else {
        1
    };
    let spacing = (seconds * 1000) / remaining;
    if spacing > MAX_SPACING_MS {
        MAX_SPACING_MS as int
    } else {
        spacing
    }
}

/// The time at which a background call may proceed.
pub open spec fn gate(c: Counters, now: Timestamp) -> int {
    if c.bg_next_at > now@ {
        c.bg_next_at
    } else {
        now@
    }
}

/// Is a unit granted?
pub open spec fn granted(c: Counters, ceiling: int, now: Timestamp) -> bool {
    let d = rolled(c, now);
    !paused(d, now) && d.used < ceiling
}

/// The counters after a request for a unit.
pub open spec fn after_acquire(
    c: Counters,
    class: Class,
    ceiling: int,
    background_budget: int,
    now: Timestamp,
) -> Counters {
    let d = rolled(c, now);
    if paused(d, now) {
        d
    } else if d.used >= ceiling {
        Counters { throttled_until: None, ..d }
    } else {
        Counters {
            used: d.used + 1,
            unflushed: d.unflushed + 1,
            throttled_until: None,
            bg_next_at: match class {
                Class::Interactive => d.bg_next_at,
                Class::Background => clock::capped(
                    gate(d, now) + spacing_ms(background_budget, d.used + 1, now) * 1_000_000,
                ),
            },
            ..d
        }
    }
}

/// For how long calls are paused after a 429: at least a second.
pub open spec fn pause_secs(secs: u64) -> u64 {
    if secs > 1 {
        secs
    } else {
        1
    }
}

/// When a pause that Steam asks for ends: after so many seconds, or at the last point that can be
/// represented.
pub open spec fn pause_end(secs: u64, now: Timestamp) -> int {
    clock::capped(now@ + pause_secs(secs) * clock::NANOS_PER_SECOND)
}

/// The counters once Steam has asked for a pause.
pub open spec fn after_throttle(c: Counters, until: int) -> Counters {
    if c.throttled_until is None || c.throttled_until->0 < until {
        Counters { throttled_until: Some(until), ..c }
    } else {
        c
    }
}

/// The counters once what was not written has been taken to be written.
pub open spec fn after_flush(c: Counters) -> Counters {
    Counters { unflushed: 0, ..c }
}

/// The counters once units have come back that could not be written.
pub open spec fn after_failed_flush(c: Counters, delta: int) -> Counters {
    Counters { unflushed: c.unflushed + delta, ..c }
}

impl QuotaGovernor {
    /// The counters.
    pub open spec fn counters(self) -> Counters {
        Counters {
            date: self.date as int,
            used: self.used as int,
            unflushed: self.unflushed as int,
            bg_next_at: self.bg_next_at@,
            throttled_until: match self.throttled_until {
                Some(t) => Some(t@),
                None => None,
            },
        }
    }

    /// Background calls get no more than the whole budget, and the times lie in the representable
    /// range.
    pub open spec fn wf(self) -> bool {
        &&& 1 <= self.background_budget <= self.total_budget < i64::MAX
        &&& self.background_budget - self.used <= i64::MAX
        &&& 0 <= self.unflushed
        &&& self.bg_next_at.wf()
        &&& self.throttled_until matches Some(t) ==> t.wf()
    }

    /// The most that a class of calls may have spent.
    pub open spec fn ceiling(self, class: Class) -> int {
        match class {
            Class::Background => self.background_budget as int,
            Class::Interactive => self.total_budget as int,
        }
    }

    /// A governor for one API key's budget, built at a given time, with the units that the ledger
    /// shows as spent on that day.
    pub fn new_at(
        scope: String,
        total_budget: i64,
        background_budget: i64,
        used: i64,
        now: &Timestamp,
    ) -> (r: QuotaGovernor)
        requires
            1 <= background_budget <= total_budget < i64::MAX,
            background_budget - used <= i64::MAX,
            now.wf(),
        ensures
            r.wf(),
            r.scope == scope,
            r.total_budget == total_budget,
            r.background_budget == background_budget,
            r.counters() == fresh_counters(used as int, *now),
    {
        QuotaGovernor {
            scope,
            total_budget,
            background_budget,
            date: now.day_number(),
            used,
            unflushed: 0,
            bg_next_at: *now,
            throttled_until: None,
        }
    }

    /// A governor for one API key's budget, with the units that the ledger shows as spent today, so
    /// that a restart resumes accounting instead of resetting to zero.
    pub fn new(scope: String, total_budget: i64, background_budget: i64, used: i64) -> (r:
        QuotaGovernor)
        requires
            1 <= background_budget <= total_budget < i64::MAX,
            background_budget - used <= i64::MAX,
        ensures
            r.wf(),
            r.scope == scope,
            r.total_budget == total_budget,
            r.background_budget == background_budget,
            exists|now: Timestamp| #[trigger]
                now.wf() && now.secs >= 0 && r.counters() == fresh_counters(used as int, now),
    {
        let now = clock::utc_now();
        QuotaGovernor::new_at(scope, total_budget, background_budget, used, &now)
    }

    /// Roll the counters over when the UTC day changes. The prior
    /// day's final tally is already in the ledger from the last flush.
    fn roll_over(&mut self, now: &Timestamp)
        requires
            old(self).wf(),
            now.wf(),
        ensures
            final(self).wf(),
            final(self).counters() == rolled(old(self).counters(), *now),
            final(self).scope == old(self).scope,
            final(self).total_budget == old(self).total_budget,
            final(self).background_budget == old(self).background_budget,
    {
        let today: i64 = now.day_number();
        if self.date != today {
            self.date = today;
            self.used = 0;
            self.unflushed = 0;
            self.bg_next_at = *now;
            self.throttled_until = None;
        }
    }

    /// The budgets and the ledger key are as in another governor.
    pub open spec fn same_key(self, other: QuotaGovernor) -> bool {
        &&& self.scope == other.scope
        &&& self.total_budget == other.total_budget
        &&& self.background_budget == other.background_budget
    }

    /// The distance in milliseconds to the background call after this one.
    fn spacing(&self, now: &Timestamp) -> (r: u32)
        requires
            self.wf(),
            now.wf(),
        ensures
            r == spacing_ms(self.background_budget as int, self.used as int, *now),
            r <= MAX_SPACING_MS,
    {
        let left: i64 = self.background_budget - self.used;
        let remaining: i64 = if left > 1 {
            left
        } else {
            1
        };
        let seconds: i64 = now.until_next_day().secs as i64;
        let whole: i64 = if seconds > 1 {
            seconds
        } else {
            1
        };
        proof {
            vstd::arithmetic::div_mod::lemma_div_pos_is_pos(whole * 1000, remaining as int);
            vstd::arithmetic::div_mod::lemma_div_is_ordered_by_denominator(
                whole * 1000,
                1,
                remaining as int,
            );
        }
        let spacing: i64 = (whole * 1000) / remaining;
        if spacing > MAX_SPACING_MS {
            MAX_SPACING_MS as u32
        } else {
            spacing as u32
        }
    }

    /// What a request for a unit does to a governor, and what it is answered: the outcome, and the
    /// milliseconds that a background call waits to honor the daily pacing.
    pub open spec fn acquires(
        self,
        class: Class,
        now: Timestamp,
        after: QuotaGovernor,
        answer: (Outcome, i64),
    ) -> bool {
        let budget = self.background_budget as int;
        let ceiling = self.ceiling(class);
        let c = self.counters();
        let d = rolled(c, now);
        &&& after.counters() == after_acquire(c, class, ceiling, budget, now)
        &&& answer.0 is Granted <==> granted(c, ceiling, now)
        &&& answer.0 matches Outcome::Exhausted { retry_after } ==> {
            &&& retry_after.nanos < clock::NANOS_PER_SECOND
            &&& retry_after@ == if paused(d, now) {
                d.throttled_until->0 - now@
            } else {
                now.next_midnight() - now@
            }
        }
        &&& answer.1 == if answer.0 is Granted && class is Background {
            (gate(d, now) - now@) / 1_000_000
        } else {
            0
        }
    }

    /// Request permission to spend one quota unit, at a given time. On `Granted`, exactly one
    /// unit has been reserved; a background call additionally waits the milliseconds
    /// that are returned, to honor the daily pacing. Reserve-on-grant (no refund) keeps concurrent
    /// interactive callers from over-committing — a rare failed call just
    /// costs one unit of conservatism, never an over-spend.
    pub fn acquire_at(&mut self, class: Class, now: &Timestamp) -> (r: (Outcome, i64))
        requires
            old(self).wf(),
            now.wf(),
            old(self).unflushed < i64::MAX,
        ensures
            final(self).wf(),
            final(self).same_key(*old(self)),
            old(self).acquires(class, *now, *final(self), r),
    {
        self.roll_over(now);
        if let Some(until) = self.throttled_until {
            if now.before(&until) {
                return (Outcome::Exhausted { retry_after: until.left_from(now) }, 0);
            }
            self.throttled_until = None;
        }
        let ceiling: i64 = match class {
            Class::Background => self.background_budget,
            Class::Interactive => self.total_budget,
        };
        if self.used >= ceiling {
            return (Outcome::Exhausted { retry_after: now.until_next_day() }, 0);
        }
        // Reserve the unit.

        self.used = self.used + 1;
        self.unflushed = self.unflushed + 1;
        match class {
            Class::Interactive => (Outcome::Granted, 0),
            Class::Background => {
                let spacing: u32 = self.spacing(now);
                let base: Timestamp = if now.before(&self.bg_next_at) {
                    self.bg_next_at
                } else {
                    *now
                };
                let wait: i64 = base.millis_since(now);
                self.bg_next_at = base.plus_millis(spacing);
                (Outcome::Granted, wait)
            },
        }
    }

    /// Request permission to spend one quota unit now.
    pub fn acquire(&mut self, class: Class) -> (r: (Outcome, i64))
        requires
            old(self).wf(),
            old(self).unflushed < i64::MAX,
        ensures
            final(self).wf(),
            final(self).same_key(*old(self)),
            exists|now: Timestamp| #[trigger]
                now.wf() && now.secs >= 0 && old(self).acquires(class, now, *final(self), r),
    {
        let now = clock::utc_now();
        self.acquire_at(class, &now)
    }

    /// Steam answered 429 despite our accounting: a burst/IP throttle, or
    /// external spend on the same key. Pause all calls on this key briefly
    /// (honoring Retry-After when the caller parsed one) — NOT until the
    /// daily reset, because a 429 doesn't mean the daily allowance is gone.
    /// If calls are paused already, the longer pause stays.
    pub fn mark_throttled_at(&mut self, secs: u64, now: &Timestamp)
        requires
            old(self).wf(),
            now.wf(),
        ensures
            final(self).wf(),
            final(self).same_key(*old(self)),
            final(self).counters() == after_throttle(old(self).counters(), pause_end(secs, *now)),
    {
        let pause: u64 = if secs > 1 {
            secs
        } else {
            1
        };
        let until = now.plus_seconds(pause);
        // Keep the longest pause if we're already throttled.
        let longer = match &self.throttled_until {
            Some(u) => u.before(&until),
            None => true,
        };
        if longer {
            self.throttled_until = Some(until);
        }
    }

    /// Pause all calls on this key from now on.
    pub fn mark_throttled(&mut self, secs: u64)
        requires
            old(self).wf(),
        ensures
            final(self).wf(),
            final(self).same_key(*old(self)),
            exists|now: Timestamp| #[trigger]
                now.wf() && now.secs >= 0 && final(self).counters() == after_throttle(
                    old(self).counters(),
                    pause_end(secs, now),
                ),
    {
        let now = clock::utc_now();
        self.mark_throttled_at(secs, &now);
    }

    /// Takes what is not yet written to the ledger: the day and the units. Nothing is taken when
    /// there is nothing to write.
    pub fn flush(&mut self) -> (r: Option<(i64, i64)>)
        requires
            old(self).wf(),
        ensures
            final(self).wf(),
            final(self).same_key(*old(self)),
            final(self).counters() == after_flush(old(self).counters()),
            r == (if old(self).unflushed > 0 {
                Some((old(self).date, old(self).unflushed))
            } else {
                None
            }),
    {
        let delta: i64 = self.unflushed;
        self.unflushed = 0;
        if delta <= 0 {
            None
        } else {
            Some((self.date, delta))
        }
    }

    /// Reconciles the total of the day with the shared total that the ledger shows (multi-instance
    /// safe).
    pub fn flushed(&mut self, date: i64, ledger_used: i64)
        requires
            old(self).wf(),
        ensures
            final(self).wf(),
            final(self).same_key(*old(self)),
            final(self).counters() == (if old(self).date == date && ledger_used > old(self).used {
                Counters { used: ledger_used as int, ..old(self).counters() }
            } else {
                old(self).counters()
            }),
    {
        if self.date == date && ledger_used > self.used {
            self.used = ledger_used;
        }
    }

    /// Takes the units back that could not be written, for the next time.
    pub fn flush_failed(&mut self, delta: i64)
        requires
            old(self).wf(),
            0 <= delta,
            old(self).unflushed + delta <= i64::MAX,
        ensures
            final(self).wf(),
            final(self).same_key(*old(self)),
            final(self).counters() == after_failed_flush(old(self).counters(), delta as int),
    {
        self.unflushed = self.unflushed + delta;
    }

    /// What the state of the budget is said to be, and what becomes of the counters.
    pub open spec fn shows(self, now: Timestamp, after: QuotaGovernor, r: QuotaSnapshot) -> bool {
        let c = rolled(self.counters(), now);
        &&& after.counters() == c
        &&& r.date == c.date
        &&& r.used == c.used
        &&& r.total_budget == self.total_budget
        &&& r.background_budget == self.background_budget
        &&& r.reset_in_secs == (now.next_midnight() - now@) / clock::NANOS_PER_SECOND as int
        &&& 0 <= r.reset_in_secs <= clock::SECONDS_PER_DAY
        &&& r.throttled == paused(c, now)
    }

    /// The state of the budget at a given time. Rolls the day over too: the background worker
    /// polls this while it is paused on exhaustion and requests nothing, so it could otherwise
    /// stay paused after the UTC reset.
    pub fn snapshot_at(&mut self, now: &Timestamp) -> (r: QuotaSnapshot)
        requires
            old(self).wf(),
            now.wf(),
        ensures
            final(self).wf(),
            final(self).same_key(*old(self)),
            old(self).shows(*now, *final(self), r),
    {
        self.roll_over(now);
        let left = now.until_next_day();
        let throttled = match &self.throttled_until {
            Some(u) => now.before(u),
            None => false,
        };
        QuotaSnapshot {
            date: self.date,
            used: self.used,
            total_budget: self.total_budget,
            background_budget: self.background_budget,
            reset_in_secs: left.secs as i64,
            throttled,
        }
    }

    /// The state of the budget now.
    pub fn snapshot(&mut self) -> (r: QuotaSnapshot)
        requires
            old(self).wf(),
        ensures
            final(self).wf(),
            final(self).same_key(*old(self)),
            exists|now: Timestamp| #[trigger]
                now.wf() && now.secs >= 0 && old(self).shows(now, *final(self), r),
    {
        let now = clock::utc_now();
        self.snapshot_at(&now)
    }
}

/// The ledger key of a publisher key: a part of its digest, so that the key itself is in no
/// ledger.
pub open spec fn publisher_ledger_key(publisher_key: Seq<char>) -> Seq<char> {
    "pub:"@ + digest::text_digest(publisher_key).take(12)
}

/// The ledger key of a publisher key.
pub fn publisher_scope(publisher_key: &str) -> (r: String)
    ensures
        r@ == publisher_ledger_key(publisher_key@),
{
    text::cat("pub:", digest::short_digest(publisher_key, 12).as_str())
}

/// Governors for Steamworks publisher keys, built on first use. Each publisher key
/// has its own independent daily allowance on Valve's side, so ownership
/// checks must not drain (or be blocked by) the main key's budget. Keys are
/// identified in the ledger by a hash — the raw key never touches the DB.
pub struct PublisherQuotas {
    /// The daily budget of each key.
    pub total_budget: i64,
    /// The governors by their ledger keys.
    pub governors: Lookup<String, QuotaGovernor>,
}

/// A governor of a publisher key that has not been asked for anything yet. Publisher calls are
/// all background work, so there is no reserve.
pub open spec fn fresh_governor(
    g: QuotaGovernor,
    scope: Seq<char>,
    total_budget: int,
    used: int,
    now: Timestamp,
) -> bool {
    &&& g.scope@ == scope
    &&& g.total_budget == total_budget
    &&& g.background_budget == total_budget
    &&& g.counters() == fresh_counters(used, now)
}

impl PublisherQuotas {
    /// The budget can be counted, no ledger key has two governors, and every governor is sound and
    /// writes to its own ledger key.
    pub open spec fn wf(self) -> bool {
        &&& 1 <= self.total_budget < i64::MAX
        &&& self.governors.wf()
        &&& forall|i: int|
            0 <= i < self.governors.entries@.len() ==> (#[trigger] self.governors.entries@[i]).1.wf()
                && self.governors.entries@[i].1.scope@ == self.governors.entries@[i].0@
    }

    /// Governors with this daily budget, none of them built yet.
    pub fn new(total_budget: i64) -> (r: PublisherQuotas)
        requires
            1 <= total_budget < i64::MAX,
        ensures
            r.wf(),
            r.total_budget == total_budget,
            r.governors@ == Map::<Seq<char>, QuotaGovernor>::empty(),
    {
        PublisherQuotas { total_budget, governors: Lookup::new() }
    }

    /// Has the publisher key a governor yet?
    pub fn knows(&self, publisher_key: &str) -> (r: bool)
        ensures
            r == self.governors@.contains_key(publisher_ledger_key(publisher_key@)),
    {
        let scope = publisher_scope(publisher_key);
        self.governors.find(&scope).is_some()
    }

    /// What asking for the governor of a publisher key leads to: where there is one, it is found,
    /// and nothing changes; where there is none, a fresh one is added.
    pub open spec fn finds(
        self,
        publisher_key: Seq<char>,
        used: int,
        now: Timestamp,
        after: PublisherQuotas,
        place: usize,
    ) -> bool {
        let scope = publisher_ledger_key(publisher_key);
        let g = after.governors.entries@[place as int].1;
        &&& place < after.governors.entries@.len()
        &&& after.governors.entries@[place as int].0@ == scope
        &&& after.total_budget == self.total_budget
        &&& if self.governors@.contains_key(scope) {
            after.governors == self.governors && g == self.governors@[scope]
        } else {
            &&& after.governors@ == self.governors@.insert(scope, g)
            &&& fresh_governor(g, scope, self.total_budget as int, used, now)
        }
    }

    /// The place of the governor for one publisher key, at a given time. It is built on first use,
    /// with the units that the ledger shows as spent on that day; later calls find the same one,
    /// so that all callers share a single pacing gate.
    pub fn for_key_at(&mut self, publisher_key: &str, used: i64, now: &Timestamp) -> (r: usize)
        requires
            old(self).wf(),
            old(self).total_budget - used <= i64::MAX,
            now.wf(),
        ensures
            final(self).wf(),
            old(self).finds(publisher_key@, used as int, *now, *final(self), r),
    {
        let scope = publisher_scope(publisher_key);
        if let Some(i) = self.governors.find(&scope) {
            return i;
        }
        let governor = QuotaGovernor::new_at(
            scope.clone(),
            self.total_budget,
            self.total_budget,
            used,
            now,
        );
        let ghost before = self.governors.entries@;
        let place: usize = self.governors.entries.len();
        self.governors.entries.push((scope, governor));
        proof {
            assert(self.governors.entries@.drop_last() =~= before);
        }
        place
    }

    /// The place of the governor for one publisher key, which is built on first use.
    pub fn for_key(&mut self, publisher_key: &str, used: i64) -> (r: usize)
        requires
            old(self).wf(),
            old(self).total_budget - used <= i64::MAX,
        ensures
            final(self).wf(),
            exists|now: Timestamp| #[trigger]
                now.wf() && now.secs >= 0 && old(self).finds(
                    publisher_key@,
                    used as int,
                    now,
                    *final(self),
                    r,
                ),
    {
        let now = clock::utc_now();
        self.for_key_at(publisher_key, used, &now)
    }
}

// ── What holds of the budget ───────────────────────────────────────────────

/// A request for a unit.
pub struct Request {
    pub class: Class,
    pub now: Timestamp,
}

/// The most that a class of calls may have spent.
pub open spec fn class_ceiling(class: Class, background_budget: int, total_budget: int) -> int {
    match class {
        Class::Background => background_budget,
        Class::Interactive => total_budget,
    }
}

/// The counters after a list of requests.
pub open spec fn after_requests(
    c: Counters,
    requests: Seq<Request>,
    background_budget: int,
    total_budget: int,
) -> Counters
    decreases requests.len(),
{
    if requests.len() == 0 {
        c
    } else {
        let before = after_requests(c, requests.drop_last(), background_budget, total_budget);
        let q = requests.last();
        after_acquire(
            before,
            q.class,
            class_ceiling(q.class, background_budget, total_budget),
            background_budget,
            q.now,
        )
    }
}

/// How many of the requests are granted.
pub open spec fn grants(
    c: Counters,
    requests: Seq<Request>,
    background_budget: int,
    total_budget: int,
) -> int
    decreases requests.len(),
{
    if requests.len() == 0 {
        0
    } else {
        let before = after_requests(c, requests.drop_last(), background_budget, total_budget);
        let q = requests.last();
        grants(c, requests.drop_last(), background_budget, total_budget) + if granted(
            before,
            class_ceiling(q.class, background_budget, total_budget),
            q.now,
        ) {
            1int
        } else {
            0
        }
    }
}

/// What is spent on a day.
pub open spec fn used_on(c: Counters, day: int) -> int {
    if c.date == day {
        c.used
    } else {
        0
    }
}

/// Do all the requests come on this day?
pub open spec fn all_on(requests: Seq<Request>, day: int) -> bool {
    forall|i: int| 0 <= i < requests.len() ==> (#[trigger] requests[i]).now.day() == day
}

/// Whatever is requested in a day, no more than the budget is granted, together with what is spent
/// on that day already.
pub proof fn law_budget_is_never_exceeded(
    c: Counters,
    requests: Seq<Request>,
    background_budget: int,
    total_budget: int,
    day: int,
)
    requires
        0 <= background_budget <= total_budget,
        used_on(c, day) <= total_budget,
        all_on(requests, day),
    ensures
        used_on(c, day) + grants(c, requests, background_budget, total_budget) <= total_budget,
        used_on(after_requests(c, requests, background_budget, total_budget), day) == used_on(
            c,
            day,
        ) + grants(c, requests, background_budget, total_budget),
    decreases requests.len(),
{
    if requests.len() > 0 {
        assert(requests.last() == requests[requests.len() - 1]);
        assert(all_on(requests.drop_last(), day)) by {
            assert forall|i: int| 0 <= i < requests.drop_last().len() implies (
            #[trigger] requests.drop_last()[i]).now.day() == day by {
                assert(requests.drop_last()[i] == requests[i]);
            }
        }
        law_budget_is_never_exceeded(
            c,
            requests.drop_last(),
            background_budget,
            total_budget,
            day,
        );
    }
}

/// Background calls never eat the interactive reserve: however many are requested in a day, they
/// leave what lies above the background budget.
pub proof fn law_background_leaves_the_reserve(
    c: Counters,
    requests: Seq<Request>,
    background_budget: int,
    total_budget: int,
    day: int,
)
    requires
        0 <= background_budget <= total_budget,
        used_on(c, day) <= background_budget,
        all_on(requests, day),
        forall|i: int| 0 <= i < requests.len() ==> (#[trigger] requests[i]).class is Background,
    ensures
        used_on(c, day) + grants(c, requests, background_budget, total_budget)
            <= background_budget,
        used_on(after_requests(c, requests, background_budget, total_budget), day) == used_on(
            c,
            day,
        ) + grants(c, requests, background_budget, total_budget),
    decreases requests.len(),
{
    if requests.len() > 0 {
        assert(requests.last() == requests[requests.len() - 1]);
        assert(all_on(requests.drop_last(), day)) by {
            assert forall|i: int| 0 <= i < requests.drop_last().len() implies (
            #[trigger] requests.drop_last()[i]).now.day() == day by {
                assert(requests.drop_last()[i] == requests[i]);
            }
        }
        assert forall|i: int| 0 <= i < requests.drop_last().len() implies (
        #[trigger] requests.drop_last()[i]).class is Background by {
            assert(requests.drop_last()[i] == requests[i]);
        }
        law_background_leaves_the_reserve(
            c,
            requests.drop_last(),
            background_budget,
            total_budget,
            day,
        );
    }
}

/// Once background calls have spent their budget, interactive calls still have the reserve.
pub proof fn law_interactive_calls_have_the_reserve(
    c: Counters,
    background_budget: int,
    total_budget: int,
    now: Timestamp,
)
    requires
        background_budget < total_budget,
        rolled(c, now).used == background_budget,
        !paused(rolled(c, now), now),
    ensures
        !granted(c, class_ceiling(Class::Background, background_budget, total_budget), now),
        granted(c, class_ceiling(Class::Interactive, background_budget, total_budget), now),
{
}

/// A grant costs exactly one unit, which goes to the ledger; a refusal costs nothing.
pub proof fn law_a_grant_costs_one_unit(
    c: Counters,
    class: Class,
    ceiling: int,
    background_budget: int,
    now: Timestamp,
)
    ensures
        ({
            let before = rolled(c, now);
            let after = after_acquire(c, class, ceiling, background_budget, now);
            let cost = if granted(c, ceiling, now) {
                1int
            } else {
                0
            };
            &&& after.used == before.used + cost
            &&& after.unflushed == before.unflushed + cost
            &&& after.date == before.date
        }),
{
}

/// A new day starts without spend and without a pause.
pub proof fn law_a_new_day_starts_afresh(c: Counters, now: Timestamp)
    requires
        c.date != now.day(),
    ensures
        rolled(c, now).used == 0,
        !paused(rolled(c, now), now),
{
}

/// Background calls are spaced at most a minute apart: each puts off the next one by the
/// distance between them.
pub proof fn law_background_calls_are_spaced(
    c: Counters,
    background_budget: int,
    now: Timestamp,
)
    requires
        granted(c, background_budget, now),
        now.wf(),
        c.bg_next_at <= clock::last_point(),
    ensures
        ({
            let after = after_acquire(c, Class::Background, background_budget, background_budget, now);
            let step = after.bg_next_at - gate(rolled(c, now), now);
            0 <= step <= MAX_SPACING_MS * 1_000_000
        }),
{
    let used = rolled(c, now).used + 1;
    let remaining = if background_budget - used > 1 {
        background_budget - used
    } else {
        1
    };
    let left = (now.next_midnight() - now@) / clock::NANOS_PER_SECOND as int;
    let seconds = if left > 1 {
        left
    } else {
        1
    };
    vstd::arithmetic::div_mod::lemma_div_pos_is_pos(seconds * 1000, remaining);
}

/// Background calls trickle over the whole day: at the distance kept between them, what is left of
/// their budget lasts no longer than the day, and, unless the distance is capped, no shorter
/// either, to within a millisecond each.
pub proof fn law_pacing_spreads_over_the_day(budget: int, used: int, now: Timestamp)
    requires
        used < budget,
        now.wf(),
        now.next_midnight() - now@ >= clock::NANOS_PER_SECOND,
    ensures
        ({
            let left_ms = (now.next_midnight() - now@) / clock::NANOS_PER_SECOND as int * 1000;
            let spacing = spacing_ms(budget, used, now);
            &&& spacing * (budget - used) <= left_ms
            &&& spacing < MAX_SPACING_MS ==> left_ms < (spacing + 1) * (budget - used)
        }),
{
    let remaining = budget - used;
    let left_ms = (now.next_midnight() - now@) / clock::NANOS_PER_SECOND as int * 1000;
    let full = left_ms / remaining;
    let spacing = spacing_ms(budget, used, now);
    vstd::arithmetic::div_mod::lemma_fundamental_div_mod(left_ms, remaining);
    vstd::arithmetic::div_mod::lemma_mod_bound(left_ms, remaining);
    vstd::arithmetic::div_mod::lemma_div_pos_is_pos(left_ms, remaining);
    assert(remaining * full == full * remaining) by (nonlinear_arith);
    assert((full + 1) * remaining == full * remaining + remaining) by (nonlinear_arith);
    assert(spacing <= full);
    assert(spacing * remaining <= full * remaining) by (nonlinear_arith)
        requires
            spacing <= full,
            remaining > 0,
    ;
}

/// Units that could not be written to the ledger are not lost: they are written with the next.
pub proof fn law_a_failed_flush_loses_nothing(c: Counters)
    ensures
        after_failed_flush(after_flush(c), c.unflushed) == c,
{
}

/// Of two pauses the longer counts, in whichever order they come.
pub proof fn law_the_longer_pause_counts(c: Counters, a: int, b: int)
    ensures
        after_throttle(after_throttle(c, a), b) == after_throttle(after_throttle(c, b), a),
        after_throttle(after_throttle(c, a), b).throttled_until->0 >= a,
        after_throttle(after_throttle(c, a), b).throttled_until->0 >= b,
{
}

/// Whatever number of seconds Steam asks for, calls are paused from then on, for at least a second
/// unless time itself ends earlier.
pub proof fn law_a_pause_begins_at_once(c: Counters, secs: u64, now: Timestamp)
    requires
        now@ < clock::last_point(),
    ensures
        paused(after_throttle(c, pause_end(secs, now)), now),
        now@ + clock::NANOS_PER_SECOND <= clock::last_point() ==> pause_end(secs, now) >= now@
            + clock::NANOS_PER_SECOND,
{
}

/// While Steam has asked for a pause, no call is granted and nothing is spent, whatever is left of
/// the budget; the pause ends with the day at the latest.
pub proof fn law_a_pause_stops_every_call(
    c: Counters,
    until: int,
    class: Class,
    ceiling: int,
    background_budget: int,
    now: Timestamp,
)
    requires
        c.date == now.day(),
        now@ < until,
    ensures
        !granted(after_throttle(c, until), ceiling, now),
        after_acquire(after_throttle(c, until), class, ceiling, background_budget, now)
            == after_throttle(c, until),
{
}

/// The governor of a publisher key is built once: whoever asks later finds the same one, and what
/// the ledger shows by then changes nothing.
pub proof fn law_a_publisher_key_has_one_governor(
    quotas: PublisherQuotas,
    publisher_key: Seq<char>,
    used: int,
    now: Timestamp,
    after: PublisherQuotas,
    place: usize,
    later_used: int,
    later: Timestamp,
    later_after: PublisherQuotas,
    later_place: usize,
)
    requires
        after.wf(),
        quotas.finds(publisher_key, used, now, after, place),
        after.finds(publisher_key, later_used, later, later_after, later_place),
    ensures
        later_after.governors == after.governors,
        later_place == place,
{
    let scope = publisher_ledger_key(publisher_key);
    assert(after.governors@.contains_key(scope));
}

/// Publisher keys have their own budgets: asking for the governor of one leaves those of all
/// others as they are, and none of them spends from the main ledger.
pub proof fn law_publisher_keys_have_their_own_budgets(
    quotas: PublisherQuotas,
    publisher_key: Seq<char>,
    used: int,
    now: Timestamp,
    after: PublisherQuotas,
    place: usize,
)
    requires
        quotas.finds(publisher_key, used, now, after, place),
    ensures
        forall|scope: Seq<char>|
            scope != publisher_ledger_key(publisher_key) ==> {
                &&& after.governors@.contains_key(scope) == quotas.governors@.contains_key(scope)
                &&& quotas.governors@.contains_key(scope) ==> #[trigger] after.governors@[scope]
                    == quotas.governors@[scope]
            },
        publisher_ledger_key(publisher_key) != "main"@,
{
    reveal_strlit("main");
    reveal_strlit("pub:");
    assert(publisher_ledger_key(publisher_key)[0] == 'p');
    assert("main"@[0] == 'm');
}

/// A call is granted exactly when calls are not paused and less is spent on the day than its class
/// may spend: background calls the background budget, interactive calls the whole. What was spent
/// on an earlier day, and a pause from then, do not count.
pub proof fn law_calls_are_granted_within_the_budget(
    governor: QuotaGovernor,
    class: Class,
    now: Timestamp,
    after: QuotaGovernor,
    answer: (Outcome, i64),
)
    requires
        governor.acquires(class, now, after, answer),
    ensures
        ({
            let today = governor.date == now.secs as int / 86_400;
            let used = if today {
                governor.used as int
            } else {
                0
            };
            let budget = if class is Background {
                governor.background_budget
            } else {
                governor.total_budget
            };
            let paused = today && governor.throttled_until is Some && now@
                < governor.throttled_until->0@;
            &&& answer.0 is Granted <==> !paused && used < budget
            &&& after.used == used + (if answer.0 is Granted {
                1int
            } else {
                0
            })
            &&& after.date == now.secs as int / 86_400
        }),
{
}

/// Interactive calls never wait. A background call waits, in whole milliseconds, until the time
/// that the one before it left, and leaves the next one the distance that spreads what is left of
/// the budget over the day.
pub proof fn law_background_calls_wait_their_turn(
    governor: QuotaGovernor,
    class: Class,
    now: Timestamp,
    after: QuotaGovernor,
    answer: (Outcome, i64),
)
    requires
        governor.acquires(class, now, after, answer),
        answer.0 is Granted,
        governor.date == now.secs as int / 86_400,
    ensures
        class is Interactive ==> answer.1 == 0 && after.bg_next_at@ == governor.bg_next_at@,
        class is Background ==> {
            let turn = if governor.bg_next_at@ > now@ {
                governor.bg_next_at@
            } else {
                now@
            };
            let step = spacing_ms(governor.background_budget as int, governor.used + 1, now)
                * 1_000_000;
            &&& answer.1 * 1_000_000 <= turn - now@ < (answer.1 + 1) * 1_000_000
            &&& turn + step <= clock::last_point() ==> after.bg_next_at@ == turn + step
        },
{
}

/// A call that is refused because the budget is spent is told to come back at the start of the next
/// UTC day, and then it is granted; until then it is not.
pub proof fn law_a_spent_budget_comes_back_at_midnight(
    governor: QuotaGovernor,
    class: Class,
    now: Timestamp,
    after: QuotaGovernor,
    answer: (Outcome, i64),
    later: Timestamp,
    later_after: QuotaGovernor,
    later_answer: (Outcome, i64),
)
    requires
        governor.wf(),
        now.wf(),
        later.wf(),
        governor.throttled_until is None,
        governor.acquires(class, now, after, answer),
        answer.0 is Exhausted,
        governor.same_key(after),
        now@ <= later@,
        after.acquires(class, later, later_after, later_answer),
    ensures
        answer.0->retry_after@ <= 86_400_000_000_000,
        later@ < now@ + answer.0->retry_after@ ==> later_answer.0 is Exhausted,
        now@ + answer.0->retry_after@ <= later@ < now@ + answer.0->retry_after@
            + 86_400_000_000_000 ==> later_answer.0 is Granted,
{
    let day = now.secs as int / 86_400;
    assert(now.next_midnight() == (day + 1) * 86_400 * 1_000_000_000);
    assert(later.secs as int / 86_400 >= day);
}

/// A call that is refused because of a pause is told to come back when the pause ends, and then the
/// pause stops no call any more.
pub proof fn law_a_pause_ends_as_told(
    governor: QuotaGovernor,
    class: Class,
    now: Timestamp,
    after: QuotaGovernor,
    answer: (Outcome, i64),
    later: Timestamp,
)
    requires
        governor.acquires(class, now, after, answer),
        governor.date == now.secs as int / 86_400,
        governor.throttled_until is Some,
        now@ < governor.throttled_until->0@,
    ensures
        answer.0 is Exhausted,
        now@ + answer.0->retry_after@ == governor.throttled_until->0@,
        after.throttled_until is Some,
        after.throttled_until->0@ == governor.throttled_until->0@,
        later@ >= now@ + answer.0->retry_after@ ==> !paused(after.counters(), later),
{
}

/// Steam's wish to be left alone is honored for as long as it says: calls are paused for that many
/// seconds, or for a second when it says none, or for longer where they were paused for longer
/// already. Nothing else changes.
pub proof fn law_a_pause_lasts_as_long_as_asked(c: Counters, secs: u64, now: Timestamp, later: int)
    requires
        now@ + (if secs == 0 {
            1
        } else {
            secs as int
        }) * 1_000_000_000 <= clock::last_point(),
    ensures
        ({
            let length = (if secs == 0 {
                1
            } else {
                secs as int
            }) * 1_000_000_000;
            let after = after_throttle(c, pause_end(secs, now));
            &&& after.throttled_until is Some
            &&& c.throttled_until is None || c.throttled_until->0 <= now@ + length
                ==> after.throttled_until->0 == now@ + length
            &&& c.throttled_until is Some && c.throttled_until->0 > now@ + length
                ==> after.throttled_until == c.throttled_until
            &&& after.used == c.used && after.unflushed == c.unflushed && after.date == c.date
                && after.bg_next_at == c.bg_next_at
        }),
{
}

/// A snapshot foretells what a request at the same time would get: a unit of a class is granted
/// exactly when the snapshot shows no pause and less spent than the class may spend. Its last
/// number is the whole seconds to the next UTC day.
pub proof fn law_a_snapshot_foretells_requests(
    governor: QuotaGovernor,
    now: Timestamp,
    after: QuotaGovernor,
    shown: QuotaSnapshot,
    class: Class,
    later: QuotaGovernor,
    answer: (Outcome, i64),
)
    requires
        governor.shows(now, after, shown),
        governor.same_key(after),
        after.acquires(class, now, later, answer),
    ensures
        answer.0 is Granted <==> !shown.throttled && shown.used < (if class is Background {
            shown.background_budget
        } else {
            shown.total_budget
        }),
        shown.total_budget == governor.total_budget,
        shown.background_budget == governor.background_budget,
        shown.date == now.secs as int / 86_400,
        governor.date == shown.date ==> shown.used == governor.used,
        governor.date != shown.date ==> shown.used == 0 && !shown.throttled,
        shown.reset_in_secs * 1_000_000_000 <= (now.secs as int / 86_400 + 1) * 86_400_000_000_000
            - now@ < (shown.reset_in_secs + 1) * 1_000_000_000,
{
}

/// A governor that is built on first use starts with what the ledger shows as spent on the day, with
/// the whole budget for background calls, without a pause, and with nothing left to write.
pub proof fn law_a_new_publisher_governor_resumes_the_ledger(
    quotas: PublisherQuotas,
    publisher_key: Seq<char>,
    used: int,
    now: Timestamp,
    after: PublisherQuotas,
    place: usize,
)
    requires
        quotas.finds(publisher_key, used, now, after, place),
        !quotas.governors@.contains_key(publisher_ledger_key(publisher_key)),
    ensures
        ({
            let g = after.governors.entries@[place as int].1;
            &&& g.used == used
            &&& g.unflushed == 0
            &&& g.throttled_until is None
            &&& g.total_budget == quotas.total_budget
            &&& g.background_budget == quotas.total_budget
            &&& g.date == now.secs as int / 86_400
            &&& g.bg_next_at@ == now@
            &&& g.scope@ == publisher_ledger_key(publisher_key)
        }),
{
}

/// A governor that keeps its key keeps its scope and both of its budgets.
pub proof fn law_a_key_is_its_scope_and_budgets(a: QuotaGovernor, b: QuotaGovernor)
    requires
        a.same_key(b),
    ensures
        a.scope@ == b.scope@,
        a.total_budget == b.total_budget,
        a.background_budget == b.background_budget,
{
}

/// The governor that is found for a publisher key stands under the ledger key of that publisher
/// key, and the governors of all other keys stay as they are.
pub proof fn law_each_publisher_key_has_its_own_governor(
    quotas: PublisherQuotas,
    publisher_key: Seq<char>,
    used: int,
    now: Timestamp,
    after: PublisherQuotas,
    place: usize,
    other: Seq<char>,
)
    requires
        quotas.finds(publisher_key, used, now, after, place),
    ensures
        place < after.governors.entries@.len(),
        after.governors.entries@[place as int].0@ == publisher_ledger_key(publisher_key),
        after.governors@.contains_key(publisher_ledger_key(publisher_key)),
        after.governors@[publisher_ledger_key(publisher_key)]
            == after.governors.entries@[place as int].1,
        quotas.governors@.contains_key(publisher_ledger_key(publisher_key)) ==> after.governors@
            == quotas.governors@,
        other != publisher_ledger_key(publisher_key) ==> {
            &&& after.governors@.contains_key(other) == quotas.governors@.contains_key(other)
            &&& after.governors@.contains_key(other) ==> after.governors@[other]
                == quotas.governors@[other]
        },
        after.total_budget == quotas.total_budget,
{
}

/// Background calls are spread over the rest of the day: what is left of the budget, called at this
/// distance, lasts until midnight and not much longer, unless calls would then be more than a minute
/// apart.
pub proof fn law_the_rest_of_the_budget_lasts_the_day(budget: int, used: int, now: Timestamp)
    requires
        now.wf(),
        used < budget,
    ensures
        ({
            let left_secs = 86_400 - now.secs as int % 86_400;
            let whole_secs = if now.nanos > 0 && left_secs > 1 { left_secs - 1 } else { left_secs };
            let gap = spacing_ms(budget, used, now);
            &&& 0 <= gap <= 60_000
            &&& gap * (budget - used) <= whole_secs * 1000
            &&& gap < 60_000 ==> whole_secs * 1000 < (gap + 1) * (budget - used)
        }),
{
    let remaining = budget - used;
    let left = (now.next_midnight() - now@) / 1_000_000_000;
    let left_secs = 86_400 - now.secs as int % 86_400;
    let start = now.day() * 86_400;
    assert(now.secs == start + now.secs as int % 86_400);
    assert(now.next_midnight() == (start + 86_400) * 1_000_000_000) by {
        assert((now.day() + 1) * 86_400 == start + 86_400) by (nonlinear_arith)
            requires
                start == now.day() * 86_400,
        ;
    }
    assert(now.next_midnight() - now@ == left_secs * 1_000_000_000 - now.nanos);
    let whole_secs = if now.nanos > 0 && left_secs > 1 { left_secs - 1 } else { left_secs };
    let seconds = if left > 1 { left } else { 1 };
    assert(seconds == whole_secs);
    let spacing = (seconds * 1000) / remaining;
    vstd::arithmetic::div_mod::lemma_fundamental_div_mod(seconds * 1000, remaining);
    vstd::arithmetic::div_mod::lemma_mod_bound(seconds * 1000, remaining);
    vstd::arithmetic::div_mod::lemma_div_pos_is_pos(seconds * 1000, remaining);
    vstd::arithmetic::mul::lemma_mul_is_commutative(spacing, remaining);
    assert((spacing + 1) * remaining == spacing * remaining + remaining) by (nonlinear_arith);
    let gap = spacing_ms(budget, used, now);
    assert(gap * remaining <= spacing * remaining) by (nonlinear_arith)
        requires
            0 <= gap <= spacing,
            remaining > 0,
    ;
}

/// A publisher key stands in the ledger behind a mark of its own, by the first twelve characters of
/// its digest: keys that differ in these have different entries, and keys that do not share one.
pub proof fn law_publisher_keys_have_their_own_entries(a: Seq<char>, b: Seq<char>)
    requires
        digest::text_digest(a).len() >= 12,
        digest::text_digest(b).len() >= 12,
    ensures
        publisher_ledger_key(a).len() == 16,
        publisher_ledger_key(a).subrange(0, 4) == seq!['p', 'u', 'b', ':'],
        forall|i: int|
            0 <= i < 12 ==> #[trigger] publisher_ledger_key(a)[i + 4] == digest::text_digest(a)[i],
        publisher_ledger_key(a) == publisher_ledger_key(b) <==> forall|i: int|
            0 <= i < 12 ==> (#[trigger] digest::text_digest(a)[i]) == digest::text_digest(b)[i],
{
    reveal_strlit("pub:");
    let (x, y) = (publisher_ledger_key(a), publisher_ledger_key(b));
    assert(x.subrange(0, 4) =~= seq!['p', 'u', 'b', ':']);
    if x == y {
        assert forall|i: int| 0 <= i < 12 implies (#[trigger] digest::text_digest(a)[i])
            == digest::text_digest(b)[i] by {
            assert(x[i + 4] == y[i + 4]);
        }
    }
    if forall|i: int|
        0 <= i < 12 ==> (#[trigger] digest::text_digest(a)[i]) == digest::text_digest(b)[i] {
        assert(digest::text_digest(a).take(12) =~= digest::text_digest(b).take(12));
    }
}

} // verus!
