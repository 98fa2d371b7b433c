//! When a player's Steam data is fetched again, and how much of it.
//!
//! - **Condition-driven fetching.** GetOwnedGames / GetSteamLevel /
//!   GetUserGroupList are only called when some role link's conditions
//!   actually reference that data; achievements and publisher-ownership
//!   checks are further scoped to the guilds the user is actually in.
//! - **Adaptive cadence.** Steam data is stable for most users, so a user
//!   whose eval-relevant snapshot hasn't changed earns an exponentially
//!   longer interval (bounded by MAX_STABLE_REFRESH_SECS), and one that just
//!   changed is re-checked on the base cadence.

use vstd::prelude::*;
use crate::clock::{Delay, Timestamp};
use crate::lookup;
use crate::lookup::Lookup;
use crate::lookup::TextSet;
use crate::models::condition;
use crate::models::condition::{Condition, ConditionField, Rule};
use crate::services::condition_eval;
use crate::services::condition_eval::Facts;
use crate::services::quota::QuotaSnapshot;
use crate::text;

verus! {

/// 30 min floor
pub const MIN_REFRESH_SECS: i64 = 1800;

/// 24 hour cap for churny data
pub const MAX_REFRESH_SECS: i64 = 86400;

/// For how long the base interval is kept.
pub const INTERVAL_CACHE_SECS: u64 = 300;

/// For how long the fetch needs are kept.
pub const NEEDS_CACHE_SECS: u64 = 60;

/// Inactive users (no role_assignments) are refreshed this many times slower.
pub const INACTIVE_MULTIPLIER: i64 = 6;

/// Idle nap when there's nothing due.
pub const IDLE_SLEEP_SECS: u64 = 5;

/// Longest the worker sleeps in one go when paused on quota, so it
/// re-evaluates periodically (e.g. picks up a raised quota).
pub const MAX_PAUSE_SECS: u64 = 900;

// ── Cadence ────────────────────────────────────────────────────────────────

/// A number brought into a range.
pub open spec fn clamped(n: int, lo: int, hi: int) -> int {
    if n < lo {
        lo
    } else if n > hi {
        hi
    } else {
        n
    }
}

/// How much longer the interval of data is that came back unchanged so many times: it doubles
/// with every second time, up to sixteen times.
pub open spec fn stretch(streak: int) -> int
    decreases streak,
{
    if streak < 2 {
        1
    } else if streak >= 8 {
        16
    } else {
        2 * stretch(streak - 2)
    }
}

/// Stability multiplier on the base interval: 1,1,2,2,4,4,8,8,16… capped at
/// 16×. A long unchanged streak means the data is stable and rarely needs
/// re-confirming, so we stretch its interval and reclaim that quota for churn.
pub fn stability_factor(streak: i32) -> (r: i64)
    ensures
        r == stretch(streak as int),
{
    proof {
        reveal_with_fuel(stretch, 5);
    }
    if streak < 2 {
        1
    } else if streak < 4 {
        2
    } else if streak < 6 {
        4
    } else if streak < 8 {
        8
    } else {
        16
    }
}

/// The seconds until a player's data is fetched again.
pub open spec fn interval(base: int, is_active: bool, streak: int, max_stable: int) -> int {
    let raw = clamped(
        if is_active {
            base
        } else {
            base * INACTIVE_MULTIPLIER
        },
        MIN_REFRESH_SECS as int,
        MAX_REFRESH_SECS as int,
    );
    let cap = if max_stable > MAX_REFRESH_SECS {
        max_stable
    } else {
        MAX_REFRESH_SECS as int
    };
    if raw * stretch(streak) < cap {
        raw * stretch(streak)
    } else {
        cap
    }
}

/// Next refresh interval for a user. Churny rows (low streak) stay within
/// MAX_REFRESH_SECS; long-stable rows may stretch up to `max_stable`.
pub fn compute_interval(base: i64, is_active: bool, streak: i32, max_stable: i64) -> (r: i64)
    requires
        is_active || i64::MIN <= base * INACTIVE_MULTIPLIER <= i64::MAX,
    ensures
        r == interval(base as int, is_active, streak as int, max_stable as int),
{
    let asked: i64 = if is_active {
        base
    } else {
        base * INACTIVE_MULTIPLIER
    };
    let raw: i64 = if asked < MIN_REFRESH_SECS {
        MIN_REFRESH_SECS
    } else if asked > MAX_REFRESH_SECS {
        MAX_REFRESH_SECS
    } else {
        asked
    };
    let cap: i64 = if max_stable > MAX_REFRESH_SECS {
        max_stable
    } else {
        MAX_REFRESH_SECS
    };
    let factor: i64 = stability_factor(streak);
    proof {
        law_stretch_grows_and_caps(streak as int, streak as int);
        assert(0 <= raw * factor <= 86400 * 16) by (nonlinear_arith)
            requires
                0 <= raw <= 86400,
                1 <= factor <= 16,
        ;
    }
    let stretched: i64 = raw * factor;
    if stretched < cap {
        stretched
    } else {
        cap
    }
}

/// The stretch grows with the streak, from 1 up to 16 and no further.
pub proof fn law_stretch_grows_and_caps(a: int, b: int)
    requires
        a <= b,
    ensures
        1 <= stretch(a) <= stretch(b) <= 16,
{
    reveal_with_fuel(stretch, 5);
}

/// Whatever the base, an interval is never shorter than half an hour, and never longer than the
/// cap for stable data, which is itself at least a day.
pub proof fn law_interval_is_bounded(base: int, is_active: bool, streak: int, max_stable: int)
    ensures
        MIN_REFRESH_SECS <= interval(base, is_active, streak, max_stable),
        interval(base, is_active, streak, max_stable) <= (if max_stable > MAX_REFRESH_SECS {
            max_stable
        } else {
            MAX_REFRESH_SECS as int
        }),
{
    law_stretch_grows_and_caps(streak, streak);
    let raw = clamped(
        if is_active {
            base
        } else {
            base * INACTIVE_MULTIPLIER
        },
        MIN_REFRESH_SECS as int,
        MAX_REFRESH_SECS as int,
    );
    assert(raw * stretch(streak) >= 1800) by (nonlinear_arith)
        requires
            raw >= 1800,
            stretch(streak) >= 1,
    ;
}

/// Data that has just changed is fetched again within a day.
pub proof fn law_changed_data_is_refreshed_within_a_day(
    base: int,
    is_active: bool,
    max_stable: int,
)
    ensures
        interval(base, is_active, 0, max_stable) <= MAX_REFRESH_SECS,
{
    reveal_with_fuel(stretch, 2);
}

/// A longer streak never shortens the interval.
pub proof fn law_stability_never_shortens_the_interval(
    base: int,
    is_active: bool,
    a: int,
    b: int,
    max_stable: int,
)
    requires
        a <= b,
    ensures
        interval(base, is_active, a, max_stable) <= interval(base, is_active, b, max_stable),
{
    law_stretch_grows_and_caps(a, b);
    let raw = clamped(
        if is_active {
            base
        } else {
            base * INACTIVE_MULTIPLIER
        },
        MIN_REFRESH_SECS as int,
        MAX_REFRESH_SECS as int,
    );
    assert(raw * stretch(a) <= raw * stretch(b)) by (nonlinear_arith)
        requires
            raw >= 0,
            stretch(a) <= stretch(b),
    ;
}

/// The streak after a fetch: one more when nothing changed, up to a hundred; otherwise it starts
/// anew.
pub open spec fn streak_after(same: bool, before: int) -> int {
    if !same {
        0
    } else if before + 1 > 100 {
        100
    } else {
        before + 1
    }
}

/// The streak after a fetch.
pub fn next_streak(new_hash: &str, prev_hash: &str, prev_streak: i32) -> (r: i32)
    ensures
        r == streak_after(new_hash@ == prev_hash@, prev_streak as int),
{
    if text::same(new_hash, prev_hash) {
        if prev_streak >= 100 {
            100
        } else {
            prev_streak + 1
        }
    } else {
        0
    }
}

/// How long, in seconds, to nap after the budget was found exhausted, bounded so that things are
/// looked at again periodically.
pub fn pause_secs(retry_after_secs: u64) -> (r: u64)
    ensures
        r == clamped(retry_after_secs as int, IDLE_SLEEP_SECS as int, MAX_PAUSE_SECS as int),
{
    if retry_after_secs < IDLE_SLEEP_SECS {
        IDLE_SLEEP_SECS
    } else if retry_after_secs > MAX_PAUSE_SECS {
        MAX_PAUSE_SECS
    } else {
        retry_after_secs
    }
}

/// What a worker does next.
#[derive(Debug, Clone, Copy, PartialEq, Eq, Structural)]
pub enum Triage {
    /// Nothing can be fetched: nap for so many seconds and serve from the cache.
    Pause(u64),
    /// Claim a batch. With `interactive_only`, only rows that a user has asked for.
    Work { interactive_only: bool },
}

/// Budget triage. Fully paused when throttled or everything is spent —
/// serve from cache until the UTC reset; this is the anti-herd
/// keystone: nothing is stamped, nothing floods at rollover. When only
/// the background pool is spent, keep serving *user-initiated* rows
/// (fresh links / Re-checks) from the interactive reserve.
pub fn triage(snap: &QuotaSnapshot) -> (r: Triage)
    requires
        snap.reset_in_secs >= 0,
    ensures
        r == (if snap.throttled || snap.used >= snap.total_budget {
            Triage::Pause(
                clamped(
                    snap.reset_in_secs as int,
                    IDLE_SLEEP_SECS as int,
                    MAX_PAUSE_SECS as int,
                ) as u64,
            )
        } else {
            Triage::Work { interactive_only: snap.used >= snap.background_budget }
        }),
{
    if snap.throttled || snap.used >= snap.total_budget {
        Triage::Pause(pause_secs(snap.reset_in_secs as u64))
    } else {
        Triage::Work { interactive_only: snap.used >= snap.background_budget }
    }
}

// ── Global fetch needs (derived from role-link conditions) ─────────────────

/// A condition of a role link: in which guild it counts, what it says, and the publisher key of
/// the role link.
pub struct Want {
    pub guild: Seq<char>,
    pub rule: Rule,
    pub key: Option<Seq<char>>,
}

impl Want {
    /// Does the condition look at the library?
    pub open spec fn of_games(self) -> bool {
        ||| self.rule.field is OwnsGame
        ||| self.rule.field is GamePlaytime
        ||| self.rule.field is RecentPlaytime
        ||| self.rule.field is TotalGamesOwned
    }

    /// Does the condition look at the level?
    pub open spec fn of_level(self) -> bool {
        self.rule.field is SteamLevel
    }

    /// Does the condition look at the groups?
    pub open spec fn of_groups(self) -> bool {
        self.rule.field is InGroup
    }

    /// Does the condition look at the achievements in the app?
    pub open spec fn of_achievements(self, app: Seq<char>) -> bool {
        &&& self.rule.field is AchievementCount || self.rule.field is AchievementPercent
            || self.rule.field is HasAchievement
        &&& self.rule.app_id == Some(app)
    }

    /// Does the condition ask the publisher with this key who owns the app?
    pub open spec fn of_ownership(self, pair: (Seq<char>, Seq<char>)) -> bool {
        &&& self.rule.field is OwnsGame
        &&& self.rule.app_id == Some(pair.0)
        &&& self.key == Some(pair.1)
    }
}

/// The conditions of one role link.
pub open spec fn wants_of(guild: Seq<char>, list: Seq<Rule>, key: Option<Seq<char>>) -> Seq<Want> {
    Seq::new(list.len(), |i: int| Want { guild, rule: list[i], key })
}

/// The conditions of all role links.
pub open spec fn wants(rows: Seq<(String, Vec<Condition>, Option<String>)>) -> Seq<Want>
    decreases rows.len(),
{
    if rows.len() == 0 {
        Seq::empty()
    } else {
        let row = rows.last();
        wants(rows.drop_last()) + wants_of(
            row.0@,
            condition::rules(row.1@),
            condition::text_of(row.2),
        )
    }
}

/// Is the condition true of something wanted?
pub open spec fn some_want(list: Seq<Want>, p: spec_fn(Want) -> bool) -> bool {
    exists|i: int| 0 <= i < list.len() && p(#[trigger] list[i])
}

/// The guilds of what is wanted, as far as the condition is true of it.
pub open spec fn guilds_where(list: Seq<Want>, p: spec_fn(Want) -> bool) -> Set<Seq<char>> {
    Set::new(
        |g: Seq<char>|
            exists|i: int|
                0 <= i < list.len() && p(#[trigger] list[i]) && list[i].guild == g,
    )
}

/// Which Steam data classes any role link's conditions actually reference.
/// Data nobody conditions on is never fetched — the biggest per-user saving.
pub struct RefreshNeeds {
    pub need_games: bool,
    pub need_level: bool,
    pub need_groups: bool,
    /// app_id → guilds whose links condition on that app's achievements.
    pub achievement_apps: Lookup<String, TextSet>,
    /// (app_id, publisher_key) → guilds whose links own that pair.
    pub ownership_pairs: Lookup<(String, String), TextSet>,
}

proof fn lemma_some_want_push(list: Seq<Want>, w: Want, p: spec_fn(Want) -> bool)
    ensures
        some_want(list.push(w), p) == (some_want(list, p) || p(w)),
        guilds_where(list.push(w), p) == (if p(w) {
            guilds_where(list, p).insert(w.guild)
        } else {
            guilds_where(list, p)
        }),
{
    let longer = list.push(w);
    assert(longer[list.len() as int] == w);
    if some_want(list, p) {
        let i = choose|i: int| 0 <= i < list.len() && p(#[trigger] list[i]);
        assert(longer[i] == list[i]);
    }
    assert forall|g: Seq<char>| guilds_where(list, p).contains(g) implies guilds_where(
        longer,
        p,
    ).contains(g) by {
        let i = choose|i: int| 0 <= i < list.len() && p(#[trigger] list[i]) && list[i].guild == g;
        assert(longer[i] == list[i]);
    }
    assert(guilds_where(longer, p) =~= (if p(w) {
        guilds_where(list, p).insert(w.guild)
    } else {
        guilds_where(list, p)
    }));
}

impl RefreshNeeds {
    /// The needs say exactly what is wanted.
    pub open spec fn matches(self, list: Seq<Want>) -> bool {
        &&& self.need_games == some_want(list, |w: Want| w.of_games())
        &&& self.need_level == some_want(list, |w: Want| w.of_level())
        &&& self.need_groups == some_want(list, |w: Want| w.of_groups())
        &&& forall|app: Seq<char>| #[trigger]
            self.achievement_apps@.contains_key(app) == some_want(
                list,
                |w: Want| w.of_achievements(app),
            )
        &&& forall|app: Seq<char>| #[trigger]
            lookup::members_at(self.achievement_apps@, app) == guilds_where(
                list,
                |w: Want| w.of_achievements(app),
            )
        &&& forall|pair: (Seq<char>, Seq<char>)| #[trigger]
            self.ownership_pairs@.contains_key(pair) == some_want(
                list,
                |w: Want| w.of_ownership(pair),
            )
        &&& forall|pair: (Seq<char>, Seq<char>)| #[trigger]
            lookup::members_at(self.ownership_pairs@, pair) == guilds_where(
                list,
                |w: Want| w.of_ownership(pair),
            )
    }

    /// No key stands twice.
    pub open spec fn wf(self) -> bool {
        self.achievement_apps.wf() && self.ownership_pairs.wf()
    }

    /// Nothing is wanted.
    pub fn new() -> (r: RefreshNeeds)
        ensures
            r.wf(),
            r.matches(Seq::empty()),
    {
        let r = RefreshNeeds {
            need_games: false,
            need_level: false,
            need_groups: false,
            achievement_apps: Lookup::new(),
            ownership_pairs: Lookup::new(),
        };
        proof {
            assert forall|app: Seq<char>| #[trigger]
                lookup::members_at(r.achievement_apps@, app) == guilds_where(
                    Seq::<Want>::empty(),
                    |w: Want| w.of_achievements(app),
                ) by {
                assert(guilds_where(Seq::<Want>::empty(), |w: Want| w.of_achievements(app))
                    =~= Set::<Seq<char>>::empty());
            }
            assert forall|pair: (Seq<char>, Seq<char>)| #[trigger]
                lookup::members_at(r.ownership_pairs@, pair) == guilds_where(
                    Seq::<Want>::empty(),
                    |w: Want| w.of_ownership(pair),
                ) by {
                assert(guilds_where(Seq::<Want>::empty(), |w: Want| w.of_ownership(pair))
                    =~= Set::<Seq<char>>::empty());
            }
        }
        r
    }

    /// One more condition is wanted.
    #[verifier::rlimit(40)]
    fn add_condition(
        &mut self,
        guild_id: &String,
        c: &Condition,
        publisher_key: &Option<String>,
        list: Ghost<Seq<Want>>,
    )
        requires
            old(self).wf(),
            old(self).matches(list@),
        ensures
            final(self).wf(),
            final(self).matches(
                list@.push(
                    Want {
                        guild: guild_id@,
                        rule: c@,
                        key: condition::text_of(*publisher_key),
                    },
                ),
            ),
    {
        let ghost w = Want {
            guild: guild_id@,
            rule: c@,
            key: condition::text_of(*publisher_key),
        };
        match c.field {
            ConditionField::OwnsGame => {
                self.need_games = true;
                if let (Some(app_id), Some(key)) = (&c.app_id, publisher_key) {
                    self.ownership_pairs.add_member((app_id.clone(), key.clone()), guild_id.clone());
                }
            },
            ConditionField::GamePlaytime
            | ConditionField::RecentPlaytime
            | ConditionField::TotalGamesOwned => {
                self.need_games = true;
            },
            ConditionField::SteamLevel => {
                self.need_level = true;
            },
            ConditionField::InGroup => {
                self.need_groups = true;
            },
            ConditionField::AchievementCount
            | ConditionField::AchievementPercent
            | ConditionField::HasAchievement => {
                if let Some(app_id) = &c.app_id {
                    self.achievement_apps.add_member(app_id.clone(), guild_id.clone());
                }
            },
            _ => {},
        }
        proof {
            let longer = list@.push(w);
            lemma_some_want_push(list@, w, |w: Want| w.of_games());
            lemma_some_want_push(list@, w, |w: Want| w.of_level());
            lemma_some_want_push(list@, w, |w: Want| w.of_groups());
            assert forall|app: Seq<char>| #[trigger]
                self.achievement_apps@.contains_key(app) == some_want(
                    longer,
                    |w: Want| w.of_achievements(app),
                ) by {
                lemma_some_want_push(list@, w, |w: Want| w.of_achievements(app));
                assert(old(self).achievement_apps@.contains_key(app) == some_want(
                    list@,
                    |w: Want| w.of_achievements(app),
                ));
            }
            assert forall|app: Seq<char>| #[trigger]
                lookup::members_at(self.achievement_apps@, app) == guilds_where(
                    longer,
                    |w: Want| w.of_achievements(app),
                ) by {
                lemma_some_want_push(list@, w, |w: Want| w.of_achievements(app));
                assert(lookup::members_at(old(self).achievement_apps@, app) == guilds_where(
                    list@,
                    |w: Want| w.of_achievements(app),
                ));
            }
            assert forall|pair: (Seq<char>, Seq<char>)| #[trigger]
                self.ownership_pairs@.contains_key(pair) == some_want(
                    longer,
                    |w: Want| w.of_ownership(pair),
                ) by {
                lemma_some_want_push(list@, w, |w: Want| w.of_ownership(pair));
                assert(old(self).ownership_pairs@.contains_key(pair) == some_want(
                    list@,
                    |w: Want| w.of_ownership(pair),
                ));
            }
            assert forall|pair: (Seq<char>, Seq<char>)| #[trigger]
                lookup::members_at(self.ownership_pairs@, pair) == guilds_where(
                    longer,
                    |w: Want| w.of_ownership(pair),
                ) by {
                lemma_some_want_push(list@, w, |w: Want| w.of_ownership(pair));
                assert(lookup::members_at(old(self).ownership_pairs@, pair) == guilds_where(
                    list@,
                    |w: Want| w.of_ownership(pair),
                ));
            }
        }
    }

    /// What the conditions of the role links reference: each row holds the guild, the conditions
    /// and the publisher key of one role link.
    pub fn from_rows(rows: &[(String, Vec<Condition>, Option<String>)]) -> (r: RefreshNeeds)
        ensures
            r.wf(),
            r.matches(wants(rows@)),
    {
        let mut needs = RefreshNeeds::new();
        let n: usize = rows.len();
        let mut i: usize = 0;
        while i < n
            invariant
                i <= n == rows@.len(),
                needs.wf(),
                needs.matches(wants(rows@.take(i as int))),
            decreases n - i,
        {
            let row = &rows[i];
            let m: usize = row.1.len();
            let mut k: usize = 0;
            let ghost before = wants(rows@.take(i as int));
            let ghost own = wants_of(row.0@, condition::rules(row.1@), condition::text_of(row.2));
            assert(before + own.take(0) =~= before);
            while k < m
                invariant
                    k <= m == row.1@.len(),
                    own == wants_of(row.0@, condition::rules(row.1@), condition::text_of(row.2)),
                    needs.wf(),
                    needs.matches(before + own.take(k as int)),
                decreases m - k,
            {
                needs.add_condition(
                    &row.0,
                    &row.1[k],
                    &row.2,
                    Ghost(before + own.take(k as int)),
                );
                proof {
                    assert((before + own.take(k as int)).push(own[k as int]) =~= before + own.take(
                        k + 1,
                    ));
                }
                k += 1;
            }
            proof {
                assert(own.take(m as int) =~= own);
                assert(rows@.take(i + 1).drop_last() =~= rows@.take(i as int));
                assert(rows@.take(i + 1).last() == rows@[i as int]);
            }
            i += 1;
        }
        assert(rows@.take(n as int) =~= rows@);
        needs
    }

    /// Do some needs depend on the guilds a user is in?
    pub fn needs_guild_scope(&self) -> (r: bool)
        ensures
            r == (self.achievement_apps@ != Map::<Seq<char>, TextSet>::empty()
                || self.ownership_pairs@ != Map::<(Seq<char>, Seq<char>), TextSet>::empty()),
            r == (self.achievement_apps.entries@.len() > 0
                || self.ownership_pairs.entries@.len() > 0),
    {
        !self.achievement_apps.is_empty() || !self.ownership_pairs.is_empty()
    }

    /// Rough Steam calls per user refresh, used only to size the target
    /// cadence — the governor is the hard spend ceiling. The +1 covers the
    /// amortized batched summary/ban calls plus achievement spread.
    pub fn estimated_cost_per_user(&self) -> (r: i64)
        ensures
            r == 1 + (if self.need_games {
                1int
            } else {
                0
            }) + (if self.need_level {
                1int
            } else {
                0
            }) + (if self.need_groups {
                1int
            } else {
                0
            }),
    {
        let mut cost: i64 = 1;
        if self.need_games {
            cost = cost + 1;
        }
        if self.need_level {
            cost = cost + 1;
        }
        if self.need_groups {
            cost = cost + 1;
        }
        cost
    }
}

/// The fetch needs as they were last read. They are read again after a minute; when that fails, the
/// previous value is kept, so a transient DB error can't flip fetch classes (and reset every
/// stability streak via the hash shape).
pub struct NeedsCache {
    pub needs: RefreshNeeds,
}

impl NeedsCache {
    /// Nothing is read yet.
    pub fn new() -> (r: NeedsCache)
        ensures
            r.needs.wf(),
            r.needs.matches(Seq::empty()),
    {
        NeedsCache { needs: RefreshNeeds::new() }
    }

    /// Are the needs to be read again, so long after they were last read?
    pub fn due(elapsed: &Delay) -> (r: bool)
        ensures
            r == (elapsed.secs >= NEEDS_CACHE_SECS),
            r <==> elapsed.secs >= 60,
    {
        elapsed.secs >= NEEDS_CACHE_SECS
    }

    /// The cache once the role links were read again, or could not be.
    pub fn get(self, rows: Option<&[(String, Vec<Condition>, Option<String>)]>) -> (r: NeedsCache)
        ensures
            match rows {
                Some(list) => r.needs.wf() && r.needs.matches(wants(list@)),
                None => r == self,
            },
    {
        match rows {
            Some(list) => NeedsCache { needs: RefreshNeeds::from_rows(list) },
            None => self,
        }
    }
}

/// The base interval: so long that all players together cost no more than a day's quota in a day,
/// between half an hour and a day.
pub open spec fn base_interval(players: int, cost_per_user: int, daily_quota: int) -> int {
    if players == 0 {
        MIN_REFRESH_SECS as int
    } else {
        clamped(
            (players * 86400 * (if cost_per_user > 1 {
                cost_per_user
            } else {
                1
            })) / daily_quota,
            MIN_REFRESH_SECS as int,
            MAX_REFRESH_SECS as int,
        )
    }
}

/// Unless it is capped at a day, the base interval is so long that refreshing every player once in
/// it stays within the daily quota, to within a second.
pub proof fn law_base_interval_fits_the_quota(players: int, cost_per_user: int, daily_quota: int)
    requires
        players > 0,
        cost_per_user >= 1,
        daily_quota >= 1,
        base_interval(players, cost_per_user, daily_quota) < MAX_REFRESH_SECS,
    ensures
        players * 86400 * cost_per_user < daily_quota * (base_interval(
            players,
            cost_per_user,
            daily_quota,
        ) + 1),
{
    let spread = players * 86400 * cost_per_user;
    let sized = base_interval(players, cost_per_user, daily_quota);
    let raw = spread / daily_quota;
    vstd::arithmetic::div_mod::lemma_fundamental_div_mod(spread, daily_quota);
    vstd::arithmetic::div_mod::lemma_mod_bound(spread, daily_quota);
    assert(raw <= sized);
    assert(daily_quota * raw + daily_quota <= daily_quota * (sized + 1)) by (nonlinear_arith)
        requires
            raw <= sized,
            daily_quota >= 1,
    ;
}

/// The base refresh interval as it was last sized, from an estimate of the number of players —
/// exactness doesn't matter because the quota governor, not this number, is the hard spend
/// ceiling; this only sets the target freshness.
pub struct CachedInterval {
    pub value: i64,
    pub daily_quota: i64,
}

impl CachedInterval {
    /// The quota is positive, and the interval lies between half an hour and a day.
    pub open spec fn wf(self) -> bool {
        &&& self.daily_quota >= 1
        &&& MIN_REFRESH_SECS <= self.value <= MAX_REFRESH_SECS
    }

    /// Nothing is sized yet.
    pub fn new(daily_quota: i64) -> (r: CachedInterval)
        ensures
            r.wf(),
            r.value == MIN_REFRESH_SECS,
            r.daily_quota == (if daily_quota > 1 {
                daily_quota
            } else {
                1
            }),
    {
        CachedInterval {
            value: MIN_REFRESH_SECS,
            daily_quota: if daily_quota > 1 {
                daily_quota
            } else {
                1
            },
        }
    }

    /// Is the interval to be sized again, so long after it was last sized?
    pub fn due(elapsed: &Delay) -> (r: bool)
        ensures
            r == (elapsed.secs >= INTERVAL_CACHE_SECS),
            r <==> elapsed.secs >= 300,
    {
        elapsed.secs >= INTERVAL_CACHE_SECS
    }

    /// Sizes the interval for an estimated number of players; 0 stands for an unknown one.
    pub fn get(&mut self, players: i64, cost_per_user: i64) -> (r: i64)
        requires
            old(self).wf(),
            players >= 0,
            players * 86400 * (if cost_per_user > 1 {
                cost_per_user as int
            } else {
                1
            }) <= i64::MAX,
        ensures
            final(self).wf(),
            final(self).daily_quota == old(self).daily_quota,
            final(self).value == r,
            r == base_interval(
                players as int,
                cost_per_user as int,
                old(self).daily_quota as int,
            ),
    {
        let sized: i64 = if players == 0 {
            MIN_REFRESH_SECS
        } else {
            let cost: i64 = if cost_per_user > 1 {
                cost_per_user
            } else {
                1
            };
            proof {
                assert(0 <= players * 86400 <= players * 86400 * cost) by (nonlinear_arith)
                    requires
                        players >= 0,
                        cost >= 1,
                ;
            }
            let spread: i64 = (players * 86400) * cost;
            proof {
                vstd::arithmetic::div_mod::lemma_div_pos_is_pos(
                    spread as int,
                    self.daily_quota as int,
                );
                vstd::arithmetic::div_mod::lemma_div_is_ordered_by_denominator(
                    spread as int,
                    1,
                    self.daily_quota as int,
                );
            }
            let raw: i64 = spread / self.daily_quota;
            if raw < MIN_REFRESH_SECS {
                MIN_REFRESH_SECS
            } else if raw > MAX_REFRESH_SECS {
                MAX_REFRESH_SECS
            } else {
                raw
            }
        };
        self.value = sized;
        sized
    }
}

// ── What the needs are for ─────────────────────────────────────────────────

proof fn lemma_row_is_wanted(
    rows: Seq<(String, Vec<Condition>, Option<String>)>,
    i: int,
    k: int,
) -> (j: int)
    requires
        0 <= i < rows.len(),
        0 <= k < rows[i].1@.len(),
    ensures
        0 <= j < wants(rows).len(),
        wants(rows)[j] == (Want {
            guild: rows[i].0@,
            rule: rows[i].1@[k]@,
            key: condition::text_of(rows[i].2),
        }),
    decreases rows.len(),
{
    let before = wants(rows.drop_last());
    if i < rows.len() - 1 {
        assert(rows.drop_last()[i] == rows[i]);
        lemma_row_is_wanted(rows.drop_last(), i, k)
    } else {
        before.len() + k
    }
}

proof fn lemma_wanted_by_a_row(
    rows: Seq<(String, Vec<Condition>, Option<String>)>,
    j: int,
) -> (at: (int, int))
    requires
        0 <= j < wants(rows).len(),
    ensures
        0 <= at.0 < rows.len(),
        0 <= at.1 < rows[at.0].1@.len(),
        wants(rows)[j] == (Want {
            guild: rows[at.0].0@,
            rule: rows[at.0].1@[at.1]@,
            key: condition::text_of(rows[at.0].2),
        }),
    decreases rows.len(),
{
    let before = wants(rows.drop_last());
    if j < before.len() {
        let at = lemma_wanted_by_a_row(rows.drop_last(), j);
        assert(rows.drop_last()[at.0] == rows[at.0]);
        at
    } else {
        (rows.len() - 1, j - before.len())
    }
}

/// The condition at a place of the role links.
spec fn want_at(
    rows: Seq<(String, Vec<Condition>, Option<String>)>,
    i: int,
    k: int,
) -> Want {
    Want { guild: rows[i].0@, rule: rows[i].1@[k]@, key: condition::text_of(rows[i].2) }
}

proof fn lemma_wants_are_of_rows(
    rows: Seq<(String, Vec<Condition>, Option<String>)>,
    p: spec_fn(Want) -> bool,
)
    ensures
        some_want(wants(rows), p) <==> exists|i: int, k: int|
            0 <= i < rows.len() && 0 <= k < rows[i].1@.len() && p(#[trigger] want_at(rows, i, k)),
        forall|guild: Seq<char>| #[trigger]
            guilds_where(wants(rows), p).contains(guild) <==> exists|i: int, k: int|
                0 <= i < rows.len() && 0 <= k < rows[i].1@.len() && p(
                    #[trigger] want_at(rows, i, k),
                ) && rows[i].0@ == guild,
{
    let all = wants(rows);
    assert forall|i: int, k: int|
        0 <= i < rows.len() && 0 <= k < rows[i].1@.len() && p(
            #[trigger] want_at(rows, i, k),
        ) implies some_want(all, p) && guilds_where(all, p).contains(rows[i].0@) by {
        let j = lemma_row_is_wanted(rows, i, k);
        assert(all[j] == want_at(rows, i, k));
    }
    if some_want(all, p) {
        let j = choose|j: int| 0 <= j < all.len() && p(#[trigger] all[j]);
        let at = lemma_wanted_by_a_row(rows, j);
        assert(want_at(rows, at.0, at.1) == all[j]);
    }
    assert forall|guild: Seq<char>| guilds_where(all, p).contains(guild) implies exists|
        i: int,
        k: int,
    |
        0 <= i < rows.len() && 0 <= k < rows[i].1@.len() && p(#[trigger] want_at(rows, i, k))
            && rows[i].0@ == guild by {
        let j = choose|j: int| 0 <= j < all.len() && p(#[trigger] all[j]) && all[j].guild == guild;
        let at = lemma_wanted_by_a_row(rows, j);
        assert(want_at(rows, at.0, at.1) == all[j]);
    }
}

/// Does a condition look at the achievements of the app?
pub open spec fn on_achievements_of(c: Condition, app: Seq<char>) -> bool {
    &&& condition::text_of(c.app_id) == Some(app)
    &&& c.field is AchievementCount || c.field is AchievementPercent || c.field is HasAchievement
}

/// Does a condition ask who owns the app?
pub open spec fn on_ownership_of(c: Condition, app: Seq<char>) -> bool {
    condition::text_of(c.app_id) == Some(app) && c.field is OwnsGame
}

/// The library is needed exactly when some condition of some role link asks for ownership, for a
/// playtime or for the number of games; the level and the groups exactly when some condition asks
/// for them.
pub proof fn law_needs_are_what_conditions_look_at(
    rows: Seq<(String, Vec<Condition>, Option<String>)>,
    needs: RefreshNeeds,
)
    requires
        needs.matches(wants(rows)),
    ensures
        needs.need_games <==> exists|i: int, k: int|
            0 <= i < rows.len() && 0 <= k < rows[i].1@.len() && {
                let f = (#[trigger] rows[i].1@[k]).field;
                f is OwnsGame || f is GamePlaytime || f is RecentPlaytime || f is TotalGamesOwned
            },
        needs.need_level <==> exists|i: int, k: int|
            0 <= i < rows.len() && 0 <= k < rows[i].1@.len() && (
            #[trigger] rows[i].1@[k]).field is SteamLevel,
        needs.need_groups <==> exists|i: int, k: int|
            0 <= i < rows.len() && 0 <= k < rows[i].1@.len() && (
            #[trigger] rows[i].1@[k]).field is InGroup,
{
    let games = |w: Want| w.of_games();
    let level = |w: Want| w.of_level();
    let groups = |w: Want| w.of_groups();
    lemma_wants_are_of_rows(rows, games);
    lemma_wants_are_of_rows(rows, level);
    lemma_wants_are_of_rows(rows, groups);
    assert forall|i: int, k: int| 0 <= i < rows.len() && 0 <= k < rows[i].1@.len() implies {
        let f = (#[trigger] rows[i].1@[k]).field;
        let w = want_at(rows, i, k);
        &&& games(w) == (f is OwnsGame || f is GamePlaytime || f is RecentPlaytime
            || f is TotalGamesOwned)
        &&& level(w) == f is SteamLevel
        &&& groups(w) == f is InGroup
    } by {}
}

/// The achievements in an app are needed exactly when some condition on achievements names it, and
/// for the guilds of the role links that do.
pub proof fn law_achievement_needs_are_what_conditions_name(
    rows: Seq<(String, Vec<Condition>, Option<String>)>,
    needs: RefreshNeeds,
    app: Seq<char>,
    guild: Seq<char>,
)
    requires
        needs.matches(wants(rows)),
    ensures
        needs.achievement_apps@.contains_key(app) <==> exists|i: int, k: int|
            0 <= i < rows.len() && 0 <= k < rows[i].1@.len() && on_achievements_of(
                #[trigger] rows[i].1@[k],
                app,
            ),
        lookup::members_at(needs.achievement_apps@, app).contains(guild) <==> exists|
            i: int,
            k: int,
        |
            0 <= i < rows.len() && 0 <= k < rows[i].1@.len() && rows[i].0@ == guild
                && on_achievements_of(#[trigger] rows[i].1@[k], app),
{
    let p = |w: Want| w.of_achievements(app);
    lemma_wants_are_of_rows(rows, p);
    assert forall|i: int, k: int| 0 <= i < rows.len() && 0 <= k < rows[i].1@.len() implies p(
        want_at(rows, i, k),
    ) == on_achievements_of(#[trigger] rows[i].1@[k], app) by {}
    assert(needs.achievement_apps@.contains_key(app) == some_want(wants(rows), p));
    assert(lookup::members_at(needs.achievement_apps@, app) == guilds_where(wants(rows), p));
}

/// The answer of a publisher on an app is needed exactly when a role link with that key asks who
/// owns the app, and for the guilds of the role links that do.
pub proof fn law_ownership_needs_are_what_conditions_name(
    rows: Seq<(String, Vec<Condition>, Option<String>)>,
    needs: RefreshNeeds,
    app: Seq<char>,
    key: Seq<char>,
    guild: Seq<char>,
)
    requires
        needs.matches(wants(rows)),
    ensures
        needs.ownership_pairs@.contains_key((app, key)) <==> exists|i: int, k: int|
            0 <= i < rows.len() && 0 <= k < rows[i].1@.len() && condition::text_of(rows[i].2)
                == Some(key) && on_ownership_of(#[trigger] rows[i].1@[k], app),
        lookup::members_at(needs.ownership_pairs@, (app, key)).contains(guild) <==> exists|
            i: int,
            k: int,
        |
            0 <= i < rows.len() && 0 <= k < rows[i].1@.len() && rows[i].0@ == guild
                && condition::text_of(rows[i].2) == Some(key) && on_ownership_of(
                #[trigger] rows[i].1@[k],
                app,
            ),
{
    let pair = (app, key);
    let p = |w: Want| w.of_ownership(pair);
    lemma_wants_are_of_rows(rows, p);
    assert forall|i: int, k: int| 0 <= i < rows.len() && 0 <= k < rows[i].1@.len() implies p(
        want_at(rows, i, k),
    ) == (on_ownership_of(#[trigger] rows[i].1@[k], app) && condition::text_of(rows[i].2) == Some(
        key,
    )) by {}
    assert(needs.ownership_pairs@.contains_key(pair) == some_want(wants(rows), p));
    assert(lookup::members_at(needs.ownership_pairs@, pair) == guilds_where(wants(rows), p));
}

/// Are two states of a player's data alike in all that is fetched? Bans, profile and country come
/// with every batch; the rest counts where the needs ask for it. `key` is the publisher key of the
/// role link that is judged.
pub open spec fn fetched_alike(
    needs: RefreshNeeds,
    key: Option<Seq<char>>,
    a: Facts,
    b: Facts,
) -> bool {
    &&& a.user.steam_id@ == b.user.steam_id@
    &&& a.user.is_vac_banned == b.user.is_vac_banned
    &&& a.user.is_game_banned == b.user.is_game_banned
    &&& a.user.country_code@ == b.user.country_code@
    &&& a.user.account_created == b.user.account_created
    &&& needs.need_games ==> a.user.owned_games@ == b.user.owned_games@
        && a.user.total_games_owned == b.user.total_games_owned
    &&& needs.need_level ==> a.user.steam_level == b.user.steam_level
    &&& needs.need_groups ==> a.user.groups@ == b.user.groups@
    &&& forall|app: Seq<char>| #[trigger]
        needs.achievement_apps@.contains_key(app) ==> {
            &&& a.achievements.contains_key(app) == b.achievements.contains_key(app)
            &&& a.achievements[app] == b.achievements[app]
        }
    &&& match key {
        None => a.ownership is None && b.ownership is None,
        Some(k) => {
            &&& a.ownership is Some && b.ownership is Some
            &&& forall|app: Seq<char>| #[trigger]
                needs.ownership_pairs@.contains_key((app, k)) ==> {
                    &&& a.ownership->0.contains_key(app) == b.ownership->0.contains_key(app)
                    &&& a.ownership->0[app] == b.ownership->0[app]
                }
        },
    }
}

/// What the needs ask for is enough to judge every role link: if two states of a player's data are
/// alike in all that is fetched, each condition is met by both or by neither, and so is the role
/// granted to both or to neither.
pub proof fn law_what_is_fetched_decides(
    rows: Seq<(String, Vec<Condition>, Option<String>)>,
    needs: RefreshNeeds,
    i: int,
    a: Facts,
    b: Facts,
    now: Timestamp,
)
    requires
        needs.matches(wants(rows)),
        0 <= i < rows.len(),
        fetched_alike(needs, condition::text_of(rows[i].2), a, b),
    ensures
        forall|k: int|
            0 <= k < rows[i].1@.len() ==> condition_eval::met(
                (#[trigger] rows[i].1@[k])@,
                a,
                now,
            ) == condition_eval::met(rows[i].1@[k]@, b, now),
        condition_eval::all_met(condition::rules(rows[i].1@), a, now) == condition_eval::all_met(
            condition::rules(rows[i].1@),
            b,
            now,
        ),
{
    let list = condition::rules(rows[i].1@);
    assert forall|k: int| 0 <= k < list.len() implies condition_eval::met(
        #[trigger] list[k],
        a,
        now,
    ) == condition_eval::met(list[k], b, now) by {
        let j = lemma_row_is_wanted(rows, i, k);
        let all = wants(rows);
        let w = all[j];
        assert(w.rule == list[k]);
        match w.rule.app_id {
            Some(app) => {
                if w.of_achievements(app) {
                    let p = |w: Want| w.of_achievements(app);
                    assert(p(all[j]));
                    assert(needs.achievement_apps@.contains_key(app));
                }
                if w.rule.field is OwnsGame && w.key is Some {
                    let pair = (app, w.key->0);
                    let q = |w: Want| w.of_ownership(pair);
                    assert(q(all[j]));
                    assert(needs.ownership_pairs@.contains_key(pair));
                }
            },
            None => {},
        }
        let g = |w: Want| w.of_games();
        let l = |w: Want| w.of_level();
        let r = |w: Want| w.of_groups();
        assert(g(all[j]) ==> needs.need_games);
        assert(l(all[j]) ==> needs.need_level);
        assert(r(all[j]) ==> needs.need_groups);
    }
    assert forall|k: int| 0 <= k < rows[i].1@.len() implies condition_eval::met(
        (#[trigger] rows[i].1@[k])@,
        a,
        now,
    ) == condition_eval::met(rows[i].1@[k]@, b, now) by {
        assert(list[k] == rows[i].1@[k]@);
    }
}

/// The interval of an active player is the base, that of an inactive one six times the base, each
/// brought between half an hour and a day and then stretched, up to the cap. So an inactive player
/// is never refreshed more often than an active one.
pub proof fn law_interval_is_the_stretched_base(base: int, streak: int, max_stable: int)
    requires
        base >= 0,
    ensures
        ({
            let cap = if max_stable > 86400 {
                max_stable
            } else {
                86400
            };
            let active = interval(base, true, streak, max_stable);
            let inactive = interval(base, false, streak, max_stable);
            &&& active <= inactive
            &&& 1800 <= base <= 86400 && base * stretch(streak) <= cap ==> active == base * stretch(
                streak,
            )
            &&& 1800 <= base <= 86400 && base * stretch(streak) > cap ==> active == cap
            &&& 300 <= base <= 14400 && 6 * base * stretch(streak) <= cap ==> inactive == 6 * base
                * stretch(streak)
            &&& 300 <= base <= 14400 && 6 * base * stretch(streak) > cap ==> inactive == cap
        }),
{
    law_stretch_grows_and_caps(streak, streak);
    let a = clamped(base, MIN_REFRESH_SECS as int, MAX_REFRESH_SECS as int);
    let b = clamped(base * 6, MIN_REFRESH_SECS as int, MAX_REFRESH_SECS as int);
    assert(base * 6 == 6 * base);
    assert(a * stretch(streak) <= b * stretch(streak)) by (nonlinear_arith)
        requires
            a <= b,
            stretch(streak) >= 0,
    ;
}

/// The stretch is 1 for data that has come back unchanged at most once, and doubles with every
/// second time after that until it is 16.
pub proof fn law_stretch_doubles(streak: int)
    ensures
        streak <= 1 ==> stretch(streak) == 1,
        0 <= streak <= 7 ==> stretch(streak + 2) == 2 * stretch(streak),
        streak >= 8 ==> stretch(streak) == 16,
{
    reveal_with_fuel(stretch, 6);
}

/// A streak counts how often in a row data has come back unchanged, up to a hundred times.
pub proof fn law_streak_counts_up_to_a_hundred(before: int)
    ensures
        streak_after(false, before) == 0,
        before < 100 ==> streak_after(true, before) == before + 1,
        before >= 100 ==> streak_after(true, before) == 100,
{
}

/// The base interval is no longer than the quota asks for: unless it is half an hour, refreshing
/// every player once in it uses up the quota. Without players it is half an hour.
pub proof fn law_base_interval_uses_the_quota(players: int, cost_per_user: int, daily_quota: int)
    requires
        players >= 0,
        cost_per_user >= 1,
        daily_quota >= 1,
    ensures
        ({
            let sized = base_interval(players, cost_per_user, daily_quota);
            &&& 1800 <= sized <= 86400
            &&& players == 0 ==> sized == 1800
            &&& sized > 1800 ==> daily_quota * sized <= players * 86400 * cost_per_user
        }),
{
    let spread = players * 86400 * cost_per_user;
    let sized = base_interval(players, cost_per_user, daily_quota);
    if players > 0 {
        let raw = spread / daily_quota;
        vstd::arithmetic::div_mod::lemma_fundamental_div_mod(spread, daily_quota);
        vstd::arithmetic::div_mod::lemma_mod_bound(spread, daily_quota);
        if sized > 1800 {
            assert(sized <= raw);
            assert(daily_quota * sized <= daily_quota * raw) by (nonlinear_arith)
                requires
                    sized <= raw,
                    daily_quota >= 1,
            ;
        }
    }
}

} // verus!
