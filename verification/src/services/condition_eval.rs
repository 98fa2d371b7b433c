//! Does a player meet the conditions of a role?

use vstd::prelude::*;
use crate::clock;
use crate::clock::Timestamp;
use crate::json::{Doc, Value};
use crate::lookup::Lookup;
use crate::models::condition;
use crate::models::condition::{Condition, ConditionField, ConditionOperator, Rule};
use crate::text;

verus! {

/// Row from user_cache table
pub struct UserCacheRow {
    pub steam_id: String,
    pub owned_games: Value,
    pub groups: Value,
    pub steam_level: i32,
    pub account_created: Option<Timestamp>,
    pub total_games_owned: i32,
    pub is_vac_banned: bool,
    pub is_game_banned: bool,
    pub country_code: String,
}

/// Row from game_achievement_cache table
pub struct GameAchievementRow {
    pub total_count: i32,
    pub unlocked_count: i32,
    pub achievements: Value,
}

/// Row from app_ownership_cache table (partner-API CheckAppOwnership)
pub struct AppOwnershipRow {
    pub owns_app: bool,
    pub permanent: bool,
    pub owner_steam_id: String,
}

/// What is known of a player when conditions are judged.
pub struct Facts {
    pub user: UserCacheRow,
    /// Achievements by app id.
    pub achievements: Map<Seq<char>, GameAchievementRow>,
    /// Ownership by app id; only where a publisher key is configured.
    pub ownership: Option<Map<Seq<char>, AppOwnershipRow>>,
}

impl UserCacheRow {
    /// The creation time lies in the representable range.
    pub open spec fn wf(self) -> bool {
        self.account_created matches Some(t) ==> t.wf()
    }
}

/// The number that an app id is; 0 when it is none.
pub open spec fn app_number(app_id: Seq<char>) -> int {
    match text::signed_number(app_id, i64::MIN as int, i64::MAX as int) {
        Some(n) => n,
        None => 0,
    }
}

/// Is the entry of a library the game with this number?
pub open spec fn is_game(game: Doc, app: int) -> bool {
    game.int_member("appid"@) == Some(app)
}

/// The first entry of a library for the game.
pub open spec fn first_game(games: Seq<Doc>, app: int) -> Option<Doc>
    decreases games.len(),
{
    if games.len() == 0 {
        None
    } else if is_game(games[0], app) {
        Some(games[0])
    } else {
        first_game(games.drop_first(), app)
    }
}

/// Does the library list the game?
pub open spec fn in_library(library: Doc, app: int) -> bool {
    exists|i: int|
        0 <= i < library.items().len() && is_game(#[trigger] library.items()[i], app)
}

/// The hours that the library shows under `key` for the game; 0 when it shows none.
pub open spec fn hours_played(library: Doc, app: int, key: Seq<char>) -> int {
    let minutes = match first_game(library.items(), app) {
        Some(g) => match g.int_member(key) {
            Some(n) => n,
            None => 0,
        },
        None => 0,
    };
    clock::whole(minutes, 60)
}

/// The unlocked part in whole percent, without its fraction; 0 when there is nothing to unlock.
pub open spec fn percent(unlocked: int, total: int) -> int {
    if total == 0 {
        0
    } else if total > 0 {
        clock::whole(unlocked * 100, total)
    } else {
        clock::whole(-(unlocked * 100), -total)
    }
}

/// Is the entry of an achievement list the unlocked achievement with this name?
pub open spec fn is_unlocked(entry: Doc, name: Seq<char>) -> bool {
    &&& entry.text_member("apiname"@) == Some(name)
    &&& entry.int_member("achieved"@) == Some(1int)
}

/// Does the list show the achievement as unlocked?
pub open spec fn has_unlocked(list: Doc, name: Seq<char>) -> bool {
    exists|i: int| 0 <= i < list.items().len() && is_unlocked(#[trigger] list.items()[i], name)
}

/// Does the list show the group?
pub open spec fn in_groups(list: Doc, gid: Seq<char>) -> bool {
    exists|i: int|
        0 <= i < list.items().len() && (#[trigger] list.items()[i]).text_member("gid"@) == Some(gid)
}

/// How old the account is in whole days; 0 when its creation time is not known.
pub open spec fn age_in_days(created: Option<Timestamp>, now: Timestamp) -> int {
    match created {
        Some(t) => clock::whole(now@ - t@, clock::SECONDS_PER_DAY * clock::NANOS_PER_SECOND),
        None => 0,
    }
}

/// The number in a document, or another number.
pub open spec fn int_or(d: Doc, other: int) -> int {
    match d.as_int() {
        Some(n) => n,
        None => other,
    }
}

/// The text in a document, or none.
pub open spec fn text_or_empty(d: Doc) -> Seq<char> {
    match d.as_text() {
        Some(t) => t,
        None => Seq::empty(),
    }
}

/// The truth value in a document, or yes.
pub open spec fn bool_or_yes(d: Doc) -> bool {
    match d.as_bool() {
        Some(b) => b,
        None => true,
    }
}

/// Does the number pass the comparison?
pub open spec fn passes(
    actual: int,
    expected: int,
    operator: ConditionOperator,
    end: Option<Doc>,
) -> bool {
    match operator {
        ConditionOperator::Eq => actual == expected,
        ConditionOperator::Gt => actual > expected,
        ConditionOperator::Gte => actual >= expected,
        ConditionOperator::Lt => actual < expected,
        ConditionOperator::Lte => actual <= expected,
        ConditionOperator::Between => {
            let last = match end {
                Some(d) => int_or(d, expected),
                None => expected,
            };
            expected <= actual <= last
        },
    }
}

/// Does the account own the game? A publisher's answer counts before the public library: the
/// license must be the account's own and permanent.
pub open spec fn owns_game(facts: Facts, app_id: Seq<char>) -> bool {
    match facts.ownership {
        Some(m) if m.contains_key(app_id) => {
            let o = m[app_id];
            o.owns_app && o.permanent && o.owner_steam_id@ == facts.user.steam_id@
        },
        _ => in_library(facts.user.owned_games@, app_number(app_id)),
    }
}

/// The number that a condition on a numeric field looks at.
pub open spec fn measured(
    field: ConditionField,
    app_id: Seq<char>,
    facts: Facts,
    now: Timestamp,
) -> int {
    let known = facts.achievements.contains_key(app_id);
    let row = facts.achievements[app_id];
    match field {
        ConditionField::GamePlaytime => hours_played(
            facts.user.owned_games@,
            app_number(app_id),
            "playtime_forever"@,
        ),
        ConditionField::RecentPlaytime => hours_played(
            facts.user.owned_games@,
            app_number(app_id),
            "playtime_2weeks"@,
        ),
        ConditionField::AchievementCount => if known {
            row.unlocked_count as int
        } else {
            0
        },
        ConditionField::AchievementPercent => if known {
            percent(row.unlocked_count as int, row.total_count as int)
        } else {
            0
        },
        ConditionField::SteamLevel => facts.user.steam_level as int,
        ConditionField::AccountAgeDays => age_in_days(facts.user.account_created, now),
        ConditionField::TotalGamesOwned => facts.user.total_games_owned as int,
        _ => 0,
    }
}

/// Is the condition met? One on a game without an app id never is.
pub open spec fn met(rule: Rule, facts: Facts, now: Timestamp) -> bool {
    let app_id = match rule.app_id {
        Some(a) => a,
        None => Seq::empty(),
    };
    if condition::game_field(rule.field) && rule.app_id is None {
        false
    } else {
        match rule.field {
            ConditionField::OwnsGame => owns_game(facts, app_id) == bool_or_yes(rule.value),
            ConditionField::IsVACBanned => facts.user.is_vac_banned == bool_or_yes(rule.value),
            ConditionField::IsGameBanned => facts.user.is_game_banned == bool_or_yes(rule.value),
            ConditionField::HasAchievement => facts.achievements.contains_key(app_id)
                && has_unlocked(facts.achievements[app_id].achievements@, text_or_empty(rule.value)),
            ConditionField::InGroup => in_groups(facts.user.groups@, text_or_empty(rule.value)),
            ConditionField::CountryCode => text::lowered(facts.user.country_code@) == text::lowered(
                text_or_empty(rule.value),
            ),
            _ => passes(
                measured(rule.field, app_id, facts, now),
                int_or(rule.value, 0),
                rule.operator,
                rule.value_end,
            ),
        }
    }
}

/// Are there conditions, and are all of them met?
pub open spec fn all_met(list: Seq<Rule>, facts: Facts, now: Timestamp) -> bool {
    &&& list.len() > 0
    &&& forall|i: int| 0 <= i < list.len() ==> met(#[trigger] list[i], facts, now)
}

/// Is the outcome the same at every time? It is when no condition asks how old an account with
/// a known creation time is.
pub open spec fn clock_free(list: Seq<Rule>, facts: Facts) -> bool {
    ||| facts.user.account_created is None
    ||| forall|i: int| 0 <= i < list.len() ==> !((#[trigger] list[i]).field is AccountAgeDays)
}

/// What is known of a player, from the rows.
pub open spec fn facts_of(
    user: UserCacheRow,
    achievements: Lookup<String, GameAchievementRow>,
    ownership: Option<&Lookup<String, AppOwnershipRow>>,
) -> Facts {
    Facts {
        user,
        achievements: achievements@,
        ownership: match ownership {
            Some(m) => Some(m@),
            None => None,
        },
    }
}

fn app_number_of(app_id: &str) -> (r: i64)
    ensures
        r == app_number(app_id@),
{
    match text::parse_i64(app_id) {
        Some(n) => n,
        None => 0,
    }
}

fn library_lists(library: &Value, app: i64) -> (r: bool)
    ensures
        r == in_library(library@, app as int),
{
    broadcast use crate::json::lemma_array_view;

    match library {
        Value::Array(games) => {
            let n: usize = games.len();
            let mut i: usize = 0;
            while i < n
                invariant
                    i <= n == games@.len(),
                    library@.items() == crate::json::docs(games@),
                    forall|j: int|
                        0 <= j < i ==> !is_game(#[trigger] library@.items()[j], app as int),
                decreases n - i,
            {
                match games[i].get_i64("appid") {
                    Some(id) if id == app => {
                        assert(is_game(library@.items()[i as int], app as int));
                        return true;
                    },
                    _ => {},
                }
                assert(!is_game(library@.items()[i as int], app as int));
                i += 1;
            }
            false
        },
        _ => false,
    }
}

/// The first entry for a game, when no earlier entry is for it.
pub proof fn lemma_first_game(games: Seq<Doc>, app: int, i: int)
    requires
        0 <= i <= games.len(),
        forall|j: int| 0 <= j < i ==> !is_game(#[trigger] games[j], app),
        i < games.len() ==> is_game(games[i], app),
    ensures
        first_game(games, app) == (if i < games.len() {
            Some(games[i])
        } else {
            None
        }),
    decreases games.len(),
{
    if games.len() > 0 && i > 0 {
        let rest = games.drop_first();
        assert(!is_game(games[0], app));
        assert forall|j: int| 0 <= j < i - 1 implies !is_game(#[trigger] rest[j], app) by {
            assert(rest[j] == games[j + 1]);
        }
        lemma_first_game(rest, app, i - 1);
    }
}

fn hours_in_library(library: &Value, app: i64, key: &str) -> (r: i64)
    ensures
        r == hours_played(library@, app as int, key@),
{
    broadcast use crate::json::lemma_array_view;

    let mut minutes: i64 = 0;
    match library {
        Value::Array(games) => {
            let n: usize = games.len();
            let mut i: usize = 0;
            let ghost all = library@.items();
            while i < n
                invariant
                    i <= n == games@.len(),
                    all == library@.items(),
                    all == crate::json::docs(games@),
                    minutes == 0,
                    forall|j: int| 0 <= j < i ==> !is_game(#[trigger] all[j], app as int),
                decreases n - i,
            {
                let here = match games[i].get_i64("appid") {
                    Some(id) => id == app,
                    None => false,
                };
                assert(here == is_game(all[i as int], app as int));
                if here {
                    proof {
                        lemma_first_game(all, app as int, i as int);
                    }
                    let played: i64 = match games[i].get_i64(key) {
                        Some(m) => m,
                        None => 0,
                    };
                    return played / 60;
                }
                i += 1;
            }
            proof {
                lemma_first_game(all, app as int, n as int);
            }
        },
        _ => {},
    }
    0
}

fn percent_of(unlocked: i32, total: i32) -> (r: i64)
    ensures
        r == percent(unlocked as int, total as int),
{
    let part: i64 = unlocked as i64 * 100;
    let all: i64 = total as i64;
    if all == 0 {
        0
    } else if all > 0 {
        proof {
            lemma_quotient_fits(part as int, all as int);
        }
        part / all
    } else {
        proof {
            lemma_quotient_fits(-part, -all);
        }
        (-part) / (-all)
    }
}

proof fn lemma_quotient_fits(a: int, b: int)
    requires
        b > 0,
    ensures
        a >= 0 ==> 0 <= a / b <= a,
        a < 0 ==> a <= -((-a) / b) <= 0,
{
    if a >= 0 {
        vstd::arithmetic::div_mod::lemma_div_is_ordered_by_denominator(a, 1, b);
        vstd::arithmetic::div_mod::lemma_div_pos_is_pos(a, b);
    } else {
        vstd::arithmetic::div_mod::lemma_div_is_ordered_by_denominator(-a, 1, b);
        vstd::arithmetic::div_mod::lemma_div_pos_is_pos(-a, b);
    }
}

fn achievement_unlocked(list: &Value, name: &str) -> (r: bool)
    ensures
        r == has_unlocked(list@, name@),
{
    broadcast use crate::json::lemma_array_view;

    match list {
        Value::Array(entries) => {
            let n: usize = entries.len();
            let mut i: usize = 0;
            while i < n
                invariant
                    i <= n == entries@.len(),
                    list@.items() == crate::json::docs(entries@),
                    forall|j: int| 0 <= j < i ==> !is_unlocked(#[trigger] list@.items()[j], name@),
                decreases n - i,
            {
                let named = match entries[i].get_text("apiname") {
                    Some(s) => text::same(s, name),
                    None => false,
                };
                let achieved = match entries[i].get_i64("achieved") {
                    Some(x) => x == 1,
                    None => false,
                };
                assert((named && achieved) == is_unlocked(list@.items()[i as int], name@));
                if named && achieved {
                    return true;
                }
                i += 1;
            }
            false
        },
        _ => false,
    }
}

fn group_listed(list: &Value, gid: &str) -> (r: bool)
    ensures
        r == in_groups(list@, gid@),
{
    broadcast use crate::json::lemma_array_view;

    match list {
        Value::Array(groups) => {
            let n: usize = groups.len();
            let mut i: usize = 0;
            while i < n
                invariant
                    i <= n == groups@.len(),
                    list@.items() == crate::json::docs(groups@),
                    forall|j: int|
                        0 <= j < i ==> (#[trigger] list@.items()[j]).text_member("gid"@) != Some(
                            gid@,
                        ),
                decreases n - i,
            {
                let here = match groups[i].get_text("gid") {
                    Some(s) => text::same(s, gid),
                    None => false,
                };
                assert(here == (list@.items()[i as int].text_member("gid"@) == Some(gid@)));
                if here {
                    return true;
                }
                i += 1;
            }
            false
        },
        _ => false,
    }
}

/// Does the number pass the comparison? The end matters to a range alone; one without a number at
/// its end ends where it starts.
pub fn compare(
    actual: i64,
    expected: i64,
    operator: &ConditionOperator,
    value_end: &Option<Value>,
) -> (r: bool)
    ensures
        r == passes(
            actual as int,
            expected as int,
            *operator,
            match *value_end {
                Some(v) => Some(v@),
                None => None,
            },
        ),
{
    match operator {
        ConditionOperator::Eq => actual == expected,
        ConditionOperator::Gt => actual > expected,
        ConditionOperator::Gte => actual >= expected,
        ConditionOperator::Lt => actual < expected,
        ConditionOperator::Lte => actual <= expected,
        ConditionOperator::Between => {
            let end: i64 = match value_end {
                Some(v) => match v.as_i64() {
                    Some(n) => n,
                    None => expected,
                },
                None => expected,
            };
            actual >= expected && actual <= end
        },
    }
}

pub(crate) fn number_in(value: &Value) -> (r: i64)
    ensures
        r == int_or(value@, 0),
{
    match value.as_i64() {
        Some(n) => n,
        None => 0,
    }
}

pub(crate) fn flag_in(value: &Value) -> (r: bool)
    ensures
        r == bool_or_yes(value@),
{
    match value.as_bool() {
        Some(b) => b,
        None => true,
    }
}

pub(crate) fn text_in(value: &Value) -> (r: &str)
    ensures
        r@ == text_or_empty(value@),
{
    match value.as_str() {
        Some(s) => s,
        None => {
            proof {
                reveal_strlit("");
            }
            ""
        },
    }
}

fn evaluate_single(
    condition: &Condition,
    uc: &UserCacheRow,
    achievements: &Lookup<String, GameAchievementRow>,
    publisher_ownership: Option<&Lookup<String, AppOwnershipRow>>,
    now: &Timestamp,
) -> (r: bool)
    requires
        uc.wf(),
        now.wf(),
    ensures
        r == met(condition@, facts_of(*uc, *achievements, publisher_ownership), *now),
{
    let app_id: &str = match &condition.app_id {
        Some(id) => id.as_str(),
        None => {
            if condition.field.requires_app_id() {
                return false;
            }
            proof {
                reveal_strlit("");
            }
            ""
        },
    };
    let ghost facts = facts_of(*uc, *achievements, publisher_ownership);
    match &condition.field {
        ConditionField::OwnsGame => {
            let expected = flag_in(&condition.value);
            let answer = match publisher_ownership {
                Some(m) => m.get_str(app_id),
                None => None,
            };
            let owns = match answer {
                // Partner-API result: works with private libraries. The
                // license must belong to the linked account (excludes
                // Family Sharing) and be permanent (excludes free
                // weekends / timed trials).
                Some(o) => o.owns_app && o.permanent && text::same(
                    o.owner_steam_id.as_str(),
                    uc.steam_id.as_str(),
                ),
                None => library_lists(&uc.owned_games, app_number_of(app_id)),
            };
            owns == expected
        },
        ConditionField::GamePlaytime => compare(
            hours_in_library(&uc.owned_games, app_number_of(app_id), "playtime_forever"),
            number_in(&condition.value),
            &condition.operator,
            &condition.value_end,
        ),
        ConditionField::RecentPlaytime => compare(
            hours_in_library(&uc.owned_games, app_number_of(app_id), "playtime_2weeks"),
            number_in(&condition.value),
            &condition.operator,
            &condition.value_end,
        ),
        ConditionField::AchievementCount => {
            let unlocked: i64 = match achievements.get_str(app_id) {
                Some(a) => a.unlocked_count as i64,
                None => 0,
            };
            compare(
                unlocked,
                number_in(&condition.value),
                &condition.operator,
                &condition.value_end,
            )
        },
        ConditionField::AchievementPercent => {
            let pct: i64 = match achievements.get_str(app_id) {
                Some(a) => percent_of(a.unlocked_count, a.total_count),
                None => 0,
            };
            compare(pct, number_in(&condition.value), &condition.operator, &condition.value_end)
        },
        ConditionField::HasAchievement => match achievements.get_str(app_id) {
            Some(a) => achievement_unlocked(&a.achievements, text_in(&condition.value)),
            None => false,
        },
        ConditionField::SteamLevel => compare(
            uc.steam_level as i64,
            number_in(&condition.value),
            &condition.operator,
            &condition.value_end,
        ),
        ConditionField::AccountAgeDays => {
            let actual: i64 = match &uc.account_created {
                Some(created) => now.days_since(created),
                None => 0,
            };
            compare(actual, number_in(&condition.value), &condition.operator, &condition.value_end)
        },
        ConditionField::TotalGamesOwned => compare(
            uc.total_games_owned as i64,
            number_in(&condition.value),
            &condition.operator,
            &condition.value_end,
        ),
        ConditionField::IsVACBanned => uc.is_vac_banned == flag_in(&condition.value),
        ConditionField::IsGameBanned => uc.is_game_banned == flag_in(&condition.value),
        ConditionField::InGroup => group_listed(&uc.groups, text_in(&condition.value)),
        ConditionField::CountryCode => text::eq_ignore_ascii_case(
            uc.country_code.as_str(),
            text_in(&condition.value),
        ),
    }
}

/// Evaluate all conditions against cached data, at a given time. All must pass (AND logic).
/// An empty condition list is treated as "unconfigured" and grants no role.
///
/// `publisher_ownership` must only be `Some` for role links that have a
/// publisher key configured — OwnsGame then prefers the partner-API result
/// (keyed by app_id) over the public library, falling back to the library
/// for apps not yet cached.
pub fn evaluate_conditions_at(
    conditions: &[Condition],
    user_cache: &UserCacheRow,
    game_achievements: &Lookup<String, GameAchievementRow>,
    publisher_ownership: Option<&Lookup<String, AppOwnershipRow>>,
    now: &Timestamp,
) -> (r: bool)
    requires
        user_cache.wf(),
        now.wf(),
    ensures
        r == all_met(
            condition::rules(conditions@),
            facts_of(*user_cache, *game_achievements, publisher_ownership),
            *now,
        ),
{
    let n: usize = conditions.len();
    if n == 0 {
        return false;
    }
    let ghost facts = facts_of(*user_cache, *game_achievements, publisher_ownership);
    let ghost list = condition::rules(conditions@);
    let mut i: usize = 0;
    while i < n
        invariant
            i <= n == conditions@.len(),
            user_cache.wf(),
            now.wf(),
            facts == facts_of(*user_cache, *game_achievements, publisher_ownership),
            list == condition::rules(conditions@),
            forall|j: int| 0 <= j < i ==> met(#[trigger] list[j], facts, *now),
        decreases n - i,
    {
        let passed = evaluate_single(
            &conditions[i],
            user_cache,
            game_achievements,
            publisher_ownership,
            now,
        );
        assert(passed == met(list[i as int], facts, *now));
        if !passed {
            return false;
        }
        i += 1;
    }
    true
}

/// Evaluate all conditions against cached data, now.
pub fn evaluate_conditions(
    conditions: &[Condition],
    user_cache: &UserCacheRow,
    game_achievements: &Lookup<String, GameAchievementRow>,
    publisher_ownership: Option<&Lookup<String, AppOwnershipRow>>,
) -> (r: bool)
    requires
        user_cache.wf(),
    ensures
        exists|now: Timestamp| #[trigger]
            now.wf() && now.secs >= 0 && r == all_met(
                condition::rules(conditions@),
                facts_of(*user_cache, *game_achievements, publisher_ownership),
                now,
            ),
        clock_free(
            condition::rules(conditions@),
            facts_of(*user_cache, *game_achievements, publisher_ownership),
        ) ==> forall|t: Timestamp|
            r == #[trigger] all_met(
                condition::rules(conditions@),
                facts_of(*user_cache, *game_achievements, publisher_ownership),
                t,
            ),
{
    let now = clock::utc_now();
    let r = evaluate_conditions_at(
        conditions,
        user_cache,
        game_achievements,
        publisher_ownership,
        &now,
    );
    proof {
        let list = condition::rules(conditions@);
        let facts = facts_of(*user_cache, *game_achievements, publisher_ownership);
        if clock_free(list, facts) {
            assert forall|t: Timestamp| r == #[trigger] all_met(list, facts, t) by {
                law_only_account_age_looks_at_the_clock(list, facts, now, t);
            }
        }
    }
    r
}

/// Only a condition on the age of an account whose creation time is known looks at the clock.
pub proof fn law_only_account_age_looks_at_the_clock(
    list: Seq<Rule>,
    facts: Facts,
    a: Timestamp,
    b: Timestamp,
)
    requires
        clock_free(list, facts),
    ensures
        all_met(list, facts, a) == all_met(list, facts, b),
{
    assert forall|i: int| 0 <= i < list.len() implies met(#[trigger] list[i], facts, a) == met(
        list[i],
        facts,
        b,
    ) by {}
}

/// A role without conditions is granted to nobody.
pub proof fn law_no_conditions_grant_no_role(facts: Facts, now: Timestamp)
    ensures
        !all_met(Seq::<Rule>::empty(), facts, now),
{
}

/// All conditions must hold: two lists together grant a role when each of them does.
pub proof fn law_conditions_are_joined_by_and(
    a: Seq<Rule>,
    b: Seq<Rule>,
    facts: Facts,
    now: Timestamp,
)
    requires
        a.len() > 0,
        b.len() > 0,
    ensures
        all_met(a + b, facts, now) == (all_met(a, facts, now) && all_met(b, facts, now)),
{
    if all_met(a + b, facts, now) {
        assert forall|i: int| 0 <= i < a.len() implies met(#[trigger] a[i], facts, now) by {
            assert((a + b)[i] == a[i]);
        }
        assert forall|i: int| 0 <= i < b.len() implies met(#[trigger] b[i], facts, now) by {
            assert((a + b)[a.len() + i] == b[i]);
        }
    }
    if all_met(a, facts, now) && all_met(b, facts, now) {
        assert forall|i: int| 0 <= i < (a + b).len() implies met(
            #[trigger] (a + b)[i],
            facts,
            now,
        ) by {
            if i < a.len() {
                assert((a + b)[i] == a[i]);
            } else {
                assert((a + b)[i] == b[i - a.len()]);
            }
        }
    }
}

/// Where the publisher has answered for an app, the answer alone decides who owns it: the license
/// must be there, must be permanent and must be the account's own. A borrowed or temporary license
/// never counts, and the public library, private or stale, is not looked at.
pub proof fn law_publisher_answer_decides_ownership(facts: Facts, app_id: Seq<char>)
    requires
        facts.ownership is Some,
        facts.ownership->0.contains_key(app_id),
    ensures
        owns_game(facts, app_id) <==> {
            &&& facts.ownership->0[app_id].owns_app
            &&& facts.ownership->0[app_id].permanent
            &&& facts.ownership->0[app_id].owner_steam_id@ == facts.user.steam_id@
        },
{
}

/// Without an answer of the publisher for the app, the public library decides who owns it.
pub proof fn law_library_decides_without_an_answer(facts: Facts, app_id: Seq<char>)
    requires
        facts.ownership is None || !facts.ownership->0.contains_key(app_id),
    ensures
        owns_game(facts, app_id) <==> in_library(facts.user.owned_games@, app_number(app_id)),
{
}

/// In an empty library, which is what a private one looks like, no game is owned or was played.
pub proof fn law_private_library_shows_no_game(library: Doc, app: int, key: Seq<char>)
    requires
        library.items().len() == 0,
    ensures
        !in_library(library, app),
        hours_played(library, app, key) == 0,
{
}

/// Of the conditions "owns the game" and "does not own the game", exactly one is met.
pub proof fn law_ownership_conditions_are_opposite(rule: Rule, facts: Facts, now: Timestamp)
    requires
        rule.field is OwnsGame,
        rule.app_id is Some,
        rule.value is Bool,
    ensures
        met(rule, facts, now) != met(
            Rule { value: Doc::Bool(!rule.value->Bool_0), ..rule },
            facts,
            now,
        ),
{
}

/// A range contains both of its ends and everything between them.
pub proof fn law_between_is_inclusive(actual: int, first: int, last: int)
    ensures
        passes(actual, first, ConditionOperator::Between, Some(Doc::Int(last))) <==> first
            <= actual <= last,
        first <= last ==> passes(first, first, ConditionOperator::Between, Some(Doc::Int(last))),
        first <= last ==> passes(last, first, ConditionOperator::Between, Some(Doc::Int(last))),
{
}

/// The comparisons fit together. Exactly one of less, equal and greater holds; at least is not
/// less, and at most is not greater. A range with a number at its end holds both ends and what lies
/// between them, one without is equality, and its end matters to no other comparison.
pub proof fn law_comparisons_fit_together(
    actual: int,
    expected: int,
    end: Option<Doc>,
    other_end: Option<Doc>,
)
    ensures
        ({
            let lt = passes(actual, expected, ConditionOperator::Lt, end);
            let eq = passes(actual, expected, ConditionOperator::Eq, end);
            let gt = passes(actual, expected, ConditionOperator::Gt, end);
            &&& lt || eq || gt
            &&& !(lt && eq) && !(lt && gt) && !(eq && gt)
            &&& passes(actual, expected, ConditionOperator::Gte, end) == !lt
            &&& passes(actual, expected, ConditionOperator::Lte, end) == !gt
        }),
        match end {
            Some(Doc::Int(last)) => passes(actual, expected, ConditionOperator::Between, end) == (
            expected <= actual <= last),
            _ => passes(actual, expected, ConditionOperator::Between, end) == passes(
                actual,
                expected,
                ConditionOperator::Eq,
                end,
            ),
        },
        forall|operator: ConditionOperator|
            !(operator is Between) ==> #[trigger] passes(actual, expected, operator, end) == passes(
                actual,
                expected,
                operator,
                other_end,
            ),
{
}

/// Country codes are compared without regard to the case of ASCII letters.
pub proof fn law_country_code_ignores_case(
    rule: Rule,
    other: Rule,
    facts: Facts,
    now: Timestamp,
)
    requires
        rule.field is CountryCode,
        other.field is CountryCode,
        rule.value is Text,
        other.value is Text,
        text::lowered(rule.value->Text_0) == text::lowered(other.value->Text_0),
    ensures
        met(rule, facts, now) == met(other, facts, now),
{
}

// ── What each condition asks for ───────────────────────────────────────────

/// A condition on a ban is met exactly when the player has that ban, or does not have it, as the
/// condition asks; nothing else that is known of the player matters, nor does the time.
pub proof fn law_ban_conditions_look_at_their_own_ban(
    rule: Rule,
    wanted: bool,
    facts: Facts,
    other: Facts,
    now: Timestamp,
    later: Timestamp,
)
    requires
        rule.value == Doc::Bool(wanted) || (!(rule.value is Bool) && wanted),
    ensures
        rule.field is IsVACBanned ==> (met(rule, facts, now) <==> facts.user.is_vac_banned
            == wanted),
        rule.field is IsGameBanned ==> (met(rule, facts, now) <==> facts.user.is_game_banned
            == wanted),
        rule.field is IsVACBanned && facts.user.is_vac_banned == other.user.is_vac_banned ==> met(
            rule,
            facts,
            now,
        ) == met(rule, other, later),
        rule.field is IsGameBanned && facts.user.is_game_banned == other.user.is_game_banned
            ==> met(rule, facts, now) == met(rule, other, later),
{
}

/// Is the condition met when it asks for at least this number?
pub open spec fn at_least(rule: Rule, n: int, facts: Facts, now: Timestamp) -> bool {
    met(
        Rule {
            operator: ConditionOperator::Gte,
            value: Doc::Int(n),
            value_end: None,
            ..rule
        },
        facts,
        now,
    )
}

/// A condition on a number says what "at least" says: less is not at least, more is at least one
/// more, at most is not at least one more, equal is at least but not at least one more, and a range
/// is at least its start but not at least one more than its end. Without a number at its end, a
/// range is its start, and without a number, a condition asks for 0.
pub proof fn law_number_conditions_follow_from_at_least(
    rule: Rule,
    n: int,
    facts: Facts,
    now: Timestamp,
)
    requires
        !(rule.field is OwnsGame || rule.field is IsVACBanned || rule.field is IsGameBanned),
        !(rule.field is HasAchievement || rule.field is InGroup || rule.field is CountryCode),
        rule.app_id is Some || rule.field is SteamLevel || rule.field is AccountAgeDays
            || rule.field is TotalGamesOwned,
        rule.value == Doc::Int(n) || (!(rule.value is Int) && n == 0),
    ensures
        met(rule, facts, now) == match rule.operator {
            ConditionOperator::Gte => at_least(rule, n, facts, now),
            ConditionOperator::Lt => !at_least(rule, n, facts, now),
            ConditionOperator::Gt => at_least(rule, n + 1, facts, now),
            ConditionOperator::Lte => !at_least(rule, n + 1, facts, now),
            ConditionOperator::Eq => at_least(rule, n, facts, now) && !at_least(
                rule,
                n + 1,
                facts,
                now,
            ),
            ConditionOperator::Between => match rule.value_end {
                Some(Doc::Int(last)) => at_least(rule, n, facts, now) && !at_least(
                    rule,
                    last + 1,
                    facts,
                    now,
                ),
                _ => at_least(rule, n, facts, now) && !at_least(rule, n + 1, facts, now),
            },
        },
        forall|k: int, m: int|
            k <= m && #[trigger] at_least(rule, m, facts, now) ==> #[trigger] at_least(
                rule,
                k,
                facts,
                now,
            ),
{
}

/// A condition on the level looks at the level, and one on the number of games at that number.
pub proof fn law_level_and_game_count_are_read(rule: Rule, n: int, facts: Facts, now: Timestamp)
    ensures
        rule.field is SteamLevel ==> (at_least(rule, n, facts, now) <==> facts.user.steam_level
            >= n),
        rule.field is TotalGamesOwned ==> (at_least(rule, n, facts, now) <==>
            facts.user.total_games_owned >= n),
{
}

/// An account is at least so many days old once so many times 24 hours have passed since it was
/// created. Without a creation time it is 0 days old.
pub proof fn law_account_age_is_in_full_days(rule: Rule, n: int, facts: Facts, now: Timestamp)
    requires
        rule.field is AccountAgeDays,
    ensures
        facts.user.account_created is None ==> (at_least(rule, n, facts, now) <==> n <= 0),
        facts.user.account_created matches Some(t) ==> n >= 1 ==> (at_least(rule, n, facts, now)
            <==> now@ - t@ >= n * 86_400_000_000_000),
        facts.user.account_created matches Some(t) ==> n <= 0 ==> (at_least(rule, n, facts, now)
            <==> t@ - now@ < (1 - n) * 86_400_000_000_000),
{
    if facts.user.account_created is Some {
        let d = now@ - facts.user.account_created->0@;
        assert(clock::SECONDS_PER_DAY * clock::NANOS_PER_SECOND == 86_400_000_000_000);
        assert(age_in_days(facts.user.account_created, now) == clock::whole(d, 86_400_000_000_000));
    }
}

/// A condition on playtime looks at the minutes of the first entry that the library has for the
/// game, in all or of the last two weeks, and counts full hours. A game that is not in the library
/// was not played.
pub proof fn law_playtime_is_in_full_hours(
    rule: Rule,
    app: i64,
    n: int,
    facts: Facts,
    now: Timestamp,
    at: int,
)
    requires
        rule.field is GamePlaytime || rule.field is RecentPlaytime,
        rule.app_id == Some(text::decimal(app as int)),
        0 <= at <= facts.user.owned_games@.items().len(),
        forall|j: int|
            0 <= j < at ==> (#[trigger] facts.user.owned_games@.items()[j]).int_member("appid"@)
                != Some(app as int),
        at < facts.user.owned_games@.items().len()
            ==> facts.user.owned_games@.items()[at].int_member("appid"@) == Some(app as int),
    ensures
        ({
            let games = facts.user.owned_games@.items();
            let shown = if at == games.len() {
                None
            } else if rule.field is GamePlaytime {
                games[at].int_member("playtime_forever"@)
            } else {
                games[at].int_member("playtime_2weeks"@)
            };
            let minutes = if shown is Some {
                shown->0
            } else {
                0
            };
            &&& n >= 1 ==> (at_least(rule, n, facts, now) <==> minutes >= 60 * n)
            &&& n <= 0 ==> (at_least(rule, n, facts, now) <==> minutes > 60 * (n - 1))
        }),
{
    text::law_decimal_round_trip(app);
    let games = facts.user.owned_games@.items();
    assert forall|j: int| 0 <= j < at implies !is_game(#[trigger] games[j], app as int) by {}
    lemma_first_game(games, app as int, at);
}

/// A condition on the number of achievements looks at those unlocked in the app, of which there are
/// none while nothing is known of it.
pub proof fn law_achievement_count_is_read(
    rule: Rule,
    app: Seq<char>,
    n: int,
    facts: Facts,
    now: Timestamp,
)
    requires
        rule.field is AchievementCount,
        rule.app_id == Some(app),
    ensures
        facts.achievements.contains_key(app) ==> (at_least(rule, n, facts, now) <==>
            facts.achievements[app].unlocked_count >= n),
        !facts.achievements.contains_key(app) ==> (at_least(rule, n, facts, now) <==> n <= 0),
{
}

/// At least so many percent are unlocked when the unlocked achievements are that part of all in the
/// app; where nothing can be unlocked, or nothing is known of the app, it is 0 percent.
pub proof fn law_achievement_percent_is_the_unlocked_part(
    rule: Rule,
    app: Seq<char>,
    n: int,
    facts: Facts,
    now: Timestamp,
)
    requires
        rule.field is AchievementPercent,
        rule.app_id == Some(app),
    ensures
        ({
            let row = facts.achievements[app];
            let known = facts.achievements.contains_key(app) && row.total_count != 0;
            &&& !known ==> (at_least(rule, n, facts, now) <==> n <= 0)
            &&& known && row.total_count > 0 && row.unlocked_count >= 0 && n >= 1 ==> (at_least(
                rule,
                n,
                facts,
                now,
            ) <==> row.unlocked_count * 100 >= n * row.total_count)
        }),
{
    let row = facts.achievements[app];
    if facts.achievements.contains_key(app) && row.total_count > 0 && row.unlocked_count >= 0
        && n >= 1 {
        let (u, t) = (row.unlocked_count as int * 100, row.total_count as int);
        vstd::arithmetic::div_mod::lemma_fundamental_div_mod(u, t);
        vstd::arithmetic::div_mod::lemma_mod_bound(u, t);
        let q = u / t;
        assert(q >= n <==> u >= n * t) by (nonlinear_arith)
            requires
                u == t * q + u % t,
                0 <= u % t < t,
        ;
    }
}

/// A condition on one achievement is met exactly when the list of the app shows one with that name
/// as achieved.
pub proof fn law_achievement_condition_looks_for_the_name(
    rule: Rule,
    app: Seq<char>,
    name: Seq<char>,
    facts: Facts,
    now: Timestamp,
)
    requires
        rule.field is HasAchievement,
        rule.app_id == Some(app),
        rule.value == Doc::Text(name),
    ensures
        met(rule, facts, now) <==> facts.achievements.contains_key(app) && exists|i: int|
            0 <= i < facts.achievements[app].achievements@.items().len() && (
            #[trigger] facts.achievements[app].achievements@.items()[i]).text_member("apiname"@)
                == Some(name) && facts.achievements[app].achievements@.items()[i].int_member(
                "achieved"@,
            ) == Some(1int),
{
    let list = facts.achievements[app].achievements@.items();
    if has_unlocked(facts.achievements[app].achievements@, name) {
        let i = choose|i: int| 0 <= i < list.len() && is_unlocked(#[trigger] list[i], name);
        assert(list[i].text_member("apiname"@) == Some(name));
    }
    assert forall|i: int|
        0 <= i < list.len() && (#[trigger] list[i]).text_member("apiname"@) == Some(name)
            && list[i].int_member("achieved"@) == Some(1int) implies is_unlocked(list[i], name) by {}
}

/// A condition on a group is met exactly when the groups of the player show it.
pub proof fn law_group_condition_looks_for_the_group(
    rule: Rule,
    gid: Seq<char>,
    facts: Facts,
    now: Timestamp,
)
    requires
        rule.field is InGroup,
        rule.value == Doc::Text(gid),
    ensures
        met(rule, facts, now) <==> exists|i: int|
            0 <= i < facts.user.groups@.items().len() && (
            #[trigger] facts.user.groups@.items()[i]).text_member("gid"@) == Some(gid),
{
}

/// A condition on the country is met exactly when the two codes agree letter by letter, a capital
/// and its small letter being the same letter.
pub proof fn law_country_codes_agree_letter_by_letter(
    rule: Rule,
    code: Seq<char>,
    facts: Facts,
    now: Timestamp,
)
    requires
        rule.field is CountryCode,
        rule.value == Doc::Text(code),
    ensures
        met(rule, facts, now) <==> {
            let own = facts.user.country_code@;
            &&& own.len() == code.len()
            &&& forall|i: int|
                0 <= i < code.len() ==> {
                    ||| #[trigger] own[i] == code[i]
                    ||| 'A' <= own[i] <= 'Z' && code[i] as int == own[i] as int + 32
                    ||| 'A' <= code[i] <= 'Z' && own[i] as int == code[i] as int + 32
                }
        },
{
    let own = facts.user.country_code@;
    let (a, b) = (text::lowered(own), text::lowered(code));
    if a == b {
        assert(a.len() == own.len() && b.len() == code.len());
        assert forall|i: int| 0 <= i < code.len() implies ({
            ||| #[trigger] own[i] == code[i]
            ||| 'A' <= own[i] <= 'Z' && code[i] as int == own[i] as int + 32
            ||| 'A' <= code[i] <= 'Z' && own[i] as int == code[i] as int + 32
        }) by {
            assert(a[i] == b[i]);
            assert(text::small(own[i]) == text::small(code[i]));
        }
    }
    if own.len() == code.len() && (forall|i: int|
        0 <= i < code.len() ==> {
            ||| #[trigger] own[i] == code[i]
            ||| 'A' <= own[i] <= 'Z' && code[i] as int == own[i] as int + 32
            ||| 'A' <= code[i] <= 'Z' && own[i] as int == code[i] as int + 32
        }) {
        assert forall|i: int| 0 <= i < a.len() implies a[i] == b[i] by {
            assert(text::small(own[i]) == text::small(code[i]));
        }
        assert(a =~= b);
    }
}

/// A condition on a game is met exactly when the account owns the game, or does not, as the
/// condition asks. Where the publisher has answered for the app, the answer counts: a license that
/// is there, is permanent and is the account's own. Everywhere else an entry for the app in the
/// public library counts.
pub proof fn law_ownership_condition_looks_at_license_or_library(
    rule: Rule,
    app: i64,
    wanted: bool,
    facts: Facts,
    now: Timestamp,
)
    requires
        rule.field is OwnsGame,
        rule.app_id == Some(text::decimal(app as int)),
        rule.value == Doc::Bool(wanted) || (!(rule.value is Bool) && wanted),
    ensures
        ({
            let id = text::decimal(app as int);
            let games = facts.user.owned_games@.items();
            let answered = facts.ownership is Some && facts.ownership->0.contains_key(id);
            let licensed = {
                &&& facts.ownership->0[id].owns_app
                &&& facts.ownership->0[id].permanent
                &&& facts.ownership->0[id].owner_steam_id@ == facts.user.steam_id@
            };
            let listed = exists|i: int|
                0 <= i < games.len() && (#[trigger] games[i]).int_member("appid"@) == Some(
                    app as int,
                );
            met(rule, facts, now) <==> wanted == (if answered {
                licensed
            } else {
                listed
            })
        }),
{
    text::law_decimal_round_trip(app);
    let games = facts.user.owned_games@.items();
    assert forall|i: int| 0 <= i < games.len() implies is_game(#[trigger] games[i], app as int) == (
    games[i].int_member("appid"@) == Some(app as int)) by {}
}

/// A condition on a game that does not say which is met by nobody.
pub proof fn law_a_game_condition_names_its_game(rule: Rule, facts: Facts, now: Timestamp)
    requires
        rule.app_id is None,
        rule.field is OwnsGame || rule.field is GamePlaytime || rule.field is RecentPlaytime
            || rule.field is AchievementCount || rule.field is AchievementPercent
            || rule.field is HasAchievement,
    ensures
        !met(rule, facts, now),
{
}

/// A single condition decides alone, and each of several must be met.
pub proof fn law_every_condition_must_be_met(list: Seq<Rule>, facts: Facts, now: Timestamp)
    ensures
        forall|rule: Rule|
            all_met(seq![rule], facts, now) == #[trigger] met(rule, facts, now),
        list.len() > 0 ==> (all_met(list, facts, now) <==> (forall|i: int|
            0 <= i < list.len() ==> met(#[trigger] list[i], facts, now))),
        list.len() == 0 ==> !all_met(list, facts, now),
{
    assert forall|rule: Rule| all_met(seq![rule], facts, now) == #[trigger] met(
        rule,
        facts,
        now,
    ) by {
        assert(seq![rule][0] == rule);
    }
}

/// An app id in which something stands that belongs to no number, or that is empty, is taken for
/// the number 0.
pub proof fn law_an_app_id_that_is_no_number_is_zero(app_id: Seq<char>, i: int)
    requires
        ({
            ||| app_id.len() == 0
            ||| 0 <= i < app_id.len() && !('0' <= app_id[i] <= '9') && (i > 0 || (app_id[0] != '-'
                && app_id[0] != '+'))
        }),
    ensures
        app_number(app_id) == 0,
{
    if app_id.len() > 0 && (app_id[0] == '-' || app_id[0] == '+') {
        let body = app_id.subrange(1, app_id.len() as int);
        assert(body[i - 1] == app_id[i]);
        assert(!text::is_digit(body[i - 1]));
    } else if app_id.len() > 0 {
        assert(!text::is_digit(app_id[i]));
    }
}

/// A player is judged by what was read of them: their row, their achievements, and the publishers'
/// answers exactly where there are any.
pub proof fn law_facts_are_what_was_read(
    user: UserCacheRow,
    achievements: Lookup<String, GameAchievementRow>,
    ownership: Lookup<String, AppOwnershipRow>,
)
    ensures
        facts_of(user, achievements, Some(&ownership)).user == user,
        facts_of(user, achievements, Some(&ownership)).achievements == achievements@,
        facts_of(user, achievements, Some(&ownership)).ownership == Some(ownership@),
        facts_of(user, achievements, None).user == user,
        facts_of(user, achievements, None).achievements == achievements@,
        facts_of(user, achievements, None).ownership is None,
{
}

} // verus!
