//! Conditions as a filter in SQL.

use vstd::prelude::*;
use crate::clock::Timestamp;
use crate::json::Doc;
use crate::models::condition;
use crate::models::condition::{Condition, ConditionField, ConditionOperator, Rule};
use crate::services::condition_eval;
use crate::services::condition_eval::{Facts, UserCacheRow};
use crate::text;

verus! {

/// Bind value types for dynamic condition queries.
#[derive(Debug, PartialEq)]
pub enum ConditionBind {
    Int(i64),
    Text(String),
    Bool(bool),
}

/// What is bound to a placeholder.
pub enum Bound {
    Int(int),
    Text(Seq<char>),
    Bool(bool),
}

impl View for ConditionBind {
    type V = Bound;

    open spec fn view(&self) -> Bound {
        match self {
            ConditionBind::Int(n) => Bound::Int(*n as int),
            ConditionBind::Text(t) => Bound::Text(t@),
            ConditionBind::Bool(b) => Bound::Bool(*b),
        }
    }
}

/// What a list of binds holds.
pub open spec fn bounds(v: Seq<ConditionBind>) -> Seq<Bound> {
    Seq::new(v.len(), |i: int| v[i]@)
}

/// A part of a filter: its text and what is bound to its placeholders.
pub struct Clause {
    pub sql: Seq<char>,
    pub binds: Seq<Bound>,
}

/// The filter of a list of conditions, in parts.
pub struct Filter {
    pub clauses: Seq<Seq<char>>,
    pub binds: Seq<Bound>,
}

/// The placeholder of a number.
pub open spec fn placeholder(n: int) -> Seq<char> {
    "$"@ + text::decimal(n)
}

/// How old an account is, in days, as SQL computes it.
pub open spec fn sql_age() -> Seq<char> {
    "EXTRACT(EPOCH FROM (now() - uc.account_created)) / 86400"@
}

/// The end of a range; its start, when no end is given.
pub open spec fn end_of(rule: Rule) -> int {
    match rule.value_end {
        Some(d) => condition_eval::int_or(d, condition_eval::int_or(rule.value, 0)),
        None => condition_eval::int_or(rule.value, 0),
    }
}

/// A comparison of an expression with the number of a condition. `n` binds come before it.
pub open spec fn number_clause(expression: Seq<char>, rule: Rule, n: int) -> Clause {
    let start = condition_eval::int_or(rule.value, 0);
    if rule.operator is Between {
        Clause {
            sql: expression + " >= "@ + placeholder(n + 1) + " AND "@ + expression + " <= "@
                + placeholder(n + 2),
            binds: seq![Bound::Int(start), Bound::Int(end_of(rule))],
        }
    } else {
        Clause {
            sql: expression + " "@ + condition::operator_sql(rule.operator) + " "@ + placeholder(
                n + 1,
            ),
            binds: seq![Bound::Int(start)],
        }
    }
}

/// Does the library hold the app that is bound to the placeholder?
pub open spec fn library_clause(n: int) -> Seq<char> {
    "uc.owned_games @> concat('[{\"appid\":', "@ + placeholder(n + 1) + "::text, '}]')::jsonb"@
}

/// The part of a filter for one condition, if SQL can judge it. `n` binds come before it.
pub open spec fn clause_of(rule: Rule, n: int, skip_owns_game: bool) -> Option<Clause> {
    match rule.field {
        ConditionField::SteamLevel => Some(number_clause("uc.steam_level"@, rule, n)),
        ConditionField::TotalGamesOwned => Some(number_clause("uc.total_games_owned"@, rule, n)),
        ConditionField::AccountAgeDays => Some(number_clause(sql_age(), rule, n)),
        ConditionField::IsVACBanned => Some(
            Clause {
                sql: "uc.is_vac_banned = "@ + placeholder(n + 1),
                binds: seq![Bound::Bool(condition_eval::bool_or_yes(rule.value))],
            },
        ),
        ConditionField::IsGameBanned => Some(
            Clause {
                sql: "uc.is_game_banned = "@ + placeholder(n + 1),
                binds: seq![Bound::Bool(condition_eval::bool_or_yes(rule.value))],
            },
        ),
        ConditionField::CountryCode => Some(
            Clause {
                sql: "LOWER(uc.country_code) = LOWER("@ + placeholder(n + 1) + ")"@,
                binds: seq![Bound::Text(condition_eval::text_or_empty(rule.value))],
            },
        ),
        ConditionField::InGroup => Some(
            Clause {
                sql: "uc.groups @> concat('[{\"gid\":\"', "@ + placeholder(n + 1)
                    + "::text, '\"}]')::jsonb"@,
                binds: seq![Bound::Text(condition_eval::text_or_empty(rule.value))],
            },
        ),
        ConditionField::OwnsGame => match rule.app_id {
            Some(app_id) if !skip_owns_game => Some(
                Clause {
                    sql: if condition_eval::bool_or_yes(rule.value) {
                        library_clause(n)
                    } else {
                        "NOT ("@ + library_clause(n) + ")"@
                    },
                    binds: seq![Bound::Int(condition_eval::app_number(app_id))],
                },
            ),
            _ => None,
        },
        // Playtimes and achievements are judged after the query.
        _ => None,
    }
}

/// The filter of a list of conditions, in parts.
pub open spec fn filter_of(list: Seq<Rule>, skip_owns_game: bool) -> Filter
    decreases list.len(),
{
    if list.len() == 0 {
        Filter { clauses: Seq::empty(), binds: Seq::empty() }
    } else {
        let before = filter_of(list.drop_last(), skip_owns_game);
        match clause_of(list.last(), before.binds.len() as int, skip_owns_game) {
            Some(c) => Filter {
                clauses: before.clauses.push(c.sql),
                binds: before.binds + c.binds,
            },
            None => before,
        }
    }
}

/// The text of a filter; one without parts lets everything pass.
pub open spec fn filter_sql(f: Filter) -> Seq<char> {
    if f.clauses.len() == 0 {
        "TRUE"@
    } else {
        text::joined(f.clauses, " AND "@)
    }
}

/// Appends the placeholder of the number that comes `ahead` after the bind count.
pub(crate) fn push_placeholder(out: &mut String, count: usize, ahead: u8)
    ensures
        final(out)@ == old(out)@ + placeholder(count + ahead),
{
    out.append("$");
    text::push_decimal_u128(out, count as u128 + ahead as u128);
    assert(out@ =~= old(out)@ + placeholder(count + ahead));
}

/// What SQL judges of one condition: the text and the binds.
type Part = (String, Vec<ConditionBind>);

fn number_part(expression: &str, c: &Condition, n: usize) -> (r: Part)
    ensures
        (Clause { sql: r.0@, binds: bounds(r.1@) }) == number_clause(expression@, c@, n as int),
{
    let start: i64 = condition_eval::number_in(&c.value);
    let mut sql = text::owned(expression);
    if c.operator == ConditionOperator::Between {
        let end: i64 = match &c.value_end {
            Some(v) => match v.as_i64() {
                Some(e) => e,
                None => start,
            },
            None => start,
        };
        sql.append(" >= ");
        push_placeholder(&mut sql, n, 1);
        sql.append(" AND ");
        sql.append(expression);
        sql.append(" <= ");
        push_placeholder(&mut sql, n, 2);
        let binds = vec![ConditionBind::Int(start), ConditionBind::Int(end)];
        assert(bounds(binds@) =~= number_clause(expression@, c@, n as int).binds);
        (sql, binds)
    } else {
        sql.append(" ");
        sql.append(c.operator.sql_operator());
        sql.append(" ");
        push_placeholder(&mut sql, n, 1);
        let binds = vec![ConditionBind::Int(start)];
        assert(bounds(binds@) =~= number_clause(expression@, c@, n as int).binds);
        (sql, binds)
    }
}

fn single_part(before: &str, n: usize, after: &str, bind: ConditionBind) -> (r: Part)
    ensures
        r.0@ == before@ + placeholder(n + 1) + after@,
        bounds(r.1@) == seq![bind@],
{
    let mut sql = text::owned(before);
    push_placeholder(&mut sql, n, 1);
    sql.append(after);
    let binds = vec![bind];
    assert(bounds(binds@) =~= seq![bind@]);
    (sql, binds)
}

fn part_of(c: &Condition, n: usize, skip_owns_game: bool) -> (r: Option<Part>)
    ensures
        match r {
            Some(p) => clause_of(c@, n as int, skip_owns_game) == Some(
                Clause { sql: p.0@, binds: bounds(p.1@) },
            ),
            None => clause_of(c@, n as int, skip_owns_game) is None,
        },
{
    proof {
        reveal_strlit("");
    }
    match &c.field {
        ConditionField::SteamLevel => Some(number_part("uc.steam_level", c, n)),
        ConditionField::TotalGamesOwned => Some(number_part("uc.total_games_owned", c, n)),
        ConditionField::AccountAgeDays => Some(
            number_part("EXTRACT(EPOCH FROM (now() - uc.account_created)) / 86400", c, n),
        ),
        ConditionField::IsVACBanned => {
            let p = single_part(
                "uc.is_vac_banned = ",
                n,
                "",
                ConditionBind::Bool(condition_eval::flag_in(&c.value)),
            );
            assert(p.0@ =~= "uc.is_vac_banned = "@ + placeholder(n + 1));
            Some(p)
        },
        ConditionField::IsGameBanned => {
            let p = single_part(
                "uc.is_game_banned = ",
                n,
                "",
                ConditionBind::Bool(condition_eval::flag_in(&c.value)),
            );
            assert(p.0@ =~= "uc.is_game_banned = "@ + placeholder(n + 1));
            Some(p)
        },
        ConditionField::CountryCode => Some(
            single_part(
                "LOWER(uc.country_code) = LOWER(",
                n,
                ")",
                ConditionBind::Text(text::owned(condition_eval::text_in(&c.value))),
            ),
        ),
        ConditionField::InGroup => Some(
            single_part(
                "uc.groups @> concat('[{\"gid\":\"', ",
                n,
                "::text, '\"}]')::jsonb",
                ConditionBind::Text(text::owned(condition_eval::text_in(&c.value))),
            ),
        ),
        ConditionField::OwnsGame => {
            if skip_owns_game {
                return None;
            }
            match &c.app_id {
                Some(app_id) => {
                    let app: i64 = match text::parse_i64(app_id.as_str()) {
                        Some(a) => a,
                        None => 0,
                    };
                    let inner = single_part(
                        "uc.owned_games @> concat('[{\"appid\":', ",
                        n,
                        "::text, '}]')::jsonb",
                        ConditionBind::Int(app),
                    );
                    if condition_eval::flag_in(&c.value) {
                        Some(inner)
                    } else {
                        let mut sql = text::owned("NOT (");
                        sql.append(inner.0.as_str());
                        sql.append(")");
                        Some((sql, inner.1))
                    }
                },
                None => None,
            }
        },
        // Game-specific conditions that need JSONB or achievement table
        // are evaluated in-memory after SQL pre-filter
        _ => None,
    }
}

/// Build a SQL WHERE clause from conditions for SQL-side filtering.
/// With `skip_owns_game`, OwnsGame produces no clause — the caller
/// evaluates it in-memory against app_ownership_cache instead of the
/// owned_games JSONB (which is empty for private libraries).
pub fn build_condition_where(conditions: &[Condition], skip_owns_game: bool) -> (r: (
    String,
    Vec<ConditionBind>,
))
    ensures
        r.0@ == filter_sql(filter_of(condition::rules(conditions@), skip_owns_game)),
        bounds(r.1@) == filter_of(condition::rules(conditions@), skip_owns_game).binds,
{
    let mut clauses: Vec<String> = Vec::new();
    let mut binds: Vec<ConditionBind> = Vec::new();
    let ghost list = condition::rules(conditions@);
    let n: usize = conditions.len();
    let mut i: usize = 0;
    while i < n
        invariant
            i <= n == conditions@.len(),
            list == condition::rules(conditions@),
            text::texts(clauses@) == filter_of(list.take(i as int), skip_owns_game).clauses,
            bounds(binds@) == filter_of(list.take(i as int), skip_owns_game).binds,
        decreases n - i,
    {
        let ghost clauses_before = clauses@;
        let ghost binds_before = binds@;
        assert(binds@.len() == bounds(binds@).len());
        let part = part_of(&conditions[i], binds.len(), skip_owns_game);
        proof {
            assert(list.take(i + 1).drop_last() =~= list.take(i as int));
            assert(list.take(i + 1).last() == conditions@[i as int]@);
        }
        if let Some((sql, own)) = part {
            let mut own = own;
            let ghost own_before = own@;
            clauses.push(sql);
            binds.append(&mut own);
            proof {
                assert(text::texts(clauses@) =~= text::texts(clauses_before).push(sql@));
                assert(bounds(binds@) =~= bounds(binds_before) + bounds(own_before));
            }
        }
        i += 1;
    }
    assert(list.take(n as int) =~= list);
    assert(text::texts(clauses@).len() == clauses@.len());
    if clauses.len() == 0 {
        proof {
            lemma_no_clause_no_bind(list, skip_owns_game);
        }
        return (text::owned("TRUE"), binds);
    }
    (text::join(&clauses, " AND "), binds)
}

proof fn lemma_no_clause_no_bind(list: Seq<Rule>, skip_owns_game: bool)
    ensures
        filter_of(list, skip_owns_game).clauses.len() == 0 ==> filter_of(
            list,
            skip_owns_game,
        ).binds.len() == 0,
    decreases list.len(),
{
    if list.len() > 0 {
        lemma_no_clause_no_bind(list.drop_last(), skip_owns_game);
    }
}

/// Can SQL alone judge the condition?
pub open spec fn sql_judges(rule: Rule) -> bool {
    match rule.field {
        ConditionField::GamePlaytime => false,
        ConditionField::RecentPlaytime => false,
        ConditionField::AchievementCount => false,
        ConditionField::AchievementPercent => false,
        ConditionField::HasAchievement => false,
        _ => true,
    }
}

/// A filter without parts binds nothing and lets everything pass.
pub proof fn law_filter_without_parts_is_true(list: Seq<Rule>, skip_owns_game: bool)
    requires
        filter_of(list, skip_owns_game).clauses.len() == 0,
    ensures
        filter_sql(filter_of(list, skip_owns_game)) == "TRUE"@,
        filter_of(list, skip_owns_game).binds.len() == 0,
{
    lemma_no_clause_no_bind(list, skip_owns_game);
}

/// When SQL can judge all conditions, and those on a game name one, every condition is a part of
/// the filter: none is lost on the way.
pub proof fn law_filter_holds_every_sql_condition(list: Seq<Rule>)
    requires
        forall|i: int| 0 <= i < list.len() ==> sql_judges(#[trigger] list[i]),
        forall|i: int|
            0 <= i < list.len() && (#[trigger] list[i]).field is OwnsGame ==> list[i].app_id is Some,
    ensures
        filter_of(list, false).clauses.len() == list.len(),
    decreases list.len(),
{
    if list.len() > 0 {
        let rest = list.drop_last();
        assert forall|i: int| 0 <= i < rest.len() implies sql_judges(#[trigger] rest[i]) by {
            assert(rest[i] == list[i]);
        }
        assert forall|i: int| 0 <= i < rest.len() && (#[trigger] rest[i]).field is OwnsGame implies
            rest[i].app_id is Some by {
            assert(rest[i] == list[i]);
        }
        law_filter_holds_every_sql_condition(rest);
        assert(sql_judges(list[list.len() - 1]));
    }
}

/// With a publisher's answers at hand, the public library is no part of the filter.
pub proof fn law_skipped_ownership_is_no_part(rule: Rule, n: int)
    requires
        rule.field is OwnsGame,
    ensures
        clause_of(rule, n, true) is None,
{
}

/// Do the conditions differ in their values alone? Whether a game is to be owned or not, and
/// whether one is named at all, is no such value.
pub open spec fn same_shape(a: Rule, b: Rule) -> bool {
    &&& a.field == b.field
    &&& a.operator == b.operator
    &&& a.field is OwnsGame ==> a.app_id is Some == b.app_id is Some
        && condition_eval::bool_or_yes(a.value) == condition_eval::bool_or_yes(b.value)
}

/// Values reach only the binds: conditions that differ in their values alone have the same text.
pub proof fn law_values_reach_only_the_binds(a: Seq<Rule>, b: Seq<Rule>, skip_owns_game: bool)
    requires
        a.len() == b.len(),
        forall|i: int| 0 <= i < a.len() ==> same_shape(#[trigger] a[i], b[i]),
    ensures
        filter_sql(filter_of(a, skip_owns_game)) == filter_sql(filter_of(b, skip_owns_game)),
        filter_of(a, skip_owns_game).clauses == filter_of(b, skip_owns_game).clauses,
        filter_of(a, skip_owns_game).binds.len() == filter_of(b, skip_owns_game).binds.len(),
    decreases a.len(),
{
    if a.len() > 0 {
        let (c, d) = (a.drop_last(), b.drop_last());
        assert forall|i: int| 0 <= i < c.len() implies same_shape(#[trigger] c[i], d[i]) by {
            assert(c[i] == a[i] && d[i] == b[i]);
        }
        law_values_reach_only_the_binds(c, d, skip_owns_game);
        assert(same_shape(a[a.len() - 1], b[a.len() - 1]));
    }
}

proof fn lemma_clause_names_its_binds(rule: Rule, n: int, skip_owns_game: bool, k: int)
    requires
        clause_of(rule, n, skip_owns_game) is Some,
        0 <= k < clause_of(rule, n, skip_owns_game)->0.binds.len(),
    ensures
        text::occurs_in(clause_of(rule, n, skip_owns_game)->0.sql, placeholder(n + 1 + k)),
{
    let sql = clause_of(rule, n, skip_owns_game)->0.sql;
    let first = placeholder(n + 1);
    let none = Seq::<char>::empty();
    let (before, after) = match rule.field {
        ConditionField::IsVACBanned => ("uc.is_vac_banned = "@, none),
        ConditionField::IsGameBanned => ("uc.is_game_banned = "@, none),
        ConditionField::CountryCode => ("LOWER(uc.country_code) = LOWER("@, ")"@),
        ConditionField::InGroup => (
            "uc.groups @> concat('[{\"gid\":\"', "@,
            "::text, '\"}]')::jsonb"@,
        ),
        ConditionField::OwnsGame => {
            let start = "uc.owned_games @> concat('[{\"appid\":', "@;
            let end = "::text, '}]')::jsonb"@;
            if condition_eval::bool_or_yes(rule.value) {
                (start, end)
            } else {
                ("NOT ("@ + start, end + ")"@)
            }
        },
        _ => {
            let e = match rule.field {
                ConditionField::SteamLevel => "uc.steam_level"@,
                ConditionField::TotalGamesOwned => "uc.total_games_owned"@,
                _ => sql_age(),
            };
            if rule.operator is Between {
                (e + " >= "@, " AND "@ + e + " <= "@ + placeholder(n + 2))
            } else {
                (e + " "@ + condition::operator_sql(rule.operator) + " "@, none)
            }
        },
    };
    assert(sql =~= before + first + after);
    text::lemma_middle_occurs(before, first, after);
    if k == 1 {
        let second = placeholder(n + 2);
        let head = sql.take(sql.len() - second.len());
        text::lemma_middle_occurs(head, second, none);
        assert(sql =~= head + second + none);
    }
}

/// Every bind has its placeholder: the one with its number, counted from one, stands in some part
/// of the filter.
pub proof fn law_every_bind_has_its_placeholder(list: Seq<Rule>, skip_owns_game: bool, k: int)
    requires
        0 <= k < filter_of(list, skip_owns_game).binds.len(),
    ensures
        exists|j: int|
            0 <= j < filter_of(list, skip_owns_game).clauses.len() && text::occurs_in(
                #[trigger] filter_of(list, skip_owns_game).clauses[j],
                placeholder(k + 1),
            ),
    decreases list.len(),
{
    let all = filter_of(list, skip_owns_game);
    let before = filter_of(list.drop_last(), skip_owns_game);
    let n = before.binds.len() as int;
    if k < n {
        law_every_bind_has_its_placeholder(list.drop_last(), skip_owns_game, k);
        let j = choose|j: int|
            0 <= j < before.clauses.len() && text::occurs_in(
                #[trigger] before.clauses[j],
                placeholder(k + 1),
            );
        assert(all.clauses[j] == before.clauses[j]);
    } else {
        lemma_clause_names_its_binds(list.last(), n, skip_owns_game, k - n);
        let j = before.clauses.len() as int;
        assert(text::occurs_in(all.clauses[j], placeholder(k + 1)));
    }
}

// ── Whom a filter selects ──────────────────────────────────────────────────

/// A number that a row of the cache holds or leads to.
pub enum Figure {
    Level,
    Games,
    Age,
}

/// A yes or no that a row of the cache holds.
pub enum Flag {
    VacBan,
    GameBan,
}

/// What a part of a filter tests. The numbers are those of the placeholders that it names.
pub enum Test {
    /// A number is compared with a bound one.
    Compares(Figure, ConditionOperator, int),
    /// A number lies between two bound ones.
    Lies(Figure, int, int),
    Is(Flag, int),
    Country(int),
    HasGroup(int),
    HasGame(int),
    HasNoGame(int),
}

/// A number as SQL writes it.
pub open spec fn figure_text(f: Figure) -> Seq<char> {
    match f {
        Figure::Level => "uc.steam_level"@,
        Figure::Games => "uc.total_games_owned"@,
        Figure::Age => "EXTRACT(EPOCH FROM (now() - uc.account_created)) / 86400"@,
    }
}

/// A comparison as SQL writes it.
pub open spec fn sign_text(o: ConditionOperator) -> Seq<char> {
    match o {
        ConditionOperator::Eq => " = "@,
        ConditionOperator::Gt => " > "@,
        ConditionOperator::Gte => " >= "@,
        ConditionOperator::Lt => " < "@,
        ConditionOperator::Lte => " <= "@,
        ConditionOperator::Between => " BETWEEN "@,
    }
}

/// A test as SQL writes it.
pub open spec fn test_text(t: Test) -> Seq<char> {
    match t {
        Test::Compares(f, o, at) => figure_text(f) + sign_text(o) + placeholder(at),
        Test::Lies(f, first, last) => figure_text(f) + " >= "@ + placeholder(first) + " AND "@
            + figure_text(f) + " <= "@ + placeholder(last),
        Test::Is(Flag::VacBan, at) => "uc.is_vac_banned = "@ + placeholder(at),
        Test::Is(Flag::GameBan, at) => "uc.is_game_banned = "@ + placeholder(at),
        Test::Country(at) => "LOWER(uc.country_code) = LOWER("@ + placeholder(at) + ")"@,
        Test::HasGroup(at) => "uc.groups @> concat('[{\"gid\":\"', "@ + placeholder(at)
            + "::text, '\"}]')::jsonb"@,
        Test::HasGame(at) => "uc.owned_games @> concat('[{\"appid\":', "@ + placeholder(at)
            + "::text, '}]')::jsonb"@,
        Test::HasNoGame(at) => "NOT (uc.owned_games @> concat('[{\"appid\":', "@ + placeholder(at)
            + "::text, '}]')::jsonb)"@,
    }
}

/// Does the number of a row compare so with a bound one? The age is that to the nanosecond, in
/// days; without a creation time nothing can be said of it.
pub open spec fn figure_compares(
    f: Figure,
    o: ConditionOperator,
    bound: Bound,
    user: UserCacheRow,
    now: Timestamp,
) -> bool {
    let day = match f {
        Figure::Age => 86_400_000_000_000int,
        _ => 1,
    };
    let own = match f {
        Figure::Level => user.steam_level as int,
        Figure::Games => user.total_games_owned as int,
        Figure::Age => now@ - user.account_created->0@,
    };
    &&& f is Age ==> user.account_created is Some
    &&& bound matches Bound::Int(n) && match o {
        ConditionOperator::Eq => own == n * day,
        ConditionOperator::Gt => own > n * day,
        ConditionOperator::Gte => own >= n * day,
        ConditionOperator::Lt => own < n * day,
        ConditionOperator::Lte => own <= n * day,
        ConditionOperator::Between => false,
    }
}

/// Does a row pass the test with these binds? The placeholders count from one.
pub open spec fn row_passes(
    t: Test,
    binds: Seq<Bound>,
    user: UserCacheRow,
    now: Timestamp,
) -> bool {
    match t {
        Test::Compares(f, o, at) => figure_compares(f, o, binds[at - 1], user, now),
        Test::Lies(f, first, last) => figure_compares(
            f,
            ConditionOperator::Gte,
            binds[first - 1],
            user,
            now,
        ) && figure_compares(f, ConditionOperator::Lte, binds[last - 1], user, now),
        Test::Is(Flag::VacBan, at) => binds[at - 1] == Bound::Bool(user.is_vac_banned),
        Test::Is(Flag::GameBan, at) => binds[at - 1] == Bound::Bool(user.is_game_banned),
        Test::Country(at) => binds[at - 1] matches Bound::Text(code) && text::lowered(
            user.country_code@,
        ) == text::lowered(code),
        Test::HasGroup(at) => binds[at - 1] matches Bound::Text(gid) && exists|i: int|
            0 <= i < user.groups@.items().len() && (#[trigger] user.groups@.items()[i]).text_member(
                "gid"@,
            ) == Some(gid),
        Test::HasGame(at) => binds[at - 1] matches Bound::Int(app) && exists|i: int|
            0 <= i < user.owned_games@.items().len() && (
            #[trigger] user.owned_games@.items()[i]).int_member("appid"@) == Some(app),
        Test::HasNoGame(at) => binds[at - 1] matches Bound::Int(app) && !exists|i: int|
            0 <= i < user.owned_games@.items().len() && (
            #[trigger] user.owned_games@.items()[i]).int_member("appid"@) == Some(app),
    }
}

/// Is a text plain, so that it stands in JSON as it is?
pub open spec fn plain(s: Seq<char>) -> bool {
    forall|i: int|
        0 <= i < s.len() ==> (#[trigger] s[i]) as int >= 0x20 && s[i] != '"' && s[i] != '\\'
}

/// Does the text hold ASCII characters only?
pub open spec fn ascii(s: Seq<char>) -> bool {
    forall|i: int| 0 <= i < s.len() ==> (#[trigger] s[i]) as int <= 0x7f
}

/// Do SQL and the judgement of a condition agree on what it means for this row? They do not where
/// SQL counts fractions of days or knows no age, where a text is not the same in JSON or in small
/// letters, and where a condition on a game names none.
pub open spec fn means_the_same(rule: Rule, facts: Facts, now: Timestamp) -> bool {
    match rule.field {
        ConditionField::AccountAgeDays => {
            &&& rule.operator is Gte || rule.operator is Lt
            &&& facts.user.account_created is Some
            &&& facts.user.account_created->0@ <= now@
        },
        ConditionField::CountryCode => ascii(facts.user.country_code@) && ascii(
            condition_eval::text_or_empty(rule.value),
        ),
        ConditionField::InGroup => plain(condition_eval::text_or_empty(rule.value)),
        ConditionField::OwnsGame => rule.app_id is Some,
        _ => true,
    }
}

/// Is the condition a part of the filter? Playtimes and achievements are none, and ownership is
/// none where it is left out.
pub open spec fn in_filter(rule: Rule, skip_owns_game: bool) -> bool {
    match rule.field {
        ConditionField::GamePlaytime => false,
        ConditionField::RecentPlaytime => false,
        ConditionField::AchievementCount => false,
        ConditionField::AchievementPercent => false,
        ConditionField::HasAchievement => false,
        ConditionField::OwnsGame => !skip_owns_game && rule.app_id is Some,
        _ => true,
    }
}

/// The test that the part of a condition is. `n` binds come before it.
pub open spec fn reading(rule: Rule, n: int) -> Test {
    let numeric = |f: Figure|
        if rule.operator is Between {
            Test::Lies(f, n + 1, n + 2)
        } else {
            Test::Compares(f, rule.operator, n + 1)
        };
    match rule.field {
        ConditionField::SteamLevel => numeric(Figure::Level),
        ConditionField::TotalGamesOwned => numeric(Figure::Games),
        ConditionField::AccountAgeDays => numeric(Figure::Age),
        ConditionField::IsVACBanned => Test::Is(Flag::VacBan, n + 1),
        ConditionField::IsGameBanned => Test::Is(Flag::GameBan, n + 1),
        ConditionField::CountryCode => Test::Country(n + 1),
        ConditionField::InGroup => Test::HasGroup(n + 1),
        _ => if rule.value == Doc::Bool(false) {
            Test::HasNoGame(n + 1)
        } else {
            Test::HasGame(n + 1)
        },
    }
}

proof fn lemma_sign_texts()
    ensures
        forall|o: ConditionOperator| #[trigger]
            sign_text(o) =~= " "@ + condition::operator_sql(o) + " "@,
        "NOT (uc.owned_games @> concat('[{\"appid\":', "@ =~= "NOT ("@
            + "uc.owned_games @> concat('[{\"appid\":', "@,
        "::text, '}]')::jsonb)"@ =~= "::text, '}]')::jsonb"@ + ")"@,
{
    reveal_strlit(" ");
    reveal_strlit("=");
    reveal_strlit(">");
    reveal_strlit(">=");
    reveal_strlit("<");
    reveal_strlit("<=");
    reveal_strlit("BETWEEN");
    reveal_strlit(" = ");
    reveal_strlit(" > ");
    reveal_strlit(" >= ");
    reveal_strlit(" < ");
    reveal_strlit(" <= ");
    reveal_strlit(" BETWEEN ");
    reveal_strlit("NOT (uc.owned_games @> concat('[{\"appid\":', ");
    reveal_strlit("NOT (");
    reveal_strlit("uc.owned_games @> concat('[{\"appid\":', ");
    reveal_strlit("::text, '}]')::jsonb)");
    reveal_strlit("::text, '}]')::jsonb");
    reveal_strlit(")");
    assert forall|o: ConditionOperator| #[trigger] sign_text(o) =~= " "@ + condition::operator_sql(
        o,
    ) + " "@ by {
        assert(sign_text(o).len() == 2 + condition::operator_sql(o).len());
    }
}

/// The part of a condition selects exactly those whom the condition means: read as a test of a row
/// against the binds, it is passed by a row exactly when the condition is met. Only the player's own
/// row is looked at, and every condition that SQL can judge has a part.
pub proof fn law_a_part_selects_whom_the_condition_means(
    rule: Rule,
    n: int,
    skip_owns_game: bool,
    binds: Seq<Bound>,
    facts: Facts,
    now: Timestamp,
)
    requires
        n >= 0,
        in_filter(rule, skip_owns_game),
        clause_of(rule, n, skip_owns_game) matches Some(c) ==> n + c.binds.len() <= binds.len()
            && binds.subrange(n, n + c.binds.len()) == c.binds,
    ensures
        clause_of(rule, n, skip_owns_game) is Some,
        clause_of(rule, n, skip_owns_game)->0.sql == test_text(reading(rule, n)),
        means_the_same(rule, facts, now) && (rule.field is OwnsGame ==> facts.ownership is None)
            ==> (row_passes(reading(rule, n), binds, facts.user, now) <==> condition_eval::met(
            rule,
            facts,
            now,
        )),
{
    lemma_reading(rule, n, skip_owns_game);
    let c = clause_of(rule, n, skip_owns_game)->0;
    assert(c.binds.len() >= 1 && c.binds[0] == binds[n]) by {
        assert(binds.subrange(n, n + c.binds.len())[0] == binds[n]);
    }
    if c.binds.len() == 2 {
        assert(binds.subrange(n, n + c.binds.len())[1] == binds[n + 1]);
    }
    if rule.field is AccountAgeDays && means_the_same(rule, facts, now) {
        let k = condition_eval::int_or(rule.value, 0);
        condition_eval::law_account_age_is_in_full_days(rule, k, facts, now);
        condition_eval::law_number_conditions_follow_from_at_least(rule, k, facts, now);
    }
    if rule.field is OwnsGame {
        let games = facts.user.owned_games@.items();
        let app = condition_eval::app_number(rule.app_id->0);
        assert forall|i: int| 0 <= i < games.len() implies condition_eval::is_game(
            #[trigger] games[i],
            app,
        ) == (games[i].int_member("appid"@) == Some(app)) by {}
    }
}

/// What is bound is what the condition asks for: its number and the end of its range, its truth
/// value, its text, or its game.
pub proof fn law_binds_are_what_is_asked_for(
    rule: Rule,
    n: int,
    first: int,
    last: int,
    app: i64,
    skip_owns_game: bool,
)
    requires
        in_filter(rule, skip_owns_game),
    ensures
        ({
            let f = rule.field;
            let binds = clause_of(rule, n, skip_owns_game)->0.binds;
            &&& f is SteamLevel || f is TotalGamesOwned || f is AccountAgeDays ==> {
                &&& rule.value == Doc::Int(first) && !(rule.operator is Between) ==> binds == seq![
                    Bound::Int(first),
                ]
                &&& rule.value == Doc::Int(first) && rule.operator is Between && rule.value_end
                    == Some(Doc::Int(last)) ==> binds == seq![Bound::Int(first), Bound::Int(last)]
            }
            &&& f is IsVACBanned || f is IsGameBanned ==> {
                &&& rule.value == Doc::Bool(true) ==> binds == seq![Bound::Bool(true)]
                &&& rule.value == Doc::Bool(false) ==> binds == seq![Bound::Bool(false)]
            }
            &&& f is CountryCode || f is InGroup ==> (rule.value matches Doc::Text(t) ==> binds
                == seq![Bound::Text(t)])
            &&& f is OwnsGame && rule.app_id == Some(text::decimal(app as int)) ==> binds == seq![
                Bound::Int(app as int),
            ]
        }),
{
    text::law_decimal_round_trip(app);
}

/// The tests that the parts of a filter are, one for each condition that it holds.
pub open spec fn readings(list: Seq<Rule>, skip_owns_game: bool) -> Seq<Test>
    decreases list.len(),
{
    if list.len() == 0 {
        Seq::empty()
    } else {
        let before = readings(list.drop_last(), skip_owns_game);
        if in_filter(list.last(), skip_owns_game) {
            before.push(
                reading(
                    list.last(),
                    filter_of(list.drop_last(), skip_owns_game).binds.len() as int,
                ),
            )
        } else {
            before
        }
    }
}

/// A list of tests as SQL writes them.
pub open spec fn test_texts(tests: Seq<Test>) -> Seq<Seq<char>> {
    Seq::new(tests.len(), |j: int| test_text(tests[j]))
}

/// Are the placeholders of a test among the first `n`?
spec fn reaches(t: Test, n: int) -> bool {
    match t {
        Test::Compares(_, _, at) => 1 <= at <= n,
        Test::Lies(_, first, last) => 1 <= first <= n && 1 <= last <= n,
        Test::Is(_, at) => 1 <= at <= n,
        Test::Country(at) => 1 <= at <= n,
        Test::HasGroup(at) => 1 <= at <= n,
        Test::HasGame(at) => 1 <= at <= n,
        Test::HasNoGame(at) => 1 <= at <= n,
    }
}

proof fn lemma_reading(rule: Rule, n: int, skip_owns_game: bool)
    requires
        n >= 0,
        in_filter(rule, skip_owns_game),
    ensures
        clause_of(rule, n, skip_owns_game) is Some,
        clause_of(rule, n, skip_owns_game)->0.sql == test_text(reading(rule, n)),
        reaches(reading(rule, n), n + clause_of(rule, n, skip_owns_game)->0.binds.len()),
{
    lemma_sign_texts();
    assert(clause_of(rule, n, skip_owns_game)->0.sql =~= test_text(reading(rule, n)));
}

proof fn lemma_readings(list: Seq<Rule>, skip_owns_game: bool)
    ensures
        filter_of(list, skip_owns_game).clauses == test_texts(readings(list, skip_owns_game)),
        forall|j: int|
            0 <= j < readings(list, skip_owns_game).len() ==> reaches(
                #[trigger] readings(list, skip_owns_game)[j],
                filter_of(list, skip_owns_game).binds.len() as int,
            ),
    decreases list.len(),
{
    let all = filter_of(list, skip_owns_game);
    if list.len() > 0 {
        let before = filter_of(list.drop_last(), skip_owns_game);
        let rule = list.last();
        let n = before.binds.len() as int;
        lemma_readings(list.drop_last(), skip_owns_game);
        if in_filter(rule, skip_owns_game) {
            lemma_reading(rule, n, skip_owns_game);
        } else {
            assert(clause_of(rule, n, skip_owns_game) is None);
        }
        assert(all.clauses =~= test_texts(readings(list, skip_owns_game)));
    } else {
        assert(all.clauses =~= test_texts(readings(list, skip_owns_game)));
    }
}

/// A filter selects exactly those whom its conditions mean: it is the list of its tests, joined by
/// "and", and a row passes all of them exactly when every condition that the filter holds is met.
/// A filter that holds none lets everything pass.
pub proof fn law_a_filter_selects_whom_its_conditions_mean(
    list: Seq<Rule>,
    skip_owns_game: bool,
    facts: Facts,
    now: Timestamp,
)
    requires
        !skip_owns_game ==> facts.ownership is None,
        forall|i: int|
            0 <= i < list.len() && in_filter(#[trigger] list[i], skip_owns_game) ==> means_the_same(
                list[i],
                facts,
                now,
            ),
    ensures
        ({
            let tests = readings(list, skip_owns_game);
            let f = filter_of(list, skip_owns_game);
            &&& filter_sql(f) == if tests.len() == 0 {
                "TRUE"@
            } else {
                text::joined(test_texts(tests), " AND "@)
            }
            &&& (forall|j: int|
                0 <= j < tests.len() ==> row_passes(#[trigger] tests[j], f.binds, facts.user, now))
                <==> (forall|i: int|
                0 <= i < list.len() && in_filter(#[trigger] list[i], skip_owns_game)
                    ==> condition_eval::met(list[i], facts, now))
        }),
    decreases list.len(),
{
    lemma_readings(list, skip_owns_game);
    let tests = readings(list, skip_owns_game);
    let f = filter_of(list, skip_owns_game);
    assert(test_texts(tests).len() == tests.len());
    if list.len() > 0 {
        let rest = list.drop_last();
        let rule = list.last();
        assert(list[list.len() - 1] == rule);
        assert forall|i: int|
            0 <= i < rest.len() && in_filter(#[trigger] rest[i], skip_owns_game) implies
            means_the_same(rest[i], facts, now) by {
            assert(rest[i] == list[i]);
        }
        law_a_filter_selects_whom_its_conditions_mean(rest, skip_owns_game, facts, now);
        lemma_readings(rest, skip_owns_game);
        let earlier = readings(rest, skip_owns_game);
        let before = filter_of(rest, skip_owns_game);
        let n = before.binds.len() as int;
        assert forall|j: int| 0 <= j < earlier.len() implies row_passes(
            #[trigger] earlier[j],
            f.binds,
            facts.user,
            now,
        ) == row_passes(earlier[j], before.binds, facts.user, now) by {
            assert(reaches(earlier[j], n));
            assert forall|k: int| 0 <= k < n implies #[trigger] f.binds[k] == before.binds[k] by {}
        }
        if in_filter(rule, skip_owns_game) {
            let c = clause_of(rule, n, skip_owns_game)->0;
            assert(f.binds.subrange(n, n + c.binds.len()) =~= c.binds);
            law_a_part_selects_whom_the_condition_means(
                rule,
                n,
                skip_owns_game,
                f.binds,
                facts,
                now,
            );
            assert(tests[earlier.len() as int] == reading(rule, n));
        }
        assert forall|j: int| 0 <= j < earlier.len() implies #[trigger] tests[j] == earlier[j] by {}
        assert forall|i: int| 0 <= i < rest.len() implies #[trigger] list[i] == rest[i] by {}
        let all_pass = forall|j: int|
            0 <= j < tests.len() ==> row_passes(#[trigger] tests[j], f.binds, facts.user, now);
        let rest_pass = forall|j: int|
            0 <= j < earlier.len() ==> row_passes(
                #[trigger] earlier[j],
                before.binds,
                facts.user,
                now,
            );
        if all_pass {
            assert forall|j: int| 0 <= j < earlier.len() implies row_passes(
                #[trigger] earlier[j],
                before.binds,
                facts.user,
                now,
            ) by {
                assert(tests[j] == earlier[j]);
            }
            assert(rest_pass);
            if in_filter(rule, skip_owns_game) {
                assert(row_passes(tests[earlier.len() as int], f.binds, facts.user, now));
            }
            assert forall|i: int|
                0 <= i < list.len() && in_filter(#[trigger] list[i], skip_owns_game) implies
                condition_eval::met(list[i], facts, now) by {
                if i < rest.len() {
                    assert(rest[i] == list[i]);
                }
            }
        }
        if forall|i: int|
            0 <= i < list.len() && in_filter(#[trigger] list[i], skip_owns_game)
                ==> condition_eval::met(list[i], facts, now) {
            assert forall|i: int|
                0 <= i < rest.len() && in_filter(#[trigger] rest[i], skip_owns_game) implies
                condition_eval::met(rest[i], facts, now) by {
                assert(list[i] == rest[i]);
            }
            assert(rest_pass);
            assert forall|j: int| 0 <= j < tests.len() implies row_passes(
                #[trigger] tests[j],
                f.binds,
                facts.user,
                now,
            ) by {
                if j < earlier.len() {
                    assert(tests[j] == earlier[j]);
                }
            }
        }
    }
}

} // verus!
