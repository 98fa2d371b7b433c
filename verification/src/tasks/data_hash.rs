//! What a player's data looks like to the conditions, as a text and as its digest.

use vstd::prelude::*;
use crate::clock;
use crate::digest;
use crate::order;
use crate::services::steam_api::{OwnedGame, SteamGroup};
use crate::text;

verus! {

/// What was fetched of a player. `None` stands for what was not fetched.
pub struct Snapshot {
    pub games: Option<Seq<OwnedGame>>,
    pub game_count: Option<int>,
    pub library_visible: Option<bool>,
    pub level: Option<int>,
    pub groups: Option<Seq<Seq<char>>>,
    pub vac_banned: bool,
    pub game_banned: bool,
    pub country: Seq<char>,
}

/// A truth value in words.
pub open spec fn truth(b: bool) -> Seq<char> {
    if b {
        "true"@
    } else {
        "false"@
    }
}

/// Whole hours in minutes that may not be known.
pub open spec fn hours(minutes: Option<i64>) -> int {
    match minutes {
        Some(m) => clock::whole(m as int, 60),
        None => 0,
    }
}

/// A game: its number, and how many hours it was played at all and of late.
pub open spec fn game_text(g: OwnedGame) -> Seq<char> {
    text::decimal(g.appid as int) + ":"@ + text::decimal(hours(g.playtime_forever)) + ":"@
        + text::decimal(hours(g.playtime_2weeks))
}

/// The games, each as a text.
pub open spec fn game_texts(games: Seq<OwnedGame>) -> Seq<Seq<char>> {
    Seq::new(games.len(), |i: int| game_text(games[i]))
}

/// The ids of the groups.
pub open spec fn gids(groups: Seq<SteamGroup>) -> Seq<Seq<char>> {
    Seq::new(groups.len(), |i: int| groups[i].gid@)
}

/// The games in order, or the mark of what was not fetched.
pub open spec fn games_part(games: Option<Seq<OwnedGame>>) -> Seq<char> {
    match games {
        Some(list) => text::joined(order::in_order(game_texts(list)), ","@),
        None => "skip"@,
    }
}

/// A number, or the mark of what was not fetched.
pub open spec fn number_part(n: Option<int>) -> Seq<char> {
    match n {
        Some(k) => text::decimal(k),
        None => "skip"@,
    }
}

/// A truth value, or the mark of what was not fetched.
pub open spec fn truth_part(b: Option<bool>) -> Seq<char> {
    match b {
        Some(v) => truth(v),
        None => "skip"@,
    }
}

/// The groups in order, or the mark of what was not fetched.
pub open spec fn groups_part(ids: Option<Seq<Seq<char>>>) -> Seq<char> {
    match ids {
        Some(list) => text::joined(order::in_order(list), ","@),
        None => "skip"@,
    }
}

/// A heading, what stands under it, and the rest.
pub open spec fn headed(heading: Seq<char>, part: Seq<char>, rest: Seq<char>) -> Seq<char> {
    heading + part + rest
}

/// What is always fetched.
pub open spec fn account_text(s: Snapshot) -> Seq<char> {
    "\nbans="@ + truth(s.vac_banned) + ":"@ + truth(s.game_banned) + "\ncountry="@ + s.country
        + "\n"@
}

/// From the groups on.
pub open spec fn text_from_groups(s: Snapshot) -> Seq<char> {
    headed("\ngroups="@, groups_part(s.groups), account_text(s))
}

/// From the level on.
pub open spec fn text_from_level(s: Snapshot) -> Seq<char> {
    headed("\nlevel="@, number_part(s.level), text_from_groups(s))
}

/// From the visibility of the library on.
pub open spec fn text_from_visibility(s: Snapshot) -> Seq<char> {
    headed("\nlibvis="@, truth_part(s.library_visible), text_from_level(s))
}

/// From the number of games on.
pub open spec fn text_from_count(s: Snapshot) -> Seq<char> {
    headed("\ncount="@, number_part(s.game_count), text_from_visibility(s))
}

/// What a player's data looks like to the conditions: class by class.
pub open spec fn snapshot_text(s: Snapshot) -> Seq<char> {
    headed("v1\ngames="@, games_part(s.games), text_from_count(s))
}

/// What was fetched, from the values at hand.
pub open spec fn snapshot(
    games: Option<&[OwnedGame]>,
    game_count: Option<i64>,
    library_visible: Option<bool>,
    level: Option<i32>,
    groups: Option<&[SteamGroup]>,
    vac_banned: bool,
    game_banned: bool,
    country: &str,
) -> Snapshot {
    Snapshot {
        games: match games {
            Some(g) => Some(g@),
            None => None,
        },
        game_count: match game_count {
            Some(n) => Some(n as int),
            None => None,
        },
        library_visible,
        level: match level {
            Some(n) => Some(n as int),
            None => None,
        },
        groups: match groups {
            Some(g) => Some(gids(g@)),
            None => None,
        },
        vac_banned,
        game_banned,
        country: country@,
    }
}

fn truth_word(b: bool) -> (r: &'static str)
    ensures
        r@ == truth(b),
{
    if b {
        "true"
    } else {
        "false"
    }
}

fn hours_of(minutes: Option<i64>) -> (r: i64)
    ensures
        r == hours(minutes),
{
    match minutes {
        Some(m) => m / 60,
        None => 0,
    }
}

fn push_game(out: &mut String, g: &OwnedGame)
    ensures
        final(out)@ == old(out)@ + game_text(*g),
{
    text::push_decimal(out, g.appid);
    out.append(":");
    text::push_decimal(out, hours_of(g.playtime_forever));
    out.append(":");
    text::push_decimal(out, hours_of(g.playtime_2weeks));
    assert(out@ =~= old(out)@ + game_text(*g));
}

fn ordered_games(games: &[OwnedGame]) -> (r: String)
    ensures
        r@ == games_part(Some(games@)),
{
    let mut parts: Vec<String> = Vec::new();
    let n: usize = games.len();
    let mut i: usize = 0;
    while i < n
        invariant
            i <= n == games@.len(),
            text::texts(parts@) == game_texts(games@).take(i as int),
        decreases n - i,
    {
        let ghost before = parts@;
        let mut part = String::new();
        push_game(&mut part, &games[i]);
        assert(part@ =~= game_text(games@[i as int]));
        parts.push(part);
        proof {
            assert(text::texts(parts@) =~= text::texts(before).push(game_text(games@[i as int])));
            assert(game_texts(games@).take(i + 1) =~= game_texts(games@).take(i as int).push(
                game_text(games@[i as int]),
            ));
        }
        i += 1;
    }
    assert(game_texts(games@).take(n as int) =~= game_texts(games@));
    let sorted = order::sort_texts(&parts);
    text::join(&sorted, ",")
}

fn ordered_groups(groups: &[SteamGroup]) -> (r: String)
    ensures
        r@ == groups_part(Some(gids(groups@))),
{
    let mut parts: Vec<String> = Vec::new();
    let n: usize = groups.len();
    let mut i: usize = 0;
    while i < n
        invariant
            i <= n == groups@.len(),
            text::texts(parts@) == gids(groups@).take(i as int),
        decreases n - i,
    {
        let ghost before = parts@;
        parts.push(groups[i].gid.clone());
        proof {
            assert(text::texts(parts@) =~= text::texts(before).push(groups@[i as int].gid@));
            assert(gids(groups@).take(i + 1) =~= gids(groups@).take(i as int).push(
                groups@[i as int].gid@,
            ));
        }
        i += 1;
    }
    assert(gids(groups@).take(n as int) =~= gids(groups@));
    let sorted = order::sort_texts(&parts);
    text::join(&sorted, ",")
}

fn number_text(n: Option<i64>) -> (r: String)
    ensures
        r@ == number_part(
            match n {
                Some(k) => Some(k as int),
                None => None,
            },
        ),
{
    match n {
        Some(k) => {
            let mut out = String::new();
            text::push_decimal(&mut out, k);
            assert(out@ =~= text::decimal(k as int));
            out
        },
        None => text::owned("skip"),
    }
}

fn put_under(heading: &str, part: &str, rest: &str) -> (r: String)
    ensures
        r@ == headed(heading@, part@, rest@),
{
    let mut out = text::owned(heading);
    out.append(part);
    out.append(rest);
    out
}

fn account_part(vac_banned: bool, game_banned: bool, country: &str) -> (r: String)
    ensures
        r@ == "\nbans="@ + truth(vac_banned) + ":"@ + truth(game_banned) + "\ncountry="@ + country@
            + "\n"@,
{
    let mut out = text::owned("\nbans=");
    out.append(truth_word(vac_banned));
    out.append(":");
    out.append(truth_word(game_banned));
    out.append("\ncountry=");
    out.append(country);
    out.append("\n");
    out
}

/// What a player's data looks like to the conditions. Only *fetched* classes
/// are included (a class that isn't fetched can't change in the DB either);
/// `None` means "not fetched this round" and has a distinct mark so a
/// needs change resets streaks once instead of comparing unlike shapes.
/// Playtimes are bucketed to hours so minute-level drift doesn't count as
/// churn, while real play sessions do.
pub fn data_text(
    games: Option<&[OwnedGame]>,
    game_count: Option<i64>,
    library_visible: Option<bool>,
    level: Option<i32>,
    groups: Option<&[SteamGroup]>,
    vac_banned: bool,
    game_banned: bool,
    country: &str,
) -> (r: String)
    ensures
        r@ == snapshot_text(
            snapshot(
                games,
                game_count,
                library_visible,
                level,
                groups,
                vac_banned,
                game_banned,
                country,
            ),
        ),
{
    let account = account_part(vac_banned, game_banned, country);
    let groups_word = match groups {
        Some(list) => ordered_groups(list),
        None => text::owned("skip"),
    };
    let from_groups = put_under("\ngroups=", groups_word.as_str(), account.as_str());
    let wide: Option<i64> = match level {
        Some(l) => Some(l as i64),
        None => None,
    };
    let from_level = put_under("\nlevel=", number_text(wide).as_str(), from_groups.as_str());
    let visible_word: &str = match library_visible {
        Some(v) => truth_word(v),
        None => "skip",
    };
    let from_visibility = put_under("\nlibvis=", visible_word, from_level.as_str());
    let from_count = put_under(
        "\ncount=",
        number_text(game_count).as_str(),
        from_visibility.as_str(),
    );
    let games_word = match games {
        Some(list) => ordered_games(list),
        None => text::owned("skip"),
    };
    put_under("v1\ngames=", games_word.as_str(), from_count.as_str())
}

/// Deterministic digest of the eval-relevant snapshot.
pub fn compute_data_hash(
    games: Option<&[OwnedGame]>,
    game_count: Option<i64>,
    library_visible: Option<bool>,
    level: Option<i32>,
    groups: Option<&[SteamGroup]>,
    vac_banned: bool,
    game_banned: bool,
    country: &str,
) -> (r: String)
    ensures
        r@ == digest::text_digest(
            snapshot_text(
                snapshot(
                    games,
                    game_count,
                    library_visible,
                    level,
                    groups,
                    vac_banned,
                    game_banned,
                    country,
                ),
            ),
        ),
{
    let input = data_text(
        games,
        game_count,
        library_visible,
        level,
        groups,
        vac_banned,
        game_banned,
        country,
    );
    digest::digest_text(input.as_str())
}

// ── What shows in the text, and what does not ──────────────────────────────

/// In which order Steam lists games does not show.
pub proof fn law_order_of_games_does_not_show(a: Seq<OwnedGame>, b: Seq<OwnedGame>)
    requires
        game_texts(a).to_multiset() == game_texts(b).to_multiset(),
    ensures
        games_part(Some(a)) == games_part(Some(b)),
{
    order::law_sorting_forgets_order(game_texts(a), game_texts(b));
}

/// In which order Steam lists groups does not show.
pub proof fn law_order_of_groups_does_not_show(a: Seq<Seq<char>>, b: Seq<Seq<char>>)
    requires
        a.to_multiset() == b.to_multiset(),
    ensures
        groups_part(Some(a)) == groups_part(Some(b)),
{
    order::law_sorting_forgets_order(a, b);
}

/// Minutes that make no full hour do not show: games with the same numbers and the same hours look
/// the same.
pub proof fn law_minutes_within_an_hour_do_not_show(a: Seq<OwnedGame>, b: Seq<OwnedGame>)
    requires
        a.len() == b.len(),
        forall|i: int|
            0 <= i < a.len() ==> {
                &&& (#[trigger] a[i]).appid == b[i].appid
                &&& hours(a[i].playtime_forever) == hours(b[i].playtime_forever)
                &&& hours(a[i].playtime_2weeks) == hours(b[i].playtime_2weeks)
            },
    ensures
        games_part(Some(a)) == games_part(Some(b)),
{
    assert(game_texts(a) =~= game_texts(b));
}

proof fn lemma_parts_can_be_told_apart(
    heading: Seq<char>,
    a: Seq<char>,
    b: Seq<char>,
    rest: Seq<char>,
)
    requires
        a != b,
    ensures
        headed(heading, a, rest) != headed(heading, b, rest),
{
    let x = headed(heading, a, rest);
    let y = headed(heading, b, rest);
    if x == y {
        assert(x.len() == heading.len() + a.len() + rest.len());
        assert(y.len() == heading.len() + b.len() + rest.len());
        assert(x.subrange(heading.len() as int, (heading.len() + a.len()) as int) =~= a);
        assert(y.subrange(heading.len() as int, (heading.len() + b.len()) as int) =~= b);
    }
}

proof fn lemma_rests_can_be_told_apart(
    heading: Seq<char>,
    part: Seq<char>,
    a: Seq<char>,
    b: Seq<char>,
)
    requires
        a != b,
    ensures
        headed(heading, part, a) != headed(heading, part, b),
{
    let x = headed(heading, part, a);
    let y = headed(heading, part, b);
    if x == y {
        let n = (heading.len() + part.len()) as int;
        assert(x.len() == n + a.len());
        assert(y.len() == n + b.len());
        assert(x.subrange(n, x.len() as int) =~= a);
        assert(y.subrange(n, y.len() as int) =~= b);
    }
}

proof fn lemma_joined_begins_with_the_first(parts: Seq<Seq<char>>, separator: Seq<char>)
    requires
        parts.len() > 0,
        parts[0].len() > 0,
    ensures
        text::joined(parts, separator).len() > 0,
        text::joined(parts, separator)[0] == parts[0][0],
    decreases parts.len(),
{
    if parts.len() > 1 {
        let rest = parts.drop_last();
        assert(rest[0] == parts[0]);
        lemma_joined_begins_with_the_first(rest, separator);
    }
}

proof fn lemma_decimal_begins(n: int)
    ensures
        text::decimal(n).len() > 0,
        text::decimal(n)[0] == '-' || text::is_digit(text::decimal(n)[0]),
{
    if n < 0 {
        assert(text::decimal(n)[0] == '-');
    } else {
        text::lemma_digits_are_digits(n as nat);
    }
}

proof fn lemma_fetched_games_are_no_mark(games: Seq<OwnedGame>)
    ensures
        games_part(Some(games)) != "skip"@,
{
    reveal_strlit("skip");
    let parts = game_texts(games);
    order::law_text_order_is_total();
    parts.lemma_sort_by_ensures(order::by_text());
    let sorted = order::in_order(parts);
    if games.len() == 0 {
        assert(parts =~= Seq::<Seq<char>>::empty());
        assert(sorted.len() == 0) by {
            assert(sorted.to_multiset().len() == parts.to_multiset().len());
            vstd::seq_lib::to_multiset_len(sorted);
            vstd::seq_lib::to_multiset_len(parts);
        }
        assert(games_part(Some(games)).len() == 0);
        assert("skip"@.len() == 4);
    } else {
        vstd::seq_lib::to_multiset_len(sorted);
        vstd::seq_lib::to_multiset_len(parts);
        assert(sorted.len() == parts.len());
        vstd::seq_lib::to_multiset_contains(sorted, sorted[0]);
        vstd::seq_lib::to_multiset_contains(parts, sorted[0]);
        assert(sorted.contains(sorted[0]));
        assert(parts.contains(sorted[0]));
        let i = choose|i: int| 0 <= i < parts.len() && parts[i] == sorted[0];
        lemma_decimal_begins(games[i].appid as int);
        assert(sorted[0][0] == text::decimal(games[i].appid as int)[0]);
        lemma_joined_begins_with_the_first(sorted, ","@);
        assert(games_part(Some(games))[0] == sorted[0][0]);
        assert("skip"@[0] == 's');
    }
}

/// Whether the games were fetched shows.
pub proof fn law_unfetched_games_show(s: Snapshot, games: Seq<OwnedGame>)
    requires
        s.games == Some(games),
    ensures
        snapshot_text(s) != snapshot_text(Snapshot { games: None, ..s }),
{
    lemma_fetched_games_are_no_mark(games);
    lemma_parts_can_be_told_apart(
        "v1\ngames="@,
        games_part(s.games),
        "skip"@,
        text_from_count(s),
    );
}

/// Whether the number of games was fetched shows.
pub proof fn law_unfetched_count_shows(s: Snapshot)
    requires
        s.game_count is Some,
    ensures
        snapshot_text(s) != snapshot_text(Snapshot { game_count: None, ..s }),
{
    reveal_strlit("skip");
    let t = Snapshot { game_count: None, ..s };
    lemma_decimal_begins(s.game_count->0);
    lemma_parts_can_be_told_apart(
        "\ncount="@,
        number_part(s.game_count),
        "skip"@,
        text_from_visibility(s),
    );
    lemma_rests_can_be_told_apart(
        "v1\ngames="@,
        games_part(s.games),
        text_from_count(s),
        text_from_count(t),
    );
}

/// Whether the visibility of the library was fetched shows, and so does the visibility itself.
pub proof fn law_visibility_shows(s: Snapshot, other: Option<bool>)
    requires
        s.library_visible != other,
    ensures
        snapshot_text(s) != snapshot_text(Snapshot { library_visible: other, ..s }),
{
    reveal_strlit("skip");
    reveal_strlit("true");
    reveal_strlit("false");
    let t = Snapshot { library_visible: other, ..s };
    assert(truth_part(s.library_visible) != truth_part(other)) by {
        assert(truth_part(s.library_visible)[0] != truth_part(other)[0]);
    }
    lemma_parts_can_be_told_apart(
        "\nlibvis="@,
        truth_part(s.library_visible),
        truth_part(other),
        text_from_level(s),
    );
    lemma_rests_can_be_told_apart(
        "\ncount="@,
        number_part(s.game_count),
        text_from_visibility(s),
        text_from_visibility(t),
    );
    lemma_rests_can_be_told_apart(
        "v1\ngames="@,
        games_part(s.games),
        text_from_count(s),
        text_from_count(t),
    );
}

/// Whether the level was fetched shows.
pub proof fn law_unfetched_level_shows(s: Snapshot)
    requires
        s.level is Some,
    ensures
        snapshot_text(s) != snapshot_text(Snapshot { level: None, ..s }),
{
    reveal_strlit("skip");
    let t = Snapshot { level: None, ..s };
    lemma_decimal_begins(s.level->0);
    lemma_parts_can_be_told_apart(
        "\nlevel="@,
        number_part(s.level),
        "skip"@,
        text_from_groups(s),
    );
    lemma_rests_can_be_told_apart(
        "\nlibvis="@,
        truth_part(s.library_visible),
        text_from_level(s),
        text_from_level(t),
    );
    lemma_rests_can_be_told_apart(
        "\ncount="@,
        number_part(s.game_count),
        text_from_visibility(s),
        text_from_visibility(t),
    );
    lemma_rests_can_be_told_apart(
        "v1\ngames="@,
        games_part(s.games),
        text_from_count(s),
        text_from_count(t),
    );
}

/// Whether the groups were fetched shows, unless their ids, put in a row, read like the mark of
/// what was not fetched.
pub proof fn law_unfetched_groups_show(s: Snapshot)
    requires
        s.groups is Some,
        groups_part(s.groups) != "skip"@,
    ensures
        snapshot_text(s) != snapshot_text(Snapshot { groups: None, ..s }),
{
    let t = Snapshot { groups: None, ..s };
    lemma_parts_can_be_told_apart(
        "\ngroups="@,
        groups_part(s.groups),
        "skip"@,
        account_text(s),
    );
    lemma_rests_can_be_told_apart(
        "\nlevel="@,
        number_part(s.level),
        text_from_groups(s),
        text_from_groups(t),
    );
    lemma_rests_can_be_told_apart(
        "\nlibvis="@,
        truth_part(s.library_visible),
        text_from_level(s),
        text_from_level(t),
    );
    lemma_rests_can_be_told_apart(
        "\ncount="@,
        number_part(s.game_count),
        text_from_visibility(s),
        text_from_visibility(t),
    );
    lemma_rests_can_be_told_apart(
        "v1\ngames="@,
        games_part(s.games),
        text_from_count(s),
        text_from_count(t),
    );
}

/// Is the text free of commas, and does it say anything?
spec fn is_item(t: Seq<char>) -> bool {
    t.len() > 0 && forall|i: int| 0 <= i < t.len() ==> #[trigger] t[i] != ','
}

spec fn are_items(parts: Seq<Seq<char>>) -> bool {
    forall|i: int| 0 <= i < parts.len() ==> is_item(#[trigger] parts[i])
}

proof fn lemma_items_in_a_row_can_be_told_apart(a: Seq<Seq<char>>, b: Seq<Seq<char>>)
    requires
        are_items(a),
        are_items(b),
        text::joined(a, ","@) == text::joined(b, ","@),
    ensures
        a == b,
    decreases a.len(),
{
    reveal_strlit(",");
    let row = text::joined(a, ","@);
    if a.len() == 0 {
        if b.len() > 0 {
            assert(is_item(b[0]));
            lemma_joined_begins_with_the_first(b, ","@);
        }
        assert(a =~= b);
    } else if b.len() == 0 {
        assert(is_item(a[0]));
        lemma_joined_begins_with_the_first(a, ","@);
    } else {
        let x = a.last();
        let y = b.last();
        assert(is_item(a[a.len() - 1]) && is_item(b[b.len() - 1]));
        let m = row.len() - x.len();
        let n = row.len() - y.len();
        assert(row.subrange(m, row.len() as int) =~= x);
        assert(row.subrange(n, row.len() as int) =~= y);
        if a.len() > 1 {
            assert(row[m - 1] == ',');
        }
        if b.len() > 1 {
            assert(row[n - 1] == ',');
        }
        if m < n {
            assert(b.len() > 1);
            assert(x[n - 1 - m] == row[n - 1]);
        }
        if n < m {
            assert(a.len() > 1);
            assert(y[m - 1 - n] == row[m - 1]);
        }
        assert(x == y);
        if a.len() == 1 || b.len() == 1 {
            assert(a.len() == 1 && b.len() == 1);
            assert(a =~= b);
        } else {
            let p = a.drop_last();
            let q = b.drop_last();
            assert(text::joined(p, ","@) =~= row.subrange(0, m - 1));
            assert(text::joined(q, ","@) =~= row.subrange(0, n - 1));
            assert forall|i: int| 0 <= i < p.len() implies is_item(#[trigger] p[i]) by {
                assert(p[i] == a[i]);
            }
            assert forall|i: int| 0 <= i < q.len() implies is_item(#[trigger] q[i]) by {
                assert(q[i] == b[i]);
            }
            lemma_items_in_a_row_can_be_told_apart(p, q);
            assert(a =~= p.push(x));
            assert(b =~= q.push(y));
        }
    }
}

proof fn lemma_decimal_is_item(n: int)
    ensures
        is_item(text::decimal(n)),
{
    let t = text::decimal(n);
    if n < 0 {
        text::lemma_digits_are_digits((-n) as nat);
        assert forall|i: int| 0 <= i < t.len() implies #[trigger] t[i] != ',' by {
            if i > 0 {
                assert(t[i] == text::digits((-n) as nat)[i - 1]);
            }
        }
    } else {
        text::lemma_digits_are_digits(n as nat);
    }
}

proof fn lemma_game_text_is_item(g: OwnedGame)
    ensures
        is_item(game_text(g)),
{
    reveal_strlit(":");
    lemma_decimal_is_item(g.appid as int);
    lemma_decimal_is_item(hours(g.playtime_forever));
    lemma_decimal_is_item(hours(g.playtime_2weeks));
    let a = text::decimal(g.appid as int);
    let b = text::decimal(hours(g.playtime_forever));
    let c = text::decimal(hours(g.playtime_2weeks));
    let t = game_text(g);
    assert forall|i: int| 0 <= i < t.len() implies #[trigger] t[i] != ',' by {
        if i < a.len() {
            assert(t[i] == a[i]);
        } else if i == a.len() {
        } else if i < a.len() + 1 + b.len() {
            assert(t[i] == b[i - a.len() - 1]);
        } else if i == a.len() + 1 + b.len() {
        } else {
            assert(t[i] == c[i - a.len() - b.len() - 2]);
        }
    }
}

/// A library with other games, or with other hours in a game, shows: the texts are equal only when
/// the games are, up to their order.
pub proof fn law_a_changed_library_shows(s: Snapshot, a: Seq<OwnedGame>, b: Seq<OwnedGame>)
    requires
        s.games == Some(a),
        game_texts(a).to_multiset() != game_texts(b).to_multiset(),
    ensures
        snapshot_text(s) != snapshot_text(Snapshot { games: Some(b), ..s }),
{
    let x = game_texts(a);
    let y = game_texts(b);
    order::law_text_order_is_total();
    x.lemma_sort_by_ensures(order::by_text());
    y.lemma_sort_by_ensures(order::by_text());
    let p = order::in_order(x);
    let q = order::in_order(y);
    assert forall|i: int| 0 <= i < p.len() implies is_item(#[trigger] p[i]) by {
        vstd::seq_lib::to_multiset_contains(p, p[i]);
        vstd::seq_lib::to_multiset_contains(x, p[i]);
        assert(p.contains(p[i]));
        let k = choose|k: int| 0 <= k < x.len() && x[k] == p[i];
        lemma_game_text_is_item(a[k]);
    }
    assert forall|i: int| 0 <= i < q.len() implies is_item(#[trigger] q[i]) by {
        vstd::seq_lib::to_multiset_contains(q, q[i]);
        vstd::seq_lib::to_multiset_contains(y, q[i]);
        assert(q.contains(q[i]));
        let k = choose|k: int| 0 <= k < y.len() && y[k] == q[i];
        lemma_game_text_is_item(b[k]);
    }
    if games_part(Some(a)) == games_part(Some(b)) {
        lemma_items_in_a_row_can_be_told_apart(p, q);
    }
    lemma_parts_can_be_told_apart(
        "v1\ngames="@,
        games_part(Some(a)),
        games_part(Some(b)),
        text_from_count(s),
    );
}

/// One more full hour in a game shows in the text of the game.
pub proof fn law_a_played_hour_shows(a: OwnedGame, b: OwnedGame)
    requires
        a.appid == b.appid,
        hours(a.playtime_2weeks) == hours(b.playtime_2weeks),
        hours(a.playtime_forever) != hours(b.playtime_forever),
    ensures
        game_text(a) != game_text(b),
{
    let x = hours(a.playtime_forever);
    let y = hours(b.playtime_forever);
    text::law_decimal_round_trip(x as i64);
    text::law_decimal_round_trip(y as i64);
    let head = text::decimal(a.appid as int) + ":"@;
    let tail = ":"@ + text::decimal(hours(a.playtime_2weeks));
    lemma_parts_can_be_told_apart(head, text::decimal(x), text::decimal(y), tail);
    assert(game_text(a) =~= headed(head, text::decimal(x), tail));
    assert(game_text(b) =~= headed(head, text::decimal(y), tail));
}

/// Two snapshots whose texts differ from the level on differ in all.
proof fn lemma_differs_from_level_on(s: Snapshot, t: Snapshot)
    requires
        s.games == t.games,
        s.game_count == t.game_count,
        s.library_visible == t.library_visible,
        text_from_level(s) != text_from_level(t),
    ensures
        snapshot_text(s) != snapshot_text(t),
{
    lemma_rests_can_be_told_apart(
        "\nlibvis="@,
        truth_part(s.library_visible),
        text_from_level(s),
        text_from_level(t),
    );
    lemma_rests_can_be_told_apart(
        "\ncount="@,
        number_part(s.game_count),
        text_from_visibility(s),
        text_from_visibility(t),
    );
    lemma_rests_can_be_told_apart(
        "v1\ngames="@,
        games_part(s.games),
        text_from_count(s),
        text_from_count(t),
    );
}

/// Two snapshots whose accounts differ differ in all.
proof fn lemma_differs_in_account(s: Snapshot, t: Snapshot)
    requires
        s.games == t.games,
        s.game_count == t.game_count,
        s.library_visible == t.library_visible,
        s.level == t.level,
        s.groups == t.groups,
        account_text(s) != account_text(t),
    ensures
        snapshot_text(s) != snapshot_text(t),
{
    lemma_rests_can_be_told_apart(
        "\ngroups="@,
        groups_part(s.groups),
        account_text(s),
        account_text(t),
    );
    lemma_rests_can_be_told_apart(
        "\nlevel="@,
        number_part(s.level),
        text_from_groups(s),
        text_from_groups(t),
    );
    lemma_differs_from_level_on(s, t);
}

/// Another level shows.
pub proof fn law_a_changed_level_shows(s: Snapshot, a: i64, b: i64)
    requires
        s.level == Some(a as int),
        a != b,
    ensures
        snapshot_text(s) != snapshot_text(Snapshot { level: Some(b as int), ..s }),
{
    let t = Snapshot { level: Some(b as int), ..s };
    text::law_decimal_round_trip(a);
    text::law_decimal_round_trip(b);
    lemma_parts_can_be_told_apart(
        "\nlevel="@,
        number_part(s.level),
        number_part(t.level),
        text_from_groups(s),
    );
    lemma_differs_from_level_on(s, t);
}

/// Another number of games shows.
pub proof fn law_a_changed_count_shows(s: Snapshot, a: i64, b: i64)
    requires
        s.game_count == Some(a as int),
        a != b,
    ensures
        snapshot_text(s) != snapshot_text(Snapshot { game_count: Some(b as int), ..s }),
{
    let t = Snapshot { game_count: Some(b as int), ..s };
    text::law_decimal_round_trip(a);
    text::law_decimal_round_trip(b);
    lemma_parts_can_be_told_apart(
        "\ncount="@,
        number_part(s.game_count),
        number_part(t.game_count),
        text_from_visibility(s),
    );
    lemma_rests_can_be_told_apart(
        "v1\ngames="@,
        games_part(s.games),
        text_from_count(s),
        text_from_count(t),
    );
}

/// A ban that comes or goes shows, whether it is a VAC ban or a game ban.
pub proof fn law_a_changed_ban_shows(s: Snapshot)
    ensures
        snapshot_text(s) != snapshot_text(Snapshot { vac_banned: !s.vac_banned, ..s }),
        snapshot_text(s) != snapshot_text(Snapshot { game_banned: !s.game_banned, ..s }),
{
    reveal_strlit("true");
    reveal_strlit("false");
    assert(truth(true).len() == 4 && truth(false).len() == 5);
    let v = Snapshot { vac_banned: !s.vac_banned, ..s };
    let g = Snapshot { game_banned: !s.game_banned, ..s };
    assert(account_text(s).len() != account_text(v).len());
    assert(account_text(s).len() != account_text(g).len());
    lemma_differs_in_account(s, v);
    lemma_differs_in_account(s, g);
}

/// Another country shows.
pub proof fn law_a_changed_country_shows(s: Snapshot, country: Seq<char>)
    requires
        s.country != country,
    ensures
        snapshot_text(s) != snapshot_text(Snapshot { country, ..s }),
{
    let t = Snapshot { country, ..s };
    let head = "\nbans="@ + truth(s.vac_banned) + ":"@ + truth(s.game_banned) + "\ncountry="@;
    lemma_parts_can_be_told_apart(head, s.country, country, "\n"@);
    lemma_differs_in_account(s, t);
}

/// Other groups show: the texts are equal only when the groups are, up to their order. Ids are not
/// empty and hold no comma.
pub proof fn law_changed_groups_show(s: Snapshot, a: Seq<Seq<char>>, b: Seq<Seq<char>>)
    requires
        s.groups == Some(a),
        a.to_multiset() != b.to_multiset(),
        forall|i: int| 0 <= i < a.len() ==> (#[trigger] a[i]).len() > 0 && !a[i].contains(','),
        forall|i: int| 0 <= i < b.len() ==> (#[trigger] b[i]).len() > 0 && !b[i].contains(','),
    ensures
        snapshot_text(s) != snapshot_text(Snapshot { groups: Some(b), ..s }),
{
    let t = Snapshot { groups: Some(b), ..s };
    order::law_text_order_is_total();
    a.lemma_sort_by_ensures(order::by_text());
    b.lemma_sort_by_ensures(order::by_text());
    let p = order::in_order(a);
    let q = order::in_order(b);
    assert forall|i: int| 0 <= i < p.len() implies is_item(#[trigger] p[i]) by {
        vstd::seq_lib::to_multiset_contains(p, p[i]);
        vstd::seq_lib::to_multiset_contains(a, p[i]);
        assert(p.contains(p[i]));
        let k = choose|k: int| 0 <= k < a.len() && a[k] == p[i];
        assert forall|j: int| 0 <= j < a[k].len() implies #[trigger] a[k][j] != ',' by {
            assert(a[k].contains(a[k][j]));
        }
    }
    assert forall|i: int| 0 <= i < q.len() implies is_item(#[trigger] q[i]) by {
        vstd::seq_lib::to_multiset_contains(q, q[i]);
        vstd::seq_lib::to_multiset_contains(b, q[i]);
        assert(q.contains(q[i]));
        let k = choose|k: int| 0 <= k < b.len() && b[k] == q[i];
        assert forall|j: int| 0 <= j < b[k].len() implies #[trigger] b[k][j] != ',' by {
            assert(b[k].contains(b[k][j]));
        }
    }
    if groups_part(Some(a)) == groups_part(Some(b)) {
        lemma_items_in_a_row_can_be_told_apart(p, q);
    }
    lemma_parts_can_be_told_apart(
        "\ngroups="@,
        groups_part(Some(a)),
        groups_part(Some(b)),
        account_text(s),
    );
    lemma_rests_can_be_told_apart(
        "\nlevel="@,
        number_part(s.level),
        text_from_groups(s),
        text_from_groups(t),
    );
    lemma_differs_from_level_on(s, t);
}

/// One more full hour in a game of late shows in the text of the game, and so does another game.
pub proof fn law_another_game_or_a_recent_hour_shows(a: OwnedGame, b: OwnedGame)
    requires
        hours(a.playtime_forever) == hours(b.playtime_forever),
    ensures
        a.appid == b.appid && hours(a.playtime_2weeks) != hours(b.playtime_2weeks) ==> game_text(a)
            != game_text(b),
        a.appid != b.appid && hours(a.playtime_2weeks) == hours(b.playtime_2weeks) ==> game_text(a)
            != game_text(b),
{
    let none = Seq::<char>::empty();
    let (x, y) = (hours(a.playtime_2weeks), hours(b.playtime_2weeks));
    text::law_decimal_round_trip(x as i64);
    text::law_decimal_round_trip(y as i64);
    text::law_decimal_round_trip(a.appid);
    text::law_decimal_round_trip(b.appid);
    let middle = ":"@ + text::decimal(hours(a.playtime_forever)) + ":"@;
    if a.appid == b.appid && x != y {
        let head = text::decimal(a.appid as int) + middle;
        lemma_parts_can_be_told_apart(head, text::decimal(x), text::decimal(y), none);
        assert(game_text(a) =~= headed(head, text::decimal(x), none));
        assert(game_text(b) =~= headed(head, text::decimal(y), none));
    }
    if a.appid != b.appid && x == y {
        let tail = middle + text::decimal(x);
        let (m, n) = (text::decimal(a.appid as int), text::decimal(b.appid as int));
        lemma_parts_can_be_told_apart(none, m, n, tail);
        assert(game_text(a) =~= headed(none, m, tail));
        assert(game_text(b) =~= headed(none, n, tail));
    }
}

/// Playtimes count in full hours of sixty minutes; a playtime that is not known counts as none.
pub proof fn law_hours_are_sixty_minutes(minutes: i64)
    ensures
        hours(None) == 0,
        minutes >= 0 ==> 60 * hours(Some(minutes)) <= minutes < 60 * (hours(Some(minutes)) + 1),
{
}

} // verus!
