//! Steam's answers as the documents in which they are cached.

use vstd::prelude::*;
use crate::json;
use crate::json::{Doc, Value};
use crate::models::condition;
use crate::services::condition_eval;
use crate::services::steam_api::{Achievement, OwnedGame, PlayerBan, PlayerSummary, SteamGroup};
use crate::tasks::data_hash;

verus! {

/// A text, or nothing.
pub open spec fn text_doc(t: Option<String>) -> Doc {
    match t {
        Some(s) => Doc::Text(s@),
        None => Doc::Null,
    }
}

/// A number, or nothing.
pub open spec fn number_doc(n: Option<i64>) -> Doc {
    match n {
        Some(k) => Doc::Int(k as int),
        None => Doc::Null,
    }
}

/// A small number, or nothing.
pub open spec fn small_doc(n: Option<i32>) -> Doc {
    match n {
        Some(k) => Doc::Int(k as int),
        None => Doc::Null,
    }
}

/// A game.
pub open spec fn game_doc(g: OwnedGame) -> Doc {
    Doc::Object(
        seq![
            ("appid"@, Doc::Int(g.appid as int)),
            ("name"@, text_doc(g.name)),
            ("playtime_forever"@, number_doc(g.playtime_forever)),
            ("playtime_2weeks"@, number_doc(g.playtime_2weeks)),
        ],
    )
}

/// A library.
pub open spec fn games_doc(games: Seq<OwnedGame>) -> Doc {
    Doc::Array(Seq::new(games.len(), |i: int| game_doc(games[i])))
}

/// A group.
pub open spec fn group_doc(g: SteamGroup) -> Doc {
    Doc::Object(seq![("gid"@, Doc::Text(g.gid@))])
}

/// Groups.
pub open spec fn groups_doc(groups: Seq<SteamGroup>) -> Doc {
    Doc::Array(Seq::new(groups.len(), |i: int| group_doc(groups[i])))
}

/// An achievement.
pub open spec fn achievement_doc(a: Achievement) -> Doc {
    Doc::Object(
        seq![
            ("apiname"@, Doc::Text(a.apiname@)),
            ("achieved"@, Doc::Int(a.achieved as int)),
            ("unlocktime"@, number_doc(a.unlocktime)),
        ],
    )
}

/// Achievements.
pub open spec fn achievements_doc(list: Seq<Achievement>) -> Doc {
    Doc::Array(Seq::new(list.len(), |i: int| achievement_doc(list[i])))
}

/// A profile.
pub open spec fn profile_doc(p: PlayerSummary) -> Doc {
    Doc::Object(
        seq![
            ("steamid"@, Doc::Text(p.steamid@)),
            ("personaname"@, text_doc(p.personaname)),
            ("profileurl"@, text_doc(p.profileurl)),
            ("avatar"@, text_doc(p.avatar)),
            ("avatarmedium"@, text_doc(p.avatarmedium)),
            ("timecreated"@, number_doc(p.timecreated)),
            ("lastlogoff"@, number_doc(p.lastlogoff)),
            ("communityvisibilitystate"@, small_doc(p.communityvisibilitystate)),
            ("personastate"@, small_doc(p.personastate)),
            ("loccountrycode"@, text_doc(p.loccountrycode)),
        ],
    )
}

/// Bans.
pub open spec fn ban_doc(b: PlayerBan) -> Doc {
    Doc::Object(
        seq![
            ("SteamId"@, Doc::Text(b.steam_id@)),
            ("VACBanned"@, Doc::Bool(b.vac_banned)),
            ("NumberOfVACBans"@, Doc::Int(b.number_of_vac_bans as int)),
            ("DaysSinceLastBan"@, Doc::Int(b.days_since_last_ban as int)),
            ("NumberOfGameBans"@, Doc::Int(b.number_of_game_bans as int)),
            ("CommunityBanned"@, Doc::Bool(b.community_banned)),
            ("EconomyBan"@, Doc::Text(b.economy_ban@)),
        ],
    )
}

fn text_value(t: &Option<String>) -> (r: Value)
    ensures
        r@ == text_doc(*t),
{
    match t {
        Some(s) => json::string(s.as_str()),
        None => Value::Null,
    }
}

fn number_value(n: Option<i64>) -> (r: Value)
    ensures
        r@ == number_doc(n),
{
    match n {
        Some(k) => Value::Int(k),
        None => Value::Null,
    }
}

fn small_value(n: Option<i32>) -> (r: Value)
    ensures
        r@ == small_doc(n),
{
    match n {
        Some(k) => Value::Int(k as i64),
        None => Value::Null,
    }
}

fn game_value(g: &OwnedGame) -> (r: Value)
    ensures
        r@ == game_doc(*g),
{
    let entries = vec![
        json::entry("appid", Value::Int(g.appid)),
        json::entry("name", text_value(&g.name)),
        json::entry("playtime_forever", number_value(g.playtime_forever)),
        json::entry("playtime_2weeks", number_value(g.playtime_2weeks)),
    ];
    assert(json::doc_entries(entries@) =~= game_doc(*g)->Object_0);
    json::object(entries)
}

/// The document in which a library is cached.
pub fn games_to_json(games: &[OwnedGame]) -> (r: Value)
    ensures
        r@ == games_doc(games@),
{
    let mut items: Vec<Value> = Vec::new();
    let n: usize = games.len();
    let ghost all = games_doc(games@)->Array_0;
    let mut i: usize = 0;
    while i < n
        invariant
            i <= n == games@.len(),
            all == games_doc(games@)->Array_0,
            json::docs(items@) == all.take(i as int),
        decreases n - i,
    {
        let ghost before = items@;
        items.push(game_value(&games[i]));
        proof {
            assert(json::docs(items@) =~= json::docs(before).push(game_doc(games@[i as int])));
            assert(all.take(i + 1) =~= all.take(i as int).push(all[i as int]));
        }
        i += 1;
    }
    assert(all.take(n as int) =~= all);
    json::array(items)
}

/// The document in which groups are cached.
pub fn groups_to_json(groups: &[SteamGroup]) -> (r: Value)
    ensures
        r@ == groups_doc(groups@),
{
    let mut items: Vec<Value> = Vec::new();
    let n: usize = groups.len();
    let ghost all = groups_doc(groups@)->Array_0;
    let mut i: usize = 0;
    while i < n
        invariant
            i <= n == groups@.len(),
            all == groups_doc(groups@)->Array_0,
            json::docs(items@) == all.take(i as int),
        decreases n - i,
    {
        let ghost before = items@;
        let entries = vec![json::entry("gid", json::string(groups[i].gid.as_str()))];
        assert(json::doc_entries(entries@) =~= group_doc(groups@[i as int])->Object_0);
        items.push(json::object(entries));
        proof {
            assert(json::docs(items@) =~= json::docs(before).push(group_doc(groups@[i as int])));
            assert(all.take(i + 1) =~= all.take(i as int).push(all[i as int]));
        }
        i += 1;
    }
    assert(all.take(n as int) =~= all);
    json::array(items)
}

/// The document in which achievements are cached.
pub fn achievements_to_json(list: &[Achievement]) -> (r: Value)
    ensures
        r@ == achievements_doc(list@),
{
    let mut items: Vec<Value> = Vec::new();
    let n: usize = list.len();
    let ghost all = achievements_doc(list@)->Array_0;
    let mut i: usize = 0;
    while i < n
        invariant
            i <= n == list@.len(),
            all == achievements_doc(list@)->Array_0,
            json::docs(items@) == all.take(i as int),
        decreases n - i,
    {
        let ghost before = items@;
        let a = &list[i];
        let entries = vec![
            json::entry("apiname", json::string(a.apiname.as_str())),
            json::entry("achieved", Value::Int(a.achieved as i64)),
            json::entry("unlocktime", number_value(a.unlocktime)),
        ];
        assert(json::doc_entries(entries@) =~= achievement_doc(list@[i as int])->Object_0);
        items.push(json::object(entries));
        proof {
            assert(json::docs(items@) =~= json::docs(before).push(
                achievement_doc(list@[i as int]),
            ));
            assert(all.take(i + 1) =~= all.take(i as int).push(all[i as int]));
        }
        i += 1;
    }
    assert(all.take(n as int) =~= all);
    json::array(items)
}

/// The document in which a profile is cached.
pub fn profile_to_json(p: &PlayerSummary) -> (r: Value)
    ensures
        r@ == profile_doc(*p),
{
    let entries = vec![
        json::entry("steamid", json::string(p.steamid.as_str())),
        json::entry("personaname", text_value(&p.personaname)),
        json::entry("profileurl", text_value(&p.profileurl)),
        json::entry("avatar", text_value(&p.avatar)),
        json::entry("avatarmedium", text_value(&p.avatarmedium)),
        json::entry("timecreated", number_value(p.timecreated)),
        json::entry("lastlogoff", number_value(p.lastlogoff)),
        json::entry("communityvisibilitystate", small_value(p.communityvisibilitystate)),
        json::entry("personastate", small_value(p.personastate)),
        json::entry("loccountrycode", text_value(&p.loccountrycode)),
    ];
    assert(json::doc_entries(entries@) =~= profile_doc(*p)->Object_0);
    json::object(entries)
}

/// The document in which bans are cached.
pub fn ban_to_json(b: &PlayerBan) -> (r: Value)
    ensures
        r@ == ban_doc(*b),
{
    let entries = vec![
        json::entry("SteamId", json::string(b.steam_id.as_str())),
        json::entry("VACBanned", Value::Bool(b.vac_banned)),
        json::entry("NumberOfVACBans", Value::Int(b.number_of_vac_bans as i64)),
        json::entry("DaysSinceLastBan", Value::Int(b.days_since_last_ban as i64)),
        json::entry("NumberOfGameBans", Value::Int(b.number_of_game_bans as i64)),
        json::entry("CommunityBanned", Value::Bool(b.community_banned)),
        json::entry("EconomyBan", json::string(b.economy_ban.as_str())),
    ];
    assert(json::doc_entries(entries@) =~= ban_doc(*b)->Object_0);
    json::object(entries)
}

// ── What the conditions read from the cache ────────────────────────────────

proof fn lemma_game_members(g: OwnedGame)
    ensures
        game_doc(g).int_member("appid"@) == Some(g.appid as int),
        game_doc(g).int_member("playtime_forever"@) == (match g.playtime_forever {
            Some(n) => Some(n as int),
            None => None::<int>,
        }),
        game_doc(g).int_member("playtime_2weeks"@) == (match g.playtime_2weeks {
            Some(n) => Some(n as int),
            None => None::<int>,
        }),
{
    reveal_strlit("appid");
    reveal_strlit("name");
    reveal_strlit("playtime_forever");
    reveal_strlit("playtime_2weeks");
    let e = game_doc(g)->Object_0;
    let e3 = e.drop_last();
    let e2 = e3.drop_last();
    let e1 = e2.drop_last();
    assert(e3.last() == e[2] && e2.last() == e[1] && e1.last() == e[0]);
    assert("appid"@.len() == 5 && "name"@.len() == 4 && "playtime_forever"@.len() == 16
        && "playtime_2weeks"@.len() == 15);
    reveal_with_fuel(json::entry_of, 5);
}

/// A game is found in the cached library exactly when Steam listed it.
pub proof fn law_cached_library_shows_the_games(games: Seq<OwnedGame>, app: int)
    ensures
        condition_eval::in_library(games_doc(games), app) <==> exists|i: int|
            0 <= i < games.len() && (#[trigger] games[i]).appid == app,
{
    let items = games_doc(games).items();
    assert forall|i: int| 0 <= i < games.len() implies condition_eval::is_game(
        #[trigger] items[i],
        app,
    ) == (games[i].appid == app) by {
        lemma_game_members(games[i]);
    }
    if condition_eval::in_library(games_doc(games), app) {
        let i = choose|i: int|
            0 <= i < items.len() && condition_eval::is_game(#[trigger] items[i], app);
        assert(games[i].appid == app);
    }
    if exists|i: int| 0 <= i < games.len() && (#[trigger] games[i]).appid == app {
        let i = choose|i: int| 0 <= i < games.len() && (#[trigger] games[i]).appid == app;
        assert(condition_eval::is_game(items[i], app));
    }
}

/// The hours that conditions read from the cached library are those of the first game with the
/// number that Steam listed.
pub proof fn law_cached_library_shows_the_hours(games: Seq<OwnedGame>, i: int)
    requires
        0 <= i < games.len(),
        forall|k: int| 0 <= k < i ==> (#[trigger] games[k]).appid != games[i].appid,
    ensures
        condition_eval::hours_played(
            games_doc(games),
            games[i].appid as int,
            "playtime_forever"@,
        ) == data_hash::hours(games[i].playtime_forever),
        condition_eval::hours_played(games_doc(games), games[i].appid as int, "playtime_2weeks"@)
            == data_hash::hours(games[i].playtime_2weeks),
{
    let items = games_doc(games).items();
    let app = games[i].appid as int;
    assert forall|k: int| 0 <= k < i implies !condition_eval::is_game(#[trigger] items[k], app) by {
        lemma_game_members(games[k]);
    }
    lemma_game_members(games[i]);
    assert(condition_eval::is_game(items[i], app));
    condition_eval::lemma_first_game(items, app, i);
}

/// A group is found among the cached groups exactly when Steam listed it.
pub proof fn law_cached_groups_show_the_groups(groups: Seq<SteamGroup>, gid: Seq<char>)
    ensures
        condition_eval::in_groups(groups_doc(groups), gid) <==> exists|i: int|
            0 <= i < groups.len() && (#[trigger] groups[i]).gid@ == gid,
{
    let items = groups_doc(groups).items();
    assert forall|i: int| 0 <= i < groups.len() implies (#[trigger] items[i]).text_member("gid"@)
        == Some(groups[i].gid@) by {
        let e = group_doc(groups[i])->Object_0;
        assert(e.last() == e[0]);
    }
    if condition_eval::in_groups(groups_doc(groups), gid) {
        let i = choose|i: int|
            0 <= i < items.len() && (#[trigger] items[i]).text_member("gid"@) == Some(gid);
        assert(groups[i].gid@ == gid);
    }
    if exists|i: int| 0 <= i < groups.len() && (#[trigger] groups[i]).gid@ == gid {
        let i = choose|i: int| 0 <= i < groups.len() && (#[trigger] groups[i]).gid@ == gid;
        assert(items[i].text_member("gid"@) == Some(gid));
    }
}

/// An achievement is found unlocked in the cache exactly when Steam listed it as achieved.
pub proof fn law_cached_achievements_show_what_is_unlocked(
    list: Seq<Achievement>,
    name: Seq<char>,
)
    ensures
        condition_eval::has_unlocked(achievements_doc(list), name) <==> exists|i: int|
            0 <= i < list.len() && (#[trigger] list[i]).apiname@ == name && list[i].achieved == 1,
{
    let items = achievements_doc(list).items();
    assert forall|i: int| 0 <= i < list.len() implies condition_eval::is_unlocked(
        #[trigger] items[i],
        name,
    ) == (list[i].apiname@ == name && list[i].achieved == 1) by {
        reveal_strlit("apiname");
        reveal_strlit("achieved");
        reveal_strlit("unlocktime");
        let e = achievement_doc(list[i])->Object_0;
        let e2 = e.drop_last();
        let e1 = e2.drop_last();
        assert(e2.last() == e[1] && e1.last() == e[0]);
        assert("apiname"@.len() == 7 && "achieved"@.len() == 8 && "unlocktime"@.len() == 10);
        reveal_with_fuel(json::entry_of, 4);
    }
    if condition_eval::has_unlocked(achievements_doc(list), name) {
        let i = choose|i: int|
            0 <= i < items.len() && condition_eval::is_unlocked(#[trigger] items[i], name);
        assert(list[i].apiname@ == name);
    }
    if exists|i: int|
        0 <= i < list.len() && (#[trigger] list[i]).apiname@ == name && list[i].achieved == 1 {
        let i = choose|i: int|
            0 <= i < list.len() && (#[trigger] list[i]).apiname@ == name && list[i].achieved == 1;
        assert(condition_eval::is_unlocked(items[i], name));
    }
}

/// The cached profile says what Steam said of the player; what Steam left out is null.
pub proof fn law_a_cached_profile_says_what_steam_said(p: PlayerSummary)
    ensures
        ({
            let d = profile_doc(p);
            &&& d.text_member("steamid"@) == Some(p.steamid@)
            &&& d.text_member("personaname"@) == condition::text_of(p.personaname)
            &&& d.text_member("profileurl"@) == condition::text_of(p.profileurl)
            &&& d.text_member("avatar"@) == condition::text_of(p.avatar)
            &&& d.text_member("avatarmedium"@) == condition::text_of(p.avatarmedium)
            &&& d.text_member("loccountrycode"@) == condition::text_of(p.loccountrycode)
            &&& p.timecreated matches Some(n) ==> d.int_member("timecreated"@) == Some(n as int)
            &&& p.timecreated is None ==> d.member("timecreated"@) == Some(Doc::Null)
            &&& p.lastlogoff matches Some(n) ==> d.int_member("lastlogoff"@) == Some(n as int)
            &&& p.lastlogoff is None ==> d.member("lastlogoff"@) == Some(Doc::Null)
            &&& p.personastate matches Some(n) ==> d.int_member("personastate"@) == Some(n as int)
            &&& p.communityvisibilitystate matches Some(n) ==> d.int_member(
                "communityvisibilitystate"@,
            ) == Some(n as int)
        }),
{
    reveal_strlit("steamid");
    reveal_strlit("personaname");
    reveal_strlit("profileurl");
    reveal_strlit("avatar");
    reveal_strlit("avatarmedium");
    reveal_strlit("timecreated");
    reveal_strlit("lastlogoff");
    reveal_strlit("communityvisibilitystate");
    reveal_strlit("personastate");
    reveal_strlit("loccountrycode");
    let e = profile_doc(p)->Object_0;
    assert("steamid"@.len() == 7 && "personaname"@.len() == 11 && "profileurl"@.len() == 10
        && "avatar"@.len() == 6 && "avatarmedium"@.len() == 12 && "timecreated"@.len() == 11
        && "lastlogoff"@.len() == 10 && "communityvisibilitystate"@.len() == 24
        && "personastate"@.len() == 12 && "loccountrycode"@.len() == 14);
    assert("personaname"@[0] != "timecreated"@[0]);
    assert("profileurl"@[0] != "lastlogoff"@[0]);
    assert("avatarmedium"@[0] != "personastate"@[0]);
    json::lemma_entry_of_last(e, "steamid"@, 0);
    json::lemma_entry_of_last(e, "personaname"@, 1);
    json::lemma_entry_of_last(e, "profileurl"@, 2);
    json::lemma_entry_of_last(e, "avatar"@, 3);
    json::lemma_entry_of_last(e, "avatarmedium"@, 4);
    json::lemma_entry_of_last(e, "timecreated"@, 5);
    json::lemma_entry_of_last(e, "lastlogoff"@, 6);
    json::lemma_entry_of_last(e, "communityvisibilitystate"@, 7);
    json::lemma_entry_of_last(e, "personastate"@, 8);
    json::lemma_entry_of_last(e, "loccountrycode"@, 9);
}

/// The cached bans are those that Steam told of, each under its own name.
pub proof fn law_cached_bans_say_what_steam_said(b: PlayerBan)
    ensures
        ({
            let d = ban_doc(b);
            &&& d.text_member("SteamId"@) == Some(b.steam_id@)
            &&& d.bool_member("VACBanned"@) == Some(b.vac_banned)
            &&& d.int_member("NumberOfVACBans"@) == Some(b.number_of_vac_bans as int)
            &&& d.int_member("DaysSinceLastBan"@) == Some(b.days_since_last_ban as int)
            &&& d.int_member("NumberOfGameBans"@) == Some(b.number_of_game_bans as int)
            &&& d.bool_member("CommunityBanned"@) == Some(b.community_banned)
            &&& d.text_member("EconomyBan"@) == Some(b.economy_ban@)
        }),
{
    reveal_strlit("SteamId");
    reveal_strlit("VACBanned");
    reveal_strlit("NumberOfVACBans");
    reveal_strlit("DaysSinceLastBan");
    reveal_strlit("NumberOfGameBans");
    reveal_strlit("CommunityBanned");
    reveal_strlit("EconomyBan");
    let e = ban_doc(b)->Object_0;
    assert("SteamId"@.len() == 7 && "VACBanned"@.len() == 9 && "NumberOfVACBans"@.len() == 15
        && "DaysSinceLastBan"@.len() == 16 && "NumberOfGameBans"@.len() == 16
        && "CommunityBanned"@.len() == 15 && "EconomyBan"@.len() == 10);
    assert("NumberOfVACBans"@[0] != "CommunityBanned"@[0]);
    assert("DaysSinceLastBan"@[0] != "NumberOfGameBans"@[0]);
    json::lemma_entry_of_last(e, "SteamId"@, 0);
    json::lemma_entry_of_last(e, "VACBanned"@, 1);
    json::lemma_entry_of_last(e, "NumberOfVACBans"@, 2);
    json::lemma_entry_of_last(e, "DaysSinceLastBan"@, 3);
    json::lemma_entry_of_last(e, "NumberOfGameBans"@, 4);
    json::lemma_entry_of_last(e, "CommunityBanned"@, 5);
    json::lemma_entry_of_last(e, "EconomyBan"@, 6);
}

} // verus!
