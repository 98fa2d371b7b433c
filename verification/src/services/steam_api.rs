//! Steam Web API requests and replies.
//!
//! Every request passes through a quota governor first. Requests are tagged with a class:
//! `Interactive` for something a user is actively waiting on (link-time lookups, a fresh link's
//! first refresh), `Background` for routine re-checks, which are paced smoothly across the
//! quota-day. On budget exhaustion or a Steam 429 the outcome is `AppError::QuotaExhausted`, so
//! that workers can requeue rows instead of erroring them into failure backoff.

use vstd::prelude::*;
use crate::error::{AppError, Failure};
use crate::services::quota;
use crate::services::quota::{Class, Outcome};
use crate::text;

verus! {

/// Max Steam IDs per GetPlayerSummaries / GetPlayerBans request.
pub const SUMMARY_BATCH_MAX: usize = 100;

// ── Replies ────────────────────────────────────────────────────────────────

/// A player's profile.
#[derive(Debug, PartialEq)]
pub struct PlayerSummary {
    pub steamid: String,
    pub personaname: Option<String>,
    pub profileurl: Option<String>,
    pub avatar: Option<String>,
    pub avatarmedium: Option<String>,
    pub timecreated: Option<i64>,
    pub lastlogoff: Option<i64>,
    pub communityvisibilitystate: Option<i32>,
    pub personastate: Option<i32>,
    pub loccountrycode: Option<String>,
}

/// A player's bans.
#[derive(Debug, PartialEq)]
pub struct PlayerBan {
    pub steam_id: String,
    pub vac_banned: bool,
    pub number_of_vac_bans: i32,
    pub days_since_last_ban: i32,
    pub number_of_game_bans: i32,
    pub community_banned: bool,
    pub economy_ban: String,
}

/// A game in a player's library.
#[derive(Debug, PartialEq)]
pub struct OwnedGame {
    pub appid: i64,
    pub name: Option<String>,
    pub playtime_forever: Option<i64>,
    pub playtime_2weeks: Option<i64>,
}

/// A player's library.
#[derive(Debug, PartialEq)]
pub struct OwnedGamesResult {
    pub games: Vec<OwnedGame>,
    pub game_count: i64,
    /// False when Steam omitted the `games` key entirely — the user's
    /// "game details" privacy setting is hidden. A public-but-empty
    /// library still returns `games: []`.
    pub library_visible: bool,
}

/// A publisher's answer on who owns an app.
#[derive(Debug, PartialEq)]
pub struct AppOwnership {
    pub owns_app: bool,
    /// False for temporary licenses (free weekends, timed trials).
    pub permanent: bool,
    /// The account that holds the license — differs from the checked
    /// steam_id when the game is borrowed via Family Sharing.
    pub owner_steam_id: String,
}

/// An achievement in a game.
#[derive(Debug, PartialEq)]
pub struct Achievement {
    pub apiname: String,
    pub achieved: i32,
    pub unlocktime: Option<i64>,
}

/// A group of which a player is a member.
#[derive(Debug, PartialEq)]
pub struct SteamGroup {
    pub gid: String,
}

// ── Requests ───────────────────────────────────────────────────────────────

/// A call to make: where to, and from which pool it is paid.
#[derive(Debug, PartialEq)]
pub struct SteamRequest {
    pub url: String,
    pub class: Class,
}

/// The requests that are made with the plugin's Web API key.
pub struct SteamApiClient {
    pub api_key: String,
}

/// The address of a method with a key and a player.
pub open spec fn player_url(method: Seq<char>, key: Seq<char>, steam_id: Seq<char>) -> Seq<char> {
    "https://api.steampowered.com/"@ + method + "/?key="@ + key + "&steamid="@ + steam_id
}

/// The address of a method with a key and a list of players.
pub open spec fn players_url(
    method: Seq<char>,
    key: Seq<char>,
    steam_ids: Seq<Seq<char>>,
) -> Seq<char> {
    "https://api.steampowered.com/"@ + method + "/?key="@ + key + "&steamids="@ + text::joined(
        steam_ids,
        ","@,
    )
}

/// The address of the publisher's ownership check.
pub open spec fn ownership_url(
    publisher_key: Seq<char>,
    steam_id: Seq<char>,
    app_id: Seq<char>,
) -> Seq<char> {
    "https://partner.steam-api.com/ISteamUser/CheckAppOwnership/v2/?key="@ + publisher_key
        + "&steamid="@ + steam_id + "&appid="@ + app_id
}

fn build_player_url(method: &str, key: &str, steam_id: &str) -> (r: String)
    ensures
        r@ == player_url(method@, key@, steam_id@),
{
    let mut url = text::owned("https://api.steampowered.com/");
    url.append(method);
    url.append("/?key=");
    url.append(key);
    url.append("&steamid=");
    url.append(steam_id);
    url
}

fn build_players_url(method: &str, key: &str, steam_ids: &Vec<String>) -> (r: String)
    ensures
        r@ == players_url(method@, key@, text::texts(steam_ids@)),
{
    let mut url = text::owned("https://api.steampowered.com/");
    url.append(method);
    url.append("/?key=");
    url.append(key);
    url.append("&steamids=");
    url.append(text::join(steam_ids, ",").as_str());
    url
}

impl SteamApiClient {
    /// The requests that are made with this key.
    pub fn new(api_key: &str) -> (r: SteamApiClient)
        ensures
            r.api_key@ == api_key@,
    {
        SteamApiClient { api_key: text::owned(api_key) }
    }

    /// Batch up to `SUMMARY_BATCH_MAX` steam IDs — one quota unit per call. Without ids there is
    /// nothing to ask.
    pub fn get_player_summaries(&self, steam_ids: &Vec<String>, class: Class) -> (r: Option<
        SteamRequest,
    >)
        ensures
            match r {
                None => steam_ids@.len() == 0,
                Some(q) => steam_ids@.len() > 0 && q.class == class && q.url@ == players_url(
                    "ISteamUser/GetPlayerSummaries/v2"@,
                    self.api_key@,
                    text::texts(steam_ids@),
                ),
            },
    {
        if steam_ids.len() == 0 {
            return None;
        }
        let url = build_players_url(
            "ISteamUser/GetPlayerSummaries/v2",
            self.api_key.as_str(),
            steam_ids,
        );
        Some(SteamRequest { url, class })
    }

    /// Batch up to `SUMMARY_BATCH_MAX` steam IDs — one quota unit per call. Without ids there is
    /// nothing to ask.
    pub fn get_player_bans(&self, steam_ids: &Vec<String>, class: Class) -> (r: Option<
        SteamRequest,
    >)
        ensures
            match r {
                None => steam_ids@.len() == 0,
                Some(q) => steam_ids@.len() > 0 && q.class == class && q.url@ == players_url(
                    "ISteamUser/GetPlayerBans/v1"@,
                    self.api_key@,
                    text::texts(steam_ids@),
                ),
            },
    {
        if steam_ids.len() == 0 {
            return None;
        }
        let url = build_players_url(
            "ISteamUser/GetPlayerBans/v1",
            self.api_key.as_str(),
            steam_ids,
        );
        Some(SteamRequest { url, class })
    }

    /// Asks for a player's level.
    pub fn get_steam_level(&self, steam_id: &str, class: Class) -> (r: SteamRequest)
        ensures
            r.class == class,
            r.url@ == player_url("IPlayerService/GetSteamLevel/v1"@, self.api_key@, steam_id@),
    {
        let url = build_player_url(
            "IPlayerService/GetSteamLevel/v1",
            self.api_key.as_str(),
            steam_id,
        );
        SteamRequest { url, class }
    }

    /// Asks for a player's library.
    pub fn get_owned_games(&self, steam_id: &str, class: Class) -> (r: SteamRequest)
        ensures
            r.class == class,
            r.url@ == player_url("IPlayerService/GetOwnedGames/v1"@, self.api_key@, steam_id@)
                + "&include_appinfo=1&include_played_free_games=1"@,
    {
        let mut url = build_player_url(
            "IPlayerService/GetOwnedGames/v1",
            self.api_key.as_str(),
            steam_id,
        );
        url.append("&include_appinfo=1&include_played_free_games=1");
        SteamRequest { url, class }
    }

    /// Asks for a player's achievements in an app.
    pub fn get_player_achievements(&self, steam_id: &str, app_id: &str, class: Class) -> (r:
        SteamRequest)
        ensures
            r.class == class,
            r.url@ == player_url(
                "ISteamUserStats/GetPlayerAchievements/v1"@,
                self.api_key@,
                steam_id@,
            ) + "&appid="@ + app_id@,
    {
        let mut url = build_player_url(
            "ISteamUserStats/GetPlayerAchievements/v1",
            self.api_key.as_str(),
            steam_id,
        );
        url.append("&appid=");
        url.append(app_id);
        SteamRequest { url, class }
    }

    /// Asks for a player's groups.
    pub fn get_user_group_list(&self, steam_id: &str, class: Class) -> (r: SteamRequest)
        ensures
            r.class == class,
            r.url@ == player_url("ISteamUser/GetUserGroupList/v1"@, self.api_key@, steam_id@),
    {
        let url = build_player_url(
            "ISteamUser/GetUserGroupList/v1",
            self.api_key.as_str(),
            steam_id,
        );
        SteamRequest { url, class }
    }

    /// Steamworks partner-API ownership check. Requires a publisher key
    /// issued for the app; authoritative even when the user's library is
    /// private. Draws from the per-publisher-key governor, since
    /// each publisher key has its own daily allowance independent of ours.
    pub fn check_app_ownership(&self, steam_id: &str, app_id: &str, publisher_key: &str) -> (r:
        SteamRequest)
        ensures
            r.class is Background,
            r.url@ == ownership_url(publisher_key@, steam_id@, app_id@),
    {
        let mut url = text::owned(
            "https://partner.steam-api.com/ISteamUser/CheckAppOwnership/v2/?key=",
        );
        url.append(publisher_key);
        url.append("&steamid=");
        url.append(steam_id);
        url.append("&appid=");
        url.append(app_id);
        SteamRequest { url, class: Class::Background }
    }
}

// ── Before and after a call ────────────────────────────────────────────────

/// May the call be made? Without budget it fails, with the whole seconds after which it may be
/// tried again, at least one.
pub fn before_call(outcome: &Outcome) -> (r: Result<(), AppError>)
    ensures
        match *outcome {
            Outcome::Granted => r is Ok,
            Outcome::Exhausted { retry_after } => r matches Err(e) && e@
                == Failure::QuotaExhausted(
                if retry_after.secs > 1 {
                    retry_after.secs as int
                } else {
                    1
                },
            ),
        },
{
    match outcome {
        Outcome::Granted => Ok(()),
        Outcome::Exhausted { retry_after } => {
            let secs: u64 = if retry_after.secs > 1 {
                retry_after.secs
            } else {
                1
            };
            Err(AppError::QuotaExhausted { retry_after_secs: secs })
        },
    }
}

/// Seconds from a 429's Retry-After header, if parseable.
pub open spec fn retry_seconds(header: Option<Seq<char>>) -> Option<int> {
    match header {
        Some(h) => text::unsigned_number(text::trimmed(h), u64::MAX as int),
        None => None,
    }
}

/// Seconds from a 429's Retry-After header, if parseable.
pub fn retry_after_secs(header: Option<&str>) -> (r: Option<u64>)
    ensures
        match r {
            Some(n) => header is Some && retry_seconds(Some(header->0@)) == Some(n as int),
            None => header is None || retry_seconds(Some(header->0@)) is None,
        },
{
    match header {
        Some(h) => text::parse_u64(text::trim(h).as_str()),
        None => None,
    }
}

/// For how many seconds Steam asks to be left alone: only with a 429, and then for as long as the
/// header says or for the default pause.
pub fn throttle_secs(status: u16, retry_after: Option<&str>) -> (r: Option<u64>)
    ensures
        if status != 429 {
            r is None
        } else {
            let asked = match retry_after {
                Some(h) => retry_seconds(Some(h@)),
                None => None,
            };
            r is Some && r->0 == (match asked {
                Some(n) => n,
                None => quota::DEFAULT_THROTTLE_SECS as int,
            })
        },
        status == 429 && retry_after is None ==> r == Some(300u64),
{
    if status != 429 {
        return None;
    }
    match retry_after_secs(retry_after) {
        Some(n) => Some(n),
        None => Some(quota::DEFAULT_THROTTLE_SECS),
    }
}

/// Has the call gone through? When Steam asks to be left alone it has not, and the failure says for
/// how long: as long as all calls with the key are paused.
pub fn after_call(status: u16, retry_after: Option<&str>) -> (r: Result<(), AppError>)
    ensures
        if status != 429 {
            r is Ok
        } else {
            let asked = match retry_after {
                Some(h) => retry_seconds(Some(h@)),
                None => None,
            };
            r matches Err(e) && e@ == Failure::QuotaExhausted(
                match asked {
                    Some(n) => n,
                    None => quota::DEFAULT_THROTTLE_SECS as int,
                },
            )
        },
{
    match throttle_secs(status, retry_after) {
        Some(secs) => Err(AppError::QuotaExhausted { retry_after_secs: secs }),
        None => Ok(()),
    }
}

/// The library that a reply describes. A reply without games comes from a private one.
pub fn owned_games_reply(games: Option<Vec<OwnedGame>>, game_count: Option<i64>) -> (r:
    OwnedGamesResult)
    ensures
        r.library_visible == games is Some,
        match games {
            Some(g) => r.games == g,
            None => r.games@.len() == 0,
        },
        r.game_count == (match game_count {
            Some(n) => n,
            None => 0,
        }),
{
    let library_visible = games.is_some();
    let games = match games {
        Some(g) => g,
        None => Vec::new(),
    };
    let game_count: i64 = match game_count {
        Some(n) => n,
        None => 0,
    };
    OwnedGamesResult { games, game_count, library_visible }
}

/// The level that a reply shows; 0 when it shows none.
pub fn steam_level_reply(player_level: Option<i32>) -> (r: i32)
    ensures
        r == (match player_level {
            Some(n) => n,
            None => 0,
        }),
{
    match player_level {
        Some(n) => n,
        None => 0,
    }
}

/// Is the status that of a game without achievements, or of no game?
pub fn no_achievements(status: u16) -> (r: bool)
    ensures
        r == (status == 400),
{
    status == 400
}

/// The achievements that a reply shows; none when it is no success.
pub fn achievements_reply(success: bool, achievements: Option<Vec<Achievement>>) -> (r: Vec<
    Achievement,
>)
    ensures
        match achievements {
            Some(list) if success => r == list,
            _ => r@.len() == 0,
        },
{
    match achievements {
        Some(list) => {
            if success {
                list
            } else {
                Vec::new()
            }
        },
        None => Vec::new(),
    }
}

/// The groups that a reply shows; none when it is no success.
pub fn group_list_reply(success: bool, groups: Option<Vec<SteamGroup>>) -> (r: Vec<SteamGroup>)
    ensures
        match groups {
            Some(list) if success => r == list,
            _ => r@.len() == 0,
        },
{
    match groups {
        Some(list) => {
            if success {
                list
            } else {
                Vec::new()
            }
        },
        None => Vec::new(),
    }
}

/// Does the status of an ownership check allow to read the reply? `status_text` is the status as
/// it is shown.
pub fn ownership_status(status: u16, status_text: &str) -> (r: Result<(), AppError>)
    ensures
        if status == 403 {
            r matches Err(e) && e@ == Failure::SteamApi(
                "CheckAppOwnership rejected the publisher key (403) — the key must be a Steamworks publisher key with access to this app"@,
            )
        } else if 200 <= status < 300 {
            r is Ok
        } else {
            r matches Err(e) && e@ == Failure::SteamApi(
                "CheckAppOwnership returned HTTP "@ + status_text@,
            )
        },
{
    if status == 403 {
        return Err(
            AppError::SteamApi(
                text::owned(
                    "CheckAppOwnership rejected the publisher key (403) — the key must be a Steamworks publisher key with access to this app",
                ),
            ),
        );
    }
    if status < 200 || status >= 300 {
        return Err(AppError::SteamApi(text::cat("CheckAppOwnership returned HTTP ", status_text)));
    }
    Ok(())
}

/// What a reply could not be read as, for the log.
pub fn unreadable(what: &str, why: &str) -> (r: AppError)
    ensures
        r@ == Failure::SteamApi("Failed to parse "@ + what@ + ": "@ + why@),
{
    let mut m = text::owned("Failed to parse ");
    m.append(what);
    m.append(": ");
    m.append(why);
    AppError::SteamApi(m)
}

/// The seconds that a header names are read; without a header, or with an empty one, there are
/// none.
pub proof fn law_the_header_names_the_pause(n: u64)
    ensures
        retry_seconds(Some(text::decimal(n as int))) == Some(n as int),
        retry_seconds(None) is None,
        retry_seconds(Some(Seq::empty())) is None,
{
    text::law_unsigned_round_trip(n);
    text::law_trimming_leaves_the_rest(Seq::empty());
}

/// An address names the method at Steam, the key and the player, in this order, and nothing else.
pub proof fn law_addresses_name_key_and_player(
    method: Seq<char>,
    key: Seq<char>,
    steam_id: Seq<char>,
    other: Seq<char>,
    app_id: Seq<char>,
)
    ensures
        text::occurs_in(player_url(method, key, steam_id), "/?key="@ + key + "&steamid="@ + steam_id),
        text::stands_at(
            player_url(method, key, steam_id),
            "https://api.steampowered.com/"@ + method,
            0,
        ),
        players_url(method, key, seq![steam_id]).len() == player_url(method, key, steam_id).len() + 1,
        text::occurs_in(
            players_url(method, key, seq![steam_id, other]),
            "/?key="@ + key + "&steamids="@ + steam_id + ","@ + other,
        ),
        text::occurs_in(
            ownership_url(key, steam_id, app_id),
            "&steamid="@ + steam_id + "&appid="@ + app_id,
        ),
        text::occurs_in(ownership_url(key, steam_id, app_id), "/CheckAppOwnership/v2/?key="@ + key),
{
    let host = "https://api.steampowered.com/"@;
    let tail = "/?key="@ + key + "&steamid="@ + steam_id;
    let none = Seq::<char>::empty();
    let one = player_url(method, key, steam_id);
    assert(one =~= (host + method) + tail + none);
    text::lemma_middle_occurs(host + method, tail, none);
    assert(one.subrange(0, (host + method).len() as int) =~= host + method);
    assert(text::joined(seq![steam_id], ","@) == steam_id) by {
        text::law_joined_texts_stand_in_a_row(Seq::empty(), steam_id, ","@);
    }
    reveal_strlit("&steamid=");
    reveal_strlit("&steamids=");
    text::law_joined_texts_stand_in_a_row(seq![steam_id], other, ","@);
    text::law_joined_texts_stand_in_a_row(Seq::empty(), steam_id, ","@);
    assert(seq![steam_id].push(other) =~= seq![steam_id, other]);
    let many = "/?key="@ + key + "&steamids="@ + steam_id + ","@ + other;
    let two = players_url(method, key, seq![steam_id, other]);
    assert(two =~= (host + method) + many + none);
    text::lemma_middle_occurs(host + method, many, none);
    let partner = "https://partner.steam-api.com/ISteamUser/CheckAppOwnership/v2/?key="@;
    let pair = "&steamid="@ + steam_id + "&appid="@ + app_id;
    let owned = ownership_url(key, steam_id, app_id);
    assert(owned =~= (partner + key) + pair + none);
    text::lemma_middle_occurs(partner + key, pair, none);
    let asked = "/CheckAppOwnership/v2/?key="@;
    let before = "https://partner.steam-api.com/ISteamUser"@;
    reveal_strlit("https://partner.steam-api.com/ISteamUser/CheckAppOwnership/v2/?key=");
    reveal_strlit("/CheckAppOwnership/v2/?key=");
    reveal_strlit("https://partner.steam-api.com/ISteamUser");
    assert(partner =~= before + asked);
    assert(owned =~= before + (asked + key) + pair);
    text::lemma_middle_occurs(before, asked + key, pair);
}

} // verus!
