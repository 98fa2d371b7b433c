use steam_player_role::clock::Delay;
use steam_player_role::error::AppError;
use steam_player_role::services::auth_gateway::{
    fetch_guild_member_ids, fetch_user_guild_ids, reply_status, request_failed, unreadable_reply,
};
use steam_player_role::services::quota::{Class, Outcome};
use steam_player_role::services::steam_api::{
    achievements_reply, after_call, before_call, group_list_reply, no_achievements, owned_games_reply,
    ownership_status, retry_after_secs, steam_level_reply, throttle_secs, unreadable, Achievement,
    OwnedGame, SteamApiClient, SteamGroup,
};

fn s(t: &str) -> String {
    t.to_string()
}

#[test]
fn requests_carry_the_key_and_the_ids() {
    let c = SteamApiClient::new("KEY");
    assert_eq!(c.get_player_summaries(&vec![], Class::Background), None);
    assert_eq!(c.get_player_bans(&vec![], Class::Background), None);
    let ids = vec![s("1"), s("2")];
    let r = c.get_player_summaries(&ids, Class::Interactive).unwrap();
    assert_eq!(
        r.url,
        "https://api.steampowered.com/ISteamUser/GetPlayerSummaries/v2/?key=KEY&steamids=1,2"
    );
    assert_eq!(r.class, Class::Interactive);
    let r = c.get_player_bans(&ids, Class::Background).unwrap();
    assert_eq!(
        r.url,
        "https://api.steampowered.com/ISteamUser/GetPlayerBans/v1/?key=KEY&steamids=1,2"
    );
    assert_eq!(r.class, Class::Background);
    assert_eq!(
        c.get_steam_level("7", Class::Background).url,
        "https://api.steampowered.com/IPlayerService/GetSteamLevel/v1/?key=KEY&steamid=7"
    );
    assert_eq!(
        c.get_owned_games("7", Class::Background).url,
        "https://api.steampowered.com/IPlayerService/GetOwnedGames/v1/?key=KEY&steamid=7&include_appinfo=1&include_played_free_games=1"
    );
    assert_eq!(
        c.get_player_achievements("7", "730", Class::Background).url,
        "https://api.steampowered.com/ISteamUserStats/GetPlayerAchievements/v1/?key=KEY&steamid=7&appid=730"
    );
    assert_eq!(
        c.get_user_group_list("7", Class::Interactive).url,
        "https://api.steampowered.com/ISteamUser/GetUserGroupList/v1/?key=KEY&steamid=7"
    );
    let r = c.check_app_ownership("7", "730", "PUB");
    assert_eq!(
        r.url,
        "https://partner.steam-api.com/ISteamUser/CheckAppOwnership/v2/?key=PUB&steamid=7&appid=730"
    );
    assert_eq!(r.class, Class::Background);
}

#[test]
fn an_exhausted_budget_stops_the_call() {
    assert_eq!(before_call(&Outcome::Granted), Ok(()));
    let exhausted = |secs: u64, nanos: u32| {
        before_call(&Outcome::Exhausted {
            retry_after: Delay { secs, nanos },
        })
    };
    assert_eq!(
        exhausted(30, 5),
        Err(AppError::QuotaExhausted { retry_after_secs: 30 })
    );
    assert_eq!(
        exhausted(0, 5),
        Err(AppError::QuotaExhausted { retry_after_secs: 1 })
    );
}

#[test]
fn a_429_pauses_as_long_as_it_says() {
    assert_eq!(retry_after_secs(Some(" 17 ")), Some(17));
    assert_eq!(retry_after_secs(Some("soon")), None);
    assert_eq!(retry_after_secs(None), None);
    assert_eq!(throttle_secs(429, Some("17")), Some(17));
    assert_eq!(throttle_secs(429, Some("-1")), Some(300));
    assert_eq!(throttle_secs(429, None), Some(300));
    assert_eq!(throttle_secs(200, Some("17")), None);
    assert_eq!(throttle_secs(503, None), None);
    let paused = |secs: u64| Err(AppError::QuotaExhausted { retry_after_secs: secs });
    assert_eq!(after_call(429, Some("17")), paused(17));
    assert_eq!(after_call(429, None), paused(300));
    assert_eq!(after_call(500, Some("17")), Ok(()));
}

#[test]
fn replies_with_gaps_are_read() {
    let game = || OwnedGame {
        appid: 1,
        name: None,
        playtime_forever: None,
        playtime_2weeks: None,
    };
    let private = owned_games_reply(None, None);
    assert!(!private.library_visible);
    assert_eq!((private.games.len(), private.game_count), (0, 0));
    let empty = owned_games_reply(Some(vec![]), Some(0));
    assert!(empty.library_visible);
    let full = owned_games_reply(Some(vec![game()]), Some(5));
    assert_eq!((full.games, full.game_count), (vec![game()], 5));
    assert_eq!(steam_level_reply(Some(3)), 3);
    assert_eq!(steam_level_reply(None), 0);
    assert!(no_achievements(400) && !no_achievements(403));
    let a = || Achievement {
        apiname: s("A"),
        achieved: 1,
        unlocktime: None,
    };
    assert_eq!(achievements_reply(true, Some(vec![a()])), vec![a()]);
    assert_eq!(achievements_reply(false, Some(vec![a()])), vec![]);
    assert_eq!(achievements_reply(true, None), vec![]);
    let g = || SteamGroup { gid: s("1") };
    assert_eq!(group_list_reply(true, Some(vec![g()])), vec![g()]);
    assert_eq!(group_list_reply(false, Some(vec![g()])), vec![]);
    assert_eq!(group_list_reply(true, None), vec![]);
}

#[test]
fn ownership_replies_that_are_no_success() {
    assert_eq!(ownership_status(200, "200 OK"), Ok(()));
    assert_eq!(ownership_status(299, "299"), Ok(()));
    assert_eq!(
        ownership_status(403, "403 Forbidden"),
        Err(AppError::SteamApi(s("CheckAppOwnership rejected the publisher key (403) — the key must be a Steamworks publisher key with access to this app")))
    );
    assert_eq!(
        ownership_status(500, "500 Internal Server Error"),
        Err(AppError::SteamApi(s(
            "CheckAppOwnership returned HTTP 500 Internal Server Error"
        )))
    );
    assert_eq!(
        unreadable("steam level", "eof"),
        AppError::SteamApi(s("Failed to parse steam level: eof"))
    );
}

#[test]
fn the_gateway_is_asked_and_its_replies_are_judged() {
    let r = fetch_user_guild_ids("http://gw", "42");
    assert_eq!(r.url, "http://gw/auth/internal/user_guild_ids");
    assert_eq!(
        r.query,
        vec![
            (s("discord_id"), s("42")),
            (s("plugin"), s("steam-player-role"))
        ]
    );
    let r = fetch_guild_member_ids("http://gw", "g");
    assert_eq!(r.url, "http://gw/auth/internal/guild_member_ids");
    assert_eq!(
        r.query,
        vec![
            (s("guild_id"), s("g")),
            (s("plugin"), s("steam-player-role"))
        ]
    );
    assert_eq!(reply_status("user_guild_ids", 204, "204 No Content", ""), Ok(()));
    assert_eq!(
        reply_status("guild_member_ids", 500, "500 Internal Server Error", "oops"),
        Err(AppError::Internal(s(
            "auth_gateway guild_member_ids returned 500 Internal Server Error: oops"
        )))
    );
    assert_eq!(
        request_failed("timeout"),
        AppError::Internal(s("auth_gateway request failed: timeout"))
    );
    assert_eq!(
        unreadable_reply("eof"),
        AppError::Internal(s("auth_gateway response not JSON: eof"))
    );
}
