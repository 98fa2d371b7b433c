use steam_player_role::clock::Timestamp;
use steam_player_role::error::AppError;
use steam_player_role::json::Value;
use steam_player_role::routes::players::{
    auth_gateway_get, fetch_guild_members, fetch_guild_permission, gateway_status,
    gateway_unreachable, gateway_unreadable, members_path,
    page_fits, permission_path, plan_players, players_data, render_players_page, sort_column,
    Listing, ListingCommand, ListingInput, PlayerRow, PlayersQuery, SessionRequest,
};

fn s(t: &str) -> String {
    t.to_string()
}

fn text(t: &str) -> Value {
    Value::Text(s(t))
}

fn object(entries: Vec<(&str, Value)>) -> Value {
    Value::Object(entries.into_iter().map(|(k, v)| (s(k), v)).collect())
}

fn query() -> PlayersQuery {
    PlayersQuery {
        page: None,
        per_page: None,
        sort: None,
        order: None,
        search: None,
    }
}

#[test]
fn lists_are_sorted_by_known_columns() {
    assert_eq!(sort_column("steam_level"), Some("uc.steam_level"));
    assert_eq!(sort_column("total_games_owned"), Some("uc.total_games_owned"));
    assert_eq!(sort_column("country_code"), Some("uc.country_code"));
    assert_eq!(sort_column("fetched_at"), Some("uc.fetched_at"));
    assert_eq!(sort_column("steam_id"), Some("la.steam_id"));
    assert_eq!(sort_column("steam_name"), Some("la.steam_name"));
    assert_eq!(sort_column("linked_at"), Some("la.linked_at"));
    assert_eq!(sort_column("api_token"), None);
    assert_eq!(sort_column("steam_level; DROP TABLE user_cache"), None);
}

#[test]
fn a_plain_query_reads_the_first_page() {
    let plan = plan_players(&query());
    assert_eq!((plan.page, plan.per_page, plan.offset), (1, 20, 0));
    assert_eq!(plan.sql, "SELECT la.steam_id, la.steam_name, la.discord_id, uc.steam_level, uc.total_games_owned, uc.country_code, uc.fetched_at, COUNT(*) OVER() AS total_count FROM linked_accounts la JOIN user_cache uc ON uc.steam_id = la.steam_id WHERE la.discord_id = ANY($1)  ORDER BY uc.steam_level DESC NULLS LAST LIMIT $2 OFFSET $3");
    assert_eq!(plan.pattern, None);
}

#[test]
fn a_query_is_searched_sorted_and_paged() {
    let plan = plan_players(&PlayersQuery {
        page: Some(3),
        per_page: Some(500),
        sort: Some(s("steam_name")),
        order: Some(s("asc")),
        search: Some(s("  ann ")),
    });
    assert_eq!((plan.page, plan.per_page, plan.offset), (3, 100, 200));
    assert!(plan.sql.ends_with("ANY($1) AND (la.steam_name ILIKE $4 OR la.steam_id ILIKE $4 OR la.discord_id ILIKE $4) ORDER BY la.steam_name ASC NULLS LAST LIMIT $2 OFFSET $3"));
    assert_eq!(plan.pattern, Some(s("%ann%")));
    let plan = plan_players(&PlayersQuery {
        page: Some(-3),
        per_page: Some(0),
        sort: Some(s("nothing")),
        order: Some(s("ASC")),
        search: Some(s("  ")),
    });
    assert_eq!((plan.page, plan.per_page, plan.offset), (1, 1, 0));
    assert!(plan.sql.ends_with("ANY($1)  ORDER BY uc.steam_level DESC NULLS LAST LIMIT $2 OFFSET $3"));
    assert_eq!(plan.pattern, None);
}

#[test]
fn pages_beyond_all_numbers_do_not_fit() {
    assert!(page_fits(&query()));
    assert!(!page_fits(&PlayersQuery {
        page: Some(i64::MAX),
        ..query()
    }));
    assert!(page_fits(&PlayersQuery {
        page: Some(i64::MAX),
        per_page: Some(1),
        ..query()
    }));
}

#[test]
fn the_players_page_names_the_base_url() {
    let page = render_players_page("https://example.com/p");
    assert!(page.starts_with("<!DOCTYPE html>"));
    assert_eq!(page.matches("https://example.com/p").count(), 2);
    assert!(page.contains("https://example.com/p/players/' + encodeURIComponent(guildId)"));
}

#[test]
fn the_gateway_is_asked_with_the_session() {
    assert_eq!(
        auth_gateway_get("http://gw", "/auth/x?y=1", "a b;c=%é"),
        SessionRequest {
            url: s("http://gw/auth/x?y=1"),
            cookie: s("rl_session=a%20b%3Bc%3D%25%C3%A9"),
        }
    );
    assert_eq!(permission_path("1&2"), "/auth/guild_permission?guild_id=1%262");
    assert_eq!(members_path("12"), "/auth/guild_members?guild_id=12");
    assert_eq!(gateway_status(200, "200 OK", ""), Ok(()));
    assert_eq!(
        gateway_status(401, "401 Unauthorized", "x"),
        Err(AppError::UnauthorizedWith(s(
            "Session rejected by Auth Gateway. Please re-login."
        )))
    );
    assert_eq!(
        gateway_status(502, "502 Bad Gateway", "x"),
        Err(AppError::Internal(s(
            "Auth Gateway returned 502 Bad Gateway: x"
        )))
    );
    assert_eq!(
        gateway_unreachable("x"),
        AppError::Internal(s("Auth Gateway unreachable: x"))
    );
    assert_eq!(
        gateway_unreadable("x"),
        AppError::Internal(s("Auth Gateway parse error: x"))
    );
}

#[test]
fn replies_of_the_gateway_are_read() {
    let body = object(vec![("is_member", Value::Bool(true))]);
    assert_eq!(fetch_guild_permission(&body), (true, false));
    let body = object(vec![
        ("is_member", text("true")),
        ("is_manager", Value::Bool(true)),
    ]);
    assert_eq!(fetch_guild_permission(&body), (false, true));
    assert_eq!(fetch_guild_permission(&Value::Null), (false, false));
    let body = object(vec![
        (
            "discord_ids",
            Value::Array(vec![text("1"), Value::Int(2), text("3")]),
        ),
        ("guild_name", text("Home")),
    ]);
    assert_eq!(
        fetch_guild_members(&body),
        (vec![s("1"), s("3")], Some(s("Home")))
    );
    assert_eq!(fetch_guild_members(&Value::Null), (vec![], None));
}

fn step(state: Listing, input: ListingInput) -> (Listing, ListingCommand) {
    players_data("g", &query(), state, input)
}

fn failure(state: Listing, input: ListingInput) -> AppError {
    match step(state, input) {
        (Listing::Finished, ListingCommand::Fail(e)) => e,
        _ => panic!("a failure was expected"),
    }
}

fn members() -> Value {
    object(vec![("discord_ids", Value::Array(vec![text("1")]))])
}

#[test]
fn a_page_is_answered_step_by_step() {
    let (state, command) = step(
        Listing::NeedSession,
        ListingInput::Session {
            cookie: true,
            valid: true,
        },
    );
    assert!(matches!(command, ListingCommand::ReadGuild));
    let (state, command) = step(state, ListingInput::Guild(Some((true, s("members")))));
    assert!(
        matches!(command, ListingCommand::FetchPermission(p) if p == "/auth/guild_permission?guild_id=g")
    );
    let (state, command) = step(state, ListingInput::Permission(Value::Null));
    assert!(
        matches!(command, ListingCommand::FetchMembers(p) if p == "/auth/guild_members?guild_id=g")
    );
    let (state, command) = step(state, ListingInput::Members(members()));
    assert!(
        matches!(command, ListingCommand::ReadRows { members, plan } if members == vec![s("1")] && plan.per_page == 20)
    );
    let row = PlayerRow {
        steam_id: s("76561198012345678"),
        steam_name: None,
        discord_id: s("1"),
        steam_level: 12,
        total_games_owned: 3,
        country_code: s("DE"),
        fetched_at: Timestamp {
            secs: 1_700_000_000,
            nanos: 250_000_000,
        },
        total_count: 41,
    };
    let (_, command) = step(state, ListingInput::Rows(vec![row]));
    let expected = object(vec![
        (
            "players",
            Value::Array(vec![object(vec![
                ("steam_id", text("76561198012345678")),
                ("steam_name", Value::Null),
                ("discord_id", text("1")),
                ("steam_level", Value::Int(12)),
                ("total_games_owned", Value::Int(3)),
                ("country_code", text("DE")),
                ("fetched_at", text("2023-11-14T22:13:20.250Z")),
            ])]),
        ),
        ("total", Value::Int(41)),
        ("page", Value::Int(1)),
        ("per_page", Value::Int(20)),
        ("guild_name", Value::Null),
    ]);
    assert!(matches!(command, ListingCommand::Answer(v) if v == expected));
}

#[test]
fn those_who_may_not_see_the_list_are_refused() {
    let session = |cookie, valid| ListingInput::Session { cookie, valid };
    assert_eq!(
        failure(Listing::NeedSession, session(false, false)),
        AppError::UnauthorizedWith(s("No session cookie found. Please log in."))
    );
    assert_eq!(
        failure(Listing::NeedSession, session(true, false)),
        AppError::UnauthorizedWith(s("Session verification failed. Please re-login."))
    );
    let unconfigured = AppError::NotFound(s("No player list is configured for this server."));
    assert_eq!(
        failure(Listing::NeedGuild, ListingInput::Guild(None)),
        unconfigured
    );
    assert_eq!(
        failure(
            Listing::NeedGuild,
            ListingInput::Guild(Some((false, s("members"))))
        ),
        unconfigured
    );
    let need = |members_allowed, is_manager| Listing::NeedMembers {
        members_allowed,
        is_manager,
    };
    assert_eq!(
        failure(need(true, true), ListingInput::Members(Value::Null)),
        AppError::Forbidden(s(
            "You must be a member of this server to view its player list."
        ))
    );
    assert_eq!(
        failure(need(false, false), ListingInput::Members(members())),
        AppError::Forbidden(s("Only server managers can view this player list."))
    );
    let (_, command) = step(need(false, true), ListingInput::Members(members()));
    assert!(matches!(command, ListingCommand::ReadRows { .. }));
}

#[test]
fn managers_only_is_what_the_setting_says() {
    let (state, _) = step(
        Listing::NeedGuild,
        ListingInput::Guild(Some((true, s("managers")))),
    );
    assert!(matches!(
        state,
        Listing::NeedPermission {
            members_allowed: false
        }
    ));
    let reply = object(vec![("is_manager", Value::Bool(true))]);
    let (state, _) = step(state, ListingInput::Permission(reply));
    assert!(matches!(
        state,
        Listing::NeedMembers {
            members_allowed: false,
            is_manager: true
        }
    ));
}

#[test]
fn an_empty_page_has_no_players() {
    let (_, command) = step(
        Listing::NeedRows {
            page: 9,
            per_page: 5,
            guild_name: Some(s("Home")),
        },
        ListingInput::Rows(vec![]),
    );
    let expected = object(vec![
        ("players", Value::Array(vec![])),
        ("total", Value::Int(0)),
        ("page", Value::Int(9)),
        ("per_page", Value::Int(5)),
        ("guild_name", text("Home")),
    ]);
    assert!(matches!(command, ListingCommand::Answer(v) if v == expected));
}
