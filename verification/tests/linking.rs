use steam_player_role::clock::{Timestamp, LAST_SECOND};
use steam_player_role::error::AppError;
use steam_player_role::json::Value;
use steam_player_role::routes::plugin::{
    delete_config, extract_token, get_config, post_config, register,
};
use steam_player_role::routes::verification::{
    callback, fresh_nonce, get_session, login, recheck, render_verify_page, status, steam_login,
    steam_login_at, steam_reply_unreadable, steam_request_failed, success, unlink, CallbackQuery,
    Linking, LinkingCommand, LinkingInput,
};
use steam_player_role::services::steam_api::PlayerSummary;

const BASE: &str = "https://example.com/steam-player-role";
const STEAM_ID: &str = "76561198012345678";

fn s(t: &str) -> String {
    t.to_string()
}

fn object(entries: &[(&str, Value)]) -> Value {
    Value::Object(entries.iter().map(|(k, v)| (s(k), v.copy())).collect())
}

fn done() -> Value {
    object(&[("success", Value::Bool(true))])
}

fn text(t: &str) -> Value {
    Value::Text(s(t))
}

#[test]
fn tokens_are_read_from_the_header() {
    assert_eq!(extract_token(Some("Token abc")), Ok(s("abc")));
    assert_eq!(extract_token(Some("Token ")), Ok(s("")));
    assert_eq!(extract_token(Some("Bearer abc")), Err(AppError::Unauthorized));
    assert_eq!(extract_token(Some("token abc")), Err(AppError::Unauthorized));
    assert_eq!(extract_token(None), Err(AppError::Unauthorized));
}

#[test]
fn role_logic_is_answered() {
    assert_eq!(register(), done());
    assert_eq!(get_config(BASE, &None), Err(AppError::Unauthorized));
    let config = get_config(BASE, &Some((s("g"), s("r")))).unwrap();
    assert_eq!(config.get_text("ui_mode"), Some("iframe"));
    assert_eq!(post_config(true), Ok(done()));
    assert_eq!(post_config(false), Err(AppError::Unauthorized));
    assert_eq!(delete_config(1), Ok(done()));
    assert_eq!(delete_config(0), Err(AppError::Unauthorized));
}

#[test]
fn the_verify_page_names_the_base_url() {
    let page = render_verify_page(BASE);
    assert!(page.starts_with("<!DOCTYPE html>"));
    assert!(page.contains("href=\"https://example.com/steam-player-role/verify/login\""));
    assert!(page.contains("href=\"https://example.com/steam-player-role/verify/steam\""));
    assert!(page.contains("https://example.com/steam-player-role/favicon.ico"));
    assert_eq!(page.matches(BASE).count(), 5);
    assert!(page.contains("await api('POST', '/verify/recheck');"));
    assert!(page.contains("onclick=\"doRecheck()\">Re-check</button>"));
    assert!(page.contains("hidden\">Your Steam game details are private"));
    assert!(page.contains("s.library_visible !== false"));
    assert_eq!(render_verify_page("").len() + 5 * BASE.len(), page.len());
}

#[test]
fn a_session_is_needed() {
    assert_eq!(
        get_session(Some((s("1"), s("Ann")))),
        Ok((s("1"), s("Ann")))
    );
    assert_eq!(get_session(None), Err(AppError::Unauthorized));
    assert_eq!(login(), "/auth/login?return_to=%2Fsteam-player-role%2Fverify");
}

#[test]
fn the_status_shows_the_link() {
    assert_eq!(
        status("1", "Ann", &Some((s(STEAM_ID), Some(s("ann")))), Some(false)),
        object(&[
            ("discord_id", text("1")),
            ("display_name", text("Ann")),
            ("linked", text(STEAM_ID)),
            ("steam_name", text("ann")),
            ("library_visible", Value::Bool(false)),
        ])
    );
    assert_eq!(
        status("1", "Ann", &Some((s(STEAM_ID), None)), Some(true)).get("steam_name"),
        Some(&Value::Null)
    );
    let none = status("1", "Ann", &None, None);
    assert_eq!(none.get("library_visible"), Some(&Value::Null));
    assert_eq!(none.get("linked"), Some(&Value::Null));
    assert_eq!(none.get("steam_name"), Some(&Value::Null));
}

#[test]
fn nonces_are_fresh_hexadecimal() {
    let a = fresh_nonce();
    let b = fresh_nonce();
    assert_eq!(a.len(), 64);
    assert!(a.chars().all(|c| c.is_ascii_digit() || ('a'..='f').contains(&c)));
    assert_ne!(a, b);
}

#[test]
fn a_verification_lasts_a_quarter_of_an_hour() {
    let now = Timestamp {
        secs: 1_000,
        nanos: 7,
    };
    let l = steam_login_at(false, s("n"), BASE, &now).ok().unwrap();
    assert_eq!(l.nonce, "n");
    assert_eq!(
        l.expires_at,
        Timestamp {
            secs: 1_900,
            nanos: 7
        }
    );
    assert_eq!(l.steam_url, "https://steamcommunity.com/openid/login?openid.ns=http://specs.openid.net/auth/2.0&openid.mode=checkid_setup&openid.return_to=https%3A%2F%2Fexample.com%2Fsteam-player-role%2Fverify%2Fcallback&openid.realm=https%3A%2F%2Fexample.com&openid.identity=http://specs.openid.net/auth/2.0/identifier_select&openid.claimed_id=http://specs.openid.net/auth/2.0/identifier_select");
    let linked = Some(AppError::BadRequest(s(
        "You already have a linked Steam account. Unlink it first.",
    )));
    assert_eq!(steam_login_at(true, s("n"), BASE, &now).err(), linked);
    assert_eq!(steam_login(true, BASE).err(), linked);
    let before = chrono::Utc::now().timestamp();
    let l = steam_login(false, BASE).ok().unwrap();
    let after = chrono::Utc::now().timestamp();
    assert!(before + 900 <= l.expires_at.secs && l.expires_at.secs <= after + 900);
    assert_eq!(l.nonce.len(), 64);
    // A session cannot outlive what can be represented.
    let late = Timestamp {
        secs: LAST_SECOND - 1,
        nanos: 0,
    };
    let l = steam_login_at(false, s("n"), BASE, &late).ok().unwrap();
    assert_eq!(
        l.expires_at,
        Timestamp {
            secs: LAST_SECOND,
            nanos: 999_999_999,
        }
    );
}

fn query(claimed_id: Option<&str>) -> CallbackQuery {
    CallbackQuery {
        openid_claimed_id: claimed_id.map(String::from),
        openid_sig: Some(s("sig")),
        openid_signed: Some(s("signed,identity")),
        openid_assoc_handle: Some(s("handle")),
        openid_ns: Some(s("ns")),
        openid_op_endpoint: Some(s("op")),
        openid_response_nonce: Some(s("rn")),
        openid_return_to: None,
        openid_identity: Some(s("id")),
    }
}

fn claim(claimed_id: Option<&str>) -> LinkingCommand {
    callback(
        "1",
        BASE,
        Linking::NeedQuery,
        LinkingInput::Query(query(claimed_id)),
    )
    .1
}

fn failed(command: LinkingCommand) -> AppError {
    match command {
        LinkingCommand::Fail(e) => e,
        _ => panic!("a failure was expected"),
    }
}

#[test]
fn claims_that_are_no_steam_id_fail() {
    let vf = |m: &str| AppError::VerificationFailed(s(m));
    assert_eq!(failed(claim(None)), vf("Missing claimed_id"));
    assert_eq!(
        failed(claim(Some("https://evil.example/openid/id/76561198012345678"))),
        vf("Invalid claimed_id format")
    );
    for bad in ["", "7656119801234567", "765611980123456789", "7656119801234567x"] {
        let claimed = format!("https://steamcommunity.com/openid/id/{bad}");
        assert_eq!(failed(claim(Some(&claimed))), vf("Invalid SteamID format"));
    }
    assert_eq!(
        steam_request_failed("x"),
        vf("Steam verification request failed: x")
    );
    assert_eq!(
        steam_reply_unreadable("x"),
        vf("Failed to read Steam response: x")
    );
}

fn profile(name: Option<&str>) -> PlayerSummary {
    PlayerSummary {
        steamid: s(STEAM_ID),
        personaname: name.map(String::from),
        profileurl: None,
        avatar: None,
        avatarmedium: None,
        timecreated: None,
        lastlogoff: None,
        communityvisibilitystate: None,
        personastate: None,
        loccountrycode: None,
    }
}

#[test]
fn an_account_is_linked_after_every_check() {
    let step = |state, input| callback("1", BASE, state, input);
    let claimed = format!("https://steamcommunity.com/openid/id/{STEAM_ID}");
    let (state, command) = step(
        Linking::NeedQuery,
        LinkingInput::Query(query(Some(&claimed))),
    );
    let pair = |k: &str, v: &str| (s(k), s(v));
    assert!(matches!(command, LinkingCommand::AskSteam(params) if params == vec![
        pair("openid.ns", "ns"),
        pair("openid.mode", "check_authentication"),
        pair("openid.sig", "sig"),
        pair("openid.signed", "signed,identity"),
        pair("openid.assoc_handle", "handle"),
        pair("openid.op_endpoint", "op"),
        pair("openid.claimed_id", &claimed),
        pair("openid.identity", "id"),
        pair("openid.response_nonce", "rn"),
        pair("openid.return_to", ""),
    ]));
    let (state, command) = step(
        state,
        LinkingInput::Reply(s("ns:http://specs.openid.net/auth/2.0\nis_valid:true\n")),
    );
    assert!(matches!(command, LinkingCommand::ReadPending));
    let (state, command) = step(state, LinkingInput::Pending(true));
    assert!(matches!(command, LinkingCommand::ReadHolder));
    let (state, command) = step(state, LinkingInput::Holder(Some(s("1"))));
    assert!(matches!(command, LinkingCommand::FetchProfile));
    let (state, command) = step(
        state,
        LinkingInput::Profiles(Some(vec![profile(Some("ann")), profile(None)])),
    );
    assert!(matches!(state, Linking::Finished));
    match command {
        LinkingCommand::Link {
            steam_id,
            steam_name,
            redirect,
        } => {
            assert_eq!(steam_id, STEAM_ID);
            assert_eq!(steam_name, Some(s("ann")));
            assert_eq!(
                redirect,
                "https://example.com/steam-player-role/verify?linked=true"
            );
        }
        _ => panic!("a link was expected"),
    }
}

#[test]
fn a_name_that_is_not_known_is_left_out() {
    for profiles in [None, Some(vec![]), Some(vec![profile(None)])] {
        let (_, command) = callback(
            "1",
            BASE,
            Linking::NeedProfile {
                steam_id: s(STEAM_ID),
            },
            LinkingInput::Profiles(profiles),
        );
        assert!(matches!(
            command,
            LinkingCommand::Link {
                steam_name: None,
                ..
            }
        ));
    }
}

#[test]
fn a_failed_check_leads_back_with_an_error() {
    let id = || s(STEAM_ID);
    let cases = vec![
        (
            Linking::NeedReply { steam_id: id() },
            LinkingInput::Reply(s("is_valid:false")),
            "Steam%20authentication%20failed.%20Please%20try%20again.",
        ),
        (
            Linking::NeedPending { steam_id: id() },
            LinkingInput::Pending(false),
            "Verification%20session%20expired.%20Please%20try%20again.",
        ),
        (
            Linking::NeedHolder { steam_id: id() },
            LinkingInput::Holder(Some(s("2"))),
            "This%20Steam%20account%20is%20already%20linked%20to%20another%20Discord%20user.",
        ),
    ];
    for (state, input, error) in cases {
        let (next, command) = callback("1", BASE, state, input);
        assert!(matches!(next, Linking::Finished));
        let expected = format!("https://example.com/steam-player-role/verify?error={error}");
        assert!(matches!(command, LinkingCommand::Redirect(to) if to == expected));
    }
}

#[test]
fn links_end_and_are_checked_again() {
    assert_eq!(success(), done());
    assert_eq!(unlink(true), Ok(done()));
    let none = Err(AppError::NotFound(s("No linked account found")));
    assert_eq!(unlink(false), none);
    let at = |secs: i64| Timestamp { secs, nanos: 0 };
    assert_eq!(recheck(false, None, &at(0)), none);
    assert_eq!(recheck(true, None, &at(0)), Ok(done()));
    assert_eq!(
        recheck(true, Some(at(100)), &at(399)),
        Err(AppError::TooManyRequests(s(
            "You can re-check once every 5 minutes."
        )))
    );
    assert_eq!(recheck(true, Some(at(100)), &at(400)), Ok(done()));
}
