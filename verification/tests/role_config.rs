use steam_player_role::error::AppError;
use steam_player_role::json::Value;
use steam_player_role::lookup::Lookup;
use steam_player_role::models::condition::{Condition, ConditionField, ConditionOperator};
use steam_player_role::routes::admin::{
    admin_iframe_csp, config_json, iframe_access, looks_embedded, page_entry, preview_json,
    render_iframe_no_token, render_inline_error, render_refusal, render_signin_page,
    require_role_config_access, require_writable, role_config_data, role_config_page,
    role_config_preview, role_config_preview_edit, role_config_save, set_view_permission,
    verify_iframe_entry, IframeSession, PageEntry, RlTokenError, RoleConfigAccess,
    RoleConfigPageQuery, RoleConfigPreviewBody, RoleConfigSaveBody, SavedLink, Saving,
    SavingCommand, SavingInput, VerifiedToken, ViewPermBody,
};
use steam_player_role::schema::PublisherKeyAction;

const KEY: &str = "0123456789ABCDEF0123456789abcdef";

fn s(t: &str) -> String {
    t.to_string()
}

fn text(t: &str) -> Value {
    Value::Text(s(t))
}

fn object(entries: Vec<(&str, Value)>) -> Value {
    Value::Object(entries.into_iter().map(|(k, v)| (s(k), v)).collect())
}

fn level() -> Condition {
    Condition {
        field: ConditionField::SteamLevel,
        operator: ConditionOperator::Between,
        value: Value::Int(5),
        value_end: Some(Value::Int(9)),
        app_id: None,
    }
}

fn level_doc(has_key: bool) -> Value {
    object(vec![
        ("category", text("account")),
        ("field", text("steamLevel")),
        ("operator", text("between")),
        ("value", Value::Int(5)),
        ("value_end", Value::Int(9)),
        ("app_id", Value::Null),
        ("has_publisher_key", Value::Bool(has_key)),
    ])
}

#[test]
fn pages_may_be_framed_by_the_dashboard() {
    assert_eq!(
        admin_iframe_csp(Some("https://d.example")),
        "frame-ancestors https://d.example"
    );
    assert_eq!(admin_iframe_csp(None), "frame-ancestors *");
}

#[test]
fn a_token_comes_before_a_session() {
    let entry = |t: Option<&str>| {
        page_entry(RoleConfigPageQuery {
            rl_token: t.map(String::from),
        })
    };
    assert!(matches!(entry(Some("t")), PageEntry::Token(t) if t == "t"));
    assert!(matches!(entry(Some("")), PageEntry::Session));
    assert!(matches!(entry(None), PageEntry::Session));
}

fn token(guild: &str, role: &str) -> VerifiedToken {
    VerifiedToken {
        discord_id: s("1"),
        guild_id: s(guild),
        role_id: s(role),
        read_only: true,
    }
}

#[test]
fn tokens_are_for_one_role_link() {
    let v = verify_iframe_entry("g", "r", Some(Ok(token("g", "r")))).ok().unwrap();
    assert_eq!((v.discord_id.as_str(), v.read_only), ("1", true));
    let refused = |v| verify_iframe_entry("g", "r", v).err().unwrap();
    assert_eq!(
        refused(None),
        "This role link isn't registered with this plugin yet."
    );
    let mismatch = "Token does not match this role link.";
    assert_eq!(refused(Some(Ok(token("g", "x")))), mismatch);
    assert_eq!(refused(Some(Ok(token("x", "r")))), mismatch);
    assert_eq!(
        refused(Some(Err(RlTokenError::Expired))),
        "Your session expired. Reopen the plugin in the RoleLogic dashboard."
    );
    assert_eq!(refused(Some(Err(RlTokenError::BadSignature))), "Invalid auth token.");
    assert_eq!(refused(Some(Err(RlTokenError::Malformed))), "Invalid auth token.");
    assert_eq!(
        refused(Some(Err(RlTokenError::WrongAudience))),
        "Token is for a different plugin."
    );
    assert_eq!(
        refused(Some(Err(RlTokenError::WrongIssuer))),
        "Token was not issued by RoleLogic."
    );
}

#[test]
fn frames_are_recognized() {
    assert!(looks_embedded("iframe", ""));
    assert!(looks_embedded("FRAME", "same-origin"));
    assert!(looks_embedded("document", "Cross-Site"));
    assert!(!looks_embedded("document", "same-origin"));
    assert!(!looks_embedded("", ""));
}

#[test]
fn error_pages_escape_what_they_show() {
    let page = render_inline_error("https://b", "<b>\"no\" & 'why'</b>");
    assert!(page.contains("https://b/favicon.ico"));
    assert!(!page.contains("<b>"));
    assert!(page.contains("&lt;b&gt;"));
    let page = render_signin_page("https://b", "a<b");
    assert!(page.contains("a&lt;b"));
    assert_eq!(page.matches("https://b").count(), 2);
    let page = render_iframe_no_token("https://b");
    assert_eq!(page.matches("https://b").count(), 2);
}

#[test]
fn a_refusal_fits_the_way_it_is_seen() {
    let why = AppError::Forbidden(s("no <manager>"));
    assert_eq!(
        render_refusal("https://b", "iframe", "", &why),
        render_iframe_no_token("https://b")
    );
    assert_eq!(
        render_refusal("https://b", "document", "none", &why),
        render_signin_page("https://b", &why.describe())
    );
}

#[test]
fn the_template_is_filled_in() {
    let page = |read_only| {
        role_config_page(
            "__BASE_URL__/__GUILD_ID__/__ROLE_ID__ __IFRAME_TOKEN__ __READ_ONLY__ __BASE_URL__",
            "https://b",
            "g",
            "r",
            "ifs:1",
            read_only,
        )
    };
    assert_eq!(page(true), "https://b/g/r ifs:1 1 https://b");
    assert_eq!(page(false), "https://b/g/r ifs:1 0 https://b");
}

fn session(guild: &str, role: &str) -> IframeSession {
    IframeSession {
        discord_id: s("1"),
        guild_id: s(guild),
        role_id: s(role),
        read_only: true,
    }
}

#[test]
fn access_is_by_token_or_as_a_manager() {
    let expired = Some(AppError::UnauthorizedWith(s(
        "Your session expired. Reopen the plugin in the RoleLogic dashboard.",
    )));
    let other = Some(AppError::Forbidden(s(
        "Token does not grant access to this role link.",
    )));
    assert_eq!(iframe_access(None, "g", "r").err(), expired);
    assert_eq!(iframe_access(Some(session("g", "x")), "g", "r").err(), other);
    let access = |bearer, manager| require_role_config_access(bearer, manager, "g", "r");
    let a = access(Some(Some(session("g", "r"))), Err(AppError::Unauthorized)).ok().unwrap();
    assert_eq!((a.discord_id.as_str(), a.read_only), ("1", true));
    // A token that is refused is not made up for by a session.
    assert_eq!(access(Some(None), Ok(s("2"))).err(), expired);
    assert_eq!(access(Some(Some(session("x", "r"))), Ok(s("2"))).err(), other);
    let a = access(None, Ok(s("2"))).ok().unwrap();
    assert_eq!((a.discord_id.as_str(), a.read_only), ("2", false));
    assert_eq!(
        access(None, Err(AppError::Forbidden(s("no")))).err(),
        Some(AppError::Forbidden(s("no")))
    );
}

fn who(read_only: bool) -> RoleConfigAccess {
    RoleConfigAccess {
        discord_id: s("1"),
        read_only,
    }
}

fn read_only_error() -> AppError {
    AppError::Forbidden(s(
        "This configuration is read-only while impersonating a user.",
    ))
}

#[test]
fn impersonators_do_not_write() {
    assert_eq!(require_writable(&who(false)), Ok(()));
    assert_eq!(require_writable(&who(true)), Err(read_only_error()));
}

#[test]
fn a_condition_is_shown_as_its_page_reads_it() {
    assert_eq!(config_json(&[level()], true), level_doc(true));
    let game = Condition {
        field: ConditionField::OwnsGame,
        operator: ConditionOperator::Eq,
        value: Value::Bool(true),
        value_end: None,
        app_id: Some(s("440")),
    };
    assert_eq!(
        config_json(&[game], false),
        object(vec![
            ("category", text("game")),
            ("field", text("ownsGame")),
            ("operator", text("eq")),
            ("value", Value::Bool(true)),
            ("value_end", Value::Null),
            ("app_id", text("440")),
            ("has_publisher_key", Value::Bool(false)),
        ])
    );
    let none = config_json(&[], true);
    assert_eq!(none.get("field"), Some(&Value::Null));
    assert_eq!(none.get_bool("has_publisher_key"), Some(true));
}

#[test]
fn the_page_of_a_link_shows_no_key() {
    let link = Some(SavedLink {
        conditions: vec![level()],
        publisher_key: Some(s(KEY)),
        config_version: 3,
    });
    let data = |permission| role_config_data("https://b", "g", "r", &link, permission).unwrap();
    let expected = |permission: &str| {
        object(vec![
            ("guild_id", text("g")),
            ("role_id", text("r")),
            ("config", level_doc(true)),
            ("config_version", Value::Int(3)),
            ("verify_url", text("https://b/verify?guild=g")),
            (
                "players",
                object(vec![
                    ("url", text("https://b/players/g")),
                    ("view_permission", text(permission)),
                ]),
            ),
        ])
    };
    assert_eq!(data(None), expected("members"));
    assert_eq!(data(Some("managers")), expected("managers"));
    assert!(!format!("{:?}", data(None)).contains(KEY));
    assert_eq!(
        role_config_data("https://b", "g", "r", &None, None),
        Err(AppError::NotFound(s(
            "This role link doesn't exist. Has it been added in RoleLogic?"
        )))
    );
}

fn form(key: Option<&str>) -> Lookup<String, Value> {
    let mut m = Lookup::new();
    m.insert(s("condition_category"), text("account"));
    m.insert(s("condition_field_account"), text("steamLevel"));
    m.insert(s("operator_account"), text("between"));
    m.insert(s("value_num_account"), Value::Int(5));
    m.insert(s("value_end_account"), Value::Int(9));
    if let Some(k) = key {
        m.insert(s("publisher_key"), text(k));
    }
    m
}

fn body(key: Option<&str>) -> RoleConfigSaveBody {
    RoleConfigSaveBody {
        config_version: 7,
        config: form(key),
    }
}

fn begin(b: &RoleConfigSaveBody) -> (Saving, SavingCommand) {
    role_config_save(b, Saving::NeedAccess, SavingInput::Access(who(false)))
}

fn save_error(b: &RoleConfigSaveBody, state: Saving, input: SavingInput) -> AppError {
    match role_config_save(b, state, input) {
        (Saving::Finished, SavingCommand::Fail(e)) => e,
        _ => panic!("a failure was expected"),
    }
}

fn saved(version: i64, has_key: bool) -> Value {
    object(vec![
        ("success", Value::Bool(true)),
        ("config_version", Value::Int(version)),
        ("config", level_doc(has_key)),
    ])
}

#[test]
fn a_save_with_a_key_is_answered_at_once() {
    for (typed, written, has_key) in [
        (KEY, PublisherKeyAction::SetKey(s(KEY)), true),
        ("", PublisherKeyAction::Clear, false),
    ] {
        let b = body(Some(typed));
        let (state, command) = begin(&b);
        assert!(matches!(command, SavingCommand::Update { version: 7 }));
        let (state, command) = role_config_save(&b, state, SavingInput::Updated(1));
        assert!(matches!(command, SavingCommand::WriteKey(k) if k == written));
        let (state, command) = role_config_save(&b, state, SavingInput::Committed(8));
        assert!(matches!(state, Saving::Finished));
        assert!(matches!(command, SavingCommand::Answer(v) if v == saved(8, has_key)));
    }
}

#[test]
fn a_save_that_keeps_the_key_asks_for_it() {
    for key in [None, Some("••••••••")] {
        let b = body(key);
        let (state, _) = begin(&b);
        let (state, command) = role_config_save(&b, state, SavingInput::Updated(1));
        assert!(matches!(
            command,
            SavingCommand::WriteKey(PublisherKeyAction::Keep)
        ));
        let (state, command) = role_config_save(&b, state, SavingInput::Committed(8));
        assert!(matches!(command, SavingCommand::ReadHasKey));
        let (_, command) = role_config_save(&b, state, SavingInput::HasKey(true));
        assert!(matches!(command, SavingCommand::Answer(v) if v == saved(8, true)));
    }
}

#[test]
fn a_save_over_another_version_fails() {
    let b = body(None);
    let (state, _) = begin(&b);
    let (state, command) = role_config_save(&b, state, SavingInput::Updated(0));
    assert!(matches!(command, SavingCommand::ReadVersion));
    assert_eq!(
        save_error(&b, state, SavingInput::Version(Some(9))),
        AppError::StaleVersion
    );
    assert_eq!(
        save_error(&b, Saving::NeedVersion, SavingInput::Version(None)),
        AppError::NotFound(s(
            "This role link doesn't exist. Has it been added in RoleLogic?"
        ))
    );
}

fn key_error() -> AppError {
    AppError::BadRequest(s("Publisher key must be the 32-character hexadecimal Web API key from the Steamworks partner site"))
}

#[test]
fn a_save_is_refused_before_anything_is_written() {
    let access = |read_only| SavingInput::Access(who(read_only));
    assert_eq!(
        save_error(&body(None), Saving::NeedAccess, access(true)),
        read_only_error()
    );
    assert_eq!(
        save_error(&body(Some("short")), Saving::NeedAccess, access(false)),
        key_error()
    );
    let empty = RoleConfigSaveBody {
        config_version: 1,
        config: Lookup::new(),
    };
    assert!(matches!(
        save_error(&empty, Saving::NeedAccess, access(false)),
        AppError::BadRequest(_)
    ));
}

#[test]
fn a_stored_key_counts_in_a_preview() {
    let (conditions, has_key) =
        role_config_preview(Some((vec![level()], Some(s(KEY))))).ok().unwrap();
    assert_eq!((conditions.len(), has_key), (1, true));
    assert!(!role_config_preview(Some((vec![], None))).ok().unwrap().1);
    assert_eq!(
        role_config_preview(None).err(),
        Some(AppError::NotFound(s("Role link not found.")))
    );
    let edit = |key: Option<&str>, stored| {
        role_config_preview_edit(&RoleConfigPreviewBody { config: form(key) }, stored)
            .map(|(c, has)| (c[0].field, has))
    };
    let field = ConditionField::SteamLevel;
    assert_eq!(edit(None, Some(true)), Ok((field, true)));
    assert_eq!(edit(None, Some(false)), Ok((field, false)));
    assert_eq!(edit(None, None), Ok((field, false)));
    assert_eq!(edit(Some(KEY), Some(true)), Ok((field, true)));
    assert_eq!(edit(Some(KEY), None), Ok((field, false)));
    assert_eq!(edit(Some(" "), Some(true)), Ok((field, false)));
    assert_eq!(edit(Some("x"), Some(true)), Err(key_error()));
}

#[test]
fn a_preview_answers_with_counts() {
    assert_eq!(
        preview_json(Some((3, 7))),
        object(vec![
            ("available", Value::Bool(true)),
            ("matching", Value::Int(3)),
            ("linked", Value::Int(7)),
        ])
    );
    assert_eq!(
        preview_json(None),
        object(vec![
            ("available", Value::Bool(false)),
            ("reason", text("Member list temporarily unavailable; preview will work once the Auth Gateway responds.")),
        ])
    );
}

#[test]
fn the_player_list_is_for_managers_or_members() {
    let set = |read_only, vp: &str| {
        set_view_permission(
            &who(read_only),
            &ViewPermBody {
                view_permission: s(vp),
            },
        )
    };
    for vp in ["managers", "members"] {
        assert_eq!(
            set(false, vp),
            Ok(object(vec![
                ("success", Value::Bool(true)),
                ("view_permission", text(vp)),
            ]))
        );
    }
    assert_eq!(
        set(false, "all"),
        Err(AppError::BadRequest(s(
            "Unknown view_permission 'all' (expected managers|members)."
        )))
    );
    assert_eq!(set(true, "members"), Err(read_only_error()));
}
