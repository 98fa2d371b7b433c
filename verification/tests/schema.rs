use steam_player_role::error::AppError;
use steam_player_role::json::Value;
use steam_player_role::lookup::Lookup;
use steam_player_role::models::condition::{ConditionField, ConditionOperator};
use steam_player_role::schema::{
    accept_empty_config, build_iframe_config, parse_config, parse_publisher_key,
    PublisherKeyAction, SECRET_MASK,
};

fn config_with_key(key: &str) -> Lookup<String, Value> {
    form(&[("publisher_key", key)])
}

fn form(entries: &[(&str, &str)]) -> Lookup<String, Value> {
    let mut config = Lookup::new();
    for (k, v) in entries {
        config.insert(k.to_string(), Value::Text(v.to_string()));
    }
    config
}

#[test]
fn test_publisher_key_absent_keeps() {
    let config = Lookup::new();
    assert_eq!(
        parse_publisher_key(&config).unwrap(),
        PublisherKeyAction::Keep
    );
}

#[test]
fn test_publisher_key_mask_keeps() {
    assert_eq!(
        parse_publisher_key(&config_with_key(SECRET_MASK)).unwrap(),
        PublisherKeyAction::Keep
    );
}

#[test]
fn test_publisher_key_empty_clears() {
    assert_eq!(
        parse_publisher_key(&config_with_key("  ")).unwrap(),
        PublisherKeyAction::Clear
    );
}

#[test]
fn test_publisher_key_valid_sets() {
    let key = "0123456789ABCDEF0123456789ABCDEF";
    assert_eq!(
        parse_publisher_key(&config_with_key(key)).unwrap(),
        PublisherKeyAction::SetKey(key.to_string())
    );
}

#[test]
fn test_publisher_key_invalid_rejected() {
    assert!(parse_publisher_key(&config_with_key("not-a-key")).is_err());
    assert!(parse_publisher_key(&config_with_key("0123456789ABCDEF")).is_err());
}

#[test]
fn publisher_keys_are_trimmed_and_hexadecimal() {
    let key = "0123456789abcdef0123456789ABCDEF";
    assert_eq!(
        parse_publisher_key(&config_with_key(&format!(" {key}\n"))).unwrap(),
        PublisherKeyAction::SetKey(key.to_string())
    );
    let message = "Publisher key must be the 32-character hexadecimal Web API key from the Steamworks partner site";
    for wrong in [
        "0123456789abcdef0123456789ABCDEG",
        "0123456789abcdef0123456789ABCDEF0",
        // 32 bytes, but not 32 digits.
        "éééééééééééééééé",
    ] {
        assert_eq!(
            parse_publisher_key(&config_with_key(wrong)),
            Err(AppError::BadRequest(message.to_string()))
        );
    }
    // A number is no text.
    let mut config = Lookup::new();
    config.insert("publisher_key".to_string(), Value::Int(5));
    assert_eq!(
        parse_publisher_key(&config).unwrap(),
        PublisherKeyAction::Keep
    );
}

fn message(config: &Lookup<String, Value>) -> String {
    match parse_config(config) {
        Err(AppError::BadRequest(m)) => m,
        _ => panic!("a bad request was expected"),
    }
}

#[test]
fn a_form_must_be_complete() {
    assert_eq!(
        message(&form(&[])),
        "Pick a category (Game-specific or Account-level)"
    );
    assert_eq!(
        message(&form(&[("condition_category", "other")])),
        "Pick a category (Game-specific or Account-level)"
    );
    assert_eq!(
        message(&form(&[("condition_category", "game")])),
        "Pick a condition type"
    );
    assert_eq!(
        message(&form(&[
            ("condition_category", "account"),
            ("condition_field_account", "nope")
        ])),
        "Invalid condition field 'nope'"
    );
    assert_eq!(
        message(&form(&[
            ("condition_category", "game"),
            ("condition_field_game", "steamLevel")
        ])),
        "That condition is account-level — switch the category to Account."
    );
    assert_eq!(
        message(&form(&[
            ("condition_category", "account"),
            ("condition_field_account", "ownsGame")
        ])),
        "That condition is game-specific — switch the category to Game."
    );
    assert_eq!(
        message(&form(&[
            ("condition_category", "game"),
            ("condition_field_game", "ownsGame"),
            ("app_id", "   ")
        ])),
        "Steam App ID is required for 'ownsGame'"
    );
    assert_eq!(
        message(&form(&[
            ("condition_category", "account"),
            ("condition_field_account", "steamLevel")
        ])),
        "Pick a comparison (>=, =, between, …)"
    );
    assert_eq!(
        message(&form(&[
            ("condition_category", "account"),
            ("condition_field_account", "steamLevel"),
            ("operator_account", "like")
        ])),
        "Invalid operator 'like'"
    );
    assert_eq!(
        message(&form(&[
            ("condition_category", "account"),
            ("condition_field_account", "steamLevel"),
            ("operator_account", "gte"),
            ("value_num_account", "ten")
        ])),
        "Numeric value is required"
    );
    assert_eq!(
        message(&form(&[
            ("condition_category", "account"),
            ("condition_field_account", "inGroup"),
            ("value_group", " ")
        ])),
        "Value is required"
    );
    assert_eq!(
        message(&form(&[
            ("condition_category", "account"),
            ("condition_field_account", "steamLevel"),
            ("operator_account", "between"),
            ("value_num_account", "10")
        ])),
        "End value is required for the between operator"
    );
    assert_eq!(
        message(&form(&[
            ("condition_category", "account"),
            ("condition_field_account", "steamLevel"),
            ("operator_account", "between"),
            ("value_num_account", "10"),
            ("value_end_account", "9")
        ])),
        "Start value must be less than or equal to end value"
    );
}

#[test]
fn a_range_is_read_from_numbers_and_texts() {
    let mut config = form(&[
        ("condition_category", "account"),
        ("condition_field_account", "steamLevel"),
        ("operator_account", "between"),
        ("value_num_account", "-3"),
    ]);
    config.insert("value_end_account".to_string(), Value::Int(12));
    let list = parse_config(&config).unwrap();
    assert_eq!(list.len(), 1);
    assert_eq!(list[0].field, ConditionField::SteamLevel);
    assert_eq!(list[0].operator, ConditionOperator::Between);
    assert_eq!(list[0].value, Value::Int(-3));
    assert_eq!(list[0].value_end, Some(Value::Int(12)));
    assert_eq!(list[0].app_id, None);
}

#[test]
fn a_game_condition_is_read() {
    let list = parse_config(&form(&[
        ("condition_category", "game"),
        ("condition_field_game", "hasAchievement"),
        ("app_id", " 730 "),
        ("value_achievement", " WIN_BOMB_DEFUSE "),
        ("operator_game", "gt"),
    ]))
    .unwrap();
    assert_eq!(list[0].operator, ConditionOperator::Eq);
    assert_eq!(list[0].value, Value::Text("WIN_BOMB_DEFUSE".to_string()));
    assert_eq!(list[0].app_id, Some("730".to_string()));
    assert_eq!(list[0].value_end, None);
}

#[test]
fn truth_values_are_read_and_default_to_yes() {
    let with = |entries: &[(&str, &str)]| {
        let mut all = vec![
            ("condition_category", "account"),
            ("condition_field_account", "isVACBanned"),
        ];
        all.extend_from_slice(entries);
        parse_config(&form(&all)).unwrap().remove(0).value
    };
    assert_eq!(with(&[]), Value::Bool(true));
    assert_eq!(with(&[("value_bool_account", "true")]), Value::Bool(true));
    assert_eq!(with(&[("value_bool_account", "false")]), Value::Bool(false));
    assert_eq!(with(&[("value_bool_account", "yes")]), Value::Bool(false));
}

#[test]
fn country_codes_are_stored_in_capitals() {
    let code = |typed: &str| {
        parse_config(&form(&[
            ("condition_category", "account"),
            ("condition_field_account", "countryCode"),
            ("value_country", typed),
        ]))
        .unwrap()
        .remove(0)
        .value
    };
    assert_eq!(code(" us "), Value::Text("US".to_string()));
    assert_eq!(code("ß"), Value::Text("SS".to_string()));
}

#[test]
fn the_config_leads_to_the_page_of_the_role_link() {
    let v = build_iframe_config("https://a.example/steam-player-role", "1", "2");
    assert_eq!(v.get_i64("version"), Some(1));
    assert_eq!(v.get_text("ui_mode"), Some("iframe"));
    assert_eq!(v.get_text("name"), Some("Steam Player Roles"));
    assert_eq!(
        v.get_text("embed_url"),
        Some("https://a.example/steam-player-role/admin/1/role/2")
    );
    assert_eq!(v.get_bool("supports_impersonation_readonly"), Some(true));
    assert_eq!(accept_empty_config().get_bool("success"), Some(true));
}
