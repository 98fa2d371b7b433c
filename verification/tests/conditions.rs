use steam_player_role::json::Value;
use steam_player_role::models::condition::{Condition, ConditionField, ConditionOperator};
use steam_player_role::services::condition_sql::{build_condition_where, ConditionBind};

const FIELDS: [(ConditionField, &str); 13] = [
    (ConditionField::OwnsGame, "ownsGame"),
    (ConditionField::GamePlaytime, "gamePlaytime"),
    (ConditionField::RecentPlaytime, "recentPlaytime"),
    (ConditionField::AchievementCount, "achievementCount"),
    (ConditionField::AchievementPercent, "achievementPercent"),
    (ConditionField::HasAchievement, "hasAchievement"),
    (ConditionField::SteamLevel, "steamLevel"),
    (ConditionField::AccountAgeDays, "accountAgeDays"),
    (ConditionField::TotalGamesOwned, "totalGamesOwned"),
    (ConditionField::IsVACBanned, "isVACBanned"),
    (ConditionField::IsGameBanned, "isGameBanned"),
    (ConditionField::InGroup, "inGroup"),
    (ConditionField::CountryCode, "countryCode"),
];

#[test]
fn fields_have_names_that_lead_back() {
    for (field, key) in FIELDS {
        assert_eq!(field.json_key(), key);
        assert_eq!(ConditionField::from_key(key), Some(field));
    }
    assert_eq!(ConditionField::from_key("OwnsGame"), None);
    assert_eq!(ConditionField::from_key(""), None);
}

#[test]
fn fields_are_of_one_class() {
    for (i, (field, _)) in FIELDS.iter().enumerate() {
        assert_eq!(field.requires_app_id(), i < 6);
        let classes = [field.is_boolean(), field.is_string_exact(), field.is_numeric()];
        assert_eq!(classes.iter().filter(|c| **c).count(), 1);
    }
    assert!(ConditionField::OwnsGame.is_boolean());
    assert!(ConditionField::HasAchievement.is_string_exact());
    assert!(ConditionField::AchievementPercent.is_numeric());
}

#[test]
fn columns_of_fields() {
    let columns: Vec<Option<&str>> = FIELDS.iter().map(|(f, _)| f.sql_column()).collect();
    assert_eq!(
        columns,
        vec![
            None,
            None,
            None,
            None,
            None,
            None,
            Some("uc.steam_level"),
            None,
            Some("uc.total_games_owned"),
            Some("uc.is_vac_banned"),
            Some("uc.is_game_banned"),
            None,
            Some("uc.country_code"),
        ]
    );
}

#[test]
fn operators_have_names_and_sql() {
    for (operator, key, sql) in [
        (ConditionOperator::Eq, "eq", "="),
        (ConditionOperator::Gt, "gt", ">"),
        (ConditionOperator::Gte, "gte", ">="),
        (ConditionOperator::Lt, "lt", "<"),
        (ConditionOperator::Lte, "lte", "<="),
        (ConditionOperator::Between, "between", "BETWEEN"),
    ] {
        assert_eq!(operator.key(), key);
        assert_eq!(operator.sql_operator(), sql);
        assert_eq!(ConditionOperator::from_key(key), Some(operator));
    }
    assert_eq!(ConditionOperator::from_key("ne"), None);
}

fn condition(
    field: ConditionField,
    operator: ConditionOperator,
    value: Value,
    end: Option<i64>,
    app_id: Option<&str>,
) -> Condition {
    Condition {
        field,
        operator,
        value,
        value_end: end.map(Value::Int),
        app_id: app_id.map(String::from),
    }
}

fn one(c: Condition) -> (String, Vec<ConditionBind>) {
    build_condition_where(&[c], false)
}

#[test]
fn numbers_are_compared_in_sql() {
    assert_eq!(
        one(condition(
            ConditionField::SteamLevel,
            ConditionOperator::Gte,
            Value::Int(10),
            None,
            None
        )),
        ("uc.steam_level >= $1".to_string(), vec![ConditionBind::Int(10)])
    );
    assert_eq!(
        one(condition(
            ConditionField::TotalGamesOwned,
            ConditionOperator::Between,
            Value::Int(1),
            Some(5),
            None
        )),
        (
            "uc.total_games_owned >= $1 AND uc.total_games_owned <= $2".to_string(),
            vec![ConditionBind::Int(1), ConditionBind::Int(5)]
        )
    );
    assert_eq!(
        one(condition(
            ConditionField::AccountAgeDays,
            ConditionOperator::Lt,
            Value::Null,
            None,
            None
        )),
        (
            "EXTRACT(EPOCH FROM (now() - uc.account_created)) / 86400 < $1".to_string(),
            vec![ConditionBind::Int(0)]
        )
    );
    assert_eq!(
        one(condition(
            ConditionField::AccountAgeDays,
            ConditionOperator::Between,
            Value::Int(3),
            None,
            None
        )),
        (
            "EXTRACT(EPOCH FROM (now() - uc.account_created)) / 86400 >= $1 AND EXTRACT(EPOCH FROM (now() - uc.account_created)) / 86400 <= $2".to_string(),
            vec![ConditionBind::Int(3), ConditionBind::Int(3)]
        )
    );
}

#[test]
fn texts_and_truths_are_compared_in_sql() {
    assert_eq!(
        one(condition(
            ConditionField::IsVACBanned,
            ConditionOperator::Eq,
            Value::Bool(false),
            None,
            None
        )),
        ("uc.is_vac_banned = $1".to_string(), vec![ConditionBind::Bool(false)])
    );
    assert_eq!(
        one(condition(
            ConditionField::IsGameBanned,
            ConditionOperator::Eq,
            Value::Null,
            None,
            None
        )),
        ("uc.is_game_banned = $1".to_string(), vec![ConditionBind::Bool(true)])
    );
    assert_eq!(
        one(condition(
            ConditionField::CountryCode,
            ConditionOperator::Eq,
            Value::Text("US".to_string()),
            None,
            None
        )),
        (
            "LOWER(uc.country_code) = LOWER($1)".to_string(),
            vec![ConditionBind::Text("US".to_string())]
        )
    );
    assert_eq!(
        one(condition(
            ConditionField::InGroup,
            ConditionOperator::Eq,
            Value::Text("1".to_string()),
            None,
            None
        )),
        (
            "uc.groups @> concat('[{\"gid\":\"', $1::text, '\"}]')::jsonb".to_string(),
            vec![ConditionBind::Text("1".to_string())]
        )
    );
}

#[test]
fn ownership_is_looked_up_in_the_library_unless_skipped() {
    let owns = |expected: bool| {
        condition(
            ConditionField::OwnsGame,
            ConditionOperator::Eq,
            Value::Bool(expected),
            None,
            Some("730"),
        )
    };
    assert_eq!(
        one(owns(true)),
        (
            "uc.owned_games @> concat('[{\"appid\":', $1::text, '}]')::jsonb".to_string(),
            vec![ConditionBind::Int(730)]
        )
    );
    assert_eq!(
        one(owns(false)).0,
        "NOT (uc.owned_games @> concat('[{\"appid\":', $1::text, '}]')::jsonb)"
    );
    assert_eq!(
        build_condition_where(&[owns(true)], true),
        ("TRUE".to_string(), vec![])
    );
}

#[test]
fn filters_are_joined_and_numbered() {
    let list = [
        condition(
            ConditionField::GamePlaytime,
            ConditionOperator::Gte,
            Value::Int(1),
            None,
            Some("1"),
        ),
        condition(
            ConditionField::SteamLevel,
            ConditionOperator::Between,
            Value::Int(1),
            Some(2),
            None,
        ),
        condition(
            ConditionField::CountryCode,
            ConditionOperator::Eq,
            Value::Text("DE".to_string()),
            None,
            None,
        ),
    ];
    assert_eq!(
        build_condition_where(&list, false),
        (
            "uc.steam_level >= $1 AND uc.steam_level <= $2 AND LOWER(uc.country_code) = LOWER($3)"
                .to_string(),
            vec![
                ConditionBind::Int(1),
                ConditionBind::Int(2),
                ConditionBind::Text("DE".to_string())
            ]
        )
    );
    assert_eq!(
        build_condition_where(&[], false),
        ("TRUE".to_string(), vec![])
    );
}

#[test]
fn values_reach_only_the_binds() {
    let list = |level: i64, country: &str, app: &str| {
        [
            condition(
                ConditionField::SteamLevel,
                ConditionOperator::Between,
                Value::Int(level),
                Some(level),
                None,
            ),
            condition(
                ConditionField::CountryCode,
                ConditionOperator::Eq,
                Value::Text(country.to_string()),
                None,
                None,
            ),
            condition(
                ConditionField::OwnsGame,
                ConditionOperator::Eq,
                Value::Bool(true),
                None,
                Some(app),
            ),
        ]
    };
    let (sql, binds) = build_condition_where(&list(1, "DE", "730"), false);
    let (same, others) = build_condition_where(&list(-9, "' OR $4", "1); --"), false);
    assert_eq!(sql, same);
    assert_eq!(binds.len(), others.len());
    assert_ne!(binds, others);
    for n in 1..=binds.len() {
        assert!(sql.contains(&format!("${n}")));
    }
    assert!(!sql.contains(&format!("${}", binds.len() + 1)));
}
