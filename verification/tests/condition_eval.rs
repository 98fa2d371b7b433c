use steam_player_role::clock::Timestamp;
use steam_player_role::json::Value;
use steam_player_role::lookup::Lookup;
use steam_player_role::models::condition::{Condition, ConditionField, ConditionOperator};
use steam_player_role::services::condition_eval::{
    compare, evaluate_conditions, evaluate_conditions_at, AppOwnershipRow, GameAchievementRow,
    UserCacheRow,
};

fn object(entries: &[(&str, Value)]) -> Value {
    Value::Object(
        entries
            .iter()
            .map(|(k, v)| (k.to_string(), v.copy()))
            .collect(),
    )
}

fn text(s: &str) -> Value {
    Value::Text(s.to_string())
}

fn timestamp(t: chrono::DateTime<chrono::Utc>) -> Timestamp {
    Timestamp {
        secs: t.timestamp(),
        nanos: t.timestamp_subsec_nanos(),
    }
}

fn sample_user_cache() -> UserCacheRow {
    UserCacheRow {
        steam_id: "76561198012345678".to_string(),
        owned_games: Value::Array(vec![
            object(&[
                ("appid", Value::Int(730)),
                ("name", text("Counter-Strike 2")),
                ("playtime_forever", Value::Int(12000)),
                ("playtime_2weeks", Value::Int(120)),
            ]),
            object(&[
                ("appid", Value::Int(570)),
                ("name", text("Dota 2")),
                ("playtime_forever", Value::Int(600)),
            ]),
        ]),
        groups: Value::Array(vec![
            object(&[("gid", text("103582791429521408"))]),
            object(&[("gid", text("103582791432297141"))]),
        ]),
        steam_level: 25,
        account_created: Some(timestamp(chrono::Utc::now() - chrono::Duration::days(3650))),
        total_games_owned: 150,
        is_vac_banned: false,
        is_game_banned: false,
        country_code: "US".to_string(),
    }
}

fn sample_achievements() -> Lookup<String, GameAchievementRow> {
    let mut map = Lookup::new();
    map.insert(
        "730".to_string(),
        GameAchievementRow {
            total_count: 67,
            unlocked_count: 35,
            achievements: Value::Array(vec![
                object(&[
                    ("apiname", text("WIN_BOMB_DEFUSE")),
                    ("achieved", Value::Int(1)),
                    ("unlocktime", Value::Int(1600000000)),
                ]),
                object(&[
                    ("apiname", text("KILL_ENEMY_RELOADING")),
                    ("achieved", Value::Int(1)),
                    ("unlocktime", Value::Int(1600000001)),
                ]),
                object(&[
                    ("apiname", text("UNSTOPPABLE_FORCE")),
                    ("achieved", Value::Int(0)),
                ]),
            ]),
        },
    );
    map
}

fn condition(
    field: ConditionField,
    operator: ConditionOperator,
    value: Value,
    value_end: Option<Value>,
    app_id: Option<&str>,
) -> Condition {
    Condition {
        field,
        operator,
        value,
        value_end,
        app_id: app_id.map(String::from),
    }
}

fn holds(conditions: &[Condition]) -> bool {
    evaluate_conditions(
        conditions,
        &sample_user_cache(),
        &sample_achievements(),
        None,
    )
}

#[test]
fn test_owns_game_true() {
    let conditions = vec![condition(
        ConditionField::OwnsGame,
        ConditionOperator::Eq,
        Value::Bool(true),
        None,
        Some("730"),
    )];
    assert!(holds(&conditions));
}

#[test]
fn test_owns_game_false() {
    let conditions = vec![condition(
        ConditionField::OwnsGame,
        ConditionOperator::Eq,
        Value::Bool(true),
        None,
        Some("999999"),
    )];
    assert!(!holds(&conditions));
}

#[test]
fn test_game_playtime() {
    // 12000 minutes = 200 hours
    let conditions = vec![condition(
        ConditionField::GamePlaytime,
        ConditionOperator::Gte,
        Value::Int(100),
        None,
        Some("730"),
    )];
    assert!(holds(&conditions));
}

#[test]
fn test_steam_level() {
    let conditions = vec![condition(
        ConditionField::SteamLevel,
        ConditionOperator::Gte,
        Value::Int(10),
        None,
        None,
    )];
    assert!(holds(&conditions));
}

#[test]
fn test_is_vac_banned_false() {
    let conditions = vec![condition(
        ConditionField::IsVACBanned,
        ConditionOperator::Eq,
        Value::Bool(false),
        None,
        None,
    )];
    assert!(holds(&conditions));
}

#[test]
fn test_in_group() {
    let conditions = vec![condition(
        ConditionField::InGroup,
        ConditionOperator::Eq,
        text("103582791429521408"),
        None,
        None,
    )];
    assert!(holds(&conditions));
}

#[test]
fn test_country_code() {
    let conditions = vec![condition(
        ConditionField::CountryCode,
        ConditionOperator::Eq,
        text("US"),
        None,
        None,
    )];
    assert!(holds(&conditions));
}

#[test]
fn test_has_achievement() {
    let conditions = vec![condition(
        ConditionField::HasAchievement,
        ConditionOperator::Eq,
        text("WIN_BOMB_DEFUSE"),
        None,
        Some("730"),
    )];
    assert!(holds(&conditions));
}

#[test]
fn test_has_achievement_not_unlocked() {
    let conditions = vec![condition(
        ConditionField::HasAchievement,
        ConditionOperator::Eq,
        text("UNSTOPPABLE_FORCE"),
        None,
        Some("730"),
    )];
    assert!(!holds(&conditions));
}

#[test]
fn test_achievement_percent() {
    // 35/67 ≈ 52%
    let conditions = vec![condition(
        ConditionField::AchievementPercent,
        ConditionOperator::Gte,
        Value::Int(50),
        None,
        Some("730"),
    )];
    assert!(holds(&conditions));
}

#[test]
fn test_between() {
    let conditions = vec![condition(
        ConditionField::SteamLevel,
        ConditionOperator::Between,
        Value::Int(20),
        Some(Value::Int(30)),
        None,
    )];
    assert!(holds(&conditions));
}

#[test]
fn test_account_age_days() {
    // ~3650 days old
    let conditions = vec![condition(
        ConditionField::AccountAgeDays,
        ConditionOperator::Gte,
        Value::Int(365),
        None,
        None,
    )];
    assert!(holds(&conditions));
}

#[test]
fn test_total_games_owned() {
    let conditions = vec![condition(
        ConditionField::TotalGamesOwned,
        ConditionOperator::Gte,
        Value::Int(100),
        None,
        None,
    )];
    assert!(holds(&conditions));
}

/// Cache row as it looks for a user whose game details are private:
/// GetOwnedGames returned no games key, so the library is empty.
fn private_library_user_cache() -> UserCacheRow {
    UserCacheRow {
        owned_games: Value::Array(vec![]),
        total_games_owned: 0,
        ..sample_user_cache()
    }
}

fn owns_game_condition(expected: bool) -> Vec<Condition> {
    vec![condition(
        ConditionField::OwnsGame,
        ConditionOperator::Eq,
        Value::Bool(expected),
        None,
        Some("730"),
    )]
}

fn publisher_ownership(
    owns_app: bool,
    permanent: bool,
    owner_steam_id: &str,
) -> Lookup<String, AppOwnershipRow> {
    let mut map = Lookup::new();
    map.insert(
        "730".to_string(),
        AppOwnershipRow {
            owns_app,
            permanent,
            owner_steam_id: owner_steam_id.to_string(),
        },
    );
    map
}

#[test]
fn test_publisher_ownership_grants_despite_private_library() {
    let ownership = publisher_ownership(true, true, "76561198012345678");
    assert!(evaluate_conditions(
        &owns_game_condition(true),
        &private_library_user_cache(),
        &sample_achievements(),
        Some(&ownership)
    ));
}

#[test]
fn test_publisher_ownership_overrides_stale_library() {
    // Library still lists the game (stale cache) but the publisher
    // check says the license is gone (refund/revocation).
    let ownership = publisher_ownership(false, true, "76561198012345678");
    assert!(!evaluate_conditions(
        &owns_game_condition(true),
        &sample_user_cache(),
        &sample_achievements(),
        Some(&ownership)
    ));
}

#[test]
fn test_publisher_ownership_excludes_family_sharing() {
    // Owned, but the license belongs to another account.
    let ownership = publisher_ownership(true, true, "76561198099999999");
    assert!(!evaluate_conditions(
        &owns_game_condition(true),
        &private_library_user_cache(),
        &sample_achievements(),
        Some(&ownership)
    ));
    // The inverted condition ("does NOT own") therefore matches.
    assert!(evaluate_conditions(
        &owns_game_condition(false),
        &private_library_user_cache(),
        &sample_achievements(),
        Some(&ownership)
    ));
}

#[test]
fn test_publisher_ownership_excludes_temporary_license() {
    // Free weekend: ownsapp=true but permanent=false.
    let ownership = publisher_ownership(true, false, "76561198012345678");
    assert!(!evaluate_conditions(
        &owns_game_condition(true),
        &private_library_user_cache(),
        &sample_achievements(),
        Some(&ownership)
    ));
}

#[test]
fn test_publisher_ownership_missing_app_falls_back_to_library() {
    // Publisher key configured but no cached result for this app yet —
    // fall back to the public library, which has the game.
    let ownership: Lookup<String, AppOwnershipRow> = Lookup::new();
    assert!(evaluate_conditions(
        &owns_game_condition(true),
        &sample_user_cache(),
        &sample_achievements(),
        Some(&ownership)
    ));
}

#[test]
fn test_no_publisher_key_ignores_ownership_data() {
    // Without a publisher key the caller passes None; a private
    // library means the game can't be seen, so no role.
    assert!(!evaluate_conditions(
        &owns_game_condition(true),
        &private_library_user_cache(),
        &sample_achievements(),
        None
    ));
}

#[test]
fn test_empty_conditions() {
    let conditions: Vec<Condition> = vec![];
    assert!(!evaluate_conditions(
        &conditions,
        &sample_user_cache(),
        &sample_achievements(),
        None
    ));
}

#[test]
fn test_multiple_conditions_and() {
    let conditions = vec![
        condition(
            ConditionField::OwnsGame,
            ConditionOperator::Eq,
            Value::Bool(true),
            None,
            Some("730"),
        ),
        condition(
            ConditionField::SteamLevel,
            ConditionOperator::Gte,
            Value::Int(10),
            None,
            None,
        ),
    ];
    assert!(evaluate_conditions(
        &conditions,
        &sample_user_cache(),
        &sample_achievements(),
        None
    ));
}

#[test]
fn one_failing_condition_is_enough() {
    let conditions = vec![
        condition(
            ConditionField::SteamLevel,
            ConditionOperator::Gte,
            Value::Int(10),
            None,
            None,
        ),
        condition(
            ConditionField::SteamLevel,
            ConditionOperator::Gte,
            Value::Int(26),
            None,
            None,
        ),
    ];
    assert!(!holds(&conditions));
}

fn on_level(operator: ConditionOperator, value: i64, end: Option<i64>) -> bool {
    holds(&[condition(
        ConditionField::SteamLevel,
        operator,
        Value::Int(value),
        end.map(Value::Int),
        None,
    )])
}

#[test]
fn every_operator_compares_exactly() {
    assert!(on_level(ConditionOperator::Eq, 25, None));
    assert!(!on_level(ConditionOperator::Eq, 24, None));
    assert!(on_level(ConditionOperator::Gt, 24, None));
    assert!(!on_level(ConditionOperator::Gt, 25, None));
    assert!(on_level(ConditionOperator::Gte, 25, None));
    assert!(!on_level(ConditionOperator::Gte, 26, None));
    assert!(on_level(ConditionOperator::Lt, 26, None));
    assert!(!on_level(ConditionOperator::Lt, 25, None));
    assert!(on_level(ConditionOperator::Lte, 25, None));
    assert!(!on_level(ConditionOperator::Lte, 24, None));
}

#[test]
fn comparisons_fit_together() {
    for value in [i64::MIN, 24, 25, 26, i64::MAX] {
        for end in [None, Some(24), Some(30)] {
            let on = |operator| on_level(operator, value, end);
            let lt = on(ConditionOperator::Lt);
            let eq = on(ConditionOperator::Eq);
            let gt = on(ConditionOperator::Gt);
            assert_eq!([lt, eq, gt].iter().filter(|b| **b).count(), 1);
            assert_eq!(on(ConditionOperator::Gte), !lt);
            assert_eq!(on(ConditionOperator::Lte), !gt);
        }
        assert_eq!(
            on_level(ConditionOperator::Between, value, None),
            on_level(ConditionOperator::Eq, value, None)
        );
    }
    let open = condition(
        ConditionField::SteamLevel,
        ConditionOperator::Between,
        Value::Int(25),
        Some(Value::Text("30".to_string())),
        None,
    );
    assert!(holds(&[open]));
}

#[test]
fn numbers_are_compared_with_every_operator() {
    let end = Some(Value::Int(7));
    for (operator, passing) in [
        (ConditionOperator::Eq, [false, true, false, false, false]),
        (ConditionOperator::Gt, [false, false, true, true, true]),
        (ConditionOperator::Gte, [false, true, true, true, true]),
        (ConditionOperator::Lt, [true, false, false, false, false]),
        (ConditionOperator::Lte, [true, true, false, false, false]),
        (ConditionOperator::Between, [false, true, true, true, false]),
    ] {
        for (actual, pass) in [i64::MIN, 5, 6, 7, i64::MAX].into_iter().zip(passing) {
            assert_eq!(compare(actual, 5, &operator, &end), pass);
        }
    }
    assert!(compare(5, 5, &ConditionOperator::Between, &None));
    assert!(!compare(6, 5, &ConditionOperator::Between, &None));
    assert!(!compare(6, 5, &ConditionOperator::Between, &Some(text("7"))));
    assert!(!compare(6, 7, &ConditionOperator::Between, &Some(Value::Int(5))));
}

#[test]
fn a_range_contains_both_ends() {
    assert!(on_level(ConditionOperator::Between, 25, Some(30)));
    assert!(on_level(ConditionOperator::Between, 20, Some(25)));
    assert!(!on_level(ConditionOperator::Between, 26, Some(30)));
    assert!(!on_level(ConditionOperator::Between, 20, Some(24)));
    // Without an end, the range is its start.
    assert!(on_level(ConditionOperator::Between, 25, None));
    assert!(!on_level(ConditionOperator::Between, 24, None));
}

#[test]
fn playtimes_are_whole_hours() {
    let hours = |field: ConditionField, app: &str, n: i64| {
        holds(&[condition(
            field,
            ConditionOperator::Eq,
            Value::Int(n),
            None,
            Some(app),
        )])
    };
    assert!(hours(ConditionField::GamePlaytime, "730", 200));
    assert!(hours(ConditionField::GamePlaytime, "570", 10));
    assert!(hours(ConditionField::RecentPlaytime, "730", 2));
    // No recent playtime, no such game, and no app id that is a number.
    assert!(hours(ConditionField::RecentPlaytime, "570", 0));
    assert!(hours(ConditionField::GamePlaytime, "1", 0));
    assert!(hours(ConditionField::GamePlaytime, "x", 0));
}

#[test]
fn achievements_are_counted_and_in_percent() {
    let exactly = |field: ConditionField, app: &str, n: i64| {
        holds(&[condition(
            field,
            ConditionOperator::Eq,
            Value::Int(n),
            None,
            Some(app),
        )])
    };
    assert!(exactly(ConditionField::AchievementCount, "730", 35));
    assert!(exactly(ConditionField::AchievementPercent, "730", 52));
    assert!(exactly(ConditionField::AchievementCount, "570", 0));
    assert!(exactly(ConditionField::AchievementPercent, "570", 0));
}

#[test]
fn percent_of_nothing_and_of_negative_counts() {
    let percent = |unlocked_count: i32, total_count: i32, n: i64| {
        let mut map = Lookup::new();
        map.insert(
            "1".to_string(),
            GameAchievementRow {
                total_count,
                unlocked_count,
                achievements: Value::Null,
            },
        );
        evaluate_conditions(
            &[condition(
                ConditionField::AchievementPercent,
                ConditionOperator::Eq,
                Value::Int(n),
                None,
                Some("1"),
            )],
            &sample_user_cache(),
            &map,
            None,
        )
    };
    assert!(percent(5, 0, 0));
    assert!(percent(1, 3, 33));
    assert!(percent(2, 3, 66));
    assert!(percent(1, -3, -33));
    assert!(percent(-1, 3, -33));
    assert!(percent(-1, -3, 33));
}

#[test]
fn a_game_condition_without_an_app_fails() {
    for field in [
        ConditionField::OwnsGame,
        ConditionField::GamePlaytime,
        ConditionField::RecentPlaytime,
        ConditionField::AchievementCount,
        ConditionField::AchievementPercent,
        ConditionField::HasAchievement,
    ] {
        assert!(!holds(&[condition(
            field,
            ConditionOperator::Gte,
            Value::Int(0),
            None,
            None
        )]));
    }
}

#[test]
fn country_codes_ignore_case() {
    for code in ["US", "us", "uS"] {
        assert!(holds(&[condition(
            ConditionField::CountryCode,
            ConditionOperator::Eq,
            text(code),
            None,
            None
        )]));
    }
    assert!(!holds(&[condition(
        ConditionField::CountryCode,
        ConditionOperator::Eq,
        text("DE"),
        None,
        None
    )]));
}

#[test]
fn bans_and_groups_that_are_not_there() {
    assert!(!holds(&[condition(
        ConditionField::IsGameBanned,
        ConditionOperator::Eq,
        Value::Bool(true),
        None,
        None
    )]));
    // A value that is no truth value counts as yes.
    assert!(!holds(&[condition(
        ConditionField::IsGameBanned,
        ConditionOperator::Eq,
        Value::Null,
        None,
        None
    )]));
    assert!(!holds(&[condition(
        ConditionField::InGroup,
        ConditionOperator::Eq,
        text("1"),
        None,
        None
    )]));
}

#[test]
fn age_is_counted_in_whole_days_at_a_given_time() {
    let created = Timestamp {
        secs: 1_000_000_000,
        nanos: 500,
    };
    let user = UserCacheRow {
        account_created: Some(created),
        ..sample_user_cache()
    };
    let age_is = |days: i64, now: Timestamp| {
        evaluate_conditions_at(
            &[condition(
                ConditionField::AccountAgeDays,
                ConditionOperator::Eq,
                Value::Int(days),
                None,
                None,
            )],
            &user,
            &sample_achievements(),
            None,
            &now,
        )
    };
    let at = |secs: i64, nanos: u32| Timestamp { secs, nanos };
    assert!(age_is(0, at(1_000_086_400, 499)));
    assert!(age_is(1, at(1_000_086_400, 500)));
    assert!(age_is(10, at(1_000_864_000, 500)));
    // Before the account was created.
    assert!(age_is(0, at(999_999_999, 0)));
    assert!(age_is(-1, at(999_913_600, 500)));
}

#[test]
fn age_of_an_unknown_account_is_none() {
    let user = UserCacheRow {
        account_created: None,
        ..sample_user_cache()
    };
    assert!(evaluate_conditions(
        &[condition(
            ConditionField::AccountAgeDays,
            ConditionOperator::Eq,
            Value::Int(0),
            None,
            None,
        )],
        &user,
        &sample_achievements(),
        None
    ));
}
