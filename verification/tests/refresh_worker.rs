use steam_player_role::clock::Delay;
use steam_player_role::json::Value;
use steam_player_role::models::condition::{Condition, ConditionField, ConditionOperator};
use steam_player_role::services::quota::QuotaSnapshot;
use steam_player_role::services::steam_api::{OwnedGame, SteamGroup};
use steam_player_role::tasks::data_hash::{compute_data_hash, data_text};
use steam_player_role::tasks::refresh_worker::{
    compute_interval, next_streak, pause_secs, stability_factor, triage, CachedInterval,
    NeedsCache, RefreshNeeds, Triage, MAX_REFRESH_SECS, MIN_REFRESH_SECS,
};

#[test]
fn stability_curve_grows_and_caps() {
    // 1,1,2,2,4,4,8,8,16,16… — doubles every two stable checks, caps 16×.
    assert_eq!(stability_factor(0), 1);
    assert_eq!(stability_factor(1), 1);
    assert_eq!(stability_factor(2), 2);
    assert_eq!(stability_factor(3), 2);
    assert_eq!(stability_factor(4), 4);
    assert_eq!(stability_factor(6), 8);
    assert_eq!(stability_factor(8), 16);
    assert_eq!(stability_factor(100), 16); // capped
}

#[test]
fn churny_user_interval_stays_within_a_day() {
    // Freshly changed data (streak 0): even inactive users cap at 24h.
    assert_eq!(
        compute_interval(MAX_REFRESH_SECS, false, 0, 604_800),
        MAX_REFRESH_SECS
    );
    assert_eq!(
        compute_interval(MIN_REFRESH_SECS, true, 0, 604_800),
        MIN_REFRESH_SECS
    );
}

#[test]
fn stable_user_interval_stretches_to_the_stable_cap() {
    // Long-stable active user at a 24h base: 24h × 16 clamps to 7d.
    assert_eq!(
        compute_interval(MAX_REFRESH_SECS, true, 100, 604_800),
        604_800
    );
    // A small stable cap can never squeeze below the 24h churn cap.
    assert_eq!(
        compute_interval(MAX_REFRESH_SECS, true, 100, 1),
        MAX_REFRESH_SECS
    );
}

fn game(appid: i64, minutes: i64) -> OwnedGame {
    OwnedGame {
        appid,
        name: None,
        playtime_forever: Some(minutes),
        playtime_2weeks: None,
    }
}

#[test]
fn data_hash_ignores_minute_level_playtime_drift() {
    let a = compute_data_hash(
        Some(&[game(730, 600)]),
        Some(1),
        Some(true),
        None,
        None,
        false,
        false,
        "US",
    );
    // 610 minutes is the same hour bucket as 600.
    let b = compute_data_hash(
        Some(&[game(730, 610)]),
        Some(1),
        Some(true),
        None,
        None,
        false,
        false,
        "US",
    );
    // 660 minutes crosses into the next hour.
    let c = compute_data_hash(
        Some(&[game(730, 660)]),
        Some(1),
        Some(true),
        None,
        None,
        false,
        false,
        "US",
    );
    assert_eq!(a, b);
    assert_ne!(a, c);
}

#[test]
fn data_hash_reacts_to_library_and_shape_changes() {
    let base = compute_data_hash(
        Some(&[game(730, 600)]),
        Some(1),
        Some(true),
        None,
        None,
        false,
        false,
        "US",
    );
    // New game in the library.
    let new_game = compute_data_hash(
        Some(&[game(730, 600), game(570, 0)]),
        Some(2),
        Some(true),
        None,
        None,
        false,
        false,
        "US",
    );
    // Same data but games not fetched (needs changed shape).
    let skipped = compute_data_hash(None, None, None, None, None, false, false, "US");
    // Library flipped private.
    let private = compute_data_hash(
        Some(&[]),
        Some(0),
        Some(false),
        None,
        None,
        false,
        false,
        "US",
    );
    assert_ne!(base, new_game);
    assert_ne!(base, skipped);
    assert_ne!(base, private);
}

fn cond(field: ConditionField, app_id: Option<&str>) -> Condition {
    Condition {
        field,
        operator: ConditionOperator::Eq,
        value: Value::Bool(true),
        value_end: None,
        app_id: app_id.map(String::from),
    }
}

#[test]
fn needs_derive_only_referenced_classes() {
    let rows = vec![(
        "g1".to_string(),
        vec![cond(ConditionField::SteamLevel, None)],
        None,
    )];
    let needs = RefreshNeeds::from_rows(&rows);
    assert!(needs.need_level);
    assert!(!needs.need_games);
    assert!(!needs.need_groups);
    assert!(!needs.needs_guild_scope());
    // level single + amortized batch call
    assert_eq!(needs.estimated_cost_per_user(), 2);

    // Account-only deployments still cost the batched baseline.
    let none = RefreshNeeds::from_rows(&[(
        "g1".to_string(),
        vec![cond(ConditionField::IsVACBanned, None)],
        None,
    )]);
    assert!(!none.need_games && !none.need_level && !none.need_groups);
    assert_eq!(none.estimated_cost_per_user(), 1);
}

#[test]
fn needs_scope_achievements_and_ownership_by_guild() {
    let rows = vec![
        (
            "g1".to_string(),
            vec![cond(ConditionField::HasAchievement, Some("730"))],
            None,
        ),
        (
            "g2".to_string(),
            vec![cond(ConditionField::OwnsGame, Some("440"))],
            Some("PUBKEY".to_string()),
        ),
        (
            // OwnsGame without a publisher key: library only, no pair.
            "g3".to_string(),
            vec![cond(ConditionField::OwnsGame, Some("570"))],
            None,
        ),
    ];
    let needs = RefreshNeeds::from_rows(&rows);
    assert!(needs.need_games);
    assert!(needs.needs_guild_scope());
    assert_eq!(
        needs.achievement_apps.get_str("730").unwrap().members,
        vec!["g1".to_string()]
    );
    assert_eq!(
        needs
            .ownership_pairs
            .get(&("440".to_string(), "PUBKEY".to_string()))
            .unwrap()
            .members,
        vec!["g2".to_string()]
    );
    assert!(needs
        .ownership_pairs
        .get(&("570".to_string(), "PUBKEY".to_string()))
        .is_none());
}

#[test]
fn needs_collect_every_guild_once() {
    let row = |guild: &str| {
        (
            guild.to_string(),
            vec![
                cond(ConditionField::AchievementCount, Some("730")),
                cond(ConditionField::InGroup, None),
            ],
            None,
        )
    };
    let needs = RefreshNeeds::from_rows(&[row("g1"), row("g2"), row("g1")]);
    assert!(needs.need_groups);
    let guilds = needs.achievement_apps.get_str("730").unwrap();
    assert_eq!(guilds.members.len(), 2);
    assert!(guilds.contains("g1") && guilds.contains("g2"));
}

#[test]
fn needs_stay_when_they_cannot_be_read() {
    assert!(!NeedsCache::due(&Delay { secs: 59, nanos: 999_999_999 }));
    assert!(NeedsCache::due(&Delay { secs: 60, nanos: 0 }));
    let rows = vec![(
        "g1".to_string(),
        vec![cond(ConditionField::SteamLevel, None)],
        None,
    )];
    let cache = NeedsCache::new().get(Some(&rows));
    assert!(cache.needs.need_level);
    let cache = cache.get(None);
    assert!(cache.needs.need_level);
    let cache = cache.get(Some(&[]));
    assert!(!cache.needs.need_level);
}

#[test]
fn base_interval_follows_players_cost_and_quota() {
    let mut c = CachedInterval::new(100_000);
    assert_eq!(c.value, MIN_REFRESH_SECS);
    assert!(!CachedInterval::due(&Delay { secs: 299, nanos: 0 }));
    assert!(CachedInterval::due(&Delay { secs: 300, nanos: 0 }));
    assert_eq!(c.get(0, 2), MIN_REFRESH_SECS);
    assert_eq!(c.get(1, 2), MIN_REFRESH_SECS);
    // 10000 × 86400 × 2 / 100000
    assert_eq!(c.get(10_000, 2), 17_280);
    assert_eq!(c.value, 17_280);
    assert_eq!(c.get(10_000, 0), 8_640);
    assert_eq!(c.get(1_000_000, 4), MAX_REFRESH_SECS);
    assert_eq!(CachedInterval::new(0).daily_quota, 1);
}

#[test]
fn intervals_are_bounded_and_never_shrink_with_stability() {
    for base in [-5, 0, 1_800, 7_200, 86_400, 1_000_000] {
        for active in [true, false] {
            let mut before = 0;
            for streak in [-4, 0, 1, 2, 3, 4, 5, 6, 7, 8, 9, 100] {
                let i = compute_interval(base, active, streak, 604_800);
                assert!(MIN_REFRESH_SECS <= i && i <= 604_800);
                assert!(before <= i);
                before = i;
            }
        }
    }
    assert_eq!(compute_interval(2_000, false, 0, 604_800), 12_000);
    assert_eq!(compute_interval(2_000, true, 2, 604_800), 4_000);
}

#[test]
fn streaks_grow_to_a_hundred_and_start_anew() {
    assert_eq!(next_streak("a", "a", 0), 1);
    assert_eq!(next_streak("a", "a", 99), 100);
    assert_eq!(next_streak("a", "a", 100), 100);
    assert_eq!(next_streak("a", "b", 50), 0);
    assert_eq!(next_streak("a", "a", i32::MAX), 100);
    assert_eq!(next_streak("a", "b", i32::MAX), 0);
}

#[test]
fn pauses_are_bounded() {
    assert_eq!(pause_secs(0), 5);
    assert_eq!(pause_secs(5), 5);
    assert_eq!(pause_secs(77), 77);
    assert_eq!(pause_secs(900), 900);
    assert_eq!(pause_secs(u64::MAX), 900);
}

#[test]
fn workers_pause_or_serve_users_or_work() {
    let snap = |used: i64, throttled: bool, reset_in_secs: i64| QuotaSnapshot {
        date: 0,
        used,
        total_budget: 100,
        background_budget: 80,
        reset_in_secs,
        throttled,
    };
    assert_eq!(
        triage(&snap(0, false, 50)),
        Triage::Work {
            interactive_only: false
        }
    );
    assert_eq!(
        triage(&snap(80, false, 50)),
        Triage::Work {
            interactive_only: true
        }
    );
    assert_eq!(triage(&snap(100, false, 50)), Triage::Pause(50));
    assert_eq!(triage(&snap(0, true, 50_000)), Triage::Pause(900));
    assert_eq!(triage(&snap(100, false, 0)), Triage::Pause(5));
}

fn group(gid: &str) -> SteamGroup {
    SteamGroup {
        gid: gid.to_string(),
    }
}

#[test]
fn the_text_of_a_snapshot() {
    assert_eq!(
        data_text(
            Some(&[game(730, 610), game(440, 59), game(1000, -61)]),
            Some(3),
            Some(true),
            Some(-7),
            Some(&[group("b"), group("a")]),
            true,
            false,
            "DE",
        ),
        "v1\ngames=1000:-1:0,440:0:0,730:10:0\ncount=3\nlibvis=true\nlevel=-7\ngroups=a,b\nbans=true:false\ncountry=DE\n"
    );
    assert_eq!(
        data_text(None, None, None, None, None, false, true, ""),
        "v1\ngames=skip\ncount=skip\nlibvis=skip\nlevel=skip\ngroups=skip\nbans=false:true\ncountry=\n"
    );
}

#[test]
fn the_hash_is_the_hexadecimal_digest_of_the_text() {
    let t = data_text(None, None, None, None, None, false, false, "US");
    let h = compute_data_hash(None, None, None, None, None, false, false, "US");
    let d: Vec<String> = <sha2::Sha256 as sha2::Digest>::digest(t.as_bytes())
        .iter()
        .map(|b| format!("{b:02x}"))
        .collect();
    assert_eq!(h, d.concat());
    assert_eq!(h.len(), 64);
}

#[test]
fn order_of_games_and_groups_does_not_show() {
    let hash = |games: &[OwnedGame], groups: &[SteamGroup]| {
        compute_data_hash(
            Some(games),
            Some(2),
            Some(true),
            Some(1),
            Some(groups),
            false,
            false,
            "US",
        )
    };
    assert_eq!(
        hash(&[game(1, 60), game(2, 120)], &[group("x"), group("y")]),
        hash(&[game(2, 121), game(1, 119)], &[group("y"), group("x")])
    );
    assert_ne!(
        hash(&[game(1, 60), game(2, 120)], &[group("x"), group("y")]),
        hash(&[game(1, 120), game(2, 60)], &[group("x"), group("y")])
    );
}

#[test]
fn what_was_not_fetched_shows() {
    let text = |count: Option<i64>, visible: Option<bool>, level: Option<i32>, groups: bool| {
        let list = [group("1")];
        data_text(
            Some(&[]),
            count,
            visible,
            level,
            if groups { Some(&list) } else { None },
            false,
            false,
            "",
        )
    };
    let all = text(Some(0), Some(false), Some(0), true);
    assert_ne!(all, text(None, Some(false), Some(0), true));
    assert_ne!(all, text(Some(0), None, Some(0), true));
    assert_ne!(all, text(Some(0), Some(true), Some(0), true));
    assert_ne!(all, text(Some(0), Some(false), None, true));
    assert_ne!(all, text(Some(0), Some(false), Some(0), false));
}
