use steam_player_role::clock::{Timestamp, FIRST_SECOND, LAST_SECOND};
use steam_player_role::error::AppError;
use steam_player_role::json::Value;
use steam_player_role::lookup::TextSet;
use steam_player_role::models::condition::{Condition, ConditionField, ConditionOperator};
use steam_player_role::services::quota::Class;
use steam_player_role::services::steam_api::{
    Achievement, AppOwnership, OwnedGame, OwnedGamesResult, PlayerBan, PlayerSummary, SteamGroup,
};
use steam_player_role::tasks::data_hash::compute_data_hash;
use steam_player_role::tasks::refresh_batch::{
    process_batch, BatchCommand, BatchEffect, BatchInput, BatchRefresh, Claimed, Owner,
};
use steam_player_role::tasks::refresh_user::{
    commit_record, refresh_class, refresh_class_at, refresh_user, start_refresh, BatchUser, Stage,
    UserCommand, UserInput, UserRefresh,
};
use steam_player_role::tasks::refresh_worker::RefreshNeeds;

fn s(t: &str) -> String {
    t.to_string()
}

fn at(secs: i64) -> Timestamp {
    Timestamp { secs, nanos: 0 }
}

fn cond(field: ConditionField, app_id: Option<&str>) -> Condition {
    Condition {
        field,
        operator: ConditionOperator::Eq,
        value: Value::Bool(true),
        value_end: None,
        app_id: app_id.map(String::from),
    }
}

fn guilds(list: &[&str]) -> TextSet {
    let mut set = TextSet::new();
    for g in list {
        set.insert(s(g));
    }
    set
}

fn all_needs() -> RefreshNeeds {
    RefreshNeeds::from_rows(&[
        (
            s("g1"),
            vec![
                cond(ConditionField::OwnsGame, Some("440")),
                cond(ConditionField::SteamLevel, None),
                cond(ConditionField::InGroup, None),
            ],
            Some(s("PUB")),
        ),
        (s("g1"), vec![cond(ConditionField::HasAchievement, Some("730"))], None),
        (s("g2"), vec![cond(ConditionField::HasAchievement, Some("570"))], None),
    ])
}

fn library() -> OwnedGamesResult {
    OwnedGamesResult {
        games: vec![OwnedGame {
            appid: 440,
            name: None,
            playtime_forever: Some(61),
            playtime_2weeks: None,
        }],
        game_count: 1,
        library_visible: true,
    }
}

fn achievement(achieved: i32) -> Achievement {
    Achievement {
        apiname: s("A"),
        achieved,
        unlocktime: None,
    }
}

fn batch_user() -> BatchUser {
    BatchUser {
        steam_id: s("7"),
        discord_id: s("d7"),
        linked_at: at(0),
        is_active: true,
        prev_streak: 3,
        prev_hash: s(""),
        prev_vac_banned: true,
        prev_game_banned: false,
        prev_country: s("SE"),
    }
}

#[test]
fn fresh_links_are_served_from_the_reserve() {
    assert_eq!(refresh_class_at(&at(1_000), false, &at(1_599)), Class::Interactive);
    assert_eq!(refresh_class_at(&at(1_000), false, &at(1_600)), Class::Background);
    assert_eq!(refresh_class_at(&at(1_000), true, &at(9_000)), Class::Interactive);
    assert_eq!(refresh_class(&at(1_000), false), Class::Background);
    let now = chrono::Utc::now().timestamp();
    assert_eq!(refresh_class(&at(now - 5), false), Class::Interactive);
}

#[test]
fn a_refresh_fetches_what_is_needed_in_turn() {
    let needs = all_needs();
    let (state, command) = start_refresh(&needs, guilds(&[]));
    assert!(matches!(command, UserCommand::FetchGames));
    let (state, command) = refresh_user(&needs, state, UserInput::Games(Ok(library())));
    assert!(matches!(command, UserCommand::FetchLevel));
    let (state, command) = refresh_user(&needs, state, UserInput::Level(Ok(12)));
    assert!(matches!(command, UserCommand::FetchGroups));
    let (state, command) = refresh_user(
        &needs,
        state,
        UserInput::Groups(Ok(vec![SteamGroup { gid: s("1") }])),
    );
    assert!(matches!(command, UserCommand::FetchGuilds));
    let (state, command) =
        refresh_user(&needs, state, UserInput::GuildIds(Some(vec![s("g1"), s("x")])));
    // 570 is needed in a guild that the player is not in.
    assert!(matches!(command, UserCommand::FetchAchievements { app_id } if app_id == "730"));
    let (state, command) = refresh_user(
        &needs,
        state,
        UserInput::Achievements(Ok(vec![achievement(1), achievement(0), achievement(1)])),
    );
    match command {
        UserCommand::StoreAchievements {
            app_id,
            achievements,
            total,
            unlocked,
        } => {
            assert_eq!((app_id.as_str(), total, unlocked), ("730", 3, 2));
            assert!(matches!(achievements, Value::Array(v) if v.len() == 3));
        }
        _ => panic!("achievements were to be stored"),
    }
    let (state, command) = refresh_user(&needs, state, UserInput::Stored);
    assert!(
        matches!(command, UserCommand::CheckOwnership { app_id, publisher_key } if app_id == "440" && publisher_key == "PUB")
    );
    let answer = AppOwnership {
        owns_app: true,
        permanent: false,
        owner_steam_id: s("9"),
    };
    let (state, command) = refresh_user(&needs, state, UserInput::Ownership(Ok(answer)));
    assert!(
        matches!(command, UserCommand::StoreOwnership { app_id, ownership } if app_id == "440" && ownership.owner_steam_id == "9")
    );
    let (state, command) = refresh_user(&needs, state, UserInput::Stored);
    assert!(matches!(command, UserCommand::Commit));
    assert_eq!(state.level, Some(12));
}

#[test]
fn nothing_needed_is_nothing_fetched() {
    let (state, command) = start_refresh(&RefreshNeeds::new(), guilds(&["g1"]));
    assert_eq!(state.stage, Stage::Committing);
    assert!(matches!(command, UserCommand::Commit));
}

#[test]
fn a_failed_fetch_ends_the_refresh() {
    let needs = all_needs();
    let (state, _) = start_refresh(&needs, guilds(&[]));
    let (state, command) =
        refresh_user(&needs, state, UserInput::Games(Err(AppError::SteamApi(s("x")))));
    assert_eq!(state.stage, Stage::Failed);
    assert!(matches!(command, UserCommand::Fail(e) if e == AppError::SteamApi(s("x"))));
}

#[test]
fn trouble_at_the_side_is_passed_over() {
    let needs = all_needs();
    let begin = || UserRefresh {
        stage: Stage::Guilds,
        owned: Some(library()),
        level: Some(1),
        groups: Some(vec![]),
        guilds: guilds(&["g2", "g1"]),
    };
    let (state, command) = refresh_user(&needs, begin(), UserInput::GuildIds(None));
    assert!(matches!(command, UserCommand::FetchAchievements { app_id } if app_id == "730"));
    let (state, command) =
        refresh_user(&needs, state, UserInput::Achievements(Err(AppError::SteamApi(s("x")))));
    assert!(matches!(command, UserCommand::FetchAchievements { app_id } if app_id == "570"));
    let (state, command) = refresh_user(&needs, state, UserInput::Achievements(Ok(vec![])));
    assert!(matches!(command, UserCommand::StoreAchievements { total: 0, .. }));
    let (state, _) = refresh_user(&needs, state, UserInput::Stored);
    let (_, command) = refresh_user(
        &needs,
        state,
        UserInput::Ownership(Err(AppError::QuotaExhausted { retry_after_secs: 5 })),
    );
    assert!(matches!(command, UserCommand::Commit));
    // The main budget is another matter.
    let (state, _) = refresh_user(&needs, begin(), UserInput::GuildIds(None));
    let (_, command) = refresh_user(
        &needs,
        state,
        UserInput::Achievements(Err(AppError::QuotaExhausted { retry_after_secs: 5 })),
    );
    assert!(
        matches!(command, UserCommand::Fail(e) if e == AppError::QuotaExhausted { retry_after_secs: 5 })
    );
}

fn committing(owned: Option<OwnedGamesResult>, level: Option<i32>) -> UserRefresh {
    UserRefresh {
        stage: Stage::Committing,
        owned,
        level,
        groups: None,
        guilds: guilds(&[]),
    }
}

fn profile(timecreated: Option<i64>, country: Option<&str>) -> PlayerSummary {
    PlayerSummary {
        steamid: s("7"),
        personaname: None,
        profileurl: None,
        avatar: None,
        avatarmedium: None,
        timecreated,
        lastlogoff: None,
        communityvisibilitystate: None,
        personastate: None,
        loccountrycode: country.map(String::from),
    }
}

fn ban(game_bans: i32) -> PlayerBan {
    PlayerBan {
        steam_id: s("7"),
        vac_banned: true,
        number_of_vac_bans: 1,
        days_since_last_ban: 1,
        number_of_game_bans: game_bans,
        community_banned: false,
        economy_ban: s("none"),
    }
}

#[test]
fn a_record_leaves_what_was_not_fetched() {
    let r = commit_record(
        &committing(None, Some(4)),
        &batch_user(),
        None,
        None,
        7_200,
        604_800,
    );
    assert_eq!(r.owned_games, None);
    assert_eq!(r.groups, None);
    assert_eq!(r.total_games_owned, None);
    assert_eq!(r.library_visible, None);
    assert_eq!(r.steam_level, Some(4));
    assert_eq!((r.profile_data, r.ban_data), (None, None));
    assert_eq!((r.is_vac_banned, r.is_game_banned), (None, None));
    assert_eq!(r.country_code, None);
    assert_eq!(r.account_created, None);
    assert_eq!(r.stable_streak, 0);
    assert_eq!(r.interval, 7_200);
    assert_eq!(
        r.data_hash,
        compute_data_hash(None, None, None, Some(4), None, true, false, "SE")
    );
}

#[test]
fn a_missing_entry_is_no_change() {
    let commit = |user: &BatchUser, p: Option<&PlayerSummary>, b: Option<&PlayerBan>| {
        commit_record(&committing(None, Some(4)), user, p, b, 7_200, 604_800)
    };
    let p = profile(None, Some("SE"));
    let b = ban(0);
    let full = commit(&batch_user(), Some(&p), Some(&b));
    let user = BatchUser {
        prev_hash: full.data_hash,
        ..batch_user()
    };
    for (p, b) in [(None, None), (Some(&p), None), (None, Some(&b))] {
        assert_eq!(commit(&user, p, b).stable_streak, 4);
    }
    // An entry that lifts the ban is a change, and so is a profile that shows no country.
    let lifted = PlayerBan {
        vac_banned: false,
        ..ban(0)
    };
    let r = commit(&user, None, Some(&lifted));
    assert_eq!((r.is_vac_banned, r.stable_streak), (Some(false), 0));
    let r = commit(&user, Some(&profile(None, None)), None);
    assert_eq!((r.country_code, r.stable_streak), (Some(s("")), 0));
}

#[test]
fn a_record_holds_what_was_fetched() {
    let p = profile(Some(1_000), Some("DE"));
    let b = ban(2);
    let first = commit_record(
        &committing(Some(library()), None),
        &batch_user(),
        Some(&p),
        Some(&b),
        7_200,
        604_800,
    );
    assert!(matches!(&first.owned_games, Some(Value::Array(v)) if v.len() == 1));
    assert_eq!(first.total_games_owned, Some(1));
    assert_eq!(first.library_visible, Some(true));
    assert_eq!((first.is_vac_banned, first.is_game_banned), (Some(true), Some(true)));
    assert_eq!(first.country_code, Some(s("DE")));
    assert!(matches!(&first.profile_data, Some(d) if d.get_text("loccountrycode") == Some("DE")));
    assert!(matches!(&first.ban_data, Some(d) if d.get_i64("NumberOfGameBans") == Some(2)));
    assert_eq!(first.account_created, Some(at(1_000)));
    // The same data once more: the streak grows, and with it the interval.
    let user = BatchUser {
        prev_hash: first.data_hash,
        ..batch_user()
    };
    let again = commit_record(
        &committing(Some(library()), None),
        &user,
        Some(&p),
        Some(&b),
        7_200,
        604_800,
    );
    assert_eq!(again.stable_streak, 4);
    assert_eq!(again.interval, 7_200 * 4);
}

#[test]
fn creation_times_out_of_range_are_left_out() {
    let created = |secs: i64| {
        commit_record(
            &committing(None, None),
            &batch_user(),
            Some(&profile(Some(secs), None)),
            None,
            7_200,
            604_800,
        )
        .account_created
    };
    assert_eq!(created(FIRST_SECOND), Some(at(FIRST_SECOND)));
    assert_eq!(created(FIRST_SECOND - 1), None);
    assert_eq!(created(LAST_SECOND), Some(at(LAST_SECOND)));
    assert_eq!(created(LAST_SECOND + 1), None);
}

fn claimed(n: usize) -> Vec<Claimed> {
    (0..n)
        .map(|i| Claimed {
            steam_id: i.to_string(),
            prev_streak: i as i32,
            prev_hash: format!("h{i}"),
            prev_vac_banned: i % 3 == 0,
            prev_game_banned: i % 3 == 2,
            prev_country: format!("c{i}"),
        })
        .collect()
}

fn owner(i: usize) -> Owner {
    Owner {
        steam_id: i.to_string(),
        discord_id: format!("d{i}"),
        linked_at: at(i as i64),
        is_active: i % 2 == 0,
    }
}

fn step(state: BatchRefresh, input: BatchInput) -> (BatchRefresh, BatchEffect, BatchCommand) {
    process_batch(true, false, state, input)
}

#[test]
fn a_batch_without_rows_or_owners_ends() {
    let (state, effect, _) = step(BatchRefresh::NeedClaim, BatchInput::Claimed(None));
    assert!(matches!(state, BatchRefresh::Finished { worked: true }));
    assert!(matches!(effect, BatchEffect::Nap(5)));
    let (state, effect, _) = step(BatchRefresh::NeedClaim, BatchInput::Claimed(Some(vec![])));
    assert!(matches!(state, BatchRefresh::Finished { worked: false }));
    assert!(matches!(effect, BatchEffect::Nothing));
    let (state, _, command) =
        step(BatchRefresh::NeedClaim, BatchInput::Claimed(Some(claimed(2))));
    assert!(matches!(command, BatchCommand::ReadOwners(ids) if ids == vec![s("0"), s("1")]));
    let (state, _, command) = step(state, BatchInput::Owners(vec![]));
    assert!(matches!(state, BatchRefresh::Finished { worked: true }));
    assert!(matches!(command, BatchCommand::Stop));
}

#[test]
fn profiles_and_bans_are_asked_for_by_the_hundred() {
    let (state, _, _) = step(BatchRefresh::NeedClaim, BatchInput::Claimed(Some(claimed(151))));
    // The link of the first row has vanished.
    let (state, _, command) = step(state, BatchInput::Owners((1..151).map(owner).collect()));
    assert!(
        matches!(command, BatchCommand::FetchSummaries { ids, class: Class::Background } if ids.len() == 100 && ids[0] == "1")
    );
    let (state, _, command) = step(state, BatchInput::Summaries(Ok(vec![profile(None, None)])));
    assert!(matches!(command, BatchCommand::FetchBans { ids, .. } if ids.len() == 100));
    let (state, _, command) = step(state, BatchInput::Bans(Ok(vec![ban(0)])));
    assert!(
        matches!(command, BatchCommand::FetchSummaries { ids, .. } if ids.len() == 50 && ids[49] == "150")
    );
    let (state, _, _) = step(state, BatchInput::Summaries(Ok(vec![])));
    let (state, _, command) = step(state, BatchInput::Bans(Ok(vec![])));
    assert!(matches!(command, BatchCommand::ReadAssignments(ids) if ids.len() == 150));
    let (state, _, command) =
        step(state, BatchInput::Assignments(vec![(s("d1"), s("g1")), (s("d1"), s("g2"))]));
    assert!(matches!(command, BatchCommand::SizeBaseInterval));
    let (state, _, command) = step(state, BatchInput::BaseInterval(3_600));
    assert!(matches!(command, BatchCommand::Refresh(0)));
    match state {
        BatchRefresh::Refreshing {
            data,
            base_interval,
            at: place,
        } => {
            assert_eq!((base_interval, place), (3_600, 0));
            assert_eq!(data.users.len(), 150);
            let u = &data.users[1];
            assert_eq!(
                (u.steam_id.as_str(), u.discord_id.as_str(), u.prev_streak, u.prev_hash.as_str()),
                ("2", "d2", 2, "h2")
            );
            assert!(u.is_active && u.linked_at == at(2));
            assert!(!u.prev_vac_banned && u.prev_game_banned && u.prev_country == "c2");
            assert!(data.profiles.get_str("7").is_some());
            assert!(data.bans.get_str("7").is_some());
            assert_eq!(data.guilds.get_str("d1").unwrap().members.len(), 2);
        }
        _ => panic!("the first player was to be refreshed"),
    }
}

fn refreshing(n: usize) -> BatchRefresh {
    let (state, _, _) = process_batch(
        false,
        true,
        BatchRefresh::NeedClaim,
        BatchInput::Claimed(Some(claimed(n))),
    );
    let unscoped = |state, input| process_batch(false, true, state, input);
    let (state, _, command) = unscoped(state, BatchInput::Owners((0..n).map(owner).collect()));
    assert!(matches!(
        command,
        BatchCommand::FetchSummaries {
            class: Class::Interactive,
            ..
        }
    ));
    let (state, _, _) = unscoped(state, BatchInput::Summaries(Ok(vec![])));
    let (state, _, command) = unscoped(state, BatchInput::Bans(Ok(vec![])));
    assert!(matches!(command, BatchCommand::SizeBaseInterval));
    unscoped(state, BatchInput::BaseInterval(1_800)).0
}

#[test]
fn one_failure_stops_no_batch() {
    let (state, effect, command) = step(
        refreshing(3),
        BatchInput::Refreshed(Err(AppError::SteamApi(s("x")))),
    );
    assert!(matches!(effect, BatchEffect::Backoff(ids) if ids == vec![s("0")]));
    assert!(matches!(command, BatchCommand::Refresh(1)));
    let (state, effect, command) = step(state, BatchInput::Refreshed(Ok(())));
    assert!(matches!(effect, BatchEffect::Nothing));
    assert!(matches!(command, BatchCommand::Refresh(2)));
    let (state, _, command) = step(state, BatchInput::Refreshed(Ok(())));
    assert!(matches!(state, BatchRefresh::Finished { worked: true }));
    assert!(matches!(command, BatchCommand::Stop));
}

#[test]
fn a_spent_budget_requeues_the_rest() {
    let (state, _, _) = step(refreshing(3), BatchInput::Refreshed(Ok(())));
    let (state, effect, _) = step(
        state,
        BatchInput::Refreshed(Err(AppError::QuotaExhausted { retry_after_secs: 5_000 })),
    );
    match effect {
        BatchEffect::Requeue {
            ids,
            retry_after_secs,
            pause_secs,
        } => {
            assert_eq!(ids, vec![s("1"), s("2")]);
            assert_eq!((retry_after_secs, pause_secs), (5_000, 900));
        }
        _ => panic!("the rest was to be requeued"),
    }
    assert!(matches!(state, BatchRefresh::Finished { worked: true }));
}

#[test]
fn failed_batch_calls_put_off_every_claimed_row() {
    let start = || {
        let (state, _, _) = step(BatchRefresh::NeedClaim, BatchInput::Claimed(Some(claimed(2))));
        step(state, BatchInput::Owners(vec![owner(1)])).0
    };
    let both = vec![s("0"), s("1")];
    let (_, effect, _) = step(
        start(),
        BatchInput::Summaries(Err(AppError::QuotaExhausted { retry_after_secs: 1 })),
    );
    assert!(
        matches!(effect, BatchEffect::Requeue { ids, retry_after_secs: 1, pause_secs: 5 } if ids == both)
    );
    let (_, effect, _) = step(start(), BatchInput::Summaries(Err(AppError::SteamApi(s("x")))));
    assert!(matches!(effect, BatchEffect::Backoff(ids) if ids == both));
    let (state, _, _) = step(start(), BatchInput::Summaries(Ok(vec![])));
    let (_, effect, _) = step(state, BatchInput::Bans(Err(AppError::SteamApi(s("x")))));
    assert!(matches!(effect, BatchEffect::Backoff(ids) if ids == both));
}
