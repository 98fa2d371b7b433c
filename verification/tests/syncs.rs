use steam_player_role::clock::Timestamp;
use steam_player_role::error::AppError;
use steam_player_role::json::Value;
use steam_player_role::lookup::Lookup;
use steam_player_role::models::condition::{Condition, ConditionField, ConditionOperator};
use steam_player_role::services::condition_eval::{
    AppOwnershipRow, GameAchievementRow, UserCacheRow,
};
use steam_player_role::services::condition_sql::ConditionBind;
use steam_player_role::services::link_sync::{
    preview_matching_count, preview_matching_count_at, start_preview, sync_for_role_link,
    sync_for_role_link_at, Candidate, LinkCommand, LinkInput, LinkSync, Preview, PreviewCommand,
    PreviewInput,
};
use steam_player_role::services::sync::{
    after_add, after_remove, link_app_ids, needed_app_ids, ownership_app_ids, plan_actions,
    remove_all_assignments, sync_for_player, sync_for_player_at, FollowUp, PlayerCommand,
    PlayerInput, PlayerSync, RoleAction, RoleLink, UnlinkCommand, Unlinking,
};

const NOW: Timestamp = Timestamp {
    secs: 1_700_000_000,
    nanos: 0,
};

fn s(t: &str) -> String {
    t.to_string()
}

fn user(level: i32) -> UserCacheRow {
    UserCacheRow {
        steam_id: s("76561198012345678"),
        owned_games: Value::Array(vec![]),
        groups: Value::Array(vec![]),
        steam_level: level,
        account_created: None,
        total_games_owned: 0,
        is_vac_banned: false,
        is_game_banned: false,
        country_code: s(""),
    }
}

fn level_at_least(n: i64) -> Condition {
    Condition {
        field: ConditionField::SteamLevel,
        operator: ConditionOperator::Gte,
        value: Value::Int(n),
        value_end: None,
        app_id: None,
    }
}

fn owns(app: &str) -> Condition {
    Condition {
        field: ConditionField::OwnsGame,
        operator: ConditionOperator::Eq,
        value: Value::Bool(true),
        value_end: None,
        app_id: Some(s(app)),
    }
}

fn unlocked_at_least(app: &str, n: i64) -> Condition {
    Condition {
        field: ConditionField::AchievementCount,
        operator: ConditionOperator::Gte,
        value: Value::Int(n),
        value_end: None,
        app_id: Some(s(app)),
    }
}

fn link(role: &str, conditions: Vec<Condition>, key: Option<&str>) -> RoleLink {
    RoleLink {
        guild_id: s("g"),
        role_id: s(role),
        api_token: format!("token-{role}"),
        conditions,
        publisher_key: key.map(String::from),
    }
}

fn owned(app: &str) -> Lookup<String, AppOwnershipRow> {
    let mut m = Lookup::new();
    m.insert(
        s(app),
        AppOwnershipRow {
            owns_app: true,
            permanent: true,
            owner_steam_id: s("76561198012345678"),
        },
    );
    m
}

fn unlocked(app: &str, n: i32) -> Lookup<String, GameAchievementRow> {
    let mut m = Lookup::new();
    m.insert(
        s(app),
        GameAchievementRow {
            total_count: 10,
            unlocked_count: n,
            achievements: Value::Array(vec![]),
        },
    );
    m
}

fn described(actions: &[RoleAction]) -> Vec<String> {
    actions
        .iter()
        .map(|a| match a {
            RoleAction::Add {
                guild_id,
                role_id,
                api_token,
            } => format!("+{guild_id}/{role_id}/{api_token}"),
            RoleAction::Remove {
                guild_id,
                role_id,
                api_token,
            } => format!("-{guild_id}/{role_id}/{api_token}"),
        })
        .collect()
}

#[test]
fn apps_are_collected_once() {
    let links = vec![
        link("1", vec![owns("440"), unlocked_at_least("730", 1)], Some("k")),
        link("2", vec![owns("570"), level_at_least(1)], None),
        link("3", vec![owns("440")], Some("k")),
    ];
    assert_eq!(link_app_ids(&links).members, vec![s("440"), s("730"), s("570")]);
    assert_eq!(ownership_app_ids(&links).members, vec![s("440")]);
    assert_eq!(needed_app_ids(&links[0].conditions).members, vec![s("440"), s("730")]);
}

#[test]
fn roles_are_added_and_removed_until_they_match() {
    let links = vec![
        link("added", vec![level_at_least(5)], None),
        link("kept", vec![level_at_least(5)], None),
        link("removed", vec![level_at_least(50)], None),
        link("absent", vec![level_at_least(50)], None),
        link("owned", vec![owns("440")], Some("k")),
        link("not_owned", vec![owns("440")], None),
        link("unconfigured", vec![], None),
    ];
    let existing = vec![(s("g"), s("kept")), (s("g"), s("removed"))];
    let plan = |existing: &Vec<(String, String)>| {
        plan_actions(
            &links,
            &user(10),
            &Lookup::new(),
            &owned("440"),
            existing,
            &NOW,
        )
    };
    assert_eq!(
        described(&plan(&existing)),
        vec![
            "+g/added/token-added",
            "-g/removed/token-removed",
            "+g/owned/token-owned"
        ]
    );
    let matching = vec![(s("g"), s("added")), (s("g"), s("kept")), (s("g"), s("owned"))];
    assert!(plan(&matching).is_empty());
}

#[test]
fn a_player_is_synced_step_by_step() {
    let (state, command) =
        sync_for_player_at(PlayerSync::NeedUser, PlayerInput::User(Some(user(10))), &NOW);
    assert!(matches!(command, PlayerCommand::FetchGuilds));
    let (state, command) = sync_for_player_at(state, PlayerInput::Guilds(vec![s("g")]), &NOW);
    assert!(matches!(command, PlayerCommand::ReadLinks(ids) if ids == vec![s("g")]));
    let links = vec![
        link("1", vec![unlocked_at_least("730", 3)], None),
        link("2", vec![owns("440")], Some("k")),
    ];
    let (state, command) = sync_for_player_at(state, PlayerInput::Links(links), &NOW);
    assert!(
        matches!(command, PlayerCommand::ReadAchievements(apps) if apps.members == vec![s("730"), s("440")])
    );
    let (state, command) =
        sync_for_player_at(state, PlayerInput::Achievements(unlocked("730", 3)), &NOW);
    assert!(
        matches!(command, PlayerCommand::ReadOwnership(apps) if apps.members == vec![s("440")])
    );
    let (state, command) = sync_for_player_at(state, PlayerInput::Ownership(Lookup::new()), &NOW);
    assert!(matches!(command, PlayerCommand::ReadAssignments));
    let (state, command) = sync_for_player(
        state,
        PlayerInput::Assignments(vec![(s("g"), s("2"))]),
    );
    assert!(matches!(state, PlayerSync::Finished));
    match command {
        PlayerCommand::Apply(actions) => {
            assert_eq!(described(&actions), vec!["+g/1/token-1", "-g/2/token-2"])
        }
        _ => panic!("changes were expected"),
    }
}

#[test]
fn a_player_without_data_or_guilds_is_left_alone() {
    let (_, command) = sync_for_player_at(PlayerSync::NeedUser, PlayerInput::User(None), &NOW);
    assert!(matches!(command, PlayerCommand::Stop));
    let (_, command) = sync_for_player_at(
        PlayerSync::NeedGuilds { user: user(1) },
        PlayerInput::Guilds(vec![]),
        &NOW,
    );
    assert!(matches!(command, PlayerCommand::Stop));
    let (_, command) = sync_for_player_at(
        PlayerSync::NeedAssignments {
            user: user(1),
            links: vec![],
            achievements: Lookup::new(),
            ownership: Lookup::new(),
        },
        PlayerInput::Assignments(vec![(s("g"), s("other"))]),
        &NOW,
    );
    assert!(matches!(command, PlayerCommand::Stop));
}

#[test]
fn only_successes_are_recorded() {
    assert_eq!(after_add(&Ok(())), FollowUp::RecordAssignment);
    assert_eq!(after_remove(&Ok(())), FollowUp::EraseAssignment);
    assert_eq!(after_add(&Err(AppError::RoleLinkNotFound)), FollowUp::DeleteOrphan);
    assert_eq!(after_remove(&Err(AppError::RoleLinkNotFound)), FollowUp::DeleteOrphan);
    assert_eq!(
        after_add(&Err(AppError::UserLimitReached { limit: 1 })),
        FollowUp::Nothing
    );
    assert_eq!(after_remove(&Err(AppError::RoleLogic(s("x")))), FollowUp::Nothing);
}

#[test]
fn an_unlinked_player_loses_every_role() {
    let role = |n: &str| (s("g"), s(n), s("t"));
    let state = Unlinking {
        roles: vec![role("1"), role("2")],
        asked: 0,
    };
    assert_eq!(state.command(), UnlinkCommand::Remove(0));
    let (state, extra) = remove_all_assignments(state, &Err(AppError::RoleLinkNotFound));
    assert_eq!(extra, Some(UnlinkCommand::DeleteOrphan(0)));
    assert_eq!(state.command(), UnlinkCommand::Remove(1));
    let (state, extra) = remove_all_assignments(state, &Err(AppError::RoleLogic(s("x"))));
    assert_eq!(extra, None);
    assert_eq!(state.command(), UnlinkCommand::EraseAll);
}

fn candidate(id: &str, level: i32) -> Candidate {
    Candidate {
        discord_id: s(id),
        user: user(level),
    }
}

fn facts(n: i32) -> LinkInput {
    LinkInput::CandidateFacts {
        achievements: unlocked("730", n),
        ownership: Lookup::new(),
    }
}

fn uploaded(command: LinkCommand) -> Vec<String> {
    match command {
        LinkCommand::Upload(ids) => ids,
        _ => panic!("an upload was expected"),
    }
}

#[test]
fn a_link_that_sql_can_judge_is_synced_by_one_query() {
    let (state, command) = sync_for_role_link(
        LinkSync::NeedLink,
        LinkInput::Link(Some(link("r", vec![level_at_least(5)], None))),
    );
    assert!(matches!(command, LinkCommand::GetUserInfo));
    let (state, command) = sync_for_role_link_at(state, LinkInput::UserInfo(Ok((3, 100))), &NOW);
    assert!(matches!(command, LinkCommand::FetchMembers));
    let (state, command) = sync_for_role_link_at(state, LinkInput::Members(vec![s("a")]), &NOW);
    match command {
        LinkCommand::QueryIds {
            sql,
            binds,
            members,
            limit,
        } => {
            assert_eq!(sql, "SELECT la.discord_id FROM linked_accounts la JOIN user_cache uc ON uc.steam_id = la.steam_id WHERE la.discord_id = ANY($2::text[]) AND (uc.steam_level >= $1) ORDER BY la.linked_at ASC LIMIT $3");
            assert_eq!(binds, vec![ConditionBind::Int(5)]);
            assert_eq!(members, vec![s("a")]);
            assert_eq!(limit, 100);
        }
        _ => panic!("a query was expected"),
    }
    let (state, command) = sync_for_role_link_at(state, LinkInput::Ids(vec![s("a")]), &NOW);
    assert_eq!(uploaded(command), vec![s("a")]);
    let (state, command) = sync_for_role_link_at(state, LinkInput::Uploaded(Ok(())), &NOW);
    assert!(matches!(command, LinkCommand::Store(ids) if ids == vec![s("a")]));
    let (state, command) = sync_for_role_link_at(state, LinkInput::Stored, &NOW);
    assert!(matches!(state, LinkSync::Finished));
    assert!(matches!(command, LinkCommand::Stop));
}

fn judging(user_limit: usize, candidates: Vec<Candidate>) -> (LinkSync, LinkCommand) {
    let (state, command) = sync_for_role_link_at(
        LinkSync::NeedMembers {
            link: link("r", vec![unlocked_at_least("730", 5)], None),
            user_limit,
        },
        LinkInput::Members(vec![s("a"), s("b")]),
        &NOW,
    );
    match command {
        LinkCommand::QueryCandidates { sql, binds, .. } => {
            assert_eq!(sql, "SELECT la.discord_id, uc.steam_id, uc.owned_games, uc.groups, uc.steam_level, uc.account_created, uc.total_games_owned, uc.is_vac_banned, uc.is_game_banned, uc.country_code FROM linked_accounts la JOIN user_cache uc ON uc.steam_id = la.steam_id WHERE la.discord_id = ANY($1::text[]) AND (TRUE) ORDER BY la.linked_at ASC");
            assert_eq!(binds, vec![]);
        }
        _ => panic!("a query was expected"),
    }
    sync_for_role_link_at(state, LinkInput::Candidates(candidates), &NOW)
}

#[test]
fn members_are_judged_one_by_one() {
    let (state, command) = judging(10, vec![candidate("a", 1), candidate("b", 1), candidate("c", 1)]);
    match command {
        LinkCommand::LoadFacts {
            steam_id,
            apps,
            with_ownership,
        } => {
            assert_eq!(steam_id, "76561198012345678");
            assert_eq!(apps.members, vec![s("730")]);
            assert!(!with_ownership);
        }
        _ => panic!("facts were to be asked for"),
    }
    let (state, _) = sync_for_role_link_at(state, facts(5), &NOW);
    let (state, _) = sync_for_role_link_at(state, facts(4), &NOW);
    let (_, command) = sync_for_role_link_at(state, facts(6), &NOW);
    assert_eq!(uploaded(command), vec![s("a"), s("c")]);
}

#[test]
fn no_more_members_than_the_limit_are_uploaded() {
    let (state, _) = judging(1, vec![candidate("a", 1), candidate("b", 1)]);
    let (_, command) = sync_for_role_link_at(state, facts(9), &NOW);
    assert_eq!(uploaded(command), vec![s("a")]);
    // With a limit of none, the first who passes is uploaded.
    let (state, _) = judging(0, vec![candidate("a", 1), candidate("b", 1)]);
    let (_, command) = sync_for_role_link_at(state, facts(9), &NOW);
    assert_eq!(uploaded(command), vec![s("a")]);
    let (_, command) = judging(5, vec![]);
    assert_eq!(uploaded(command), Vec::<String>::new());
}

#[test]
fn a_publisher_key_takes_ownership_out_of_the_query() {
    let (state, command) = sync_for_role_link_at(
        LinkSync::NeedMembers {
            link: link("r", vec![owns("440"), level_at_least(2)], Some("k")),
            user_limit: 9,
        },
        LinkInput::Members(vec![s("a")]),
        &NOW,
    );
    match command {
        LinkCommand::QueryCandidates { sql, binds, .. } => {
            assert!(sql.contains("AND (uc.steam_level >= $1) ORDER"));
            assert_eq!(binds, vec![ConditionBind::Int(2)]);
        }
        _ => panic!("a query was expected"),
    }
    let (state, command) =
        sync_for_role_link_at(state, LinkInput::Candidates(vec![candidate("a", 3)]), &NOW);
    assert!(matches!(
        command,
        LinkCommand::LoadFacts {
            with_ownership: true,
            ..
        }
    ));
    let (_, command) = sync_for_role_link_at(
        state,
        LinkInput::CandidateFacts {
            achievements: Lookup::new(),
            ownership: owned("440"),
        },
        &NOW,
    );
    assert_eq!(uploaded(command), vec![s("a")]);
}

#[test]
fn a_link_for_nobody_is_emptied() {
    let (_, command) = sync_for_role_link_at(
        LinkSync::NeedLink,
        LinkInput::Link(Some(link("r", vec![], None))),
        &NOW,
    );
    assert_eq!(uploaded(command), Vec::<String>::new());
    let (_, command) = sync_for_role_link_at(
        LinkSync::NeedMembers {
            link: link("r", vec![level_at_least(1)], None),
            user_limit: 5,
        },
        LinkInput::Members(vec![]),
        &NOW,
    );
    assert_eq!(uploaded(command), Vec::<String>::new());
    let (_, command) = sync_for_role_link_at(LinkSync::NeedLink, LinkInput::Link(None), &NOW);
    assert!(matches!(command, LinkCommand::Stop));
}

#[test]
fn trouble_with_a_link_ends_its_sync() {
    let info = |e: AppError| {
        sync_for_role_link_at(
            LinkSync::NeedUserInfo {
                link: link("r", vec![level_at_least(1)], None),
            },
            LinkInput::UserInfo(Err(e)),
            &NOW,
        )
        .1
    };
    assert!(matches!(info(AppError::RoleLinkNotFound), LinkCommand::DeleteOrphan));
    assert!(matches!(info(AppError::RoleLinkDisabled), LinkCommand::Stop));
    assert!(
        matches!(info(AppError::RoleLogic(s("x"))), LinkCommand::Fail(e) if e == AppError::RoleLogic(s("x")))
    );
    let upload = |e: AppError| {
        sync_for_role_link_at(
            LinkSync::Uploading { ids: vec![s("a")] },
            LinkInput::Uploaded(Err(e)),
            &NOW,
        )
        .1
    };
    assert!(matches!(upload(AppError::RoleLinkNotFound), LinkCommand::DeleteOrphan));
    assert!(
        matches!(upload(AppError::RoleLinkDisabled), LinkCommand::Fail(e) if e == AppError::RoleLinkDisabled)
    );
}

#[test]
fn a_preview_counts_by_query_where_it_can() {
    let (state, command) = start_preview(&vec![]);
    assert!(matches!(state, Preview::Finished { matching: 0, linked: 0 }));
    assert!(matches!(command, PreviewCommand::Stop));
    let (state, command) = start_preview(&vec![s("a")]);
    assert!(matches!(command, PreviewCommand::CountLinked));
    let conditions = vec![level_at_least(5)];
    let (state, command) =
        preview_matching_count(state, PreviewInput::Linked(7), &conditions, true);
    match command {
        PreviewCommand::Count { sql, binds } => {
            assert_eq!(sql, "SELECT count(*) FROM linked_accounts la JOIN user_cache uc ON uc.steam_id = la.steam_id WHERE la.discord_id = ANY($2::text[]) AND (uc.steam_level >= $1)");
            assert_eq!(binds, vec![ConditionBind::Int(5)]);
        }
        _ => panic!("a count was expected"),
    }
    let (state, _) =
        preview_matching_count_at(state, PreviewInput::Count(3), &conditions, true, &NOW);
    assert!(matches!(state, Preview::Finished { matching: 3, linked: 7 }));
}

#[test]
fn a_preview_counts_one_by_one_where_it_must() {
    let conditions = vec![unlocked_at_least("730", 5)];
    let step = |state, input| preview_matching_count_at(state, input, &conditions, false, &NOW);
    let (state, command) = step(Preview::NeedLinked, PreviewInput::Linked(2));
    match command {
        PreviewCommand::QueryCandidates { sql, .. } => {
            assert!(sql.ends_with("WHERE la.discord_id = ANY($1::text[]) AND (TRUE)"))
        }
        _ => panic!("a query was expected"),
    }
    let (state, command) = step(
        state,
        PreviewInput::Candidates(vec![candidate("a", 1), candidate("b", 1)]),
    );
    assert!(matches!(command, PreviewCommand::LoadFacts { .. }));
    let judged = |n: i32| PreviewInput::CandidateFacts {
        achievements: unlocked("730", n),
        ownership: Lookup::new(),
    };
    let (state, _) = step(state, judged(5));
    let (state, command) = step(state, judged(4));
    assert!(matches!(state, Preview::Finished { matching: 1, linked: 2 }));
    assert!(matches!(command, PreviewCommand::Stop));
}

#[test]
fn a_preview_of_nothing_is_zero() {
    let (state, _) = preview_matching_count_at(
        Preview::NeedLinked,
        PreviewInput::Linked(4),
        &vec![],
        false,
        &NOW,
    );
    assert!(matches!(state, Preview::Finished { matching: 0, linked: 4 }));
    let (state, _) = preview_matching_count_at(
        Preview::NeedLinked,
        PreviewInput::Linked(0),
        &vec![level_at_least(1)],
        false,
        &NOW,
    );
    assert!(matches!(state, Preview::Finished { matching: 0, linked: 0 }));
}
