//! The refresh of one player's data: what is fetched, and what is written to the cache.
//!
//! Cache columns are only written from definite answers: what was not fetched, and what an answer
//! leaves out, stays as it is, and when Steam cannot be asked or does not answer, nothing is written
//! at all, so a role is never stripped because we couldn't check.

use vstd::prelude::*;
use crate::clock;
use crate::clock::Timestamp;
use crate::digest;
use crate::error::AppError;
use crate::json::Value;
use crate::lookup::TextSet;
use crate::models::condition;
use crate::services::cache_docs;
use crate::services::condition_eval;
use crate::services::quota::Class;
use crate::services::steam_api::{
    Achievement, AppOwnership, OwnedGamesResult, PlayerBan, PlayerSummary, SteamGroup,
};
use crate::tasks::data_hash;
use crate::tasks::refresh_worker;
use crate::tasks::refresh_worker::RefreshNeeds;
use crate::text;

verus! {

/// A user linked within this window gets Interactive-class calls for their
/// first refresh — they're actively waiting on the verify page for roles.
pub const FRESH_LINK_WINDOW_SECS: i64 = 600;

/// A player whose data is due.
pub struct BatchUser {
    pub steam_id: String,
    pub discord_id: String,
    pub linked_at: Timestamp,
    pub is_active: bool,
    pub prev_streak: i32,
    pub prev_hash: String,
    /// What is cached of the player's bans and country.
    pub prev_vac_banned: bool,
    pub prev_game_banned: bool,
    pub prev_country: String,
}

/// The class of the calls for a player who linked at some time.
pub open spec fn class_of(linked_at: Timestamp, interactive_only: bool, now: Timestamp) -> Class {
    if interactive_only || clock::whole(now@ - linked_at@, clock::NANOS_PER_SECOND as int)
        < FRESH_LINK_WINDOW_SECS {
        Class::Interactive
    } else {
        Class::Background
    }
}

/// The class of the calls for a player, now. A user linked minutes ago is watching the verify
/// page — serve their first refresh from the interactive reserve, unpaced. In
/// interactive-only mode every claimed row is user-initiated.
pub fn refresh_class(linked_at: &Timestamp, interactive_only: bool) -> (r: Class)
    requires
        linked_at.wf(),
    ensures
        interactive_only ==> r is Interactive,
        exists|now: Timestamp|
            now.wf() && now.secs >= 0 && r == #[trigger] class_of(
                *linked_at,
                interactive_only,
                now,
            ),
{
    let now = clock::utc_now();
    refresh_class_at(linked_at, interactive_only, &now)
}

/// The class of the calls for a player, at a given time.
pub fn refresh_class_at(linked_at: &Timestamp, interactive_only: bool, now: &Timestamp) -> (r:
    Class)
    requires
        linked_at.wf(),
        now.wf(),
    ensures
        r == class_of(*linked_at, interactive_only, *now),
{
    if interactive_only || now.seconds_since(linked_at) < FRESH_LINK_WINDOW_SECS {
        Class::Interactive
    } else {
        Class::Background
    }
}

/// What a refresh waits for. The numbers are places in the list of apps, or of apps with their
/// publisher keys, that are needed.
#[derive(Debug, Clone, Copy, PartialEq, Eq, Structural)]
pub enum Stage {
    Games,
    Level,
    Groups,
    Guilds,
    Achievements(usize),
    StoringAchievements(usize),
    Ownership(usize),
    StoringOwnership(usize),
    Committing,
    Failed,
}

/// How far the refresh of a player has come: what it waits for and what was fetched. `guilds` are
/// the guilds that the player is known to be in.
pub struct UserRefresh {
    pub stage: Stage,
    pub owned: Option<OwnedGamesResult>,
    pub level: Option<i32>,
    pub groups: Option<Vec<SteamGroup>>,
    pub guilds: TextSet,
}

/// What the refresh of a player is told.
pub enum UserInput {
    Games(Result<OwnedGamesResult, AppError>),
    Level(Result<i32, AppError>),
    Groups(Result<Vec<SteamGroup>, AppError>),
    /// The guilds of the player, unless the gateway is in trouble.
    GuildIds(Option<Vec<String>>),
    Achievements(Result<Vec<Achievement>, AppError>),
    Ownership(Result<AppOwnership, AppError>),
    Stored,
}

/// What the refresh of a player asks for.
pub enum UserCommand {
    FetchGames,
    FetchLevel,
    FetchGroups,
    FetchGuilds,
    FetchAchievements { app_id: String },
    StoreAchievements { app_id: String, achievements: Value, total: i32, unlocked: i32 },
    CheckOwnership { app_id: String, publisher_key: String },
    StoreOwnership { app_id: String, ownership: AppOwnership },
    /// Write the record of the player and tell the sync.
    Commit,
    Fail(AppError),
}

/// Do the sets share a member?
pub open spec fn overlap(a: Set<Seq<char>>, b: Set<Seq<char>>) -> bool {
    exists|t: Seq<char>| #[trigger] a.contains(t) && b.contains(t)
}

/// What to wait for once the achievements up to a place in the list are dealt with: the next app
/// that is needed in one of the player's guilds.
pub open spec fn from_achievements(needs: RefreshNeeds, guilds: Set<Seq<char>>, i: int) -> Stage
    decreases needs.achievement_apps.entries@.len() - i,
{
    if 0 <= i < needs.achievement_apps.entries@.len() {
        if overlap(needs.achievement_apps.entries@[i].1@, guilds) {
            Stage::Achievements(i as usize)
        } else {
            from_achievements(needs, guilds, i + 1)
        }
    } else {
        from_ownership(needs, guilds, 0)
    }
}

/// What to wait for once the ownership checks up to a place in the list are dealt with.
pub open spec fn from_ownership(needs: RefreshNeeds, guilds: Set<Seq<char>>, i: int) -> Stage
    decreases needs.ownership_pairs.entries@.len() - i,
{
    if 0 <= i < needs.ownership_pairs.entries@.len() {
        if overlap(needs.ownership_pairs.entries@[i].1@, guilds) {
            Stage::Ownership(i as usize)
        } else {
            from_ownership(needs, guilds, i + 1)
        }
    } else {
        Stage::Committing
    }
}

/// Do some needs depend on the guilds a player is in?
pub open spec fn scoped(needs: RefreshNeeds) -> bool {
    needs.achievement_apps.entries@.len() > 0 || needs.ownership_pairs.entries@.len() > 0
}

/// What to wait for once the groups are dealt with.
pub open spec fn from_guilds(needs: RefreshNeeds) -> Stage {
    if scoped(needs) {
        Stage::Guilds
    } else {
        Stage::Committing
    }
}

/// What to wait for once the level is dealt with.
pub open spec fn from_groups(needs: RefreshNeeds) -> Stage {
    if needs.need_groups {
        Stage::Groups
    } else {
        from_guilds(needs)
    }
}

/// What to wait for once the games are dealt with.
pub open spec fn from_level(needs: RefreshNeeds) -> Stage {
    if needs.need_level {
        Stage::Level
    } else {
        from_groups(needs)
    }
}

/// What to wait for first.
pub open spec fn from_games(needs: RefreshNeeds) -> Stage {
    if needs.need_games {
        Stage::Games
    } else {
        from_level(needs)
    }
}

/// Is this what is asked for in a stage?
pub open spec fn asks(needs: RefreshNeeds, stage: Stage, command: UserCommand) -> bool {
    match stage {
        Stage::Games => command is FetchGames,
        Stage::Level => command is FetchLevel,
        Stage::Groups => command is FetchGroups,
        Stage::Guilds => command is FetchGuilds,
        Stage::Achievements(i) => {
            &&& command matches UserCommand::FetchAchievements { app_id }
            &&& app_id@ == needs.achievement_apps.entries@[i as int].0@
        },
        Stage::Ownership(i) => {
            &&& command matches UserCommand::CheckOwnership { app_id, publisher_key }
            &&& (app_id@, publisher_key@) == needs.ownership_pairs.entries@[i as int].0@
        },
        Stage::Committing => command is Commit,
        _ => false,
    }
}

/// How many achievements are achieved.
pub open spec fn unlocked_count(list: Seq<Achievement>) -> nat
    decreases list.len(),
{
    if list.len() == 0 {
        0
    } else {
        unlocked_count(list.drop_last()) + if list.last().achieved == 1 {
            1nat
        } else {
            0
        }
    }
}

impl UserRefresh {
    /// Only what is needed is waited for, what was fetched is exactly what is needed of the stages
    /// that have passed, and places lie in their lists.
    pub open spec fn wf(self, needs: RefreshNeeds) -> bool {
        let passed = match self.stage {
            Stage::Games => 0int,
            Stage::Level => 1,
            Stage::Groups => 2,
            _ => 3,
        };
        self.stage is Failed || {
            &&& self.owned is Some == (needs.need_games && passed > 0)
            &&& self.level is Some == (needs.need_level && passed > 1)
            &&& self.groups is Some == (needs.need_groups && passed > 2)
            &&& match self.stage {
                Stage::Games => needs.need_games,
                Stage::Level => needs.need_level,
                Stage::Groups => needs.need_groups,
                Stage::Achievements(i) => i < needs.achievement_apps.entries@.len(),
                Stage::StoringAchievements(i) => i < needs.achievement_apps.entries@.len(),
                Stage::Ownership(i) => i < needs.ownership_pairs.entries@.len(),
                Stage::StoringOwnership(i) => i < needs.ownership_pairs.entries@.len(),
                _ => true,
            }
        }
    }

    /// Is this what the refresh has asked for?
    pub open spec fn awaits(self, input: UserInput) -> bool {
        match input {
            UserInput::Games(_) => self.stage is Games,
            UserInput::Level(_) => self.stage is Level,
            UserInput::Groups(_) => self.stage is Groups,
            UserInput::GuildIds(_) => self.stage is Guilds,
            UserInput::Achievements(_) => self.stage is Achievements,
            UserInput::Ownership(_) => self.stage is Ownership,
            UserInput::Stored => self.stage is StoringAchievements || self.stage
                is StoringOwnership,
        }
    }
}

/// The guilds of a player: those known already, and those of a list.
pub open spec fn more_guilds(known: Set<Seq<char>>, ids: Option<Vec<String>>) -> Set<Seq<char>> {
    match ids {
        Some(list) => known.union(text::texts(list@).to_set()),
        None => known,
    }
}

/// The refresh fails, with this error.
pub open spec fn fails(next: UserRefresh, command: UserCommand, e: AppError) -> bool {
    next.stage is Failed && command == UserCommand::Fail(e)
}

/// Goes on to a stage with what is known.
pub open spec fn moves_to(
    needs: RefreshNeeds,
    known: UserRefresh,
    stage: Stage,
    next: UserRefresh,
    command: UserCommand,
) -> bool {
    next == (UserRefresh { stage, ..known }) && asks(needs, stage, command)
}

/// Where the refresh goes from a state with an input, and what it asks for then.
pub open spec fn user_moves(
    needs: RefreshNeeds,
    state: UserRefresh,
    input: UserInput,
    next: UserRefresh,
    command: UserCommand,
) -> bool {
    match (state.stage, input) {
        // Steam failures must propagate: writing defaults on error would wipe
        // the cached library/groups/level and strip roles.
        (Stage::Games, UserInput::Games(outcome)) => match outcome {
            Ok(o) => moves_to(
                needs,
                UserRefresh { owned: Some(o), ..state },
                from_level(needs),
                next,
                command,
            ),
            Err(e) => fails(next, command, e),
        },
        (Stage::Level, UserInput::Level(outcome)) => match outcome {
            Ok(l) => moves_to(
                needs,
                UserRefresh { level: Some(l), ..state },
                from_groups(needs),
                next,
                command,
            ),
            Err(e) => fails(next, command, e),
        },
        (Stage::Groups, UserInput::Groups(outcome)) => match outcome {
            Ok(g) => moves_to(
                needs,
                UserRefresh { groups: Some(g), ..state },
                from_guilds(needs),
                next,
                command,
            ),
            Err(e) => fails(next, command, e),
        },
        // On gateway trouble the guilds that are known already must do — old cache rows keep
        // serving, so nothing is lost but freshness.
        (Stage::Guilds, UserInput::GuildIds(ids)) => {
            let guilds = more_guilds(state.guilds@, ids);
            &&& next.guilds@ == guilds
            &&& moves_to(
                needs,
                UserRefresh { guilds: next.guilds, ..state },
                from_achievements(needs, guilds, 0),
                next,
                command,
            )
        },
        (Stage::Achievements(i), UserInput::Achievements(outcome)) => match outcome {
            Ok(list) => {
                &&& next == (UserRefresh { stage: Stage::StoringAchievements(i), ..state })
                &&& command matches UserCommand::StoreAchievements {
                    app_id,
                    achievements,
                    total,
                    unlocked,
                }
                &&& app_id@ == needs.achievement_apps.entries@[i as int].0@
                &&& achievements@ == cache_docs::achievements_doc(list@)
                &&& total == list@.len() as i32
                &&& unlocked == unlocked_count(list@) as i32
            },
            Err(AppError::QuotaExhausted { retry_after_secs }) => fails(
                next,
                command,
                AppError::QuotaExhausted { retry_after_secs },
            ),
            Err(_) => moves_to(
                needs,
                state,
                from_achievements(needs, state.guilds@, i + 1),
                next,
                command,
            ),
        },
        (Stage::StoringAchievements(i), UserInput::Stored) => moves_to(
            needs,
            state,
            from_achievements(needs, state.guilds@, i + 1),
            next,
            command,
        ),
        // A publisher key's own budget: its exhaustion only skips this check, never the
        // player's whole refresh.
        (Stage::Ownership(i), UserInput::Ownership(outcome)) => match outcome {
            Ok(o) => {
                &&& next == (UserRefresh { stage: Stage::StoringOwnership(i), ..state })
                &&& command matches UserCommand::StoreOwnership { app_id, ownership }
                &&& app_id@ == needs.ownership_pairs.entries@[i as int].0@.0
                &&& ownership == o
            },
            Err(_) => moves_to(
                needs,
                state,
                from_ownership(needs, state.guilds@, i + 1),
                next,
                command,
            ),
        },
        (Stage::StoringOwnership(i), UserInput::Stored) => moves_to(
            needs,
            state,
            from_ownership(needs, state.guilds@, i + 1),
            next,
            command,
        ),
        _ => false,
    }
}

fn ownership_stage(needs: &RefreshNeeds, guilds: &TextSet, start: usize) -> (r: Stage)
    requires
        start <= needs.ownership_pairs.entries@.len(),
    ensures
        r == from_ownership(*needs, guilds@, start as int),
        r is Committing || (r matches Stage::Ownership(i) && i
            < needs.ownership_pairs.entries@.len()),
{
    let n: usize = needs.ownership_pairs.entries.len();
    let mut i: usize = start;
    while i < n
        invariant
            i <= n == needs.ownership_pairs.entries@.len(),
            from_ownership(*needs, guilds@, start as int) == from_ownership(
                *needs,
                guilds@,
                i as int,
            ),
        decreases n - i,
    {
        let wanted = needs.ownership_pairs.entries[i].1.meets(guilds);
        assert(wanted == overlap(needs.ownership_pairs.entries@[i as int].1@, guilds@));
        if wanted {
            return Stage::Ownership(i);
        }
        i += 1;
    }
    Stage::Committing
}

fn achievement_stage(needs: &RefreshNeeds, guilds: &TextSet, start: usize) -> (r: Stage)
    requires
        start <= needs.achievement_apps.entries@.len(),
    ensures
        r == from_achievements(*needs, guilds@, start as int),
        r is Committing || (r matches Stage::Ownership(i) && i
            < needs.ownership_pairs.entries@.len()) || (r matches Stage::Achievements(i) && i
            < needs.achievement_apps.entries@.len()),
{
    let n: usize = needs.achievement_apps.entries.len();
    let mut i: usize = start;
    while i < n
        invariant
            i <= n == needs.achievement_apps.entries@.len(),
            from_achievements(*needs, guilds@, start as int) == from_achievements(
                *needs,
                guilds@,
                i as int,
            ),
        decreases n - i,
    {
        let wanted = needs.achievement_apps.entries[i].1.meets(guilds);
        assert(wanted == overlap(needs.achievement_apps.entries@[i as int].1@, guilds@));
        if wanted {
            return Stage::Achievements(i);
        }
        i += 1;
    }
    ownership_stage(needs, guilds, 0)
}

fn guild_stage(needs: &RefreshNeeds) -> (r: Stage)
    ensures
        r == from_guilds(*needs),
{
    if needs.needs_guild_scope() {
        Stage::Guilds
    } else {
        Stage::Committing
    }
}

fn group_stage(needs: &RefreshNeeds) -> (r: Stage)
    ensures
        r == from_groups(*needs),
{
    if needs.need_groups {
        Stage::Groups
    } else {
        guild_stage(needs)
    }
}

fn level_stage(needs: &RefreshNeeds) -> (r: Stage)
    ensures
        r == from_level(*needs),
{
    if needs.need_level {
        Stage::Level
    } else {
        group_stage(needs)
    }
}

fn command_for(needs: &RefreshNeeds, stage: &Stage) -> (r: UserCommand)
    requires
        match *stage {
            Stage::Achievements(i) => i < needs.achievement_apps.entries@.len(),
            Stage::Ownership(i) => i < needs.ownership_pairs.entries@.len(),
            Stage::StoringAchievements(_) => false,
            Stage::StoringOwnership(_) => false,
            Stage::Failed => false,
            _ => true,
        },
    ensures
        asks(*needs, *stage, r),
{
    match stage {
        Stage::Games => UserCommand::FetchGames,
        Stage::Level => UserCommand::FetchLevel,
        Stage::Groups => UserCommand::FetchGroups,
        Stage::Guilds => UserCommand::FetchGuilds,
        Stage::Achievements(i) => UserCommand::FetchAchievements {
            app_id: needs.achievement_apps.entries[*i].0.clone(),
        },
        Stage::Ownership(i) => UserCommand::CheckOwnership {
            app_id: needs.ownership_pairs.entries[*i].0.0.clone(),
            publisher_key: needs.ownership_pairs.entries[*i].0.1.clone(),
        },
        _ => UserCommand::Commit,
    }
}

/// How the refresh of a player begins. `guilds` are those in which the player holds a role.
pub fn start_refresh(needs: &RefreshNeeds, guilds: TextSet) -> (r: (UserRefresh, UserCommand))
    ensures
        r.0 == (UserRefresh {
            stage: from_games(*needs),
            owned: None,
            level: None,
            groups: None,
            guilds,
        }),
        asks(*needs, r.0.stage, r.1),
        r.0.wf(*needs),
{
    let stage = if needs.need_games {
        Stage::Games
    } else {
        level_stage(needs)
    };
    let command = command_for(needs, &stage);
    (UserRefresh { stage, owned: None, level: None, groups: None, guilds }, command)
}

fn count_unlocked(list: &Vec<Achievement>) -> (r: usize)
    ensures
        r == unlocked_count(list@),
        r <= list@.len(),
{
    let n: usize = list.len();
    let mut count: usize = 0;
    let mut i: usize = 0;
    while i < n
        invariant
            i <= n == list@.len(),
            count <= i,
            count == unlocked_count(list@.take(i as int)),
        decreases n - i,
    {
        proof {
            assert(list@.take(i + 1).drop_last() =~= list@.take(i as int));
        }
        if list[i].achieved == 1 {
            count += 1;
        }
        i += 1;
    }
    assert(list@.take(n as int) =~= list@);
    count
}

fn merge_guilds(mut known: TextSet, ids: &Option<Vec<String>>) -> (r: TextSet)
    ensures
        r@ == more_guilds(known@, *ids),
{
    let ghost start = known@;
    match ids {
        Some(list) => {
            let n: usize = list.len();
            let mut i: usize = 0;
            while i < n
                invariant
                    i <= n == list@.len(),
                    known@ == start.union(text::texts(list@).take(i as int).to_set()),
                decreases n - i,
            {
                let ghost before = known@;
                known.insert(list[i].clone());
                proof {
                    let all = text::texts(list@);
                    let shorter = all.take(i as int);
                    let longer = all.take(i + 1);
                    assert(longer =~= shorter.push(list@[i as int]@));
                    assert(longer.to_set() =~= shorter.to_set().insert(list@[i as int]@)) by {
                        assert(longer[i as int] == list@[i as int]@);
                        assert forall|x: Seq<char>| longer.to_set().contains(x) implies
                            shorter.to_set().insert(list@[i as int]@).contains(x) by {
                            let j = choose|j: int| 0 <= j < longer.len() && longer[j] == x;
                            if j < i {
                                assert(shorter[j] == x);
                            }
                        }
                        assert forall|x: Seq<char>|
                            shorter.to_set().insert(list@[i as int]@).contains(x) implies
                            longer.to_set().contains(x) by {
                            if x != list@[i as int]@ {
                                let j = choose|j: int| 0 <= j < shorter.len() && shorter[j] == x;
                                assert(longer[j] == x);
                            }
                        }
                    }
                    assert(known@ =~= start.union(longer.to_set()));
                }
                i += 1;
            }
            assert(text::texts(list@).take(n as int) =~= text::texts(list@));
            known
        },
        None => known,
    }
}

/// Fetch the conditional data classes for one user: takes what was asked for and says what to do
/// next.
pub fn refresh_user(needs: &RefreshNeeds, state: UserRefresh, input: UserInput) -> (r: (
    UserRefresh,
    UserCommand,
))
    requires
        state.wf(*needs),
        state.awaits(input),
    ensures
        user_moves(*needs, state, input, r.0, r.1),
        r.0.wf(*needs),
{
    match (state.stage, input) {
        (Stage::Games, UserInput::Games(outcome)) => match outcome {
            Ok(o) => {
                let stage = level_stage(needs);
                let command = command_for(needs, &stage);
                (
                    UserRefresh {
                        stage,
                        owned: Some(o),
                        level: state.level,
                        groups: state.groups,
                        guilds: state.guilds,
                    },
                    command,
                )
            },
            Err(e) => (failed(state), UserCommand::Fail(e)),
        },
        (Stage::Level, UserInput::Level(outcome)) => match outcome {
            Ok(l) => {
                let stage = group_stage(needs);
                let command = command_for(needs, &stage);
                (
                    UserRefresh {
                        stage,
                        owned: state.owned,
                        level: Some(l),
                        groups: state.groups,
                        guilds: state.guilds,
                    },
                    command,
                )
            },
            Err(e) => (failed(state), UserCommand::Fail(e)),
        },
        (Stage::Groups, UserInput::Groups(outcome)) => match outcome {
            Ok(g) => {
                let stage = guild_stage(needs);
                let command = command_for(needs, &stage);
                (
                    UserRefresh {
                        stage,
                        owned: state.owned,
                        level: state.level,
                        groups: Some(g),
                        guilds: state.guilds,
                    },
                    command,
                )
            },
            Err(e) => (failed(state), UserCommand::Fail(e)),
        },
        (Stage::Guilds, UserInput::GuildIds(ids)) => {
            let guilds = merge_guilds(state.guilds, &ids);
            let stage = achievement_stage(needs, &guilds, 0);
            let command = command_for(needs, &stage);
            (
                UserRefresh {
                    stage,
                    owned: state.owned,
                    level: state.level,
                    groups: state.groups,
                    guilds,
                },
                command,
            )
        },
        (Stage::Achievements(i), UserInput::Achievements(outcome)) => match outcome {
            Ok(list) => {
                let command = UserCommand::StoreAchievements {
                    app_id: needs.achievement_apps.entries[i].0.clone(),
                    achievements: cache_docs::achievements_to_json(list.as_slice()),
                    total: #[verifier::truncate] (list.len() as i32),
                    unlocked: #[verifier::truncate] (count_unlocked(&list) as i32),
                };
                (at_stage(state, Stage::StoringAchievements(i)), command)
            },
            Err(AppError::QuotaExhausted { retry_after_secs }) => (
                failed(state),
                UserCommand::Fail(AppError::QuotaExhausted { retry_after_secs }),
            ),
            Err(_) => {
                assert(i < needs.achievement_apps.entries.len());
                let stage = achievement_stage(needs, &state.guilds, i + 1);
                let command = command_for(needs, &stage);
                (at_stage(state, stage), command)
            },
        },
        (Stage::StoringAchievements(i), UserInput::Stored) => {
            assert(i < needs.achievement_apps.entries.len());
            let stage = achievement_stage(needs, &state.guilds, i + 1);
            let command = command_for(needs, &stage);
            (at_stage(state, stage), command)
        },
        (Stage::Ownership(i), UserInput::Ownership(outcome)) => match outcome {
            Ok(ownership) => {
                let command = UserCommand::StoreOwnership {
                    app_id: needs.ownership_pairs.entries[i].0.0.clone(),
                    ownership,
                };
                (at_stage(state, Stage::StoringOwnership(i)), command)
            },
            Err(_) => {
                assert(i < needs.ownership_pairs.entries.len());
                let stage = ownership_stage(needs, &state.guilds, i + 1);
                let command = command_for(needs, &stage);
                (at_stage(state, stage), command)
            },
        },
        (Stage::StoringOwnership(i), UserInput::Stored) => {
            assert(i < needs.ownership_pairs.entries.len());
            let stage = ownership_stage(needs, &state.guilds, i + 1);
            let command = command_for(needs, &stage);
            (at_stage(state, stage), command)
        },
        (_, _) => {
            assert(false);
            (state, UserCommand::Commit)
        },
    }
}

fn at_stage(state: UserRefresh, stage: Stage) -> (r: UserRefresh)
    ensures
        r == (UserRefresh { stage, ..state }),
{
    UserRefresh {
        stage,
        owned: state.owned,
        level: state.level,
        groups: state.groups,
        guilds: state.guilds,
    }
}

fn failed(state: UserRefresh) -> (r: UserRefresh)
    ensures
        r == (UserRefresh { stage: Stage::Failed, ..state }),
{
    at_stage(state, Stage::Failed)
}

/// What is written to the cache for a player. `None` leaves a column as it is.
pub struct RefreshRecord {
    pub profile_data: Option<Value>,
    pub ban_data: Option<Value>,
    pub owned_games: Option<Value>,
    pub groups: Option<Value>,
    pub steam_level: Option<i32>,
    pub account_created: Option<Timestamp>,
    pub total_games_owned: Option<i32>,
    pub is_vac_banned: Option<bool>,
    pub is_game_banned: Option<bool>,
    pub country_code: Option<String>,
    pub library_visible: Option<bool>,
    pub stable_streak: i32,
    pub data_hash: String,
    /// Seconds until the data is fetched again.
    pub interval: i64,
}

/// The country of a profile; empty when it shows none. Without a profile it is not known.
pub open spec fn country_of(profile: Option<&PlayerSummary>) -> Option<Seq<char>> {
    match profile {
        Some(p) => Some(
            match p.loccountrycode {
                Some(c) => c@,
                None => Seq::empty(),
            },
        ),
        None => None,
    }
}

/// Is there a VAC ban? Without an entry it is not known.
pub open spec fn vac_banned_by(ban: Option<&PlayerBan>) -> Option<bool> {
    match ban {
        Some(b) => Some(b.vac_banned),
        None => None,
    }
}

/// Is there a game ban? Without an entry it is not known.
pub open spec fn game_banned_by(ban: Option<&PlayerBan>) -> Option<bool> {
    match ban {
        Some(b) => Some(b.number_of_game_bans > 0),
        None => None,
    }
}

/// What is known from an answer, or else what is cached.
pub open spec fn or_cached<A>(answer: Option<A>, cached: A) -> A {
    match answer {
        Some(a) => a,
        None => cached,
    }
}

/// When the account of a profile was created, if it shows that and the time can be represented.
pub open spec fn created_of(profile: Option<&PlayerSummary>) -> Option<Timestamp> {
    match profile {
        Some(p) => match p.timecreated {
            Some(secs) if clock::FIRST_SECOND <= secs <= clock::LAST_SECOND => Some(
                Timestamp { secs, nanos: 0 },
            ),
            _ => None,
        },
        None => None,
    }
}

/// What was fetched of a player, as it looks to the conditions. Bans and country are those that are
/// cached where the answer has no entry.
pub open spec fn snapshot_of(
    state: UserRefresh,
    user: BatchUser,
    profile: Option<&PlayerSummary>,
    ban: Option<&PlayerBan>,
) -> data_hash::Snapshot {
    data_hash::Snapshot {
        games: match state.owned {
            Some(o) => Some(o.games@),
            None => None,
        },
        game_count: match state.owned {
            Some(o) => Some(o.game_count as int),
            None => None,
        },
        library_visible: match state.owned {
            Some(o) => Some(o.library_visible),
            None => None,
        },
        level: match state.level {
            Some(l) => Some(l as int),
            None => None,
        },
        groups: match state.groups {
            Some(g) => Some(data_hash::gids(g@)),
            None => None,
        },
        vac_banned: or_cached(vac_banned_by(ban), user.prev_vac_banned),
        game_banned: or_cached(game_banned_by(ban), user.prev_game_banned),
        country: or_cached(country_of(profile), user.prev_country@),
    }
}

/// Is this what is written for a player?
pub open spec fn records(
    r: RefreshRecord,
    state: UserRefresh,
    user: BatchUser,
    profile: Option<&PlayerSummary>,
    ban: Option<&PlayerBan>,
    base_interval: int,
    max_stable: int,
) -> bool {
    let hash = digest::text_digest(
        data_hash::snapshot_text(snapshot_of(state, user, profile, ban)),
    );
    let streak = refresh_worker::streak_after(hash == user.prev_hash@, user.prev_streak as int);
    &&& r.profile_data is Some == profile is Some
    &&& profile is Some ==> r.profile_data->0@ == cache_docs::profile_doc(*profile->0)
    &&& r.ban_data is Some == ban is Some
    &&& ban is Some ==> r.ban_data->0@ == cache_docs::ban_doc(*ban->0)
    &&& r.owned_games is Some == state.owned is Some
    &&& r.owned_games is Some ==> r.owned_games->0@ == cache_docs::games_doc(state.owned->0.games@)
    &&& r.groups is Some == state.groups is Some
    &&& r.groups is Some ==> r.groups->0@ == cache_docs::groups_doc(state.groups->0@)
    &&& r.steam_level == state.level
    &&& r.account_created == created_of(profile)
    &&& r.total_games_owned == (match state.owned {
        Some(o) => Some(o.game_count as i32),
        None => None::<i32>,
    })
    &&& r.is_vac_banned == vac_banned_by(ban)
    &&& r.is_game_banned == game_banned_by(ban)
    &&& condition::text_of(r.country_code) == country_of(profile)
    &&& r.library_visible == (match state.owned {
        Some(o) => Some(o.library_visible),
        None => None::<bool>,
    })
    &&& r.data_hash@ == hash
    &&& r.stable_streak == streak
    &&& r.interval == refresh_worker::interval(base_interval, user.is_active, streak, max_stable)
}

/// What is written to the cache once everything needed was fetched.
pub fn commit_record(
    state: &UserRefresh,
    user: &BatchUser,
    profile: Option<&PlayerSummary>,
    ban: Option<&PlayerBan>,
    base_interval: i64,
    max_stable: i64,
) -> (r: RefreshRecord)
    requires
        state.stage is Committing,
        user.is_active || i64::MIN <= base_interval * refresh_worker::INACTIVE_MULTIPLIER
            <= i64::MAX,
    ensures
        records(r, *state, *user, profile, ban, base_interval as int, max_stable as int),
{
    let (ban_data, is_vac_banned, is_game_banned) = match ban {
        Some(b) => (
            Some(cache_docs::ban_to_json(b)),
            Some(b.vac_banned),
            Some(b.number_of_game_bans > 0),
        ),
        None => (None, None, None),
    };
    let country_code = match profile {
        Some(p) => match &p.loccountrycode {
            Some(c) => Some(c.clone()),
            None => Some(String::new()),
        },
        None => None,
    };
    let (profile_data, account_created) = match profile {
        Some(p) => (
            Some(cache_docs::profile_to_json(p)),
            match p.timecreated {
                Some(secs) => clock::from_unix(secs),
                None => None,
            },
        ),
        None => (None, None),
    };
    let vac_banned = match is_vac_banned {
        Some(b) => b,
        None => user.prev_vac_banned,
    };
    let game_banned = match is_game_banned {
        Some(b) => b,
        None => user.prev_game_banned,
    };
    let country: &str = match &country_code {
        Some(c) => c.as_str(),
        None => user.prev_country.as_str(),
    };
    let groups = match &state.groups {
        Some(g) => Some(g.as_slice()),
        None => None,
    };
    let groups_doc = match &state.groups {
        Some(g) => Some(cache_docs::groups_to_json(g.as_slice())),
        None => None,
    };
    let (games, game_count, library_visible, owned_games, total_games_owned) = match &state.owned {
        Some(o) => (
            Some(o.games.as_slice()),
            Some(o.game_count),
            Some(o.library_visible),
            Some(cache_docs::games_to_json(o.games.as_slice())),
            Some(o.game_count as i32),
        ),
        None => (None, None, None, None, None),
    };
    let data_hash = data_hash::compute_data_hash(
        games,
        game_count,
        library_visible,
        state.level,
        groups,
        vac_banned,
        game_banned,
        country,
    );
    assert(data_hash::snapshot(
        games,
        game_count,
        library_visible,
        state.level,
        groups,
        vac_banned,
        game_banned,
        country,
    ) == snapshot_of(*state, *user, profile, ban));
    let stable_streak: i32 = refresh_worker::next_streak(
        data_hash.as_str(),
        user.prev_hash.as_str(),
        user.prev_streak,
    );
    let interval: i64 = refresh_worker::compute_interval(
        base_interval,
        user.is_active,
        stable_streak,
        max_stable,
    );
    RefreshRecord {
        profile_data,
        ban_data,
        owned_games,
        groups: groups_doc,
        steam_level: state.level,
        account_created,
        total_games_owned,
        is_vac_banned,
        is_game_banned,
        country_code,
        library_visible,
        stable_streak,
        data_hash,
        interval,
    }
}

// ── What holds of every refresh ────────────────────────────────────────────

/// What is written holds an answer of Steam for every class that some condition needs, and leaves
/// every other class as it was. Bans, profile and country are written exactly when the answer has
/// the player's entry, and the time of creation only when the profile shows it.
pub proof fn law_only_definite_answers_are_written(
    needs: RefreshNeeds,
    state: UserRefresh,
    r: RefreshRecord,
    user: BatchUser,
    profile: Option<&PlayerSummary>,
    ban: Option<&PlayerBan>,
    base_interval: int,
    max_stable: int,
)
    requires
        state.stage is Committing,
        state.wf(needs),
        records(r, state, user, profile, ban, base_interval, max_stable),
    ensures
        r.owned_games is Some <==> needs.need_games,
        r.total_games_owned is Some <==> needs.need_games,
        r.library_visible is Some <==> needs.need_games,
        r.steam_level is Some <==> needs.need_level,
        r.groups is Some <==> needs.need_groups,
        r.ban_data is Some <==> ban is Some,
        r.is_vac_banned is Some <==> ban is Some,
        r.is_game_banned is Some <==> ban is Some,
        r.profile_data is Some <==> profile is Some,
        r.country_code is Some <==> profile is Some,
        r.account_created is Some ==> profile is Some && profile->0.timecreated is Some,
{
}

/// An entry that is missing from an answer does not look like a change: the data looks as if the
/// cached bans and the cached country had been answered.
pub proof fn law_missing_entries_look_unchanged(
    state: UserRefresh,
    user: BatchUser,
    profile: PlayerSummary,
    ban: PlayerBan,
)
    requires
        ban.vac_banned == user.prev_vac_banned,
        (ban.number_of_game_bans > 0) == user.prev_game_banned,
        country_of(Some(&profile)) == Some(user.prev_country@),
    ensures
        snapshot_of(state, user, None, None) == snapshot_of(
            state,
            user,
            Some(&profile),
            Some(&ban),
        ),
        snapshot_of(state, user, Some(&profile), None) == snapshot_of(
            state,
            user,
            Some(&profile),
            Some(&ban),
        ),
        snapshot_of(state, user, None, Some(&ban)) == snapshot_of(
            state,
            user,
            Some(&profile),
            Some(&ban),
        ),
{
}

/// When Steam does not answer for the library, the level or the groups, or the budget is spent,
/// nothing is written: the refresh fails with that error.
pub proof fn law_failures_write_nothing(
    needs: RefreshNeeds,
    state: UserRefresh,
    input: UserInput,
    next: UserRefresh,
    command: UserCommand,
    e: AppError,
)
    requires
        user_moves(needs, state, input, next, command),
        input == UserInput::Games(Err(e)) || input == UserInput::Level(Err(e)) || input
            == UserInput::Groups(Err(e)) || (input == UserInput::Achievements(Err(e)) && e
            is QuotaExhausted),
    ensures
        command == UserCommand::Fail(e),
        next.stage is Failed,
{
}

/// Trouble with the gateway, with achievements or with a publisher's answer never ends a refresh.
pub proof fn law_side_trouble_ends_no_refresh(
    needs: RefreshNeeds,
    state: UserRefresh,
    input: UserInput,
    next: UserRefresh,
    command: UserCommand,
    e: AppError,
)
    requires
        user_moves(needs, state, input, next, command),
        input == UserInput::GuildIds(None) || (input == UserInput::Achievements(Err(e)) && !(e
            is QuotaExhausted)) || input == UserInput::Ownership(Err(e)),
    ensures
        !(command is Fail),
        next.owned == state.owned && next.level == state.level && next.groups == state.groups,
{
    if command is Fail {
        assert(asks(needs, next.stage, command));
    }
}

/// Only what some condition needs is fetched: the library, the level, the groups, and the guilds
/// only where apps are asked for.
pub proof fn law_only_needed_data_is_fetched(
    needs: RefreshNeeds,
    state: UserRefresh,
    input: UserInput,
    next: UserRefresh,
    command: UserCommand,
)
    requires
        user_moves(needs, state, input, next, command),
        state.awaits(input),
    ensures
        !(command is FetchGames),
        command is FetchLevel ==> needs.need_level,
        command is FetchGroups ==> needs.need_groups,
        command is FetchGuilds ==> scoped(needs),
        from_games(needs) is Games ==> needs.need_games,
        from_games(needs) is Level ==> needs.need_level,
        from_games(needs) is Groups ==> needs.need_groups,
        from_games(needs) is Guilds ==> scoped(needs),
{
    match state.stage {
        Stage::Achievements(i) => lemma_achievements_go_on(needs, state.guilds@, i + 1),
        Stage::StoringAchievements(i) => lemma_achievements_go_on(needs, state.guilds@, i + 1),
        Stage::Ownership(i) => lemma_ownership_goes_on(needs, state.guilds@, i + 1),
        Stage::StoringOwnership(i) => lemma_ownership_goes_on(needs, state.guilds@, i + 1),
        Stage::Guilds => lemma_achievements_go_on(needs, next.guilds@, 0),
        _ => {},
    }
}

/// Only apps that some condition names in one of the player's guilds are asked for.
pub proof fn law_achievements_are_scoped_to_guilds(
    needs: RefreshNeeds,
    guilds: Set<Seq<char>>,
    i: int,
)
    requires
        0 <= i,
        needs.achievement_apps.entries@.len() <= usize::MAX,
        needs.ownership_pairs.entries@.len() <= usize::MAX,
    ensures
        match from_achievements(needs, guilds, i) {
            Stage::Achievements(k) => i <= k < needs.achievement_apps.entries@.len() && overlap(
                needs.achievement_apps.entries@[k as int].1@,
                guilds,
            ),
            Stage::Ownership(k) => k < needs.ownership_pairs.entries@.len() && overlap(
                needs.ownership_pairs.entries@[k as int].1@,
                guilds,
            ),
            Stage::Committing => true,
            _ => false,
        },
    decreases needs.achievement_apps.entries@.len() - i,
{
    if i < needs.achievement_apps.entries@.len() {
        if !overlap(needs.achievement_apps.entries@[i].1@, guilds) {
            law_achievements_are_scoped_to_guilds(needs, guilds, i + 1);
        }
    } else {
        lemma_ownership_is_scoped(needs, guilds, 0);
    }
}

proof fn lemma_achievements_go_on(needs: RefreshNeeds, guilds: Set<Seq<char>>, i: int)
    ensures
        ({
            let stage = from_achievements(needs, guilds, i);
            stage is Achievements || stage is Ownership || stage is Committing
        }),
    decreases needs.achievement_apps.entries@.len() - i,
{
    if 0 <= i < needs.achievement_apps.entries@.len() {
        if !overlap(needs.achievement_apps.entries@[i].1@, guilds) {
            lemma_achievements_go_on(needs, guilds, i + 1);
        }
    } else {
        lemma_ownership_goes_on(needs, guilds, 0);
    }
}

proof fn lemma_ownership_goes_on(needs: RefreshNeeds, guilds: Set<Seq<char>>, i: int)
    ensures
        ({
            let stage = from_ownership(needs, guilds, i);
            stage is Ownership || stage is Committing
        }),
    decreases needs.ownership_pairs.entries@.len() - i,
{
    if 0 <= i < needs.ownership_pairs.entries@.len() {
        if !overlap(needs.ownership_pairs.entries@[i].1@, guilds) {
            lemma_ownership_goes_on(needs, guilds, i + 1);
        }
    }
}

proof fn lemma_ownership_is_scoped(needs: RefreshNeeds, guilds: Set<Seq<char>>, i: int)
    requires
        0 <= i,
        needs.ownership_pairs.entries@.len() <= usize::MAX,
    ensures
        match from_ownership(needs, guilds, i) {
            Stage::Ownership(k) => i <= k < needs.ownership_pairs.entries@.len() && overlap(
                needs.ownership_pairs.entries@[k as int].1@,
                guilds,
            ),
            Stage::Committing => true,
            _ => false,
        },
    decreases needs.ownership_pairs.entries@.len() - i,
{
    if i < needs.ownership_pairs.entries@.len() {
        if !overlap(needs.ownership_pairs.entries@[i].1@, guilds) {
            lemma_ownership_is_scoped(needs, guilds, i + 1);
        }
    }
}

// ── What a refresh is for ──────────────────────────────────────────────────

/// Is the app at a place of the list needed in one of these guilds?
pub open spec fn achievements_wanted(needs: RefreshNeeds, guilds: Set<Seq<char>>, k: int) -> bool {
    exists|g: Seq<char>|
        #[trigger] guilds.contains(g) && needs.achievement_apps.entries@[k].1@.contains(g)
}

/// Is the app with its key at a place of the list needed in one of these guilds?
pub open spec fn ownership_wanted(needs: RefreshNeeds, guilds: Set<Seq<char>>, k: int) -> bool {
    exists|g: Seq<char>|
        #[trigger] guilds.contains(g) && needs.ownership_pairs.entries@[k].1@.contains(g)
}

/// Is a stage one in which nothing from these places on was passed over that is needed in one of
/// the guilds?
pub open spec fn passes_over_nothing(
    needs: RefreshNeeds,
    guilds: Set<Seq<char>>,
    apps: int,
    pairs: int,
    stage: Stage,
) -> bool {
    let n = needs.achievement_apps.entries@.len() as int;
    let m = needs.ownership_pairs.entries@.len() as int;
    let (to_app, to_pair) = match stage {
        Stage::Achievements(k) => (k as int, 0),
        Stage::Ownership(k) => (n, k as int),
        _ => (n, m),
    };
    &&& stage is Achievements || stage is Ownership || stage is Committing
    &&& forall|j: int| apps <= j < to_app ==> !(#[trigger] achievements_wanted(needs, guilds, j))
    &&& forall|j: int| pairs <= j < to_pair ==> !(#[trigger] ownership_wanted(needs, guilds, j))
    &&& stage is Achievements ==> apps <= to_app < n && achievements_wanted(needs, guilds, to_app)
    &&& stage is Ownership ==> pairs <= to_pair < m && ownership_wanted(needs, guilds, to_pair)
}

proof fn lemma_ownership_passes_over_nothing(needs: RefreshNeeds, guilds: Set<Seq<char>>, i: int)
    requires
        0 <= i,
        needs.ownership_pairs.entries@.len() <= usize::MAX,
    ensures
        passes_over_nothing(
            needs,
            guilds,
            needs.achievement_apps.entries@.len() as int,
            i,
            from_ownership(needs, guilds, i),
        ),
    decreases needs.ownership_pairs.entries@.len() - i,
{
    if i < needs.ownership_pairs.entries@.len() {
        if overlap(needs.ownership_pairs.entries@[i].1@, guilds) {
            let g = choose|g: Seq<char>|
                #[trigger] needs.ownership_pairs.entries@[i].1@.contains(g) && guilds.contains(g);
            assert(guilds.contains(g));
            assert(ownership_wanted(needs, guilds, i));
        } else {
            assert(!ownership_wanted(needs, guilds, i));
            lemma_ownership_passes_over_nothing(needs, guilds, i + 1);
        }
    }
}

proof fn lemma_achievements_pass_over_nothing(needs: RefreshNeeds, guilds: Set<Seq<char>>, i: int)
    requires
        0 <= i,
        needs.achievement_apps.entries@.len() <= usize::MAX,
        needs.ownership_pairs.entries@.len() <= usize::MAX,
    ensures
        passes_over_nothing(needs, guilds, i, 0, from_achievements(needs, guilds, i)),
    decreases needs.achievement_apps.entries@.len() - i,
{
    if i < needs.achievement_apps.entries@.len() {
        if overlap(needs.achievement_apps.entries@[i].1@, guilds) {
            let g = choose|g: Seq<char>|
                #[trigger] needs.achievement_apps.entries@[i].1@.contains(g) && guilds.contains(g);
            assert(guilds.contains(g));
            assert(achievements_wanted(needs, guilds, i));
        } else {
            assert(!achievements_wanted(needs, guilds, i));
            lemma_achievements_pass_over_nothing(needs, guilds, i + 1);
        }
    } else {
        lemma_ownership_passes_over_nothing(needs, guilds, 0);
    }
}

/// Everything that is needed is asked for. A refresh that begins asks for the library, the level,
/// the groups or the guilds, whichever is needed first, and is over only when none of them is.
pub proof fn law_a_refresh_begins_with_what_is_needed(needs: RefreshNeeds, command: UserCommand)
    requires
        asks(needs, from_games(needs), command),
    ensures
        needs.need_games ==> command is FetchGames,
        !needs.need_games && needs.need_level ==> command is FetchLevel,
        !needs.need_games && !needs.need_level && needs.need_groups ==> command is FetchGroups,
        !needs.need_games && !needs.need_level && !needs.need_groups && (
        needs.achievement_apps.entries@.len() > 0 || needs.ownership_pairs.entries@.len() > 0)
            ==> command is FetchGuilds,
        !needs.need_games && !needs.need_level && !needs.need_groups
            && needs.achievement_apps.entries@.len() == 0 && needs.ownership_pairs.entries@.len()
            == 0 ==> command is Commit,
{
}

/// Whatever Steam answers for the library, the level and the groups is kept, and the next of them
/// that is needed follows, then the guilds if apps are needed, and only then is the record written.
pub proof fn law_answers_are_kept_and_the_next_need_follows(
    needs: RefreshNeeds,
    state: UserRefresh,
    input: UserInput,
    next: UserRefresh,
    command: UserCommand,
)
    requires
        user_moves(needs, state, input, next, command),
    ensures
        ({
            let apps = needs.achievement_apps.entries@.len() > 0
                || needs.ownership_pairs.entries@.len() > 0;
            &&& input matches UserInput::Games(Ok(o)) ==> {
                &&& next.owned == Some(o)
                &&& next.level == state.level && next.groups == state.groups && next.guilds
                    == state.guilds
                &&& needs.need_level ==> command is FetchLevel
                &&& !needs.need_level && needs.need_groups ==> command is FetchGroups
                &&& !needs.need_level && !needs.need_groups && apps ==> command is FetchGuilds
                &&& !needs.need_level && !needs.need_groups && !apps ==> command is Commit
            }
            &&& input matches UserInput::Level(Ok(l)) ==> {
                &&& next.level == Some(l)
                &&& next.owned == state.owned && next.groups == state.groups && next.guilds
                    == state.guilds
                &&& needs.need_groups ==> command is FetchGroups
                &&& !needs.need_groups && apps ==> command is FetchGuilds
                &&& !needs.need_groups && !apps ==> command is Commit
            }
            &&& input matches UserInput::Groups(Ok(g)) ==> {
                &&& next.groups == Some(g)
                &&& next.owned == state.owned && next.level == state.level && next.guilds
                    == state.guilds
                &&& apps ==> command is FetchGuilds
                &&& !apps ==> command is Commit
            }
        }),
{
}

/// Every app that is needed in one of the player's guilds is asked for, in turn: the achievements
/// first, then the answers of publishers, and the record is written only when none is left. The
/// player's guilds are those known already and those that the gateway names.
pub proof fn law_every_app_of_the_players_guilds_is_asked_for(
    needs: RefreshNeeds,
    state: UserRefresh,
    input: UserInput,
    next: UserRefresh,
    command: UserCommand,
)
    requires
        user_moves(needs, state, input, next, command),
        needs.achievement_apps.entries@.len() <= usize::MAX,
        needs.ownership_pairs.entries@.len() <= usize::MAX,
    ensures
        input matches UserInput::GuildIds(ids) ==> {
            &&& forall|g: Seq<char>| #[trigger]
                next.guilds@.contains(g) <==> state.guilds@.contains(g) || (ids is Some && exists|
                    i: int,
                |
                    0 <= i < ids->0@.len() && (#[trigger] ids->0@[i])@ == g)
            &&& passes_over_nothing(needs, next.guilds@, 0, 0, next.stage)
        },
        input is Stored ==> {
            &&& next.guilds == state.guilds
            &&& state.stage matches Stage::StoringAchievements(k) ==> passes_over_nothing(
                needs,
                next.guilds@,
                k + 1,
                0,
                next.stage,
            )
            &&& state.stage matches Stage::StoringOwnership(k) ==> passes_over_nothing(
                needs,
                next.guilds@,
                needs.achievement_apps.entries@.len() as int,
                k + 1,
                next.stage,
            )
        },
        input matches UserInput::Achievements(Err(e)) ==> !(e is QuotaExhausted) ==>
            passes_over_nothing(
            needs,
            state.guilds@,
            state.stage->Achievements_0 + 1,
            0,
            next.stage,
        ),
        input matches UserInput::Ownership(Err(_)) ==> passes_over_nothing(
            needs,
            state.guilds@,
            needs.achievement_apps.entries@.len() as int,
            state.stage->Ownership_0 + 1,
            next.stage,
        ),
        next.stage matches Stage::Achievements(k) ==> command
            matches UserCommand::FetchAchievements { app_id } && app_id@
            == needs.achievement_apps.entries@[k as int].0@,
        next.stage matches Stage::Ownership(k) ==> command
            matches UserCommand::CheckOwnership { app_id, publisher_key } && app_id@
            == needs.ownership_pairs.entries@[k as int].0.0@ && publisher_key@
            == needs.ownership_pairs.entries@[k as int].0.1@,
        next.stage is Committing ==> command is Commit,
{
    match state.stage {
        Stage::Guilds => {
            lemma_achievements_pass_over_nothing(needs, next.guilds@, 0);
            if let UserInput::GuildIds(Some(list)) = input {
                let named = text::texts(list@);
                assert forall|g: Seq<char>| #[trigger]
                    next.guilds@.contains(g) <==> state.guilds@.contains(g) || exists|i: int|
                    0 <= i < list@.len() && (#[trigger] list@[i])@ == g by {
                    if named.to_set().contains(g) {
                        let i = choose|i: int| 0 <= i < named.len() && named[i] == g;
                        assert(list@[i]@ == g);
                    }
                    assert forall|i: int|
                        0 <= i < list@.len() && (#[trigger] list@[i])@ == g implies
                        named.to_set().contains(g) by {
                        assert(named[i] == g);
                    }
                }
            }
        },
        Stage::Achievements(k) => lemma_achievements_pass_over_nothing(
            needs,
            state.guilds@,
            k + 1,
        ),
        Stage::StoringAchievements(k) => lemma_achievements_pass_over_nothing(
            needs,
            state.guilds@,
            k + 1,
        ),
        Stage::Ownership(k) => lemma_ownership_passes_over_nothing(needs, state.guilds@, k + 1),
        Stage::StoringOwnership(k) => lemma_ownership_passes_over_nothing(
            needs,
            state.guilds@,
            k + 1,
        ),
        _ => {},
    }
}

/// The achievements that Steam lists for an app are stored under that app, with how many there are
/// and how many of them are achieved; and so is the answer of a publisher.
pub proof fn law_answers_on_apps_are_stored(
    needs: RefreshNeeds,
    state: UserRefresh,
    input: UserInput,
    next: UserRefresh,
    command: UserCommand,
)
    requires
        user_moves(needs, state, input, next, command),
    ensures
        input matches UserInput::Achievements(Ok(list)) ==> {
            &&& command matches UserCommand::StoreAchievements {
                app_id,
                achievements,
                total,
                unlocked,
            }
            &&& app_id@ == needs.achievement_apps.entries@[state.stage->Achievements_0 as int].0@
            &&& forall|name: Seq<char>| #[trigger]
                condition_eval::has_unlocked(achievements@, name) <==> exists|i: int|
                    0 <= i < list@.len() && (#[trigger] list@[i]).apiname@ == name
                        && list@[i].achieved == 1
            &&& list@.len() <= i32::MAX ==> total == list@.len() && unlocked == list@.filter(
                |a: Achievement| a.achieved == 1,
            ).len()
            &&& next.stage == Stage::StoringAchievements(state.stage->Achievements_0)
        },
        input matches UserInput::Ownership(Ok(o)) ==> {
            &&& command matches UserCommand::StoreOwnership { app_id, ownership }
            &&& app_id@ == needs.ownership_pairs.entries@[state.stage->Ownership_0 as int].0.0@
            &&& ownership == o
            &&& next.stage == Stage::StoringOwnership(state.stage->Ownership_0)
        },
        (input is Achievements || input is Ownership || input is Stored) && !(command is Fail)
            ==> next.owned == state.owned && next.level == state.level && next.groups == state.groups
            && next.guilds == state.guilds,
{
    if let UserInput::Achievements(Ok(list)) = input {
        lemma_unlocked_are_counted(list@);
        assert forall|name: Seq<char>| #[trigger]
            condition_eval::has_unlocked(
                cache_docs::achievements_doc(list@),
                name,
            ) <==> exists|i: int|
            0 <= i < list@.len() && (#[trigger] list@[i]).apiname@ == name && list@[i].achieved
                == 1 by {
            cache_docs::law_cached_achievements_show_what_is_unlocked(list@, name);
        }
    }
}

proof fn lemma_unlocked_are_counted(list: Seq<Achievement>)
    ensures
        unlocked_count(list) == list.filter(|a: Achievement| a.achieved == 1).len(),
        unlocked_count(list) <= list.len(),
    decreases list.len(),
{
    let p = |a: Achievement| a.achieved == 1;
    reveal(Seq::filter);
    if list.len() > 0 {
        lemma_unlocked_are_counted(list.drop_last());
    }
}

/// What is written to the cache is what Steam says: the library and the number of its games, the
/// level, the groups, either ban, the country and the time of creation, each as answered.
pub proof fn law_what_is_written_is_what_steam_says(
    state: UserRefresh,
    r: RefreshRecord,
    user: BatchUser,
    profile: Option<&PlayerSummary>,
    ban: Option<&PlayerBan>,
    base_interval: int,
    max_stable: int,
)
    requires
        records(r, state, user, profile, ban, base_interval, max_stable),
    ensures
        state.owned matches Some(o) ==> {
            &&& 0 <= o.game_count <= i32::MAX ==> r.total_games_owned is Some
                && r.total_games_owned->0 == o.game_count
            &&& r.library_visible == Some(o.library_visible)
            &&& forall|app: int| #[trigger]
                condition_eval::in_library(r.owned_games->0@, app) <==> exists|i: int|
                    0 <= i < o.games@.len() && (#[trigger] o.games@[i]).appid == app
        },
        state.level matches Some(l) ==> r.steam_level == Some(l),
        state.groups matches Some(list) ==> forall|gid: Seq<char>| #[trigger]
            condition_eval::in_groups(r.groups->0@, gid) <==> exists|i: int|
                0 <= i < list@.len() && (#[trigger] list@[i]).gid@ == gid,
        ban matches Some(b) ==> {
            &&& r.is_vac_banned == Some(b.vac_banned)
            &&& r.is_game_banned == Some(b.number_of_game_bans >= 1)
        },
        profile matches Some(p) ==> {
            &&& p.loccountrycode matches Some(c) ==> r.country_code is Some && r.country_code->0@
                == c@
            &&& p.loccountrycode is None ==> r.country_code is Some && r.country_code->0@.len() == 0
            &&& p.timecreated matches Some(t) ==> clock::FIRST_SECOND <= t <= clock::LAST_SECOND
                ==> r.account_created == Some(Timestamp { secs: t, nanos: 0 })
        },
{
    if let Some(o) = state.owned {
        assert forall|app: int| #[trigger]
            condition_eval::in_library(r.owned_games->0@, app) <==> exists|i: int|
            0 <= i < o.games@.len() && (#[trigger] o.games@[i]).appid == app by {
            cache_docs::law_cached_library_shows_the_games(o.games@, app);
        }
    }
    if let Some(list) = state.groups {
        assert forall|gid: Seq<char>| #[trigger]
            condition_eval::in_groups(r.groups->0@, gid) <==> exists|i: int|
            0 <= i < list@.len() && (#[trigger] list@[i]).gid@ == gid by {
            cache_docs::law_cached_groups_show_the_groups(list@, gid);
        }
    }
}

/// The data of a player counts as unchanged exactly when its digest is the one stored with the
/// player; then the streak grows by one, up to a hundred, and otherwise it starts anew. What the
/// digest is taken of holds every class of data that was fetched, and the bans and the country as
/// answered or, without an answer, as cached.
pub proof fn law_a_streak_counts_unchanged_fetches(
    state: UserRefresh,
    r: RefreshRecord,
    user: BatchUser,
    profile: Option<&PlayerSummary>,
    ban: Option<&PlayerBan>,
    base_interval: int,
    max_stable: int,
)
    requires
        records(r, state, user, profile, ban, base_interval, max_stable),
    ensures
        r.data_hash@ != user.prev_hash@ ==> r.stable_streak == 0,
        r.data_hash@ == user.prev_hash@ && user.prev_streak < 100 ==> r.stable_streak
            == user.prev_streak + 1,
        r.data_hash@ == user.prev_hash@ && user.prev_streak >= 100 ==> r.stable_streak == 100,
        ({
            let s = snapshot_of(state, user, profile, ban);
            &&& r.data_hash@ == digest::text_digest(data_hash::snapshot_text(s))
            &&& state.owned is None ==> s.games is None && s.game_count is None
                && s.library_visible is None
            &&& state.owned matches Some(o) ==> s.games == Some(o.games@) && s.game_count == Some(
                o.game_count as int,
            ) && s.library_visible == Some(o.library_visible)
            &&& state.level is None ==> s.level is None
            &&& state.level matches Some(l) ==> s.level == Some(l as int)
            &&& state.groups is None ==> s.groups is None
            &&& state.groups matches Some(g) ==> s.groups is Some && s.groups->0.len() == g@.len()
                && forall|i: int| 0 <= i < g@.len() ==> #[trigger] s.groups->0[i] == g@[i].gid@
            &&& ban matches Some(b) ==> s.vac_banned == b.vac_banned && s.game_banned == (
            b.number_of_game_bans >= 1)
            &&& ban is None ==> s.vac_banned == user.prev_vac_banned && s.game_banned
                == user.prev_game_banned
            &&& profile is None ==> s.country == user.prev_country@
            &&& profile matches Some(p) ==> s.country == (match p.loccountrycode {
                Some(c) => c@,
                None => Seq::empty(),
            })
        }),
{
}

/// The calls for a player who linked less than ten minutes ago, and all calls where only what users
/// ask for is served, are interactive; all others are background calls.
pub proof fn law_fresh_links_are_served_interactively(
    linked_at: Timestamp,
    interactive_only: bool,
    now: Timestamp,
)
    ensures
        interactive_only ==> class_of(linked_at, interactive_only, now) is Interactive,
        !interactive_only ==> (class_of(linked_at, interactive_only, now) is Interactive <==> now@
            - linked_at@ < 600_000_000_000),
{
}

/// The profile and the bans are written as Steam told them, where it did, and left as they are
/// where it did not.
pub proof fn law_profile_and_bans_are_written_as_told(
    r: RefreshRecord,
    state: UserRefresh,
    user: BatchUser,
    profile: Option<&PlayerSummary>,
    ban: Option<&PlayerBan>,
    base_interval: int,
    max_stable: int,
)
    requires
        records(r, state, user, profile, ban, base_interval, max_stable),
    ensures
        profile is None ==> r.profile_data is None,
        profile matches Some(p) ==> {
            &&& r.profile_data is Some
            &&& r.profile_data->0@.text_member("steamid"@) == Some(p.steamid@)
            &&& r.profile_data->0@.text_member("personaname"@) == condition::text_of(p.personaname)
            &&& r.profile_data->0@.text_member("loccountrycode"@) == condition::text_of(
                p.loccountrycode,
            )
        },
        ban is None ==> r.ban_data is None,
        ban matches Some(b) ==> {
            &&& r.ban_data is Some
            &&& r.ban_data->0@.text_member("SteamId"@) == Some(b.steam_id@)
            &&& r.ban_data->0@.bool_member("VACBanned"@) == Some(b.vac_banned)
            &&& r.ban_data->0@.int_member("NumberOfGameBans"@) == Some(b.number_of_game_bans as int)
        },
{
    if let Some(p) = profile {
        cache_docs::law_a_cached_profile_says_what_steam_said(*p);
    }
    if let Some(b) = ban {
        cache_docs::law_cached_bans_say_what_steam_said(*b);
    }
}

} // verus!
