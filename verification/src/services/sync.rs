//! Which members hold a role, and what has to change for them to hold it.

use vstd::prelude::*;
use crate::clock;
use crate::clock::Timestamp;
use crate::error::AppError;
use crate::lookup::{Lookup, TextSet};
use crate::models::condition;
use crate::models::condition::{Condition, ConditionField, Rule};
use crate::services::condition_eval;
use crate::services::condition_eval::{AppOwnershipRow, Facts, GameAchievementRow, UserCacheRow};
use crate::text;

verus! {

/// Events sent to the player sync worker (lightweight, per-user).
#[derive(Debug, Clone)]
pub enum PlayerSyncEvent {
    PlayerUpdated { discord_id: String },
    AccountLinked { discord_id: String },
    AccountUnlinked { discord_id: String },
}

/// Events sent to the config sync worker (heavy, per-role-link).
#[derive(Debug, Clone)]
pub struct ConfigSyncEvent {
    pub guild_id: String,
    pub role_id: String,
}

/// Row from role_links table
pub struct RoleLink {
    pub guild_id: String,
    pub role_id: String,
    pub api_token: String,
    pub conditions: Vec<Condition>,
    pub publisher_key: Option<String>,
}

// ── What has to be loaded ──────────────────────────────────────────────────

/// The app ids that a list of conditions names.
pub open spec fn apps_in(list: Seq<Rule>) -> Set<Seq<char>> {
    Set::new(
        |a: Seq<char>|
            exists|i: int| 0 <= i < list.len() && (#[trigger] list[i]).app_id == Some(a),
    )
}

/// The app ids whose ownership a list of conditions asks for.
pub open spec fn owned_apps_in(list: Seq<Rule>) -> Set<Seq<char>> {
    Set::new(
        |a: Seq<char>|
            exists|i: int|
                0 <= i < list.len() && (#[trigger] list[i]).app_id == Some(a)
                    && list[i].field is OwnsGame,
    )
}

/// The app ids that the conditions of some role link name.
pub open spec fn apps_of_links(links: Seq<RoleLink>) -> Set<Seq<char>> {
    Set::new(
        |a: Seq<char>|
            exists|i: int|
                0 <= i < links.len() && apps_in(
                    condition::rules((#[trigger] links[i]).conditions@),
                ).contains(a),
    )
}

/// The app ids whose ownership a role link with a publisher key asks for.
pub open spec fn published_apps_of_links(links: Seq<RoleLink>) -> Set<Seq<char>> {
    Set::new(
        |a: Seq<char>|
            exists|i: int|
                0 <= i < links.len() && (#[trigger] links[i]).publisher_key is Some
                    && owned_apps_in(condition::rules(links[i].conditions@)).contains(a),
    )
}

/// Adds the app ids that the conditions name; with `owned_only`, those whose ownership they ask
/// for.
fn add_apps(conditions: &Vec<Condition>, owned_only: bool, set: &mut TextSet)
    ensures
        old(set).wf() ==> final(set).wf(),
        final(set)@ == old(set)@.union(
            if owned_only {
                owned_apps_in(condition::rules(conditions@))
            } else {
                apps_in(condition::rules(conditions@))
            },
        ),
{
    let ghost list = condition::rules(conditions@);
    let ghost start = set@;
    let n: usize = conditions.len();
    let mut i: usize = 0;
    while i < n
        invariant
            i <= n == conditions@.len(),
            list == condition::rules(conditions@),
            old(set).wf() ==> set.wf(),
            start == old(set)@,
            forall|a: Seq<char>| #[trigger]
                set@.contains(a) <==> start.contains(a) || exists|k: int|
                    0 <= k < i && (#[trigger] list[k]).app_id == Some(a) && (owned_only
                        ==> list[k].field is OwnsGame),
        decreases n - i,
    {
        let ghost before = set@;
        let c = &conditions[i];
        let wanted = !owned_only || c.field == ConditionField::OwnsGame;
        assert(list[i as int] == c@);
        if wanted {
            if let Some(app) = &c.app_id {
                set.insert(app.clone());
            }
        }
        i += 1;
    }
    assert(set@ =~= old(set)@.union(
        if owned_only {
            owned_apps_in(list)
        } else {
            apps_in(list)
        },
    ));
}

/// The app ids that the conditions name, for the achievement lookup.
pub fn needed_app_ids(conditions: &Vec<Condition>) -> (r: TextSet)
    ensures
        r.wf(),
        r@ == apps_in(condition::rules(conditions@)),
{
    let mut r = TextSet::new();
    add_apps(conditions, false, &mut r);
    assert(r@ =~= apps_in(condition::rules(conditions@)));
    r
}

/// The app ids that the conditions of the role links name, for the achievement lookup.
pub fn link_app_ids(links: &Vec<RoleLink>) -> (r: TextSet)
    ensures
        r.wf(),
        r@ == apps_of_links(links@),
{
    let mut r = TextSet::new();
    let n: usize = links.len();
    let mut i: usize = 0;
    while i < n
        invariant
            i <= n == links@.len(),
            r.wf(),
            forall|a: Seq<char>| #[trigger]
                r@.contains(a) <==> exists|k: int|
                    0 <= k < i && apps_in(
                        condition::rules((#[trigger] links@[k]).conditions@),
                    ).contains(a),
        decreases n - i,
    {
        add_apps(&links[i].conditions, false, &mut r);
        i += 1;
    }
    assert(r@ =~= apps_of_links(links@));
    r
}

/// The app ids referenced by publisher-key role links, for the ownership lookup.
pub fn ownership_app_ids(links: &Vec<RoleLink>) -> (r: TextSet)
    ensures
        r.wf(),
        r@ == published_apps_of_links(links@),
{
    let mut r = TextSet::new();
    let n: usize = links.len();
    let mut i: usize = 0;
    while i < n
        invariant
            i <= n == links@.len(),
            r.wf(),
            forall|a: Seq<char>| #[trigger]
                r@.contains(a) <==> exists|k: int|
                    0 <= k < i && (#[trigger] links@[k]).publisher_key is Some && owned_apps_in(
                        condition::rules(links@[k].conditions@),
                    ).contains(a),
        decreases n - i,
    {
        if links[i].publisher_key.is_some() {
            add_apps(&links[i].conditions, true, &mut r);
        }
        i += 1;
    }
    assert(r@ =~= published_apps_of_links(links@));
    r
}

// ── One player ─────────────────────────────────────────────────────────────

/// What has to change for a player.
pub enum RoleAction {
    Add { guild_id: String, role_id: String, api_token: String },
    Remove { guild_id: String, role_id: String, api_token: String },
}

/// What a role action says.
pub enum Change {
    Add(Seq<char>, Seq<char>, Seq<char>),
    Remove(Seq<char>, Seq<char>, Seq<char>),
}

impl View for RoleAction {
    type V = Change;

    open spec fn view(&self) -> Change {
        match self {
            RoleAction::Add { guild_id, role_id, api_token } => Change::Add(
                guild_id@,
                role_id@,
                api_token@,
            ),
            RoleAction::Remove { guild_id, role_id, api_token } => Change::Remove(
                guild_id@,
                role_id@,
                api_token@,
            ),
        }
    }
}

/// What a list of role actions says.
pub open spec fn changes(v: Seq<RoleAction>) -> Seq<Change> {
    Seq::new(v.len(), |i: int| v[i]@)
}

/// The roles that a player holds, by guild and role.
pub open spec fn held(v: Seq<(String, String)>) -> Set<(Seq<char>, Seq<char>)> {
    Set::new(
        |p: (Seq<char>, Seq<char>)|
            exists|i: int| 0 <= i < v.len() && (#[trigger] v[i])@ == p,
    )
}

/// What is known of a player when the conditions of a role link are judged. The answers of
/// publishers count only for role links with a publisher key.
pub open spec fn link_facts(
    link: RoleLink,
    user: UserCacheRow,
    achievements: Map<Seq<char>, GameAchievementRow>,
    ownership: Map<Seq<char>, AppOwnershipRow>,
) -> Facts {
    Facts {
        user,
        achievements,
        ownership: if link.publisher_key is Some {
            Some(ownership)
        } else {
            None
        },
    }
}

/// Does the player meet the conditions of the role link?
pub open spec fn qualifies(
    link: RoleLink,
    user: UserCacheRow,
    achievements: Map<Seq<char>, GameAchievementRow>,
    ownership: Map<Seq<char>, AppOwnershipRow>,
    now: Timestamp,
) -> bool {
    condition_eval::all_met(
        condition::rules(link.conditions@),
        link_facts(link, user, achievements, ownership),
        now,
    )
}

/// What has to change on one role link: a player who qualifies gets the role, one who does not
/// loses it, and where that is so already, nothing happens.
pub open spec fn change_on(link: RoleLink, qualified: bool, holds: bool) -> Option<Change> {
    if qualified && !holds {
        Some(Change::Add(link.guild_id@, link.role_id@, link.api_token@))
    } else if !qualified && holds {
        Some(Change::Remove(link.guild_id@, link.role_id@, link.api_token@))
    } else {
        None
    }
}

/// What has to change for a player, link by link.
pub open spec fn changes_for(
    links: Seq<RoleLink>,
    user: UserCacheRow,
    achievements: Map<Seq<char>, GameAchievementRow>,
    ownership: Map<Seq<char>, AppOwnershipRow>,
    holds: Set<(Seq<char>, Seq<char>)>,
    now: Timestamp,
) -> Seq<Change>
    decreases links.len(),
{
    if links.len() == 0 {
        Seq::empty()
    } else {
        let before = changes_for(links.drop_last(), user, achievements, ownership, holds, now);
        let link = links.last();
        match change_on(
            link,
            qualifies(link, user, achievements, ownership, now),
            holds.contains((link.guild_id@, link.role_id@)),
        ) {
            Some(c) => before.push(c),
            None => before,
        }
    }
}

fn holds_role(existing: &Vec<(String, String)>, guild_id: &String, role_id: &String) -> (r: bool)
    ensures
        r == held(existing@).contains((guild_id@, role_id@)),
{
    let n: usize = existing.len();
    let mut i: usize = 0;
    while i < n
        invariant
            i <= n == existing@.len(),
            forall|j: int| 0 <= j < i ==> (#[trigger] existing@[j])@ != (guild_id@, role_id@),
        decreases n - i,
    {
        if text::same(existing[i].0.as_str(), guild_id.as_str()) && text::same(
            existing[i].1.as_str(),
            role_id.as_str(),
        ) {
            assert(existing@[i as int]@ == (guild_id@, role_id@));
            return true;
        }
        assert(existing@[i as int]@ != (guild_id@, role_id@));
        i += 1;
    }
    false
}

/// What has to change for a player: evaluates the conditions of each role link and compares the
/// outcome with the roles that the player holds.
pub fn plan_actions(
    links: &Vec<RoleLink>,
    user: &UserCacheRow,
    achievements: &Lookup<String, GameAchievementRow>,
    ownership: &Lookup<String, AppOwnershipRow>,
    existing: &Vec<(String, String)>,
    now: &Timestamp,
) -> (r: Vec<RoleAction>)
    requires
        user.wf(),
        now.wf(),
    ensures
        changes(r@) == changes_for(
            links@,
            *user,
            achievements@,
            ownership@,
            held(existing@),
            *now,
        ),
{
    let mut actions: Vec<RoleAction> = Vec::new();
    let n: usize = links.len();
    let mut i: usize = 0;
    while i < n
        invariant
            i <= n == links@.len(),
            user.wf(),
            now.wf(),
            changes(actions@) == changes_for(
                links@.take(i as int),
                *user,
                achievements@,
                ownership@,
                held(existing@),
                *now,
            ),
        decreases n - i,
    {
        let link = &links[i];
        let answers = if link.publisher_key.is_some() {
            Some(ownership)
        } else {
            None
        };
        let qualified = condition_eval::evaluate_conditions_at(
            link.conditions.as_slice(),
            user,
            achievements,
            answers,
            now,
        );
        let holds = holds_role(existing, &link.guild_id, &link.role_id);
        let ghost before = actions@;
        proof {
            assert(condition_eval::facts_of(*user, *achievements, answers) == link_facts(
                *link,
                *user,
                achievements@,
                ownership@,
            ));
            assert(links@.take(i + 1).drop_last() =~= links@.take(i as int));
            assert(links@.take(i + 1).last() == *link);
        }
        if qualified && !holds {
            actions.push(
                RoleAction::Add {
                    guild_id: link.guild_id.clone(),
                    role_id: link.role_id.clone(),
                    api_token: link.api_token.clone(),
                },
            );
            assert(changes(actions@) =~= changes(before).push(
                Change::Add(link.guild_id@, link.role_id@, link.api_token@),
            ));
        } else if !qualified && holds {
            actions.push(
                RoleAction::Remove {
                    guild_id: link.guild_id.clone(),
                    role_id: link.role_id.clone(),
                    api_token: link.api_token.clone(),
                },
            );
            assert(changes(actions@) =~= changes(before).push(
                Change::Remove(link.guild_id@, link.role_id@, link.api_token@),
            ));
        }
        i += 1;
    }
    assert(links@.take(n as int) =~= links@);
    actions
}

/// The roles that a player holds once the changes are made.
pub open spec fn held_after(
    holds: Set<(Seq<char>, Seq<char>)>,
    list: Seq<Change>,
) -> Set<(Seq<char>, Seq<char>)>
    decreases list.len(),
{
    if list.len() == 0 {
        holds
    } else {
        let before = held_after(holds, list.drop_last());
        match list.last() {
            Change::Add(g, r, _) => before.insert((g, r)),
            Change::Remove(g, r, _) => before.remove((g, r)),
        }
    }
}

/// Does no role link stand in the list twice?
pub open spec fn links_differ(links: Seq<RoleLink>) -> bool {
    forall|i: int, j: int|
        0 <= i < j < links.len() ==> ((#[trigger] links[i]).guild_id@, links[i].role_id@) != ((
        #[trigger] links[j]).guild_id@, links[j].role_id@)
}

/// Once the planned changes are made, the player holds exactly those roles of the role links whose
/// conditions are met, and every other role as before.
pub proof fn law_planned_changes_make_roles_match(
    links: Seq<RoleLink>,
    user: UserCacheRow,
    achievements: Map<Seq<char>, GameAchievementRow>,
    ownership: Map<Seq<char>, AppOwnershipRow>,
    holds: Set<(Seq<char>, Seq<char>)>,
    now: Timestamp,
)
    requires
        links_differ(links),
    ensures
        ({
            let after = held_after(
                holds,
                changes_for(links, user, achievements, ownership, holds, now),
            );
            &&& forall|i: int|
                0 <= i < links.len() ==> (after.contains(
                    ((#[trigger] links[i]).guild_id@, links[i].role_id@),
                ) <==> qualifies(links[i], user, achievements, ownership, now))
            &&& forall|p: (Seq<char>, Seq<char>)|
                (forall|i: int|
                    0 <= i < links.len() ==> ((#[trigger] links[i]).guild_id@, links[i].role_id@)
                        != p) ==> #[trigger] after.contains(p) == holds.contains(p)
        }),
    decreases links.len(),
{
    if links.len() > 0 {
        let rest = links.drop_last();
        let link = links.last();
        let pair = (link.guild_id@, link.role_id@);
        assert forall|i: int, j: int| 0 <= i < j < rest.len() implies ((
        #[trigger] rest[i]).guild_id@, rest[i].role_id@) != ((#[trigger] rest[j]).guild_id@, rest[j]
            .role_id@) by {
            assert(rest[i] == links[i] && rest[j] == links[j]);
        }
        law_planned_changes_make_roles_match(rest, user, achievements, ownership, holds, now);
        let earlier = changes_for(rest, user, achievements, ownership, holds, now);
        let before = held_after(holds, earlier);
        assert forall|i: int| 0 <= i < rest.len() implies ((#[trigger] rest[i]).guild_id@, rest[i]
            .role_id@) != pair by {
            assert(rest[i] == links[i] && link == links[links.len() - 1]);
        }
        assert(before.contains(pair) == holds.contains(pair));
        let all = changes_for(links, user, achievements, ownership, holds, now);
        let c = change_on(
            link,
            qualifies(link, user, achievements, ownership, now),
            holds.contains(pair),
        );
        if c is Some {
            assert(all.drop_last() =~= earlier);
        }
        let after = held_after(holds, all);
        assert forall|i: int| 0 <= i < links.len() implies (after.contains(
            ((#[trigger] links[i]).guild_id@, links[i].role_id@),
        ) <==> qualifies(links[i], user, achievements, ownership, now)) by {
            if i < rest.len() {
                assert(rest[i] == links[i]);
            }
        }
        assert forall|p: (Seq<char>, Seq<char>)|
            (forall|i: int|
                0 <= i < links.len() ==> ((#[trigger] links[i]).guild_id@, links[i].role_id@)
                    != p) implies #[trigger] after.contains(p) == holds.contains(p) by {
            assert(links[links.len() - 1] == link);
            assert forall|i: int| 0 <= i < rest.len() implies ((#[trigger] rest[i]).guild_id@,
            rest[i].role_id@) != p by {
                assert(rest[i] == links[i]);
            }
            assert(before.contains(p) == holds.contains(p));
        }
    }
}

/// A player whose roles match already has nothing to change.
pub proof fn law_matching_roles_need_no_change(
    links: Seq<RoleLink>,
    user: UserCacheRow,
    achievements: Map<Seq<char>, GameAchievementRow>,
    ownership: Map<Seq<char>, AppOwnershipRow>,
    holds: Set<(Seq<char>, Seq<char>)>,
    now: Timestamp,
)
    requires
        forall|i: int|
            0 <= i < links.len() ==> (holds.contains(
                ((#[trigger] links[i]).guild_id@, links[i].role_id@),
            ) <==> qualifies(links[i], user, achievements, ownership, now)),
    ensures
        changes_for(links, user, achievements, ownership, holds, now).len() == 0,
    decreases links.len(),
{
    if links.len() > 0 {
        let rest = links.drop_last();
        assert forall|i: int| 0 <= i < rest.len() implies (holds.contains(
            ((#[trigger] rest[i]).guild_id@, rest[i].role_id@),
        ) <==> qualifies(rest[i], user, achievements, ownership, now)) by {
            assert(rest[i] == links[i]);
        }
        law_matching_roles_need_no_change(rest, user, achievements, ownership, holds, now);
        assert(links.last() == links[links.len() - 1]);
    }
}

/// How far the sync of a player's roles has come: what is known, and so what is asked for next.
pub enum PlayerSync {
    NeedUser,
    NeedGuilds { user: UserCacheRow },
    NeedLinks { user: UserCacheRow },
    NeedAchievements { user: UserCacheRow, links: Vec<RoleLink> },
    NeedOwnership {
        user: UserCacheRow,
        links: Vec<RoleLink>,
        achievements: Lookup<String, GameAchievementRow>,
    },
    NeedAssignments {
        user: UserCacheRow,
        links: Vec<RoleLink>,
        achievements: Lookup<String, GameAchievementRow>,
        ownership: Lookup<String, AppOwnershipRow>,
    },
    Finished,
}

/// What the sync of a player's roles is told.
pub enum PlayerInput {
    User(Option<UserCacheRow>),
    Guilds(Vec<String>),
    Links(Vec<RoleLink>),
    Achievements(Lookup<String, GameAchievementRow>),
    Ownership(Lookup<String, AppOwnershipRow>),
    Assignments(Vec<(String, String)>),
}

/// What the sync of a player's roles asks for.
pub enum PlayerCommand {
    /// The guilds of the player, from the gateway.
    FetchGuilds,
    /// The role links of the guilds.
    ReadLinks(Vec<String>),
    /// The cached achievements in these apps.
    ReadAchievements(TextSet),
    /// The cached answers of publishers on these apps.
    ReadOwnership(TextSet),
    /// The roles that the player holds.
    ReadAssignments,
    /// The changes to make, at most ten at a time.
    Apply(Vec<RoleAction>),
    Stop,
}

impl PlayerSync {
    /// What the sync knows is well-formed.
    pub open spec fn wf(self) -> bool {
        match self {
            PlayerSync::NeedUser => true,
            PlayerSync::NeedGuilds { user } => user.wf(),
            PlayerSync::NeedLinks { user } => user.wf(),
            PlayerSync::NeedAchievements { user, .. } => user.wf(),
            PlayerSync::NeedOwnership { user, .. } => user.wf(),
            PlayerSync::NeedAssignments { user, .. } => user.wf(),
            PlayerSync::Finished => true,
        }
    }

    /// Is this what the sync has asked for?
    pub open spec fn awaits(self, input: PlayerInput) -> bool {
        match input {
            PlayerInput::User(u) => self is NeedUser && (u is Some ==> u->0.wf()),
            PlayerInput::Guilds(_) => self is NeedGuilds,
            PlayerInput::Links(_) => self is NeedLinks,
            PlayerInput::Achievements(_) => self is NeedAchievements,
            PlayerInput::Ownership(_) => self is NeedOwnership,
            PlayerInput::Assignments(_) => self is NeedAssignments,
        }
    }
}

/// Where the sync goes from a state with an input, and what it asks for then.
pub open spec fn player_moves(
    state: PlayerSync,
    input: PlayerInput,
    now: Timestamp,
    next: PlayerSync,
    command: PlayerCommand,
) -> bool {
    match (state, input) {
        (PlayerSync::NeedUser, PlayerInput::User(row)) => match row {
            // Not linked, or never fetched.
            None => next is Finished && command is Stop,
            Some(user) => next == (PlayerSync::NeedGuilds { user }) && command is FetchGuilds,
        },
        (PlayerSync::NeedGuilds { user }, PlayerInput::Guilds(ids)) => if ids@.len() == 0 {
            next is Finished && command is Stop
        } else {
            next == (PlayerSync::NeedLinks { user }) && command == PlayerCommand::ReadLinks(ids)
        },
        (PlayerSync::NeedLinks { user }, PlayerInput::Links(links)) => {
            &&& next == (PlayerSync::NeedAchievements { user, links })
            &&& command matches PlayerCommand::ReadAchievements(apps)
            &&& apps.wf() && apps@ == apps_of_links(links@)
        },
        (
            PlayerSync::NeedAchievements { user, links },
            PlayerInput::Achievements(achievements),
        ) => {
            &&& next == (PlayerSync::NeedOwnership { user, links, achievements })
            &&& command matches PlayerCommand::ReadOwnership(apps)
            &&& apps.wf() && apps@ == published_apps_of_links(links@)
        },
        (
            PlayerSync::NeedOwnership { user, links, achievements },
            PlayerInput::Ownership(ownership),
        ) => {
            &&& next == (PlayerSync::NeedAssignments { user, links, achievements, ownership })
            &&& command is ReadAssignments
        },
        (
            PlayerSync::NeedAssignments { user, links, achievements, ownership },
            PlayerInput::Assignments(existing),
        ) => {
            let due = changes_for(
                links@,
                user,
                achievements@,
                ownership@,
                held(existing@),
                now,
            );
            &&& next is Finished
            &&& if due.len() == 0 {
                command is Stop
            } else {
                command matches PlayerCommand::Apply(actions) && changes(actions@) == due
            }
        },
        _ => false,
    }
}

/// Sync roles for a single player across all guilds, at a given time: takes what was asked for and
/// says what to do next.
pub fn sync_for_player_at(state: PlayerSync, input: PlayerInput, now: &Timestamp) -> (r: (
    PlayerSync,
    PlayerCommand,
))
    requires
        state.wf(),
        state.awaits(input),
        now.wf(),
    ensures
        player_moves(state, input, *now, r.0, r.1),
        r.0.wf(),
{
    match (state, input) {
        (PlayerSync::NeedUser, PlayerInput::User(row)) => match row {
            None => (PlayerSync::Finished, PlayerCommand::Stop),
            Some(user) => (PlayerSync::NeedGuilds { user }, PlayerCommand::FetchGuilds),
        },
        (PlayerSync::NeedGuilds { user }, PlayerInput::Guilds(ids)) => {
            if ids.len() == 0 {
                (PlayerSync::Finished, PlayerCommand::Stop)
            } else {
                (PlayerSync::NeedLinks { user }, PlayerCommand::ReadLinks(ids))
            }
        },
        (PlayerSync::NeedLinks { user }, PlayerInput::Links(links)) => {
            let apps = link_app_ids(&links);
            (
                PlayerSync::NeedAchievements { user, links },
                PlayerCommand::ReadAchievements(apps),
            )
        },
        (
            PlayerSync::NeedAchievements { user, links },
            PlayerInput::Achievements(achievements),
        ) => {
            let apps = ownership_app_ids(&links);
            (
                PlayerSync::NeedOwnership { user, links, achievements },
                PlayerCommand::ReadOwnership(apps),
            )
        },
        (
            PlayerSync::NeedOwnership { user, links, achievements },
            PlayerInput::Ownership(ownership),
        ) => (
            PlayerSync::NeedAssignments { user, links, achievements, ownership },
            PlayerCommand::ReadAssignments,
        ),
        (
            PlayerSync::NeedAssignments { user, links, achievements, ownership },
            PlayerInput::Assignments(existing),
        ) => {
            let actions = plan_actions(&links, &user, &achievements, &ownership, &existing, now);
            assert(changes(actions@).len() == actions@.len());
            if actions.len() == 0 {
                (PlayerSync::Finished, PlayerCommand::Stop)
            } else {
                (PlayerSync::Finished, PlayerCommand::Apply(actions))
            }
        },
        (state, _) => {
            assert(false);
            (state, PlayerCommand::Stop)
        },
    }
}

/// Sync roles for a single player across all guilds, now: takes what was asked for and says what to
/// do next.
pub fn sync_for_player(state: PlayerSync, input: PlayerInput) -> (r: (PlayerSync, PlayerCommand))
    requires
        state.wf(),
        state.awaits(input),
    ensures
        exists|now: Timestamp|
            now.wf() && now.secs >= 0 && #[trigger] player_moves(state, input, now, r.0, r.1),
        r.0.wf(),
{
    let now = clock::utc_now();
    sync_for_player_at(state, input, &now)
}

/// What to do locally once RoleLogic has answered.
#[derive(Debug, Clone, Copy, PartialEq, Eq, Structural)]
pub enum FollowUp {
    /// The player now holds the role.
    RecordAssignment,
    /// The player no longer holds the role.
    EraseAssignment,
    /// The role link is gone on RoleLogic: delete it here too.
    DeleteOrphan,
    Nothing,
}

/// What to do once RoleLogic was asked to add a player. Only a success is recorded.
pub fn after_add(outcome: &Result<(), AppError>) -> (r: FollowUp)
    ensures
        r == (match *outcome {
            Ok(_) => FollowUp::RecordAssignment,
            Err(AppError::RoleLinkNotFound) => FollowUp::DeleteOrphan,
            Err(_) => FollowUp::Nothing,
        }),
{
    match outcome {
        Ok(_) => FollowUp::RecordAssignment,
        Err(AppError::RoleLinkNotFound) => FollowUp::DeleteOrphan,
        Err(_) => FollowUp::Nothing,
    }
}

/// What to do once RoleLogic was asked to remove a player. Only a success is recorded.
pub fn after_remove(outcome: &Result<(), AppError>) -> (r: FollowUp)
    ensures
        r == (match *outcome {
            Ok(_) => FollowUp::EraseAssignment,
            Err(AppError::RoleLinkNotFound) => FollowUp::DeleteOrphan,
            Err(_) => FollowUp::Nothing,
        }),
{
    match outcome {
        Ok(_) => FollowUp::EraseAssignment,
        Err(AppError::RoleLinkNotFound) => FollowUp::DeleteOrphan,
        Err(_) => FollowUp::Nothing,
    }
}

// ── An unlinked player ─────────────────────────────────────────────────────

/// How far the removal of an unlinked player has come: the roles, by guild, role and token, and
/// how many of them RoleLogic has been asked to take away.
pub struct Unlinking {
    pub roles: Vec<(String, String, String)>,
    pub asked: usize,
}

/// What the removal of an unlinked player asks for.
#[derive(Debug, Clone, Copy, PartialEq, Eq, Structural)]
pub enum UnlinkCommand {
    /// Take away the role at this place of the list.
    Remove(usize),
    /// Delete the role link at this place of the list, which is gone on RoleLogic, and go on.
    DeleteOrphan(usize),
    /// Delete every assignment of the player.
    EraseAll,
}

/// The role that is taken away next, or the end.
pub open spec fn unlink_command(roles: Seq<(String, String, String)>, asked: int) -> UnlinkCommand {
    if asked < roles.len() {
        UnlinkCommand::Remove(asked as usize)
    } else {
        UnlinkCommand::EraseAll
    }
}

impl Unlinking {
    /// No more roles were asked for than there are.
    pub open spec fn wf(self) -> bool {
        self.asked <= self.roles@.len()
    }

    /// What is asked for next.
    pub fn command(&self) -> (r: UnlinkCommand)
        requires
            self.wf(),
        ensures
            r == unlink_command(self.roles@, self.asked as int),
    {
        if self.asked < self.roles.len() {
            UnlinkCommand::Remove(self.asked)
        } else {
            UnlinkCommand::EraseAll
        }
    }
}

/// Remove a user from all role assignments (after account unlink): takes what RoleLogic said to the
/// last removal. Whatever it said, the next role follows, and in the end every assignment goes; a
/// role link that is gone there is deleted here.
pub fn remove_all_assignments(state: Unlinking, outcome: &Result<(), AppError>) -> (r: (
    Unlinking,
    Option<UnlinkCommand>,
))
    requires
        state.wf(),
        state.asked < state.roles@.len(),
    ensures
        r.0.roles == state.roles,
        r.0.asked == state.asked + 1,
        r.0.wf(),
        r.1 == (match *outcome {
            Err(AppError::RoleLinkNotFound) => Some(UnlinkCommand::DeleteOrphan(state.asked)),
            _ => None::<UnlinkCommand>,
        }),
{
    let extra = match outcome {
        Err(AppError::RoleLinkNotFound) => Some(UnlinkCommand::DeleteOrphan(state.asked)),
        _ => None,
    };
    let total: usize = state.roles.len();
    assert(state.asked < total);
    (Unlinking { roles: state.roles, asked: state.asked + 1 }, extra)
}

// ── What the sync of a player brings about ─────────────────────────────────

/// The changes that a command makes to the roles of a player.
pub open spec fn made_by(command: PlayerCommand) -> Seq<Change> {
    match command {
        PlayerCommand::Apply(actions) => changes(actions@),
        _ => Seq::empty(),
    }
}

proof fn lemma_changes_are_of_links(
    links: Seq<RoleLink>,
    user: UserCacheRow,
    achievements: Map<Seq<char>, GameAchievementRow>,
    ownership: Map<Seq<char>, AppOwnershipRow>,
    holds: Set<(Seq<char>, Seq<char>)>,
    now: Timestamp,
    k: int,
) -> (i: int)
    requires
        0 <= k < changes_for(links, user, achievements, ownership, holds, now).len(),
    ensures
        0 <= i < links.len(),
        ({
            let c = changes_for(links, user, achievements, ownership, holds, now)[k];
            let l = links[i];
            if holds.contains((l.guild_id@, l.role_id@)) {
                c == Change::Remove(l.guild_id@, l.role_id@, l.api_token@)
            } else {
                c == Change::Add(l.guild_id@, l.role_id@, l.api_token@)
            }
        }),
    decreases links.len(),
{
    let before = changes_for(links.drop_last(), user, achievements, ownership, holds, now);
    if k < before.len() {
        let i = lemma_changes_are_of_links(
            links.drop_last(),
            user,
            achievements,
            ownership,
            holds,
            now,
            k,
        );
        assert(links.drop_last()[i] == links[i]);
        i
    } else {
        links.len() - 1
    }
}

/// Once the sync of a player is carried out, the player holds exactly those roles of the role links
/// whose conditions are met, and every other role as before. So it stops without a change only when
/// the roles match already. The answers of publishers count only for role links with a key, and
/// each change is asked for with the token of its own role link, and only where it is due.
pub proof fn law_player_sync_makes_roles_match(
    user: UserCacheRow,
    links: Vec<RoleLink>,
    achievements: Lookup<String, GameAchievementRow>,
    ownership: Lookup<String, AppOwnershipRow>,
    existing: Vec<(String, String)>,
    now: Timestamp,
    next: PlayerSync,
    command: PlayerCommand,
)
    requires
        player_moves(
            PlayerSync::NeedAssignments { user, links, achievements, ownership },
            PlayerInput::Assignments(existing),
            now,
            next,
            command,
        ),
        links_differ(links@),
    ensures
        next is Finished,
        command is Apply || command is Stop,
        ({
            let before = held(existing@);
            let after = held_after(before, made_by(command));
            &&& forall|i: int|
                0 <= i < links@.len() ==> (after.contains(
                    ((#[trigger] links@[i]).guild_id@, links@[i].role_id@),
                ) <==> condition_eval::all_met(
                    condition::rules(links@[i].conditions@),
                    Facts {
                        user,
                        achievements: achievements@,
                        ownership: if links@[i].publisher_key is Some {
                            Some(ownership@)
                        } else {
                            None
                        },
                    },
                    now,
                ))
            &&& forall|p: (Seq<char>, Seq<char>)|
                (forall|i: int|
                    0 <= i < links@.len() ==> ((#[trigger] links@[i]).guild_id@, links@[i].role_id@)
                        != p) ==> #[trigger] after.contains(p) == before.contains(p)
            &&& forall|k: int|
                0 <= k < made_by(command).len() ==> match #[trigger] made_by(command)[k] {
                    Change::Add(g, r, t) => !before.contains((g, r)) && exists|i: int|
                        0 <= i < links@.len() && (#[trigger] links@[i]).guild_id@ == g
                            && links@[i].role_id@ == r && links@[i].api_token@ == t,
                    Change::Remove(g, r, t) => before.contains((g, r)) && exists|i: int|
                        0 <= i < links@.len() && (#[trigger] links@[i]).guild_id@ == g
                            && links@[i].role_id@ == r && links@[i].api_token@ == t,
                }
        }),
{
    let holds = held(existing@);
    let due = changes_for(links@, user, achievements@, ownership@, holds, now);
    law_planned_changes_make_roles_match(
        links@,
        user,
        achievements@,
        ownership@,
        holds,
        now,
    );
    assert(made_by(command) =~= due);
    assert forall|k: int| 0 <= k < due.len() implies match #[trigger] due[k] {
        Change::Add(g, r, t) => !holds.contains((g, r)) && exists|i: int|
            0 <= i < links@.len() && (#[trigger] links@[i]).guild_id@ == g && links@[i].role_id@
                == r && links@[i].api_token@ == t,
        Change::Remove(g, r, t) => holds.contains((g, r)) && exists|i: int|
            0 <= i < links@.len() && (#[trigger] links@[i]).guild_id@ == g && links@[i].role_id@
                == r && links@[i].api_token@ == t,
    } by {
        let i = lemma_changes_are_of_links(
            links@,
            user,
            achievements@,
            ownership@,
            holds,
            now,
            k,
        );
        assert(links@[i].guild_id@ == links@[i].guild_id@);
    }
}

/// Is this a sync of a player, up to its `n`th step: from each state with the next input to the next
/// state, with what is asked for then?
pub open spec fn sync_steps(
    now: Timestamp,
    inputs: Seq<PlayerInput>,
    states: Seq<PlayerSync>,
    commands: Seq<PlayerCommand>,
    n: int,
) -> bool {
    &&& states[0] is NeedUser
    &&& forall|k: int|
        0 <= k < n ==> player_moves(
            states[k],
            #[trigger] inputs[k],
            now,
            states[k + 1],
            commands[k],
        )
}

/// The sync of a player who is known and is in some guild goes all the way: it asks for the guilds,
/// for the role links of just those guilds, for the achievements in every app that a condition of
/// them names, for the answers on every app whose ownership a role link with a key asks for, and
/// for the roles that the player holds; and it comes to the last step with what it was told.
pub proof fn law_player_sync_asks_for_all_it_judges(
    user: UserCacheRow,
    guilds: Vec<String>,
    links: Vec<RoleLink>,
    achievements: Lookup<String, GameAchievementRow>,
    ownership: Lookup<String, AppOwnershipRow>,
    now: Timestamp,
    inputs: Seq<PlayerInput>,
    states: Seq<PlayerSync>,
    commands: Seq<PlayerCommand>,
)
    requires
        guilds@.len() > 0,
        inputs[0] == PlayerInput::User(Some(user)),
        inputs[1] == PlayerInput::Guilds(guilds),
        inputs[2] == PlayerInput::Links(links),
        inputs[3] == PlayerInput::Achievements(achievements),
        inputs[4] == PlayerInput::Ownership(ownership),
    ensures
        sync_steps(now, inputs, states, commands, 1) ==> commands[0] is FetchGuilds && states[1]
            == (PlayerSync::NeedGuilds { user }),
        sync_steps(now, inputs, states, commands, 2) ==> commands[1] == PlayerCommand::ReadLinks(
            guilds,
        ) && states[2] == (PlayerSync::NeedLinks { user }),
        sync_steps(now, inputs, states, commands, 3) ==> {
            &&& states[3] == (PlayerSync::NeedAchievements { user, links })
            &&& commands[2] matches PlayerCommand::ReadAchievements(apps)
            &&& forall|app: Seq<char>| #[trigger]
                apps@.contains(app) <==> exists|i: int, k: int|
                    0 <= i < links@.len() && 0 <= k < links@[i].conditions@.len()
                        && condition::text_of((#[trigger] links@[i].conditions@[k]).app_id) == Some(
                        app,
                    )
        },
        sync_steps(now, inputs, states, commands, 4) ==> {
            &&& states[4] == (PlayerSync::NeedOwnership { user, links, achievements })
            &&& commands[3] matches PlayerCommand::ReadOwnership(apps)
            &&& forall|app: Seq<char>| #[trigger]
                apps@.contains(app) <==> exists|i: int, k: int|
                    0 <= i < links@.len() && 0 <= k < links@[i].conditions@.len()
                        && condition::text_of((#[trigger] links@[i].conditions@[k]).app_id) == Some(
                        app,
                    ) && links@[i].conditions@[k].field is OwnsGame && links@[i].publisher_key
                        is Some
        },
        sync_steps(now, inputs, states, commands, 5) ==> commands[4] is ReadAssignments
            && states[5] == (PlayerSync::NeedAssignments { user, links, achievements, ownership }),
{
    assert forall|app: Seq<char>| #[trigger] apps_of_links(links@).contains(app) <==> exists|
        i: int,
        k: int,
    |
        0 <= i < links@.len() && 0 <= k < links@[i].conditions@.len() && condition::text_of(
            (#[trigger] links@[i].conditions@[k]).app_id,
        ) == Some(app) by {
        if apps_of_links(links@).contains(app) {
            let i = choose|i: int|
                0 <= i < links@.len() && apps_in(
                    condition::rules((#[trigger] links@[i]).conditions@),
                ).contains(app);
            let list = condition::rules(links@[i].conditions@);
            let k = choose|k: int| 0 <= k < list.len() && (#[trigger] list[k]).app_id == Some(app);
            assert(links@[i].conditions@[k]@ == list[k]);
        }
        assert forall|i: int, k: int|
            0 <= i < links@.len() && 0 <= k < links@[i].conditions@.len() && condition::text_of(
                (#[trigger] links@[i].conditions@[k]).app_id,
            ) == Some(app) implies apps_of_links(links@).contains(app) by {
            let list = condition::rules(links@[i].conditions@);
            assert(list[k] == links@[i].conditions@[k]@);
            assert(apps_in(list).contains(app));
        }
    }
    assert forall|app: Seq<char>| #[trigger]
        published_apps_of_links(links@).contains(app) <==> exists|i: int, k: int|
        0 <= i < links@.len() && 0 <= k < links@[i].conditions@.len() && condition::text_of(
            (#[trigger] links@[i].conditions@[k]).app_id,
        ) == Some(app) && links@[i].conditions@[k].field is OwnsGame
            && links@[i].publisher_key is Some by {
        if published_apps_of_links(links@).contains(app) {
            let i = choose|i: int|
                0 <= i < links@.len() && (#[trigger] links@[i]).publisher_key is Some
                    && owned_apps_in(condition::rules(links@[i].conditions@)).contains(app);
            let list = condition::rules(links@[i].conditions@);
            let k = choose|k: int|
                0 <= k < list.len() && (#[trigger] list[k]).app_id == Some(app)
                    && list[k].field is OwnsGame;
            assert(links@[i].conditions@[k]@ == list[k]);
        }
        assert forall|i: int, k: int|
            0 <= i < links@.len() && 0 <= k < links@[i].conditions@.len() && condition::text_of(
                (#[trigger] links@[i].conditions@[k]).app_id,
            ) == Some(app) && links@[i].conditions@[k].field is OwnsGame
                && links@[i].publisher_key is Some implies published_apps_of_links(
            links@,
        ).contains(app) by {
            let list = condition::rules(links@[i].conditions@);
            assert(list[k] == links@[i].conditions@[k]@);
            assert(owned_apps_in(list).contains(app));
        }
    }
}

/// A player of whom nothing is known, or who is in no guild, is left alone.
pub proof fn law_unknown_players_are_left_alone(
    state: PlayerSync,
    input: PlayerInput,
    now: Timestamp,
    next: PlayerSync,
    command: PlayerCommand,
)
    requires
        player_moves(state, input, now, next, command),
    ensures
        input == PlayerInput::User(None) ==> command is Stop,
        input is Guilds && input->Guilds_0@.len() == 0 ==> command is Stop,
        command is Apply ==> input is Assignments && state is NeedAssignments,
{
}

/// The removal of an unlinked player asks for every role in turn and only then erases all
/// assignments.
pub proof fn law_unlinking_takes_every_role(roles: Seq<(String, String, String)>, asked: int)
    requires
        0 <= asked <= roles.len() <= usize::MAX,
    ensures
        asked < roles.len() ==> unlink_command(roles, asked) == UnlinkCommand::Remove(
            asked as usize,
        ),
        asked == roles.len() ==> unlink_command(roles, asked) is EraseAll,
{
}

/// A role counts as held exactly where the list names it, with its guild.
pub proof fn law_held_roles_are_those_listed(
    v: Seq<(String, String)>,
    guild_id: Seq<char>,
    role_id: Seq<char>,
)
    ensures
        held(v).contains((guild_id, role_id)) <==> exists|i: int|
            0 <= i < v.len() && (#[trigger] v[i]).0@ == guild_id && v[i].1@ == role_id,
{
    if held(v).contains((guild_id, role_id)) {
        let i = choose|i: int| 0 <= i < v.len() && (#[trigger] v[i])@ == (guild_id, role_id);
        assert(v[i].0@ == guild_id && v[i].1@ == role_id);
    }
    if exists|i: int| 0 <= i < v.len() && (#[trigger] v[i]).0@ == guild_id && v[i].1@ == role_id {
        let i = choose|i: int|
            0 <= i < v.len() && (#[trigger] v[i]).0@ == guild_id && v[i].1@ == role_id;
        assert(v[i]@ == (guild_id, role_id));
    }
}

} // verus!
