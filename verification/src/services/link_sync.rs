//! Who holds the role of a role link: every member is judged anew after a change of its
//! configuration, and the configuration page counts the members who would hold it.

use vstd::prelude::*;
use crate::clock;
use crate::clock::Timestamp;
use crate::error::AppError;
use crate::lookup::{Lookup, TextSet};
use crate::models::condition;
use crate::models::condition::{Condition, ConditionField, Rule};
use crate::services::condition_eval;
use crate::services::condition_eval::{AppOwnershipRow, Facts, GameAchievementRow, UserCacheRow};
use crate::services::condition_sql;
use crate::services::condition_sql::ConditionBind;
use crate::services::sync;
use crate::services::sync::RoleLink;
use crate::text;

verus! {

/// A linked member who passed the filter.
pub struct Candidate {
    pub discord_id: String,
    pub user: UserCacheRow,
}

/// Do some conditions need playtimes or achievements, which SQL cannot judge?
pub open spec fn needs_memory(list: Seq<Rule>) -> bool {
    exists|i: int| 0 <= i < list.len() && !condition_sql::sql_judges(#[trigger] list[i])
}

/// Does some condition ask who owns a game?
pub open spec fn asks_ownership(list: Seq<Rule>) -> bool {
    exists|i: int| 0 <= i < list.len() && (#[trigger] list[i]).field is OwnsGame
}

/// Are the members judged one by one, after the query?
pub open spec fn judged_in_memory(list: Seq<Rule>, has_key: bool) -> bool {
    needs_memory(list) || (has_key && asks_ownership(list))
}

/// The tables in which members and their data are found, and the members that are asked for.
pub open spec fn member_filter(n: int, where_clause: Seq<char>) -> Seq<char> {
    "FROM linked_accounts la JOIN user_cache uc ON uc.steam_id = la.steam_id WHERE la.discord_id = ANY("@
        + condition_sql::placeholder(n) + "::text[]) AND ("@ + where_clause + ")"@
}

/// The columns of a candidate.
pub open spec fn candidate_columns() -> Seq<char> {
    "SELECT la.discord_id, uc.steam_id, uc.owned_games, uc.groups, uc.steam_level, uc.account_created, uc.total_games_owned, uc.is_vac_banned, uc.is_game_banned, uc.country_code "@
}

/// The query for the candidates of a role link, longest linked first.
pub open spec fn candidates_sql(f: condition_sql::Filter) -> Seq<char> {
    candidate_columns() + member_filter(
        f.binds.len() as int + 1,
        condition_sql::filter_sql(f),
    ) + " ORDER BY la.linked_at ASC"@
}

/// The query for the members who hold the role, when SQL alone can judge them.
pub open spec fn ids_sql(f: condition_sql::Filter) -> Seq<char> {
    "SELECT la.discord_id "@ + member_filter(f.binds.len() as int + 1, condition_sql::filter_sql(f))
        + " ORDER BY la.linked_at ASC LIMIT "@ + condition_sql::placeholder(f.binds.len() as int + 2)
}

/// The query for the candidates that are only counted.
pub open spec fn counted_candidates_sql(f: condition_sql::Filter) -> Seq<char> {
    candidate_columns() + member_filter(f.binds.len() as int + 1, condition_sql::filter_sql(f))
}

/// The query for the number of members who would hold the role.
pub open spec fn count_sql(f: condition_sql::Filter) -> Seq<char> {
    "SELECT count(*) "@ + member_filter(f.binds.len() as int + 1, condition_sql::filter_sql(f))
}

fn condition_in_memory(conditions: &Vec<Condition>) -> (r: bool)
    ensures
        r == needs_memory(condition::rules(conditions@)),
{
    let ghost list = condition::rules(conditions@);
    let n: usize = conditions.len();
    let mut i: usize = 0;
    while i < n
        invariant
            i <= n == conditions@.len(),
            list == condition::rules(conditions@),
            forall|j: int| 0 <= j < i ==> condition_sql::sql_judges(#[trigger] list[j]),
        decreases n - i,
    {
        let memory = matches!(
            conditions[i].field,
            ConditionField::AchievementCount
                | ConditionField::AchievementPercent
                | ConditionField::HasAchievement
                | ConditionField::GamePlaytime
                | ConditionField::RecentPlaytime
        );
        assert(memory == !condition_sql::sql_judges(list[i as int]));
        if memory {
            return true;
        }
        i += 1;
    }
    false
}

fn condition_on_ownership(conditions: &Vec<Condition>) -> (r: bool)
    ensures
        r == asks_ownership(condition::rules(conditions@)),
{
    let ghost list = condition::rules(conditions@);
    let n: usize = conditions.len();
    let mut i: usize = 0;
    while i < n
        invariant
            i <= n == conditions@.len(),
            list == condition::rules(conditions@),
            forall|j: int| 0 <= j < i ==> !((#[trigger] list[j]).field is OwnsGame),
        decreases n - i,
    {
        assert(list[i as int].field == conditions@[i as int].field);
        if conditions[i].field == ConditionField::OwnsGame {
            return true;
        }
        i += 1;
    }
    false
}

fn push_member_filter(out: &mut String, n: usize, where_clause: &str)
    ensures
        final(out)@ == old(out)@ + member_filter(n + 1, where_clause@),
{
    out.append(
        "FROM linked_accounts la JOIN user_cache uc ON uc.steam_id = la.steam_id WHERE la.discord_id = ANY(",
    );
    condition_sql::push_placeholder(out, n, 1);
    out.append("::text[]) AND (");
    out.append(where_clause);
    out.append(")");
    assert(out@ =~= old(out)@ + member_filter(n + 1, where_clause@));
}

fn candidates_query(n: usize, where_clause: &str) -> (r: String)
    ensures
        r@ == candidate_columns() + member_filter(n + 1, where_clause@),
{
    let mut sql = text::owned(
        "SELECT la.discord_id, uc.steam_id, uc.owned_games, uc.groups, uc.steam_level, uc.account_created, uc.total_games_owned, uc.is_vac_banned, uc.is_game_banned, uc.country_code ",
    );
    push_member_filter(&mut sql, n, where_clause);
    sql
}

// ── All members of a role link ─────────────────────────────────────────────

/// How far the sync of a role link has come: what is known, and so what is asked for next.
pub enum LinkSync {
    NeedLink,
    NeedUserInfo { link: RoleLink },
    NeedMembers { link: RoleLink, user_limit: usize },
    NeedCandidates { link: RoleLink, user_limit: usize },
    /// The candidates before `next` are judged; `qualifying` are those who passed.
    Judging {
        link: RoleLink,
        user_limit: usize,
        candidates: Vec<Candidate>,
        next: usize,
        qualifying: Vec<String>,
    },
    NeedIds,
    Uploading { ids: Vec<String> },
    Storing,
    Finished,
}

/// What the sync of a role link is told.
pub enum LinkInput {
    Link(Option<RoleLink>),
    /// How many users the role link has and may have.
    UserInfo(Result<(usize, usize), AppError>),
    Members(Vec<String>),
    Candidates(Vec<Candidate>),
    CandidateFacts {
        achievements: Lookup<String, GameAchievementRow>,
        ownership: Lookup<String, AppOwnershipRow>,
    },
    Ids(Vec<String>),
    Uploaded(Result<(), AppError>),
    Stored,
}

/// What the sync of a role link asks for.
pub enum LinkCommand {
    GetUserInfo,
    FetchMembers,
    /// Candidates in the order of the query. The members are bound last.
    QueryCandidates { sql: String, binds: Vec<ConditionBind>, members: Vec<String> },
    /// The cached achievements and, where asked for, the answers of publishers on these apps.
    LoadFacts { steam_id: String, apps: TextSet, with_ownership: bool },
    /// Member ids in the order of the query. The members and the limit are bound last.
    QueryIds { sql: String, binds: Vec<ConditionBind>, members: Vec<String>, limit: usize },
    /// Make these members the users of the role link, all at once.
    Upload(Vec<String>),
    /// Replace the stored assignments of the role link by these, all at once.
    Store(Vec<String>),
    /// The role link is gone on RoleLogic: delete it here and stop.
    DeleteOrphan,
    Stop,
    Fail(AppError),
}

impl LinkSync {
    /// What the sync knows is well-formed: while candidates are judged, one is left, and there is
    /// room for one more.
    pub open spec fn wf(self) -> bool {
        match self {
            LinkSync::Judging { user_limit, candidates, next, qualifying, .. } => {
                &&& next < candidates@.len()
                &&& qualifying@.len() == 0 || qualifying@.len() < user_limit
                &&& users_wf(candidates@)
            },
            _ => true,
        }
    }

    /// Is this what the sync has asked for?
    pub open spec fn awaits(self, input: LinkInput) -> bool {
        match input {
            LinkInput::Link(_) => self is NeedLink,
            LinkInput::UserInfo(_) => self is NeedUserInfo,
            LinkInput::Members(_) => self is NeedMembers,
            LinkInput::Candidates(list) => self is NeedCandidates && users_wf(list@),
            LinkInput::CandidateFacts { .. } => self is Judging,
            LinkInput::Ids(_) => self is NeedIds,
            LinkInput::Uploaded(_) => self is Uploading,
            LinkInput::Stored => self is Storing,
        }
    }
}

/// Are the rows of all candidates well-formed?
pub open spec fn users_wf(list: Seq<Candidate>) -> bool {
    forall|i: int| 0 <= i < list.len() ==> (#[trigger] list[i]).user.wf()
}

/// Are the answers of publishers used for this role link?
pub open spec fn uses_publisher(link: RoleLink) -> bool {
    link.publisher_key is Some && asks_ownership(condition::rules(link.conditions@))
}

/// What is known of a candidate.
pub open spec fn candidate_facts(
    link: RoleLink,
    user: UserCacheRow,
    achievements: Map<Seq<char>, GameAchievementRow>,
    ownership: Map<Seq<char>, AppOwnershipRow>,
) -> Facts {
    Facts {
        user,
        achievements,
        ownership: if uses_publisher(link) {
            Some(ownership)
        } else {
            None
        },
    }
}

/// Does the candidate meet the conditions of the role link?
pub open spec fn candidate_passes(
    link: RoleLink,
    user: UserCacheRow,
    achievements: Map<Seq<char>, GameAchievementRow>,
    ownership: Map<Seq<char>, AppOwnershipRow>,
    now: Timestamp,
) -> bool {
    condition_eval::all_met(
        condition::rules(link.conditions@),
        candidate_facts(link, user, achievements, ownership),
        now,
    )
}

/// Asks for the facts on a candidate of the role link.
pub open spec fn loads_facts(command: LinkCommand, link: RoleLink, candidate: Candidate) -> bool {
    &&& command matches LinkCommand::LoadFacts { steam_id, apps, with_ownership }
    &&& steam_id@ == candidate.user.steam_id@
    &&& apps.wf() && apps@ == sync::apps_in(condition::rules(link.conditions@))
    &&& with_ownership == uses_publisher(link)
}

/// Uploads these members.
pub open spec fn uploads(next: LinkSync, command: LinkCommand, ids: Seq<Seq<char>>) -> bool {
    &&& next matches LinkSync::Uploading { ids: kept }
    &&& text::texts(kept@) == ids
    &&& command matches LinkCommand::Upload(sent)
    &&& text::texts(sent@) == ids
}

/// Goes on with the next candidate, or uploads when the last one is judged or the limit is
/// reached.
pub open spec fn goes_on(
    link: RoleLink,
    user_limit: usize,
    candidates: Vec<Candidate>,
    judged: int,
    qualifying: Seq<Seq<char>>,
    full: bool,
    next: LinkSync,
    command: LinkCommand,
) -> bool {
    if full || judged == candidates@.len() {
        uploads(next, command, qualifying)
    } else {
        &&& next matches LinkSync::Judging {
            link: link2,
            user_limit: user_limit2,
            candidates: candidates2,
            next: next2,
            qualifying: qualifying2,
        }
        &&& link2 == link && user_limit2 == user_limit && candidates2 == candidates
        &&& next2 == judged
        &&& text::texts(qualifying2@) == qualifying
        &&& loads_facts(command, link, candidates@[judged])
    }
}

/// Where the sync goes from a state with an input, and what it asks for then.
pub open spec fn link_moves(
    state: LinkSync,
    input: LinkInput,
    now: Timestamp,
    next: LinkSync,
    command: LinkCommand,
) -> bool {
    match (state, input) {
        (LinkSync::NeedLink, LinkInput::Link(row)) => match row {
            None => next is Finished && command is Stop,
            // No conditions configured: the role is for nobody.
            Some(link) => if link.conditions@.len() == 0 {
                uploads(next, command, Seq::empty())
            } else {
                next == (LinkSync::NeedUserInfo { link }) && command is GetUserInfo
            },
        },
        (LinkSync::NeedUserInfo { link }, LinkInput::UserInfo(info)) => match info {
            Ok((_, user_limit)) => next == (LinkSync::NeedMembers { link, user_limit })
                && command is FetchMembers,
            Err(AppError::RoleLinkNotFound) => next is Finished && command is DeleteOrphan,
            Err(AppError::RoleLinkDisabled) => next is Finished && command is Stop,
            Err(e) => next is Finished && command == LinkCommand::Fail(e),
        },
        (LinkSync::NeedMembers { link, user_limit }, LinkInput::Members(members)) => {
            let list = condition::rules(link.conditions@);
            let f = condition_sql::filter_of(list, uses_publisher(link));
            if members@.len() == 0 {
                uploads(next, command, Seq::empty())
            } else if judged_in_memory(list, link.publisher_key is Some) {
                &&& next == (LinkSync::NeedCandidates { link, user_limit })
                &&& command matches LinkCommand::QueryCandidates { sql, binds, members: asked }
                &&& sql@ == candidates_sql(f)
                &&& condition_sql::bounds(binds@) == f.binds
                &&& asked == members
            } else {
                &&& next is NeedIds
                &&& command matches LinkCommand::QueryIds { sql, binds, members: asked, limit }
                &&& sql@ == ids_sql(f)
                &&& condition_sql::bounds(binds@) == f.binds
                &&& asked == members
                &&& limit == user_limit
            }
        },
        (LinkSync::NeedCandidates { link, user_limit }, LinkInput::Candidates(candidates)) =>
            goes_on(link, user_limit, candidates, 0, Seq::empty(), false, next, command),
        (
            LinkSync::Judging { link, user_limit, candidates, next: at, qualifying },
            LinkInput::CandidateFacts { achievements, ownership },
        ) => {
            let candidate = candidates@[at as int];
            let passed = candidate_passes(
                link,
                candidate.user,
                achievements@,
                ownership@,
                now,
            );
            let before = text::texts(qualifying@);
            if passed {
                goes_on(
                    link,
                    user_limit,
                    candidates,
                    at + 1,
                    before.push(candidate.discord_id@),
                    before.len() + 1 >= user_limit,
                    next,
                    command,
                )
            } else {
                goes_on(link, user_limit, candidates, at + 1, before, false, next, command)
            }
        },
        (LinkSync::NeedIds, LinkInput::Ids(ids)) => uploads(next, command, text::texts(ids@)),
        (LinkSync::Uploading { ids }, LinkInput::Uploaded(outcome)) => match outcome {
            Ok(_) => next is Storing && command == LinkCommand::Store(ids),
            Err(AppError::RoleLinkNotFound) => next is Finished && command is DeleteOrphan,
            Err(e) => next is Finished && command == LinkCommand::Fail(e),
        },
        (LinkSync::Storing, LinkInput::Stored) => next is Finished && command is Stop,
        _ => false,
    }
}

fn copy_texts(v: &Vec<String>) -> (r: Vec<String>)
    ensures
        text::texts(r@) == text::texts(v@),
{
    let mut r: Vec<String> = Vec::new();
    let n: usize = v.len();
    let mut i: usize = 0;
    while i < n
        invariant
            i <= n == v@.len(),
            text::texts(r@) == text::texts(v@).take(i as int),
        decreases n - i,
    {
        let ghost before = r@;
        r.push(v[i].clone());
        proof {
            assert(text::texts(r@) =~= text::texts(before).push(v@[i as int]@));
            assert(text::texts(v@).take(i + 1) =~= text::texts(v@).take(i as int).push(
                v@[i as int]@,
            ));
        }
        i += 1;
    }
    assert(text::texts(v@).take(n as int) =~= text::texts(v@));
    r
}

fn upload(ids: Vec<String>) -> (r: (LinkSync, LinkCommand))
    ensures
        uploads(r.0, r.1, text::texts(ids@)),
        r.0.wf(),
{
    let sent = copy_texts(&ids);
    (LinkSync::Uploading { ids }, LinkCommand::Upload(sent))
}

fn uses_publisher_of(link: &RoleLink) -> (r: bool)
    ensures
        r == uses_publisher(*link),
{
    link.publisher_key.is_some() && condition_on_ownership(&link.conditions)
}

fn go_on(
    link: RoleLink,
    user_limit: usize,
    candidates: Vec<Candidate>,
    judged: usize,
    qualifying: Vec<String>,
    full: bool,
) -> (r: (LinkSync, LinkCommand))
    requires
        judged <= candidates@.len(),
        users_wf(candidates@),
        full || qualifying@.len() == 0 || qualifying@.len() < user_limit,
    ensures
        goes_on(
            link,
            user_limit,
            candidates,
            judged as int,
            text::texts(qualifying@),
            full,
            r.0,
            r.1,
        ),
        r.0.wf(),
{
    if full || judged == candidates.len() {
        return upload(qualifying);
    }
    let command = LinkCommand::LoadFacts {
        steam_id: candidates[judged].user.steam_id.clone(),
        apps: sync::needed_app_ids(&link.conditions),
        with_ownership: uses_publisher_of(&link),
    };
    (LinkSync::Judging { link, user_limit, candidates, next: judged, qualifying }, command)
}

fn start_query(link: RoleLink, user_limit: usize, members: Vec<String>) -> (r: (
    LinkSync,
    LinkCommand,
))
    requires
        members@.len() > 0,
    ensures
        forall|now: Timestamp|
            link_moves(
                LinkSync::NeedMembers { link, user_limit },
                LinkInput::Members(members),
                now,
                r.0,
                r.1,
            ),
        r.0.wf(),
{
    // Publisher-key OwnsGame checks must not touch the owned_games JSONB
    // (empty for private libraries) — keep them out of the SQL filter and
    // evaluate in-memory against app_ownership_cache.
    let publisher = uses_publisher_of(&link);
    let memory = condition_in_memory(&link.conditions) || publisher;
    let (where_clause, binds) = condition_sql::build_condition_where(
        link.conditions.as_slice(),
        publisher,
    );
    let ghost f = condition_sql::filter_of(condition::rules(link.conditions@), publisher);
    assert(condition_sql::bounds(binds@).len() == binds@.len());
    if memory {
        let mut sql = candidates_query(binds.len(), where_clause.as_str());
        sql.append(" ORDER BY la.linked_at ASC");
        (
            LinkSync::NeedCandidates { link, user_limit },
            LinkCommand::QueryCandidates { sql, binds, members },
        )
    } else {
        let mut sql = text::owned("SELECT la.discord_id ");
        push_member_filter(&mut sql, binds.len(), where_clause.as_str());
        sql.append(" ORDER BY la.linked_at ASC LIMIT ");
        condition_sql::push_placeholder(&mut sql, binds.len(), 2);
        (LinkSync::NeedIds, LinkCommand::QueryIds { sql, binds, members, limit: user_limit })
    }
}

/// Re-evaluate all users for a specific role link (after config change), at a given time: takes
/// what was asked for and says what to do next.
pub fn sync_for_role_link_at(state: LinkSync, input: LinkInput, now: &Timestamp) -> (r: (
    LinkSync,
    LinkCommand,
))
    requires
        state.wf(),
        state.awaits(input),
        now.wf(),
    ensures
        link_moves(state, input, *now, r.0, r.1),
        r.0.wf(),
{
    match (state, input) {
        (LinkSync::NeedLink, LinkInput::Link(row)) => match row {
            None => (LinkSync::Finished, LinkCommand::Stop),
            Some(link) => {
                if link.conditions.len() == 0 {
                    let nobody: Vec<String> = Vec::new();
                    assert(text::texts(nobody@) =~= Seq::<Seq<char>>::empty());
                    upload(nobody)
                } else {
                    (LinkSync::NeedUserInfo { link }, LinkCommand::GetUserInfo)
                }
            },
        },
        (LinkSync::NeedUserInfo { link }, LinkInput::UserInfo(info)) => match info {
            Ok((_, user_limit)) => (
                LinkSync::NeedMembers { link, user_limit },
                LinkCommand::FetchMembers,
            ),
            Err(AppError::RoleLinkNotFound) => (LinkSync::Finished, LinkCommand::DeleteOrphan),
            Err(AppError::RoleLinkDisabled) => (LinkSync::Finished, LinkCommand::Stop),
            Err(e) => (LinkSync::Finished, LinkCommand::Fail(e)),
        },
        (LinkSync::NeedMembers { link, user_limit }, LinkInput::Members(members)) => {
            if members.len() == 0 {
                let nobody: Vec<String> = Vec::new();
                assert(text::texts(nobody@) =~= Seq::<Seq<char>>::empty());
                upload(nobody)
            } else {
                start_query(link, user_limit, members)
            }
        },
        (LinkSync::NeedCandidates { link, user_limit }, LinkInput::Candidates(candidates)) => {
            let nobody: Vec<String> = Vec::new();
            assert(text::texts(nobody@) =~= Seq::<Seq<char>>::empty());
            go_on(link, user_limit, candidates, 0, nobody, false)
        },
        (
            LinkSync::Judging { link, user_limit, candidates, next, qualifying },
            LinkInput::CandidateFacts { achievements, ownership },
        ) => {
            let answers = if uses_publisher_of(&link) {
                Some(&ownership)
            } else {
                None
            };
            assert(next < candidates.len());
            let passed = condition_eval::evaluate_conditions_at(
                link.conditions.as_slice(),
                &candidates[next].user,
                &achievements,
                answers,
                now,
            );
            proof {
                assert(condition_eval::facts_of(
                    candidates@[next as int].user,
                    achievements,
                    answers,
                ) == candidate_facts(
                    link,
                    candidates@[next as int].user,
                    achievements@,
                    ownership@,
                ));
            }
            if passed {
                let mut qualifying = qualifying;
                let ghost before = qualifying@;
                qualifying.push(candidates[next].discord_id.clone());
                assert(text::texts(qualifying@) =~= text::texts(before).push(
                    candidates@[next as int].discord_id@,
                ));
                let full = qualifying.len() >= user_limit;
                go_on(link, user_limit, candidates, next + 1, qualifying, full)
            } else {
                go_on(link, user_limit, candidates, next + 1, qualifying, false)
            }
        },
        (LinkSync::NeedIds, LinkInput::Ids(ids)) => upload(ids),
        (LinkSync::Uploading { ids }, LinkInput::Uploaded(outcome)) => match outcome {
            Ok(_) => (LinkSync::Storing, LinkCommand::Store(ids)),
            Err(AppError::RoleLinkNotFound) => (LinkSync::Finished, LinkCommand::DeleteOrphan),
            Err(e) => (LinkSync::Finished, LinkCommand::Fail(e)),
        },
        (LinkSync::Storing, LinkInput::Stored) => (LinkSync::Finished, LinkCommand::Stop),
        (state, _) => {
            assert(false);
            (state, LinkCommand::Stop)
        },
    }
}

/// Re-evaluate all users for a specific role link (after config change), now: takes what was asked
/// for and says what to do next.
pub fn sync_for_role_link(state: LinkSync, input: LinkInput) -> (r: (LinkSync, LinkCommand))
    requires
        state.wf(),
        state.awaits(input),
    ensures
        exists|now: Timestamp|
            now.wf() && now.secs >= 0 && #[trigger] link_moves(state, input, now, r.0, r.1),
        r.0.wf(),
{
    let now = clock::utc_now();
    sync_for_role_link_at(state, input, &now)
}

/// The ids of the candidates whose verdict is yes, in order.
pub open spec fn picked(candidates: Seq<Candidate>, verdicts: Seq<bool>) -> Seq<Seq<char>>
    decreases verdicts.len(),
{
    if verdicts.len() == 0 {
        Seq::empty()
    } else {
        let before = picked(candidates, verdicts.drop_last());
        if verdicts.last() {
            before.push(candidates[verdicts.len() - 1].discord_id@)
        } else {
            before
        }
    }
}

/// While candidates are judged, the list holds exactly those who passed so far, longest linked
/// first: if that is so before a step, with the verdicts up to there, it is so after it, with the
/// new verdict, and also when the list is uploaded.
pub proof fn law_exactly_the_passing_are_listed(
    state: LinkSync,
    input: LinkInput,
    now: Timestamp,
    next: LinkSync,
    command: LinkCommand,
    verdicts: Seq<bool>,
)
    requires
        state is Judging,
        state.wf(),
        input is CandidateFacts,
        link_moves(state, input, now, next, command),
        verdicts.len() == state->Judging_next,
        text::texts(state->qualifying@) == picked(state->candidates@, verdicts),
    ensures
        ({
            let verdict = candidate_passes(
                state->Judging_link,
                state->candidates@[state->Judging_next as int].user,
                input->achievements@,
                input->ownership@,
                now,
            );
            let list = picked(state->candidates@, verdicts.push(verdict));
            ||| next is Uploading && text::texts(next->ids@) == list
            ||| {
                &&& next is Judging
                &&& next->candidates == state->candidates
                &&& next->Judging_next == verdicts.len() + 1
                &&& text::texts(next->qualifying@) == list
            }
        }),
{
    let verdict = candidate_passes(
        state->Judging_link,
        state->candidates@[state->Judging_next as int].user,
        input->achievements@,
        input->ownership@,
        now,
    );
    assert(verdicts.push(verdict).drop_last() =~= verdicts);
}

/// No more members are uploaded than the role link may have, save that one is when it may have
/// none.
pub proof fn law_upload_respects_the_limit(
    state: LinkSync,
    input: LinkInput,
    now: Timestamp,
    next: LinkSync,
    command: LinkCommand,
)
    requires
        state is Judging,
        state.wf(),
        link_moves(state, input, now, next, command),
        next is Uploading,
    ensures
        next->ids@.len() <= state->Judging_user_limit || next->ids@.len() <= 1,
{
    assert(text::texts(next->ids@).len() == next->ids@.len());
    assert(text::texts(state->qualifying@).len() == state->qualifying@.len());
}

/// The stored assignments change only after RoleLogic has taken the same list.
pub proof fn law_stored_is_what_was_uploaded(
    state: LinkSync,
    input: LinkInput,
    now: Timestamp,
    next: LinkSync,
    command: LinkCommand,
)
    requires
        link_moves(state, input, now, next, command),
        command is Store,
    ensures
        state is Uploading,
        input is Uploaded && input->Uploaded_0 is Ok,
        command == LinkCommand::Store(state->ids),
{
}

/// A role link without conditions is for nobody.
pub proof fn law_unconfigured_link_is_for_nobody(
    link: RoleLink,
    now: Timestamp,
    next: LinkSync,
    command: LinkCommand,
)
    requires
        link.conditions@.len() == 0,
        link_moves(LinkSync::NeedLink, LinkInput::Link(Some(link)), now, next, command),
    ensures
        command is Upload,
        command->Upload_0@.len() == 0,
{
    assert(text::texts(command->Upload_0@).len() == 0);
}

// ── Preview ────────────────────────────────────────────────────────────────

/// How far a preview has come.
pub enum Preview {
    NeedLinked,
    NeedCount { linked: i64 },
    NeedCandidates { linked: i64 },
    /// The candidates before `next` are judged, and `matching` of them passed.
    Judging { linked: i64, candidates: Vec<Candidate>, next: usize, matching: i64 },
    Finished { matching: i64, linked: i64 },
}

/// What a preview is told.
pub enum PreviewInput {
    Linked(i64),
    Count(i64),
    Candidates(Vec<Candidate>),
    CandidateFacts {
        achievements: Lookup<String, GameAchievementRow>,
        ownership: Lookup<String, AppOwnershipRow>,
    },
}

/// What a preview asks for. The members are bound last in each query.
pub enum PreviewCommand {
    CountLinked,
    Count { sql: String, binds: Vec<ConditionBind> },
    QueryCandidates { sql: String, binds: Vec<ConditionBind> },
    LoadFacts { steam_id: String, apps: TextSet, with_ownership: bool },
    Stop,
}

impl Preview {
    /// What the preview knows is well-formed: while candidates are judged, one is left, and no
    /// more passed than were judged.
    pub open spec fn wf(self) -> bool {
        match self {
            Preview::Judging { candidates, next, matching, .. } => {
                &&& next < candidates@.len() <= i64::MAX
                &&& 0 <= matching <= next
                &&& users_wf(candidates@)
            },
            _ => true,
        }
    }

    /// Is this what the preview has asked for?
    pub open spec fn awaits(self, input: PreviewInput) -> bool {
        match input {
            PreviewInput::Linked(_) => self is NeedLinked,
            PreviewInput::Count(_) => self is NeedCount,
            PreviewInput::Candidates(list) => self is NeedCandidates && users_wf(list@)
                && list@.len() <= i64::MAX,
            PreviewInput::CandidateFacts { .. } => self is Judging,
        }
    }
}

/// Does a candidate meet proposed conditions?
pub open spec fn preview_passes(
    list: Seq<Rule>,
    has_key: bool,
    user: UserCacheRow,
    achievements: Map<Seq<char>, GameAchievementRow>,
    ownership: Map<Seq<char>, AppOwnershipRow>,
    now: Timestamp,
) -> bool {
    condition_eval::all_met(
        list,
        Facts {
            user,
            achievements,
            ownership: if has_key && asks_ownership(list) {
                Some(ownership)
            } else {
                None
            },
        },
        now,
    )
}

/// Goes on with the next candidate, or ends when the last one is judged.
pub open spec fn preview_goes_on(
    list: Seq<Rule>,
    has_key: bool,
    linked: i64,
    candidates: Vec<Candidate>,
    judged: int,
    matching: int,
    next: Preview,
    command: PreviewCommand,
) -> bool {
    if judged == candidates@.len() {
        &&& next matches Preview::Finished { matching: matching2, linked: linked2 }
        &&& matching2 == matching && linked2 == linked
        &&& command is Stop
    } else {
        &&& next matches Preview::Judging {
            linked: linked2,
            candidates: candidates2,
            next: next2,
            matching: matching2,
        }
        &&& linked2 == linked && candidates2 == candidates
        &&& next2 == judged && matching2 == matching
        &&& command matches PreviewCommand::LoadFacts { steam_id, apps, with_ownership }
        &&& steam_id@ == candidates@[judged].user.steam_id@
        &&& apps.wf() && apps@ == sync::apps_in(list)
        &&& with_ownership == (has_key && asks_ownership(list))
    }
}

/// Where a preview goes from a state with an input, and what it asks for then.
pub open spec fn preview_moves(
    state: Preview,
    input: PreviewInput,
    list: Seq<Rule>,
    has_key: bool,
    now: Timestamp,
    next: Preview,
    command: PreviewCommand,
) -> bool {
    let f = condition_sql::filter_of(list, has_key && asks_ownership(list));
    match (state, input) {
        (Preview::NeedLinked, PreviewInput::Linked(linked)) => if list.len() == 0 || linked == 0 {
            next == (Preview::Finished { matching: 0, linked }) && command is Stop
        } else if judged_in_memory(list, has_key) {
            &&& next == (Preview::NeedCandidates { linked })
            &&& command matches PreviewCommand::QueryCandidates { sql, binds }
            &&& sql@ == counted_candidates_sql(f)
            &&& condition_sql::bounds(binds@) == f.binds
        } else {
            &&& next == (Preview::NeedCount { linked })
            &&& command matches PreviewCommand::Count { sql, binds }
            &&& sql@ == count_sql(f)
            &&& condition_sql::bounds(binds@) == f.binds
        },
        (Preview::NeedCount { linked }, PreviewInput::Count(matching)) => next == (
        Preview::Finished { matching, linked }) && command is Stop,
        (Preview::NeedCandidates { linked }, PreviewInput::Candidates(candidates)) =>
            preview_goes_on(list, has_key, linked, candidates, 0, 0, next, command),
        (
            Preview::Judging { linked, candidates, next: at, matching },
            PreviewInput::CandidateFacts { achievements, ownership },
        ) => {
            let passed = preview_passes(
                list,
                has_key,
                candidates@[at as int].user,
                achievements@,
                ownership@,
                now,
            );
            preview_goes_on(
                list,
                has_key,
                linked,
                candidates,
                at + 1,
                if passed {
                    matching + 1
                } else {
                    matching as int
                },
                next,
                command,
            )
        },
        _ => false,
    }
}

fn preview_go_on(
    conditions: &Vec<Condition>,
    has_key: bool,
    linked: i64,
    candidates: Vec<Candidate>,
    judged: usize,
    matching: i64,
) -> (r: (Preview, PreviewCommand))
    requires
        judged <= candidates@.len() <= i64::MAX,
        0 <= matching <= judged,
        users_wf(candidates@),
    ensures
        preview_goes_on(
            condition::rules(conditions@),
            has_key,
            linked,
            candidates,
            judged as int,
            matching as int,
            r.0,
            r.1,
        ),
        r.0.wf(),
{
    if judged == candidates.len() {
        return (Preview::Finished { matching, linked }, PreviewCommand::Stop);
    }
    let command = PreviewCommand::LoadFacts {
        steam_id: candidates[judged].user.steam_id.clone(),
        apps: sync::needed_app_ids(conditions),
        with_ownership: has_key && condition_on_ownership(conditions),
    };
    (Preview::Judging { linked, candidates, next: judged, matching }, command)
}

/// How a preview of the members begins: without members there is nothing to count.
pub fn start_preview(member_ids: &Vec<String>) -> (r: (Preview, PreviewCommand))
    ensures
        r.0.wf(),
        if member_ids@.len() == 0 {
            r == (Preview::Finished { matching: 0, linked: 0 }, PreviewCommand::Stop)
        } else {
            r == (Preview::NeedLinked, PreviewCommand::CountLinked)
        },
{
    if member_ids.len() == 0 {
        (Preview::Finished { matching: 0, linked: 0 }, PreviewCommand::Stop)
    } else {
        (Preview::NeedLinked, PreviewCommand::CountLinked)
    }
}

/// Count how many of the members are linked and how many satisfy
/// `conditions` — powers the role-config page's preview. Mirrors
/// `sync_for_role_link`'s evaluation (SQL pre-filter plus in-memory
/// achievement / publisher-ownership eval) but only counts; it never
/// touches RoleLogic or role_assignments. Takes what was asked for, at a given time, and says what
/// to do next.
pub fn preview_matching_count_at(
    state: Preview,
    input: PreviewInput,
    conditions: &Vec<Condition>,
    has_publisher_key: bool,
    now: &Timestamp,
) -> (r: (Preview, PreviewCommand))
    requires
        state.wf(),
        state.awaits(input),
        now.wf(),
    ensures
        preview_moves(
            state,
            input,
            condition::rules(conditions@),
            has_publisher_key,
            *now,
            r.0,
            r.1,
        ),
        r.0.wf(),
{
    assert(condition::rules(conditions@).len() == conditions@.len());
    match (state, input) {
        (Preview::NeedLinked, PreviewInput::Linked(linked)) => {
            if conditions.len() == 0 || linked == 0 {
                return (Preview::Finished { matching: 0, linked }, PreviewCommand::Stop);
            }
            let publisher = has_publisher_key && condition_on_ownership(conditions);
            let memory = condition_in_memory(conditions) || publisher;
            let (where_clause, binds) = condition_sql::build_condition_where(
                conditions.as_slice(),
                publisher,
            );
            assert(condition_sql::bounds(binds@).len() == binds@.len());
            if memory {
                let sql = candidates_query(binds.len(), where_clause.as_str());
                (
                    Preview::NeedCandidates { linked },
                    PreviewCommand::QueryCandidates { sql, binds },
                )
            } else {
                let mut sql = text::owned("SELECT count(*) ");
                push_member_filter(&mut sql, binds.len(), where_clause.as_str());
                (Preview::NeedCount { linked }, PreviewCommand::Count { sql, binds })
            }
        },
        (Preview::NeedCount { linked }, PreviewInput::Count(matching)) => (
            Preview::Finished { matching, linked },
            PreviewCommand::Stop,
        ),
        (Preview::NeedCandidates { linked }, PreviewInput::Candidates(candidates)) => {
            preview_go_on(conditions, has_publisher_key, linked, candidates, 0, 0)
        },
        (
            Preview::Judging { linked, candidates, next, matching },
            PreviewInput::CandidateFacts { achievements, ownership },
        ) => {
            let answers = if has_publisher_key && condition_on_ownership(conditions) {
                Some(&ownership)
            } else {
                None
            };
            assert(next < candidates.len());
            let passed = condition_eval::evaluate_conditions_at(
                conditions.as_slice(),
                &candidates[next].user,
                &achievements,
                answers,
                now,
            );
            let count: i64 = if passed {
                matching + 1
            } else {
                matching
            };
            preview_go_on(conditions, has_publisher_key, linked, candidates, next + 1, count)
        },
        (state, _) => {
            assert(false);
            (state, PreviewCommand::Stop)
        },
    }
}

/// Count how many of the members are linked and how many satisfy `conditions`, now: takes what was
/// asked for and says what to do next.
pub fn preview_matching_count(
    state: Preview,
    input: PreviewInput,
    conditions: &Vec<Condition>,
    has_publisher_key: bool,
) -> (r: (Preview, PreviewCommand))
    requires
        state.wf(),
        state.awaits(input),
    ensures
        exists|now: Timestamp|
            now.wf() && now.secs >= 0 && #[trigger] preview_moves(
                state,
                input,
                condition::rules(conditions@),
                has_publisher_key,
                now,
                r.0,
                r.1,
            ),
        r.0.wf(),
{
    let now = clock::utc_now();
    preview_matching_count_at(state, input, conditions, has_publisher_key, &now)
}

/// How many verdicts are yes.
pub open spec fn yes_count(verdicts: Seq<bool>) -> int
    decreases verdicts.len(),
{
    if verdicts.len() == 0 {
        0
    } else {
        yes_count(verdicts.drop_last()) + if verdicts.last() {
            1int
        } else {
            0
        }
    }
}

/// While candidates are judged, the number is exactly that of those who passed so far: if that is
/// so before a step, it is so after it, and also at the end.
pub proof fn law_exactly_the_passing_are_counted(
    state: Preview,
    input: PreviewInput,
    list: Seq<Rule>,
    has_key: bool,
    now: Timestamp,
    next: Preview,
    command: PreviewCommand,
    verdicts: Seq<bool>,
)
    requires
        state is Judging,
        state.wf(),
        input is CandidateFacts,
        preview_moves(state, input, list, has_key, now, next, command),
        verdicts.len() == state->next,
        state->Judging_matching == yes_count(verdicts),
    ensures
        ({
            let verdict = preview_passes(
                list,
                has_key,
                state->candidates@[state->next as int].user,
                input->achievements@,
                input->ownership@,
                now,
            );
            let count = yes_count(verdicts.push(verdict));
            ||| next is Finished && next->Finished_matching == count
            ||| next is Judging && next->next == verdicts.len() + 1 && next->Judging_matching
                == count
        }),
{
    let verdict = preview_passes(
        list,
        has_key,
        state->candidates@[state->next as int].user,
        input->achievements@,
        input->ownership@,
        now,
    );
    assert(verdicts.push(verdict).drop_last() =~= verdicts);
}

/// The preview judges a member as the sync of the role link would.
pub proof fn law_preview_judges_like_the_sync(
    link: RoleLink,
    user: UserCacheRow,
    achievements: Map<Seq<char>, GameAchievementRow>,
    ownership: Map<Seq<char>, AppOwnershipRow>,
    now: Timestamp,
)
    ensures
        candidate_passes(link, user, achievements, ownership, now) == preview_passes(
            condition::rules(link.conditions@),
            link.publisher_key is Some,
            user,
            achievements,
            ownership,
            now,
        ),
{
}

/// The sync of a role link judges a member as the sync of a player does.
pub proof fn law_both_syncs_judge_alike(
    link: RoleLink,
    user: UserCacheRow,
    achievements: Map<Seq<char>, GameAchievementRow>,
    ownership: Map<Seq<char>, AppOwnershipRow>,
    now: Timestamp,
)
    ensures
        candidate_passes(link, user, achievements, ownership, now) == sync::qualifies(
            link,
            user,
            achievements,
            ownership,
            now,
        ),
{
    let list = condition::rules(link.conditions@);
    let a = candidate_facts(link, user, achievements, ownership);
    let b = sync::link_facts(link, user, achievements, ownership);
    if a != b {
        assert(!asks_ownership(list));
        assert forall|i: int| 0 <= i < list.len() implies condition_eval::met(
            #[trigger] list[i],
            a,
            now,
        ) == condition_eval::met(list[i], b, now) by {}
    }
}

// ── What the sync of a role link brings about ──────────────────────────────

/// Does SQL take every condition for a row as the judgement does?
pub open spec fn agreed(list: Seq<Rule>, skip_owns_game: bool, facts: Facts, now: Timestamp) -> bool {
    forall|i: int|
        0 <= i < list.len() && condition_sql::in_filter(#[trigger] list[i], skip_owns_game)
            ==> condition_sql::means_the_same(list[i], facts, now)
}

/// Does a row pass every test of the filter of a list of conditions?
pub open spec fn passes_filter(
    list: Seq<Rule>,
    skip_owns_game: bool,
    user: UserCacheRow,
    now: Timestamp,
) -> bool {
    forall|j: int|
        0 <= j < condition_sql::readings(list, skip_owns_game).len() ==> condition_sql::row_passes(
            #[trigger] condition_sql::readings(list, skip_owns_game)[j],
            condition_sql::filter_of(list, skip_owns_game).binds,
            user,
            now,
        )
}

/// Nobody who meets the conditions of a role link is lost to the filter of its query; and where the
/// members are not judged one by one after the query, the filter lets through nobody else.
pub proof fn law_the_query_finds_those_who_qualify(
    link: RoleLink,
    user: UserCacheRow,
    achievements: Map<Seq<char>, GameAchievementRow>,
    ownership: Map<Seq<char>, AppOwnershipRow>,
    now: Timestamp,
)
    requires
        link.conditions@.len() > 0,
        forall|i: int|
            0 <= i < link.conditions@.len() && (#[trigger] link.conditions@[i]).field is OwnsGame
                ==> link.conditions@[i].app_id is Some,
        agreed(
            condition::rules(link.conditions@),
            uses_publisher(link),
            candidate_facts(link, user, achievements, ownership),
            now,
        ),
    ensures
        ({
            let list = condition::rules(link.conditions@);
            let found = passes_filter(list, uses_publisher(link), user, now);
            let qualified = sync::qualifies(link, user, achievements, ownership, now);
            &&& qualified ==> found
            &&& !judged_in_memory(list, link.publisher_key is Some) ==> (found <==> qualified)
        }),
{
    let list = condition::rules(link.conditions@);
    let skip = uses_publisher(link);
    let facts = candidate_facts(link, user, achievements, ownership);
    condition_sql::law_a_filter_selects_whom_its_conditions_mean(list, skip, facts, now);
    law_both_syncs_judge_alike(link, user, achievements, ownership, now);
    if !judged_in_memory(list, link.publisher_key is Some) {
        assert forall|i: int| 0 <= i < list.len() implies condition_sql::in_filter(
            #[trigger] list[i],
            skip,
        ) by {
            assert(list[i] == link.conditions@[i]@);
            assert(condition_sql::sql_judges(list[i]));
        }
    }
}

/// Is this a sync of a role link, up to its `n`th step: from each state with the next input to the
/// next state, with what is asked for then?
pub open spec fn link_steps(
    now: Timestamp,
    inputs: Seq<LinkInput>,
    states: Seq<LinkSync>,
    commands: Seq<LinkCommand>,
    n: int,
) -> bool {
    &&& states[0] is NeedLink
    &&& forall|k: int|
        0 <= k < n ==> link_moves(
            states[k],
            #[trigger] inputs[k],
            now,
            states[k + 1],
            commands[k],
        )
}

/// The sync of a role link with conditions goes all the way. It asks how many users the role link
/// may have, for the members of the guild, and for those of them whom the filter lets through,
/// longest linked first, up to that number where nobody is judged afterwards; the members are bound
/// after what the conditions bind, and the number after them.
pub proof fn law_link_sync_queries_the_members(
    link: RoleLink,
    users: usize,
    user_limit: usize,
    members: Vec<String>,
    now: Timestamp,
    inputs: Seq<LinkInput>,
    states: Seq<LinkSync>,
    commands: Seq<LinkCommand>,
)
    requires
        link.conditions@.len() > 0,
        members@.len() > 0,
        inputs[0] == LinkInput::Link(Some(link)),
        inputs[1] == LinkInput::UserInfo(Ok((users, user_limit))),
        inputs[2] == LinkInput::Members(members),
    ensures
        link_steps(now, inputs, states, commands, 1) ==> commands[0] is GetUserInfo && states[1]
            == (LinkSync::NeedUserInfo { link }),
        link_steps(now, inputs, states, commands, 2) ==> commands[1] is FetchMembers && states[2]
            == (LinkSync::NeedMembers { link, user_limit }),
        link_steps(now, inputs, states, commands, 3) ==> {
            let list = condition::rules(link.conditions@);
            let f = condition_sql::filter_of(list, uses_publisher(link));
            let n = f.binds.len() as int;
            let from_members =
                "FROM linked_accounts la JOIN user_cache uc ON uc.steam_id = la.steam_id WHERE la.discord_id = ANY("@
                + condition_sql::placeholder(n + 1) + "::text[]) AND ("@
                + condition_sql::filter_sql(f) + ")"@;
            if judged_in_memory(list, link.publisher_key is Some) {
                &&& states[3] == (LinkSync::NeedCandidates { link, user_limit })
                &&& commands[2] matches LinkCommand::QueryCandidates { sql, binds, members: asked }
                &&& sql@
                    == "SELECT la.discord_id, uc.steam_id, uc.owned_games, uc.groups, uc.steam_level, uc.account_created, uc.total_games_owned, uc.is_vac_banned, uc.is_game_banned, uc.country_code "@
                    + from_members + " ORDER BY la.linked_at ASC"@
                &&& condition_sql::bounds(binds@) == f.binds
                &&& asked == members
            } else {
                &&& states[3] is NeedIds
                &&& commands[2] matches LinkCommand::QueryIds { sql, binds, members: asked, limit }
                &&& sql@ == "SELECT la.discord_id "@ + from_members
                    + " ORDER BY la.linked_at ASC LIMIT "@ + condition_sql::placeholder(n + 2)
                &&& condition_sql::bounds(binds@) == f.binds
                &&& asked == members
                &&& limit == user_limit
            }
        },
{
}

/// The members that the query finds are those who are uploaded, and once RoleLogic has taken them,
/// those who are stored. Without members nobody is uploaded.
pub proof fn law_link_sync_uploads_and_stores_those_found(
    state: LinkSync,
    input: LinkInput,
    now: Timestamp,
    next: LinkSync,
    command: LinkCommand,
)
    requires
        link_moves(state, input, now, next, command),
    ensures
        input matches LinkInput::Ids(ids) ==> {
            &&& command matches LinkCommand::Upload(sent)
            &&& text::texts(sent@) == text::texts(ids@)
            &&& next matches LinkSync::Uploading { ids: kept }
            &&& text::texts(kept@) == text::texts(ids@)
        },
        input matches LinkInput::Members(members) ==> members@.len() == 0 ==> {
            &&& command matches LinkCommand::Upload(sent)
            &&& sent@.len() == 0
        },
        input matches LinkInput::Uploaded(Ok(_)) ==> {
            &&& next is Storing
            &&& command == LinkCommand::Store(state->ids)
        },
        input is Stored ==> command is Stop,
{
    if let LinkInput::Members(members) = input {
        if members@.len() == 0 {
            assert(text::texts(command->Upload_0@).len() == 0);
        }
    }
}

/// A role link that RoleLogic no longer has is deleted here, and no other trouble deletes one. One
/// that is disabled is left alone, and every other trouble is reported.
pub proof fn law_only_orphans_are_deleted(
    state: LinkSync,
    input: LinkInput,
    now: Timestamp,
    next: LinkSync,
    command: LinkCommand,
)
    requires
        link_moves(state, input, now, next, command),
    ensures
        command is DeleteOrphan <==> {
            ||| input matches LinkInput::UserInfo(Err(e)) && e is RoleLinkNotFound
            ||| input matches LinkInput::Uploaded(Err(e)) && e is RoleLinkNotFound
        },
        input matches LinkInput::UserInfo(Err(e)) ==> e is RoleLinkDisabled ==> command is Stop,
        input matches LinkInput::UserInfo(Err(e)) ==> !(e is RoleLinkDisabled
            || e is RoleLinkNotFound) ==> command == LinkCommand::Fail(e),
        input matches LinkInput::Uploaded(Err(e)) ==> !(e is RoleLinkNotFound) ==> command
            == LinkCommand::Fail(e),
        input is Link && input->Link_0 is None ==> command is Stop,
{
}

/// Candidates are judged one after the other, from the first on, each with the achievements in the
/// apps that the conditions name and, where the role link has a key and asks for ownership, with the
/// answers of publishers. The list is uploaded only when everyone is judged or the limit is reached.
pub proof fn law_every_candidate_is_judged(
    state: LinkSync,
    input: LinkInput,
    now: Timestamp,
    next: LinkSync,
    command: LinkCommand,
    link: RoleLink,
    user_limit: usize,
    candidates: Vec<Candidate>,
    judged: int,
)
    requires
        state.wf(),
        link_moves(state, input, now, next, command),
        ({
            ||| {
                &&& state == (LinkSync::NeedCandidates { link, user_limit })
                &&& input == LinkInput::Candidates(candidates)
                &&& judged == 0
            }
            ||| {
                &&& state is Judging && input is CandidateFacts
                &&& state->Judging_link == link && state->Judging_user_limit == user_limit
                &&& state->candidates == candidates
                &&& judged == state->Judging_next + 1
            }
        }),
    ensures
        next is Judging || next is Uploading,
        next is Judging ==> {
            &&& next->Judging_link == link && next->Judging_user_limit == user_limit
            &&& next->candidates == candidates
            &&& next->Judging_next == judged
            &&& judged == 0 ==> next->qualifying@.len() == 0
            &&& command matches LinkCommand::LoadFacts { steam_id, apps, with_ownership }
            &&& steam_id@ == candidates@[judged].user.steam_id@
            &&& forall|app: Seq<char>| #[trigger]
                apps@.contains(app) <==> exists|k: int|
                    0 <= k < link.conditions@.len() && condition::text_of(
                        (#[trigger] link.conditions@[k]).app_id,
                    ) == Some(app)
            &&& with_ownership <==> link.publisher_key is Some && exists|k: int|
                0 <= k < link.conditions@.len() && (#[trigger] link.conditions@[k]).field is OwnsGame
        },
        next is Uploading ==> {
            &&& judged == candidates@.len() || (judged > 0 && next->ids@.len() >= user_limit
                && next->ids@.len() > state->qualifying@.len())
            &&& judged == 0 ==> next->ids@.len() == 0
            &&& command is Upload
            &&& text::texts(command->Upload_0@) == text::texts(next->ids@)
        },
{
    lemma_conditions_name(link.conditions@);
    if next is Uploading {
        assert(text::texts(next->ids@).len() == next->ids@.len());
    }
    if next is Judging {
        assert(text::texts(next->qualifying@).len() == next->qualifying@.len());
    }
    if state is Judging {
        assert(text::texts(state->qualifying@).len() == state->qualifying@.len());
    }
}

proof fn lemma_conditions_name(conditions: Seq<Condition>)
    ensures
        forall|app: Seq<char>| #[trigger]
            sync::apps_in(condition::rules(conditions)).contains(app) <==> exists|k: int|
                0 <= k < conditions.len() && condition::text_of((#[trigger] conditions[k]).app_id)
                    == Some(app),
        asks_ownership(condition::rules(conditions)) <==> exists|k: int|
            0 <= k < conditions.len() && (#[trigger] conditions[k]).field is OwnsGame,
{
    let list = condition::rules(conditions);
    assert forall|app: Seq<char>| #[trigger] sync::apps_in(list).contains(app) <==> exists|k: int|
        0 <= k < conditions.len() && condition::text_of((#[trigger] conditions[k]).app_id) == Some(
            app,
        ) by {
        if sync::apps_in(list).contains(app) {
            let k = choose|k: int| 0 <= k < list.len() && (#[trigger] list[k]).app_id == Some(app);
            assert(conditions[k]@ == list[k]);
        }
        assert forall|k: int|
            0 <= k < conditions.len() && condition::text_of((#[trigger] conditions[k]).app_id)
                == Some(app) implies sync::apps_in(list).contains(app) by {
            assert(list[k] == conditions[k]@);
        }
    }
    if asks_ownership(list) {
        let k = choose|k: int| 0 <= k < list.len() && (#[trigger] list[k]).field is OwnsGame;
        assert(conditions[k]@ == list[k]);
    }
    assert forall|k: int|
        0 <= k < conditions.len() && (#[trigger] conditions[k]).field is OwnsGame implies
        asks_ownership(list) by {
        assert(list[k] == conditions[k]@);
    }
}

/// A candidate passes exactly when all conditions of the role link are met by what was loaded; the
/// answers of publishers count only where the role link has a key.
pub proof fn law_candidates_are_judged_by_the_conditions(
    link: RoleLink,
    user: UserCacheRow,
    achievements: Map<Seq<char>, GameAchievementRow>,
    ownership: Map<Seq<char>, AppOwnershipRow>,
    now: Timestamp,
)
    ensures
        candidate_passes(link, user, achievements, ownership, now) <==> condition_eval::all_met(
            condition::rules(link.conditions@),
            Facts {
                user,
                achievements,
                ownership: if link.publisher_key is Some {
                    Some(ownership)
                } else {
                    None
                },
            },
            now,
        ),
{
    law_both_syncs_judge_alike(link, user, achievements, ownership, now);
}

/// A preview counts everyone: it ends with the number that SQL counts or that passed once the last
/// candidate is judged, beside the number of linked members that it was told; nobody matches when
/// there are no conditions or no linked members, and nowhere else does it end without counting.
pub proof fn law_preview_counts_everyone(
    state: Preview,
    input: PreviewInput,
    list: Seq<Rule>,
    has_key: bool,
    now: Timestamp,
    next: Preview,
    command: PreviewCommand,
)
    requires
        state.wf(),
        state.awaits(input),
        preview_moves(state, input, list, has_key, now, next, command),
    ensures
        command is Stop <==> next is Finished,
        input matches PreviewInput::Linked(linked) ==> {
            &&& next is Finished <==> list.len() == 0 || linked == 0
            &&& next is Finished ==> next == (Preview::Finished { matching: 0, linked })
            &&& !(next is Finished) ==> next == (Preview::NeedCount { linked }) || next == (
            Preview::NeedCandidates { linked })
            &&& next is NeedCount ==> !judged_in_memory(list, has_key)
        },
        input matches PreviewInput::Count(n) ==> next == (Preview::Finished {
            matching: n,
            linked: state->NeedCount_linked,
        }),
        input matches PreviewInput::Candidates(candidates) ==> {
            &&& candidates@.len() == 0 ==> next == (Preview::Finished {
                matching: 0,
                linked: state->NeedCandidates_linked,
            })
            &&& candidates@.len() > 0 ==> next == (Preview::Judging {
                linked: state->NeedCandidates_linked,
                candidates,
                next: 0,
                matching: 0,
            })
        },
        input is CandidateFacts ==> {
            &&& next is Finished <==> state->next + 1 == state->candidates@.len()
            &&& next is Finished ==> next->Finished_linked == state->Judging_linked
            &&& !(next is Finished) ==> next is Judging && next->Judging_linked
                == state->Judging_linked && next->candidates == state->candidates && next->next
                == state->next + 1
        },
{
}

/// What a preview asks of the database is what the sync of a role link with these conditions asks,
/// without an order and a limit.
pub proof fn law_preview_asks_like_the_sync(
    linked: i64,
    list: Seq<Rule>,
    has_key: bool,
    now: Timestamp,
    next: Preview,
    command: PreviewCommand,
)
    requires
        list.len() > 0,
        linked != 0,
        preview_moves(
            Preview::NeedLinked,
            PreviewInput::Linked(linked),
            list,
            has_key,
            now,
            next,
            command,
        ),
    ensures
        ({
            let f = condition_sql::filter_of(list, has_key && asks_ownership(list));
            let from_members =
                "FROM linked_accounts la JOIN user_cache uc ON uc.steam_id = la.steam_id WHERE la.discord_id = ANY("@
                + condition_sql::placeholder(f.binds.len() as int + 1) + "::text[]) AND ("@
                + condition_sql::filter_sql(f) + ")"@;
            match command {
                PreviewCommand::Count { sql, binds } => {
                    &&& !judged_in_memory(list, has_key)
                    &&& sql@ == "SELECT count(*) "@ + from_members
                    &&& condition_sql::bounds(binds@) == f.binds
                },
                PreviewCommand::QueryCandidates { sql, binds } => {
                    &&& judged_in_memory(list, has_key)
                    &&& sql@
                        == "SELECT la.discord_id, uc.steam_id, uc.owned_games, uc.groups, uc.steam_level, uc.account_created, uc.total_games_owned, uc.is_vac_banned, uc.is_game_banned, uc.country_code "@
                        + from_members
                    &&& condition_sql::bounds(binds@) == f.binds
                },
                _ => false,
            }
        }),
{
}

/// A candidate of a preview matches exactly when all conditions are met by what was loaded.
pub proof fn law_preview_is_judged_by_the_conditions(
    list: Seq<Rule>,
    has_key: bool,
    user: UserCacheRow,
    achievements: Map<Seq<char>, GameAchievementRow>,
    ownership: Map<Seq<char>, AppOwnershipRow>,
    now: Timestamp,
)
    ensures
        preview_passes(list, has_key, user, achievements, ownership, now) <==>
            condition_eval::all_met(
            list,
            Facts {
                user,
                achievements,
                ownership: if has_key {
                    Some(ownership)
                } else {
                    None
                },
            },
            now,
        ),
{
    let a = Facts {
        user,
        achievements,
        ownership: if has_key && asks_ownership(list) {
            Some(ownership)
        } else {
            None
        },
    };
    let b = Facts {
        user,
        achievements,
        ownership: if has_key {
            Some(ownership)
        } else {
            None
        },
    };
    if a != b {
        assert forall|i: int| 0 <= i < list.len() implies condition_eval::met(
            #[trigger] list[i],
            a,
            now,
        ) == condition_eval::met(list[i], b, now) by {}
    }
}

/// The members are judged one by one exactly where a condition speaks of playtime or achievements,
/// or where a publisher's answers decide on who owns a game.
pub proof fn law_some_conditions_need_each_member(list: Seq<Rule>, has_key: bool)
    ensures
        judged_in_memory(list, has_key) <==> exists|i: int|
            0 <= i < list.len() && {
                let field = (#[trigger] list[i]).field;
                ||| field is GamePlaytime || field is RecentPlaytime
                ||| field is AchievementCount || field is AchievementPercent
                ||| field is HasAchievement
                ||| has_key && field is OwnsGame
            },
{
    assert(forall|i: int|
        0 <= i < list.len() && !condition_sql::sql_judges(#[trigger] list[i])
            ==> judged_in_memory(list, has_key));
}

/// Members are judged for as long as there are any and there is room for them.
pub proof fn law_judging_stops_at_the_limit(
    state: LinkSync,
    input: LinkInput,
    now: Timestamp,
    next: LinkSync,
    command: LinkCommand,
)
    requires
        state.wf(),
        link_moves(state, input, now, next, command),
        state is NeedCandidates || state is Judging,
    ensures
        next is Judging ==> {
            &&& next->Judging_next < next->candidates@.len()
            &&& next->qualifying@.len() == 0 || next->qualifying@.len()
                < next->Judging_user_limit
        },
{
    if next is Judging {
        assert(text::texts(next->qualifying@).len() == next->qualifying@.len());
    }
    if state is Judging {
        assert(text::texts(state->qualifying@).len() == state->qualifying@.len());
    }
}

/// For every member that a preview judges, it asks for what its conditions look at: the player's own
/// data on the games they name, and the publishers' answers where these decide.
pub proof fn law_preview_asks_for_what_it_judges(
    state: Preview,
    input: PreviewInput,
    list: Seq<Rule>,
    has_key: bool,
    now: Timestamp,
    next: Preview,
    command: PreviewCommand,
)
    requires
        preview_moves(state, input, list, has_key, now, next, command),
        next is Judging,
    ensures
        command matches PreviewCommand::LoadFacts { steam_id, apps, with_ownership } && {
            &&& steam_id@ == next->Judging_candidates@[next->Judging_next as int].user.steam_id@
            &&& forall|app: Seq<char>| #[trigger]
                apps@.contains(app) <==> exists|k: int|
                    0 <= k < list.len() && (#[trigger] list[k]).app_id == Some(app)
            &&& with_ownership <==> has_key && exists|k: int|
                0 <= k < list.len() && (#[trigger] list[k]).field is OwnsGame
        },
{
}

} // verus!
