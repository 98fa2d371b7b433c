//! A batch of players whose data is due.
//!
//! - **Batching.** Users are claimed in batches of up to 100 so
//!   GetPlayerSummaries and GetPlayerBans cost 1 call per 100 users instead
//!   of 2 per user.
//! - **No thundering herd.** When the daily budget is spent the worker
//!   pauses and serves from cache; rows blocked mid-flight are requeued past
//!   the retry point with per-row jitter, never mass-stamped to one instant.

use vstd::prelude::*;
use crate::clock::Timestamp;
use crate::error::AppError;
use crate::lookup;
use crate::lookup::{Lookup, TextSet};
use crate::services::quota::Class;
use crate::services::steam_api::{PlayerBan, PlayerSummary, SUMMARY_BATCH_MAX};
use crate::tasks::refresh_user::BatchUser;
use crate::tasks::refresh_worker;
use crate::text;

verus! {

/// Users claimed per cycle; also the GetPlayerSummaries/Bans batch size.
pub const CLAIM_BATCH: i64 = 100;

/// Lease, in seconds, applied to claimed rows so a crash mid-batch re-surfaces them after
/// this long instead of stranding them, and concurrent workers skip them
/// meanwhile. Sized for a worst-case fully-paced 100-user batch.
pub const LEASE_SECS: i64 = 1800;

/// For how many seconds to wait after a claim that failed.
pub const CLAIM_RETRY_SECS: u64 = 5;

/// A claimed row.
pub struct Claimed {
    pub steam_id: String,
    pub prev_streak: i32,
    pub prev_hash: String,
    pub prev_vac_banned: bool,
    pub prev_game_banned: bool,
    pub prev_country: String,
}

/// Who a claimed row belongs to.
pub struct Owner {
    pub steam_id: String,
    pub discord_id: String,
    pub linked_at: Timestamp,
    pub is_active: bool,
}

/// The ids of the claimed rows.
pub open spec fn claimed_ids(rows: Seq<Claimed>) -> Seq<Seq<char>> {
    Seq::new(rows.len(), |i: int| rows[i].steam_id@)
}

/// The ids of the players.
pub open spec fn user_ids(users: Seq<BatchUser>) -> Seq<Seq<char>> {
    Seq::new(users.len(), |i: int| users[i].steam_id@)
}

/// The Discord ids of the players.
pub open spec fn user_discord_ids(users: Seq<BatchUser>) -> Seq<Seq<char>> {
    Seq::new(users.len(), |i: int| users[i].discord_id@)
}

/// The last row of the list with this id.
pub open spec fn owner_of(owners: Seq<Owner>, steam_id: Seq<char>) -> Option<Owner>
    decreases owners.len(),
{
    if owners.len() == 0 {
        None
    } else if owners.last().steam_id@ == steam_id {
        Some(owners.last())
    } else {
        owner_of(owners.drop_last(), steam_id)
    }
}

/// Is this the player of a claimed row?
pub open spec fn is_user_of(user: BatchUser, row: Claimed, owner: Owner) -> bool {
    &&& user.steam_id@ == row.steam_id@
    &&& user.discord_id@ == owner.discord_id@
    &&& user.linked_at == owner.linked_at
    &&& user.is_active == owner.is_active
    &&& user.prev_streak == row.prev_streak
    &&& user.prev_hash@ == row.prev_hash@
    &&& user.prev_vac_banned == row.prev_vac_banned
    &&& user.prev_game_banned == row.prev_game_banned
    &&& user.prev_country@ == row.prev_country@
}

/// Are these the players of the claimed rows, in order? Rows whose link vanished are left out.
pub open spec fn are_users_of(
    users: Seq<BatchUser>,
    rows: Seq<Claimed>,
    owners: Seq<Owner>,
) -> bool
    decreases rows.len(),
{
    if rows.len() == 0 {
        users.len() == 0
    } else {
        match owner_of(owners, rows.last().steam_id@) {
            Some(owner) => {
                &&& users.len() > 0
                &&& is_user_of(users.last(), rows.last(), owner)
                &&& are_users_of(users.drop_last(), rows.drop_last(), owners)
            },
            None => are_users_of(users, rows.drop_last(), owners),
        }
    }
}

proof fn lemma_owner_is_last(owners: Seq<Owner>, id: Seq<char>, i: int)
    requires
        0 <= i < owners.len(),
        owners[i].steam_id@ == id,
        forall|j: int| i < j < owners.len() ==> (#[trigger] owners[j]).steam_id@ != id,
    ensures
        owner_of(owners, id) == Some(owners[i]),
    decreases owners.len(),
{
    if i < owners.len() - 1 {
        assert(owners[owners.len() - 1].steam_id@ != id);
        let t = owners.drop_last();
        assert forall|j: int| i < j < t.len() implies (#[trigger] t[j]).steam_id@ != id by {
            assert(t[j] == owners[j]);
        }
        lemma_owner_is_last(t, id, i);
    }
}

proof fn lemma_no_owner(owners: Seq<Owner>, id: Seq<char>)
    requires
        forall|j: int| 0 <= j < owners.len() ==> (#[trigger] owners[j]).steam_id@ != id,
    ensures
        owner_of(owners, id) is None,
    decreases owners.len(),
{
    if owners.len() > 0 {
        assert(owners[owners.len() - 1].steam_id@ != id);
        let t = owners.drop_last();
        assert forall|j: int| 0 <= j < t.len() implies (#[trigger] t[j]).steam_id@ != id by {
            assert(t[j] == owners[j]);
        }
        lemma_no_owner(t, id);
    }
}

fn find_owner<'a>(owners: &'a Vec<Owner>, steam_id: &String) -> (r: Option<&'a Owner>)
    ensures
        match r {
            Some(o) => owner_of(owners@, steam_id@) == Some(*o),
            None => owner_of(owners@, steam_id@) is None,
        },
{
    let n: usize = owners.len();
    let mut i: usize = n;
    while 0 < i
        invariant
            i <= n == owners@.len(),
            forall|j: int| i <= j < n ==> (#[trigger] owners@[j]).steam_id@ != steam_id@,
        decreases i,
    {
        i -= 1;
        if text::same(owners[i].steam_id.as_str(), steam_id.as_str()) {
            proof {
                lemma_owner_is_last(owners@, steam_id@, i as int);
            }
            return Some(&owners[i]);
        }
    }
    proof {
        lemma_no_owner(owners@, steam_id@);
    }
    None
}

/// The players of the claimed rows, in order.
pub fn join_owners(rows: &Vec<Claimed>, owners: &Vec<Owner>) -> (r: Vec<BatchUser>)
    ensures
        are_users_of(r@, rows@, owners@),
        r@.len() <= rows@.len(),
{
    let mut users: Vec<BatchUser> = Vec::new();
    let n: usize = rows.len();
    let mut i: usize = 0;
    while i < n
        invariant
            i <= n == rows@.len(),
            users@.len() <= i,
            are_users_of(users@, rows@.take(i as int), owners@),
        decreases n - i,
    {
        let ghost before = users@;
        proof {
            assert(rows@.take(i + 1).drop_last() =~= rows@.take(i as int));
            assert(rows@.take(i + 1).last() == rows@[i as int]);
        }
        if let Some(o) = find_owner(owners, &rows[i].steam_id) {
            users.push(
                BatchUser {
                    steam_id: rows[i].steam_id.clone(),
                    discord_id: o.discord_id.clone(),
                    linked_at: o.linked_at,
                    is_active: o.is_active,
                    prev_streak: rows[i].prev_streak,
                    prev_hash: rows[i].prev_hash.clone(),
                    prev_vac_banned: rows[i].prev_vac_banned,
                    prev_game_banned: rows[i].prev_game_banned,
                    prev_country: rows[i].prev_country.clone(),
                },
            );
            assert(users@.drop_last() =~= before);
        }
        i += 1;
    }
    assert(rows@.take(n as int) =~= rows@);
    users
}

/// What was fetched for all players of a batch: profiles and bans by id, and the guilds in which
/// each player holds a role, by Discord id.
pub struct BatchData {
    pub users: Vec<BatchUser>,
    pub profiles: Lookup<String, PlayerSummary>,
    pub bans: Lookup<String, PlayerBan>,
    pub guilds: Lookup<String, TextSet>,
}

/// How far a batch has come.
pub enum BatchRefresh {
    NeedClaim,
    NeedOwners { claimed: Vec<Claimed> },
    /// The profiles of the players from `from` on are missing. `ids` are those of all claimed rows.
    NeedSummaries { data: BatchData, ids: Vec<String>, from: usize },
    /// The bans of the players from `from` on are missing.
    NeedBans { data: BatchData, ids: Vec<String>, from: usize },
    NeedAssignments { data: BatchData },
    NeedBase { data: BatchData },
    /// The player at this place is being refreshed.
    Refreshing { data: BatchData, base_interval: i64, at: usize },
    /// Whether rows were claimed.
    Finished { worked: bool },
}

/// What a batch is told.
pub enum BatchInput {
    /// The claimed rows, unless the claim failed.
    Claimed(Option<Vec<Claimed>>),
    Owners(Vec<Owner>),
    Summaries(Result<Vec<PlayerSummary>, AppError>),
    Bans(Result<Vec<PlayerBan>, AppError>),
    /// Discord ids with the guilds in which they hold a role.
    Assignments(Vec<(String, String)>),
    BaseInterval(i64),
    Refreshed(Result<(), AppError>),
}

/// What a batch does at once.
pub enum BatchEffect {
    Nothing,
    /// Sleep for so many seconds.
    Nap(u64),
    /// Put the rows off past the retry point, each by a little more or less, then sleep for the
    /// pause.
    Requeue { ids: Vec<String>, retry_after_secs: u64, pause_secs: u64 },
    /// Put the rows off for longer with every failure.
    Backoff(Vec<String>),
}

/// What a batch asks for.
pub enum BatchCommand {
    ReadOwners(Vec<String>),
    FetchSummaries { ids: Vec<String>, class: Class },
    FetchBans { ids: Vec<String>, class: Class },
    ReadAssignments(Vec<String>),
    SizeBaseInterval,
    /// Refresh the player at this place.
    Refresh(usize),
    Stop,
}

/// The end of the chunk that starts at a place.
pub open spec fn chunk_end(from: int, total: int) -> int {
    if from + SUMMARY_BATCH_MAX < total {
        from + SUMMARY_BATCH_MAX
    } else {
        total
    }
}

/// The profiles by id, with those of a list; of two with one id the later counts.
pub open spec fn with_profiles(
    m: Map<Seq<char>, PlayerSummary>,
    list: Seq<PlayerSummary>,
) -> Map<Seq<char>, PlayerSummary>
    decreases list.len(),
{
    if list.len() == 0 {
        m
    } else {
        with_profiles(m.insert(list[0].steamid@, list[0]), list.drop_first())
    }
}

/// The bans by id, with those of a list; of two with one id the later counts.
pub open spec fn with_bans(
    m: Map<Seq<char>, PlayerBan>,
    list: Seq<PlayerBan>,
) -> Map<Seq<char>, PlayerBan>
    decreases list.len(),
{
    if list.len() == 0 {
        m
    } else {
        with_bans(m.insert(list[0].steam_id@, list[0]), list.drop_first())
    }
}

/// The guilds in which a Discord user holds a role.
pub open spec fn assigned_guilds(rows: Seq<(String, String)>, discord_id: Seq<char>) -> Set<
    Seq<char>,
> {
    Set::new(
        |g: Seq<char>|
            exists|i: int| 0 <= i < rows.len() && (#[trigger] rows[i])@ == (discord_id, g),
    )
}

/// From which pool the calls for the whole batch are paid.
pub open spec fn batch_class(interactive_only: bool) -> Class {
    if interactive_only {
        Class::Interactive
    } else {
        Class::Background
    }
}

/// Asks for the players of a chunk.
pub open spec fn chunk_ids(data: BatchData, from: int) -> Seq<Seq<char>> {
    user_ids(data.users@).subrange(from, chunk_end(from, data.users@.len() as int))
}

/// The batch ends, rows having been claimed.
pub open spec fn ends(next: BatchRefresh, command: BatchCommand) -> bool {
    next == (BatchRefresh::Finished { worked: true }) && command is Stop
}

/// The rows wait past the retry point, and the worker pauses.
pub open spec fn requeues(effect: BatchEffect, ids: Seq<Seq<char>>, secs: u64) -> bool {
    &&& effect matches BatchEffect::Requeue { ids: put_off, retry_after_secs, pause_secs }
    &&& text::texts(put_off@) == ids
    &&& retry_after_secs == secs
    &&& pause_secs == refresh_worker::clamped(
        secs as int,
        refresh_worker::IDLE_SLEEP_SECS as int,
        refresh_worker::MAX_PAUSE_SECS as int,
    )
}

/// The rows wait for longer with every failure.
pub open spec fn backs_off(effect: BatchEffect, ids: Seq<Seq<char>>) -> bool {
    effect matches BatchEffect::Backoff(put_off) && text::texts(put_off@) == ids
}

/// Goes on to the profiles of the chunk that starts at a place, or past them.
pub open spec fn to_chunk(
    scoped: bool,
    interactive_only: bool,
    data: BatchData,
    ids: Vec<String>,
    from: int,
    next: BatchRefresh,
    command: BatchCommand,
) -> bool {
    if from < data.users@.len() {
        &&& next matches BatchRefresh::NeedSummaries { data: data2, ids: ids2, from: from2 }
        &&& data2 == data && ids2 == ids && from2 == from
        &&& command matches BatchCommand::FetchSummaries { ids: asked, class }
        &&& text::texts(asked@) == chunk_ids(data, from)
        &&& class == batch_class(interactive_only)
    } else if scoped {
        &&& next == (BatchRefresh::NeedAssignments { data })
        &&& command matches BatchCommand::ReadAssignments(asked)
        &&& text::texts(asked@) == user_discord_ids(data.users@)
    } else {
        next == (BatchRefresh::NeedBase { data }) && command is SizeBaseInterval
    }
}

/// Goes on to the player at a place, or ends.
pub open spec fn to_user(
    data: BatchData,
    base_interval: i64,
    at: int,
    next: BatchRefresh,
    command: BatchCommand,
) -> bool {
    if at < data.users@.len() {
        &&& next matches BatchRefresh::Refreshing { data: data2, base_interval: base2, at: at2 }
        &&& data2 == data && base2 == base_interval && at2 == at
        &&& command matches BatchCommand::Refresh(place) && place == at
    } else {
        ends(next, command)
    }
}

/// Where a batch goes from a state with an input, what it does at once, and what it asks for then.
pub open spec fn batch_moves(
    scoped: bool,
    interactive_only: bool,
    state: BatchRefresh,
    input: BatchInput,
    next: BatchRefresh,
    effect: BatchEffect,
    command: BatchCommand,
) -> bool {
    match (state, input) {
        (BatchRefresh::NeedClaim, BatchInput::Claimed(rows)) => match rows {
            None => effect == BatchEffect::Nap(CLAIM_RETRY_SECS) && ends(next, command),
            Some(list) => if list@.len() == 0 {
                &&& effect is Nothing
                &&& next == (BatchRefresh::Finished { worked: false })
                &&& command is Stop
            } else {
                &&& effect is Nothing
                &&& next == (BatchRefresh::NeedOwners { claimed: list })
                &&& command matches BatchCommand::ReadOwners(asked)
                &&& text::texts(asked@) == claimed_ids(list@)
            },
        },
        (BatchRefresh::NeedOwners { claimed }, BatchInput::Owners(owners)) => {
            &&& effect is Nothing
            &&& {
                ||| {
                    &&& are_users_of(Seq::empty(), claimed@, owners@)
                    &&& ends(next, command)
                }
                ||| {
                    &&& next matches BatchRefresh::NeedSummaries { data, ids, from }
                    &&& data.users@.len() > 0
                    &&& are_users_of(data.users@, claimed@, owners@)
                    &&& data.profiles@ == Map::<Seq<char>, PlayerSummary>::empty()
                    &&& data.bans@ == Map::<Seq<char>, PlayerBan>::empty()
                    &&& data.guilds@ == Map::<Seq<char>, TextSet>::empty()
                    &&& text::texts(ids@) == claimed_ids(claimed@)
                    &&& to_chunk(scoped, interactive_only, data, ids, 0, next, command)
                }
            }
        },
        (BatchRefresh::NeedSummaries { data, ids, from }, BatchInput::Summaries(outcome)) =>
        match outcome {
            Ok(list) => {
                &&& effect is Nothing
                &&& next matches BatchRefresh::NeedBans { data: data2, ids: ids2, from: from2 }
                &&& data2.users == data.users && data2.bans == data.bans && data2.guilds
                    == data.guilds
                &&& data2.profiles@ == with_profiles(data.profiles@, list@)
                &&& ids2 == ids && from2 == from
                &&& command matches BatchCommand::FetchBans { ids: asked, class }
                &&& text::texts(asked@) == chunk_ids(data, from as int)
                &&& class == batch_class(interactive_only)
            },
            Err(AppError::QuotaExhausted { retry_after_secs }) => requeues(
                effect,
                text::texts(ids@),
                retry_after_secs,
            ) && ends(next, command),
            Err(_) => backs_off(effect, text::texts(ids@)) && ends(next, command),
        },
        (BatchRefresh::NeedBans { data, ids, from }, BatchInput::Bans(outcome)) => match outcome {
            Ok(list) => {
                &&& effect is Nothing
                &&& exists|data2: BatchData|
                    {
                        &&& data2.users == data.users
                        &&& data2.profiles == data.profiles
                        &&& data2.guilds == data.guilds
                        &&& data2.bans@ == with_bans(data.bans@, list@)
                        &&& #[trigger] to_chunk(
                            scoped,
                            interactive_only,
                            data2,
                            ids,
                            chunk_end(from as int, data.users@.len() as int),
                            next,
                            command,
                        )
                    }
            },
            Err(AppError::QuotaExhausted { retry_after_secs }) => requeues(
                effect,
                text::texts(ids@),
                retry_after_secs,
            ) && ends(next, command),
            Err(_) => backs_off(effect, text::texts(ids@)) && ends(next, command),
        },
        (BatchRefresh::NeedAssignments { data }, BatchInput::Assignments(rows)) => {
            &&& effect is Nothing
            &&& next matches BatchRefresh::NeedBase { data: data2 }
            &&& data2.users == data.users && data2.profiles == data.profiles && data2.bans
                == data.bans
            &&& forall|d: Seq<char>| #[trigger]
                lookup::members_at(data2.guilds@, d) == lookup::members_at(data.guilds@, d).union(
                    assigned_guilds(rows@, d),
                )
            &&& command is SizeBaseInterval
        },
        (BatchRefresh::NeedBase { data }, BatchInput::BaseInterval(base)) => effect is Nothing
            && to_user(data, base, 0, next, command),
        (BatchRefresh::Refreshing { data, base_interval, at }, BatchInput::Refreshed(outcome)) =>
        match outcome {
            Ok(_) => effect is Nothing && to_user(data, base_interval, at + 1, next, command),
            // The budget ran out mid-batch: this player and everyone not reached yet wait.
            Err(AppError::QuotaExhausted { retry_after_secs }) => requeues(
                effect,
                user_ids(data.users@).subrange(at as int, data.users@.len() as int),
                retry_after_secs,
            ) && ends(next, command),
            Err(_) => backs_off(effect, seq![data.users@[at as int].steam_id@]) && to_user(
                data,
                base_interval,
                at + 1,
                next,
                command,
            ),
        },
        _ => false,
    }
}

impl BatchRefresh {
    /// Places lie in the list of players.
    pub open spec fn wf(self) -> bool {
        match self {
            BatchRefresh::NeedSummaries { data, from, .. } => from < data.users@.len(),
            BatchRefresh::NeedBans { data, from, .. } => from < data.users@.len(),
            BatchRefresh::Refreshing { data, at, .. } => at < data.users@.len(),
            _ => true,
        }
    }

    /// Is this what the batch has asked for?
    pub open spec fn awaits(self, input: BatchInput) -> bool {
        match input {
            BatchInput::Claimed(_) => self is NeedClaim,
            BatchInput::Owners(_) => self is NeedOwners,
            BatchInput::Summaries(_) => self is NeedSummaries,
            BatchInput::Bans(_) => self is NeedBans,
            BatchInput::Assignments(_) => self is NeedAssignments,
            BatchInput::BaseInterval(_) => self is NeedBase,
            BatchInput::Refreshed(_) => self is Refreshing,
        }
    }
}

fn class_for(interactive_only: bool) -> (r: Class)
    ensures
        r == batch_class(interactive_only),
{
    if interactive_only {
        Class::Interactive
    } else {
        Class::Background
    }
}

fn copy_claimed_ids(rows: &Vec<Claimed>) -> (r: Vec<String>)
    ensures
        text::texts(r@) == claimed_ids(rows@),
{
    let mut r: Vec<String> = Vec::new();
    let n: usize = rows.len();
    let mut i: usize = 0;
    while i < n
        invariant
            i <= n == rows@.len(),
            text::texts(r@) == claimed_ids(rows@).take(i as int),
        decreases n - i,
    {
        let ghost before = r@;
        r.push(rows[i].steam_id.clone());
        proof {
            assert(text::texts(r@) =~= text::texts(before).push(rows@[i as int].steam_id@));
            assert(claimed_ids(rows@).take(i + 1) =~= claimed_ids(rows@).take(i as int).push(
                rows@[i as int].steam_id@,
            ));
        }
        i += 1;
    }
    assert(claimed_ids(rows@).take(n as int) =~= claimed_ids(rows@));
    r
}

fn copy_user_ids(users: &Vec<BatchUser>, from: usize, to: usize) -> (r: Vec<String>)
    requires
        from <= to <= users@.len(),
    ensures
        text::texts(r@) == user_ids(users@).subrange(from as int, to as int),
{
    let mut r: Vec<String> = Vec::new();
    let ghost all = user_ids(users@);
    let mut i: usize = from;
    assert(text::texts(r@) =~= all.subrange(from as int, from as int));
    while i < to
        invariant
            from <= i <= to <= users@.len(),
            all == user_ids(users@),
            text::texts(r@) == all.subrange(from as int, i as int),
        decreases to - i,
    {
        let ghost before = r@;
        r.push(users[i].steam_id.clone());
        proof {
            assert(text::texts(r@) =~= text::texts(before).push(users@[i as int].steam_id@));
            assert(all.subrange(from as int, i + 1) =~= all.subrange(from as int, i as int).push(
                all[i as int],
            ));
        }
        i += 1;
    }
    r
}

fn copy_discord_ids(users: &Vec<BatchUser>) -> (r: Vec<String>)
    ensures
        text::texts(r@) == user_discord_ids(users@),
{
    let mut r: Vec<String> = Vec::new();
    let ghost all = user_discord_ids(users@);
    let n: usize = users.len();
    let mut i: usize = 0;
    while i < n
        invariant
            i <= n == users@.len(),
            all == user_discord_ids(users@),
            text::texts(r@) == all.take(i as int),
        decreases n - i,
    {
        let ghost before = r@;
        r.push(users[i].discord_id.clone());
        proof {
            assert(text::texts(r@) =~= text::texts(before).push(users@[i as int].discord_id@));
            assert(all.take(i + 1) =~= all.take(i as int).push(all[i as int]));
        }
        i += 1;
    }
    assert(all.take(n as int) =~= all);
    r
}

fn end_of_chunk(from: usize, total: usize) -> (r: usize)
    requires
        from <= total,
    ensures
        r == chunk_end(from as int, total as int),
        from <= r <= total,
        from < total ==> from < r,
{
    if total - from > SUMMARY_BATCH_MAX {
        from + SUMMARY_BATCH_MAX
    } else {
        total
    }
}

fn go_to_chunk(
    scoped: bool,
    interactive_only: bool,
    data: BatchData,
    ids: Vec<String>,
    from: usize,
) -> (r: (BatchRefresh, BatchCommand))
    requires
        from <= data.users@.len(),
    ensures
        to_chunk(scoped, interactive_only, data, ids, from as int, r.0, r.1),
        r.0.wf(),
{
    let total: usize = data.users.len();
    if from < total {
        let to: usize = end_of_chunk(from, total);
        let command = BatchCommand::FetchSummaries {
            ids: copy_user_ids(&data.users, from, to),
            class: class_for(interactive_only),
        };
        (BatchRefresh::NeedSummaries { data, ids, from }, command)
    } else if scoped {
        let command = BatchCommand::ReadAssignments(copy_discord_ids(&data.users));
        (BatchRefresh::NeedAssignments { data }, command)
    } else {
        (BatchRefresh::NeedBase { data }, BatchCommand::SizeBaseInterval)
    }
}

fn go_to_user(data: BatchData, base_interval: i64, at: usize) -> (r: (BatchRefresh, BatchCommand))
    requires
        at <= data.users@.len(),
    ensures
        to_user(data, base_interval, at as int, r.0, r.1),
        r.0.wf(),
{
    if at < data.users.len() {
        (BatchRefresh::Refreshing { data, base_interval, at }, BatchCommand::Refresh(at))
    } else {
        (BatchRefresh::Finished { worked: true }, BatchCommand::Stop)
    }
}

fn requeue(ids: Vec<String>, retry_after_secs: u64) -> (r: BatchEffect)
    ensures
        requeues(r, text::texts(ids@), retry_after_secs),
{
    BatchEffect::Requeue {
        ids,
        retry_after_secs,
        pause_secs: refresh_worker::pause_secs(retry_after_secs),
    }
}

fn add_profiles(
    mut m: Lookup<String, PlayerSummary>,
    mut list: Vec<PlayerSummary>,
) -> (r: Lookup<String, PlayerSummary>)
    ensures
        r@ == with_profiles(m@, list@),
{
    let ghost start = m@;
    let ghost all = list@;
    while list.len() > 0
        invariant
            with_profiles(m@, list@) == with_profiles(start, all),
        decreases list@.len(),
    {
        let ghost before = list@;
        let p = list.remove(0);
        proof {
            assert(list@ =~= before.drop_first());
        }
        m.insert(p.steamid.clone(), p);
    }
    m
}

fn add_bans(mut m: Lookup<String, PlayerBan>, mut list: Vec<PlayerBan>) -> (r: Lookup<
    String,
    PlayerBan,
>)
    ensures
        r@ == with_bans(m@, list@),
{
    let ghost start = m@;
    let ghost all = list@;
    while list.len() > 0
        invariant
            with_bans(m@, list@) == with_bans(start, all),
        decreases list@.len(),
    {
        let ghost before = list@;
        let b = list.remove(0);
        proof {
            assert(list@ =~= before.drop_first());
        }
        m.insert(b.steam_id.clone(), b);
    }
    m
}

fn add_guilds(mut m: Lookup<String, TextSet>, rows: &Vec<(String, String)>) -> (r: Lookup<
    String,
    TextSet,
>)
    ensures
        forall|d: Seq<char>| #[trigger]
            lookup::members_at(r@, d) == lookup::members_at(m@, d).union(
                assigned_guilds(rows@, d),
            ),
{
    let ghost start = m@;
    let n: usize = rows.len();
    let mut i: usize = 0;
    proof {
        assert forall|d: Seq<char>| #[trigger]
            lookup::members_at(m@, d) == lookup::members_at(start, d).union(
                assigned_guilds(rows@.take(0), d),
            ) by {
            assert(lookup::members_at(start, d).union(assigned_guilds(rows@.take(0), d))
                =~= lookup::members_at(start, d));
        }
    }
    while i < n
        invariant
            i <= n == rows@.len(),
            forall|d: Seq<char>| #[trigger]
                lookup::members_at(m@, d) == lookup::members_at(start, d).union(
                    assigned_guilds(rows@.take(i as int), d),
                ),
        decreases n - i,
    {
        let ghost before = m@;
        m.add_member(rows[i].0.clone(), rows[i].1.clone());
        proof {
            let row = rows@[i as int];
            assert forall|d: Seq<char>| #[trigger]
                lookup::members_at(m@, d) == lookup::members_at(start, d).union(
                    assigned_guilds(rows@.take(i + 1), d),
                ) by {
                let shorter = rows@.take(i as int);
                let longer = rows@.take(i + 1);
                assert(longer[i as int] == row);
                assert(row@ == (row.0@, row.1@));
                assert forall|g: Seq<char>| assigned_guilds(shorter, d).contains(g) implies
                    assigned_guilds(longer, d).contains(g) by {
                    let k = choose|k: int|
                        0 <= k < shorter.len() && (#[trigger] shorter[k])@ == (d, g);
                    assert(longer[k] == shorter[k]);
                }
                assert forall|g: Seq<char>| assigned_guilds(longer, d).contains(g) implies
                    assigned_guilds(shorter, d).contains(g) || (row.0@ == d && row.1@ == g) by {
                    let k = choose|k: int|
                        0 <= k < longer.len() && (#[trigger] longer[k])@ == (d, g);
                    if k < i {
                        assert(shorter[k] == longer[k]);
                    }
                }
                if row.0@ == d {
                    assert(assigned_guilds(longer, d).contains(row.1@));
                }
                assert(lookup::members_at(before, d) == lookup::members_at(start, d).union(
                    assigned_guilds(shorter, d),
                ));
                assert(lookup::members_at(m@, d) =~= lookup::members_at(start, d).union(
                    assigned_guilds(longer, d),
                ));
            }
        }
        i += 1;
    }
    assert(rows@.take(n as int) =~= rows@);
    m
}

/// Claim and refresh one batch of due users: takes what was asked for and says what to do at once
/// and what to do next. At the end, `worked` is true if any rows were
/// claimed (whether or not every user succeeded), so the caller keeps
/// cycling; false means nothing was due.
///
/// `interactive_only` restricts claims to user-initiated rows (fresh links /
/// Re-checks) and serves them from the interactive reserve —
/// used when the background budget is spent for the day. `scoped` says whether the guilds of the
/// players matter.
pub fn process_batch(
    scoped: bool,
    interactive_only: bool,
    state: BatchRefresh,
    input: BatchInput,
) -> (r: (BatchRefresh, BatchEffect, BatchCommand))
    requires
        state.wf(),
        state.awaits(input),
    ensures
        batch_moves(scoped, interactive_only, state, input, r.0, r.1, r.2),
        r.0.wf(),
{
    match (state, input) {
        (BatchRefresh::NeedClaim, BatchInput::Claimed(rows)) => match rows {
            None => (
                BatchRefresh::Finished { worked: true },
                BatchEffect::Nap(CLAIM_RETRY_SECS),
                BatchCommand::Stop,
            ),
            Some(list) => {
                if list.len() == 0 {
                    (
                        BatchRefresh::Finished { worked: false },
                        BatchEffect::Nothing,
                        BatchCommand::Stop,
                    )
                } else {
                    let command = BatchCommand::ReadOwners(copy_claimed_ids(&list));
                    (BatchRefresh::NeedOwners { claimed: list }, BatchEffect::Nothing, command)
                }
            },
        },
        (BatchRefresh::NeedOwners { claimed }, BatchInput::Owners(owners)) => {
            let users = join_owners(&claimed, &owners);
            if users.len() == 0 {
                assert(users@ =~= Seq::<BatchUser>::empty());
                return (
                    BatchRefresh::Finished { worked: true },
                    BatchEffect::Nothing,
                    BatchCommand::Stop,
                );
            }
            let data = BatchData {
                users,
                profiles: Lookup::new(),
                bans: Lookup::new(),
                guilds: Lookup::new(),
            };
            let ids = copy_claimed_ids(&claimed);
            let (next, command) = go_to_chunk(scoped, interactive_only, data, ids, 0);
            (next, BatchEffect::Nothing, command)
        },
        (BatchRefresh::NeedSummaries { data, ids, from }, BatchInput::Summaries(outcome)) =>
        match outcome {
            Ok(list) => {
                let to: usize = end_of_chunk(from, data.users.len());
                let command = BatchCommand::FetchBans {
                    ids: copy_user_ids(&data.users, from, to),
                    class: class_for(interactive_only),
                };
                let data = BatchData {
                    users: data.users,
                    profiles: add_profiles(data.profiles, list),
                    bans: data.bans,
                    guilds: data.guilds,
                };
                (BatchRefresh::NeedBans { data, ids, from }, BatchEffect::Nothing, command)
            },
            Err(AppError::QuotaExhausted { retry_after_secs }) => (
                BatchRefresh::Finished { worked: true },
                requeue(ids, retry_after_secs),
                BatchCommand::Stop,
            ),
            Err(_) => (
                BatchRefresh::Finished { worked: true },
                BatchEffect::Backoff(ids),
                BatchCommand::Stop,
            ),
        },
        (BatchRefresh::NeedBans { data, ids, from }, BatchInput::Bans(outcome)) => match outcome {
            Ok(list) => {
                let to: usize = end_of_chunk(from, data.users.len());
                let data = BatchData {
                    users: data.users,
                    profiles: data.profiles,
                    bans: add_bans(data.bans, list),
                    guilds: data.guilds,
                };
                let (next, command) = go_to_chunk(scoped, interactive_only, data, ids, to);
                (next, BatchEffect::Nothing, command)
            },
            Err(AppError::QuotaExhausted { retry_after_secs }) => (
                BatchRefresh::Finished { worked: true },
                requeue(ids, retry_after_secs),
                BatchCommand::Stop,
            ),
            Err(_) => (
                BatchRefresh::Finished { worked: true },
                BatchEffect::Backoff(ids),
                BatchCommand::Stop,
            ),
        },
        (BatchRefresh::NeedAssignments { data }, BatchInput::Assignments(rows)) => {
            let data = BatchData {
                users: data.users,
                profiles: data.profiles,
                bans: data.bans,
                guilds: add_guilds(data.guilds, &rows),
            };
            (
                BatchRefresh::NeedBase { data },
                BatchEffect::Nothing,
                BatchCommand::SizeBaseInterval,
            )
        },
        (BatchRefresh::NeedBase { data }, BatchInput::BaseInterval(base)) => {
            let (next, command) = go_to_user(data, base, 0);
            (next, BatchEffect::Nothing, command)
        },
        (BatchRefresh::Refreshing { data, base_interval, at }, BatchInput::Refreshed(outcome)) => {
            let total: usize = data.users.len();
            match outcome {
                Ok(_) => {
                    let (next, command) = go_to_user(data, base_interval, at + 1);
                    (next, BatchEffect::Nothing, command)
                },
                Err(AppError::QuotaExhausted { retry_after_secs }) => {
                    let rest = copy_user_ids(&data.users, at, total);
                    (
                        BatchRefresh::Finished { worked: true },
                        requeue(rest, retry_after_secs),
                        BatchCommand::Stop,
                    )
                },
                Err(_) => {
                    let one = copy_user_ids(&data.users, at, at + 1);
                    assert(text::texts(one@) =~= seq![data.users@[at as int].steam_id@]);
                    let (next, command) = go_to_user(data, base_interval, at + 1);
                    (next, BatchEffect::Backoff(one), command)
                },
            }
        },
        (state, _) => {
            assert(false);
            (state, BatchEffect::Nothing, BatchCommand::Stop)
        },
    }
}

// ── What holds of every batch ──────────────────────────────────────────────

/// No request names more players than Steam takes at once, and each request but the last names as
/// many as that, so every player is asked for.
pub proof fn law_requests_are_full_batches(data: BatchData, from: int)
    requires
        0 <= from < data.users@.len(),
    ensures
        0 < chunk_ids(data, from).len() <= SUMMARY_BATCH_MAX,
        chunk_ids(data, from).len() == SUMMARY_BATCH_MAX || chunk_end(
            from,
            data.users@.len() as int,
        ) == data.users@.len(),
        chunk_ids(data, from) + user_ids(data.users@).subrange(
            chunk_end(from, data.users@.len() as int),
            data.users@.len() as int,
        ) == user_ids(data.users@).subrange(from, data.users@.len() as int),
{
    let all = user_ids(data.users@);
    let to = chunk_end(from, data.users@.len() as int);
    assert(all.subrange(from, to) + all.subrange(to, all.len() as int) =~= all.subrange(
        from,
        all.len() as int,
    ));
}

/// Only claimed rows become players of a batch.
pub proof fn law_players_are_claimed(
    users: Seq<BatchUser>,
    rows: Seq<Claimed>,
    owners: Seq<Owner>,
    i: int,
)
    requires
        are_users_of(users, rows, owners),
        0 <= i < users.len(),
    ensures
        claimed_ids(rows).contains(users[i].steam_id@),
    decreases rows.len(),
{
    if rows.len() > 0 {
        let rest = rows.drop_last();
        let ids = claimed_ids(rows);
        match owner_of(owners, rows.last().steam_id@) {
            Some(_) => {
                if i == users.len() - 1 {
                    assert(ids[rows.len() - 1] == users[i].steam_id@);
                } else {
                    law_players_are_claimed(users.drop_last(), rest, owners, i);
                    let k = choose|k: int|
                        0 <= k < claimed_ids(rest).len() && claimed_ids(rest)[k]
                            == users[i].steam_id@;
                    assert(ids[k] == users[i].steam_id@);
                }
            },
            None => {
                law_players_are_claimed(users, rest, owners, i);
                let k = choose|k: int|
                    0 <= k < claimed_ids(rest).len() && claimed_ids(rest)[k]
                        == users[i].steam_id@;
                assert(ids[k] == users[i].steam_id@);
            },
        }
    }
}

/// When a player's refresh fails for another reason than the budget, that player alone waits, and
/// the batch goes on.
pub proof fn law_one_failure_stops_no_batch(
    scoped: bool,
    interactive_only: bool,
    data: BatchData,
    base_interval: i64,
    at: usize,
    e: AppError,
    next: BatchRefresh,
    effect: BatchEffect,
    command: BatchCommand,
)
    requires
        at + 1 < data.users@.len(),
        !(e is QuotaExhausted),
        batch_moves(
            scoped,
            interactive_only,
            BatchRefresh::Refreshing { data, base_interval, at },
            BatchInput::Refreshed(Err(e)),
            next,
            effect,
            command,
        ),
    ensures
        backs_off(effect, seq![data.users@[at as int].steam_id@]),
        command is Refresh && command->Refresh_0 == at + 1,
{
}

/// When the budget is spent, nobody is forgotten and nothing is asked for any more: before the
/// first refresh every claimed row waits, and after it the player at hand and everyone not reached
/// yet.
pub proof fn law_spent_budget_requeues_everyone_left(
    scoped: bool,
    interactive_only: bool,
    state: BatchRefresh,
    input: BatchInput,
    retry_after_secs: u64,
    next: BatchRefresh,
    effect: BatchEffect,
    command: BatchCommand,
)
    requires
        state.awaits(input),
        batch_moves(scoped, interactive_only, state, input, next, effect, command),
        input == BatchInput::Summaries(Err(AppError::QuotaExhausted { retry_after_secs })) || input
            == BatchInput::Bans(Err(AppError::QuotaExhausted { retry_after_secs })) || input
            == BatchInput::Refreshed(Err(AppError::QuotaExhausted { retry_after_secs })),
    ensures
        ends(next, command),
        match state {
            BatchRefresh::NeedSummaries { ids, .. } => requeues(
                effect,
                text::texts(ids@),
                retry_after_secs,
            ),
            BatchRefresh::NeedBans { ids, .. } => requeues(
                effect,
                text::texts(ids@),
                retry_after_secs,
            ),
            BatchRefresh::Refreshing { data, at, .. } => requeues(
                effect,
                user_ids(data.users@).subrange(at as int, data.users@.len() as int),
                retry_after_secs,
            ),
            _ => false,
        },
{
}

// ── What a batch is for ────────────────────────────────────────────────────

/// Every claimed row that still belongs to somebody is refreshed, for its owner and with what the
/// row says; of two owners of one id the later counts.
pub proof fn law_every_linked_row_is_refreshed(
    users: Seq<BatchUser>,
    rows: Seq<Claimed>,
    owners: Seq<Owner>,
    k: int,
    o: int,
) -> (i: int)
    requires
        are_users_of(users, rows, owners),
        0 <= k < rows.len(),
        0 <= o < owners.len(),
        owners[o].steam_id@ == rows[k].steam_id@,
        forall|j: int| o < j < owners.len() ==> (#[trigger] owners[j]).steam_id@ != rows[k].steam_id@,
    ensures
        0 <= i < users.len(),
        users[i].steam_id@ == rows[k].steam_id@,
        users[i].discord_id@ == owners[o].discord_id@,
        users[i].linked_at == owners[o].linked_at,
        users[i].is_active == owners[o].is_active,
        users[i].prev_streak == rows[k].prev_streak,
        users[i].prev_hash@ == rows[k].prev_hash@,
        users[i].prev_vac_banned == rows[k].prev_vac_banned,
        users[i].prev_game_banned == rows[k].prev_game_banned,
        users[i].prev_country@ == rows[k].prev_country@,
    decreases rows.len(),
{
    lemma_owner_is_last(owners, rows[k].steam_id@, o);
    if k == rows.len() - 1 {
        users.len() - 1
    } else {
        let rest = rows.drop_last();
        assert(rest[k] == rows[k]);
        match owner_of(owners, rows.last().steam_id@) {
            Some(_) => {
                let i = law_every_linked_row_is_refreshed(users.drop_last(), rest, owners, k, o);
                assert(users.drop_last()[i] == users[i]);
                i
            },
            None => law_every_linked_row_is_refreshed(users, rest, owners, k, o),
        }
    }
}

/// The profile of a player is the last one that Steam lists under the player's id, and the ban is
/// the last one under that id; what earlier answers said of others stays.
pub proof fn law_answers_are_kept_by_id(
    profiles: Map<Seq<char>, PlayerSummary>,
    listed: Seq<PlayerSummary>,
    bans: Map<Seq<char>, PlayerBan>,
    banned: Seq<PlayerBan>,
    id: Seq<char>,
)
    ensures
        (forall|i: int| 0 <= i < listed.len() ==> (#[trigger] listed[i]).steamid@ != id)
            ==> with_profiles(profiles, listed).contains_key(id) == profiles.contains_key(id)
            && with_profiles(profiles, listed)[id] == profiles[id],
        forall|i: int|
            0 <= i < listed.len() && (#[trigger] listed[i]).steamid@ == id && (forall|j: int|
                i < j < listed.len() ==> (#[trigger] listed[j]).steamid@ != id)
                ==> with_profiles(profiles, listed).contains_key(id) && with_profiles(
                profiles,
                listed,
            )[id] == listed[i],
        (forall|i: int| 0 <= i < banned.len() ==> (#[trigger] banned[i]).steam_id@ != id)
            ==> with_bans(bans, banned).contains_key(id) == bans.contains_key(id) && with_bans(
            bans,
            banned,
        )[id] == bans[id],
        forall|i: int|
            0 <= i < banned.len() && (#[trigger] banned[i]).steam_id@ == id && (forall|j: int|
                i < j < banned.len() ==> (#[trigger] banned[j]).steam_id@ != id) ==> with_bans(
                bans,
                banned,
            ).contains_key(id) && with_bans(bans, banned)[id] == banned[i],
    decreases listed.len() + banned.len(),
{
    if listed.len() > 0 {
        let m = profiles.insert(listed[0].steamid@, listed[0]);
        let rest = listed.drop_first();
        law_answers_are_kept_by_id(m, rest, bans, banned, id);
        assert forall|i: int| 1 <= i < listed.len() implies #[trigger] listed[i] == rest[i - 1] by {}
        assert forall|i: int| 0 <= i < rest.len() implies #[trigger] rest[i] == listed[i + 1] by {}
        if forall|i: int| 0 <= i < listed.len() ==> (#[trigger] listed[i]).steamid@ != id {
            assert(listed[0].steamid@ != id);
        }
        assert forall|i: int|
            0 <= i < listed.len() && (#[trigger] listed[i]).steamid@ == id && (forall|j: int|
                i < j < listed.len() ==> (#[trigger] listed[j]).steamid@ != id) implies
            with_profiles(profiles, listed).contains_key(id) && with_profiles(
            profiles,
            listed,
        )[id] == listed[i] by {
            if i > 0 {
                assert(rest[i - 1] == listed[i]);
                assert forall|j: int| i - 1 < j < rest.len() implies (
                #[trigger] rest[j]).steamid@ != id by {
                    assert(rest[j] == listed[j + 1]);
                }
            } else {
                assert forall|j: int| 0 <= j < rest.len() implies (#[trigger] rest[j]).steamid@
                    != id by {
                    assert(rest[j] == listed[j + 1]);
                }
            }
        }
    } else if banned.len() > 0 {
        let m = bans.insert(banned[0].steam_id@, banned[0]);
        let rest = banned.drop_first();
        law_answers_are_kept_by_id(profiles, listed, m, rest, id);
        if forall|i: int| 0 <= i < banned.len() ==> (#[trigger] banned[i]).steam_id@ != id {
            assert(banned[0].steam_id@ != id);
            assert forall|i: int| 0 <= i < rest.len() implies (#[trigger] rest[i]).steam_id@
                != id by {
                assert(rest[i] == banned[i + 1]);
            }
        }
        assert forall|i: int|
            0 <= i < banned.len() && (#[trigger] banned[i]).steam_id@ == id && (forall|j: int|
                i < j < banned.len() ==> (#[trigger] banned[j]).steam_id@ != id) implies with_bans(
            bans,
            banned,
        ).contains_key(id) && with_bans(bans, banned)[id] == banned[i] by {
            if i > 0 {
                assert(rest[i - 1] == banned[i]);
                assert forall|j: int| i - 1 < j < rest.len() implies (
                #[trigger] rest[j]).steam_id@ != id by {
                    assert(rest[j] == banned[j + 1]);
                }
            } else {
                assert forall|j: int| 0 <= j < rest.len() implies (#[trigger] rest[j]).steam_id@
                    != id by {
                    assert(rest[j] == banned[j + 1]);
                }
            }
        }
    }
}

/// A batch of claimed rows begins with the owners of all of them. Nothing claimed means that there
/// was no work, and after a claim that failed the worker naps for a while and tries again.
pub proof fn law_a_batch_begins_with_its_owners(
    scoped: bool,
    interactive_only: bool,
    rows: Option<Vec<Claimed>>,
    next: BatchRefresh,
    effect: BatchEffect,
    command: BatchCommand,
)
    requires
        batch_moves(
            scoped,
            interactive_only,
            BatchRefresh::NeedClaim,
            BatchInput::Claimed(rows),
            next,
            effect,
            command,
        ),
    ensures
        rows is None ==> effect is Nap && command is Stop && next == (BatchRefresh::Finished {
            worked: true,
        }),
        rows matches Some(list) ==> {
            &&& effect is Nothing
            &&& list@.len() == 0 ==> command is Stop && next == (BatchRefresh::Finished {
                worked: false,
            })
            &&& list@.len() > 0 ==> {
                &&& next == (BatchRefresh::NeedOwners { claimed: list })
                &&& command matches BatchCommand::ReadOwners(asked)
                &&& asked@.len() == list@.len()
                &&& forall|i: int|
                    0 <= i < list@.len() ==> (#[trigger] asked@[i])@ == list@[i].steam_id@
            }
        },
{
    if rows is Some && rows->0@.len() > 0 {
        let asked = command->ReadOwners_0@;
        let list = rows->0@;
        assert(text::texts(asked) == claimed_ids(list));
        assert(text::texts(asked).len() == asked.len());
        assert forall|i: int| 0 <= i < list.len() implies (#[trigger] asked[i])@
            == list[i].steam_id@ by {
            assert(text::texts(asked)[i] == claimed_ids(list)[i]);
        }
    }
}

/// Profiles and bans are asked for the same players, a hundred at a time, from the first player to
/// the last: after the profiles of a chunk its bans follow, and after its bans the next chunk. What
/// is answered is kept, and all of it is paid from one pool.
pub proof fn law_profiles_and_bans_are_fetched_for_everyone(
    scoped: bool,
    interactive_only: bool,
    state: BatchRefresh,
    input: BatchInput,
    next: BatchRefresh,
    effect: BatchEffect,
    command: BatchCommand,
)
    requires
        batch_moves(scoped, interactive_only, state, input, next, effect, command),
        state.wf(),
    ensures
        input matches BatchInput::Summaries(Ok(list)) ==> {
            let data = state->NeedSummaries_data;
            let from = state->NeedSummaries_from;
            &&& next matches BatchRefresh::NeedBans { data: kept, ids, from: at }
            &&& at == from && ids == state->NeedSummaries_ids
            &&& kept.users == data.users && kept.bans == data.bans && kept.guilds == data.guilds
            &&& kept.profiles@ == with_profiles(data.profiles@, list@)
            &&& command matches BatchCommand::FetchBans { ids: asked, class }
            &&& asked@.len() == (if data.users@.len() - from > 100 {
                100
            } else {
                data.users@.len() - from
            })
            &&& forall|i: int|
                0 <= i < asked@.len() ==> (#[trigger] asked@[i])@ == data.users@[from
                    + i].steam_id@
            &&& class is Interactive <==> interactive_only
        },
        input matches BatchInput::Bans(Ok(list)) ==> {
            let data = state->NeedBans_data;
            let from = state->NeedBans_from;
            &&& data.users@.len() - from > 100 ==> {
                &&& next matches BatchRefresh::NeedSummaries { data: kept, ids, from: at }
                &&& at == from + 100 && ids == state->NeedBans_ids
                &&& kept.users == data.users && kept.profiles == data.profiles
                &&& kept.bans@ == with_bans(data.bans@, list@)
                &&& command matches BatchCommand::FetchSummaries { ids: asked, class }
                &&& forall|i: int|
                    0 <= i < asked@.len() ==> (#[trigger] asked@[i])@ == data.users@[at
                        + i].steam_id@
                &&& class is Interactive <==> interactive_only
            }
            &&& data.users@.len() - from <= 100 && scoped ==> {
                &&& next matches BatchRefresh::NeedAssignments { data: kept }
                &&& kept.users == data.users && kept.profiles == data.profiles
                &&& kept.bans@ == with_bans(data.bans@, list@)
                &&& command matches BatchCommand::ReadAssignments(asked)
                &&& asked@.len() == data.users@.len()
                &&& forall|i: int|
                    0 <= i < asked@.len() ==> (#[trigger] asked@[i])@ == data.users@[i].discord_id@
            }
            &&& data.users@.len() - from <= 100 && !scoped ==> {
                &&& next matches BatchRefresh::NeedBase { data: kept }
                &&& kept.users == data.users && kept.profiles == data.profiles
                &&& kept.bans@ == with_bans(data.bans@, list@)
                &&& command is SizeBaseInterval
            }
        },
{
    let asked = match command {
        BatchCommand::FetchBans { ids, .. } => ids@,
        BatchCommand::FetchSummaries { ids, .. } => ids@,
        BatchCommand::ReadAssignments(ids) => ids@,
        _ => Seq::empty(),
    };
    let texts = text::texts(asked);
    assert(texts.len() == asked.len());
    assert forall|i: int| 0 <= i < asked.len() implies (#[trigger] asked[i])@ == texts[i] by {}
}

/// Every player of a batch is refreshed, one after the other, with the interval that was sized for
/// the batch; the batch ends after the last one, having worked.
pub proof fn law_every_player_of_a_batch_is_refreshed(
    scoped: bool,
    interactive_only: bool,
    state: BatchRefresh,
    input: BatchInput,
    next: BatchRefresh,
    effect: BatchEffect,
    command: BatchCommand,
)
    requires
        batch_moves(scoped, interactive_only, state, input, next, effect, command),
    ensures
        input matches BatchInput::BaseInterval(base) ==> {
            let data = state->NeedBase_data;
            &&& effect is Nothing
            &&& data.users@.len() > 0 ==> command == BatchCommand::Refresh(0) && next == (
            BatchRefresh::Refreshing { data, base_interval: base, at: 0 })
        },
        input matches BatchInput::Refreshed(outcome) ==> {
            let data = state->Refreshing_data;
            let at = state->at;
            let spent = outcome is Err && outcome->Err_0 is QuotaExhausted;
            &&& outcome is Ok ==> effect is Nothing
            &&& !spent && at + 1 < data.users@.len() ==> {
                &&& command is Refresh && command->Refresh_0 == at + 1
                &&& next is Refreshing && next->Refreshing_data == data && next->at == at + 1
                &&& next->base_interval == state->base_interval
            }
            &&& !spent && at + 1 == data.users@.len() ==> {
                &&& command is Stop
                &&& next == (BatchRefresh::Finished { worked: true })
            }
        },
        input matches BatchInput::Assignments(rows) ==> {
            let data = state->NeedAssignments_data;
            &&& next matches BatchRefresh::NeedBase { data: kept }
            &&& kept.users == data.users && kept.profiles == data.profiles && kept.bans
                == data.bans
            &&& forall|d: Seq<char>, g: Seq<char>| #[trigger]
                lookup::members_at(kept.guilds@, d).contains(g) <==> lookup::members_at(
                    data.guilds@,
                    d,
                ).contains(g) || exists|i: int|
                    0 <= i < rows@.len() && (#[trigger] rows@[i]).0@ == d && rows@[i].1@ == g
            &&& command is SizeBaseInterval
        },
{
    if let BatchInput::Assignments(rows) = input {
        let before = state->NeedAssignments_data.guilds@;
        let after = next->NeedBase_data.guilds@;
        assert forall|d: Seq<char>, g: Seq<char>| #[trigger]
            lookup::members_at(after, d).contains(g) <==> lookup::members_at(before, d).contains(g)
                || exists|i: int|
                0 <= i < rows@.len() && (#[trigger] rows@[i]).0@ == d && rows@[i].1@ == g by {
            assert(lookup::members_at(after, d) == lookup::members_at(before, d).union(
                assigned_guilds(rows@, d),
            ));
            assert forall|i: int| 0 <= i < rows@.len() implies ((#[trigger] rows@[i])@ == (d, g))
                == (rows@[i].0@ == d && rows@[i].1@ == g) by {}
        }
    }
}

/// When Steam does not answer for profiles or bans for another reason than the budget, every
/// claimed row waits for longer, and the batch ends.
pub proof fn law_unanswered_batches_back_off(
    scoped: bool,
    interactive_only: bool,
    state: BatchRefresh,
    input: BatchInput,
    e: AppError,
    next: BatchRefresh,
    effect: BatchEffect,
    command: BatchCommand,
)
    requires
        batch_moves(scoped, interactive_only, state, input, next, effect, command),
        !(e is QuotaExhausted),
        input == BatchInput::Summaries(Err(e)) || input == BatchInput::Bans(Err(e)),
    ensures
        command is Stop,
        effect is Backoff,
        text::texts(effect->Backoff_0@) == match state {
            BatchRefresh::NeedSummaries { ids, .. } => text::texts(ids@),
            BatchRefresh::NeedBans { ids, .. } => text::texts(ids@),
            _ => Seq::empty(),
        },
{
}

/// A claimed row that belongs to somebody goes into the batch, which begins with the profiles of
/// its first players; nothing is known of them yet.
pub proof fn law_linked_rows_go_into_the_batch(
    scoped: bool,
    interactive_only: bool,
    claimed: Vec<Claimed>,
    owners: Vec<Owner>,
    next: BatchRefresh,
    effect: BatchEffect,
    command: BatchCommand,
    k: int,
    o: int,
) -> (i: int)
    requires
        batch_moves(
            scoped,
            interactive_only,
            BatchRefresh::NeedOwners { claimed },
            BatchInput::Owners(owners),
            next,
            effect,
            command,
        ),
        0 <= k < claimed@.len(),
        0 <= o < owners@.len(),
        owners@[o].steam_id@ == claimed@[k].steam_id@,
        forall|j: int|
            o < j < owners@.len() ==> (#[trigger] owners@[j]).steam_id@ != claimed@[k].steam_id@,
    ensures
        effect is Nothing,
        next is NeedSummaries,
        next->NeedSummaries_from == 0,
        ({
            let data = next->NeedSummaries_data;
            &&& 0 <= i < data.users@.len()
            &&& data.users@[i].steam_id@ == claimed@[k].steam_id@
            &&& data.users@[i].discord_id@ == owners@[o].discord_id@
            &&& data.users@[i].prev_hash@ == claimed@[k].prev_hash@
            &&& data.users@[i].is_active == owners@[o].is_active
            &&& !data.profiles@.contains_key(claimed@[k].steam_id@)
            &&& !data.bans@.contains_key(claimed@[k].steam_id@)
        }),
        command is FetchSummaries,
        command->FetchSummaries_class is Interactive <==> interactive_only,
        forall|j: int|
            0 <= j < command->FetchSummaries_ids@.len() ==> (
            #[trigger] command->FetchSummaries_ids@[j])@
                == next->NeedSummaries_data.users@[j].steam_id@,
        text::texts(next->NeedSummaries_ids@) == claimed_ids(claimed@),
{
    if are_users_of(Seq::empty(), claimed@, owners@) {
        let none = law_every_linked_row_is_refreshed(Seq::empty(), claimed@, owners@, k, o);
    }
    let i = law_every_linked_row_is_refreshed(
        next->NeedSummaries_data.users@,
        claimed@,
        owners@,
        k,
        o,
    );
    let asked = command->FetchSummaries_ids@;
    assert(text::texts(asked).len() == asked.len());
    assert forall|j: int| 0 <= j < asked.len() implies (#[trigger] asked[j])@
        == next->NeedSummaries_data.users@[j].steam_id@ by {
        assert(text::texts(asked)[j] == asked[j]@);
        assert(text::texts(asked)[j] == user_ids(next->NeedSummaries_data.users@)[j]);
    }
    i
}

/// When the budget is spent, the rows that were not refreshed wait for as long as the budget asks,
/// and the worker pauses as long, but not for less than five seconds nor for more than a quarter of
/// an hour. Nothing more is asked for.
pub proof fn law_a_spent_budget_puts_the_rest_off(
    scoped: bool,
    interactive_only: bool,
    state: BatchRefresh,
    input: BatchInput,
    secs: u64,
    next: BatchRefresh,
    effect: BatchEffect,
    command: BatchCommand,
)
    requires
        batch_moves(scoped, interactive_only, state, input, next, effect, command),
        input == BatchInput::Summaries(Err(AppError::QuotaExhausted { retry_after_secs: secs }))
            || input == BatchInput::Bans(Err(AppError::QuotaExhausted { retry_after_secs: secs }))
            || input == BatchInput::Refreshed(
            Err(AppError::QuotaExhausted { retry_after_secs: secs }),
        ),
    ensures
        command is Stop,
        effect matches BatchEffect::Requeue { ids, retry_after_secs, pause_secs } && {
            &&& retry_after_secs == secs
            &&& 5 <= pause_secs <= 900
            &&& 5 <= secs <= 900 ==> pause_secs == secs
            &&& secs > 900 ==> pause_secs == 900
            &&& secs < 5 ==> pause_secs == 5
            &&& state matches BatchRefresh::NeedSummaries { ids: all, .. } ==> text::texts(ids@)
                == text::texts(all@)
            &&& state matches BatchRefresh::NeedBans { ids: all, .. } ==> text::texts(ids@)
                == text::texts(all@)
            &&& state matches BatchRefresh::Refreshing { data, at, .. } ==> at
                < data.users@.len() ==> ids@.len() == data.users@.len() - at && forall|k: int|
                0 <= k < ids@.len() ==> (#[trigger] ids@[k])@ == data.users@[at + k].steam_id@
        },
{
    if let BatchEffect::Requeue { ids, retry_after_secs, pause_secs } = effect {
        assert(text::texts(ids@).len() == ids@.len());
        assert forall|k: int| 0 <= k < ids@.len() implies (#[trigger] ids@[k])@ == text::texts(
            ids@,
        )[k] by {}
    }
}

/// When rows cannot be claimed, the worker naps for five seconds and counts as busy.
pub proof fn law_a_failed_claim_is_tried_again_soon(
    scoped: bool,
    interactive_only: bool,
    next: BatchRefresh,
    effect: BatchEffect,
    command: BatchCommand,
)
    requires
        batch_moves(
            scoped,
            interactive_only,
            BatchRefresh::NeedClaim,
            BatchInput::Claimed(None),
            next,
            effect,
            command,
        ),
    ensures
        effect == BatchEffect::Nap(5),
        command is Stop,
        next == (BatchRefresh::Finished { worked: true }),
{
}

} // verus!
