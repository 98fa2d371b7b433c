//! The list of a server's players.

use vstd::prelude::*;
use crate::clock;
use crate::clock::Timestamp;
use crate::error::{AppError, Failure};
use crate::json;
use crate::json::{Doc, Value};
use crate::models::condition;
use crate::routes::pages;
use crate::routes::verification;
use crate::services::cache_docs;
use crate::text;
use crate::url;

verus! {

/// Which part of the list is asked for.
pub struct PlayersQuery {
    pub page: Option<i64>,
    pub per_page: Option<i64>,
    pub sort: Option<String>,
    pub order: Option<String>,
    pub search: Option<String>,
}

/// The column by which a list is sorted.
pub open spec fn column_of(key: Seq<char>) -> Option<Seq<char>> {
    if key == "steam_level"@ {
        Some("uc.steam_level"@)
    } else if key == "total_games_owned"@ {
        Some("uc.total_games_owned"@)
    } else if key == "country_code"@ {
        Some("uc.country_code"@)
    } else if key == "fetched_at"@ {
        Some("uc.fetched_at"@)
    } else if key == "steam_id"@ {
        Some("la.steam_id"@)
    } else if key == "steam_name"@ {
        Some("la.steam_name"@)
    } else if key == "linked_at"@ {
        Some("la.linked_at"@)
    } else {
        None
    }
}

/// The column by which a list is sorted.
pub fn sort_column(key: &str) -> (r: Option<&'static str>)
    ensures
        match r {
            Some(c) => column_of(key@) == Some(c@),
            None => column_of(key@) is None,
        },
{
    if text::same(key, "steam_level") {
        Some("uc.steam_level")
    } else if text::same(key, "total_games_owned") {
        Some("uc.total_games_owned")
    } else if text::same(key, "country_code") {
        Some("uc.country_code")
    } else if text::same(key, "fetched_at") {
        Some("uc.fetched_at")
    } else if text::same(key, "steam_id") {
        Some("la.steam_id")
    } else if text::same(key, "steam_name") {
        Some("la.steam_name")
    } else if text::same(key, "linked_at") {
        Some("la.linked_at")
    } else {
        None
    }
}

/// The parts of the player list page.
pub open spec fn players_parts() -> Seq<Seq<char>> {
    seq![pages::PLAYERS_PART_1@, pages::PLAYERS_PART_2@, pages::PLAYERS_PART_3@]
}

/// The player list page of a plugin with this base URL.
pub fn render_players_page(base_url: &str) -> (r: String)
    ensures
        r@ == text::joined(players_parts(), base_url@),
{
    let parts = vec![
        text::owned(pages::PLAYERS_PART_1),
        text::owned(pages::PLAYERS_PART_2),
        text::owned(pages::PLAYERS_PART_3),
    ];
    assert(text::texts(parts@) =~= players_parts());
    text::join(&parts, base_url)
}

// ── The gateway ────────────────────────────────────────────────────────────

/// May the gateway's reply be read? `status_text` is the status as it is shown.
pub fn gateway_status(status: u16, status_text: &str, body: &str) -> (r: Result<(), AppError>)
    ensures
        if status == 401 {
            r matches Err(e) && e@ == Failure::UnauthorizedWith(
                "Session rejected by Auth Gateway. Please re-login."@,
            )
        } else if 200 <= status < 300 {
            r is Ok
        } else {
            r matches Err(e) && e@ == Failure::Internal(
                "Auth Gateway returned "@ + status_text@ + ": "@ + body@,
            )
        },
{
    if status == 401 {
        return Err(
            AppError::UnauthorizedWith(
                text::owned("Session rejected by Auth Gateway. Please re-login."),
            ),
        );
    }
    if status < 200 || status >= 300 {
        let mut m = text::owned("Auth Gateway returned ");
        m.append(status_text);
        m.append(": ");
        m.append(body);
        return Err(AppError::Internal(m));
    }
    Ok(())
}

/// The gateway could not be asked.
pub fn gateway_unreachable(why: &str) -> (r: AppError)
    ensures
        r@ == Failure::Internal("Auth Gateway unreachable: "@ + why@),
{
    AppError::Internal(text::cat("Auth Gateway unreachable: ", why))
}

/// The gateway's reply could not be read.
pub fn gateway_unreadable(why: &str) -> (r: AppError)
    ensures
        r@ == Failure::Internal("Auth Gateway parse error: "@ + why@),
{
    AppError::Internal(text::cat("Auth Gateway parse error: ", why))
}

/// A request to the gateway in the name of the one who is signed in: where it goes, and the
/// cookie that it carries.
#[derive(Debug, PartialEq)]
pub struct SessionRequest {
    pub url: String,
    pub cookie: String,
}

/// The request for a path of the gateway with a session.
pub fn auth_gateway_get(gateway_url: &str, path_and_query: &str, session: &str) -> (r:
    SessionRequest)
    ensures
        r.url@ == gateway_url@ + path_and_query@,
        r.cookie@ == url::cookie_text("rl_session"@) + "="@ + url::cookie_text(session@),
{
    SessionRequest {
        url: text::cat(gateway_url, path_and_query),
        cookie: url::encode_cookie(verification::SESSION_COOKIE, session),
    }
}

/// Where the gateway says what the one who is signed in may do in a guild.
pub fn permission_path(guild_id: &str) -> (r: String)
    ensures
        r@ == "/auth/guild_permission?guild_id="@ + url::url_text(guild_id@),
{
    text::cat("/auth/guild_permission?guild_id=", url::encode(guild_id).as_str())
}

/// Where the gateway lists the members of a guild.
pub fn members_path(guild_id: &str) -> (r: String)
    ensures
        r@ == "/auth/guild_members?guild_id="@ + url::url_text(guild_id@),
{
    text::cat("/auth/guild_members?guild_id=", url::encode(guild_id).as_str())
}

/// Does the gateway say yes under this key?
pub open spec fn says_yes(body: Doc, key: Seq<char>) -> bool {
    body.bool_member(key) == Some(true)
}

/// Is the one who is signed in a member of the guild, and a manager?
pub fn fetch_guild_permission(body: &Value) -> (r: (bool, bool))
    ensures
        r.0 == says_yes(body@, "is_member"@),
        r.1 == says_yes(body@, "is_manager"@),
{
    let is_member = match body.get_bool("is_member") {
        Some(b) => b,
        None => false,
    };
    let is_manager = match body.get_bool("is_manager") {
        Some(b) => b,
        None => false,
    };
    (is_member, is_manager)
}

/// The texts in a list of documents.
pub open spec fn texts_in(items: Seq<Doc>) -> Seq<Seq<char>>
    decreases items.len(),
{
    if items.len() == 0 {
        Seq::empty()
    } else {
        match items.last().as_text() {
            Some(t) => texts_in(items.drop_last()).push(t),
            None => texts_in(items.drop_last()),
        }
    }
}

/// The items that an object holds under a key.
pub open spec fn items_at(body: Doc, key: Seq<char>) -> Seq<Doc> {
    match body.member(key) {
        Some(d) => d.items(),
        None => Seq::empty(),
    }
}

/// The members of the guild, and its name.
pub fn fetch_guild_members(body: &Value) -> (r: (Vec<String>, Option<String>))
    ensures
        text::texts(r.0@) == texts_in(items_at(body@, "discord_ids"@)),
        condition::text_of(r.1) == body@.text_member("guild_name"@),
{
    broadcast use crate::json::lemma_array_view;

    let guild_name = match body.get_text("guild_name") {
        Some(s) => Some(text::owned(s)),
        None => None,
    };
    let mut ids: Vec<String> = Vec::new();
    let ghost all = items_at(body@, "discord_ids"@);
    assert(text::texts(ids@) =~= texts_in(all.take(0)));
    if let Some(Value::Array(items)) = body.get("discord_ids") {
        let n: usize = items.len();
        let mut i: usize = 0;
        while i < n
            invariant
                i <= n == items@.len(),
                all == json::docs(items@),
                text::texts(ids@) == texts_in(all.take(i as int)),
            decreases n - i,
        {
            let ghost before = ids@;
            proof {
                assert(all.take(i + 1).drop_last() =~= all.take(i as int));
                assert(all.take(i + 1).last() == items@[i as int]@);
            }
            if let Some(s) = items[i].as_str() {
                ids.push(text::owned(s));
                assert(text::texts(ids@) =~= text::texts(before).push(s@));
            }
            i += 1;
        }
        assert(all.take(n as int) =~= all);
    } else {
        assert(all.len() == 0);
        assert(all.take(0) =~= all);
    }
    (ids, guild_name)
}

// ── The list ───────────────────────────────────────────────────────────────

/// Which rows are read, and how.
pub struct PlayersPlan {
    pub page: i64,
    pub per_page: i64,
    pub offset: i64,
    pub sql: String,
    /// What names and ids are matched with.
    pub pattern: Option<String>,
}

/// A row of the list.
pub struct PlayerRow {
    pub steam_id: String,
    pub steam_name: Option<String>,
    pub discord_id: String,
    pub steam_level: i32,
    pub total_games_owned: i32,
    pub country_code: String,
    /// When the player's data was fetched.
    pub fetched_at: Timestamp,
    /// How many rows there are on all pages.
    pub total_count: i64,
}

/// The page that is asked for: the first, unless a later one is.
pub open spec fn page_of(q: PlayersQuery) -> int {
    match q.page {
        Some(n) => if n > 1 {
            n as int
        } else {
            1
        },
        None => 1,
    }
}

/// How many rows a page has: 20, unless another number from 1 to 100 is asked for.
pub open spec fn per_page_of(q: PlayersQuery) -> int {
    match q.per_page {
        Some(n) => if n < 1 {
            1
        } else if n > 100 {
            100
        } else {
            n as int
        },
        None => 20,
    }
}

/// The column by which the list is sorted: the level, unless another one is asked for.
pub open spec fn order_column(q: PlayersQuery) -> Seq<char> {
    match q.sort {
        Some(s) => match column_of(s@) {
            Some(c) => c,
            None => "uc.steam_level"@,
        },
        None => "uc.steam_level"@,
    }
}

/// The direction in which the list is sorted: down, unless up is asked for.
pub open spec fn order_direction(q: PlayersQuery) -> Seq<char> {
    if q.order is Some && q.order->0@ == "asc"@ {
        "ASC"@
    } else {
        "DESC"@
    }
}

/// What is searched for, without white space around it.
pub open spec fn search_of(q: PlayersQuery) -> Seq<char> {
    match q.search {
        Some(s) => text::trimmed(s@),
        None => Seq::empty(),
    }
}

/// The query for a page.
pub open spec fn players_sql(q: PlayersQuery) -> Seq<char> {
    "SELECT la.steam_id, la.steam_name, la.discord_id, uc.steam_level, uc.total_games_owned, uc.country_code, uc.fetched_at, COUNT(*) OVER() AS total_count FROM linked_accounts la JOIN user_cache uc ON uc.steam_id = la.steam_id WHERE la.discord_id = ANY($1) "@
        + (if search_of(q).len() > 0 {
        "AND (la.steam_name ILIKE $4 OR la.steam_id ILIKE $4 OR la.discord_id ILIKE $4)"@
    } else {
        Seq::<char>::empty()
    }) + " ORDER BY "@ + order_column(q) + " "@ + order_direction(q)
        + " NULLS LAST LIMIT $2 OFFSET $3"@
}

/// Is this how the rows are read?
pub open spec fn plans(plan: PlayersPlan, q: PlayersQuery) -> bool {
    &&& plan.page == page_of(q)
    &&& plan.per_page == per_page_of(q)
    &&& plan.offset == (page_of(q) - 1) * per_page_of(q)
    &&& plan.sql@ == players_sql(q)
    &&& condition::text_of(plan.pattern) == (if search_of(q).len() > 0 {
        Some("%"@ + search_of(q) + "%"@)
    } else {
        None
    })
}

fn page_number(query: &PlayersQuery) -> (r: i64)
    ensures
        r == page_of(*query),
{
    match query.page {
        Some(n) => {
            if n > 1 {
                n
            } else {
                1
            }
        },
        None => 1,
    }
}

fn page_size(query: &PlayersQuery) -> (r: i64)
    ensures
        r == per_page_of(*query),
{
    match query.per_page {
        Some(n) => {
            if n < 1 {
                1
            } else if n > 100 {
                100
            } else {
                n
            }
        },
        None => 20,
    }
}

/// Which rows are read, and how.
pub fn plan_players(query: &PlayersQuery) -> (r: PlayersPlan)
    requires
        (page_of(*query) - 1) * per_page_of(*query) <= i64::MAX,
    ensures
        plans(r, *query),
{
    let page: i64 = page_number(query);
    let per_page: i64 = page_size(query);
    let column: &str = match &query.sort {
        Some(s) => match sort_column(s.as_str()) {
            Some(c) => c,
            None => "uc.steam_level",
        },
        None => "uc.steam_level",
    };
    let up = match &query.order {
        Some(o) => text::same(o.as_str(), "asc"),
        None => false,
    };
    let search = match &query.search {
        Some(s) => text::trim(s.as_str()),
        None => String::new(),
    };
    let mut sql = text::owned(
        "SELECT la.steam_id, la.steam_name, la.discord_id, uc.steam_level, uc.total_games_owned, uc.country_code, uc.fetched_at, COUNT(*) OVER() AS total_count FROM linked_accounts la JOIN user_cache uc ON uc.steam_id = la.steam_id WHERE la.discord_id = ANY($1) ",
    );
    let ghost head = sql@;
    let pattern = if search.as_str().is_empty() {
        assert(sql@ =~= head + Seq::<char>::empty());
        None
    } else {
        sql.append("AND (la.steam_name ILIKE $4 OR la.steam_id ILIKE $4 OR la.discord_id ILIKE $4)");
        let mut p = text::owned("%");
        p.append(search.as_str());
        p.append("%");
        Some(p)
    };
    sql.append(" ORDER BY ");
    sql.append(column);
    sql.append(" ");
    sql.append(
        if up {
            "ASC"
        } else {
            "DESC"
        },
    );
    sql.append(" NULLS LAST LIMIT $2 OFFSET $3");
    proof {
        assert(0 <= (page - 1) * per_page) by (nonlinear_arith)
            requires
                page >= 1,
                per_page >= 1,
        ;
    }
    PlayersPlan { page, per_page, offset: (page - 1) * per_page, sql, pattern }
}

/// Does the offset of the page that is asked for fit?
pub fn page_fits(query: &PlayersQuery) -> (r: bool)
    ensures
        r == ((page_of(*query) - 1) * per_page_of(*query) <= i64::MAX),
{
    let page: i64 = page_number(query);
    let per_page: i64 = page_size(query);
    proof {
        assert(0 <= (page - 1) * per_page <= i64::MAX * 100) by (nonlinear_arith)
            requires
                1 <= page <= i64::MAX,
                1 <= per_page <= 100,
        ;
    }
    (page as i128 - 1) * (per_page as i128) <= i64::MAX as i128
}

/// The times in the rows lie in the representable range.
pub open spec fn rows_wf(rows: Seq<PlayerRow>) -> bool {
    forall|i: int| 0 <= i < rows.len() ==> (#[trigger] rows[i]).fetched_at.wf()
}

/// A row as it is shown.
pub open spec fn row_doc(row: PlayerRow) -> Doc {
    Doc::Object(
        seq![
            ("steam_id"@, Doc::Text(row.steam_id@)),
            ("steam_name"@, cache_docs::text_doc(row.steam_name)),
            ("discord_id"@, Doc::Text(row.discord_id@)),
            ("steam_level"@, Doc::Int(row.steam_level as int)),
            ("total_games_owned"@, Doc::Int(row.total_games_owned as int)),
            ("country_code"@, Doc::Text(row.country_code@)),
            ("fetched_at"@, Doc::Text(clock::rfc3339_of(row.fetched_at@))),
        ],
    )
}

/// The rows as they are shown.
pub open spec fn row_docs(rows: Seq<PlayerRow>) -> Seq<Doc> {
    Seq::new(rows.len(), |i: int| row_doc(rows[i]))
}

/// A page of the list as it is shown.
pub open spec fn players_doc(
    rows: Seq<PlayerRow>,
    page: int,
    per_page: int,
    guild_name: Option<String>,
) -> Doc {
    Doc::Object(
        seq![
            ("players"@, Doc::Array(row_docs(rows))),
            (
                "total"@,
                Doc::Int(
                    if rows.len() > 0 {
                        rows[0].total_count as int
                    } else {
                        0
                    },
                ),
            ),
            ("page"@, Doc::Int(page)),
            ("per_page"@, Doc::Int(per_page)),
            ("guild_name"@, cache_docs::text_doc(guild_name)),
        ],
    )
}

fn optional_text(t: &Option<String>) -> (r: Value)
    ensures
        r@ == cache_docs::text_doc(*t),
{
    match t {
        Some(s) => json::string(s.as_str()),
        None => Value::Null,
    }
}

fn row_value(row: &PlayerRow) -> (r: Value)
    requires
        row.fetched_at.wf(),
    ensures
        r@ == row_doc(*row),
{
    let entries = vec![
        json::entry("steam_id", json::string(row.steam_id.as_str())),
        json::entry("steam_name", optional_text(&row.steam_name)),
        json::entry("discord_id", json::string(row.discord_id.as_str())),
        json::entry("steam_level", Value::Int(row.steam_level as i64)),
        json::entry("total_games_owned", Value::Int(row.total_games_owned as i64)),
        json::entry("country_code", json::string(row.country_code.as_str())),
        json::entry("fetched_at", Value::Text(clock::rfc3339(&row.fetched_at))),
    ];
    assert(json::doc_entries(entries@) =~= row_doc(*row)->Object_0);
    json::object(entries)
}

fn page_value(rows: &Vec<PlayerRow>, page: i64, per_page: i64, guild_name: &Option<String>) -> (r:
    Value)
    requires
        rows_wf(rows@),
    ensures
        r@ == players_doc(rows@, page as int, per_page as int, *guild_name),
{
    let mut items: Vec<Value> = Vec::new();
    let n: usize = rows.len();
    let mut i: usize = 0;
    while i < n
        invariant
            i <= n == rows@.len(),
            rows_wf(rows@),
            json::docs(items@) == row_docs(rows@).take(i as int),
        decreases n - i,
    {
        let ghost before = items@;
        items.push(row_value(&rows[i]));
        proof {
            assert(json::docs(items@) =~= json::docs(before).push(row_doc(rows@[i as int])));
            assert(row_docs(rows@).take(i + 1) =~= row_docs(rows@).take(i as int).push(
                row_doc(rows@[i as int]),
            ));
        }
        i += 1;
    }
    assert(row_docs(rows@).take(n as int) =~= row_docs(rows@));
    let total: i64 = if n > 0 {
        rows[0].total_count
    } else {
        0
    };
    let entries = vec![
        json::entry("players", json::array(items)),
        json::entry("total", Value::Int(total)),
        json::entry("page", Value::Int(page)),
        json::entry("per_page", Value::Int(per_page)),
        json::entry("guild_name", optional_text(guild_name)),
    ];
    assert(json::doc_entries(entries@) =~= players_doc(
        rows@,
        page as int,
        per_page as int,
        *guild_name,
    )->Object_0);
    json::object(entries)
}

/// How far an answer with a page of the list has come.
pub enum Listing {
    NeedSession,
    NeedGuild,
    NeedPermission { members_allowed: bool },
    NeedMembers { members_allowed: bool, is_manager: bool },
    NeedRows { page: i64, per_page: i64, guild_name: Option<String> },
    Finished,
}

/// What is told on the way to a page of the list.
pub enum ListingInput {
    /// Is there a session cookie, and is the session valid?
    Session { cookie: bool, valid: bool },
    /// Whether the guild has a role link, and who may see its players.
    Guild(Option<(bool, String)>),
    /// What the gateway says of permissions.
    Permission(Value),
    /// What the gateway says of members.
    Members(Value),
    Rows(Vec<PlayerRow>),
}

/// What is asked for on the way to a page of the list.
pub enum ListingCommand {
    ReadGuild,
    FetchPermission(String),
    FetchMembers(String),
    /// Read the rows of these members.
    ReadRows { members: Vec<String>, plan: PlayersPlan },
    Answer(Value),
    Fail(AppError),
}

impl Listing {
    /// Is this what is asked for?
    pub open spec fn awaits(self, input: ListingInput) -> bool {
        match input {
            ListingInput::Session { .. } => self is NeedSession,
            ListingInput::Guild(_) => self is NeedGuild,
            ListingInput::Permission(_) => self is NeedPermission,
            ListingInput::Members(_) => self is NeedMembers,
            ListingInput::Rows(rows) => self is NeedRows && rows_wf(rows@),
        }
    }
}

/// Ends with an error.
pub open spec fn refuses(next: Listing, command: ListingCommand, f: Failure) -> bool {
    &&& next is Finished
    &&& command matches ListingCommand::Fail(e)
    &&& e@ == f
}

/// Where the way to a page goes from a state with an input, and what is asked for then.
pub open spec fn listing_moves(
    guild_id: Seq<char>,
    query: PlayersQuery,
    state: Listing,
    input: ListingInput,
    next: Listing,
    command: ListingCommand,
) -> bool {
    match (state, input) {
        (Listing::NeedSession, ListingInput::Session { cookie, valid }) => if !cookie {
            refuses(
                next,
                command,
                Failure::UnauthorizedWith("No session cookie found. Please log in."@),
            )
        } else if !valid {
            refuses(
                next,
                command,
                Failure::UnauthorizedWith("Session verification failed. Please re-login."@),
            )
        } else {
            next is NeedGuild && command is ReadGuild
        },
        (Listing::NeedGuild, ListingInput::Guild(row)) => match row {
            Some((has_link, view_permission)) if has_link => {
                &&& next == (Listing::NeedPermission {
                    members_allowed: view_permission@ == "members"@,
                })
                &&& command matches ListingCommand::FetchPermission(path)
                &&& path@ == "/auth/guild_permission?guild_id="@ + url::url_text(guild_id)
            },
            _ => refuses(
                next,
                command,
                Failure::NotFound("No player list is configured for this server."@),
            ),
        },
        (Listing::NeedPermission { members_allowed }, ListingInput::Permission(body)) => {
            &&& next == (Listing::NeedMembers {
                members_allowed,
                is_manager: says_yes(body@, "is_manager"@),
            })
            &&& command matches ListingCommand::FetchMembers(path)
            &&& path@ == "/auth/guild_members?guild_id="@ + url::url_text(guild_id)
        },
        (Listing::NeedMembers { members_allowed, is_manager }, ListingInput::Members(body)) => {
            let members = texts_in(items_at(body@, "discord_ids"@));
            if members.len() == 0 {
                refuses(
                    next,
                    command,
                    Failure::Forbidden(
                        "You must be a member of this server to view its player list."@,
                    ),
                )
            } else if !members_allowed && !is_manager {
                refuses(
                    next,
                    command,
                    Failure::Forbidden("Only server managers can view this player list."@),
                )
            } else {
                &&& next matches Listing::NeedRows { page, per_page, guild_name }
                &&& page == page_of(query) && per_page == per_page_of(query)
                &&& condition::text_of(guild_name) == body@.text_member("guild_name"@)
                &&& command matches ListingCommand::ReadRows { members: asked, plan }
                &&& text::texts(asked@) == members
                &&& plans(plan, query)
            }
        },
        (Listing::NeedRows { page, per_page, guild_name }, ListingInput::Rows(rows)) => {
            &&& next is Finished
            &&& command matches ListingCommand::Answer(v)
            &&& v@ == players_doc(rows@, page as int, per_page as int, guild_name)
        },
        _ => false,
    }
}

fn refuse(e: AppError) -> (r: (Listing, ListingCommand))
    ensures
        refuses(r.0, r.1, e@),
{
    (Listing::Finished, ListingCommand::Fail(e))
}

/// Answers with a page of the list: takes what was asked for and says what to do next.
pub fn players_data(guild_id: &str, query: &PlayersQuery, state: Listing, input: ListingInput) -> (
r: (Listing, ListingCommand))
    requires
        state.awaits(input),
        input is Members ==> (page_of(*query) - 1) * per_page_of(*query) <= i64::MAX,
    ensures
        listing_moves(guild_id@, *query, state, input, r.0, r.1),
{
    match (state, input) {
        (Listing::NeedSession, ListingInput::Session { cookie, valid }) => {
            if !cookie {
                refuse(
                    AppError::UnauthorizedWith(
                        text::owned("No session cookie found. Please log in."),
                    ),
                )
            } else if !valid {
                refuse(
                    AppError::UnauthorizedWith(
                        text::owned("Session verification failed. Please re-login."),
                    ),
                )
            } else {
                (Listing::NeedGuild, ListingCommand::ReadGuild)
            }
        },
        (Listing::NeedGuild, ListingInput::Guild(row)) => match row {
            Some((has_link, view_permission)) => {
                if !has_link {
                    return refuse(
                        AppError::NotFound(
                            text::owned("No player list is configured for this server."),
                        ),
                    );
                }
                let members_allowed = text::same(view_permission.as_str(), "members");
                (
                    Listing::NeedPermission { members_allowed },
                    ListingCommand::FetchPermission(permission_path(guild_id)),
                )
            },
            None => refuse(
                AppError::NotFound(text::owned("No player list is configured for this server.")),
            ),
        },
        (Listing::NeedPermission { members_allowed }, ListingInput::Permission(body)) => {
            let (_, is_manager) = fetch_guild_permission(&body);
            (
                Listing::NeedMembers { members_allowed, is_manager },
                ListingCommand::FetchMembers(members_path(guild_id)),
            )
        },
        (Listing::NeedMembers { members_allowed, is_manager }, ListingInput::Members(body)) => {
            let (members, guild_name) = fetch_guild_members(&body);
            assert(text::texts(members@).len() == members@.len());
            if members.len() == 0 {
                return refuse(
                    AppError::Forbidden(
                        text::owned(
                            "You must be a member of this server to view its player list.",
                        ),
                    ),
                );
            }
            if !members_allowed && !is_manager {
                return refuse(
                    AppError::Forbidden(
                        text::owned("Only server managers can view this player list."),
                    ),
                );
            }
            let plan = plan_players(query);
            (
                Listing::NeedRows { page: plan.page, per_page: plan.per_page, guild_name },
                ListingCommand::ReadRows { members, plan },
            )
        },
        (Listing::NeedRows { page, per_page, guild_name }, ListingInput::Rows(rows)) => {
            let v = page_value(&rows, page, per_page, &guild_name);
            (Listing::Finished, ListingCommand::Answer(v))
        },
        (state, _) => {
            assert(false);
            (state, ListingCommand::ReadGuild)
        },
    }
}

/// The list is shown only to members, and where it is for managers, only to managers.
pub proof fn law_only_those_allowed_see_the_list(
    guild_id: Seq<char>,
    query: PlayersQuery,
    members_allowed: bool,
    is_manager: bool,
    body: Value,
    next: Listing,
    command: ListingCommand,
)
    requires
        listing_moves(
            guild_id,
            query,
            Listing::NeedMembers { members_allowed, is_manager },
            ListingInput::Members(body),
            next,
            command,
        ),
    ensures
        command is ReadRows ==> (members_allowed || is_manager) && texts_in(
            items_at(body@, "discord_ids"@),
        ).len() > 0,
{
}

/// Whatever is asked for, a page has from 1 to 100 rows, and it is sorted by one of the known
/// columns.
pub proof fn law_any_query_is_sensible(q: PlayersQuery)
    ensures
        page_of(q) >= 1,
        1 <= per_page_of(q) <= 100,
        (page_of(q) - 1) * per_page_of(q) >= 0,
        order_column(q) == "uc.steam_level"@ || exists|k: Seq<char>|
            #[trigger] column_of(k) == Some(order_column(q)),
        order_direction(q) == "ASC"@ || order_direction(q) == "DESC"@,
{
    assert((page_of(q) - 1) * per_page_of(q) >= 0) by (nonlinear_arith)
        requires
            page_of(q) >= 1,
            per_page_of(q) >= 1,
    ;
    if q.sort is Some && column_of(q.sort->0@) is Some {
        assert(column_of(q.sort->0@) == Some(order_column(q)));
    }
}

/// A page of the list shows its rows in their order, how many rows there are in all, which page it
/// is and of which size, and the name of the guild.
pub proof fn law_a_page_shows_its_rows(
    rows: Seq<PlayerRow>,
    page: int,
    per_page: int,
    guild_name: Option<String>,
    i: int,
)
    ensures
        ({
            let d = players_doc(rows, page, per_page, guild_name);
            &&& d.member("players"@) is Some
            &&& d.member("players"@)->0.items().len() == rows.len()
            &&& d.int_member("total"@) == Some(
                if rows.len() == 0 {
                    0
                } else {
                    rows[0].total_count as int
                },
            )
            &&& d.int_member("page"@) == Some(page)
            &&& d.int_member("per_page"@) == Some(per_page)
            &&& d.text_member("guild_name"@) == condition::text_of(guild_name)
            &&& 0 <= i < rows.len() ==> {
                let r = d.member("players"@)->0.items()[i];
                &&& r.text_member("steam_id"@) == Some(rows[i].steam_id@)
                &&& r.text_member("steam_name"@) == condition::text_of(rows[i].steam_name)
                &&& r.text_member("discord_id"@) == Some(rows[i].discord_id@)
                &&& r.int_member("steam_level"@) == Some(rows[i].steam_level as int)
                &&& r.int_member("total_games_owned"@) == Some(rows[i].total_games_owned as int)
                &&& r.text_member("country_code"@) == Some(rows[i].country_code@)
                &&& r.text_member("fetched_at"@) == Some(clock::rfc3339_of(rows[i].fetched_at@))
            }
        }),
{
    reveal_strlit("players");
    reveal_strlit("total");
    reveal_strlit("page");
    reveal_strlit("per_page");
    reveal_strlit("guild_name");
    let e = players_doc(rows, page, per_page, guild_name)->Object_0;
    assert("players"@.len() == 7 && "total"@.len() == 5 && "page"@.len() == 4
        && "per_page"@.len() == 8 && "guild_name"@.len() == 10);
    json::lemma_entry_of_last(e, "players"@, 0);
    json::lemma_entry_of_last(e, "total"@, 1);
    json::lemma_entry_of_last(e, "page"@, 2);
    json::lemma_entry_of_last(e, "per_page"@, 3);
    json::lemma_entry_of_last(e, "guild_name"@, 4);
    if 0 <= i < rows.len() {
        lemma_row_members(rows[i]);
    }
}

proof fn lemma_row_members(row: PlayerRow)
    ensures
        ({
            let r = row_doc(row);
            &&& r.text_member("steam_id"@) == Some(row.steam_id@)
            &&& r.text_member("steam_name"@) == condition::text_of(row.steam_name)
            &&& r.text_member("discord_id"@) == Some(row.discord_id@)
            &&& r.int_member("steam_level"@) == Some(row.steam_level as int)
            &&& r.int_member("total_games_owned"@) == Some(row.total_games_owned as int)
            &&& r.text_member("country_code"@) == Some(row.country_code@)
            &&& r.text_member("fetched_at"@) == Some(clock::rfc3339_of(row.fetched_at@))
        }),
{
    reveal_strlit("steam_id");
    reveal_strlit("steam_name");
    reveal_strlit("discord_id");
    reveal_strlit("steam_level");
    reveal_strlit("total_games_owned");
    reveal_strlit("country_code");
    reveal_strlit("fetched_at");
    let e = row_doc(row)->Object_0;
    assert("steam_id"@.len() == 8 && "steam_name"@.len() == 10 && "discord_id"@.len() == 10
        && "steam_level"@.len() == 11 && "total_games_owned"@.len() == 17
        && "country_code"@.len() == 12 && "fetched_at"@.len() == 10);
    assert("steam_name"@[0] != "discord_id"@[0]);
    assert("steam_name"@[0] != "fetched_at"@[0]);
    assert("discord_id"@[0] != "fetched_at"@[0]);
    json::lemma_entry_of_last(e, "steam_id"@, 0);
    json::lemma_entry_of_last(e, "steam_name"@, 1);
    json::lemma_entry_of_last(e, "discord_id"@, 2);
    json::lemma_entry_of_last(e, "steam_level"@, 3);
    json::lemma_entry_of_last(e, "total_games_owned"@, 4);
    json::lemma_entry_of_last(e, "country_code"@, 5);
    json::lemma_entry_of_last(e, "fetched_at"@, 6);
}

/// Pages follow one another without a gap: the first one starts at the first row, and each next one
/// where the one before it ends. A size from 1 to 100 is taken as asked for, and without one a page
/// has 20 rows.
pub proof fn law_pages_follow_one_another(a: PlayersPlan, q: PlayersQuery, b: PlayersPlan, n: i64)
    requires
        plans(a, q),
        n < i64::MAX,
        q.page == Some(n),
        plans(b, (PlayersQuery { page: Some((n + 1) as i64), ..q })),
    ensures
        a.per_page == b.per_page,
        n <= 1 ==> a.page == 1 && a.offset == 0,
        n >= 1 ==> a.page == n && b.page == n + 1 && b.offset == a.offset + a.per_page,
        q.per_page is None ==> a.per_page == 20,
        q.per_page matches Some(k) ==> 1 <= k <= 100 ==> a.per_page == k,
        a.sql@ == b.sql@,
{
    let size = per_page_of(q);
    let page = page_of(q);
    if n <= 1 {
        assert((page - 1) * size == 0) by (nonlinear_arith)
            requires
                page == 1,
        ;
    }
    if n >= 1 {
        assert((n as int) * size == (n - 1) * size + size) by (nonlinear_arith);
    }
}

/// The list is sorted by the column that is asked for, in the direction that is asked for: the
/// column has the name of the key, of the accounts or of the cached data, and only "asc" is up.
pub proof fn law_the_list_is_sorted_as_asked(q: PlayersQuery, key: Seq<char>)
    ensures
        column_of(key) matches Some(c) ==> c == "uc."@ + key || c == "la."@ + key,
        q.sort is Some && column_of(q.sort->0@) is Some ==> order_column(q) == "uc."@ + q.sort->0@
            || order_column(q) == "la."@ + q.sort->0@,
        order_direction(q) == "ASC"@ <==> q.order is Some && q.order->0@ == "asc"@,
{
    lemma_columns(key);
    if q.sort is Some {
        lemma_columns(q.sort->0@);
    }
    reveal_strlit("ASC");
    reveal_strlit("DESC");
    assert("ASC"@.len() == 3 && "DESC"@.len() == 4);
}

proof fn lemma_columns(key: Seq<char>)
    ensures
        column_of(key) matches Some(c) ==> c == "uc."@ + key || c == "la."@ + key,
{
    reveal_strlit("uc.");
    reveal_strlit("la.");
    reveal_strlit("steam_level");
    reveal_strlit("uc.steam_level");
    reveal_strlit("total_games_owned");
    reveal_strlit("uc.total_games_owned");
    reveal_strlit("country_code");
    reveal_strlit("uc.country_code");
    reveal_strlit("fetched_at");
    reveal_strlit("uc.fetched_at");
    reveal_strlit("steam_id");
    reveal_strlit("la.steam_id");
    reveal_strlit("steam_name");
    reveal_strlit("la.steam_name");
    reveal_strlit("linked_at");
    reveal_strlit("la.linked_at");
    assert("uc.steam_level"@ =~= "uc."@ + "steam_level"@);
    assert("uc.total_games_owned"@ =~= "uc."@ + "total_games_owned"@);
    assert("uc.country_code"@ =~= "uc."@ + "country_code"@);
    assert("uc.fetched_at"@ =~= "uc."@ + "fetched_at"@);
    assert("la.steam_id"@ =~= "la."@ + "steam_id"@);
    assert("la.steam_name"@ =~= "la."@ + "steam_name"@);
    assert("la.linked_at"@ =~= "la."@ + "linked_at"@);
}

/// Is this a way to a page of the list, up to its `n`th step: from each state with the next input to
/// the next state, with what is asked for then?
pub open spec fn listing_steps(
    guild_id: Seq<char>,
    query: PlayersQuery,
    inputs: Seq<ListingInput>,
    states: Seq<Listing>,
    commands: Seq<ListingCommand>,
    n: int,
) -> bool {
    &&& states[0] is NeedSession
    &&& forall|k: int|
        0 <= k < n ==> listing_moves(
            guild_id,
            query,
            states[k],
            #[trigger] inputs[k],
            states[k + 1],
            commands[k],
        )
}

/// Everyone who may see the list sees it: with a valid session, for a guild with a role link, as a
/// member where members may see it or as a manager, the rows of just the members of the guild are
/// read, as the query plans, and answered.
pub proof fn law_everyone_allowed_sees_the_list(
    guild_id: Seq<char>,
    query: PlayersQuery,
    view_permission: String,
    permission: Value,
    members: Value,
    rows: Vec<PlayerRow>,
    inputs: Seq<ListingInput>,
    states: Seq<Listing>,
    commands: Seq<ListingCommand>,
)
    requires
        view_permission@ == "members"@ || permission@.bool_member("is_manager"@) == Some(true),
        texts_in(items_at(members@, "discord_ids"@)).len() > 0,
        inputs[0] == (ListingInput::Session { cookie: true, valid: true }),
        inputs[1] == ListingInput::Guild(Some((true, view_permission))),
        inputs[2] == ListingInput::Permission(permission),
        inputs[3] == ListingInput::Members(members),
        inputs[4] == ListingInput::Rows(rows),
    ensures
        listing_steps(guild_id, query, inputs, states, commands, 1) ==> commands[0] is ReadGuild
            && states[1] is NeedGuild,
        listing_steps(guild_id, query, inputs, states, commands, 2) ==> {
            &&& states[2] is NeedPermission
            &&& commands[1] matches ListingCommand::FetchPermission(path)
            &&& path@ == "/auth/guild_permission?guild_id="@ + url::url_text(guild_id)
        },
        listing_steps(guild_id, query, inputs, states, commands, 3) ==> {
            &&& states[3] is NeedMembers
            &&& commands[2] matches ListingCommand::FetchMembers(path)
            &&& path@ == "/auth/guild_members?guild_id="@ + url::url_text(guild_id)
        },
        listing_steps(guild_id, query, inputs, states, commands, 4) ==> {
            &&& commands[3] matches ListingCommand::ReadRows { members: asked, plan }
            &&& text::texts(asked@) == texts_in(items_at(members@, "discord_ids"@))
            &&& plans(plan, query)
            &&& states[4] is NeedRows
            &&& condition::text_of(states[4]->guild_name) == members@.text_member("guild_name"@)
        },
        listing_steps(guild_id, query, inputs, states, commands, 5) ==> {
            &&& commands[4] matches ListingCommand::Answer(v)
            &&& v@ == players_doc(
                rows@,
                page_of(query),
                per_page_of(query),
                states[4]->guild_name,
            )
        },
{
}

/// Nobody else sees it: without a session, for a guild without a role link, without members, or for
/// one who is no manager where only managers may see it, the way ends with a refusal.
pub proof fn law_nobody_else_sees_the_list(
    guild_id: Seq<char>,
    query: PlayersQuery,
    state: Listing,
    input: ListingInput,
    next: Listing,
    command: ListingCommand,
)
    requires
        listing_moves(guild_id, query, state, input, next, command),
    ensures
        input matches ListingInput::Session { cookie, valid } ==> !(cookie && valid) ==> command
            is Fail && command->Fail_0@ is UnauthorizedWith,
        input is Guild && input->Guild_0 is None ==> command is Fail && command->Fail_0@
            is NotFound,
        input matches ListingInput::Guild(Some((has_link, view_permission))) ==> {
            &&& !has_link ==> command is Fail && command->Fail_0@ is NotFound
            &&& has_link ==> next is NeedPermission && next->NeedPermission_members_allowed == (
            view_permission@ == "members"@)
        },
        input matches ListingInput::Permission(body) ==> next is NeedMembers && (next->is_manager
            <==> body@.bool_member("is_manager"@) == Some(true))
            && next->NeedMembers_members_allowed == state->NeedPermission_members_allowed,
        input matches ListingInput::Members(body) ==> {
            let known = texts_in(items_at(body@, "discord_ids"@)).len() > 0;
            let allowed = state->NeedMembers_members_allowed || state->is_manager;
            &&& command is ReadRows <==> known && allowed
            &&& !(known && allowed) ==> command is Fail && command->Fail_0@ is Forbidden
        },
{
}

/// The members of a guild are the texts that the gateway lists, all of them and in their order;
/// anything else in the list is no member.
pub proof fn law_members_are_the_listed_texts(ids: Seq<Seq<char>>, more: Doc)
    ensures
        texts_in(Seq::new(ids.len(), |i: int| Doc::Text(ids[i]))) == ids,
        !(more is Text) ==> texts_in(
            Seq::new(ids.len(), |i: int| Doc::Text(ids[i])).push(more),
        ) == ids,
    decreases ids.len(),
{
    let items = Seq::new(ids.len(), |i: int| Doc::Text(ids[i]));
    if ids.len() > 0 {
        let rest = ids.drop_last();
        law_members_are_the_listed_texts(rest, more);
        assert(items.drop_last() =~= Seq::new(rest.len(), |i: int| Doc::Text(rest[i])));
        assert(ids =~= rest.push(ids.last()));
    } else {
        assert(texts_in(items) =~= ids);
    }
    assert(items.push(more).drop_last() =~= items);
}

/// Without a number, the first page is asked for. A search narrows the list to the rows whose name
/// or ids hold what is searched for, without the white space around it, and changes nothing else.
pub proof fn law_a_search_narrows_the_list(
    a: PlayersPlan,
    q: PlayersQuery,
    b: PlayersPlan,
)
    requires
        plans(a, q),
        plans(b, (PlayersQuery { search: None, ..q })),
    ensures
        q.page is None ==> a.page == 1 && a.offset == 0,
        a.page == b.page && a.per_page == b.per_page && a.offset == b.offset,
        b.pattern is None,
        q.search is None ==> a.pattern is None && a.sql@ == b.sql@,
        q.search matches Some(s) ==> {
            &&& text::trimmed(s@).len() == 0 ==> a.pattern is None && a.sql@ == b.sql@
            &&& text::trimmed(s@).len() > 0 ==> {
                &&& a.pattern is Some
                &&& a.pattern->0@ == seq!['%'] + text::trimmed(s@) + seq!['%']
                &&& exists|k: int|
                    0 <= k <= b.sql@.len() && a.sql@ == #[trigger] b.sql@.subrange(0, k)
                        + "AND (la.steam_name ILIKE $4 OR la.steam_id ILIKE $4 OR la.discord_id ILIKE $4)"@
                        + b.sql@.subrange(k, b.sql@.len() as int)
            }
        },
{
    let first =
        "SELECT la.steam_id, la.steam_name, la.discord_id, uc.steam_level, uc.total_games_owned, uc.country_code, uc.fetched_at, COUNT(*) OVER() AS total_count FROM linked_accounts la JOIN user_cache uc ON uc.steam_id = la.steam_id WHERE la.discord_id = ANY($1) "@;
    let middle =
        "AND (la.steam_name ILIKE $4 OR la.steam_id ILIKE $4 OR la.discord_id ILIKE $4)"@;
    let q0 = PlayersQuery { search: None, ..q };
    let last = " ORDER BY "@ + order_column(q) + " "@ + order_direction(q)
        + " NULLS LAST LIMIT $2 OFFSET $3"@;
    assert(order_column(q0) == order_column(q) && order_direction(q0) == order_direction(q));
    assert(search_of(q0).len() == 0);
    assert(b.sql@ =~= first + last);
    if search_of(q).len() > 0 {
        assert(a.sql@ =~= first + middle + last);
        let k = first.len() as int;
        assert(b.sql@.subrange(0, k) =~= first);
        assert(b.sql@.subrange(k, b.sql@.len() as int) =~= last);
        reveal_strlit("%");
        assert("%"@ =~= seq!['%']);
    } else {
        assert(a.sql@ =~= b.sql@);
    }
    let size = per_page_of(q);
    let page = page_of(q);
    if q.page is None {
        assert((page - 1) * size == 0) by (nonlinear_arith)
            requires
                page == 1,
        ;
    }
}

/// The list is read from the linked members that were asked for, one page of it, sorted as asked
/// with the unknown last.
pub proof fn law_the_query_reads_one_sorted_page(q: PlayersQuery)
    ensures
        text::occurs_in(players_sql(q), " WHERE la.discord_id = ANY($1) "@),
        text::occurs_in(
            players_sql(q),
            " ORDER BY "@ + order_column(q) + " "@ + order_direction(q)
                + " NULLS LAST LIMIT $2 OFFSET $3"@,
        ),
{
    let head =
        "SELECT la.steam_id, la.steam_name, la.discord_id, uc.steam_level, uc.total_games_owned, uc.country_code, uc.fetched_at, COUNT(*) OVER() AS total_count FROM linked_accounts la JOIN user_cache uc ON uc.steam_id = la.steam_id"@;
    let wanted = " WHERE la.discord_id = ANY($1) "@;
    let first =
        "SELECT la.steam_id, la.steam_name, la.discord_id, uc.steam_level, uc.total_games_owned, uc.country_code, uc.fetched_at, COUNT(*) OVER() AS total_count FROM linked_accounts la JOIN user_cache uc ON uc.steam_id = la.steam_id WHERE la.discord_id = ANY($1) "@;
    reveal_strlit(
        "SELECT la.steam_id, la.steam_name, la.discord_id, uc.steam_level, uc.total_games_owned, uc.country_code, uc.fetched_at, COUNT(*) OVER() AS total_count FROM linked_accounts la JOIN user_cache uc ON uc.steam_id = la.steam_id",
    );
    reveal_strlit(" WHERE la.discord_id = ANY($1) ");
    reveal_strlit(
        "SELECT la.steam_id, la.steam_name, la.discord_id, uc.steam_level, uc.total_games_owned, uc.country_code, uc.fetched_at, COUNT(*) OVER() AS total_count FROM linked_accounts la JOIN user_cache uc ON uc.steam_id = la.steam_id WHERE la.discord_id = ANY($1) ",
    );
    assert(first =~= head + wanted);
    let search = if search_of(q).len() > 0 {
        "AND (la.steam_name ILIKE $4 OR la.steam_id ILIKE $4 OR la.discord_id ILIKE $4)"@
    } else {
        Seq::<char>::empty()
    };
    let last = " ORDER BY "@ + order_column(q) + " "@ + order_direction(q)
        + " NULLS LAST LIMIT $2 OFFSET $3"@;
    assert(players_sql(q) =~= head + wanted + (search + last));
    text::lemma_middle_occurs(head, wanted, search + last);
    assert(players_sql(q) =~= (first + search) + last + Seq::<char>::empty());
    text::lemma_middle_occurs(first + search, last, Seq::<char>::empty());
}

/// The way to a page ends exactly where it is refused or answered.
pub proof fn law_a_listing_ends_with_its_answer(
    guild_id: Seq<char>,
    query: PlayersQuery,
    state: Listing,
    input: ListingInput,
    next: Listing,
    command: ListingCommand,
)
    requires
        listing_moves(guild_id, query, state, input, next, command),
    ensures
        command is Fail || command is Answer <==> next is Finished,
{
}

} // verus!
