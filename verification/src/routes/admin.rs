//! Admin routes for the iframe role-config page and per-guild settings.
//!
//! Dual-mode access: every protected route accepts EITHER a `Bearer ifs:…`
//! iframe-session token (RoleLogic dashboard embed) OR an `rl_session`
//! cookie + Manage-Server check (direct nav).

use vstd::prelude::*;
use crate::error;
use crate::error::{AppError, Failure};
use crate::json;
use crate::json::{Doc, Value};
use crate::lookup::Lookup;
use crate::models::condition;
use crate::models::condition::{Condition, Rule};
use crate::routes::pages;
use crate::schema;
use crate::schema::PublisherKeyAction;
use crate::text;

verus! {

/// CSP for the pages this module serves — they must be embeddable by the
/// RoleLogic dashboard (and only by it, when configured).
pub fn admin_iframe_csp(dashboard_origin: Option<&str>) -> (r: String)
    ensures
        r@ == "frame-ancestors "@ + (match dashboard_origin {
            Some(o) => o@,
            None => "*"@,
        }),
{
    match dashboard_origin {
        Some(o) => text::cat("frame-ancestors ", o),
        None => text::cat("frame-ancestors ", "*"),
    }
}

// ── The page ───────────────────────────────────────────────────────────────

/// What the role-config page is opened with.
pub struct RoleConfigPageQuery {
    pub rl_token: Option<String>,
}

/// How the one who opens the page shows who they are.
pub enum PageEntry {
    /// By a token of RoleLogic, which is to be verified.
    Token(String),
    /// By a session with Manage Server, which is to be looked for.
    Session,
}

/// How the one who opens the page shows who they are: by a token, unless it is missing or empty.
pub fn page_entry(query: RoleConfigPageQuery) -> (r: PageEntry)
    ensures
        match query.rl_token {
            Some(t) if t@.len() > 0 => r == PageEntry::Token(t),
            _ => r is Session,
        },
{
    match query.rl_token {
        Some(t) => {
            if t.as_str().is_empty() {
                PageEntry::Session
            } else {
                PageEntry::Token(t)
            }
        },
        None => PageEntry::Session,
    }
}

/// Why a token is not accepted.
#[derive(Debug, Clone, Copy, PartialEq, Eq, Structural)]
pub enum RlTokenError {
    Expired,
    BadSignature,
    Malformed,
    WrongAudience,
    WrongIssuer,
}

/// What a token says once it is verified.
pub struct VerifiedToken {
    pub discord_id: String,
    pub guild_id: String,
    pub role_id: String,
    /// A developer is impersonating the user.
    pub read_only: bool,
}

/// What is shown for a token that is not accepted.
pub open spec fn token_message(e: RlTokenError) -> Seq<char> {
    match e {
        RlTokenError::Expired => "Your session expired. Reopen the plugin in the RoleLogic dashboard."@,
        RlTokenError::BadSignature => "Invalid auth token."@,
        RlTokenError::Malformed => "Invalid auth token."@,
        RlTokenError::WrongAudience => "Token is for a different plugin."@,
        RlTokenError::WrongIssuer => "Token was not issued by RoleLogic."@,
    }
}

/// Verifies the way in by a token: the token of a role link that is registered here, accepted, and
/// for this role link. `verified` is what the token says, checked with the key of the role link;
/// `None` stands for a role link that is not registered. Otherwise, what to show.
pub fn verify_iframe_entry(
    guild_id: &str,
    role_id: &str,
    verified: Option<Result<VerifiedToken, RlTokenError>>,
) -> (r: Result<VerifiedToken, String>)
    ensures
        match verified {
            None => r matches Err(m) && m@
                == "This role link isn't registered with this plugin yet."@,
            Some(Err(e)) => r matches Err(m) && m@ == token_message(e),
            Some(Ok(v)) => if v.guild_id@ == guild_id@ && v.role_id@ == role_id@ {
                r == Ok::<VerifiedToken, String>(v)
            } else {
                r matches Err(m) && m@ == "Token does not match this role link."@
            },
        },
{
    match verified {
        None => Err(text::owned("This role link isn't registered with this plugin yet.")),
        Some(Err(e)) => Err(
            text::owned(
                match e {
                    RlTokenError::Expired => "Your session expired. Reopen the plugin in the RoleLogic dashboard.",
                    RlTokenError::BadSignature => "Invalid auth token.",
                    RlTokenError::Malformed => "Invalid auth token.",
                    RlTokenError::WrongAudience => "Token is for a different plugin.",
                    RlTokenError::WrongIssuer => "Token was not issued by RoleLogic.",
                },
            ),
        ),
        Some(Ok(v)) => {
            if text::same(v.guild_id.as_str(), guild_id) && text::same(
                v.role_id.as_str(),
                role_id,
            ) {
                Ok(v)
            } else {
                Err(text::owned("Token does not match this role link."))
            }
        },
    }
}

/// Does the request come from a frame? The headers say where it is for and where it comes from.
pub open spec fn embedded(dest: Seq<char>, site: Seq<char>) -> bool {
    ||| text::lowered(dest) == "iframe"@
    ||| text::lowered(dest) == "frame"@
    ||| text::lowered(site) == "cross-site"@
}

/// Does the request come from a frame? A header that is missing is empty.
pub fn looks_embedded(sec_fetch_dest: &str, sec_fetch_site: &str) -> (r: bool)
    ensures
        r == embedded(sec_fetch_dest@, sec_fetch_site@),
{
    let dest = text::to_ascii_lowercase(sec_fetch_dest);
    let site = text::to_ascii_lowercase(sec_fetch_site);
    text::same(dest.as_str(), "iframe") || text::same(dest.as_str(), "frame") || text::same(
        site.as_str(),
        "cross-site",
    )
}

/// The page that shows an error.
pub open spec fn inline_error_page(base_url: Seq<char>, message: Seq<char>) -> Seq<char> {
    pages::INLINE_ERROR_PART_1@ + base_url + pages::INLINE_ERROR_PART_2@ + text::page_text(message)
        + pages::INLINE_ERROR_PART_3@
}

/// The page that shows an error, so that the iframe shows something
/// useful instead of an empty body. It is sent with status 403.
pub fn render_inline_error(base_url: &str, message: &str) -> (r: String)
    ensures
        r@ == inline_error_page(base_url@, message@),
{
    let mut body = text::owned(pages::INLINE_ERROR_PART_1);
    body.append(base_url);
    body.append(pages::INLINE_ERROR_PART_2);
    body.append(text::escape_html(message).as_str());
    body.append(pages::INLINE_ERROR_PART_3);
    body
}

/// The page that misses a token.
pub open spec fn no_token_page(base_url: Seq<char>) -> Seq<char> {
    pages::NO_TOKEN_PART_1@ + base_url + pages::NO_TOKEN_PART_2@ + base_url
        + pages::NO_TOKEN_PART_3@
}

/// The page that misses a token. It is sent with status 401.
pub fn render_iframe_no_token(base_url: &str) -> (r: String)
    ensures
        r@ == no_token_page(base_url@),
{
    let mut body = text::owned(pages::NO_TOKEN_PART_1);
    body.append(base_url);
    body.append(pages::NO_TOKEN_PART_2);
    body.append(base_url);
    body.append(pages::NO_TOKEN_PART_3);
    body
}

/// The page that asks to sign in.
pub open spec fn signin_page(base_url: Seq<char>, reason: Seq<char>) -> Seq<char> {
    pages::SIGN_IN_PART_1@ + base_url + pages::SIGN_IN_PART_2@ + text::page_text(reason)
        + pages::SIGN_IN_PART_3@ + base_url + pages::SIGN_IN_PART_4@
}

/// The page that asks to sign in. It is sent with status 401.
pub fn render_signin_page(base_url: &str, reason: &str) -> (r: String)
    ensures
        r@ == signin_page(base_url@, reason@),
{
    let mut body = text::owned(pages::SIGN_IN_PART_1);
    body.append(base_url);
    body.append(pages::SIGN_IN_PART_2);
    body.append(text::escape_html(reason).as_str());
    body.append(pages::SIGN_IN_PART_3);
    body.append(base_url);
    body.append(pages::SIGN_IN_PART_4);
    body
}

/// The page for one who has no token and is no manager. A cross-site iframe will NOT
/// carry our first-party `rl_session` cookie, so landing here while the request smells like a
/// frame load almost always means RoleLogic never appended `?rl_token=`. Says that precisely
/// instead of a dead-end "sign in" the user can't action.
pub fn render_refusal(
    base_url: &str,
    sec_fetch_dest: &str,
    sec_fetch_site: &str,
    reason: &AppError,
) -> (r: String)
    ensures
        r@ == (if embedded(sec_fetch_dest@, sec_fetch_site@) {
            no_token_page(base_url@)
        } else {
            signin_page(base_url@, error::words_of(reason@))
        }),
{
    if looks_embedded(sec_fetch_dest, sec_fetch_site) {
        render_iframe_no_token(base_url)
    } else {
        render_signin_page(base_url, reason.describe().as_str())
    }
}

/// The role-config page: the template with what it needs to know.
pub open spec fn config_page(
    template: Seq<char>,
    base_url: Seq<char>,
    guild_id: Seq<char>,
    role_id: Seq<char>,
    token: Seq<char>,
    read_only: bool,
) -> Seq<char> {
    let a = text::replaced(template, "__BASE_URL__"@, base_url);
    let b = text::replaced(a, "__GUILD_ID__"@, guild_id);
    let c = text::replaced(b, "__ROLE_ID__"@, role_id);
    let d = text::replaced(c, "__IFRAME_TOKEN__"@, token);
    text::replaced(
        d,
        "__READ_ONLY__"@,
        if read_only {
            "1"@
        } else {
            "0"@
        },
    )
}

/// The role-config page. `token` is the iframe session, or nothing for one who came by a session.
pub fn role_config_page(
    template: &str,
    base_url: &str,
    guild_id: &str,
    role_id: &str,
    token: &str,
    read_only: bool,
) -> (r: String)
    ensures
        r@ == config_page(template@, base_url@, guild_id@, role_id@, token@, read_only),
{
    proof {
        reveal_strlit("__BASE_URL__");
        reveal_strlit("__GUILD_ID__");
        reveal_strlit("__ROLE_ID__");
        reveal_strlit("__IFRAME_TOKEN__");
        reveal_strlit("__READ_ONLY__");
    }
    let a = text::replace(template, "__BASE_URL__", base_url);
    let b = text::replace(a.as_str(), "__GUILD_ID__", guild_id);
    let c = text::replace(b.as_str(), "__ROLE_ID__", role_id);
    let d = text::replace(c.as_str(), "__IFRAME_TOKEN__", token);
    text::replace(
        d.as_str(),
        "__READ_ONLY__",
        if read_only {
            "1"
        } else {
            "0"
        },
    )
}

// ── Access to a role link ──────────────────────────────────────────────────

/// Outcome of an access check for the role-config routes: who is calling
/// and whether the session is read-only (a developer impersonating the user).
pub struct RoleConfigAccess {
    pub discord_id: String,
    pub read_only: bool,
}

/// What an iframe session says.
pub struct IframeSession {
    pub discord_id: String,
    pub guild_id: String,
    pub role_id: String,
    pub read_only: bool,
}

/// Access by an iframe session, which must be valid and for this role link.
pub fn iframe_access(session: Option<IframeSession>, guild_id: &str, role_id: &str) -> (r: Result<
    RoleConfigAccess,
    AppError,
>)
    ensures
        match session {
            None => r matches Err(e) && e@ == Failure::UnauthorizedWith(
                "Your session expired. Reopen the plugin in the RoleLogic dashboard."@,
            ),
            Some(s) => if s.guild_id@ == guild_id@ && s.role_id@ == role_id@ {
                r == Ok::<RoleConfigAccess, AppError>(
                    RoleConfigAccess { discord_id: s.discord_id, read_only: s.read_only },
                )
            } else {
                r matches Err(e) && e@ == Failure::Forbidden(
                    "Token does not grant access to this role link."@,
                )
            },
        },
{
    match session {
        None => Err(
            AppError::UnauthorizedWith(
                text::owned("Your session expired. Reopen the plugin in the RoleLogic dashboard."),
            ),
        ),
        Some(s) => {
            if text::same(s.guild_id.as_str(), guild_id) && text::same(
                s.role_id.as_str(),
                role_id,
            ) {
                Ok(RoleConfigAccess { discord_id: s.discord_id, read_only: s.read_only })
            } else {
                Err(
                    AppError::Forbidden(
                        text::owned("Token does not grant access to this role link."),
                    ),
                )
            }
        },
    }
}

/// Access to a role link: by a bearer token where there is one, whatever it says; otherwise as the
/// manager that a session shows. `bearer` is the session that the token was verified to be;
/// `manager` is looked at only without a bearer token.
pub fn require_role_config_access(
    bearer: Option<Option<IframeSession>>,
    manager: Result<String, AppError>,
    guild_id: &str,
    role_id: &str,
) -> (r: Result<RoleConfigAccess, AppError>)
    ensures
        match bearer {
            Some(None) => r matches Err(e) && e@ == Failure::UnauthorizedWith(
                "Your session expired. Reopen the plugin in the RoleLogic dashboard."@,
            ),
            Some(Some(s)) => if s.guild_id@ == guild_id@ && s.role_id@ == role_id@ {
                r == Ok::<RoleConfigAccess, AppError>(
                    RoleConfigAccess { discord_id: s.discord_id, read_only: s.read_only },
                )
            } else {
                r matches Err(e) && e@ == Failure::Forbidden(
                    "Token does not grant access to this role link."@,
                )
            },
            None => match manager {
                Ok(discord_id) => r == Ok::<RoleConfigAccess, AppError>(
                    RoleConfigAccess { discord_id, read_only: false },
                ),
                Err(e) => r == Err::<RoleConfigAccess, AppError>(e),
            },
        },
{
    match bearer {
        Some(session) => iframe_access(session, guild_id, role_id),
        None => match manager {
            Ok(discord_id) => Ok(RoleConfigAccess { discord_id, read_only: false }),
            Err(e) => Err(e),
        },
    }
}

/// Read-only sessions (a developer impersonating the user) may view but
/// not write.
pub fn require_writable(access: &RoleConfigAccess) -> (r: Result<(), AppError>)
    ensures
        if access.read_only {
            r matches Err(e) && e@ == Failure::Forbidden(
                "This configuration is read-only while impersonating a user."@,
            )
        } else {
            r is Ok
        },
{
    if access.read_only {
        Err(
            AppError::Forbidden(
                text::owned("This configuration is read-only while impersonating a user."),
            ),
        )
    } else {
        Ok(())
    }
}

// ── The configuration ──────────────────────────────────────────────────────

/// A text, or nothing.
pub open spec fn text_or_null(t: Option<Seq<char>>) -> Doc {
    match t {
        Some(s) => Doc::Text(s),
        None => Doc::Null,
    }
}

/// The saved condition in the shape that the config page consumes.
pub open spec fn config_doc(list: Seq<Rule>, has_publisher_key: bool) -> Doc {
    if list.len() > 0 {
        let c = list[0];
        Doc::Object(
            seq![
                (
                    "category"@,
                    Doc::Text(
                        if condition::game_field(c.field) {
                            "game"@
                        } else {
                            "account"@
                        },
                    ),
                ),
                ("field"@, Doc::Text(condition::field_key(c.field))),
                ("operator"@, Doc::Text(condition::operator_key(c.operator))),
                ("value"@, c.value),
                (
                    "value_end"@,
                    match c.value_end {
                        Some(d) => d,
                        None => Doc::Null,
                    },
                ),
                ("app_id"@, text_or_null(c.app_id)),
                ("has_publisher_key"@, Doc::Bool(has_publisher_key)),
            ],
        )
    } else {
        Doc::Object(
            seq![
                ("category"@, Doc::Null),
                ("field"@, Doc::Null),
                ("operator"@, Doc::Null),
                ("value"@, Doc::Null),
                ("value_end"@, Doc::Null),
                ("app_id"@, Doc::Null),
                ("has_publisher_key"@, Doc::Bool(has_publisher_key)),
            ],
        )
    }
}

/// Serialize the (single) saved condition into the shape the config page
/// consumes: `{category, field, operator, value, value_end, app_id,
/// has_publisher_key}`. `field` is null when the role link is unconfigured.
pub fn config_json(conditions: &[Condition], has_publisher_key: bool) -> (r: Value)
    ensures
        r@ == config_doc(condition::rules(conditions@), has_publisher_key),
{
    let entries = if conditions.len() > 0 {
        let c = &conditions[0];
        assert(condition::rules(conditions@)[0] == c@);
        vec![
            json::entry(
                "category",
                json::string(
                    if c.field.requires_app_id() {
                        "game"
                    } else {
                        "account"
                    },
                ),
            ),
            json::entry("field", json::string(c.field.json_key())),
            json::entry("operator", json::string(c.operator.key())),
            json::entry("value", c.value.copy()),
            json::entry(
                "value_end",
                match &c.value_end {
                    Some(v) => v.copy(),
                    None => Value::Null,
                },
            ),
            json::entry(
                "app_id",
                match &c.app_id {
                    Some(s) => json::string(s.as_str()),
                    None => Value::Null,
                },
            ),
            json::entry("has_publisher_key", Value::Bool(has_publisher_key)),
        ]
    } else {
        vec![
            json::entry("category", Value::Null),
            json::entry("field", Value::Null),
            json::entry("operator", Value::Null),
            json::entry("value", Value::Null),
            json::entry("value_end", Value::Null),
            json::entry("app_id", Value::Null),
            json::entry("has_publisher_key", Value::Bool(has_publisher_key)),
        ]
    };
    assert(json::doc_entries(entries@) =~= config_doc(
        condition::rules(conditions@),
        has_publisher_key,
    )->Object_0);
    json::object(entries)
}

/// A role link as its page reads it.
pub struct SavedLink {
    pub conditions: Vec<Condition>,
    pub publisher_key: Option<String>,
    pub config_version: i32,
}

/// What the page of a role link shows.
pub open spec fn data_doc(
    base_url: Seq<char>,
    guild_id: Seq<char>,
    role_id: Seq<char>,
    link: SavedLink,
    view_permission: Seq<char>,
) -> Doc {
    Doc::Object(
        seq![
            ("guild_id"@, Doc::Text(guild_id)),
            ("role_id"@, Doc::Text(role_id)),
            (
                "config"@,
                config_doc(condition::rules(link.conditions@), link.publisher_key is Some),
            ),
            ("config_version"@, Doc::Int(link.config_version as int)),
            // The query param lets the verify page show server context.
            ("verify_url"@, Doc::Text(base_url + "/verify?guild="@ + guild_id)),
            (
                "players"@,
                Doc::Object(
                    seq![
                        ("url"@, Doc::Text(base_url + "/players/"@ + guild_id)),
                        ("view_permission"@, Doc::Text(view_permission)),
                    ],
                ),
            ),
        ],
    )
}

fn between(a: &str, b: &str, c: &str) -> (r: Value)
    ensures
        r@ == Doc::Text(a@ + b@ + c@),
{
    let mut t = text::owned(a);
    t.append(b);
    t.append(c);
    Value::Text(t)
}

/// What the page of a role link shows. Without a setting, members may see the player list. The
/// publisher key itself is never shown.
pub fn role_config_data(
    base_url: &str,
    guild_id: &str,
    role_id: &str,
    link: &Option<SavedLink>,
    view_permission: Option<&str>,
) -> (r: Result<Value, AppError>)
    ensures
        match *link {
            None => r matches Err(e) && e@ == Failure::NotFound(
                "This role link doesn't exist. Has it been added in RoleLogic?"@,
            ),
            Some(l) => r matches Ok(v) && v@ == data_doc(
                base_url@,
                guild_id@,
                role_id@,
                l,
                match view_permission {
                    Some(p) => p@,
                    None => "members"@,
                },
            ),
        },
{
    match link {
        None => Err(
            AppError::NotFound(
                text::owned("This role link doesn't exist. Has it been added in RoleLogic?"),
            ),
        ),
        Some(l) => {
            let permission: &str = match view_permission {
                Some(p) => p,
                None => "members",
            };
            let list = vec![
                json::entry("url", between(base_url, "/players/", guild_id)),
                json::entry("view_permission", json::string(permission)),
            ];
            assert(json::doc_entries(list@) =~= seq![
                ("url"@, Doc::Text(base_url@ + "/players/"@ + guild_id@)),
                ("view_permission"@, Doc::Text(permission@)),
            ]);
            let entries = vec![
                json::entry("guild_id", json::string(guild_id)),
                json::entry("role_id", json::string(role_id)),
                json::entry(
                    "config",
                    config_json(l.conditions.as_slice(), l.publisher_key.is_some()),
                ),
                json::entry("config_version", Value::Int(l.config_version as i64)),
                json::entry("verify_url", between(base_url, "/verify?guild=", guild_id)),
                json::entry("players", json::object(list)),
            ];
            assert(json::doc_entries(entries@) =~= data_doc(
                base_url@,
                guild_id@,
                role_id@,
                *l,
                permission@,
            )->Object_0);
            Ok(json::object(entries))
        },
    }
}

// ── Saving ─────────────────────────────────────────────────────────────────

/// A configuration to save.
pub struct RoleConfigSaveBody {
    pub config_version: i32,
    /// Flat key-value map in the exact shape `schema::parse_config` /
    /// `schema::parse_publisher_key` validate (`condition_category`,
    /// `app_id`, `condition_field_game`, `value_num_game`, …).
    pub config: Lookup<String, Value>,
}

/// How far a save has come.
pub enum Saving {
    NeedAccess,
    /// The conditions are to be written if the version is still the one the page was opened with.
    Updating { conditions: Vec<Condition>, key: PublisherKeyAction },
    /// Nothing was written: does the role link exist?
    NeedVersion,
    /// The conditions are written; what becomes of the key is to be written too.
    WritingKey { conditions: Vec<Condition>, key: PublisherKeyAction },
    NeedHasKey { conditions: Vec<Condition>, version: i32 },
    Finished,
}

/// What a save is told.
pub enum SavingInput {
    Access(RoleConfigAccess),
    /// How many rows were written.
    Updated(u64),
    /// The version of the role link, if it exists.
    Version(Option<i32>),
    /// The new version, once everything is written.
    Committed(i32),
    /// Does the role link have a publisher key?
    HasKey(bool),
}

/// What a save asks for.
pub enum SavingCommand {
    /// Write the conditions and count the version up, if it is still this one.
    Update { version: i32 },
    ReadVersion,
    /// Write the key, read the new version, commit, and tell the sync.
    WriteKey(PublisherKeyAction),
    ReadHasKey,
    Answer(Value),
    Fail(AppError),
}

impl Saving {
    /// Is this what is asked for?
    pub open spec fn awaits(self, input: SavingInput) -> bool {
        match input {
            SavingInput::Access(_) => self is NeedAccess,
            SavingInput::Updated(_) => self is Updating,
            SavingInput::Version(_) => self is NeedVersion,
            SavingInput::Committed(_) => self is WritingKey,
            SavingInput::HasKey(_) => self is NeedHasKey,
        }
    }
}

/// The answer to a save.
pub open spec fn saved_doc(version: int, list: Seq<Rule>, has_key: bool) -> Doc {
    Doc::Object(
        seq![
            ("success"@, Doc::Bool(true)),
            ("config_version"@, Doc::Int(version)),
            ("config"@, config_doc(list, has_key)),
        ],
    )
}

fn saved_json(version: i32, conditions: &Vec<Condition>, has_key: bool) -> (r: Value)
    ensures
        r@ == saved_doc(version as int, condition::rules(conditions@), has_key),
{
    let entries = vec![
        json::entry("success", Value::Bool(true)),
        json::entry("config_version", Value::Int(version as i64)),
        json::entry("config", config_json(conditions.as_slice(), has_key)),
    ];
    assert(json::doc_entries(entries@) =~= saved_doc(
        version as int,
        condition::rules(conditions@),
        has_key,
    )->Object_0);
    json::object(entries)
}

/// Ends with an error.
pub open spec fn save_fails(next: Saving, command: SavingCommand, f: Failure) -> bool {
    &&& next is Finished
    &&& command matches SavingCommand::Fail(e)
    &&& e@ == f
}

/// Does the key action say what the form says?
pub open spec fn key_read(config: Map<Seq<char>, Value>, key: PublisherKeyAction) -> bool {
    match schema::text_at(config, "publisher_key"@) {
        None => key is Keep,
        Some(s) => {
            let t = text::trimmed(s);
            if t == schema::SECRET_MASK@ {
                key is Keep
            } else if t.len() == 0 {
                key is Clear
            } else {
                &&& schema::is_publisher_key(t)
                &&& key matches PublisherKeyAction::SetKey(k)
                &&& k@ == t
            }
        },
    }
}

/// Is what the form says of the key neither a key nor the mask nor nothing?
pub open spec fn key_unreadable(config: Map<Seq<char>, Value>) -> bool {
    match schema::text_at(config, "publisher_key"@) {
        None => false,
        Some(s) => {
            let t = text::trimmed(s);
            t != schema::SECRET_MASK@ && t.len() > 0 && !schema::is_publisher_key(t)
        },
    }
}

/// Where a save goes from a state with an input, and what it asks for then.
pub open spec fn saving_moves(
    version: i32,
    config: Map<Seq<char>, Value>,
    state: Saving,
    input: SavingInput,
    next: Saving,
    command: SavingCommand,
) -> bool {
    match (state, input) {
        (Saving::NeedAccess, SavingInput::Access(access)) => if access.read_only {
            save_fails(
                next,
                command,
                Failure::Forbidden(
                    "This configuration is read-only while impersonating a user."@,
                ),
            )
        } else if schema::rule_in(config) is Err {
            save_fails(next, command, schema::rule_in(config)->Err_0)
        } else if key_unreadable(config) {
            save_fails(
                next,
                command,
                Failure::BadRequest(
                    "Publisher key must be the 32-character hexadecimal Web API key from the Steamworks partner site"@,
                ),
            )
        } else {
            &&& next matches Saving::Updating { conditions, key }
            &&& condition::rules(conditions@) == seq![schema::rule_in(config)->Ok_0]
            &&& key_read(config, key)
            &&& command == (SavingCommand::Update { version })
        },
        (Saving::Updating { conditions, key }, SavingInput::Updated(rows)) => if rows == 0 {
            next is NeedVersion && command is ReadVersion
        } else {
            &&& next == (Saving::WritingKey { conditions, key })
            &&& command matches SavingCommand::WriteKey(write)
            &&& match key {
                PublisherKeyAction::Keep => write is Keep,
                PublisherKeyAction::Clear => write is Clear,
                PublisherKeyAction::SetKey(k) => write matches PublisherKeyAction::SetKey(s) && s@
                    == k@,
            }
        },
        (Saving::NeedVersion, SavingInput::Version(found)) => if found is None {
            save_fails(
                next,
                command,
                Failure::NotFound(
                    "This role link doesn't exist. Has it been added in RoleLogic?"@,
                ),
            )
        } else {
            save_fails(next, command, Failure::StaleVersion)
        },
        // The saved config is echoed so the page can reset its baseline without a second
        // round-trip.
        (Saving::WritingKey { conditions, key }, SavingInput::Committed(new_version)) =>
        match key {
            PublisherKeyAction::Keep => {
                &&& next == (Saving::NeedHasKey { conditions, version: new_version })
                &&& command is ReadHasKey
            },
            _ => {
                &&& next is Finished
                &&& command matches SavingCommand::Answer(v)
                &&& v@ == saved_doc(
                    new_version as int,
                    condition::rules(conditions@),
                    key is SetKey,
                )
            },
        },
        (Saving::NeedHasKey { conditions, version: new_version }, SavingInput::HasKey(has)) => {
            &&& next is Finished
            &&& command matches SavingCommand::Answer(v)
            &&& v@ == saved_doc(new_version as int, condition::rules(conditions@), has)
        },
        _ => false,
    }
}

/// Saves a configuration, if it is still the one that the page was opened with: takes what was
/// asked for and says what to do next.
pub fn role_config_save(body: &RoleConfigSaveBody, state: Saving, input: SavingInput) -> (r: (
    Saving,
    SavingCommand,
))
    requires
        state.awaits(input),
    ensures
        saving_moves(body.config_version, body.config@, state, input, r.0, r.1),
{
    match (state, input) {
        (Saving::NeedAccess, SavingInput::Access(access)) => {
            if let Err(e) = require_writable(&access) {
                return (Saving::Finished, SavingCommand::Fail(e));
            }
            let conditions = match schema::parse_config(&body.config) {
                Ok(c) => c,
                Err(e) => return (Saving::Finished, SavingCommand::Fail(e)),
            };
            let key = match schema::parse_publisher_key(&body.config) {
                Ok(k) => k,
                Err(e) => return (Saving::Finished, SavingCommand::Fail(e)),
            };
            (
                Saving::Updating { conditions, key },
                SavingCommand::Update { version: body.config_version },
            )
        },
        (Saving::Updating { conditions, key }, SavingInput::Updated(rows)) => {
            if rows == 0 {
                (Saving::NeedVersion, SavingCommand::ReadVersion)
            } else {
                let write = match &key {
                    PublisherKeyAction::Keep => PublisherKeyAction::Keep,
                    PublisherKeyAction::Clear => PublisherKeyAction::Clear,
                    PublisherKeyAction::SetKey(k) => PublisherKeyAction::SetKey(k.clone()),
                };
                (Saving::WritingKey { conditions, key }, SavingCommand::WriteKey(write))
            }
        },
        (Saving::NeedVersion, SavingInput::Version(found)) => {
            let e = match found {
                None => AppError::NotFound(
                    text::owned("This role link doesn't exist. Has it been added in RoleLogic?"),
                ),
                Some(_) => AppError::StaleVersion,
            };
            (Saving::Finished, SavingCommand::Fail(e))
        },
        (Saving::WritingKey { conditions, key }, SavingInput::Committed(version)) => match key {
            PublisherKeyAction::Keep => (
                Saving::NeedHasKey { conditions, version },
                SavingCommand::ReadHasKey,
            ),
            PublisherKeyAction::Clear => {
                let v = saved_json(version, &conditions, false);
                (Saving::Finished, SavingCommand::Answer(v))
            },
            PublisherKeyAction::SetKey(_) => {
                let v = saved_json(version, &conditions, true);
                (Saving::Finished, SavingCommand::Answer(v))
            },
        },
        (Saving::NeedHasKey { conditions, version }, SavingInput::HasKey(has)) => {
            let v = saved_json(version, &conditions, has);
            (Saving::Finished, SavingCommand::Answer(v))
        },
        (state, _) => {
            assert(false);
            (state, SavingCommand::ReadVersion)
        },
    }
}

// ── Preview ────────────────────────────────────────────────────────────────

/// A configuration to preview.
pub struct RoleConfigPreviewBody {
    pub config: Lookup<String, Value>,
}

/// The saved conditions to preview, and whether there is a publisher key.
pub fn role_config_preview(link: Option<(Vec<Condition>, Option<String>)>) -> (r: Result<
    (Vec<Condition>, bool),
    AppError,
>)
    ensures
        match link {
            None => r matches Err(e) && e@ == Failure::NotFound("Role link not found."@),
            Some((conditions, key)) => r == Ok::<(Vec<Condition>, bool), AppError>(
                (conditions, key is Some),
            ),
        },
{
    match link {
        None => Err(AppError::NotFound(text::owned("Role link not found."))),
        Some((conditions, key)) => {
            let has_key = key.is_some();
            Ok((conditions, has_key))
        },
    }
}

/// The conditions of an edit to preview, and whether the stored publisher key, if there is one,
/// counts: a freshly typed publisher key has no ownership cache yet, so only a
/// stored key makes the partner-API data available, and one that is cleared does not.
pub fn role_config_preview_edit(body: &RoleConfigPreviewBody, stored_key: Option<bool>) -> (r:
    Result<(Vec<Condition>, bool), AppError>)
    ensures
        if schema::rule_in(body.config@) is Err {
            r matches Err(e) && e@ == schema::rule_in(body.config@)->Err_0
        } else if key_unreadable(body.config@) {
            r matches Err(e) && e@ == Failure::BadRequest(
                "Publisher key must be the 32-character hexadecimal Web API key from the Steamworks partner site"@,
            )
        } else {
            &&& r matches Ok((conditions, has_key))
            &&& condition::rules(conditions@) == seq![schema::rule_in(body.config@)->Ok_0]
            &&& has_key == (stored_key == Some(true) && !key_cleared(body.config@))
        },
{
    let conditions = match schema::parse_config(&body.config) {
        Ok(c) => c,
        Err(e) => return Err(e),
    };
    let key = match schema::parse_publisher_key(&body.config) {
        Ok(k) => k,
        Err(e) => return Err(e),
    };
    let has_key = match key {
        PublisherKeyAction::Clear => false,
        _ => match stored_key {
            Some(b) => b,
            None => false,
        },
    };
    proof {
        schema::law_mask_is_no_key();
    }
    Ok((conditions, has_key))
}

/// Does the form clear the publisher key?
pub open spec fn key_cleared(config: Map<Seq<char>, Value>) -> bool {
    schema::text_at(config, "publisher_key"@) matches Some(s) && text::trimmed(s).len() == 0
}

/// The answer of a preview: how many match, of how many that are linked; or that it cannot be
/// known, when the members are not known.
pub open spec fn preview_doc(counts: Option<(i64, i64)>) -> Doc {
    match counts {
        Some((matching, linked)) => Doc::Object(
            seq![
                ("available"@, Doc::Bool(true)),
                ("matching"@, Doc::Int(matching as int)),
                ("linked"@, Doc::Int(linked as int)),
            ],
        ),
        None => Doc::Object(
            seq![
                ("available"@, Doc::Bool(false)),
                (
                    "reason"@,
                    Doc::Text(
                        "Member list temporarily unavailable; preview will work once the Auth Gateway responds."@,
                    ),
                ),
            ],
        ),
    }
}

/// The answer of a preview.
pub fn preview_json(counts: Option<(i64, i64)>) -> (r: Value)
    ensures
        r@ == preview_doc(counts),
{
    let entries = match counts {
        Some((matching, linked)) => vec![
            json::entry("available", Value::Bool(true)),
            json::entry("matching", Value::Int(matching)),
            json::entry("linked", Value::Int(linked)),
        ],
        None => vec![
            json::entry("available", Value::Bool(false)),
            json::entry(
                "reason",
                json::string(
                    "Member list temporarily unavailable; preview will work once the Auth Gateway responds.",
                ),
            ),
        ],
    };
    assert(json::doc_entries(entries@) =~= preview_doc(counts)->Object_0);
    json::object(entries)
}

// ── Who sees the player list ───────────────────────────────────────────────

/// Who may see the player list.
pub struct ViewPermBody {
    pub view_permission: String,
}

/// The answer to a setting of who may see the player list: managers or members, and only from one
/// who may write.
pub fn set_view_permission(access: &RoleConfigAccess, body: &ViewPermBody) -> (r: Result<
    Value,
    AppError,
>)
    ensures
        ({
            let vp = body.view_permission@;
            if access.read_only {
                r matches Err(e) && e@ == Failure::Forbidden(
                    "This configuration is read-only while impersonating a user."@,
                )
            } else if vp == "managers"@ || vp == "members"@ {
                r matches Ok(v) && v@ == Doc::Object(
                    seq![("success"@, Doc::Bool(true)), ("view_permission"@, Doc::Text(vp))],
                )
            } else {
                r matches Err(e) && e@ == Failure::BadRequest(
                    "Unknown view_permission '"@ + vp + "' (expected managers|members)."@,
                )
            }
        }),
{
    if let Err(e) = require_writable(access) {
        return Err(e);
    }
    let vp: &str = body.view_permission.as_str();
    if !text::same(vp, "managers") && !text::same(vp, "members") {
        let mut m = text::owned("Unknown view_permission '");
        m.append(vp);
        m.append("' (expected managers|members).");
        return Err(AppError::BadRequest(m));
    }
    let entries = vec![
        json::entry("success", Value::Bool(true)),
        json::entry("view_permission", json::string(vp)),
    ];
    assert(json::doc_entries(entries@) =~= seq![
        ("success"@, Doc::Bool(true)),
        ("view_permission"@, Doc::Text(vp@)),
    ]);
    Ok(json::object(entries))
}

// ── What holds of every save ───────────────────────────────────────────────

/// A read-only session never writes: its save ends with a refusal.
pub proof fn law_read_only_sessions_never_write(
    version: i32,
    config: Map<Seq<char>, Value>,
    access: RoleConfigAccess,
    next: Saving,
    command: SavingCommand,
)
    requires
        access.read_only,
        saving_moves(
            version,
            config,
            Saving::NeedAccess,
            SavingInput::Access(access),
            next,
            command,
        ),
    ensures
        next is Finished,
        command is Fail,
{
}

/// A save asks to write over the version that the page was opened with, and when that is not the
/// stored one any more, so that nothing was written, it ends as stale or, without the role link,
/// as not found.
pub proof fn law_stale_saves_write_nothing(
    version: i32,
    config: Map<Seq<char>, Value>,
    state: Saving,
    input: SavingInput,
    next: Saving,
    command: SavingCommand,
)
    requires
        saving_moves(version, config, state, input, next, command),
    ensures
        command matches SavingCommand::Update { version: v } ==> v == version,
        command is WriteKey ==> input is Updated && input->Updated_0 > 0,
        input == SavingInput::Updated(0) ==> next is NeedVersion,
        state is NeedVersion ==> command is Fail && (command->Fail_0@ is StaleVersion
            || command->Fail_0@ is NotFound),
{
}

/// The stored publisher key is never shown: what the page of a role link shows does not depend on
/// which key it is.
pub proof fn law_publisher_key_is_never_shown(
    base_url: Seq<char>,
    guild_id: Seq<char>,
    role_id: Seq<char>,
    link: SavedLink,
    other_key: String,
    view_permission: Seq<char>,
)
    requires
        link.publisher_key is Some,
    ensures
        data_doc(base_url, guild_id, role_id, link, view_permission) == data_doc(
            base_url,
            guild_id,
            role_id,
            SavedLink { publisher_key: Some(other_key), ..link },
            view_permission,
        ),
{
}

/// What is saved is shown again: the category, the field, the operator, the value, the end of the
/// range and the app lead to the same condition.
pub proof fn law_saved_config_is_echoed(list: Seq<Rule>, has_key: bool)
    requires
        list.len() > 0,
    ensures
        config_doc(list, has_key).text_member("category"@) == Some(
            if condition::game_field(list[0].field) {
                "game"@
            } else {
                "account"@
            },
        ),
        config_doc(list, has_key).text_member("field"@) == Some(
            condition::field_key(list[0].field),
        ),
        condition::field_named(config_doc(list, has_key).text_member("field"@)->0) == Some(
            list[0].field,
        ),
        config_doc(list, has_key).text_member("operator"@) == Some(
            condition::operator_key(list[0].operator),
        ),
        condition::operator_named(config_doc(list, has_key).text_member("operator"@)->0) == Some(
            list[0].operator,
        ),
        config_doc(list, has_key).member("value"@) == Some(list[0].value),
        config_doc(list, has_key).member("value_end"@) == Some(
            match list[0].value_end {
                Some(d) => d,
                None => Doc::Null,
            },
        ),
        config_doc(list, has_key).member("app_id"@) == Some(text_or_null(list[0].app_id)),
{
    reveal_strlit("category");
    reveal_strlit("field");
    reveal_strlit("operator");
    reveal_strlit("value");
    reveal_strlit("value_end");
    reveal_strlit("app_id");
    reveal_strlit("has_publisher_key");
    let e7 = config_doc(list, has_key)->Object_0;
    let e6 = e7.drop_last();
    let e5 = e6.drop_last();
    let e4 = e5.drop_last();
    let e3 = e4.drop_last();
    let e2 = e3.drop_last();
    let e1 = e2.drop_last();
    assert(e7.last() == e7[6] && e6.last() == e7[5] && e5.last() == e7[4] && e4.last() == e7[3]
        && e3.last() == e7[2] && e2.last() == e7[1] && e1.last() == e7[0]);
    assert("category"@.len() == 8 && "field"@.len() == 5 && "operator"@.len() == 8 && "value"@.len() == 5
        && "value_end"@.len() == 9 && "app_id"@.len() == 6 && "has_publisher_key"@.len() == 17);
    assert("field"@[0] == 'f' && "value"@[0] == 'v' && "category"@[0] == 'c' && "operator"@[0]
        == 'o');
    reveal_with_fuel(json::entry_of, 7);
    condition::law_names_lead_back(list[0].field, list[0].operator);
}

/// Is this a save, up to its `n`th step: from each state with the next input to the next state,
/// with what is asked for then?
pub open spec fn saving_steps(
    version: i32,
    config: Map<Seq<char>, Value>,
    inputs: Seq<SavingInput>,
    states: Seq<Saving>,
    commands: Seq<SavingCommand>,
    n: int,
) -> bool {
    &&& states[0] is NeedAccess
    &&& forall|k: int|
        0 <= k < n ==> saving_moves(
            version,
            config,
            states[k],
            #[trigger] inputs[k],
            states[k + 1],
            commands[k],
        )
}

/// A save that may be written is written: with a session that may write, a form that describes a
/// condition, and a key that can be read, the conditions of the form are written over the version
/// that the page was opened with; once that is done, so is the key, and the answer shows the new
/// version and the condition.
pub proof fn law_a_valid_save_is_written(
    version: i32,
    config: Map<Seq<char>, Value>,
    access: RoleConfigAccess,
    rows: u64,
    new_version: i32,
    inputs: Seq<SavingInput>,
    states: Seq<Saving>,
    commands: Seq<SavingCommand>,
)
    requires
        !access.read_only,
        schema::rule_in(config) is Ok,
        !config.contains_key("publisher_key"@) || !(config["publisher_key"@]@ is Text) || ({
            let t = text::trimmed(config["publisher_key"@]@->Text_0);
            t.len() == 0 || t == schema::SECRET_MASK@ || schema::is_publisher_key(t)
        }),
        rows > 0,
        inputs[0] == SavingInput::Access(access),
        inputs[1] == SavingInput::Updated(rows),
        inputs[2] == SavingInput::Committed(new_version),
    ensures
        saving_steps(version, config, inputs, states, commands, 1) ==> {
            &&& commands[0] == (SavingCommand::Update { version })
            &&& states[1] matches Saving::Updating { conditions, .. }
            &&& conditions@.len() == 1
            &&& conditions@[0]@ == schema::rule_in(config)->Ok_0
        },
        ({
            let given = config.contains_key("publisher_key"@) && config["publisher_key"@]@ is Text;
            let t = text::trimmed(config["publisher_key"@]@->Text_0);
            let keeps = !given || t == schema::SECRET_MASK@;
            let clears = given && t.len() == 0;
            let sets = given && schema::is_publisher_key(t);
            &&& saving_steps(version, config, inputs, states, commands, 2) ==> {
                &&& commands[1] is WriteKey
                &&& keeps ==> commands[1]->WriteKey_0 is Keep
                &&& clears ==> commands[1]->WriteKey_0 is Clear
                &&& sets ==> commands[1]->WriteKey_0 is SetKey
                    && commands[1]->WriteKey_0->SetKey_0@ == t
                &&& states[2] is WritingKey
            }
            &&& saving_steps(version, config, inputs, states, commands, 3) ==> {
                &&& keeps ==> {
                    &&& commands[2] is ReadHasKey
                    &&& states[3] matches Saving::NeedHasKey { conditions, version: v }
                    &&& v == new_version
                    &&& conditions@.len() == 1
                    &&& conditions@[0]@ == schema::rule_in(config)->Ok_0
                }
                &&& clears || sets ==> {
                    &&& commands[2] matches SavingCommand::Answer(v)
                    &&& v@ == saved_doc(
                        new_version as int,
                        seq![schema::rule_in(config)->Ok_0],
                        sets,
                    )
                }
            }
        }),
{
    schema::law_mask_is_no_key();
    let list = condition::rules(states[1]->Updating_conditions@);
    assert(list.len() == states[1]->Updating_conditions@.len());
    assert(list.len() == 1 ==> list[0] == states[1]->Updating_conditions@[0]@);
    if config.contains_key("publisher_key"@) && config["publisher_key"@]@ is Text {
        let t = text::trimmed(config["publisher_key"@]@->Text_0);
        assert(schema::text_at(config, "publisher_key"@) == Some(
            config["publisher_key"@]@->Text_0,
        ));
        if t.len() == 0 {
            assert(t != schema::SECRET_MASK@);
        }
    } else {
        assert(schema::text_at(config, "publisher_key"@) is None);
    }
}

/// Once the stored key is looked up, a save that kept it is answered with the new version and the
/// condition, and with whether there is a key.
pub proof fn law_a_kept_key_is_shown_as_stored(
    version: i32,
    config: Map<Seq<char>, Value>,
    conditions: Vec<Condition>,
    new_version: i32,
    has_key: bool,
    next: Saving,
    command: SavingCommand,
)
    requires
        saving_moves(
            version,
            config,
            Saving::NeedHasKey { conditions, version: new_version },
            SavingInput::HasKey(has_key),
            next,
            command,
        ),
    ensures
        next is Finished,
        command matches SavingCommand::Answer(v) && v@ == saved_doc(
            new_version as int,
            condition::rules(conditions@),
            has_key,
        ),
{
}

/// A save that may not be written says why: a form that describes no condition with what is wrong
/// with it, and a key that is none as such.
pub proof fn law_a_bad_form_is_not_written(
    version: i32,
    config: Map<Seq<char>, Value>,
    access: RoleConfigAccess,
    next: Saving,
    command: SavingCommand,
)
    requires
        !access.read_only,
        saving_moves(
            version,
            config,
            Saving::NeedAccess,
            SavingInput::Access(access),
            next,
            command,
        ),
    ensures
        command is Update || command is Fail,
        schema::rule_in(config) matches Err(f) ==> command is Fail && command->Fail_0@ == f,
        command is Update ==> schema::rule_in(config) is Ok,
        schema::rule_in(config) is Ok && config.contains_key("publisher_key"@) && (
        config["publisher_key"@]@ matches Doc::Text(t) && ({
            let k = text::trimmed(t);
            k.len() > 0 && k != schema::SECRET_MASK@ && !(k.len() == 32 && forall|i: int|
                0 <= i < k.len() ==> ('0' <= #[trigger] k[i] <= '9' || 'a' <= k[i] <= 'f' || 'A'
                    <= k[i] <= 'F'))
        })) ==> command is Fail && command->Fail_0@ is BadRequest,
{
    if schema::rule_in(config) is Ok && config.contains_key("publisher_key"@)
        && config["publisher_key"@]@ is Text {
        let k = text::trimmed(config["publisher_key"@]@->Text_0);
        if schema::is_publisher_key(k) {
            assert forall|i: int| 0 <= i < k.len() implies ('0' <= #[trigger] k[i] <= '9' || 'a'
                <= k[i] <= 'f' || 'A' <= k[i] <= 'F') by {
                assert(schema::is_hex_digit(k[i]));
            }
        }
    }
}

/// The page of a role link shows its guild and role, its configuration and whether a key is stored,
/// its version, and where members verify and see the player list.
pub proof fn law_the_page_shows_the_role_link(
    base_url: Seq<char>,
    guild_id: Seq<char>,
    role_id: Seq<char>,
    link: SavedLink,
    view_permission: Seq<char>,
)
    ensures
        ({
            let d = data_doc(base_url, guild_id, role_id, link, view_permission);
            &&& d.text_member("guild_id"@) == Some(guild_id)
            &&& d.text_member("role_id"@) == Some(role_id)
            &&& d.int_member("config_version"@) == Some(link.config_version as int)
            &&& d.text_member("verify_url"@) == Some(base_url + "/verify?guild="@ + guild_id)
            &&& d.member("config"@) == Some(
                config_doc(condition::rules(link.conditions@), link.publisher_key is Some),
            )
            &&& d.member("players"@) is Some
            &&& d.member("players"@)->0.text_member("url"@) == Some(
                base_url + "/players/"@ + guild_id,
            )
            &&& d.member("players"@)->0.text_member("view_permission"@) == Some(view_permission)
        }),
{
    reveal_strlit("guild_id");
    reveal_strlit("role_id");
    reveal_strlit("config");
    reveal_strlit("config_version");
    reveal_strlit("verify_url");
    reveal_strlit("players");
    let e = data_doc(base_url, guild_id, role_id, link, view_permission)->Object_0;
    assert("guild_id"@.len() == 8 && "role_id"@.len() == 7 && "config"@.len() == 6
        && "config_version"@.len() == 14 && "verify_url"@.len() == 10 && "players"@.len() == 7);
    assert("role_id"@[0] != "players"@[0]);
    json::lemma_entry_of_last(e, "guild_id"@, 0);
    json::lemma_entry_of_last(e, "role_id"@, 1);
    json::lemma_entry_of_last(e, "config"@, 2);
    json::lemma_entry_of_last(e, "config_version"@, 3);
    json::lemma_entry_of_last(e, "verify_url"@, 4);
    json::lemma_entry_of_last(e, "players"@, 5);
    let list = e[5].1;
    reveal_strlit("url");
    reveal_strlit("view_permission");
    assert("url"@.len() == 3 && "view_permission"@.len() == 15);
    json::lemma_entry_of_last(list->Object_0, "url"@, 0);
    json::lemma_entry_of_last(list->Object_0, "view_permission"@, 1);
}

/// The configuration shows whether a publisher key is stored; without a condition it shows no field.
pub proof fn law_config_shows_whether_a_key_is_stored(list: Seq<Rule>, has_key: bool)
    ensures
        config_doc(list, has_key).bool_member("has_publisher_key"@) == Some(has_key),
        list.len() == 0 ==> config_doc(list, has_key).member("field"@) == Some(Doc::Null),
{
    reveal_strlit("category");
    reveal_strlit("field");
    reveal_strlit("operator");
    reveal_strlit("value");
    reveal_strlit("value_end");
    reveal_strlit("app_id");
    reveal_strlit("has_publisher_key");
    let e = config_doc(list, has_key)->Object_0;
    assert("category"@.len() == 8 && "field"@.len() == 5 && "operator"@.len() == 8
        && "value"@.len() == 5 && "value_end"@.len() == 9 && "app_id"@.len() == 6
        && "has_publisher_key"@.len() == 17);
    assert("category"@[0] != "operator"@[0]);
    assert("field"@[0] != "value"@[0]);
    json::lemma_entry_of_last(e, "category"@, 0);
    json::lemma_entry_of_last(e, "field"@, 1);
    json::lemma_entry_of_last(e, "operator"@, 2);
    json::lemma_entry_of_last(e, "value"@, 3);
    json::lemma_entry_of_last(e, "value_end"@, 4);
    json::lemma_entry_of_last(e, "app_id"@, 5);
    json::lemma_entry_of_last(e, "has_publisher_key"@, 6);
}

/// The answer to a save shows success, the new version and the saved configuration; that of a
/// preview shows how many match and how many are linked, or that it cannot be known.
pub proof fn law_answers_show_what_came_of_it(
    version: int,
    list: Seq<Rule>,
    has_key: bool,
    matching: i64,
    linked: i64,
)
    ensures
        saved_doc(version, list, has_key).bool_member("success"@) == Some(true),
        saved_doc(version, list, has_key).int_member("config_version"@) == Some(version),
        saved_doc(version, list, has_key).member("config"@) == Some(config_doc(list, has_key)),
        preview_doc(Some((matching, linked))).bool_member("available"@) == Some(true),
        preview_doc(Some((matching, linked))).int_member("matching"@) == Some(matching as int),
        preview_doc(Some((matching, linked))).int_member("linked"@) == Some(linked as int),
        preview_doc(None).bool_member("available"@) == Some(false),
{
    reveal_strlit("success");
    reveal_strlit("config_version");
    reveal_strlit("config");
    let e = saved_doc(version, list, has_key)->Object_0;
    assert("success"@.len() == 7 && "config_version"@.len() == 14 && "config"@.len() == 6);
    json::lemma_entry_of_last(e, "success"@, 0);
    json::lemma_entry_of_last(e, "config_version"@, 1);
    json::lemma_entry_of_last(e, "config"@, 2);
    reveal_strlit("available");
    reveal_strlit("matching");
    reveal_strlit("linked");
    let p = preview_doc(Some((matching, linked)))->Object_0;
    assert("available"@.len() == 9 && "matching"@.len() == 8 && "linked"@.len() == 6);
    json::lemma_entry_of_last(p, "available"@, 0);
    json::lemma_entry_of_last(p, "matching"@, 1);
    json::lemma_entry_of_last(p, "linked"@, 2);
    reveal_strlit("reason");
    assert("reason"@.len() == 6);
    let q = preview_doc(None)->Object_0;
    json::lemma_entry_of_last(q, "available"@, 0);
}

/// A request is taken for an embedded one exactly where it is for an `iframe` or a `frame` or comes
/// from across sites, each letter in either case.
pub proof fn law_frames_are_recognised(dest: Seq<char>, site: Seq<char>)
    ensures
        embedded(dest, site) <==> {
            ||| dest.len() == 6 && forall|i: int|
                0 <= i < 6 ==> (#[trigger] dest[i]) == "iframe"@[i] || dest[i] == "IFRAME"@[i]
            ||| dest.len() == 5 && forall|i: int|
                0 <= i < 5 ==> (#[trigger] dest[i]) == "frame"@[i] || dest[i] == "FRAME"@[i]
            ||| site.len() == 10 && forall|i: int|
                0 <= i < 10 ==> (#[trigger] site[i]) == "cross-site"@[i] || site[i]
                    == "CROSS-SITE"@[i]
        },
{
    reveal_strlit("iframe");
    reveal_strlit("IFRAME");
    reveal_strlit("frame");
    reveal_strlit("FRAME");
    reveal_strlit("cross-site");
    reveal_strlit("CROSS-SITE");
    lemma_in_either_case(dest, "iframe"@, "IFRAME"@);
    lemma_in_either_case(dest, "frame"@, "FRAME"@);
    lemma_in_either_case(site, "cross-site"@, "CROSS-SITE"@);
}

proof fn lemma_in_either_case(t: Seq<char>, small: Seq<char>, capital: Seq<char>)
    requires
        small.len() == capital.len(),
        forall|i: int|
            0 <= i < small.len() ==> {
                ||| 'a' <= (#[trigger] small[i]) <= 'z' && capital[i] as int == small[i] as int - 32
                ||| small[i] == '-' && capital[i] == '-'
            },
    ensures
        text::lowered(t) == small <==> t.len() == small.len() && forall|i: int|
            0 <= i < small.len() ==> (#[trigger] t[i]) == small[i] || t[i] == capital[i],
{
    if text::lowered(t) == small {
        assert forall|i: int| 0 <= i < small.len() implies (#[trigger] t[i]) == small[i] || t[i]
            == capital[i] by {
            assert(text::lowered(t)[i] == small[i]);
        }
    }
    if t.len() == small.len() && forall|i: int|
        0 <= i < small.len() ==> (#[trigger] t[i]) == small[i] || t[i] == capital[i] {
        assert(text::lowered(t) =~= small);
    }
}

/// The key is cleared by a text of nothing but white space, and kept as it is where the form does
/// not speak of it.
pub proof fn law_a_blank_key_clears(config: Map<Seq<char>, Value>)
    ensures
        schema::text_at(config, "publisher_key"@) is None ==> !key_cleared(config),
        schema::text_at(config, "publisher_key"@) matches Some(s) ==> (key_cleared(config) <==> (
        forall|i: int| 0 <= i < s.len() ==> text::white(#[trigger] s[i]))),
{
    if let Some(s) = schema::text_at(config, "publisher_key"@) {
        let at = text::law_trimming_takes_white_space_from_the_ends(s);
        if text::trimmed(s).len() > 0 {
            assert(!text::white(s[at]));
        }
    }
}

/// A token that is not accepted is answered by what is wrong with it; of a token that cannot be
/// trusted at all no more is said than that.
pub proof fn law_a_refused_token_is_told_why(e: RlTokenError)
    ensures
        e is Expired <==> token_message(e)
            == "Your session expired. Reopen the plugin in the RoleLogic dashboard."@,
        e is BadSignature || e is Malformed <==> token_message(e) == "Invalid auth token."@,
        e is WrongAudience <==> token_message(e) == "Token is for a different plugin."@,
        e is WrongIssuer <==> token_message(e) == "Token was not issued by RoleLogic."@,
{
    reveal_strlit("Your session expired. Reopen the plugin in the RoleLogic dashboard.");
    reveal_strlit("Invalid auth token.");
    reveal_strlit("Token is for a different plugin.");
    reveal_strlit("Token was not issued by RoleLogic.");
    assert("Invalid auth token."@.len() == 19);
    assert("Token is for a different plugin."@.len() == 32);
    assert("Token was not issued by RoleLogic."@.len() == 34);
}

/// Of what a form says of the key, white space around it aside, nothing is a key to clear, the mask
/// is the key that is there, and all that is neither of them nor 32 hexadecimal digits is refused.
pub proof fn law_unreadable_keys_are_recognised(config: Map<Seq<char>, Value>, t: Seq<char>)
    requires
        schema::text_at(config, "publisher_key"@) is Some,
        t == text::trimmed(schema::text_at(config, "publisher_key"@)->0),
    ensures
        t.len() == 0 || t == schema::SECRET_MASK@ ==> !key_unreadable(config),
        t.len() != 0 && t.len() != 32 && t != schema::SECRET_MASK@ ==> key_unreadable(config),
        t.len() == 32 && t != schema::SECRET_MASK@ ==> (key_unreadable(config) <==> exists|i: int|
            0 <= i < 32 && !('0' <= (#[trigger] t[i]) <= '9') && !('a' <= t[i] <= 'f') && !('A'
                <= t[i] <= 'F')),
{
    schema::law_a_publisher_key_is_32_hexadecimal_digits(t);
}

} // verus!
