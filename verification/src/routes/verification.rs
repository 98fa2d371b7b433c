//! Linking a Discord account with a Steam profile.

use vstd::prelude::*;
use crate::clock;
use crate::clock::Timestamp;
use crate::config;
use crate::digest;
use crate::error;
use crate::error::{AppError, Failure};
use crate::json;
use crate::json::{Doc, Value};
use crate::models::condition;
use crate::routes::pages;
use crate::services::cache_docs;
use crate::services::steam_api::PlayerSummary;
use crate::text;
use crate::url;

verus! {

/// The cookie that holds the session.
pub const SESSION_COOKIE: &'static str = "rl_session";

/// For how many seconds a verification may take.
pub const VERIFICATION_SECS: u64 = 900;

/// How many seconds have to pass between two re-checks.
pub const RECHECK_SECS: i64 = 300;

/// The parts of the verify page.
pub open spec fn verify_parts() -> Seq<Seq<char>> {
    seq![
        pages::VERIFY_PART_1@,
        pages::VERIFY_PART_2@,
        pages::VERIFY_PART_3@,
        pages::VERIFY_PART_4@ + pages::PRIVACY_WARNING@ + pages::VERIFY_AFTER_WARNING@,
        pages::VERIFY_PART_5@,
        pages::VERIFY_PART_6@ + pages::RECHECK_PATH@ + pages::VERIFY_AFTER_RECHECK@,
    ]
}

fn around(before: &str, middle: &str, after: &str) -> (r: String)
    ensures
        r@ == before@ + middle@ + after@,
{
    let mut t = text::owned(before);
    t.append(middle);
    t.append(after);
    t
}

/// The verify page of a plugin with this base URL.
pub fn render_verify_page(base_url: &str) -> (r: String)
    ensures
        r@ == text::joined(verify_parts(), base_url@),
{
    let parts = vec![
        text::owned(pages::VERIFY_PART_1),
        text::owned(pages::VERIFY_PART_2),
        text::owned(pages::VERIFY_PART_3),
        around(pages::VERIFY_PART_4, pages::PRIVACY_WARNING, pages::VERIFY_AFTER_WARNING),
        text::owned(pages::VERIFY_PART_5),
        around(pages::VERIFY_PART_6, pages::RECHECK_PATH, pages::VERIFY_AFTER_RECHECK),
    ];
    assert(text::texts(parts@) =~= verify_parts());
    text::join(&parts, base_url)
}

/// Who is signed in, by Discord id and display name. `session` is what the cookie was verified to
/// say, if there is one and it is valid.
pub fn get_session(session: Option<(String, String)>) -> (r: Result<(String, String), AppError>)
    ensures
        match session {
            Some(s) => r == Ok::<(String, String), AppError>(s),
            None => r matches Err(e) && e@ == Failure::Unauthorized,
        },
{
    match session {
        Some(s) => Ok(s),
        None => Err(AppError::Unauthorized),
    }
}

/// Where to sign in with Discord.
pub fn login() -> (r: String)
    ensures
        r@ == "/auth/login?return_to="@ + url::url_text("/steam-player-role/verify"@),
{
    text::cat("/auth/login?return_to=", url::encode("/steam-player-role/verify").as_str())
}

/// What a status says of the linked account: its id, its name, and whether Steam showed its library
/// when it was last fetched, as far as they are there.
pub open spec fn status_doc(
    discord_id: Seq<char>,
    display_name: Seq<char>,
    account: Option<(String, Option<String>)>,
    library_visible: Option<bool>,
) -> Doc {
    Doc::Object(
        seq![
            ("discord_id"@, Doc::Text(discord_id)),
            ("display_name"@, Doc::Text(display_name)),
            (
                "linked"@,
                match account {
                    Some(a) => Doc::Text(a.0@),
                    None => Doc::Null,
                },
            ),
            (
                "steam_name"@,
                match account {
                    Some(a) => cache_docs::text_doc(a.1),
                    None => Doc::Null,
                },
            ),
            (
                "library_visible"@,
                match library_visible {
                    Some(b) => Doc::Bool(b),
                    None => Doc::Null,
                },
            ),
        ],
    )
}

/// The status of the one who is signed in, by which the verify page warns of private game details.
pub fn status(
    discord_id: &str,
    display_name: &str,
    account: &Option<(String, Option<String>)>,
    library_visible: Option<bool>,
) -> (r: Value)
    ensures
        r@ == status_doc(discord_id@, display_name@, *account, library_visible),
{
    let (linked, steam_name) = match account {
        Some(a) => (
            json::string(a.0.as_str()),
            match &a.1 {
                Some(n) => json::string(n.as_str()),
                None => Value::Null,
            },
        ),
        None => (Value::Null, Value::Null),
    };
    let entries = vec![
        json::entry("discord_id", json::string(discord_id)),
        json::entry("display_name", json::string(display_name)),
        json::entry("linked", linked),
        json::entry("steam_name", steam_name),
        json::entry(
            "library_visible",
            match library_visible {
                Some(b) => Value::Bool(b),
                None => Value::Null,
            },
        ),
    ];
    assert(json::doc_entries(entries@) =~= status_doc(
        discord_id@,
        display_name@,
        *account,
        library_visible,
    )->Object_0);
    json::object(entries)
}

// ── Sign-in with Steam ─────────────────────────────────────────────────────

/// `rand::thread_rng` and `rand::Rng::gen`: a random byte. Which one it is, is left open.
#[verifier::external_body]
fn random_byte() -> (r: u8) {
    rand::Rng::gen::<u8>(&mut rand::thread_rng())
}

/// A nonce of 32 random bytes, in hexadecimal, for replay protection.
pub fn fresh_nonce() -> (r: String)
    ensures
        r@.len() == 64,
        is_nonce(r@),
{
    let mut bytes: Vec<u8> = Vec::new();
    while bytes.len() < 32
        invariant
            bytes@.len() <= 32,
        decreases 32 - bytes@.len(),
    {
        bytes.push(random_byte());
    }
    digest::hex(bytes.as_slice())
}

/// The address of Steam's sign-in, which leads back to the plugin.
pub open spec fn openid_url(base_url: Seq<char>) -> Seq<char> {
    "https://steamcommunity.com/openid/login?openid.ns=http://specs.openid.net/auth/2.0&openid.mode=checkid_setup&openid.return_to="@
        + url::url_text(base_url + "/verify/callback"@) + "&openid.realm="@ + url::url_text(
        config::origin_of(base_url),
    )
        + "&openid.identity=http://specs.openid.net/auth/2.0/identifier_select&openid.claimed_id=http://specs.openid.net/auth/2.0/identifier_select"@
}

/// A verification that begins: what is remembered of it, and where it goes on.
pub struct SteamLogin {
    pub nonce: String,
    pub expires_at: Timestamp,
    pub steam_url: String,
}

/// The answer to one who is linked already.
pub open spec fn already_linked_failure() -> Failure {
    Failure::BadRequest("You already have a linked Steam account. Unlink it first."@)
}

/// A verification begins, with this nonce and at this time: it can be used for a quarter of an hour,
/// as far as that can be represented.
pub open spec fn begins(l: SteamLogin, nonce: Seq<char>, base_url: Seq<char>, now: Timestamp) -> bool {
    &&& l.nonce@ == nonce
    &&& l.expires_at.wf()
    &&& l.expires_at@ == clock::capped(now@ + VERIFICATION_SECS * clock::NANOS_PER_SECOND)
    &&& l.steam_url@ == openid_url(base_url)
}

/// Redirect to Steam OpenID login, unless the one who is signed in is linked already, with a given
/// nonce and at a given time.
pub fn steam_login_at(already_linked: bool, nonce: String, base_url: &str, now: &Timestamp) -> (r:
    Result<SteamLogin, AppError>)
    requires
        now.wf(),
    ensures
        if already_linked {
            r matches Err(e) && e@ == already_linked_failure()
        } else {
            r matches Ok(l) && begins(l, nonce@, base_url@, *now)
        },
{
    if already_linked {
        return Err(
            error::bad_request("You already have a linked Steam account. Unlink it first."),
        );
    }
    let return_to = text::cat(base_url, "/verify/callback");
    let realm = config::derive_origin(base_url);
    let mut steam_url = text::owned(
        "https://steamcommunity.com/openid/login?openid.ns=http://specs.openid.net/auth/2.0&openid.mode=checkid_setup&openid.return_to=",
    );
    steam_url.append(url::encode(return_to.as_str()).as_str());
    steam_url.append("&openid.realm=");
    steam_url.append(url::encode(realm.as_str()).as_str());
    steam_url.append(
        "&openid.identity=http://specs.openid.net/auth/2.0/identifier_select&openid.claimed_id=http://specs.openid.net/auth/2.0/identifier_select",
    );
    Ok(SteamLogin { nonce, expires_at: now.plus_seconds(VERIFICATION_SECS), steam_url })
}

/// Is the text 32 bytes in hexadecimal?
pub open spec fn is_nonce(t: Seq<char>) -> bool {
    exists|bytes: Seq<u8>| bytes.len() == 32 && t == #[trigger] digest::hex_of(bytes)
}

/// Redirect to Steam OpenID login, unless the one who is signed in is linked already, with a fresh
/// nonce, from now on.
pub fn steam_login(already_linked: bool, base_url: &str) -> (r: Result<SteamLogin, AppError>)
    ensures
        if already_linked {
            r matches Err(e) && e@ == already_linked_failure()
        } else {
            &&& r matches Ok(l)
            &&& is_nonce(l.nonce@)
            &&& exists|now: Timestamp| #[trigger]
                now.wf() && now.secs >= 0 && begins(l, l.nonce@, base_url@, now)
        },
{
    let nonce = fresh_nonce();
    let now = clock::utc_now();
    steam_login_at(already_linked, nonce, base_url, &now)
}

// ── Back from Steam ────────────────────────────────────────────────────────

/// What Steam sends back.
pub struct CallbackQuery {
    pub openid_claimed_id: Option<String>,
    pub openid_sig: Option<String>,
    pub openid_signed: Option<String>,
    pub openid_assoc_handle: Option<String>,
    pub openid_ns: Option<String>,
    pub openid_op_endpoint: Option<String>,
    pub openid_response_nonce: Option<String>,
    pub openid_return_to: Option<String>,
    pub openid_identity: Option<String>,
}

/// Is the text a SteamID64: 17 digits?
pub open spec fn is_steam_id(s: Seq<char>) -> bool {
    s.len() == 17 && text::all_digits(s)
}

/// The Steam id that is claimed, or what is wrong with the claim.
pub open spec fn claimed_steam_id(claimed_id: Option<String>) -> Result<Seq<char>, Failure> {
    match claimed_id {
        None => Err(Failure::VerificationFailed("Missing claimed_id"@)),
        Some(c) => match text::after_prefix(c@, "https://steamcommunity.com/openid/id/"@) {
            None => Err(Failure::VerificationFailed("Invalid claimed_id format"@)),
            Some(id) => if is_steam_id(id) {
                Ok(id)
            } else {
                Err(Failure::VerificationFailed("Invalid SteamID format"@))
            },
        },
    }
}

/// The text of a value that may be missing.
pub open spec fn or_nothing(v: Option<String>) -> Seq<char> {
    match v {
        Some(s) => s@,
        None => Seq::empty(),
    }
}

/// What Steam is asked in order to confirm what it sent.
pub open spec fn check_params(q: CallbackQuery) -> Seq<(Seq<char>, Seq<char>)> {
    seq![
        ("openid.ns"@, or_nothing(q.openid_ns)),
        ("openid.mode"@, "check_authentication"@),
        ("openid.sig"@, or_nothing(q.openid_sig)),
        ("openid.signed"@, or_nothing(q.openid_signed)),
        ("openid.assoc_handle"@, or_nothing(q.openid_assoc_handle)),
        ("openid.op_endpoint"@, or_nothing(q.openid_op_endpoint)),
        ("openid.claimed_id"@, or_nothing(q.openid_claimed_id)),
        ("openid.identity"@, or_nothing(q.openid_identity)),
        ("openid.response_nonce"@, or_nothing(q.openid_response_nonce)),
        ("openid.return_to"@, or_nothing(q.openid_return_to)),
    ]
}

/// Names with values.
pub open spec fn pairs(v: Seq<(String, String)>) -> Seq<(Seq<char>, Seq<char>)> {
    Seq::new(v.len(), |i: int| v[i]@)
}

fn copy_or_nothing(v: &Option<String>) -> (r: String)
    ensures
        r@ == or_nothing(*v),
{
    match v {
        Some(s) => s.clone(),
        None => String::new(),
    }
}

fn params_of(q: &CallbackQuery) -> (r: Vec<(String, String)>)
    ensures
        pairs(r@) == check_params(*q),
{
    let r = vec![
        (text::owned("openid.ns"), copy_or_nothing(&q.openid_ns)),
        (text::owned("openid.mode"), text::owned("check_authentication")),
        (text::owned("openid.sig"), copy_or_nothing(&q.openid_sig)),
        (text::owned("openid.signed"), copy_or_nothing(&q.openid_signed)),
        (text::owned("openid.assoc_handle"), copy_or_nothing(&q.openid_assoc_handle)),
        (text::owned("openid.op_endpoint"), copy_or_nothing(&q.openid_op_endpoint)),
        (text::owned("openid.claimed_id"), copy_or_nothing(&q.openid_claimed_id)),
        (text::owned("openid.identity"), copy_or_nothing(&q.openid_identity)),
        (text::owned("openid.response_nonce"), copy_or_nothing(&q.openid_response_nonce)),
        (text::owned("openid.return_to"), copy_or_nothing(&q.openid_return_to)),
    ];
    assert(pairs(r@) =~= check_params(*q));
    r
}

fn looks_like_a_steam_id(s: &str) -> (r: bool)
    ensures
        r == is_steam_id(s@),
{
    let v = text::chars_of(s);
    if v.len() != 17 {
        return false;
    }
    let mut i: usize = 0;
    while i < 17
        invariant
            i <= 17,
            v@ == s@,
            s@.len() == 17,
            forall|j: int| 0 <= j < i ==> text::is_digit(#[trigger] s@[j]),
        decreases 17 - i,
    {
        let c = v[i];
        let digit = '0' <= c && c <= '9';
        assert(digit == text::is_digit(s@[i as int]));
        if !digit {
            return false;
        }
        i += 1;
    }
    true
}

fn verification_failed(message: &str) -> (r: AppError)
    ensures
        r@ == Failure::VerificationFailed(message@),
{
    AppError::VerificationFailed(text::owned(message))
}

fn read_claim(claimed_id: &Option<String>) -> (r: Result<String, AppError>)
    ensures
        match r {
            Ok(id) => claimed_steam_id(*claimed_id) == Ok::<Seq<char>, Failure>(id@),
            Err(e) => claimed_steam_id(*claimed_id) == Err::<Seq<char>, Failure>(e@),
        },
{
    match claimed_id {
        None => Err(verification_failed("Missing claimed_id")),
        Some(c) => match text::strip_prefix(c.as_str(), "https://steamcommunity.com/openid/id/") {
            None => Err(verification_failed("Invalid claimed_id format")),
            Some(id) => {
                if looks_like_a_steam_id(id.as_str()) {
                    Ok(id)
                } else {
                    Err(verification_failed("Invalid SteamID format"))
                }
            },
        },
    }
}

/// Steam could not be asked whether it sent that.
pub fn steam_request_failed(why: &str) -> (r: AppError)
    ensures
        r@ == Failure::VerificationFailed("Steam verification request failed: "@ + why@),
{
    AppError::VerificationFailed(text::cat("Steam verification request failed: ", why))
}

/// Steam's reply could not be read.
pub fn steam_reply_unreadable(why: &str) -> (r: AppError)
    ensures
        r@ == Failure::VerificationFailed("Failed to read Steam response: "@ + why@),
{
    AppError::VerificationFailed(text::cat("Failed to read Steam response: ", why))
}

/// How far the way back from Steam has come.
pub enum Linking {
    NeedQuery,
    NeedReply { steam_id: String },
    NeedPending { steam_id: String },
    NeedHolder { steam_id: String },
    NeedProfile { steam_id: String },
    Finished,
}

/// What is told on the way back from Steam.
pub enum LinkingInput {
    Query(CallbackQuery),
    /// What Steam replies to the question whether it sent that.
    Reply(String),
    /// Is there a verification that has not expired?
    Pending(bool),
    /// The Discord id to which the Steam account is linked already, if it is.
    Holder(Option<String>),
    /// The profiles that Steam has for the id, unless it does not answer.
    Profiles(Option<Vec<PlayerSummary>>),
}

/// What is asked for on the way back from Steam.
pub enum LinkingCommand {
    /// Ask Steam whether it sent that.
    AskSteam(Vec<(String, String)>),
    ReadPending,
    ReadHolder,
    /// A user is waiting: an interactive call.
    FetchProfile,
    /// Link the accounts, end the verification, tell the sync, and redirect.
    Link { steam_id: String, steam_name: Option<String>, redirect: String },
    Redirect(String),
    Fail(AppError),
}

impl Linking {
    /// Is this what is asked for?
    pub open spec fn awaits(self, input: LinkingInput) -> bool {
        match input {
            LinkingInput::Query(_) => self is NeedQuery,
            LinkingInput::Reply(_) => self is NeedReply,
            LinkingInput::Pending(_) => self is NeedPending,
            LinkingInput::Holder(_) => self is NeedHolder,
            LinkingInput::Profiles(_) => self is NeedProfile,
        }
    }
}

/// Back to the verify page, with an error to show.
pub open spec fn error_url(base_url: Seq<char>, message: Seq<char>) -> Seq<char> {
    base_url + "/verify?error="@ + url::url_text(message)
}

/// The name in the first profile.
pub open spec fn first_name(profiles: Option<Vec<PlayerSummary>>) -> Option<Seq<char>> {
    match profiles {
        Some(list) => if list@.len() > 0 {
            condition::text_of(list@[0].personaname)
        } else {
            None
        },
        None => None,
    }
}

/// Redirects with an error.
pub open spec fn turns_back(
    base_url: Seq<char>,
    message: Seq<char>,
    next: Linking,
    command: LinkingCommand,
) -> bool {
    &&& next is Finished
    &&& command matches LinkingCommand::Redirect(to)
    &&& to@ == error_url(base_url, message)
}

/// Where the way back from Steam goes from a state with an input, and what is asked for then.
pub open spec fn linking_moves(
    discord_id: Seq<char>,
    base_url: Seq<char>,
    state: Linking,
    input: LinkingInput,
    next: Linking,
    command: LinkingCommand,
) -> bool {
    match (state, input) {
        (Linking::NeedQuery, LinkingInput::Query(q)) => match claimed_steam_id(
            q.openid_claimed_id,
        ) {
            Ok(id) => {
                &&& next matches Linking::NeedReply { steam_id }
                &&& steam_id@ == id
                &&& command matches LinkingCommand::AskSteam(params)
                &&& pairs(params@) == check_params(q)
            },
            Err(f) => {
                &&& next is Finished
                &&& command matches LinkingCommand::Fail(e)
                &&& e@ == f
            },
        },
        (Linking::NeedReply { steam_id }, LinkingInput::Reply(body)) => if text::occurs_in(
            body@,
            "is_valid:true"@,
        ) {
            next == (Linking::NeedPending { steam_id }) && command is ReadPending
        } else {
            turns_back(
                base_url,
                "Steam authentication failed. Please try again."@,
                next,
                command,
            )
        },
        (Linking::NeedPending { steam_id }, LinkingInput::Pending(there)) => if there {
            next == (Linking::NeedHolder { steam_id }) && command is ReadHolder
        } else {
            turns_back(
                base_url,
                "Verification session expired. Please try again."@,
                next,
                command,
            )
        },
        (Linking::NeedHolder { steam_id }, LinkingInput::Holder(holder)) => if holder is Some
            && holder->0@ != discord_id {
            turns_back(
                base_url,
                "This Steam account is already linked to another Discord user."@,
                next,
                command,
            )
        } else {
            next == (Linking::NeedProfile { steam_id }) && command is FetchProfile
        },
        (Linking::NeedProfile { steam_id }, LinkingInput::Profiles(profiles)) => {
            &&& next is Finished
            &&& command matches LinkingCommand::Link { steam_id: linked, steam_name, redirect }
            &&& linked == steam_id
            &&& condition::text_of(steam_name) == first_name(profiles)
            &&& redirect@ == base_url + "/verify?linked=true"@
        },
        _ => false,
    }
}

fn turn_back(base_url: &str, message: &str) -> (r: (Linking, LinkingCommand))
    ensures
        turns_back(base_url@, message@, r.0, r.1),
{
    let mut to = text::owned(base_url);
    to.append("/verify?error=");
    to.append(url::encode(message).as_str());
    (Linking::Finished, LinkingCommand::Redirect(to))
}

/// Steam OpenID callback — validates the response and links the account: takes what was asked for
/// and says what to do next.
pub fn callback(discord_id: &str, base_url: &str, state: Linking, input: LinkingInput) -> (r: (
    Linking,
    LinkingCommand,
))
    requires
        state.awaits(input),
    ensures
        linking_moves(discord_id@, base_url@, state, input, r.0, r.1),
{
    match (state, input) {
        (Linking::NeedQuery, LinkingInput::Query(q)) => match read_claim(&q.openid_claimed_id) {
            Ok(steam_id) => {
                let params = params_of(&q);
                (Linking::NeedReply { steam_id }, LinkingCommand::AskSteam(params))
            },
            Err(e) => (Linking::Finished, LinkingCommand::Fail(e)),
        },
        (Linking::NeedReply { steam_id }, LinkingInput::Reply(body)) => {
            if text::contains(body.as_str(), "is_valid:true") {
                (Linking::NeedPending { steam_id }, LinkingCommand::ReadPending)
            } else {
                turn_back(base_url, "Steam authentication failed. Please try again.")
            }
        },
        (Linking::NeedPending { steam_id }, LinkingInput::Pending(there)) => {
            if there {
                (Linking::NeedHolder { steam_id }, LinkingCommand::ReadHolder)
            } else {
                turn_back(base_url, "Verification session expired. Please try again.")
            }
        },
        (Linking::NeedHolder { steam_id }, LinkingInput::Holder(holder)) => {
            let taken = match &holder {
                Some(h) => !text::same(h.as_str(), discord_id),
                None => false,
            };
            if taken {
                turn_back(
                    base_url,
                    "This Steam account is already linked to another Discord user.",
                )
            } else {
                (Linking::NeedProfile { steam_id }, LinkingCommand::FetchProfile)
            }
        },
        (Linking::NeedProfile { steam_id }, LinkingInput::Profiles(profiles)) => {
            let steam_name = match &profiles {
                Some(list) => {
                    if list.len() > 0 {
                        match &list[0].personaname {
                            Some(n) => Some(n.clone()),
                            None => None,
                        }
                    } else {
                        None
                    }
                },
                None => None,
            };
            let redirect = text::cat(base_url, "/verify?linked=true");
            (
                Linking::Finished,
                LinkingCommand::Link { steam_id, steam_name, redirect },
            )
        },
        (state, _) => {
            assert(false);
            (state, LinkingCommand::ReadPending)
        },
    }
}

// ── The end of a link ──────────────────────────────────────────────────────

/// A plain success.
pub open spec fn success_doc() -> Doc {
    Doc::Object(seq![("success"@, Doc::Bool(true))])
}

/// A plain success.
pub fn success() -> (r: Value)
    ensures
        r@ == success_doc(),
{
    let entries = vec![json::entry("success", Value::Bool(true))];
    assert(json::doc_entries(entries@) =~= seq![("success"@, Doc::Bool(true))]);
    json::object(entries)
}

/// Unlinks the account of the one who is signed in, if there is one.
pub fn unlink(linked: bool) -> (r: Result<Value, AppError>)
    ensures
        if linked {
            r matches Ok(v) && v@ == success_doc()
        } else {
            r matches Err(e) && e@ == Failure::NotFound("No linked account found"@)
        },
{
    if linked {
        Ok(success())
    } else {
        Err(AppError::NotFound(text::owned("No linked account found")))
    }
}

/// May the one who is signed in have the data checked again? A linked account may, once in five
/// minutes; `last` is when it last was.
pub fn recheck(linked: bool, last: Option<Timestamp>, now: &Timestamp) -> (r: Result<
    Value,
    AppError,
>)
    requires
        now.wf(),
        last matches Some(t) ==> t.wf(),
    ensures
        if !linked {
            r matches Err(e) && e@ == Failure::NotFound("No linked account found"@)
        } else if last is Some && clock::whole(now@ - last->0@, clock::NANOS_PER_SECOND as int)
            < RECHECK_SECS {
            r matches Err(e) && e@ == Failure::TooManyRequests(
                "You can re-check once every 5 minutes."@,
            )
        } else {
            r matches Ok(v) && v@ == success_doc()
        },
        r is Ok <==> linked && (last matches Some(t) ==> now@ - t@ >= 300_000_000_000),
{
    if !linked {
        return Err(AppError::NotFound(text::owned("No linked account found")));
    }
    if let Some(t) = &last {
        if now.seconds_since(t) < RECHECK_SECS {
            return Err(
                AppError::TooManyRequests(text::owned("You can re-check once every 5 minutes.")),
            );
        }
    }
    Ok(success())
}

// ── What the verify page offers ────────────────────────────────────────────

/// The verify page warns of private game details and offers a re-check, whatever the base URL is.
pub proof fn law_verify_page_warns_and_offers_a_recheck(base_url: Seq<char>)
    ensures
        text::occurs_in(text::joined(verify_parts(), base_url), "/verify/recheck"@),
        text::occurs_in(text::joined(verify_parts(), base_url), pages::PRIVACY_WARNING@),
{
    let parts = verify_parts();
    text::lemma_part_occurs(
        parts,
        base_url,
        5,
        pages::VERIFY_PART_6@,
        pages::RECHECK_PATH@,
        pages::VERIFY_AFTER_RECHECK@,
    );
    text::lemma_part_occurs(
        parts,
        base_url,
        3,
        pages::VERIFY_PART_4@,
        pages::PRIVACY_WARNING@,
        pages::VERIFY_AFTER_WARNING@,
    );
}

// ── What holds of every link ───────────────────────────────────────────────

/// An account is linked only at the end of a way on which Steam has confirmed what it sent, a
/// verification was pending, and nobody else held the Steam account; and all the way it is the
/// same Steam id, 17 digits that Steam vouches for.
pub proof fn law_links_only_after_every_check(
    discord_id: Seq<char>,
    base_url: Seq<char>,
    state: Linking,
    input: LinkingInput,
    next: Linking,
    command: LinkingCommand,
)
    requires
        linking_moves(discord_id, base_url, state, input, next, command),
    ensures
        next matches Linking::NeedReply { steam_id } ==> is_steam_id(steam_id@),
        next matches Linking::NeedPending { steam_id } ==> state == (Linking::NeedReply {
            steam_id,
        }) && text::occurs_in(input->Reply_0@, "is_valid:true"@),
        next matches Linking::NeedHolder { steam_id } ==> state == (Linking::NeedPending {
            steam_id,
        }) && input == LinkingInput::Pending(true),
        next matches Linking::NeedProfile { steam_id } ==> state == (Linking::NeedHolder {
            steam_id,
        }) && (input->Holder_0 is Some ==> input->Holder_0->0@ == discord_id),
        command matches LinkingCommand::Link { steam_id, .. } ==> state == (Linking::NeedProfile {
            steam_id,
        }),
{
}

/// Is this a way back from Steam, up to its `n`th step: from each state with the next input to the
/// next state, with what is asked for then?
pub open spec fn way_back(
    discord_id: Seq<char>,
    base_url: Seq<char>,
    inputs: Seq<LinkingInput>,
    states: Seq<Linking>,
    commands: Seq<LinkingCommand>,
    n: int,
) -> bool {
    &&& states[0] is NeedQuery
    &&& forall|k: int|
        0 <= k < n ==> linking_moves(
            discord_id,
            base_url,
            states[k],
            #[trigger] inputs[k],
            states[k + 1],
            commands[k],
        )
}

/// Everyone who passes the checks is linked. When Steam sends back its id of an account, confirms
/// that it did, a verification is pending, and nobody else holds the Steam account — it is held by
/// nobody, or by the one who is signed in — then every step of the way back asks for the next, and
/// the last one links just that account, under the name of the profile that Steam shows, if it
/// shows one.
pub proof fn law_everyone_who_passes_the_checks_is_linked(
    discord_id: Seq<char>,
    base_url: Seq<char>,
    query: CallbackQuery,
    id: Seq<char>,
    reply: String,
    holder: Option<String>,
    profiles: Option<Vec<PlayerSummary>>,
    inputs: Seq<LinkingInput>,
    states: Seq<Linking>,
    commands: Seq<LinkingCommand>,
)
    requires
        query.openid_claimed_id is Some,
        query.openid_claimed_id->0@ == "https://steamcommunity.com/openid/id/"@ + id,
        id.len() == 17,
        forall|i: int| 0 <= i < id.len() ==> '0' <= #[trigger] id[i] <= '9',
        text::occurs_in(reply@, "is_valid:true"@),
        holder is None || holder->0@ == discord_id,
        inputs[0] == LinkingInput::Query(query),
        inputs[1] == LinkingInput::Reply(reply),
        inputs[2] == LinkingInput::Pending(true),
        inputs[3] == LinkingInput::Holder(holder),
        inputs[4] == LinkingInput::Profiles(profiles),
    ensures
        way_back(discord_id, base_url, inputs, states, commands, 1) ==> commands[0] is AskSteam
            && states[1] is NeedReply,
        way_back(discord_id, base_url, inputs, states, commands, 2) ==> commands[1] is ReadPending
            && states[2] is NeedPending,
        way_back(discord_id, base_url, inputs, states, commands, 3) ==> commands[2] is ReadHolder
            && states[3] is NeedHolder,
        way_back(discord_id, base_url, inputs, states, commands, 4) ==> commands[3] is FetchProfile
            && states[4] is NeedProfile,
        way_back(discord_id, base_url, inputs, states, commands, 5) ==> {
            &&& commands[4] matches LinkingCommand::Link { steam_id, steam_name, redirect }
            &&& steam_id@ == id
            &&& redirect@ == base_url + "/verify?linked=true"@
            &&& profiles is Some && profiles->0@.len() > 0 ==> condition::text_of(steam_name)
                == condition::text_of(profiles->0@[0].personaname)
            &&& profiles is None || profiles->0@.len() == 0 ==> steam_name is None
        },
{
    let prefix = "https://steamcommunity.com/openid/id/"@;
    let all = query.openid_claimed_id->0@;
    assert(all.subrange(0, prefix.len() as int) =~= prefix);
    assert(text::stands_at(all, prefix, 0));
    assert(all.subrange(prefix.len() as int, all.len() as int) =~= id);
    assert forall|i: int| 0 <= i < id.len() implies text::is_digit(#[trigger] id[i]) by {}
    assert(is_steam_id(id));
}

/// The way back turns to an error page exactly when a check fails: Steam does not confirm what it
/// sent, no verification is pending, or the Steam account is held by another Discord user. Each is
/// told as such, and after none of them is anything linked.
pub proof fn law_the_way_back_turns_only_where_a_check_fails(
    discord_id: Seq<char>,
    base_url: Seq<char>,
    state: Linking,
    input: LinkingInput,
    next: Linking,
    command: LinkingCommand,
)
    requires
        linking_moves(discord_id, base_url, state, input, next, command),
    ensures
        input matches LinkingInput::Reply(body) ==> {
            &&& command is Redirect <==> !text::occurs_in(body@, "is_valid:true"@)
            &&& command matches LinkingCommand::Redirect(to) ==> to@ == base_url
                + "/verify?error="@ + url::url_text(
                "Steam authentication failed. Please try again."@,
            )
        },
        input matches LinkingInput::Pending(there) ==> {
            &&& command is Redirect <==> !there
            &&& command matches LinkingCommand::Redirect(to) ==> to@ == base_url
                + "/verify?error="@ + url::url_text(
                "Verification session expired. Please try again."@,
            )
        },
        input matches LinkingInput::Holder(holder) ==> {
            &&& command is Redirect <==> holder is Some && holder->0@ != discord_id
            &&& command matches LinkingCommand::Redirect(to) ==> to@ == base_url
                + "/verify?error="@ + url::url_text(
                "This Steam account is already linked to another Discord user."@,
            )
        },
        input is Query || input is Profiles ==> !(command is Redirect),
        command is Redirect || command is Fail || command is Link <==> next is Finished,
{
}

/// What Steam is asked to confirm is what it sent: the same values under the same names, with the
/// mode of a check in place of that of a sign-in. An id that is not 17 digits under Steam's own
/// address is refused before Steam is asked.
pub proof fn law_steam_is_asked_about_what_it_sent(
    discord_id: Seq<char>,
    base_url: Seq<char>,
    query: CallbackQuery,
    next: Linking,
    command: LinkingCommand,
)
    requires
        linking_moves(
            discord_id,
            base_url,
            Linking::NeedQuery,
            LinkingInput::Query(query),
            next,
            command,
        ),
    ensures
        command is AskSteam || command is Fail,
        command matches LinkingCommand::AskSteam(params) ==> {
            let sent = pairs(params@);
            &&& sent.contains(("openid.mode"@, "check_authentication"@))
            &&& sent.contains(("openid.ns"@, or_nothing(query.openid_ns)))
            &&& sent.contains(("openid.sig"@, or_nothing(query.openid_sig)))
            &&& sent.contains(("openid.signed"@, or_nothing(query.openid_signed)))
            &&& sent.contains(("openid.assoc_handle"@, or_nothing(query.openid_assoc_handle)))
            &&& sent.contains(("openid.op_endpoint"@, or_nothing(query.openid_op_endpoint)))
            &&& sent.contains(("openid.claimed_id"@, or_nothing(query.openid_claimed_id)))
            &&& sent.contains(("openid.identity"@, or_nothing(query.openid_identity)))
            &&& sent.contains(("openid.response_nonce"@, or_nothing(query.openid_response_nonce)))
            &&& sent.contains(("openid.return_to"@, or_nothing(query.openid_return_to)))
            &&& sent.len() == 10
        },
        command is AskSteam <==> query.openid_claimed_id is Some && exists|id: Seq<char>|
            query.openid_claimed_id->0@ == "https://steamcommunity.com/openid/id/"@ + id
                && #[trigger] id.len() == 17 && forall|i: int|
                0 <= i < id.len() ==> '0' <= #[trigger] id[i] <= '9',
{
    if command is AskSteam {
        let sent = check_params(query);
        assert(sent.len() == 10);
        assert(sent[0].0 == "openid.ns"@);
        assert(sent.contains(sent[0]) && sent.contains(sent[1]) && sent.contains(sent[2]));
        assert(sent.contains(sent[3]) && sent.contains(sent[4]) && sent.contains(sent[5]));
        assert(sent.contains(sent[6]) && sent.contains(sent[7]) && sent.contains(sent[8]));
        assert(sent.contains(sent[9]));
        let prefix = "https://steamcommunity.com/openid/id/"@;
        let all = query.openid_claimed_id->0@;
        let id = claimed_steam_id(query.openid_claimed_id)->Ok_0;
        assert(all =~= prefix + id);
        assert forall|i: int| 0 <= i < id.len() implies '0' <= #[trigger] id[i] <= '9' by {
            assert(text::is_digit(id[i]));
        }
        assert(id.len() == 17);
    }
    assert forall|id: Seq<char>|
        query.openid_claimed_id is Some && query.openid_claimed_id->0@
            == "https://steamcommunity.com/openid/id/"@ + id && #[trigger] id.len() == 17 && (
        forall|i: int| 0 <= i < id.len() ==> '0' <= #[trigger] id[i] <= '9') implies command is AskSteam by {
        let prefix = "https://steamcommunity.com/openid/id/"@;
        let all = query.openid_claimed_id->0@;
        assert(all.subrange(0, prefix.len() as int) =~= prefix);
        assert(text::stands_at(all, prefix, 0));
        assert(all.subrange(prefix.len() as int, all.len() as int) =~= id);
        assert forall|i: int| 0 <= i < id.len() implies text::is_digit(#[trigger] id[i]) by {}
        assert(is_steam_id(id));
    }
}

// ── What the signed-in user is told ────────────────────────────────────────

/// The status tells who is signed in, which account is linked and under which name, if one is, and
/// whether Steam showed its library, if that is known.
pub proof fn law_status_tells_the_account(
    discord_id: Seq<char>,
    display_name: Seq<char>,
    account: Option<(String, Option<String>)>,
    library_visible: Option<bool>,
)
    ensures
        ({
            let d = status_doc(discord_id, display_name, account, library_visible);
            &&& d.text_member("discord_id"@) == Some(discord_id)
            &&& d.text_member("display_name"@) == Some(display_name)
            &&& account matches Some(a) ==> d.text_member("linked"@) == Some(a.0@)
                && d.text_member("steam_name"@) == condition::text_of(a.1)
            &&& account is None ==> d.member("linked"@) == Some(Doc::Null) && d.member(
                "steam_name"@,
            ) == Some(Doc::Null)
            &&& d.bool_member("library_visible"@) == library_visible
        }),
{
    reveal_strlit("discord_id");
    reveal_strlit("display_name");
    reveal_strlit("linked");
    reveal_strlit("steam_name");
    reveal_strlit("library_visible");
    let e = status_doc(discord_id, display_name, account, library_visible)->Object_0;
    assert("discord_id"@.len() == 10 && "display_name"@.len() == 12 && "linked"@.len() == 6
        && "steam_name"@.len() == 10 && "library_visible"@.len() == 15);
    assert("discord_id"@[0] != "steam_name"@[0]);
    json::lemma_entry_of_last(e, "discord_id"@, 0);
    json::lemma_entry_of_last(e, "display_name"@, 1);
    json::lemma_entry_of_last(e, "linked"@, 2);
    json::lemma_entry_of_last(e, "steam_name"@, 3);
    json::lemma_entry_of_last(e, "library_visible"@, 4);
}

/// A verification can be used for a quarter of an hour from when it began, unless time itself ends
/// earlier, and it leads to Steam with the way back to this plugin.
pub proof fn law_a_verification_lasts_a_quarter_of_an_hour(
    l: SteamLogin,
    nonce: Seq<char>,
    base_url: Seq<char>,
    now: Timestamp,
)
    requires
        begins(l, nonce, base_url, now),
    ensures
        now@ + 900_000_000_000 <= clock::last_point() ==> l.expires_at@ - now@ == 900_000_000_000,
        l.nonce@ == nonce,
        text::occurs_in(
            l.steam_url@,
            "&openid.mode=checkid_setup&openid.return_to="@ + url::url_text(
                base_url + "/verify/callback"@,
            ),
        ),
        text::occurs_in(
            l.steam_url@,
            "&openid.realm="@ + url::url_text(config::origin_of(base_url)),
        ),
{
    let whole =
        "https://steamcommunity.com/openid/login?openid.ns=http://specs.openid.net/auth/2.0&openid.mode=checkid_setup&openid.return_to="@;
    let head = "https://steamcommunity.com/openid/login?openid.ns=http://specs.openid.net/auth/2.0"@;
    let mode = "&openid.mode=checkid_setup&openid.return_to="@;
    reveal_strlit(
        "https://steamcommunity.com/openid/login?openid.ns=http://specs.openid.net/auth/2.0&openid.mode=checkid_setup&openid.return_to=",
    );
    reveal_strlit("https://steamcommunity.com/openid/login?openid.ns=http://specs.openid.net/auth/2.0");
    reveal_strlit("&openid.mode=checkid_setup&openid.return_to=");
    assert(whole =~= head + mode);
    let back = url::url_text(base_url + "/verify/callback"@);
    let realm = "&openid.realm="@ + url::url_text(config::origin_of(base_url));
    let tail =
        "&openid.identity=http://specs.openid.net/auth/2.0/identifier_select&openid.claimed_id=http://specs.openid.net/auth/2.0/identifier_select"@;
    assert(l.steam_url@ =~= head + (mode + back) + (realm + tail));
    assert(l.steam_url@ =~= (whole + back) + realm + tail);
    text::lemma_middle_occurs(head, mode + back, realm + tail);
    text::lemma_middle_occurs(whole + back, realm, tail);
}

/// A nonce is 64 characters long, and each of them is a digit or a small letter up to f.
pub proof fn law_a_nonce_is_64_hexadecimal_digits(t: Seq<char>)
    requires
        is_nonce(t),
    ensures
        t.len() == 64,
        forall|i: int|
            0 <= i < t.len() ==> '0' <= (#[trigger] t[i]) <= '9' || 'a' <= t[i] <= 'f',
{
}

/// The login gives up where Steam names no player, and says what is wrong with what it sent.
pub proof fn law_a_bad_claim_is_told(
    discord_id: Seq<char>,
    base_url: Seq<char>,
    query: CallbackQuery,
    next: Linking,
    command: LinkingCommand,
)
    requires
        linking_moves(
            discord_id,
            base_url,
            Linking::NeedQuery,
            LinkingInput::Query(query),
            next,
            command,
        ),
    ensures
        command matches LinkingCommand::Fail(e) ==> {
            &&& e is VerificationFailed
            &&& e->VerificationFailed_0@ == "Missing claimed_id"@
                || e->VerificationFailed_0@ == "Invalid claimed_id format"@
                || e->VerificationFailed_0@ == "Invalid SteamID format"@
            &&& query.openid_claimed_id is None ==> e->VerificationFailed_0@
                == "Missing claimed_id"@
            &&& query.openid_claimed_id is Some ==> {
                let sent = query.openid_claimed_id->0@;
                let named = exists|id: Seq<char>|
                    sent == #[trigger] ("https://steamcommunity.com/openid/id/"@ + id);
                &&& !named ==> e->VerificationFailed_0@ == "Invalid claimed_id format"@
                &&& named ==> e->VerificationFailed_0@ == "Invalid SteamID format"@
            }
        },
{
    if command is Fail && query.openid_claimed_id is Some {
        let prefix = "https://steamcommunity.com/openid/id/"@;
        let sent = query.openid_claimed_id->0@;
        if text::after_prefix(sent, prefix) is Some {
            let id = text::after_prefix(sent, prefix)->0;
            assert(sent =~= prefix + id);
        } else {
            assert forall|id: Seq<char>| sent != #[trigger] (prefix + id) by {
                if sent == prefix + id {
                    assert(sent.subrange(0, prefix.len() as int) =~= prefix);
                    assert(text::stands_at(sent, prefix, 0));
                }
            }
        }
    }
}

/// A plain success says that it is one.
pub proof fn law_success_is_told()
    ensures
        success_doc().bool_member("success"@) == Some(true),
{
    json::lemma_entry_of_last(success_doc()->Object_0, "success"@, 0);
}

} // verus!
