//! Requests to the centralized Auth Gateway's `/auth/internal/*` routes.

use vstd::prelude::*;
use crate::error::{AppError, Failure};
use crate::text;

verus! {

/// The name under which the gateway knows the plugin.
pub const PLUGIN_SLUG: &'static str = "steam-player-role";

/// A request to the gateway: where to, and with which parameters.
#[derive(Debug, PartialEq)]
pub struct GatewayRequest {
    pub url: String,
    pub query: Vec<(String, String)>,
}

/// Is this the request for a list, by a parameter?
pub open spec fn requests(
    r: GatewayRequest,
    base: Seq<char>,
    path: Seq<char>,
    name: Seq<char>,
    value: Seq<char>,
) -> bool {
    &&& r.url@ == base + path
    &&& r.query@.len() == 2
    &&& r.query@[0]@ == (name, value)
    &&& r.query@[1]@ == ("plugin"@, PLUGIN_SLUG@)
}

fn request(base: &str, path: &str, name: &str, value: &str) -> (r: GatewayRequest)
    ensures
        requests(r, base@, path@, name@, value@),
{
    GatewayRequest {
        url: text::cat(base, path),
        query: vec![
            (text::owned(name), text::owned(value)),
            (text::owned("plugin"), text::owned(PLUGIN_SLUG)),
        ],
    }
}

/// `GET /auth/internal/user_guild_ids?discord_id=...` → list of guild IDs
pub fn fetch_user_guild_ids(base: &str, discord_id: &str) -> (r: GatewayRequest)
    ensures
        requests(r, base@, "/auth/internal/user_guild_ids"@, "discord_id"@, discord_id@),
{
    request(base, "/auth/internal/user_guild_ids", "discord_id", discord_id)
}

/// `GET /auth/internal/guild_member_ids?guild_id=...` → list of Discord IDs
pub fn fetch_guild_member_ids(base: &str, guild_id: &str) -> (r: GatewayRequest)
    ensures
        requests(r, base@, "/auth/internal/guild_member_ids"@, "guild_id"@, guild_id@),
{
    request(base, "/auth/internal/guild_member_ids", "guild_id", guild_id)
}

/// May the reply to a request be read? `what` is what was asked for, `status_text` the status as it
/// is shown.
pub fn reply_status(what: &str, status: u16, status_text: &str, body: &str) -> (r: Result<
    (),
    AppError,
>)
    ensures
        if 200 <= status < 300 {
            r is Ok
        } else {
            r matches Err(e) && e@ == Failure::Internal(
                "auth_gateway "@ + what@ + " returned "@ + status_text@ + ": "@ + body@,
            )
        },
{
    if status >= 200 && status < 300 {
        return Ok(());
    }
    let mut m = text::owned("auth_gateway ");
    m.append(what);
    m.append(" returned ");
    m.append(status_text);
    m.append(": ");
    m.append(body);
    Err(AppError::Internal(m))
}

/// A request that could not be sent.
pub fn request_failed(why: &str) -> (r: AppError)
    ensures
        r@ == Failure::Internal("auth_gateway request failed: "@ + why@),
{
    AppError::Internal(text::cat("auth_gateway request failed: ", why))
}

/// A reply that could not be read.
pub fn unreadable_reply(why: &str) -> (r: AppError)
    ensures
        r@ == Failure::Internal("auth_gateway response not JSON: "@ + why@),
{
    AppError::Internal(text::cat("auth_gateway response not JSON: ", why))
}

/// A request goes to the path at the gateway and carries the parameter it is made for and the name
/// of the plugin, nothing else.
pub proof fn law_a_request_carries_its_parameter(
    r: GatewayRequest,
    base: Seq<char>,
    path: Seq<char>,
    name: Seq<char>,
    value: Seq<char>,
    i: int,
)
    requires
        requests(r, base, path, name, value),
        0 <= i < r.query@.len(),
    ensures
        r.url@.len() == base.len() + path.len(),
        r.url@.subrange(0, base.len() as int) == base,
        r.url@.subrange(base.len() as int, r.url@.len() as int) == path,
        r.query@.len() == 2,
        r.query@[i].0@ == name && r.query@[i].1@ == value || r.query@[i].0@ == "plugin"@
            && r.query@[i].1@ == "steam-player-role"@,
        r.query@[0].1@ == value,
{
    assert(r.url@.subrange(0, base.len() as int) =~= base);
    assert(r.url@.subrange(base.len() as int, r.url@.len() as int) =~= path);
    assert(r.query@[0]@ == (name, value));
    assert(r.query@[1]@ == ("plugin"@, PLUGIN_SLUG@));
}

} // verus!
