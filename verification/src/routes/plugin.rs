//! What RoleLogic asks of the plugin.

use vstd::prelude::*;
use crate::error::{AppError, Failure};
use crate::json::Value;
use crate::lookup::Lookup;
use crate::routes::verification;
use crate::schema;
use crate::text;

verus! {

/// A role link to register.
pub struct RegisterBody {
    pub guild_id: String,
    pub role_id: String,
}

/// A configuration that is sent.
pub struct ConfigBody {
    pub guild_id: String,
    pub role_id: String,
    pub config: Lookup<String, Value>,
}

/// A role link to delete.
pub struct DeleteConfigBody {
    pub guild_id: String,
    pub role_id: String,
}

/// The token in an authorization header.
pub open spec fn token_in(header: Option<Seq<char>>) -> Option<Seq<char>> {
    match header {
        Some(h) => text::after_prefix(h, "Token "@),
        None => None,
    }
}

/// The token in an authorization header; a request without one is not authorized.
pub fn extract_token(header: Option<&str>) -> (r: Result<String, AppError>)
    ensures
        ({
            let token = token_in(
                match header {
                    Some(h) => Some(h@),
                    None => None,
                },
            );
            match r {
                Ok(t) => token == Some(t@),
                Err(e) => token is None && e@ == Failure::Unauthorized,
            }
        }),
{
    match header {
        Some(h) => match text::strip_prefix(h, "Token ") {
            Some(t) => Ok(t),
            None => Err(AppError::Unauthorized),
        },
        None => Err(AppError::Unauthorized),
    }
}

/// The answer to a role link that was registered.
pub fn register() -> (r: Value)
    ensures
        r@ == verification::success_doc(),
{
    verification::success()
}

/// The configuration of the role link, by guild and role, that the token belongs to: where the
/// page that configures it stands. A token that belongs to none is not authorized.
pub fn get_config(base_url: &str, link: &Option<(String, String)>) -> (r: Result<Value, AppError>)
    ensures
        match *link {
            None => r matches Err(e) && e@ == Failure::Unauthorized,
            Some(l) => r matches Ok(v) && v@ == schema::iframe_doc(base_url@, l.0@, l.1@),
        },
{
    match link {
        None => Err(AppError::Unauthorized),
        Some(l) => Ok(schema::build_iframe_config(base_url, l.0.as_str(), l.1.as_str())),
    }
}

/// Contract stub: edits go through the admin routes, and what is sent here changes nothing. Only
/// the token of the role link is looked at.
pub fn post_config(token_known: bool) -> (r: Result<Value, AppError>)
    ensures
        if token_known {
            r matches Ok(v) && v@ == verification::success_doc()
        } else {
            r matches Err(e) && e@ == Failure::Unauthorized
        },
{
    if token_known {
        Ok(schema::accept_empty_config())
    } else {
        Err(AppError::Unauthorized)
    }
}

/// The answer to a deletion, which is not authorized when it deletes nothing.
pub fn delete_config(rows_affected: u64) -> (r: Result<Value, AppError>)
    ensures
        if rows_affected == 0 {
            r matches Err(e) && e@ == Failure::Unauthorized
        } else {
            r matches Ok(v) && v@ == verification::success_doc()
        },
{
    if rows_affected == 0 {
        Err(AppError::Unauthorized)
    } else {
        Ok(verification::success())
    }
}

/// The token is what follows the word in the header, and nothing else is one.
pub proof fn law_the_token_follows_the_word(header: Seq<char>, token: Seq<char>)
    ensures
        token_in(Some("Token "@ + token)) == Some(token),
        token_in(Some(header)) matches Some(t) ==> header == "Token "@ + t,
        token_in(None) is None,
{
    let word = "Token "@;
    let all = word + token;
    assert(all.subrange(0, word.len() as int) =~= word);
    assert(text::stands_at(all, word, 0));
    assert(all.subrange(word.len() as int, all.len() as int) =~= token);
    if let Some(t) = token_in(Some(header)) {
        assert(header =~= word + t);
    }
}

} // verus!
