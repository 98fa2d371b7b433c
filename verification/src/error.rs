//! What can go wrong, and how it is answered.

use vstd::prelude::*;
use crate::json;
use crate::json::{Doc, Value};
use crate::text;

verus! {

/// Why a request or a job failed.
#[derive(Debug, PartialEq)]
pub enum AppError {
    Database(String),
    SteamApi(String),
    QuotaExhausted { retry_after_secs: u64 },
    RoleLogic(String),
    RoleLinkNotFound,
    RoleLinkDisabled,
    UserLimitReached { limit: usize },
    BadRequest(String),
    TooManyRequests(String),
    Unauthorized,
    UnauthorizedWith(String),
    Forbidden(String),
    NotFound(String),
    StaleVersion,
    VerificationFailed(String),
    Internal(String),
}

/// What an error says.
pub enum Failure {
    Database(Seq<char>),
    SteamApi(Seq<char>),
    QuotaExhausted(int),
    RoleLogic(Seq<char>),
    RoleLinkNotFound,
    RoleLinkDisabled,
    UserLimitReached(int),
    BadRequest(Seq<char>),
    TooManyRequests(Seq<char>),
    Unauthorized,
    UnauthorizedWith(Seq<char>),
    Forbidden(Seq<char>),
    NotFound(Seq<char>),
    StaleVersion,
    VerificationFailed(Seq<char>),
    Internal(Seq<char>),
}

impl View for AppError {
    type V = Failure;

    open spec fn view(&self) -> Failure {
        match self {
            AppError::Database(m) => Failure::Database(m@),
            AppError::SteamApi(m) => Failure::SteamApi(m@),
            AppError::QuotaExhausted { retry_after_secs } => Failure::QuotaExhausted(
                *retry_after_secs as int,
            ),
            AppError::RoleLogic(m) => Failure::RoleLogic(m@),
            AppError::RoleLinkNotFound => Failure::RoleLinkNotFound,
            AppError::RoleLinkDisabled => Failure::RoleLinkDisabled,
            AppError::UserLimitReached { limit } => Failure::UserLimitReached(*limit as int),
            AppError::BadRequest(m) => Failure::BadRequest(m@),
            AppError::TooManyRequests(m) => Failure::TooManyRequests(m@),
            AppError::Unauthorized => Failure::Unauthorized,
            AppError::UnauthorizedWith(m) => Failure::UnauthorizedWith(m@),
            AppError::Forbidden(m) => Failure::Forbidden(m@),
            AppError::NotFound(m) => Failure::NotFound(m@),
            AppError::StaleVersion => Failure::StaleVersion,
            AppError::VerificationFailed(m) => Failure::VerificationFailed(m@),
            AppError::Internal(m) => Failure::Internal(m@),
        }
    }
}

/// The HTTP status with which a failure is answered.
pub open spec fn status_of(f: Failure) -> int {
    match f {
        Failure::Database(_) => 500,
        Failure::SteamApi(_) => 502,
        Failure::QuotaExhausted(_) => 503,
        Failure::RoleLogic(_) => 502,
        Failure::RoleLinkNotFound => 404,
        Failure::RoleLinkDisabled => 403,
        Failure::UserLimitReached(_) => 403,
        Failure::BadRequest(_) => 400,
        Failure::TooManyRequests(_) => 429,
        Failure::Unauthorized => 401,
        Failure::UnauthorizedWith(_) => 401,
        Failure::Forbidden(_) => 403,
        Failure::NotFound(_) => 404,
        Failure::StaleVersion => 409,
        Failure::VerificationFailed(_) => 422,
        Failure::Internal(_) => 500,
    }
}

/// What a client is told of a failure. What went wrong inside the plugin or behind it stays there.
pub open spec fn message_of(f: Failure) -> Seq<char> {
    match f {
        Failure::Database(_) => "Internal server error"@,
        Failure::SteamApi(_) => "Failed to fetch Steam data. Please try again later."@,
        Failure::QuotaExhausted(
            _,
        ) => "Steam data checks are temporarily rate-limited. Please try again later."@,
        Failure::RoleLogic(_) => "Failed to sync roles"@,
        Failure::RoleLinkNotFound => "Role link not found"@,
        Failure::RoleLinkDisabled => "Role link is disabled"@,
        Failure::UserLimitReached(_) => "Role link user limit reached"@,
        Failure::BadRequest(m) => m,
        Failure::TooManyRequests(m) => m,
        Failure::Unauthorized => "Invalid or missing authorization"@,
        Failure::UnauthorizedWith(m) => m,
        Failure::Forbidden(m) => m,
        Failure::NotFound(m) => m,
        Failure::StaleVersion => "This configuration was changed in another tab. Reload to get the latest, then re-apply your edit."@,
        Failure::VerificationFailed(m) => m,
        Failure::Internal(_) => "Internal server error"@,
    }
}

/// The failure in words, for logs.
pub open spec fn words_of(f: Failure) -> Seq<char> {
    match f {
        Failure::Database(m) => "Database error: "@ + m,
        Failure::SteamApi(m) => "Steam API error: "@ + m,
        Failure::QuotaExhausted(n) => "Steam API budget exhausted; retry in "@ + text::decimal(n)
            + "s"@,
        Failure::RoleLogic(m) => "RoleLogic API error: "@ + m,
        Failure::RoleLinkNotFound => "Role link not found on RoleLogic"@,
        Failure::RoleLinkDisabled => "Role link is disabled on RoleLogic"@,
        Failure::UserLimitReached(n) => "Role link user limit reached ("@ + text::decimal(n) + ")"@,
        Failure::BadRequest(m) => "Invalid request: "@ + m,
        Failure::TooManyRequests(m) => "Too many requests: "@ + m,
        Failure::Unauthorized => "Unauthorized"@,
        Failure::UnauthorizedWith(m) => "Unauthorized: "@ + m,
        Failure::Forbidden(m) => "Forbidden: "@ + m,
        Failure::NotFound(m) => "Not found: "@ + m,
        Failure::StaleVersion => "Configuration was changed in another tab"@,
        Failure::VerificationFailed(m) => "Verification failed: "@ + m,
        Failure::Internal(m) => "Internal error: "@ + m,
    }
}

fn counted(before: &str, n: u64, after: &str) -> (r: String)
    ensures
        r@ == before@ + text::decimal(n as int) + after@,
{
    let mut r = text::owned(before);
    text::push_decimal_u64(&mut r, n);
    r.append(after);
    r
}

impl AppError {
    /// The HTTP status with which the error is answered.
    pub fn status_code(&self) -> (r: u16)
        ensures
            r == status_of(self@),
    {
        match self {
            AppError::Database(_) => 500,
            AppError::SteamApi(_) => 502,
            AppError::QuotaExhausted { .. } => 503,
            AppError::RoleLogic(_) => 502,
            AppError::RoleLinkNotFound => 404,
            AppError::RoleLinkDisabled => 403,
            AppError::UserLimitReached { .. } => 403,
            AppError::BadRequest(_) => 400,
            AppError::TooManyRequests(_) => 429,
            AppError::Unauthorized => 401,
            AppError::UnauthorizedWith(_) => 401,
            AppError::Forbidden(_) => 403,
            AppError::NotFound(_) => 404,
            AppError::StaleVersion => 409,
            AppError::VerificationFailed(_) => 422,
            AppError::Internal(_) => 500,
        }
    }

    /// What the client is told.
    pub fn public_message(&self) -> (r: &str)
        ensures
            r@ == message_of(self@),
    {
        match self {
            AppError::Database(_) => "Internal server error",
            AppError::SteamApi(_) => "Failed to fetch Steam data. Please try again later.",
            AppError::QuotaExhausted {
                ..
            } => "Steam data checks are temporarily rate-limited. Please try again later.",
            AppError::RoleLogic(_) => "Failed to sync roles",
            AppError::RoleLinkNotFound => "Role link not found",
            AppError::RoleLinkDisabled => "Role link is disabled",
            AppError::UserLimitReached { .. } => "Role link user limit reached",
            AppError::BadRequest(msg) => msg.as_str(),
            AppError::TooManyRequests(msg) => msg.as_str(),
            AppError::Unauthorized => "Invalid or missing authorization",
            AppError::UnauthorizedWith(msg) => msg.as_str(),
            AppError::Forbidden(msg) => msg.as_str(),
            AppError::NotFound(msg) => msg.as_str(),
            AppError::StaleVersion => "This configuration was changed in another tab. Reload to get the latest, then re-apply your edit.",
            AppError::VerificationFailed(msg) => msg.as_str(),
            AppError::Internal(_) => "Internal server error",
        }
    }

    /// The error in words, for logs.
    pub fn describe(&self) -> (r: String)
        ensures
            r@ == words_of(self@),
    {
        match self {
            AppError::Database(m) => text::cat("Database error: ", m.as_str()),
            AppError::SteamApi(m) => text::cat("Steam API error: ", m.as_str()),
            AppError::QuotaExhausted { retry_after_secs } => counted(
                "Steam API budget exhausted; retry in ",
                *retry_after_secs,
                "s",
            ),
            AppError::RoleLogic(m) => text::cat("RoleLogic API error: ", m.as_str()),
            AppError::RoleLinkNotFound => text::owned("Role link not found on RoleLogic"),
            AppError::RoleLinkDisabled => text::owned("Role link is disabled on RoleLogic"),
            AppError::UserLimitReached { limit } => counted(
                "Role link user limit reached (",
                *limit as u64,
                ")",
            ),
            AppError::BadRequest(m) => text::cat("Invalid request: ", m.as_str()),
            AppError::TooManyRequests(m) => text::cat("Too many requests: ", m.as_str()),
            AppError::Unauthorized => text::owned("Unauthorized"),
            AppError::UnauthorizedWith(m) => text::cat("Unauthorized: ", m.as_str()),
            AppError::Forbidden(m) => text::cat("Forbidden: ", m.as_str()),
            AppError::NotFound(m) => text::cat("Not found: ", m.as_str()),
            AppError::StaleVersion => text::owned("Configuration was changed in another tab"),
            AppError::VerificationFailed(m) => text::cat("Verification failed: ", m.as_str()),
            AppError::Internal(m) => text::cat("Internal error: ", m.as_str()),
        }
    }

    /// The body of the answer.
    pub fn body(&self) -> (r: Value)
        ensures
            r@ == Doc::Object(seq![("error"@, Doc::Text(message_of(self@)))]),
    {
        let entries = vec![json::entry("error", json::string(self.public_message()))];
        assert(json::doc_entries(entries@) =~= seq![("error"@, Doc::Text(message_of(self@)))]);
        json::object(entries)
    }
}

/// A `BadRequest` with a message.
pub fn bad_request(message: &str) -> (r: AppError)
    ensures
        r@ == Failure::BadRequest(message@),
{
    AppError::BadRequest(text::owned(message))
}

/// Failures of the database, of Steam, of RoleLogic and inside the plugin are answered without
/// their details.
pub proof fn law_inner_failures_stay_inside(m: Seq<char>, n: Seq<char>)
    ensures
        message_of(Failure::Database(m)) == message_of(Failure::Database(n)),
        message_of(Failure::SteamApi(m)) == message_of(Failure::SteamApi(n)),
        message_of(Failure::RoleLogic(m)) == message_of(Failure::RoleLogic(n)),
        message_of(Failure::Internal(m)) == message_of(Failure::Internal(n)),
{
}

/// Every failure is answered with a status that says so.
pub proof fn law_failures_are_no_success(f: Failure)
    ensures
        400 <= status_of(f) < 600,
{
}

/// A client is told what is wrong with its request in the words of the failure, with a status that
/// says whose fault it is: the client's for what it asked, the server's for what failed behind it.
pub proof fn law_a_status_says_whose_fault_it_is(m: Seq<char>)
    ensures
        message_of(Failure::BadRequest(m)) == m,
        message_of(Failure::TooManyRequests(m)) == m,
        message_of(Failure::UnauthorizedWith(m)) == m,
        message_of(Failure::Forbidden(m)) == m,
        message_of(Failure::NotFound(m)) == m,
        message_of(Failure::VerificationFailed(m)) == m,
        forall|f: Failure|
            #[trigger] status_of(f) >= 500 <==> f is Database || f is SteamApi
                || f is QuotaExhausted || f is RoleLogic || f is Internal,
{
}

/// A failure is answered with the status that HTTP has for it: what RoleLogic or Steam did wrong as
/// a bad gateway, what is missing as not found, what is not allowed as forbidden, and so on.
pub proof fn law_each_failure_has_its_status(f: Failure)
    ensures
        status_of(f) == 502 <==> f is SteamApi || f is RoleLogic,
        status_of(f) == 503 <==> f is QuotaExhausted,
        status_of(f) == 500 <==> f is Database || f is Internal,
        status_of(f) == 404 <==> f is RoleLinkNotFound || f is NotFound,
        status_of(f) == 403 <==> f is RoleLinkDisabled || f is UserLimitReached || f is Forbidden,
        status_of(f) == 401 <==> f is Unauthorized || f is UnauthorizedWith,
        status_of(f) == 400 <==> f is BadRequest,
        status_of(f) == 429 <==> f is TooManyRequests,
        status_of(f) == 409 <==> f is StaleVersion,
        status_of(f) == 422 <==> f is VerificationFailed,
{
}

/// Where the words of a failure are not meant for a client, the client is told in general terms what
/// kind of failure it was, whatever the words are.
pub proof fn law_a_client_is_told_the_kind_of_failure(f: Failure)
    ensures
        f is Database ==> message_of(f) == "Internal server error"@,
        f is SteamApi ==> message_of(f) == "Failed to fetch Steam data. Please try again later."@,
        f is QuotaExhausted ==> message_of(f) == "Steam data checks are temporarily rate-limited. Please try again later."@,
        f is RoleLogic ==> message_of(f) == "Failed to sync roles"@,
        f is RoleLinkNotFound ==> message_of(f) == "Role link not found"@,
        f is RoleLinkDisabled ==> message_of(f) == "Role link is disabled"@,
        f is UserLimitReached ==> message_of(f) == "Role link user limit reached"@,
        f is Unauthorized ==> message_of(f) == "Invalid or missing authorization"@,
        f is StaleVersion ==> message_of(f) == "This configuration was changed in another tab. Reload to get the latest, then re-apply your edit."@,
        f is Internal ==> message_of(f) == "Internal server error"@,
{
}

/// In the logs a failure says what kind it is and then its own words or its number.
pub proof fn law_logs_tell_the_kind_and_the_words(m: Seq<char>, n: int)
    ensures
        words_of(Failure::Database(m)) == "Database error: "@ + m,
        words_of(Failure::SteamApi(m)) == "Steam API error: "@ + m,
        words_of(Failure::RoleLogic(m)) == "RoleLogic API error: "@ + m,
        words_of(Failure::BadRequest(m)) == "Invalid request: "@ + m,
        words_of(Failure::TooManyRequests(m)) == "Too many requests: "@ + m,
        words_of(Failure::UnauthorizedWith(m)) == "Unauthorized: "@ + m,
        words_of(Failure::Forbidden(m)) == "Forbidden: "@ + m,
        words_of(Failure::NotFound(m)) == "Not found: "@ + m,
        words_of(Failure::VerificationFailed(m)) == "Verification failed: "@ + m,
        words_of(Failure::Internal(m)) == "Internal error: "@ + m,
        words_of(Failure::QuotaExhausted(n)) == "Steam API budget exhausted; retry in "@
            + text::decimal(n) + "s"@,
        words_of(Failure::UserLimitReached(n)) == "Role link user limit reached ("@ + text::decimal(
            n,
        ) + ")"@,
        words_of(Failure::RoleLinkNotFound) == "Role link not found on RoleLogic"@,
        words_of(Failure::RoleLinkDisabled) == "Role link is disabled on RoleLogic"@,
        words_of(Failure::Unauthorized) == "Unauthorized"@,
        words_of(Failure::StaleVersion) == "Configuration was changed in another tab"@,
{
}

/// An error says the failure that it is named after.
pub proof fn law_an_error_says_what_it_is(e: AppError)
    ensures
        e is Database <==> e@ is Database,
        e is SteamApi <==> e@ is SteamApi,
        e is QuotaExhausted <==> e@ is QuotaExhausted,
        e is RoleLogic <==> e@ is RoleLogic,
        e is RoleLinkNotFound <==> e@ is RoleLinkNotFound,
        e is RoleLinkDisabled <==> e@ is RoleLinkDisabled,
        e is UserLimitReached <==> e@ is UserLimitReached,
        e is BadRequest <==> e@ is BadRequest,
        e is TooManyRequests <==> e@ is TooManyRequests,
        e is Unauthorized <==> e@ is Unauthorized,
        e is UnauthorizedWith <==> e@ is UnauthorizedWith,
        e is Forbidden <==> e@ is Forbidden,
        e is NotFound <==> e@ is NotFound,
        e is StaleVersion <==> e@ is StaleVersion,
        e is VerificationFailed <==> e@ is VerificationFailed,
        e is Internal <==> e@ is Internal,
        e matches AppError::QuotaExhausted { retry_after_secs } ==> e@ == Failure::QuotaExhausted(
            retry_after_secs as int,
        ),
        e matches AppError::UserLimitReached { limit } ==> e@ == Failure::UserLimitReached(
            limit as int,
        ),
{
}

} // verus!
