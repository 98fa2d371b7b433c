use steam_player_role::error::{bad_request, AppError};
use steam_player_role::json::Value;

fn m(s: &str) -> String {
    s.to_string()
}

#[test]
fn every_error_is_answered_and_described() {
    let cases: Vec<(AppError, u16, &str, &str)> = vec![
        (AppError::Database(m("x")), 500, "Internal server error", "Database error: x"),
        (
            AppError::SteamApi(m("x")),
            502,
            "Failed to fetch Steam data. Please try again later.",
            "Steam API error: x",
        ),
        (
            AppError::QuotaExhausted { retry_after_secs: 42 },
            503,
            "Steam data checks are temporarily rate-limited. Please try again later.",
            "Steam API budget exhausted; retry in 42s",
        ),
        (AppError::RoleLogic(m("x")), 502, "Failed to sync roles", "RoleLogic API error: x"),
        (
            AppError::RoleLinkNotFound,
            404,
            "Role link not found",
            "Role link not found on RoleLogic",
        ),
        (
            AppError::RoleLinkDisabled,
            403,
            "Role link is disabled",
            "Role link is disabled on RoleLogic",
        ),
        (
            AppError::UserLimitReached { limit: 7 },
            403,
            "Role link user limit reached",
            "Role link user limit reached (7)",
        ),
        (AppError::BadRequest(m("no")), 400, "no", "Invalid request: no"),
        (AppError::TooManyRequests(m("no")), 429, "no", "Too many requests: no"),
        (
            AppError::Unauthorized,
            401,
            "Invalid or missing authorization",
            "Unauthorized",
        ),
        (AppError::UnauthorizedWith(m("no")), 401, "no", "Unauthorized: no"),
        (AppError::Forbidden(m("no")), 403, "no", "Forbidden: no"),
        (AppError::NotFound(m("no")), 404, "no", "Not found: no"),
        (
            AppError::StaleVersion,
            409,
            "This configuration was changed in another tab. Reload to get the latest, then re-apply your edit.",
            "Configuration was changed in another tab",
        ),
        (AppError::VerificationFailed(m("no")), 422, "no", "Verification failed: no"),
        (AppError::Internal(m("x")), 500, "Internal server error", "Internal error: x"),
    ];
    for (e, status, message, words) in cases {
        assert_eq!(e.status_code(), status);
        assert_eq!(e.public_message(), message);
        assert_eq!(e.describe(), words);
        assert_eq!(
            e.body(),
            Value::Object(vec![(m("error"), Value::Text(m(message)))])
        );
        assert!(e.status_code() >= 400);
    }
    assert_eq!(bad_request("no"), AppError::BadRequest(m("no")));
}

#[test]
fn details_from_inside_stay_inside() {
    for secret in ["SELECT 1", "key=abc"] {
        for e in [
            AppError::Database(m(secret)),
            AppError::SteamApi(m(secret)),
            AppError::RoleLogic(m(secret)),
            AppError::Internal(m(secret)),
        ] {
            assert!(!e.public_message().contains(secret));
        }
    }
}
