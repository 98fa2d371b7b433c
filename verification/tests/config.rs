use steam_player_role::config::{derive_origin, AppConfig, EnvVars};

fn set(s: &str) -> Option<String> {
    Some(s.to_string())
}

fn required() -> EnvVars {
    EnvVars {
        database_url: set("postgres://db"),
        session_secret: set("secret"),
        base_url: set("https://a.example/steam-player-role"),
        listen_addr: None,
        auth_gateway_url: set("http://auth-gateway:8080//"),
        internal_api_key: set("internal"),
        rl_dashboard_origin: None,
        steam_api_key: set("key"),
        steam_api_daily_quota: None,
        steam_api_rate_limit: None,
        refresh_workers: None,
        max_stable_refresh_secs: None,
    }
}

#[test]
fn origins_end_before_the_path() {
    assert_eq!(
        derive_origin("https://a.example/steam-player-role"),
        "https://a.example"
    );
    assert_eq!(derive_origin("https://a.example:8080/"), "https://a.example:8080");
    assert_eq!(derive_origin("https://a.example"), "https://a.example");
    assert_eq!(derive_origin("a.example/x"), "a.example/x");
    assert_eq!(derive_origin("http:///x"), "http://");
    assert_eq!(derive_origin(""), "");
}

#[test]
fn defaults_fill_what_is_not_set() {
    let vars = required();
    assert_eq!(vars.missing(), None);
    assert!(vars.limit_fits());
    assert!(!vars.uses_deprecated_limit());
    let c = AppConfig::from_env(vars);
    assert_eq!(c.database_url, "postgres://db");
    assert_eq!(c.session_secret, "secret");
    assert_eq!(c.base_url, "https://a.example/steam-player-role");
    assert_eq!(c.listen_addr, "0.0.0.0:8088");
    assert_eq!(c.auth_gateway_url, "http://auth-gateway:8080");
    assert_eq!(c.internal_api_key, "internal");
    assert_eq!(c.rl_dashboard_origin, None);
    assert_eq!(c.steam_api_key, "key");
    assert_eq!(c.steam_api_daily_quota, 100_000);
    assert_eq!(c.refresh_workers, 2);
    assert_eq!(c.max_stable_refresh_secs, 604_800);
    assert_eq!(c.allowed_origins(), vec!["https://a.example".to_string()]);
}

#[test]
fn what_is_set_counts_within_bounds() {
    let c = AppConfig::from_env(EnvVars {
        listen_addr: set("127.0.0.1:1"),
        rl_dashboard_origin: set(" https://dash.example// "),
        steam_api_daily_quota: set("-4"),
        refresh_workers: set("1000"),
        max_stable_refresh_secs: set("5"),
        ..required()
    });
    assert_eq!(c.listen_addr, "127.0.0.1:1");
    assert_eq!(c.rl_dashboard_origin.as_deref(), Some("https://dash.example"));
    assert_eq!(c.steam_api_daily_quota, 1);
    assert_eq!(c.refresh_workers, 64);
    assert_eq!(c.max_stable_refresh_secs, 86_400);
    assert_eq!(
        c.allowed_origins(),
        vec![
            "https://a.example".to_string(),
            "https://dash.example".to_string()
        ]
    );
    let c = AppConfig::from_env(EnvVars {
        rl_dashboard_origin: set(" // "),
        refresh_workers: set("0"),
        max_stable_refresh_secs: set("x"),
        steam_api_daily_quota: set("7"),
        ..required()
    });
    assert_eq!(c.rl_dashboard_origin, None);
    assert_eq!(c.refresh_workers, 1);
    assert_eq!(c.max_stable_refresh_secs, 604_800);
    assert_eq!(c.steam_api_daily_quota, 7);
}

#[test]
fn the_hourly_limit_is_honored_for_a_day() {
    let vars = || EnvVars {
        steam_api_rate_limit: set("100"),
        ..required()
    };
    assert!(vars().uses_deprecated_limit());
    assert_eq!(AppConfig::from_env(vars()).steam_api_daily_quota, 2_400);
    let both = EnvVars {
        steam_api_daily_quota: set("50"),
        ..vars()
    };
    assert!(!both.uses_deprecated_limit());
    assert_eq!(AppConfig::from_env(both).steam_api_daily_quota, 50);
    let negative = EnvVars {
        steam_api_rate_limit: set("-3"),
        ..required()
    };
    assert_eq!(AppConfig::from_env(negative).steam_api_daily_quota, 24);
    let large = EnvVars {
        steam_api_rate_limit: set("9223372036854775807"),
        ..required()
    };
    assert!(!large.limit_fits());
}

#[test]
fn what_is_missing_is_named() {
    let missing = |vars: EnvVars| vars.missing().unwrap();
    assert_eq!(
        missing(EnvVars { base_url: None, database_url: None, ..required() }),
        "BASE_URL must be set"
    );
    assert_eq!(
        missing(EnvVars { auth_gateway_url: None, ..required() }),
        "AUTH_GATEWAY_URL must be set"
    );
    assert_eq!(
        missing(EnvVars { database_url: None, ..required() }),
        "DATABASE_URL must be set"
    );
    assert_eq!(
        missing(EnvVars { session_secret: None, ..required() }),
        "SESSION_SECRET must be set"
    );
    assert_eq!(
        missing(EnvVars { internal_api_key: None, ..required() }),
        "INTERNAL_API_KEY must be set (must match the Auth Gateway's value)"
    );
    assert_eq!(
        missing(EnvVars { steam_api_key: None, ..required() }),
        "STEAM_API_KEY must be set"
    );
}
