//! The configuration of the plugin.

use vstd::prelude::*;
use crate::text;

verus! {

/// The environment variables that configure the plugin, as far as they are set.
pub struct EnvVars {
    pub database_url: Option<String>,
    pub session_secret: Option<String>,
    pub base_url: Option<String>,
    pub listen_addr: Option<String>,
    pub auth_gateway_url: Option<String>,
    pub internal_api_key: Option<String>,
    pub rl_dashboard_origin: Option<String>,
    pub steam_api_key: Option<String>,
    pub steam_api_daily_quota: Option<String>,
    /// Requests per hour; honored as a daily quota where that is not set.
    pub steam_api_rate_limit: Option<String>,
    pub refresh_workers: Option<String>,
    pub max_stable_refresh_secs: Option<String>,
}

/// The configuration of the plugin.
pub struct AppConfig {
    pub database_url: String,
    pub session_secret: String,
    pub base_url: String,
    pub listen_addr: String,
    pub auth_gateway_url: String,
    pub internal_api_key: String,
    /// Origin allowed to embed this plugin in an iframe. Used to build the
    /// `Content-Security-Policy: frame-ancestors …` header on the
    /// role-config page and added to the CSRF origin allowlist. Unset →
    /// permissive `*` (dev / self-hosted RoleLogic).
    pub rl_dashboard_origin: Option<String>,
    pub steam_api_key: String,
    /// Nominal daily Steam Web API call allowance for our key (Valve's ToU
    /// default is 100,000/day). The governor spends a safe fraction of it.
    pub steam_api_daily_quota: i64,
    /// Number of background refresh workers. They share the governor's
    /// budget and partition rows by `hashtext(steam_id) % N`.
    pub refresh_workers: i64,
    /// Ceiling for the stability-stretched refresh interval. Churny users
    /// stay within 24h; long-stable users may stretch up to this.
    pub max_stable_refresh_secs: i64,
}

/// The scheme and the host of a URL: what stands before the first slash after `://`. A text
/// without a scheme, or without such a slash, is taken whole.
pub open spec fn origin_of(url: Seq<char>) -> Seq<char> {
    match text::first_at(url, "://"@, 0) {
        Some(i) => match text::first_at(url, "/"@, i + 3) {
            Some(j) => url.take(j),
            None => url,
        },
        None => url,
    }
}

/// The scheme and the host of a URL.
pub fn derive_origin(base_url: &str) -> (r: String)
    ensures
        r@ == origin_of(base_url@),
{
    proof {
        reveal_strlit("://");
        reveal_strlit("/");
    }
    let v = text::chars_of(base_url);
    if let Some(scheme_end) = text::find_from(&v, "://", 0) {
        let total: usize = v.len();
        proof {
            text::lemma_first_at_is_inside(v@, "://"@, 0);
            assert("://"@.len() == 3);
            assert(scheme_end + 3 <= total);
        }
        let after_scheme: usize = scheme_end + 3;
        if let Some(path_slash) = text::find_from(&v, "/", after_scheme) {
            let r = text::slice_text(&v, 0, path_slash);
            assert(base_url@.subrange(0, path_slash as int) =~= base_url@.take(path_slash as int));
            return r;
        }
    }
    text::owned(base_url)
}

/// The number in a variable, if it is set and holds one.
pub open spec fn number_in(v: Option<String>) -> Option<int> {
    match v {
        Some(s) => text::signed_number(s@, i64::MIN as int, i64::MAX as int),
        None => None,
    }
}

/// The larger of two numbers.
pub open spec fn at_least(n: int, lo: int) -> int {
    if n < lo {
        lo
    } else {
        n
    }
}

/// The daily quota: as it is set; or else a day's worth of the hourly limit; or else 100000. At
/// least 1.
pub open spec fn daily_quota(vars: EnvVars) -> int {
    at_least(
        match number_in(vars.steam_api_daily_quota) {
            Some(n) => n,
            None => match number_in(vars.steam_api_rate_limit) {
                Some(hourly) => at_least(hourly, 1) * 24,
                None => 100_000,
            },
        },
        1,
    )
}

/// The number of workers: as it is set, between 1 and 64; or else 2.
pub open spec fn worker_count(vars: EnvVars) -> int {
    match number_in(vars.refresh_workers) {
        Some(n) => if n > 64 {
            64
        } else {
            at_least(n, 1)
        },
        None => 2,
    }
}

/// The ceiling of the refresh interval: as it is set; or else a week. At least a day.
pub open spec fn stable_ceiling(vars: EnvVars) -> int {
    at_least(
        match number_in(vars.max_stable_refresh_secs) {
            Some(n) => n,
            None => 604_800,
        },
        86_400,
    )
}

/// The origin of the dashboard: as it is set, without white space around it and without slashes at
/// its end; none when that leaves nothing.
pub open spec fn dashboard_origin(vars: EnvVars) -> Option<Seq<char>> {
    match vars.rl_dashboard_origin {
        Some(s) => {
            let t = text::without_trailing(text::trimmed(s@), '/');
            if t.len() > 0 {
                Some(t)
            } else {
                None
            }
        },
        None => None,
    }
}

fn number_of(v: &Option<String>) -> (r: Option<i64>)
    ensures
        match r {
            Some(n) => number_in(*v) == Some(n as int),
            None => number_in(*v) is None,
        },
{
    match v {
        Some(s) => text::parse_i64(s.as_str()),
        None => None,
    }
}

impl EnvVars {
    /// All that must be set is set, and the hourly limit, if it is set, makes a daily one that can
    /// be represented.
    pub open spec fn complete(self) -> bool {
        &&& self.database_url is Some
        &&& self.session_secret is Some
        &&& self.base_url is Some
        &&& self.auth_gateway_url is Some
        &&& self.internal_api_key is Some
        &&& self.steam_api_key is Some
        &&& number_in(self.steam_api_rate_limit) matches Some(n) ==> n * 24 <= i64::MAX
    }

    /// What is wrong with a variable that is missing, in the order in which they are looked at.
    pub fn missing(&self) -> (r: Option<&'static str>)
        ensures
            match r {
                Some(m) => m@ == (if self.base_url is None {
                    "BASE_URL must be set"@
                } else if self.auth_gateway_url is None {
                    "AUTH_GATEWAY_URL must be set"@
                } else if self.database_url is None {
                    "DATABASE_URL must be set"@
                } else if self.session_secret is None {
                    "SESSION_SECRET must be set"@
                } else if self.internal_api_key is None {
                    "INTERNAL_API_KEY must be set (must match the Auth Gateway's value)"@
                } else {
                    "STEAM_API_KEY must be set"@
                }),
                None => true,
            },
            r is None <==> self.database_url is Some && self.session_secret is Some
                && self.base_url is Some && self.auth_gateway_url is Some && self.internal_api_key
                is Some && self.steam_api_key is Some,
    {
        if self.base_url.is_none() {
            Some("BASE_URL must be set")
        } else if self.auth_gateway_url.is_none() {
            Some("AUTH_GATEWAY_URL must be set")
        } else if self.database_url.is_none() {
            Some("DATABASE_URL must be set")
        } else if self.session_secret.is_none() {
            Some("SESSION_SECRET must be set")
        } else if self.internal_api_key.is_none() {
            Some("INTERNAL_API_KEY must be set (must match the Auth Gateway's value)")
        } else if self.steam_api_key.is_none() {
            Some("STEAM_API_KEY must be set")
        } else {
            None
        }
    }

    /// Can the daily quota that the hourly limit makes be represented?
    pub fn limit_fits(&self) -> (r: bool)
        ensures
            r == (number_in(self.steam_api_rate_limit) matches Some(n) ==> n * 24 <= i64::MAX),
    {
        match number_of(&self.steam_api_rate_limit) {
            Some(n) => n <= i64::MAX / 24,
            None => true,
        }
    }

    /// Is the deprecated hourly limit what sets the daily quota?
    pub fn uses_deprecated_limit(&self) -> (r: bool)
        ensures
            r == (number_in(self.steam_api_rate_limit) is Some && self.steam_api_daily_quota
                is None),
    {
        number_of(&self.steam_api_rate_limit).is_some() && self.steam_api_daily_quota.is_none()
    }
}

fn larger(n: i64, lo: i64) -> (r: i64)
    ensures
        r == at_least(n as int, lo as int),
{
    if n < lo {
        lo
    } else {
        n
    }
}

impl AppConfig {
    /// The configuration that the variables describe.
    pub fn from_env(vars: EnvVars) -> (r: AppConfig)
        requires
            vars.complete(),
        ensures
            r.database_url == vars.database_url->0,
            r.session_secret == vars.session_secret->0,
            r.base_url == vars.base_url->0,
            r.internal_api_key == vars.internal_api_key->0,
            r.steam_api_key == vars.steam_api_key->0,
            r.listen_addr@ == (match vars.listen_addr {
                Some(s) => s@,
                None => "0.0.0.0:8088"@,
            }),
            r.auth_gateway_url@ == text::without_trailing(vars.auth_gateway_url->0@, '/'),
            match r.rl_dashboard_origin {
                Some(s) => dashboard_origin(vars) == Some(s@),
                None => dashboard_origin(vars) is None,
            },
            r.steam_api_daily_quota == daily_quota(vars),
            r.refresh_workers == worker_count(vars),
            r.max_stable_refresh_secs == stable_ceiling(vars),
    {
        let steam_api_daily_quota: i64 = match number_of(&vars.steam_api_daily_quota) {
            Some(n) => larger(n, 1),
            // Requests per hour are the deprecated knob; honored so that existing deployments
            // keep their configured ceiling until they migrate.
            None => match number_of(&vars.steam_api_rate_limit) {
                Some(hourly) => larger(hourly, 1) * 24,
                None => 100_000,
            },
        };
        let refresh_workers: i64 = match number_of(&vars.refresh_workers) {
            Some(n) => {
                if n > 64 {
                    64
                } else {
                    larger(n, 1)
                }
            },
            None => 2,
        };
        let max_stable_refresh_secs: i64 = match number_of(&vars.max_stable_refresh_secs) {
            Some(n) => larger(n, 86_400),
            None => 604_800,
        };
        let gateway = vars.auth_gateway_url.unwrap();
        let auth_gateway_url = text::trim_end_matches(gateway.as_str(), '/');
        let rl_dashboard_origin = match &vars.rl_dashboard_origin {
            Some(s) => {
                let t = text::trim_end_matches(text::trim(s.as_str()).as_str(), '/');
                if t.as_str().is_empty() {
                    None
                } else {
                    Some(t)
                }
            },
            None => None,
        };
        let listen_addr = match vars.listen_addr {
            Some(s) => s,
            None => text::owned("0.0.0.0:8088"),
        };
        AppConfig {
            database_url: vars.database_url.unwrap(),
            session_secret: vars.session_secret.unwrap(),
            base_url: vars.base_url.unwrap(),
            listen_addr,
            auth_gateway_url,
            internal_api_key: vars.internal_api_key.unwrap(),
            rl_dashboard_origin,
            steam_api_key: vars.steam_api_key.unwrap(),
            steam_api_daily_quota,
            refresh_workers,
            max_stable_refresh_secs,
        }
    }

    /// Origins that can drive cookie-authenticated state changes (direct-nav
    /// admin writes): that of the plugin itself, and that of the dashboard.
    pub fn allowed_origins(&self) -> (r: Vec<String>)
        ensures
            text::texts(r@) == (match self.rl_dashboard_origin {
                Some(d) => seq![origin_of(self.base_url@), d@],
                None => seq![origin_of(self.base_url@)],
            }),
    {
        let mut r: Vec<String> = vec![derive_origin(self.base_url.as_str())];
        if let Some(d) = &self.rl_dashboard_origin {
            r.push(d.clone());
        }
        assert(text::texts(r@) =~= (match self.rl_dashboard_origin {
            Some(d) => seq![origin_of(self.base_url@), d@],
            None => seq![origin_of(self.base_url@)],
        }));
        r
    }
}

/// An origin is the beginning of the URL, and where the URL names a scheme, no path follows in it.
pub proof fn law_origin_is_a_prefix(url: Seq<char>)
    ensures
        origin_of(url).len() <= url.len(),
        origin_of(url) == url.take(origin_of(url).len() as int),
        text::first_at(url, "://"@, 0) matches Some(i) ==> forall|k: int|
            i + 3 <= k < origin_of(url).len() ==> #[trigger] origin_of(url)[k] != '/',
{
    reveal_strlit("/");
    text::lemma_first_at_is_inside(url, "://"@, 0);
    match text::first_at(url, "://"@, 0) {
        Some(i) => {
            text::lemma_first_at(url, "/"@, i + 3);
            text::lemma_first_at_is_inside(url, "/"@, i + 3);
            assert forall|k: int| i + 3 <= k < origin_of(url).len() implies #[trigger] origin_of(
                url,
            )[k] != '/' by {
                if url[k] == '/' {
                    assert(url.subrange(k, k + 1) =~= "/"@);
                    assert(text::stands_at(url, "/"@, k));
                }
            }
        },
        None => {},
    }
    assert(url.take(url.len() as int) =~= url);
    if origin_of(url).len() < url.len() {
        assert(origin_of(url) =~= url.take(origin_of(url).len() as int));
    }
}

/// Whatever is set, the quota is positive, there are between 1 and 64 workers, and the ceiling is
/// at least a day.
pub proof fn law_numbers_are_sensible(vars: EnvVars)
    ensures
        daily_quota(vars) >= 1,
        1 <= worker_count(vars) <= 64,
        stable_ceiling(vars) >= 86_400,
{
}

/// What is set counts: a quota that is set is the quota, whatever the hourly limit is; without it
/// the hourly limit counts for every hour of a day; the number of workers and the ceiling are those
/// that are set, as far as they lie within their bounds.
pub proof fn law_what_is_set_counts(vars: EnvVars, s: String, n: i64)
    requires
        s@ == text::decimal(n as int),
    ensures
        vars.steam_api_daily_quota == Some(s) && n >= 1 ==> daily_quota(vars) == n,
        vars.steam_api_daily_quota is None && vars.steam_api_rate_limit == Some(s) && n >= 1
            ==> daily_quota(vars) == 24 * n,
        vars.steam_api_daily_quota is None && vars.steam_api_rate_limit is None ==> daily_quota(
            vars,
        ) == 100_000,
        vars.refresh_workers == Some(s) && 1 <= n <= 64 ==> worker_count(vars) == n,
        vars.refresh_workers is None ==> worker_count(vars) == 2,
        vars.max_stable_refresh_secs == Some(s) && n >= 86_400 ==> stable_ceiling(vars) == n,
        vars.max_stable_refresh_secs is None ==> stable_ceiling(vars) == 7 * 86_400,
{
    text::law_decimal_round_trip(n);
}

/// The origin of a URL with a path is what stands before the path.
pub proof fn law_the_path_is_no_part_of_the_origin(
    scheme: Seq<char>,
    host: Seq<char>,
    path: Seq<char>,
)
    requires
        !scheme.contains(':'),
        !host.contains('/'),
    ensures
        origin_of(scheme + "://"@ + host + "/"@ + path) == scheme + "://"@ + host,
        origin_of(scheme + "://"@ + host) == scheme + "://"@ + host,
{
    reveal_strlit("://");
    reveal_strlit("/");
    let front = scheme + "://"@ + host;
    let all = front + "/"@ + path;
    lemma_origin(all, scheme.len() as int, front.len() as int);
    lemma_origin(front, scheme.len() as int, front.len() as int);
    assert(all.take(front.len() as int) =~= front);
    assert(front.take(front.len() as int) =~= front);
}

proof fn lemma_origin(url: Seq<char>, colon: int, end: int)
    requires
        0 <= colon,
        colon + 3 <= end <= url.len(),
        url[colon] == ':' && url[colon + 1] == '/' && url[colon + 2] == '/',
        forall|i: int| 0 <= i < colon ==> #[trigger] url[i] != ':',
        forall|i: int| colon + 3 <= i < end ==> #[trigger] url[i] != '/',
        end < url.len() ==> url[end] == '/',
    ensures
        origin_of(url) == url.take(end),
{
    reveal_strlit("://");
    reveal_strlit("/");
    let sign = "://"@;
    assert(url.subrange(colon, colon + 3) =~= sign);
    assert(text::stands_at(url, sign, colon));
    text::lemma_first_at(url, sign, 0);
    text::lemma_first_at_is_inside(url, sign, 0);
    let i = text::first_at(url, sign, 0)->0;
    assert(url.subrange(i, i + 3)[0] == url[i]);
    assert(sign[0] == ':');
    assert(i == colon);
    text::lemma_first_at(url, "/"@, colon + 3);
    text::lemma_first_at_is_inside(url, "/"@, colon + 3);
    if end < url.len() {
        assert(url.subrange(end, end + 1) =~= "/"@);
        assert(text::stands_at(url, "/"@, end));
    }
    if let Some(j) = text::first_at(url, "/"@, colon + 3) {
        assert(url.subrange(j, j + 1)[0] == url[j]);
        assert(url[j] == '/');
    } else {
        assert(url.take(end) =~= url);
    }
}

/// The origin of the dashboard is what is set, from its first character that is no white space on,
/// and ends in no slash; none is known when nothing but white space and slashes is set.
pub proof fn law_the_dashboard_origin_is_what_is_set(vars: EnvVars)
    ensures
        vars.rl_dashboard_origin is None ==> dashboard_origin(vars) is None,
        dashboard_origin(vars) matches Some(t) ==> {
            &&& vars.rl_dashboard_origin is Some
            &&& t.len() > 0 && t.last() != '/' && !text::white(t[0])
            &&& text::occurs_in(vars.rl_dashboard_origin->0@, t)
        },
        vars.rl_dashboard_origin matches Some(s) ==> (s@.len() > 0 && !text::white(s@[0])
            && !text::white(s@.last()) && s@.last() != '/' ==> dashboard_origin(vars) == Some(s@)),
        vars.rl_dashboard_origin matches Some(s) ==> (dashboard_origin(vars) is None <==> forall|
            i: int,
        |
            0 <= i < text::trimmed(s@).len() ==> (#[trigger] text::trimmed(s@)[i]) == '/'),
{
    if let Some(s) = vars.rl_dashboard_origin {
        let at = text::law_trimming_takes_white_space_from_the_ends(s@);
        if s@.len() > 0 && !text::white(s@[0]) && !text::white(s@.last()) {
            text::law_trimming_leaves_the_rest(s@);
        }
        let inner = text::trimmed(s@);
        text::law_trailing_runs_are_dropped(inner, '/');
        let t = text::without_trailing(inner, '/');
        if t.len() > 0 {
            assert(inner.subrange(0, t.len() as int) =~= t);
            assert(s@.subrange(at, at + t.len()) =~= t);
            text::lemma_middle_occurs(
                s@.subrange(0, at),
                t,
                s@.subrange(at + t.len(), s@.len() as int),
            );
            assert(s@ =~= s@.subrange(0, at) + t + s@.subrange(at + t.len(), s@.len() as int));
        }
    }
}

} // verus!
