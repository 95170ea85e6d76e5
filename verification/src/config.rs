//! Service settings, read from environment values with defaults.
use vstd::prelude::*;
use crate::text::{
    decimal, is_digit_char, lemma_decimal_digits, lemma_parse_decimal, parse_i64, parse_i64_spec, parse_u16, parse_u32,
    parse_unsigned_spec, push_char, push_decimal, same_text, string_of,
};

verus! {

/// Where the HTTP server listens.
#[derive(Debug, Clone)]
pub struct ServerSettings {
    pub host: String,
    pub port: u16,
}

/// How to reach the database.
#[derive(Debug, Clone)]
pub struct DatabaseSettings {
    pub url: String,
    pub max_connections: u32,
}

/// How tokens are signed and how long they last.
#[derive(Debug, Clone)]
pub struct JwtSettings {
    pub secret: String,
    pub expiration_hours: i64,
}

/// The deployment environment ("production", "development", ..).
#[derive(Debug, Clone)]
pub struct AppSettings {
    pub env: String,
}

/// All settings of the service.
#[derive(Debug, Clone)]
pub struct Settings {
    pub server: ServerSettings,
    pub database: DatabaseSettings,
    pub jwt: JwtSettings,
    pub app: AppSettings,
}

/// The raw values of the environment variables that the settings come from;
/// `None` where a variable is unset or not valid Unicode.
///
/// `DATABASE_URL` and `JWT_SECRET` have no default and must be present.
#[derive(Debug, Clone)]
pub struct SettingsSource {
    pub server_host: Option<String>,
    pub server_port: Option<String>,
    pub database_url: String,
    pub database_max_connections: Option<String>,
    pub jwt_secret: String,
    pub jwt_expiration_hours: Option<String>,
    pub app_env: Option<String>,
}

/// A text setting, or its default.
pub open spec fn text_setting(v: Option<String>, default: Seq<char>) -> Seq<char> {
    match v {
        Some(s) => s@,
        None => default,
    }
}

/// An unsigned setting: the variable (or, when unset, `default_text`) read
/// with `str::parse`, and `default` where that fails.
pub open spec fn unsigned_setting(
    v: Option<String>,
    default_text: Seq<char>,
    max: nat,
    default: nat,
) -> nat {
    match parse_unsigned_spec(text_setting(v, default_text), max) {
        Some(n) => n,
        None => default,
    }
}

/// A signed setting, read as `unsigned_setting` reads an unsigned one.
pub open spec fn i64_setting(v: Option<String>, default_text: Seq<char>, default: int) -> int {
    match parse_i64_spec(text_setting(v, default_text)) {
        Some(n) => n,
        None => default,
    }
}

fn text_or(v: Option<String>, default: &str) -> (r: String)
    ensures
        r@ == text_setting(v, default@),
{
    match v {
        Some(s) => s,
        None => string_of(default),
    }
}

impl Settings {
    /// Builds the settings from the environment's values: `SERVER_HOST`
    /// (default "0.0.0.0"), `SERVER_PORT` (8080), `DATABASE_URL`,
    /// `DATABASE_MAX_CONNECTIONS` (10), `JWT_SECRET`, `JWT_EXPIRATION_HOURS`
    /// (24) and `APP_ENV` ("development"). A number that does not parse
    /// falls back to its default.
    pub fn new(source: SettingsSource) -> (r: Settings)
        ensures
            r.server.host@ == text_setting(source.server_host, "0.0.0.0"@),
            r.server.port == unsigned_setting(source.server_port, "8080"@, u16::MAX as nat, 8080),
            r.database.url == source.database_url,
            r.database.max_connections == unsigned_setting(
                source.database_max_connections,
                "10"@,
                u32::MAX as nat,
                10,
            ),
            r.jwt.secret == source.jwt_secret,
            r.jwt.expiration_hours == i64_setting(source.jwt_expiration_hours, "24"@, 24),
            r.app.env@ == text_setting(source.app_env, "development"@),
    {
        let host = text_or(source.server_host, "0.0.0.0");
        let port_text = text_or(source.server_port, "8080");
        let port = match parse_u16(port_text.as_str()) {
            Some(p) => p,
            None => 8080,
        };
        let max_text = text_or(source.database_max_connections, "10");
        let max_connections = match parse_u32(max_text.as_str()) {
            Some(m) => m,
            None => 10,
        };
        let hours_text = text_or(source.jwt_expiration_hours, "24");
        let expiration_hours = match parse_i64(hours_text.as_str()) {
            Some(h) => h,
            None => 24,
        };
        let env = text_or(source.app_env, "development");
        Settings {
            server: ServerSettings { host, port },
            database: DatabaseSettings { url: source.database_url, max_connections },
            jwt: JwtSettings { secret: source.jwt_secret, expiration_hours },
            app: AppSettings { env },
        }
    }

    /// The address the server listens on: `host:port`.
    pub fn server_address(&self) -> (r: String)
        ensures
            r@ == self.server.host@ + seq![':'] + decimal(self.server.port as nat),
    {
        let mut r = string_of(self.server.host.as_str());
        push_char(&mut r, ':');
        push_decimal(&mut r, self.server.port as u64);
        r
    }

    /// Whether the service runs in production.
    pub fn is_production(&self) -> (r: bool)
        ensures
            r == (self.app.env@ == "production"@),
    {
        same_text(self.app.env.as_str(), "production")
    }
}

/// A port written as `server_address` writes it is read back as the same
/// port: for every port `p`, a `SERVER_PORT` holding the numeral of `p` gives
/// the setting `p`.
pub proof fn lemma_port_roundtrip(p: u16, text: String)
    requires
        text@ == decimal(p as nat),
    ensures
        unsigned_setting(Some(text), "8080"@, u16::MAX as nat, 8080) == p,
{
    lemma_parse_decimal(p as nat, u16::MAX as nat);
}

/// The address that `server_address` writes splits back, at its last `:`,
/// into the host and the port: the part before that `:` is the host, no `:`
/// follows it, and the part after it reads back as the port, for every host
/// and port.
pub proof fn lemma_address_split(host: Seq<char>, port: u16)
    ensures
        ({
            let a = host + seq![':'] + decimal(port as nat);
            let i = host.len() as int;
            &&& a[i] == ':'
            &&& forall|j: int| i < j < a.len() ==> a[j] != ':'
            &&& a.take(i) == host
            &&& parse_unsigned_spec(a.skip(i + 1), u16::MAX as nat) == Some(port as nat)
        }),
{
    let a = host + seq![':'] + decimal(port as nat);
    let i = host.len() as int;
    lemma_decimal_digits(port as nat);
    lemma_parse_decimal(port as nat, u16::MAX as nat);
    assert forall|j: int| i < j < a.len() implies a[j] != ':' by {
        assert(a[j] == decimal(port as nat)[j - i - 1]);
        assert(is_digit_char(decimal(port as nat)[j - i - 1]));
    }
    assert(a.take(i) =~= host);
    assert(a.skip(i + 1) =~= decimal(port as nat));
}

/// How log lines are written.
#[derive(Debug, Clone, Copy, PartialEq, Eq)]
pub enum LogFormat {
    /// One JSON object per line, for log collectors.
    Json,
    /// Multi-line, human-readable.
    Pretty,
}

/// The logging set-up that the settings call for.
#[derive(Debug, Clone)]
pub struct LogConfig {
    pub format: LogFormat,
    /// The filter used when `RUST_LOG` gives none.
    pub default_filter: String,
}

/// The default log filter for an environment.
pub open spec fn default_filter_for(production: bool) -> Seq<char> {
    if production {
        "info"@
    } else {
        "debug,axum_server=debug,sqlx=warn,tower_http=debug"@
    }
}

impl LogConfig {
    /// Production logs JSON at `info`; every other environment logs
    /// readable text at `debug`.
    pub fn for_settings(settings: &Settings) -> (r: LogConfig)
        ensures
            (settings.app.env@ == "production"@) ==> r.format == LogFormat::Json,
            (settings.app.env@ != "production"@) ==> r.format == LogFormat::Pretty,
            r.default_filter@ == default_filter_for(settings.app.env@ == "production"@),
    {
        if settings.is_production() {
            LogConfig { format: LogFormat::Json, default_filter: string_of("info") }
        } else {
            LogConfig {
                format: LogFormat::Pretty,
                default_filter: string_of("debug,axum_server=debug,sqlx=warn,tower_http=debug"),
            }
        }
    }
}

} // verus!
