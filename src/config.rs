//! Service configuration: plain data plus the checks made before it is used.
use vstd::prelude::*;
use vstd::string::*;

verus! {

/// Whole service configuration.
#[derive(Debug, Clone)]
pub struct Config {
    pub server: ServerConfig,
    pub database: DatabaseConfig,
    pub redis: RedisConfig,
    pub logging: LoggingConfig,
    pub performance: PerformanceConfig,
}

/// Listener settings.
#[derive(Debug, Clone)]
pub struct ServerConfig {
    pub host: String,
    pub port: u16,
    /// Worker threads; `None` means one per core.
    pub workers: Option<usize>,
    /// Request timeout in seconds.
    pub request_timeout: u64,
    pub enable_http2: bool,
}

/// Persistent store connection pool settings.
#[derive(Debug, Clone)]
pub struct DatabaseConfig {
    pub url: String,
    pub max_connections: u32,
    pub min_connections: u32,
    /// Seconds to wait for a connection.
    pub connect_timeout: u64,
    /// Seconds a query may run.
    pub query_timeout: u64,
}

/// Remote cache settings.
#[derive(Debug, Clone)]
pub struct RedisConfig {
    pub url: String,
    pub max_connections: u32,
    pub connect_timeout: u64,
}

/// Log output settings.
#[derive(Debug, Clone)]
pub struct LoggingConfig {
    /// One of error, warn, info, debug, trace (any letter case).
    pub level: String,
    /// Either json or pretty (any letter case).
    pub format: String,
    pub enable_request_logging: bool,
}

/// In-process cache and compression settings.
#[derive(Debug, Clone)]
pub struct PerformanceConfig {
    pub memory_cache_size: u64,
    /// Seconds an entry lives in the in-process cache.
    pub memory_cache_ttl: u64,
    pub enable_compression: bool,
    pub compression_level: u32,
}

/// What `str::to_lowercase` makes of a text.
pub uninterp spec fn lower_of(s: Seq<char>) -> Seq<char>;

/// Relies on `str::to_lowercase`: its result depends on the characters alone.
#[verifier::external_body]
fn lowercase(s: &str) -> (r: String)
    ensures
        r@ == lower_of(s@),
{
    s.to_lowercase()
}

/// The accepted log levels, in lower case.
pub open spec fn is_log_level(s: Seq<char>) -> bool {
    s == "error"@ || s == "warn"@ || s == "info"@ || s == "debug"@ || s == "trace"@
}

/// The accepted log formats, in lower case.
pub open spec fn is_log_format(s: Seq<char>) -> bool {
    s == "json"@ || s == "pretty"@
}

pub open spec fn port_message() -> Seq<char> {
    "Server port must be greater than 0"@
}

pub open spec fn connections_message() -> Seq<char> {
    "Database max_connections must be >= min_connections"@
}

pub open spec fn level_message() -> Seq<char> {
    "Invalid logging level. Must be one of: error, warn, info, debug, trace"@
}

pub open spec fn format_message() -> Seq<char> {
    "Invalid logging format. Must be 'json' or 'pretty'"@
}

/// The first rule that a configuration breaks, given its log level and
/// format already in lower case; `None` when it breaks none.
pub open spec fn first_violation(
    port: u16,
    max_connections: u32,
    min_connections: u32,
    level: Seq<char>,
    format: Seq<char>,
) -> Option<Seq<char>> {
    if port == 0 {
        Some(port_message())
    } else if max_connections < min_connections {
        Some(connections_message())
    } else if !is_log_level(level) {
        Some(level_message())
    } else if !is_log_format(format) {
        Some(format_message())
    } else {
        None
    }
}

/// `r` reports `v`: `Ok` for no violation, else the message.
pub open spec fn reports(r: Result<(), String>, v: Option<Seq<char>>) -> bool {
    match r {
        Ok(()) => v is None,
        Err(m) => v == Some(m@),
    }
}

/// The decimal digit for `d < 10`.
pub open spec fn digit_char(d: nat) -> char {
    if d == 0 { '0' } else if d == 1 { '1' } else if d == 2 { '2' } else if d == 3 { '3' }
    else if d == 4 { '4' } else if d == 5 { '5' } else if d == 6 { '6' } else if d == 7 { '7' }
    else if d == 8 { '8' } else { '9' }
}

/// Decimal notation of `n`, without leading zeros.
pub open spec fn decimal(n: nat) -> Seq<char>
    decreases n,
{
    if n < 10 {
        seq![digit_char(n)]
    } else {
        decimal(n / 10) + seq![digit_char(n % 10)]
    }
}

/// Character-wise equality of two texts.
pub fn same_text(a: &str, b: &str) -> (r: bool)
    ensures
        r == (a@ == b@),
{
    let n = a.unicode_len();
    if n != b.unicode_len() {
        return false;
    }
    let mut i: usize = 0;
    while i < n
        invariant
            n == a@.len(),
            n == b@.len(),
            i <= n,
            a@.subrange(0, i as int) == b@.subrange(0, i as int),
        decreases n - i,
    {
        if a.get_char(i) != b.get_char(i) {
            return false;
        }
        assert(a@.subrange(0, i + 1) == a@.subrange(0, i as int).push(a@[i as int]));
        assert(b@.subrange(0, i + 1) == b@.subrange(0, i as int).push(b@[i as int]));
        i = i + 1;
    }
    assert(a@ == a@.subrange(0, n as int));
    assert(b@ == b@.subrange(0, n as int));
    true
}

/// The deployment environment named by `value` is development.
pub fn is_development_env(value: &str) -> (r: bool)
    ensures
        r == (value@ == "development"@),
{
    same_text(value, "development")
}

/// The deployment environment named by `value` is production.
pub fn is_production_env(value: &str) -> (r: bool)
    ensures
        r == (value@ == "production"@),
{
    same_text(value, "production")
}

fn is_level_text(s: &str) -> (r: bool)
    ensures
        r == is_log_level(s@),
{
    same_text(s, "error") || same_text(s, "warn") || same_text(s, "info") || same_text(s, "debug")
        || same_text(s, "trace")
}

fn is_format_text(s: &str) -> (r: bool)
    ensures
        r == is_log_format(s@),
{
    same_text(s, "json") || same_text(s, "pretty")
}

/// Text of one decimal digit.
fn digit_text(d: u16) -> (r: &'static str)
    requires
        d < 10,
    ensures
        r@ == seq![digit_char(d as nat)],
{
    proof {
        reveal_strlit("0");
        reveal_strlit("1");
        reveal_strlit("2");
        reveal_strlit("3");
        reveal_strlit("4");
        reveal_strlit("5");
        reveal_strlit("6");
        reveal_strlit("7");
        reveal_strlit("8");
        reveal_strlit("9");
    }
    if d == 0 { "0" } else if d == 1 { "1" } else if d == 2 { "2" } else if d == 3 { "3" }
    else if d == 4 { "4" } else if d == 5 { "5" } else if d == 6 { "6" } else if d == 7 { "7" }
    else if d == 8 { "8" } else { "9" }
}

/// Appends the decimal notation of `n` to `s`.
pub fn push_decimal(s: &mut String, n: u16)
    ensures
        final(s)@ == old(s)@ + decimal(n as nat),
    decreases n,
{
    if n >= 10 {
        push_decimal(s, n / 10);
    }
    s.append(digit_text(n % 10));
    proof {
        if n >= 10 {
            assert(final(s)@ == old(s)@ + (decimal((n / 10) as nat) + seq![digit_char((n % 10) as nat)]));
        } else {
            assert(decimal(n as nat) == seq![digit_char((n % 10) as nat)]);
        }
    }
}

impl Config {
    /// Checks the configuration before use: the port is not 0, the pool's
    /// maximum is at least its minimum, and the log level and format are
    /// known words in any letter case. Returns the message of the first
    /// rule broken.
    pub fn validate(&self) -> (r: Result<(), String>)
        ensures
            reports(
                r,
                first_violation(
                    self.server.port,
                    self.database.max_connections,
                    self.database.min_connections,
                    lower_of(self.logging.level@),
                    lower_of(self.logging.format@),
                ),
            ),
    {
        let level = lowercase(self.logging.level.as_str());
        let format = lowercase(self.logging.format.as_str());
        self.validate_normalized(level.as_str(), format.as_str())
    }

    /// The checks of `validate`, with the log level and format given
    /// already in lower case.
    pub fn validate_normalized(&self, level: &str, format: &str) -> (r: Result<(), String>)
        ensures
            reports(
                r,
                first_violation(
                    self.server.port,
                    self.database.max_connections,
                    self.database.min_connections,
                    level@,
                    format@,
                ),
            ),
    {
        if self.server.port == 0 {
            return Err(String::from_str("Server port must be greater than 0"));
        }
        if self.database.max_connections < self.database.min_connections {
            return Err(String::from_str("Database max_connections must be >= min_connections"));
        }
        if !is_level_text(level) {
            return Err(
                String::from_str(
                    "Invalid logging level. Must be one of: error, warn, info, debug, trace",
                ),
            );
        }
        if !is_format_text(format) {
            return Err(String::from_str("Invalid logging format. Must be 'json' or 'pretty'"));
        }
        Ok(())
    }

    /// `host:port`, the address the listener binds.
    pub fn server_address(&self) -> (r: String)
        ensures
            r@ == self.server.host@ + ":"@ + decimal(self.server.port as nat),
    {
        let mut s = self.server.host.clone();
        s.append(":");
        push_decimal(&mut s, self.server.port);
        s
    }
}


/// Seconds an idle pooled connection is kept.
pub const POOL_IDLE_TIMEOUT_SECS: u64 = 300;

/// Seconds a pooled connection lives at most.
pub const POOL_MAX_LIFETIME_SECS: u64 = 1800;

/// How the store's connection pool is opened.
#[derive(Debug, Clone)]
pub struct PoolSettings {
    pub url: String,
    pub max_connections: u32,
    pub min_connections: u32,
    pub acquire_timeout_secs: u64,
    pub idle_timeout_secs: u64,
    pub max_lifetime_secs: u64,
    /// Each connection is tested before it is handed out.
    pub test_before_acquire: bool,
}

impl DatabaseConfig {
    /// Pool settings: the configured bounds, URL and connect timeout, five
    /// minutes of idle time, half an hour of lifetime, and a test before
    /// each acquisition.
    pub fn pool_settings(&self) -> (r: PoolSettings)
        ensures
            r.url == self.url,
            r.max_connections == self.max_connections,
            r.min_connections == self.min_connections,
            r.acquire_timeout_secs == self.connect_timeout,
            r.idle_timeout_secs == POOL_IDLE_TIMEOUT_SECS,
            r.max_lifetime_secs == POOL_MAX_LIFETIME_SECS,
            r.test_before_acquire,
    {
        PoolSettings {
            url: self.url.clone(),
            max_connections: self.max_connections,
            min_connections: self.min_connections,
            acquire_timeout_secs: self.connect_timeout,
            idle_timeout_secs: POOL_IDLE_TIMEOUT_SECS,
            max_lifetime_secs: POOL_MAX_LIFETIME_SECS,
            test_before_acquire: true,
        }
    }
}

impl Default for Config {
    /// Listener on 0.0.0.0:3000, a local store pool of 5 to 100
    /// connections, `info` logs as json, and a 10,000 entry cache living
    /// five minutes.
    fn default() -> (r: Self)
        ensures
            r.server.host@ == "0.0.0.0"@,
            r.server.port == 3000,
            r.server.workers is None,
            r.server.request_timeout == 30,
            r.server.enable_http2,
            r.database.url@ == "postgresql://localhost/server_rs"@,
            r.database.max_connections == 100,
            r.database.min_connections == 5,
            r.database.connect_timeout == 10,
            r.database.query_timeout == 30,
            r.redis.url@ == "redis://localhost:6379"@,
            r.redis.max_connections == 20,
            r.redis.connect_timeout == 5,
            r.logging.level@ == "info"@,
            r.logging.format@ == "json"@,
            r.logging.enable_request_logging,
            r.performance.memory_cache_size == 10_000,
            r.performance.memory_cache_ttl == 300,
            r.performance.enable_compression,
            r.performance.compression_level == 6,
    {
        Config {
            server: ServerConfig {
                host: String::from_str("0.0.0.0"),
                port: 3000,
                workers: None,
                request_timeout: 30,
                enable_http2: true,
            },
            database: DatabaseConfig {
                url: String::from_str("postgresql://localhost/server_rs"),
                max_connections: 100,
                min_connections: 5,
                connect_timeout: 10,
                query_timeout: 30,
            },
            redis: RedisConfig {
                url: String::from_str("redis://localhost:6379"),
                max_connections: 20,
                connect_timeout: 5,
            },
            logging: LoggingConfig {
                level: String::from_str("info"),
                format: String::from_str("json"),
                enable_request_logging: true,
            },
            performance: PerformanceConfig {
                memory_cache_size: 10_000,
                memory_cache_ttl: 300,
                enable_compression: true,
                compression_level: 6,
            },
        }
    }
}

} // verus!
