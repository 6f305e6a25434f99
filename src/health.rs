//! Health aggregation: a shallow liveness answer, and a deep check that
//! probes the persistent store and the in-memory cache once each and reduces
//! the two outcomes into one verdict.
//!
//! The deep check is a state machine. The caller performs each requested
//! action against the real dependency and feeds back what happened; the
//! machine decides what comes next and, at the end, the verdict.
use crate::config::same_text;
use vstd::prelude::*;
use vstd::string::*;

verus! {

/// Status code of a healthy answer.
pub const HTTP_OK: u16 = 200;

/// Status code of a degraded answer.
pub const HTTP_SERVICE_UNAVAILABLE: u16 = 503;

/// Version reported by both health endpoints.
pub open spec fn service_version() -> Seq<char> {
    "0.1.0"@
}

/// Key written and read back by the cache probe.
pub open spec fn sentinel_key() -> Seq<char> {
    "health_check_test"@
}

/// Value written and read back by the cache probe.
pub open spec fn sentinel_value() -> Seq<char> {
    "ok"@
}

/// Label of a dependency state, or of the overall one.
pub open spec fn status_label(healthy: bool) -> Seq<char> {
    if healthy {
        "healthy"@
    } else {
        "unhealthy"@
    }
}

/// The service version as text.
pub fn version_text() -> (r: String)
    ensures
        r@ == service_version(),
{
    String::from_str("0.1.0")
}

fn label_text(healthy: bool) -> (r: &'static str)
    ensures
        r@ == status_label(healthy),
{
    if healthy {
        "healthy"
    } else {
        "unhealthy"
    }
}

/// What holds of every RFC 3339 text chrono writes for a UTC time: at least
/// 25 characters (a year of four digits or more, `-MM-DDTHH:MM:SS`, the
/// offset), a `T` between date and time, and the zero offset `+00:00` at the
/// end.
pub open spec fn is_rfc3339_utc(s: Seq<char>) -> bool {
    &&& s.len() >= 25
    &&& s.subrange(s.len() - 6, s.len() as int) == "+00:00"@
    &&& exists|i: int| 0 <= i < s.len() && s[i] == 'T'
}

/// Relies on chrono's `DateTime<Utc>: From<SystemTime>` and
/// `DateTime::to_rfc3339`: the current time as RFC 3339 text, whose offset
/// for UTC is always written `+00:00`. The time itself depends on the clock.
#[verifier::external_body]
fn utc_now_rfc3339() -> (r: String)
    ensures
        is_rfc3339_utc(r@),
{
    chrono::DateTime::<chrono::Utc>::from(std::time::SystemTime::now()).to_rfc3339()
}

/// Body of the shallow check.
#[derive(Debug, Clone)]
pub struct ShallowHealth {
    pub status: String,
    pub timestamp: String,
    pub version: String,
}

/// Liveness check: answers `ok` with status 200 on every call, without
/// touching any dependency.
pub fn health_check() -> (r: (u16, ShallowHealth))
    ensures
        r.0 == HTTP_OK,
        r.1.status@ == "ok"@,
        is_rfc3339_utc(r.1.timestamp@),
        r.1.version@ == service_version(),
{
    let body = ShallowHealth {
        status: String::from_str("ok"),
        timestamp: utc_now_rfc3339(),
        version: version_text(),
    };
    (HTTP_OK, body)
}

/// Progress of one deep check.
#[derive(Debug, Clone, Copy, PartialEq, Eq, Structural)]
pub enum DeepCheck {
    Start,
    ProbingStore,
    WritingCache { database: bool },
    ReadingCache { database: bool },
    RemovingCache { database: bool },
    Reduced { database: bool, cache: bool },
}

/// What the caller observed while performing the last action.
#[derive(Debug, Clone)]
pub enum ProbeEvent {
    /// The check was requested.
    Begin,
    /// The store's round-trip query finished; `ok` is false on any error.
    StoreAnswered { ok: bool },
    /// The sentinel was written to the cache.
    CacheWritten,
    /// The cache was read at the sentinel key.
    CacheRead { value: Option<String> },
    /// The sentinel was removed from the cache.
    CacheRemoved,
}

/// What the caller is to do next.
#[derive(Debug, Clone)]
pub enum ProbeAction {
    QueryStore,
    WriteCache { key: String, value: String },
    ReadCache { key: String },
    RemoveCache { key: String },
    Respond { database: bool, cache: bool },
}

/// The read-back value is exactly the written one.
pub open spec fn read_back_matches(value: Option<String>) -> bool {
    match value {
        Some(v) => v@ == sentinel_value(),
        None => false,
    }
}

impl DeepCheck {
    /// The event that answers the action requested on entering this state.
    pub open spec fn expects(self, e: ProbeEvent) -> bool {
        match (self, e) {
            (DeepCheck::Start, ProbeEvent::Begin) => true,
            (DeepCheck::ProbingStore, ProbeEvent::StoreAnswered { .. }) => true,
            (DeepCheck::WritingCache { .. }, ProbeEvent::CacheWritten) => true,
            (DeepCheck::ReadingCache { .. }, ProbeEvent::CacheRead { .. }) => true,
            (DeepCheck::RemovingCache { .. }, ProbeEvent::CacheRemoved) => true,
            _ => false,
        }
    }

    /// The state after event `e`.
    pub open spec fn next(self, e: ProbeEvent) -> DeepCheck {
        match (self, e) {
            (DeepCheck::Start, ProbeEvent::Begin) => DeepCheck::ProbingStore,
            (DeepCheck::ProbingStore, ProbeEvent::StoreAnswered { ok }) => DeepCheck::WritingCache {
                database: ok,
            },
            (DeepCheck::WritingCache { database }, ProbeEvent::CacheWritten) => DeepCheck::ReadingCache {
                database,
            },
            (DeepCheck::ReadingCache { database }, ProbeEvent::CacheRead { value }) => {
                if read_back_matches(value) {
                    DeepCheck::RemovingCache { database }
                } else {
                    DeepCheck::Reduced { database, cache: false }
                }
            },
            (DeepCheck::RemovingCache { database }, ProbeEvent::CacheRemoved) => DeepCheck::Reduced {
                database,
                cache: true,
            },
            _ => self,
        }
    }

    /// The action that entering state `self` asks for.
    pub open spec fn asks(self, a: ProbeAction) -> bool {
        match (self, a) {
            (DeepCheck::ProbingStore, ProbeAction::QueryStore) => true,
            (DeepCheck::ReadingCache { .. }, ProbeAction::ReadCache { key }) => key@ == sentinel_key(),
            (DeepCheck::WritingCache { .. }, ProbeAction::WriteCache { key, value }) => key@
                == sentinel_key() && value@ == sentinel_value(),
            (DeepCheck::RemovingCache { .. }, ProbeAction::RemoveCache { key }) => key@
                == sentinel_key(),
            (DeepCheck::Reduced { database, cache }, ProbeAction::Respond { database: d, cache: c }) => d
                == database && c == cache,
            _ => false,
        }
    }

    /// Whether `e` is the event this state waits for.
    pub fn accepts(&self, e: &ProbeEvent) -> (r: bool)
        ensures
            r == self.expects(*e),
    {
        match (self, e) {
            (DeepCheck::Start, ProbeEvent::Begin) => true,
            (DeepCheck::ProbingStore, ProbeEvent::StoreAnswered { .. }) => true,
            (DeepCheck::WritingCache { .. }, ProbeEvent::CacheWritten) => true,
            (DeepCheck::ReadingCache { .. }, ProbeEvent::CacheRead { .. }) => true,
            (DeepCheck::RemovingCache { .. }, ProbeEvent::CacheRemoved) => true,
            _ => false,
        }
    }

    /// Moves the check on by one event and says what to do next. Each
    /// probe is asked for exactly once; the cache counts as healthy only
    /// when the value read back equals the one written and the sentinel
    /// was then removed.
    pub fn advance(self, e: ProbeEvent) -> (r: (DeepCheck, ProbeAction))
        requires
            self.expects(e),
        ensures
            r.0 == self.next(e),
            r.0.asks(r.1),
    {
        match (self, e) {
            (DeepCheck::Start, ProbeEvent::Begin) => (DeepCheck::ProbingStore, ProbeAction::QueryStore),
            (DeepCheck::ProbingStore, ProbeEvent::StoreAnswered { ok }) => (
                DeepCheck::WritingCache { database: ok },
                ProbeAction::WriteCache {
                    key: String::from_str("health_check_test"),
                    value: String::from_str("ok"),
                },
            ),
            (DeepCheck::WritingCache { database }, ProbeEvent::CacheWritten) => (
                DeepCheck::ReadingCache { database },
                ProbeAction::ReadCache { key: String::from_str("health_check_test") },
            ),
            (DeepCheck::ReadingCache { database }, ProbeEvent::CacheRead { value }) => {
                let matches = match &value {
                    Some(v) => same_text(v.as_str(), "ok"),
                    None => false,
                };
                if matches {
                    (
                        DeepCheck::RemovingCache { database },
                        ProbeAction::RemoveCache { key: String::from_str("health_check_test") },
                    )
                } else {
                    (
                        DeepCheck::Reduced { database, cache: false },
                        ProbeAction::Respond { database, cache: false },
                    )
                }
            },
            (DeepCheck::RemovingCache { database }, ProbeEvent::CacheRemoved) => (
                DeepCheck::Reduced { database, cache: true },
                ProbeAction::Respond { database, cache: true },
            ),
            (s, _) => {
                proof {
                    assert(false);
                }
                (s, ProbeAction::QueryStore)
            },
        }
    }
}


/// Outcome of one deep check.
#[derive(Debug, Clone, Copy, PartialEq, Eq, Structural)]
pub struct HealthVerdict {
    pub database_healthy: bool,
    pub cache_healthy: bool,
    /// Wall-clock time of the whole aggregation.
    pub response_time_ms: u64,
    pub uptime_seconds: u64,
}

/// Status code that answers a check whose overall state is `healthy`.
pub open spec fn status_code_of(healthy: bool) -> u16 {
    if healthy {
        HTTP_OK
    } else {
        HTTP_SERVICE_UNAVAILABLE
    }
}

impl HealthVerdict {
    /// Healthy exactly when every dependency is.
    pub open spec fn healthy(self) -> bool {
        self.database_healthy && self.cache_healthy
    }

    pub fn new(
        database_healthy: bool,
        cache_healthy: bool,
        response_time_ms: u64,
        uptime_seconds: u64,
    ) -> (r: HealthVerdict)
        ensures
            r.database_healthy == database_healthy,
            r.cache_healthy == cache_healthy,
            r.response_time_ms == response_time_ms,
            r.uptime_seconds == uptime_seconds,
    {
        HealthVerdict { database_healthy, cache_healthy, response_time_ms, uptime_seconds }
    }

    /// Overall state: healthy iff both probes were.
    pub fn overall_healthy(&self) -> (r: bool)
        ensures
            r == self.healthy(),
    {
        self.database_healthy && self.cache_healthy
    }

    /// `healthy` or `unhealthy`, for the whole service.
    pub fn overall_status(&self) -> (r: &'static str)
        ensures
            r@ == status_label(self.healthy()),
    {
        label_text(self.overall_healthy())
    }

    /// `healthy` or `unhealthy`, for the store.
    pub fn database_status(&self) -> (r: &'static str)
        ensures
            r@ == status_label(self.database_healthy),
    {
        label_text(self.database_healthy)
    }

    /// `healthy` or `unhealthy`, for the cache.
    pub fn cache_status(&self) -> (r: &'static str)
        ensures
            r@ == status_label(self.cache_healthy),
    {
        label_text(self.cache_healthy)
    }

    /// 200 when healthy, 503 otherwise: a degraded service is reported,
    /// never failed.
    pub fn http_status(&self) -> (r: u16)
        ensures
            r == status_code_of(self.healthy()),
    {
        if self.overall_healthy() {
            HTTP_OK
        } else {
            HTTP_SERVICE_UNAVAILABLE
        }
    }
}

/// State of one dependency as the deep check reports it.
#[derive(Debug, Clone)]
pub struct ServiceReport {
    pub status: String,
    /// Kind of the dependency: `postgresql` or `memory`.
    pub kind: String,
}

/// Body of the deep check.
#[derive(Debug, Clone)]
pub struct DetailedHealth {
    pub status: String,
    pub timestamp: String,
    pub version: String,
    pub response_time_ms: u64,
    pub database: ServiceReport,
    pub cache: ServiceReport,
    pub uptime: u64,
    pub memory_usage: Option<u64>,
}

/// Status code and body of the deep check for a verdict.
pub fn detailed_report(v: &HealthVerdict) -> (r: (u16, DetailedHealth))
    ensures
        r.0 == status_code_of(v.healthy()),
        r.1.status@ == status_label(v.healthy()),
        is_rfc3339_utc(r.1.timestamp@),
        r.1.version@ == service_version(),
        r.1.response_time_ms == v.response_time_ms,
        r.1.database.status@ == status_label(v.database_healthy),
        r.1.database.kind@ == "postgresql"@,
        r.1.cache.status@ == status_label(v.cache_healthy),
        r.1.cache.kind@ == "memory"@,
        r.1.uptime == v.uptime_seconds,
        r.1.memory_usage == get_memory_usage_spec(),
{
    let body = DetailedHealth {
        status: String::from_str(v.overall_status()),
        timestamp: utc_now_rfc3339(),
        version: version_text(),
        response_time_ms: v.response_time_ms,
        database: ServiceReport {
            status: String::from_str(v.database_status()),
            kind: String::from_str("postgresql"),
        },
        cache: ServiceReport {
            status: String::from_str(v.cache_status()),
            kind: String::from_str("memory"),
        },
        uptime: v.uptime_seconds,
        memory_usage: get_memory_usage(),
    };
    (v.http_status(), body)
}

/// Memory in use, in megabytes; not measured, always `Some(0)`.
pub open spec fn get_memory_usage_spec() -> Option<u64> {
    Some(0u64)
}

/// Memory in use, in megabytes; a placeholder that is not measured.
pub fn get_memory_usage() -> (r: Option<u64>)
    ensures
        r == get_memory_usage_spec(),
{
    Some(0)
}

/// Whole seconds from the start marker to `now_ms`, 0 before the marker.
pub open spec fn uptime_of(started_ms: u64, now_ms: u64) -> u64 {
    if now_ms >= started_ms {
        ((now_ms - started_ms) / 1000) as u64
    } else {
        0
    }
}

/// Seconds since the process-wide start marker `started_ms`, read on a
/// monotonic clock whose current reading is `now_ms`.
pub fn get_uptime_seconds(started_ms: u64, now_ms: u64) -> (r: u64)
    ensures
        r == uptime_of(started_ms, now_ms),
{
    if now_ms >= started_ms {
        (now_ms - started_ms) / 1000
    } else {
        0
    }
}

/// Uptime never decreases while the clock moves forward, and it is zero for
/// the first second after the start marker.
pub proof fn lemma_uptime_monotonic(started_ms: u64, t1: u64, t2: u64)
    requires
        t1 <= t2,
    ensures
        uptime_of(started_ms, t1) <= uptime_of(started_ms, t2),
        t1 >= started_ms && t1 - started_ms < 1000 ==> uptime_of(started_ms, t1) == 0,
{
    if t1 >= started_ms {
        vstd::arithmetic::div_mod::lemma_div_is_ordered(
            (t1 - started_ms) as int,
            (t2 - started_ms) as int,
            1000,
        );
    }
}

/// The deep check state after the caller answers its requests with a store
/// outcome `store_ok` and a cache read-back `read`, in the order the machine
/// asks for them.
pub open spec fn run_deep_check(store_ok: bool, read: Option<String>) -> DeepCheck {
    let s = DeepCheck::Start.next(ProbeEvent::Begin).next(
        ProbeEvent::StoreAnswered { ok: store_ok },
    ).next(ProbeEvent::CacheWritten).next(ProbeEvent::CacheRead { value: read });
    if s is RemovingCache {
        s.next(ProbeEvent::CacheRemoved)
    } else {
        s
    }
}

/// Each probe runs once and the check always ends reduced: the store is
/// healthy iff its query succeeded, the cache iff it read back exactly the
/// value written, and every event along the way was the one awaited.
pub proof fn lemma_deep_check_outcome(store_ok: bool, read: Option<String>)
    ensures
        run_deep_check(store_ok, read) == (DeepCheck::Reduced {
            database: store_ok,
            cache: read_back_matches(read),
        }),
        DeepCheck::Start.expects(ProbeEvent::Begin),
        DeepCheck::ProbingStore.expects(ProbeEvent::StoreAnswered { ok: store_ok }),
        (DeepCheck::WritingCache { database: store_ok }).expects(ProbeEvent::CacheWritten),
        (DeepCheck::ReadingCache { database: store_ok }).expects(
            ProbeEvent::CacheRead { value: read },
        ),
        (DeepCheck::RemovingCache { database: store_ok }).expects(ProbeEvent::CacheRemoved),
{
}

/// A failed store query with a cache that reads back the sentinel yields a
/// verdict that is unhealthy with status 503, the store unhealthy and the
/// cache healthy.
pub proof fn lemma_store_down_reported(read: Option<String>, v: HealthVerdict)
    requires
        read_back_matches(read),
        run_deep_check(false, read) == (DeepCheck::Reduced {
            database: v.database_healthy,
            cache: v.cache_healthy,
        }),
    ensures
        !v.healthy(),
        status_code_of(v.healthy()) == HTTP_SERVICE_UNAVAILABLE,
        status_label(v.healthy()) == "unhealthy"@,
        status_label(v.database_healthy) == "unhealthy"@,
        status_label(v.cache_healthy) == "healthy"@,
{
    lemma_deep_check_outcome(false, read);
}

/// A successful store query with a cache that reads back the sentinel
/// yields a healthy verdict with status 200.
pub proof fn lemma_all_up_reported(read: Option<String>, v: HealthVerdict)
    requires
        read_back_matches(read),
        run_deep_check(true, read) == (DeepCheck::Reduced {
            database: v.database_healthy,
            cache: v.cache_healthy,
        }),
    ensures
        v.healthy(),
        status_code_of(v.healthy()) == HTTP_OK,
        status_label(v.healthy()) == "healthy"@,
{
    lemma_deep_check_outcome(true, read);
}

} // verus!
