//! Per-request context: the correlation identifier, the fields that tag every
//! log record of a request, and the one completion record of its latency.
use vstd::prelude::*;
use vstd::string::*;

verus! {

/// A lower-case hexadecimal digit.
pub open spec fn is_lower_hex(c: char) -> bool {
    ('0' <= c && c <= '9') || ('a' <= c && c <= 'f')
}

/// Positions of the hyphens in hyphenated identifier text.
pub open spec fn is_hyphen_position(i: int) -> bool {
    i == 8 || i == 13 || i == 18 || i == 23
}

/// Canonical hyphenated text of a random (version 4, RFC variant) unique
/// identifier: 36 characters, hyphens at 8, 13, 18 and 23, lower-case hex
/// digits elsewhere, version digit `4` and variant digit 8, 9, a or b.
pub open spec fn is_canonical_v4(s: Seq<char>) -> bool {
    &&& s.len() == 36
    &&& forall|i: int|
        0 <= i < 36 ==> if is_hyphen_position(i) {
            s[i] == '-'
        } else {
            is_lower_hex(s[i])
        }
    &&& s[14] == '4'
    &&& (s[19] == '8' || s[19] == '9' || s[19] == 'a' || s[19] == 'b')
}

/// Relies on `uuid::Uuid::new_v4`, which fixes the version and variant bits
/// of 128 random bits, and on its `Display`, which writes the lower-case
/// hyphenated form. The value itself is random.
#[verifier::external_body]
fn random_uuid_text() -> (r: String)
    ensures
        is_canonical_v4(r@),
{
    uuid::Uuid::new_v4().to_string()
}

/// A fresh correlation identifier for one request.
pub fn new_request_id() -> (r: String)
    ensures
        is_canonical_v4(r@),
{
    random_uuid_text()
}

/// Whether `s` is a canonical identifier, as `new_request_id` makes them,
/// and so a valid header value.
pub fn is_request_id(s: &str) -> (r: bool)
    ensures
        r == is_canonical_v4(s@),
{
    let n = s.unicode_len();
    if n != 36 {
        return false;
    }
    let mut i: usize = 0;
    while i < 36
        invariant
            n == 36,
            s@.len() == 36,
            i <= 36,
            forall|j: int|
                0 <= j < i ==> if is_hyphen_position(j) {
                    s@[j] == '-'
                } else {
                    is_lower_hex(s@[j])
                },
        decreases 36 - i,
    {
        let c = s.get_char(i);
        let ok = if i == 8 || i == 13 || i == 18 || i == 23 {
            c == '-'
        } else {
            ('0' <= c && c <= '9') || ('a' <= c && c <= 'f')
        };
        if !ok {
            return false;
        }
        i = i + 1;
    }
    let v = s.get_char(14);
    let w = s.get_char(19);
    v == '4' && (w == '8' || w == '9' || w == 'a' || w == 'b')
}

/// The identifier a response carries: the one the request already holds when
/// it is canonical, else a fresh one. Either way it is canonical.
pub fn request_id_for(existing: Option<String>) -> (r: String)
    ensures
        is_canonical_v4(r@),
        existing is Some && is_canonical_v4(existing->Some_0@) ==> r == existing->Some_0,
{
    match existing {
        Some(id) => {
            if is_request_id(id.as_str()) {
                id
            } else {
                new_request_id()
            }
        },
        None => new_request_id(),
    }
}

/// Client address reported for a request: the forwarding header's text as
/// the caller read it, or `unknown` when the caller has none.
pub open spec fn client_address_of(forwarded_for: Option<String>) -> Seq<char> {
    match forwarded_for {
        Some(s) => s@,
        None => "unknown"@,
    }
}

pub fn client_address(forwarded_for: Option<String>) -> (r: String)
    ensures
        r@ == client_address_of(forwarded_for),
{
    match forwarded_for {
        Some(s) => s,
        None => String::from_str("unknown"),
    }
}

/// Fields that tag every log record emitted while one request is handled.
#[derive(Debug, Clone)]
pub struct RequestContext {
    pub request_id: String,
    pub method: String,
    pub uri: String,
    pub version: String,
    pub client_address: String,
    /// Reading of the monotonic clock, in milliseconds, when the request came in.
    pub started_ms: u64,
}

impl RequestContext {
    /// Opens the context of a new request with a fresh identifier.
    pub fn new(
        method: String,
        uri: String,
        version: String,
        forwarded_for: Option<String>,
        started_ms: u64,
    ) -> (r: RequestContext)
        ensures
            is_canonical_v4(r.request_id@),
            r.method == method,
            r.uri == uri,
            r.version == version,
            r.client_address@ == client_address_of(forwarded_for),
            r.started_ms == started_ms,
    {
        RequestContext {
            request_id: new_request_id(),
            method,
            uri,
            version,
            client_address: client_address(forwarded_for),
            started_ms,
        }
    }
}

/// Milliseconds from `started_ms` to `now_ms`; 0 if the clock reads earlier.
pub open spec fn elapsed_of(started_ms: u64, now_ms: u64) -> u64 {
    if now_ms >= started_ms {
        (now_ms - started_ms) as u64
    } else {
        0
    }
}

/// The one structured record that closes a request.
#[derive(Debug, Clone)]
pub struct CompletionRecord {
    pub method: String,
    pub path: String,
    pub status_code: u16,
    pub elapsed_ms: u64,
}

/// Latency measurement of one request. It yields its completion record once;
/// every later attempt yields nothing.
#[derive(Debug, Clone)]
pub struct LatencyTimer {
    pub method: String,
    pub path: String,
    pub started_ms: u64,
    pub emitted: bool,
}

/// The record a timer that has not yet emitted one yields.
pub open spec fn record_of(t: LatencyTimer, status_code: u16, now_ms: u64) -> Option<
    CompletionRecord,
> {
    if t.emitted {
        None
    } else {
        Some(
            CompletionRecord {
                method: t.method,
                path: t.path,
                status_code,
                elapsed_ms: elapsed_of(t.started_ms, now_ms),
            },
        )
    }
}

/// The timer once it has been asked for its record.
pub open spec fn finished(t: LatencyTimer) -> LatencyTimer {
    LatencyTimer { emitted: true, ..t }
}

impl LatencyTimer {
    /// Starts timing a request.
    pub fn start(method: String, path: String, started_ms: u64) -> (r: LatencyTimer)
        ensures
            r.method == method,
            r.path == path,
            r.started_ms == started_ms,
            !r.emitted,
    {
        LatencyTimer { method, path, started_ms, emitted: false }
    }

    /// Closes the measurement: the first call yields the record with the
    /// final status and the elapsed time, every later call yields `None`.
    pub fn finish(&mut self, status_code: u16, now_ms: u64) -> (r: Option<CompletionRecord>)
        ensures
            r == record_of(*old(self), status_code, now_ms),
            *final(self) == finished(*old(self)),
    {
        if self.emitted {
            return None;
        }
        self.emitted = true;
        let elapsed_ms = if now_ms >= self.started_ms {
            now_ms - self.started_ms
        } else {
            0
        };
        Some(
            CompletionRecord {
                method: self.method.clone(),
                path: self.path.clone(),
                status_code,
                elapsed_ms,
            },
        )
    }
}

/// However often a request's timer is closed, exactly one completion record
/// comes out: the first close yields it, a second yields none, and the
/// elapsed time is never negative.
pub proof fn lemma_one_record_per_request(
    t: LatencyTimer,
    first_status: u16,
    first_ms: u64,
    later_status: u16,
    later_ms: u64,
)
    requires
        !t.emitted,
    ensures
        record_of(t, first_status, first_ms) is Some,
        record_of(t, first_status, first_ms)->Some_0.elapsed_ms >= 0,
        record_of(t, first_status, first_ms)->Some_0.status_code == first_status,
        record_of(finished(t), later_status, later_ms) is None,
        finished(finished(t)) == finished(t),
{
}

} // verus!
