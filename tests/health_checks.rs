use server_rs::health::{
    detailed_report, get_memory_usage, get_uptime_seconds, health_check, DeepCheck, HealthVerdict,
    ProbeAction, ProbeEvent, HTTP_OK, HTTP_SERVICE_UNAVAILABLE,
};

/// Feeds the deep check the given store outcome and cache read-back, in the
/// order it asks, and returns the final state and the list of actions.
fn run(store_ok: bool, read: Option<String>) -> (DeepCheck, Vec<ProbeAction>) {
    let mut state = DeepCheck::Start;
    let mut actions = Vec::new();
    let mut event = ProbeEvent::Begin;
    let mut read = Some(read);
    loop {
        assert!(state.accepts(&event));
        let (next, action) = state.advance(event);
        state = next;
        event = match &action {
            ProbeAction::QueryStore => ProbeEvent::StoreAnswered { ok: store_ok },
            ProbeAction::WriteCache { .. } => ProbeEvent::CacheWritten,
            ProbeAction::ReadCache { .. } => ProbeEvent::CacheRead { value: read.take().unwrap() },
            ProbeAction::RemoveCache { .. } => ProbeEvent::CacheRemoved,
            ProbeAction::Respond { .. } => {
                actions.push(action);
                return (state, actions);
            }
        };
        actions.push(action);
    }
}

#[test]
fn shallow_check_is_ok() {
    let (code, body) = health_check();
    assert_eq!(code, 200);
    assert_eq!(body.status, "ok");
    assert_eq!(body.version, "0.1.0");
    assert!(!body.timestamp.is_empty());
}

#[test]
fn shallow_check_repeated_stays_ok() {
    for _ in 0..5 {
        let (code, body) = health_check();
        assert_eq!(code, HTTP_OK);
        assert_eq!(body.status, "ok");
    }
}

#[test]
fn deep_check_both_up_is_healthy() {
    let (state, actions) = run(true, Some("ok".to_string()));
    assert_eq!(state, DeepCheck::Reduced { database: true, cache: true });
    assert_eq!(actions.len(), 5);
    assert!(matches!(actions[0], ProbeAction::QueryStore));
    match &actions[1] {
        ProbeAction::WriteCache { key, value } => {
            assert_eq!(key, "health_check_test");
            assert_eq!(value, "ok");
        }
        _ => panic!("expected a cache write"),
    }
    match &actions[2] {
        ProbeAction::ReadCache { key } => assert_eq!(key, "health_check_test"),
        _ => panic!("expected a cache read"),
    }
    match &actions[3] {
        ProbeAction::RemoveCache { key } => assert_eq!(key, "health_check_test"),
        _ => panic!("expected a cache removal"),
    }
    assert!(matches!(actions[4], ProbeAction::Respond { database: true, cache: true }));
    let v = HealthVerdict::new(true, true, 3, 42);
    let (code, body) = detailed_report(&v);
    assert_eq!(code, 200);
    assert_eq!(body.status, "healthy");
    assert_eq!(body.database.status, "healthy");
    assert_eq!(body.cache.status, "healthy");
    assert_eq!(body.response_time_ms, 3);
    assert_eq!(body.uptime, 42);
}

#[test]
fn deep_check_store_down_is_unavailable() {
    let (state, actions) = run(false, Some("ok".to_string()));
    assert_eq!(state, DeepCheck::Reduced { database: false, cache: true });
    assert_eq!(actions.len(), 5);
    let v = HealthVerdict::new(false, true, 1, 0);
    assert!(!v.overall_healthy());
    assert_eq!(v.http_status(), 503);
    let (code, body) = detailed_report(&v);
    assert_eq!(code, HTTP_SERVICE_UNAVAILABLE);
    assert_eq!(body.status, "unhealthy");
    assert_eq!(body.database.status, "unhealthy");
    assert_eq!(body.database.kind, "postgresql");
    assert_eq!(body.cache.status, "healthy");
    assert_eq!(body.cache.kind, "memory");
    assert_eq!(body.version, "0.1.0");
    assert_eq!(body.memory_usage, Some(0));
}

#[test]
fn cache_missing_value_is_unhealthy_without_removal() {
    let (state, actions) = run(true, None);
    assert_eq!(state, DeepCheck::Reduced { database: true, cache: false });
    assert_eq!(actions.len(), 4);
    assert!(matches!(actions[3], ProbeAction::Respond { database: true, cache: false }));
    let v = HealthVerdict::new(true, false, 0, 0);
    assert_eq!(v.http_status(), 503);
    assert_eq!(v.overall_status(), "unhealthy");
    assert_eq!(v.cache_status(), "unhealthy");
    assert_eq!(v.database_status(), "healthy");
}

#[test]
fn cache_wrong_value_is_unhealthy() {
    let (state, _) = run(true, Some("OK".to_string()));
    assert_eq!(state, DeepCheck::Reduced { database: true, cache: false });
    let (state, _) = run(true, Some("ok ".to_string()));
    assert_eq!(state, DeepCheck::Reduced { database: true, cache: false });
}

#[test]
fn both_down_is_unhealthy() {
    let (state, _) = run(false, None);
    assert_eq!(state, DeepCheck::Reduced { database: false, cache: false });
    let v = HealthVerdict::new(false, false, 0, 0);
    assert_eq!(v.http_status(), 503);
    assert_eq!(v.overall_status(), "unhealthy");
}

#[test]
fn unexpected_event_is_not_accepted() {
    assert!(!DeepCheck::Start.accepts(&ProbeEvent::CacheWritten));
    assert!(!DeepCheck::ProbingStore.accepts(&ProbeEvent::Begin));
    assert!(!DeepCheck::Reduced { database: true, cache: true }.accepts(&ProbeEvent::CacheRemoved));
    assert!(DeepCheck::ReadingCache { database: false }.accepts(&ProbeEvent::CacheRead { value: None }));
}

#[test]
fn uptime_counts_whole_seconds() {
    assert_eq!(get_uptime_seconds(1_000, 1_000), 0);
    assert_eq!(get_uptime_seconds(1_000, 1_999), 0);
    assert_eq!(get_uptime_seconds(1_000, 2_000), 1);
    assert_eq!(get_uptime_seconds(0, 61_500), 61);
    assert_eq!(get_uptime_seconds(5_000, 10), 0);
}

#[test]
fn uptime_never_decreases() {
    let mut last = 0;
    for now in (0u64..20_000).step_by(250) {
        let u = get_uptime_seconds(0, now);
        assert!(u >= last);
        last = u;
    }
    assert_eq!(last, 19);
}

#[test]
fn memory_usage_is_a_placeholder() {
    assert_eq!(get_memory_usage(), Some(0));
}

fn assert_rfc3339_utc(t: &str) {
    assert!(t.len() >= 25, "{}", t);
    assert!(t.ends_with("+00:00"), "{}", t);
    assert_eq!(t.as_bytes()[10], b'T', "{}", t);
    assert!(chrono::DateTime::parse_from_rfc3339(t).is_ok(), "{}", t);
}

#[test]
fn shallow_check_timestamp_is_rfc3339_utc() {
    let (_, body) = health_check();
    assert_rfc3339_utc(&body.timestamp);
}

#[test]
fn detailed_report_timestamp_is_rfc3339_utc() {
    let (_, body) = detailed_report(&HealthVerdict::new(true, false, 0, 0));
    assert_rfc3339_utc(&body.timestamp);
}
