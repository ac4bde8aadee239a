use cog_core::config::{domain_of, Config};
use cog_core::http::client::{
    bearer_header, check_response, delay_before_attempt, effective_port, judge_attempt,
    request_headers, retry_after_secs, should_retry, user_agent, AttemptVerdict, CircuitBreaker,
    CircuitState, FAILURE_THRESHOLD, OPEN_INTERVAL_MS,
};
use cog_core::http::query::{add_encoded, add_number, url_with_query};
use cog_core::http::RetryConfig;
use cog_core::strmap::StrMap;
use cog_core::{Error, HttpError};

#[test]
fn resolve_alias() {
    let mut config = Config::default();
    config
        .account_aliases
        .insert("work".into(), "user@company.com".into());
    assert_eq!(config.resolve_account("work"), "user@company.com");
    assert_eq!(config.resolve_account("other@gmail.com"), "other@gmail.com");
}

#[test]
fn client_for_domain() {
    let mut config = Config::default();
    config
        .client_domains
        .insert("company.com".into(), "enterprise".into());
    assert_eq!(
        config.client_for_account("user@company.com"),
        Some("enterprise")
    );
    assert_eq!(config.client_for_account("user@gmail.com"), None);
}

#[test]
fn account_client_wins_over_domain() {
    let mut config = Config::new_default();
    config.client_domains.insert("company.com".into(), "enterprise".into());
    config.account_clients.insert("boss@company.com".into(), "personal".into());
    assert_eq!(config.client_for_account("boss@company.com"), Some("personal"));
    assert_eq!(config.client_for_account("no-at-sign"), None);
    assert_eq!(domain_of("a@b@c"), Some("b"));
    assert_eq!(domain_of("a@"), Some(""));
    assert_eq!(domain_of("plain"), None);
    assert!(config.keyring_backend.is_none());
}

#[test]
fn creates_client() {
    assert!(user_agent("0.1.0").starts_with("rusty-cog/"));
    assert_eq!(user_agent("0.1.0"), "rusty-cog/0.1.0");
}

#[test]
fn circuit_breaker_starts_closed() {
    let cb = CircuitBreaker::new();
    assert_eq!(cb.failures, 0);
    assert_eq!(cb.state, CircuitState::Closed);
}

#[test]
fn check_response_maps_status_codes() {
    // 200 -> Ok
    assert!(check_response(200, None, b"{}").is_ok());

    // 401 -> AuthRequired
    let err = check_response(401, None, b"{}").unwrap_err();
    assert_eq!(err.exit_code(), 4);

    // 403 -> PermissionDenied
    let err = check_response(403, None, b"{}").unwrap_err();
    assert_eq!(err.exit_code(), 6);

    // 404 -> NotFound
    let err = check_response(404, None, b"{}").unwrap_err();
    assert_eq!(err.exit_code(), 5);

    // 429 -> RateLimited
    let err = check_response(429, Some(30), b"{}").unwrap_err();
    assert_eq!(err.exit_code(), 7);
    match err {
        Error::RateLimited { retry_after_secs } => {
            assert_eq!(retry_after_secs, Some(30));
        }
        _ => panic!("expected RateLimited"),
    }

    // 500 -> Api
    let err = check_response(500, None, b"{}").unwrap_err();
    assert_eq!(err.exit_code(), 1);
}

#[test]
fn extract_google_error_message() {
    let body = br#"{"error":{"message":"Quota exceeded","code":429}}"#;
    match check_response(400, None, body) {
        Err(Error::Api { status, message, details }) => {
            assert_eq!(status, 400);
            assert_eq!(message, "Quota exceeded".to_string());
            assert!(details.is_some());
        }
        other => panic!("unexpected: {other:?}"),
    }
}

#[test]
fn check_response_messages_and_bodies() {
    assert_eq!(check_response(204, None, b"abc").unwrap(), b"abc".to_vec());
    match check_response(401, None, b"not json") {
        Err(Error::AuthRequired(m)) => assert_eq!(m, "unauthorized"),
        other => panic!("unexpected: {other:?}"),
    }
    match check_response(403, None, b"{}") {
        Err(Error::PermissionDenied(m)) => assert_eq!(m, "forbidden"),
        other => panic!("unexpected: {other:?}"),
    }
    match check_response(404, None, br#"{"error":{"message":"gone"}}"#) {
        Err(Error::NotFound(m)) => assert_eq!(m, "gone"),
        other => panic!("unexpected: {other:?}"),
    }
    match check_response(503, None, b"oops") {
        Err(Error::Api { status, message, details }) => {
            assert_eq!(status, 503);
            assert_eq!(message, "HTTP 503");
            assert!(details.is_none());
        }
        other => panic!("unexpected: {other:?}"),
    }
    match check_response(302, None, b"{}") {
        Err(Error::Api { status, message, details }) => {
            assert_eq!(status, 302);
            assert_eq!(message, "unexpected status 302");
            assert!(details.is_none());
        }
        other => panic!("unexpected: {other:?}"),
    }
}

#[test]
fn default_config() {
    let config = RetryConfig::default();
    assert_eq!(config.max_retries, 3);
    assert_eq!(config.max_429_retries, 3);
    assert_eq!(config.max_5xx_retries, 1);
}

#[test]
fn exponential_backoff_increases() {
    let config = RetryConfig {
        jitter: 0,
        ..Default::default()
    };
    let d0 = config.delay_for_attempt(0);
    let d1 = config.delay_for_attempt(1);
    let d2 = config.delay_for_attempt(2);
    assert!(d1 > d0, "delay should increase: {d0:?} < {d1:?}");
    assert!(d2 > d1, "delay should increase: {d1:?} < {d2:?}");
}

#[test]
fn delay_capped_at_max() {
    let config = RetryConfig {
        jitter: 0,
        max_delay: 1_000,
        ..Default::default()
    };
    let d = config.delay_for_attempt(100);
    assert!(d <= 1_000);
}

#[test]
fn backoff_values_and_jitter_window() {
    let config = RetryConfig::default();
    assert_eq!(config.capped_delay_for(0), 500);
    assert_eq!(config.capped_delay_for(1), 1_000);
    assert_eq!(config.capped_delay_for(6), 30_000);
    assert_eq!(config.capped_delay_for(u32::MAX), 30_000);
    // jitter 250 per mille of 1000 ms: a window of [750, 1250)
    assert_eq!(config.delay_with_draw(1, 0), 750);
    assert_eq!(config.delay_with_draw(1, 499), 1_249);
    assert_eq!(config.delay_with_draw(1, 500), 750);
    assert_eq!(config.delay_with_draw(1, 250), 1_000);
    for _ in 0..20 {
        let d = config.delay_for_attempt(1);
        assert!((750..1_250).contains(&d));
    }
    let no_jitter = RetryConfig { jitter: 0, ..Default::default() };
    assert_eq!(no_jitter.delay_with_draw(1, 12_345), 1_000);
    assert_eq!(delay_before_attempt(&config, 0), None);
    assert!(delay_before_attempt(&config, 2).is_some());
}

#[test]
fn retry_decisions() {
    let c = RetryConfig::default();
    assert!(should_retry(&Error::RateLimited { retry_after_secs: None }, 2, &c));
    assert!(!should_retry(&Error::RateLimited { retry_after_secs: None }, 3, &c));
    let server = Error::Api { status: 502, message: "x".into(), details: None };
    assert!(should_retry(&server, 0, &c));
    assert!(!should_retry(&server, 1, &c));
    assert!(should_retry(&Error::Http(HttpError::Connection("refused".into())), 99, &c));
    assert!(!should_retry(&Error::NotFound("x".into()), 0, &c));
    match judge_attempt(&c, 0, Ok(b"ok".to_vec())) {
        AttemptVerdict::Succeeded(b) => assert_eq!(b, b"ok".to_vec()),
        v => panic!("unexpected: {v:?}"),
    }
    assert!(matches!(
        judge_attempt(&c, 0, Err(Error::RateLimited { retry_after_secs: None })),
        AttemptVerdict::Retry(_)
    ));
    assert!(matches!(
        judge_attempt(&c, 3, Err(Error::Http(HttpError::Connection("x".into())))),
        AttemptVerdict::GiveUp(_)
    ));
    assert!(matches!(
        judge_attempt(&c, 0, Err(Error::NotFound("x".into()))),
        AttemptVerdict::GiveUp(_)
    ));
}

#[test]
fn circuit_breaker_opens_after_five_failures() {
    let mut cb = CircuitBreaker::new();
    for i in 0..FAILURE_THRESHOLD - 1 {
        cb.record_failure(1_000 + i as u64);
        assert_eq!(cb.state, CircuitState::Closed);
    }
    cb.record_failure(2_000);
    assert_eq!(cb.state, CircuitState::Open { until_ms: 2_000 + OPEN_INTERVAL_MS });
    match cb.check("svc", 2_001) {
        Err(Error::CircuitBreakerOpen { service }) => assert_eq!(service, "svc"),
        other => panic!("unexpected: {other:?}"),
    }
    assert!(cb.check("svc", 2_000 + OPEN_INTERVAL_MS).is_ok());
    assert_eq!(cb.state, CircuitState::HalfOpen);
    cb.record_success();
    assert_eq!(cb.failures, 0);
    assert_eq!(cb.state, CircuitState::Closed);
}

#[test]
fn ports_headers_and_retry_after() {
    assert_eq!(effective_port(Some("https"), None), 443);
    assert_eq!(effective_port(None, None), 443);
    assert_eq!(effective_port(Some("http"), None), 80);
    assert_eq!(effective_port(Some("http"), Some(8080)), 8080);
    assert_eq!(retry_after_secs(429, Some("12")), Some(12));
    assert_eq!(retry_after_secs(429, Some("soon")), None);
    assert_eq!(retry_after_secs(503, Some("12")), None);
    assert_eq!(bearer_header("tok"), "Bearer tok");
    let h = request_headers("api.example.com", "rusty-cog/1", Some("tok"), true, "application/json");
    let expected: Vec<(String, String)> = vec![
        ("Host".into(), "api.example.com".into()),
        ("User-Agent".into(), "rusty-cog/1".into()),
        ("Accept".into(), "application/json".into()),
        ("Authorization".into(), "Bearer tok".into()),
        ("Content-Type".into(), "application/json".into()),
    ];
    assert_eq!(h, expected);
    let bare = request_headers("h", "ua", None, false, "text/plain");
    assert_eq!(bare.len(), 3);
}

#[test]
fn query_strings() {
    let mut params: Vec<(String, String)> = Vec::new();
    assert_eq!(url_with_query("https://x/y", &params), "https://x/y");
    add_encoded(&mut params, "q", Some("a b&c"));
    add_encoded(&mut params, "skip", None);
    add_number(&mut params, "n", Some(25));
    add_number(&mut params, "none", None);
    assert_eq!(url_with_query("https://x/y", &params), "https://x/y?q=a+b%26c&n=25");
}

#[test]
fn string_map_insert_get_remove() {
    let mut m: StrMap<String> = StrMap::new();
    assert!(m.is_empty());
    m.insert("a".into(), "1".into());
    m.insert("b".into(), "2".into());
    m.insert("a".into(), "3".into());
    assert_eq!(m.len(), 2);
    assert_eq!(m.get("a"), Some(&"3".to_string()));
    assert!(m.contains_key("b"));
    assert_eq!(m.entries().to_vec(), vec![("a".to_string(), "3".to_string()), ("b".to_string(), "2".to_string())]);
    m.remove("a");
    m.remove("zzz");
    assert_eq!(m.get("a"), None);
    assert_eq!(m.len(), 1);
}

#[test]
fn api_error_details_follow_json_body() {
    match check_response(500, None, br#"{"error":{"message":"boom"}}"#) {
        Err(Error::Api { status, message, details }) => {
            assert_eq!(status, 500);
            assert_eq!(message, "boom");
            assert!(details.is_some());
        }
        other => panic!("unexpected: {other:?}"),
    }
    match check_response(502, None, b"<html>bad gateway</html>") {
        Err(Error::Api { message, details, .. }) => {
            assert_eq!(message, "HTTP 502");
            assert!(details.is_none());
        }
        other => panic!("unexpected: {other:?}"),
    }
}

#[test]
fn retry_budget_at_the_largest_setting() {
    let c = RetryConfig { max_retries: u32::MAX, ..Default::default() };
    assert!(matches!(
        judge_attempt(&c, 0, Err(Error::Http(HttpError::Connection("x".into())))),
        AttemptVerdict::Retry(_)
    ));
    assert!(matches!(judge_attempt(&c, 0, Err(Error::NotFound("x".into()))), AttemptVerdict::GiveUp(_)));
}
