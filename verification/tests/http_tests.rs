use nautilus_tastytrade::common::consts::OAUTH_TOKEN_PATH;
use nautilus_tastytrade::common::credential::TastytradeCredential;
use nautilus_tastytrade::common::enums::TastytradeEnvironment;
use nautilus_tastytrade::http::client::{
    account_path, HttpMethod, TastytradeHttpClient, TokenStep, BALANCES_RESOURCE, DRY_RUN_ORDER_RESOURCE,
    LIVE_ORDERS_RESOURCE, POSITIONS_RESOURCE,
};
use nautilus_tastytrade::http::error::{parse_retry_after_ms, Error};
use nautilus_tastytrade::http::models::{
    account_numbers, AccountInner, AccountItem, AccountsData, AccountsResponse, Envelope,
};

fn check_status(status: u16, expect_auth: bool, expect_retryable: bool) {
    let err = Error::from_http_status(status, b"body");
    assert_eq!(err.is_auth_error(), expect_auth, "auth for {status}");
    assert_eq!(err.is_retryable(), expect_retryable, "retryable for {status}");
}

#[test]
fn test_from_http_status_classification_401() {
    check_status(401, true, false);
}

#[test]
fn test_from_http_status_classification_400() {
    check_status(400, false, false);
}

#[test]
fn test_from_http_status_classification_429() {
    check_status(429, false, true);
}

#[test]
fn test_from_http_status_classification_500() {
    check_status(500, false, true);
}

#[test]
fn test_from_http_status_classification_404() {
    check_status(404, false, false);
}

#[test]
fn test_from_http_status_messages() {
    match Error::from_http_status(403, b"denied") {
        Error::Auth(m) => assert_eq!(m, "HTTP 403: denied"),
        e => panic!("{e:?}"),
    }
    match Error::from_http_status(422, b"bad") {
        Error::BadRequest(m) => assert_eq!(m, "HTTP 422: bad"),
        e => panic!("{e:?}"),
    }
    match Error::from_http_status(503, b"down") {
        Error::Server(m) => assert_eq!(m, "HTTP 503: down"),
        e => panic!("{e:?}"),
    }
    match Error::from_http_status(429, b"slow") {
        Error::RateLimit { retry_after_ms } => assert_eq!(retry_after_ms, None),
        e => panic!("{e:?}"),
    }
    match Error::from_http_status(404, b"missing") {
        Error::Http { status, message } => {
            assert_eq!(status, 404);
            assert_eq!(message, "missing");
        }
        e => panic!("{e:?}"),
    }
    // Invalid UTF-8 is replaced, not rejected.
    match Error::from_http_status(404, &[0x66, 0xff, 0x6f]) {
        Error::Http { message, .. } => assert_eq!(message, "f\u{fffd}o"),
        e => panic!("{e:?}"),
    }
    // Statuses past 599 are generic HTTP errors, and retried.
    let err = Error::from_http_status(600, b"");
    assert!(matches!(err, Error::Http { status: 600, .. }));
    assert!(err.is_retryable());
}

#[test]
fn test_error_constructors() {
    assert!(matches!(Error::transport("t"), Error::Transport(m) if m == "t"));
    assert!(matches!(Error::auth("a"), Error::Auth(m) if m == "a"));
    assert!(matches!(Error::bad_request("b"), Error::BadRequest(m) if m == "b"));
    assert!(matches!(Error::server("s"), Error::Server(m) if m == "s"));
    assert!(matches!(Error::http(418, "teapot"), Error::Http { status: 418, message } if message == "teapot"));
    assert!(matches!(Error::from_http_client("refused"), Error::Transport(m) if m == "HTTP client error: refused"));
}

#[test]
fn test_retryable_and_auth_kinds() {
    assert!(Error::transport("x").is_retryable());
    assert!(Error::Timeout.is_retryable());
    assert!(Error::server("x").is_retryable());
    assert!(Error::RateLimit { retry_after_ms: Some(5) }.is_retryable());
    assert!(!Error::auth("x").is_retryable());
    assert!(!Error::bad_request("x").is_retryable());
    assert!(Error::http(502, "x").is_retryable());
    assert!(!Error::http(404, "x").is_retryable());
    let serde_err = serde_json::from_str::<serde_json::Value>("{").unwrap_err();
    assert!(!Error::Serde(serde_err).is_retryable());
    assert!(Error::auth("x").is_auth_error());
    assert!(!Error::server("x").is_auth_error());
}

#[test]
fn test_should_retry_only_idempotent() {
    assert!(TastytradeHttpClient::should_retry(true, &Error::Timeout));
    assert!(!TastytradeHttpClient::should_retry(false, &Error::Timeout));
    assert!(!TastytradeHttpClient::should_retry(true, &Error::auth("x")));
    assert!(!TastytradeHttpClient::should_retry(false, &Error::server("x")));
}

fn client(accept_version: Option<&str>) -> TastytradeHttpClient {
    TastytradeHttpClient::new(
        Some(TastytradeCredential::new("secret".to_string(), "refresh".to_string())),
        TastytradeEnvironment::Sandbox,
        accept_version.map(String::from),
        60,
        "agent/1".to_string(),
    )
}

fn header<'a>(headers: &'a [(String, String)], name: &str) -> Option<&'a str> {
    headers.iter().find(|(k, _)| k == name).map(|(_, v)| v.as_str())
}

#[test]
fn test_client_basics() {
    let mut c = client(None);
    assert_eq!(c.environment(), TastytradeEnvironment::Sandbox);
    assert!(c.is_authenticated());
    assert_eq!(c.build_url("/x"), "https://api.cert.tastyworks.com/x");
    c.set_base_url("http://127.0.0.1:9000".to_string());
    assert_eq!(c.build_url("/x"), "http://127.0.0.1:9000/x");
    let anon = TastytradeHttpClient::new(None, TastytradeEnvironment::Production, None, 60, "a".to_string());
    assert!(!anon.is_authenticated());
    assert_eq!(anon.build_url("/y"), "https://api.tastytrade.com/y");
}

#[test]
fn test_headers() {
    let c = client(Some("2024-01-01"));
    let defaults = c.default_headers();
    assert_eq!(defaults.len(), 3);
    assert_eq!(header(&defaults, "User-Agent"), Some("agent/1"));
    assert_eq!(header(&defaults, "Content-Type"), Some("application/json"));
    assert_eq!(header(&defaults, "Accept"), Some("application/json"));
    let authed = c.authed_headers("tok");
    assert_eq!(authed.len(), 5);
    assert_eq!(header(&authed, "Authorization"), Some("Bearer tok"));
    assert_eq!(header(&authed, "Accept-Version"), Some("2024-01-01"));
    let plain = client(None).authed_headers("tok");
    assert_eq!(plain.len(), 4);
    assert_eq!(header(&plain, "Accept-Version"), None);
}

#[test]
fn test_token_cache_lifecycle() {
    let mut c = client(None);
    assert_eq!(c.cached_access_token(0), None);
    let returned = c.store_access_token("abc".to_string(), 900, 1_000).unwrap();
    assert_eq!(returned, "abc");
    // Fresh while more than the 60 s buffer remains: expires at 901_000 ms.
    assert_eq!(c.cached_access_token(1_000).as_deref(), Some("abc"));
    assert_eq!(c.cached_access_token(840_999).as_deref(), Some("abc"));
    assert_eq!(c.cached_access_token(841_000), None);
    assert_eq!(c.cached_access_token(2_000_000), None);
    // A token that lives no longer than the buffer is never served.
    c.store_access_token("short".to_string(), 60, 5_000).unwrap();
    assert_eq!(c.cached_access_token(5_000), None);
    // Huge lifetimes do not overflow.
    c.store_access_token("long".to_string(), u64::MAX, u64::MAX).unwrap();
    assert_eq!(c.cached_access_token(u64::MAX).as_deref(), Some("long"));
}

#[test]
fn test_refresh_request() {
    let c = client(None);
    let grant = c.oauth_refresh_request().unwrap();
    assert_eq!(grant.grant_type, "refresh_token");
    assert_eq!(grant.refresh_token, "refresh");
    assert_eq!(grant.client_secret, "secret");
    let expected_body = br#"{"client_secret":"secret","grant_type":"refresh_token","refresh_token":"refresh"}"#;
    let req = c.token_request(&grant).unwrap();
    assert_eq!(req.method, HttpMethod::Post);
    assert_eq!(req.url, format!("https://api.cert.tastyworks.com{OAUTH_TOKEN_PATH}"));
    assert_eq!(req.body.as_deref(), Some(&expected_body[..]));
    assert!(req.idempotent);
    assert_eq!(header(&req.headers, "Authorization"), None);
    assert_eq!(req.headers.len(), 3);
    let refresh = c.refresh_request().unwrap();
    assert_eq!(refresh.url, req.url);
    assert_eq!(refresh.body, req.body);

    let anon = TastytradeHttpClient::new(None, TastytradeEnvironment::Sandbox, None, 60, "a".to_string());
    match anon.oauth_refresh_request() {
        Err(Error::Auth(m)) => assert_eq!(m, "No credentials configured"),
        other => panic!("{other:?}"),
    }
    assert!(matches!(anon.refresh_request(), Err(Error::Auth(_))));
}

#[test]
fn test_get_and_post_requests() {
    let c = client(None);
    let get = c.get_request("/customers/me/accounts", "tok");
    assert_eq!(get.method, HttpMethod::Get);
    assert_eq!(get.url, "https://api.cert.tastyworks.com/customers/me/accounts");
    assert!(get.body.is_none());
    assert!(get.idempotent);
    assert_eq!(header(&get.headers, "Authorization"), Some("Bearer tok"));

    let body: serde_json::Value = serde_json::from_str(r#"{"size":1}"#).unwrap();
    let post = c.post_request("/accounts/5WT/orders", "tok", &body, false).unwrap();
    assert_eq!(post.method, HttpMethod::Post);
    assert_eq!(post.body.as_deref(), Some(&br#"{"size":1}"#[..]));
    assert!(!post.idempotent);
}

#[test]
fn test_parse_response() {
    let c = client(None);
    let v = c.parse_response(200, br#"{"a":[1,2]}"#, None).unwrap();
    assert_eq!(v, serde_json::from_str::<serde_json::Value>(r#"{"a":[1,2]}"#).unwrap());
    assert_eq!(c.parse_response(204, b"", None).unwrap(), serde_json::Value::Null);
    assert!(matches!(c.parse_response(200, b"{oops", None), Err(Error::Serde(_))));
    assert!(matches!(c.parse_response(401, b"nope", Some("5")), Err(Error::Auth(m)) if m == "HTTP 401: nope"));
    assert!(matches!(c.parse_response(302, b"", None), Err(Error::Http { status: 302, .. })));
}

#[test]
fn test_account_paths() {
    assert_eq!(account_path("5WT00001", BALANCES_RESOURCE), "/accounts/5WT00001/balances");
    assert_eq!(account_path("5WT00001", POSITIONS_RESOURCE), "/accounts/5WT00001/positions");
    assert_eq!(account_path("5WT00001", LIVE_ORDERS_RESOURCE), "/accounts/5WT00001/orders/live");
    assert_eq!(account_path("5WT00001", DRY_RUN_ORDER_RESOURCE), "/accounts/5WT00001/orders/dry-run");
}

#[test]
fn test_account_numbers() {
    let item = |n: &str| AccountItem {
        account: AccountInner {
            account_number: n.to_string(),
            nickname: None,
            account_type_name: None,
        },
        authority_level: Some("owner".to_string()),
    };
    let resp: AccountsResponse = Envelope {
        data: AccountsData { items: vec![item("5WT00001"), item("5WT00002")] },
        context: Some("/customers/me/accounts".to_string()),
    };
    assert_eq!(account_numbers(&resp), vec!["5WT00001".to_string(), "5WT00002".to_string()]);
    let empty: AccountsResponse = Envelope { data: AccountsData { items: vec![] }, context: None };
    assert!(account_numbers(&empty).is_empty());
}

#[test]
fn test_endpoint_requests() {
    let c = client(None);
    let accounts = c.accounts_request("tok");
    assert_eq!(accounts.method, HttpMethod::Get);
    assert_eq!(accounts.url, "https://api.cert.tastyworks.com/customers/me/accounts");
    assert!(accounts.idempotent);
    let balances = c.account_resource_request("5WT00001", BALANCES_RESOURCE, "tok");
    assert_eq!(balances.url, "https://api.cert.tastyworks.com/accounts/5WT00001/balances");
    assert_eq!(header(&balances.headers, "Authorization"), Some("Bearer tok"));
    let quote = c.quote_token_request("tok");
    assert_eq!(quote.url, "https://api.cert.tastyworks.com/api-quote-tokens");
    let order: serde_json::Value = serde_json::from_str(r#"{"order-type":"Limit"}"#).unwrap();
    let dry_run = c.dry_run_order_request("5WT00001", "tok", &order).unwrap();
    assert_eq!(dry_run.method, HttpMethod::Post);
    assert_eq!(dry_run.url, "https://api.cert.tastyworks.com/accounts/5WT00001/orders/dry-run");
    assert_eq!(dry_run.body.as_deref(), Some(&br#"{"order-type":"Limit"}"#[..]));
    assert!(dry_run.idempotent);
}

#[test]
fn test_authed_header_names_distinct() {
    let headers = client(Some("2024-01-01")).authed_headers("tok");
    for (i, (a, _)) in headers.iter().enumerate() {
        for (j, (b, _)) in headers.iter().enumerate() {
            if i != j {
                assert_ne!(a, b);
            }
        }
    }
}

#[test]
fn test_parse_retry_after() {
    assert_eq!(parse_retry_after_ms("0"), Some(0));
    assert_eq!(parse_retry_after_ms("5"), Some(5_000));
    assert_eq!(parse_retry_after_ms("120"), Some(120_000));
    assert_eq!(parse_retry_after_ms("007"), Some(7_000));
    assert_eq!(parse_retry_after_ms("18446744073709551"), Some(18_446_744_073_709_551_000));
    assert_eq!(parse_retry_after_ms("18446744073709552"), Some(u64::MAX));
    assert_eq!(parse_retry_after_ms("99999999999999999999999"), Some(u64::MAX));
    assert_eq!(parse_retry_after_ms(""), None);
    assert_eq!(parse_retry_after_ms("1.5"), None);
    assert_eq!(parse_retry_after_ms(" 5"), None);
    assert_eq!(parse_retry_after_ms("Wed, 21 Oct 2015 07:28:00 GMT"), None);
}

#[test]
fn test_rate_limit_carries_retry_after() {
    assert!(matches!(
        Error::from_http_response(429, b"slow", Some("3")),
        Error::RateLimit { retry_after_ms: Some(3_000) }
    ));
    assert!(matches!(
        Error::from_http_response(429, b"slow", None),
        Error::RateLimit { retry_after_ms: None }
    ));
    assert!(matches!(
        Error::from_http_response(503, b"down", Some("3")),
        Error::Server(m) if m == "HTTP 503: down"
    ));
    let c = client(None);
    assert!(matches!(
        c.parse_response(429, b"", Some("2")),
        Err(Error::RateLimit { retry_after_ms: Some(2_000) })
    ));
}

#[test]
fn test_retry_wait() {
    let limited = Error::RateLimit { retry_after_ms: Some(2_000) };
    assert_eq!(TastytradeHttpClient::retry_wait_ms(true, &limited), Some(2_000));
    assert_eq!(TastytradeHttpClient::retry_wait_ms(false, &limited), None);
    assert_eq!(TastytradeHttpClient::retry_wait_ms(true, &Error::RateLimit { retry_after_ms: None }), None);
    assert_eq!(TastytradeHttpClient::retry_wait_ms(true, &Error::Timeout), None);
}

#[test]
fn test_valid_utf8_body_is_the_message() {
    assert!(matches!(Error::from_http_status(404, b"body"), Error::Http { status: 404, message } if message == "body"));
    assert!(matches!(Error::from_http_status(403, b"body"), Error::Auth(m) if m == "HTTP 403: body"));
    assert!(matches!(Error::from_http_status(422, b"x"), Error::BadRequest(m) if m == "HTTP 422: x"));
    assert!(matches!(Error::from_http_status(503, b"x"), Error::Server(m) if m == "HTTP 503: x"));
    assert!(matches!(Error::from_http_status(404, "caf\u{e9}".as_bytes()), Error::Http { message, .. } if message == "caf\u{e9}"));
}

#[test]
fn test_token_step() {
    let mut c = client(None);
    match c.token_step(0).unwrap() {
        TokenStep::Refresh(req) => {
            assert_eq!(req.url, "https://api.cert.tastyworks.com/oauth/token");
            assert_eq!(
                req.body.as_deref(),
                Some(&br#"{"client_secret":"secret","grant_type":"refresh_token","refresh_token":"refresh"}"#[..])
            );
        }
        other => panic!("{other:?}"),
    }
    c.store_access_token("abc".to_string(), 900, 0).unwrap();
    assert!(matches!(c.token_step(10).unwrap(), TokenStep::Cached(t) if t == "abc"));
    assert!(matches!(c.token_step(900_000).unwrap(), TokenStep::Refresh(_)));
}

#[test]
fn test_unauthenticated_client_never_holds_a_token() {
    let mut anon = TastytradeHttpClient::new(None, TastytradeEnvironment::Sandbox, None, 60, "a".to_string());
    match anon.store_access_token("abc".to_string(), 900, 0) {
        Err(Error::Auth(m)) => assert_eq!(m, "No credentials configured"),
        other => panic!("{other:?}"),
    }
    assert_eq!(anon.cached_access_token(0), None);
    assert!(matches!(anon.token_step(0), Err(Error::Auth(_))));
}

#[test]
fn test_zeroize_credential() {
    let mut c = client(None);
    c.store_access_token("abc".to_string(), 900, 0).unwrap();
    c.zeroize_credential();
    assert!(c.is_authenticated());
    let grant = c.oauth_refresh_request().unwrap();
    assert_eq!(grant.refresh_token, "");
    assert_eq!(grant.client_secret, "");
    assert_eq!(c.cached_access_token(0).as_deref(), Some("abc"));
    let mut anon = TastytradeHttpClient::new(None, TastytradeEnvironment::Sandbox, None, 60, "a".to_string());
    anon.zeroize_credential();
    assert!(!anon.is_authenticated());
}
