use mgmt_clients::document::Value;
use mgmt_clients::http::{Method, Status, Transport};
use mgmt_clients::nproxy::client::{
    base_url_of, check_body, check_login_body, check_login_status, check_status, login,
    unanswered, unreadable, unreadable_login, NproxyClient, Resource, LOGIN_PATH,
};
use mgmt_clients::nproxy::error::NproxyError;
use mgmt_clients::nproxy::models::ApiLoginResponse;

fn status(code: u16) -> Status {
    match Status::from_u16(code) {
        Some(s) => s,
        None => panic!("not a status code"),
    }
}

#[test]
fn client_test_url_trailing_slash_trimmed() {
    let client = NproxyClient::new("http://example.com/", "token", false).unwrap();
    assert_eq!(client.base_url(), "http://example.com");
}

#[test]
fn client_test_client_creation_succeeds() {
    let result = NproxyClient::new("http://example.com", "token", false);
    assert!(result.is_ok());
}

#[test]
fn client_test_client_creation_with_insecure() {
    let result = NproxyClient::new("http://example.com", "token", true);
    assert!(result.is_ok());
}

#[test]
fn test_invalid_url_rejected() {
    let result = NproxyClient::new("not-a-url", "token", false);
    assert!(result.is_err());
}

#[test]
fn url_without_scheme_is_a_config_error() {
    for url in ["not-a-url", "example.com", "ftp://example.com", "http:/example.com", "", "/", "HTTP://x"] {
        match NproxyClient::new(url, "token", false) {
            Err(NproxyError::ConfigError(detail)) => {
                assert_eq!(detail, "URL must start with http:// or https://")
            }
            _ => panic!("expected a configuration failure"),
        }
        assert!(matches!(base_url_of(url), Err(NproxyError::ConfigError(_))));
        assert!(matches!(login(url, "e", "p", false), Err(NproxyError::ConfigError(_))));
    }
    assert_eq!(NproxyClient::new("x", "t", false).unwrap_err().exit_code(), 1);
}

#[test]
fn url_with_scheme_is_taken() {
    assert_eq!(base_url_of("https://npm.example.com///").unwrap(), "https://npm.example.com");
    assert!(base_url_of("http://").is_err());
    assert_eq!(base_url_of("http://h").unwrap(), "http://h");
    let client = NproxyClient::new("https://npm.example.com/", "tok", true).unwrap();
    assert_eq!(client.base_url(), "https://npm.example.com");
    assert_eq!(client.token(), "tok");
    assert_eq!(client.transport(), Transport { timeout_secs: 10, insecure: true });
}

#[test]
fn a_trailing_slash_changes_nothing() {
    let a = NproxyClient::new("http://example.com", "t", false).unwrap();
    let b = NproxyClient::new("http://example.com/", "t", false).unwrap();
    assert_eq!(a.base_url(), b.base_url());
    assert_eq!(a.list_proxy_hosts().url, b.list_proxy_hosts().url);
}

#[test]
fn nproxy_paths_are_fixed() {
    assert_eq!(Resource::ProxyHosts.path(), "/api/nginx/proxy-hosts");
    assert_eq!(Resource::ProxyHost { id: 3 }.path(), "/api/nginx/proxy-hosts/3");
    assert_eq!(Resource::Certificates.path(), "/api/nginx/certificates");
    assert_eq!(Resource::Certificate { id: 11 }.path(), "/api/nginx/certificates/11");
}

#[test]
fn nproxy_requests_carry_the_bearer_token() {
    let client = NproxyClient::new("http://example.com/", "abc", false).unwrap();
    let requests = [
        (client.list_proxy_hosts(), "http://example.com/api/nginx/proxy-hosts"),
        (client.get_proxy_host(3), "http://example.com/api/nginx/proxy-hosts/3"),
        (client.list_certificates(), "http://example.com/api/nginx/certificates"),
        (client.get_certificate(4), "http://example.com/api/nginx/certificates/4"),
        (client.get("/api/x"), "http://example.com/api/x"),
        (client.fetch(Resource::Certificates), "http://example.com/api/nginx/certificates"),
    ];
    for (request, url) in requests {
        assert_eq!(request.method, Method::Get);
        assert_eq!(request.url, url);
        let header = request.header.unwrap();
        assert_eq!(header.name, "Authorization");
        assert_eq!(header.value, "Bearer abc");
        assert!(request.body.is_none());
    }
}

#[test]
fn login_posts_the_credentials() {
    let attempt = login("https://npm.example.com/", "me@example.com", "hunter2", true).unwrap();
    assert_eq!(attempt.transport, Transport { timeout_secs: 10, insecure: true });
    assert_eq!(attempt.request.method, Method::Post);
    assert_eq!(attempt.request.url, "https://npm.example.com/api/tokens");
    assert!(attempt.request.header.is_none());
    match attempt.request.body {
        Some(Value::Record(fields)) => {
            assert_eq!(fields.len(), 2);
            assert_eq!(fields[0].key, "identity");
            assert!(matches!(&fields[0].value, Value::Text(s) if s == "me@example.com"));
            assert_eq!(fields[1].key, "secret");
            assert!(matches!(&fields[1].value, Value::Text(s) if s == "hunter2"));
        }
        _ => panic!("expected a record"),
    }
}

#[test]
fn nproxy_status_mapping_is_exact() {
    assert!(check_status(status(200), "/api/nginx/certificates").is_ok());
    for code in [401u16, 403] {
        match check_status(status(code), "/api/nginx/certificates") {
            Err(NproxyError::AuthError(detail)) => assert_eq!(detail, "Invalid or expired token"),
            _ => panic!("expected an authentication failure"),
        }
    }
    match check_status(status(404), "/api/nginx/proxy-hosts/9") {
        Err(NproxyError::NotFound(detail)) => {
            assert_eq!(detail, "Resource not found: /api/nginx/proxy-hosts/9")
        }
        _ => panic!("expected a missing resource"),
    }
    match check_status(status(502), "/api/nginx/proxy-hosts") {
        Err(NproxyError::ApiError(detail)) => {
            assert_eq!(detail, "Unexpected status 502 Bad Gateway from /api/nginx/proxy-hosts")
        }
        _ => panic!("expected an API failure"),
    }
    for code in [201u16, 204, 302, 400, 405, 500, 999] {
        assert!(matches!(check_status(status(code), "/p"), Err(NproxyError::ApiError(_))));
    }
}

#[test]
fn login_status_mapping_is_exact() {
    assert!(check_login_status(status(200)).is_ok());
    for code in [401u16, 403] {
        match check_login_status(status(code)) {
            Err(NproxyError::AuthError(detail)) => assert_eq!(detail, "Invalid credentials"),
            _ => panic!("expected an authentication failure"),
        }
    }
    match check_login_status(status(404)) {
        Err(e) => {
            assert!(matches!(e, NproxyError::NotFound(_)));
            assert_eq!(e.detail(), "Resource not found: /api/tokens");
            assert_eq!(e.exit_code(), 3);
        }
        _ => panic!("expected a missing resource"),
    }
    match check_login_status(status(500)) {
        Err(NproxyError::ApiError(detail)) => {
            assert_eq!(
                detail,
                "Login failed with status 500 Internal Server Error from /api/tokens"
            )
        }
        _ => panic!("expected an API failure"),
    }
    for code in [201u16, 204, 302, 400, 405, 999] {
        assert!(matches!(check_login_status(status(code)), Err(NproxyError::ApiError(_))));
    }
    assert_eq!(LOGIN_PATH, "/api/tokens");
}

#[test]
fn nproxy_decode_and_transport_failures() {
    let ok: Result<i32, NproxyError> = check_body("/p", Ok(5));
    assert!(matches!(ok, Ok(5)));
    let bad: Result<i32, NproxyError> = check_body("/api/nginx/certificates", Err("eof".into()));
    match bad {
        Err(NproxyError::ApiError(detail)) => {
            assert_eq!(detail, "Failed to parse response from /api/nginx/certificates: eof")
        }
        _ => panic!("expected an API failure"),
    }
    match unreadable("/p", "bad") {
        NproxyError::ApiError(detail) => assert_eq!(detail, "Failed to parse response from /p: bad"),
        _ => panic!("expected an API failure"),
    }
    match check_login_body(Ok(ApiLoginResponse { token: "jwt".into() })) {
        Ok(token) => assert_eq!(token, "jwt"),
        Err(_) => panic!("expected a token"),
    }
    match check_login_body(Err("missing field".into())) {
        Err(NproxyError::ApiError(detail)) => {
            assert_eq!(detail, "Failed to parse login response from /api/tokens: missing field")
        }
        _ => panic!("expected an API failure"),
    }
    match unreadable_login("eof") {
        NproxyError::ApiError(detail) => {
            assert_eq!(detail, "Failed to parse login response from /api/tokens: eof")
        }
        _ => panic!("expected an API failure"),
    }
    match unanswered("timed out".into()) {
        NproxyError::NetworkError(detail) => assert_eq!(detail, "timed out"),
        _ => panic!("expected a network failure"),
    }
}
