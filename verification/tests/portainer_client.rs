use mgmt_clients::http::{Method, Status, StatusClass, Transport, REQUEST_TIMEOUT_SECS};
use mgmt_clients::portainer::client::{
    check_body, check_status, unanswered, unreadable, PortainerClient, Resource,
};
use mgmt_clients::portainer::error::PortainerError;

fn status(code: u16) -> Status {
    match Status::from_u16(code) {
        Some(s) => s,
        None => panic!("not a status code"),
    }
}

#[test]
fn test_url_trailing_slash_trimmed() {
    let client = PortainerClient::new("http://example.com/", "token", false).unwrap();
    assert_eq!(client.base_url(), "http://example.com");
}

#[test]
fn test_client_creation_succeeds() {
    let result = PortainerClient::new("http://example.com", "token", false);
    assert!(result.is_ok());
}

#[test]
fn test_client_creation_with_insecure() {
    let result = PortainerClient::new("http://example.com", "token", true);
    assert!(result.is_ok());
}

#[test]
fn portainer_client_takes_any_url() {
    let client = PortainerClient::new("not-a-url", "k", false).unwrap();
    assert_eq!(client.base_url(), "not-a-url");
    assert_eq!(client.token(), "k");
}

#[test]
fn portainer_transport_has_the_fixed_timeout() {
    assert_eq!(REQUEST_TIMEOUT_SECS, 10);
    let client = PortainerClient::new("http://h", "k", false).unwrap();
    assert_eq!(client.transport(), Transport { timeout_secs: 10, insecure: false });
    let client = PortainerClient::new("http://h", "k", true).unwrap();
    assert_eq!(client.transport(), Transport { timeout_secs: 10, insecure: true });
    assert_eq!(Transport::new(true), Transport { timeout_secs: 10, insecure: true });
}

#[test]
fn portainer_paths_are_fixed() {
    assert_eq!(Resource::Stacks.path(), "/api/stacks");
    assert_eq!(Resource::Stack { id: 42, endpoint_id: 5 }.path(), "/api/stacks/42?endpointId=5");
    assert_eq!(Resource::StackFile { id: 42 }.path(), "/api/stacks/42/file");
    assert_eq!(Resource::Endpoints.path(), "/api/endpoints");
    assert_eq!(Resource::Endpoint { id: 7 }.path(), "/api/endpoints/7");
    assert_eq!(Resource::Endpoint { id: -7 }.path(), "/api/endpoints/-7");
}

#[test]
fn portainer_requests_carry_the_api_key() {
    let client = PortainerClient::new("http://example.com//", "secret-key", false).unwrap();
    let requests = [
        (client.list_stacks(), "http://example.com/api/stacks"),
        (client.get_stack(3, 4), "http://example.com/api/stacks/3?endpointId=4"),
        (client.get_stack_file(3), "http://example.com/api/stacks/3/file"),
        (client.list_endpoints(), "http://example.com/api/endpoints"),
        (client.get_endpoint(12), "http://example.com/api/endpoints/12"),
        (client.get("/api/status"), "http://example.com/api/status"),
        (client.fetch(Resource::Stacks), "http://example.com/api/stacks"),
    ];
    for (request, url) in requests {
        assert_eq!(request.method, Method::Get);
        assert_eq!(request.url, url);
        let header = request.header.unwrap();
        assert_eq!(header.name, "X-API-Key");
        assert_eq!(header.value, "secret-key");
        assert!(request.body.is_none());
    }
}

#[test]
fn status_codes_outside_the_range_are_no_status() {
    assert!(Status::from_u16(99).is_none());
    assert!(Status::from_u16(0).is_none());
    assert!(Status::from_u16(1000).is_none());
    assert!(Status::from_u16(u16::MAX).is_none());
    assert_eq!(status(100).as_u16(), 100);
    assert_eq!(status(999).as_u16(), 999);
    assert_eq!(status(404).as_u16(), 404);
}

#[test]
fn status_text_names_the_code_and_its_reason() {
    assert_eq!(status(200).text(), "200 OK");
    assert_eq!(status(404).text(), "404 Not Found");
    assert_eq!(status(500).text(), "500 Internal Server Error");
    assert_eq!(status(418).text(), "418 I'm a teapot");
    assert_eq!(status(799).text(), "799 <unknown status code>");
}

#[test]
fn every_status_has_one_class() {
    for code in 100u16..=999 {
        let expected = match code {
            200 => StatusClass::Success,
            401 | 403 => StatusClass::Denied,
            404 => StatusClass::Missing,
            _ => StatusClass::Unexpected,
        };
        assert_eq!(status(code).class(), expected);
    }
}

#[test]
fn portainer_status_mapping_is_exact() {
    assert!(check_status(status(200), "/api/stacks").is_ok());
    for code in [401u16, 403] {
        match check_status(status(code), "/api/stacks") {
            Err(PortainerError::AuthError(detail)) => {
                assert_eq!(detail, "Invalid or expired token")
            }
            _ => panic!("expected an authentication failure"),
        }
    }
    match check_status(status(404), "/api/endpoints/9") {
        Err(PortainerError::NotFound(detail)) => {
            assert_eq!(detail, "Resource not found: /api/endpoints/9")
        }
        _ => panic!("expected a missing resource"),
    }
    match check_status(status(500), "/api/stacks") {
        Err(PortainerError::ApiError(detail)) => {
            assert_eq!(detail, "Unexpected status 500 Internal Server Error from /api/stacks")
        }
        _ => panic!("expected an API failure"),
    }
    for code in [201u16, 204, 301, 400, 402, 405, 502, 999, 100] {
        match check_status(status(code), "/api/endpoints/3") {
            Err(PortainerError::ApiError(detail)) => {
                assert!(detail.contains("/api/endpoints/3"));
                assert!(detail.contains(&code.to_string()));
            }
            _ => panic!("expected an API failure"),
        }
    }
}

#[test]
fn portainer_decode_and_transport_failures() {
    let ok: Result<i32, PortainerError> = check_body("/api/stacks", Ok(5));
    assert!(matches!(ok, Ok(5)));
    let bad: Result<i32, PortainerError> =
        check_body("/api/stacks", Err("expected value at line 1".into()));
    match bad {
        Err(PortainerError::ApiError(detail)) => {
            assert_eq!(
                detail,
                "Failed to parse response from /api/stacks: expected value at line 1"
            )
        }
        _ => panic!("expected an API failure"),
    }
    match unreadable("/api/endpoints/2", "eof") {
        PortainerError::ApiError(detail) => {
            assert_eq!(detail, "Failed to parse response from /api/endpoints/2: eof")
        }
        _ => panic!("expected an API failure"),
    }
    match unanswered("connection refused".into()) {
        PortainerError::NetworkError(detail) => assert_eq!(detail, "connection refused"),
        _ => panic!("expected a network failure"),
    }
    assert_eq!(unanswered("x".into()).exit_code(), 4);
}
