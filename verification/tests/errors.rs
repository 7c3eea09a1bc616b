use mgmt_clients::error::ErrorKind;
use mgmt_clients::nproxy::error::NproxyError;
use mgmt_clients::portainer::error::PortainerError;

#[test]
fn test_exit_codes() {
    assert_eq!(PortainerError::ConfigError("".into()).exit_code(), 1);
    assert_eq!(PortainerError::AuthError("".into()).exit_code(), 2);
    assert_eq!(PortainerError::NotFound("".into()).exit_code(), 3);
    assert_eq!(PortainerError::NetworkError("".into()).exit_code(), 4);
    assert_eq!(PortainerError::ApiError("".into()).exit_code(), 5);
}

#[test]
fn test_error_codes() {
    assert_eq!(PortainerError::ConfigError("".into()).code(), "CONFIG_ERROR");
    assert_eq!(PortainerError::AuthError("".into()).code(), "AUTH_FAILED");
    assert_eq!(PortainerError::NotFound("".into()).code(), "NOT_FOUND");
    assert_eq!(PortainerError::NetworkError("".into()).code(), "NETWORK_ERROR");
    assert_eq!(PortainerError::ApiError("".into()).code(), "API_ERROR");
}

#[test]
fn error_test_exit_codes() {
    assert_eq!(NproxyError::ConfigError("".into()).exit_code(), 1);
    assert_eq!(NproxyError::AuthError("".into()).exit_code(), 2);
    assert_eq!(NproxyError::NotFound("".into()).exit_code(), 3);
    assert_eq!(NproxyError::NetworkError("".into()).exit_code(), 4);
    assert_eq!(NproxyError::ApiError("".into()).exit_code(), 5);
}

#[test]
fn error_test_error_codes() {
    assert_eq!(NproxyError::ConfigError("".into()).code(), "CONFIG_ERROR");
    assert_eq!(NproxyError::AuthError("".into()).code(), "AUTH_FAILED");
    assert_eq!(NproxyError::NotFound("".into()).code(), "NOT_FOUND");
    assert_eq!(NproxyError::NetworkError("".into()).code(), "NETWORK_ERROR");
    assert_eq!(NproxyError::ApiError("".into()).code(), "API_ERROR");
}

#[test]
fn portainer_messages_open_with_the_heading_of_their_kind() {
    assert_eq!(
        PortainerError::ConfigError("no url".into()).message(),
        "Missing configuration: no url"
    );
    assert_eq!(
        PortainerError::AuthError("bad key".into()).message(),
        "Authentication failed: bad key"
    );
    assert_eq!(
        PortainerError::NotFound("stack 7".into()).message(),
        "Resource not found: stack 7"
    );
    assert_eq!(
        PortainerError::NetworkError("timed out".into()).message(),
        "Network error: timed out"
    );
    assert_eq!(PortainerError::ApiError("odd".into()).message(), "API error: odd");
}

#[test]
fn nproxy_messages_open_with_the_heading_of_their_kind() {
    assert_eq!(
        NproxyError::ConfigError("no url".into()).message(),
        "Missing configuration: no url"
    );
    assert_eq!(
        NproxyError::AuthError("bad token".into()).message(),
        "Authentication failed: bad token"
    );
    assert_eq!(NproxyError::NotFound("host 7".into()).message(), "Resource not found: host 7");
    assert_eq!(
        NproxyError::NetworkError("refused".into()).message(),
        "Network error: refused"
    );
    assert_eq!(NproxyError::ApiError("odd".into()).message(), "API error: odd");
}

#[test]
fn kinds_and_details_are_kept() {
    let e = PortainerError::new(ErrorKind::NotFound, "x".into());
    assert!(matches!(e, PortainerError::NotFound(_)));
    assert_eq!(e.kind(), ErrorKind::NotFound);
    assert_eq!(e.detail(), "x");
    let e = NproxyError::new(ErrorKind::Network, "y".into());
    assert!(matches!(e, NproxyError::NetworkError(_)));
    assert_eq!(e.kind(), ErrorKind::Network);
    assert_eq!(e.detail(), "y");
}

#[test]
fn every_kind_has_its_own_exit_code_and_code_string() {
    let kinds = [
        ErrorKind::Config,
        ErrorKind::Auth,
        ErrorKind::NotFound,
        ErrorKind::Network,
        ErrorKind::Api,
    ];
    for (i, a) in kinds.iter().enumerate() {
        assert!(a.exit_code() >= 1 && a.exit_code() <= 5);
        for (j, b) in kinds.iter().enumerate() {
            if i != j {
                assert_ne!(a.exit_code(), b.exit_code());
                assert_ne!(a.code(), b.code());
            }
        }
    }
    assert_eq!(ErrorKind::Config.heading(), "Missing configuration: ");
    assert_eq!(ErrorKind::Api.heading(), "API error: ");
}
