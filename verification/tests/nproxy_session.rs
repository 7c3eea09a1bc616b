use mgmt_clients::config::Setting;
use mgmt_clients::document::Value;
use mgmt_clients::http::{Method, Status, Transport};
use mgmt_clients::nproxy::client::Resource;
use mgmt_clients::nproxy::config::{get_config, get_url, TOKEN_VARIABLE, URL_VARIABLE};
use mgmt_clients::nproxy::error::NproxyError;
use mgmt_clients::nproxy::models::{ApiCertificate, ApiLoginResponse, ApiProxyHost};
use mgmt_clients::nproxy::session::{
    Action, Command, Event, Invocation, Payload, Question, Session, Shape, Stage,
};

fn given(value: &str) -> Setting {
    Setting { flag: Some(value.to_string()), env: None }
}

fn absent() -> Setting {
    Setting { flag: None, env: None }
}

fn invocation(command: Command) -> Invocation {
    Invocation { url: given("https://npm.local/"), token: given("tok"), insecure: false, command }
}

fn status(code: u16) -> Event {
    match Status::from_u16(code) {
        Some(s) => Event::Status(s),
        None => panic!("not a status code"),
    }
}

fn connected(command: Command) -> (Session, Action) {
    let (session, action) = Session::start(invocation(command));
    assert!(matches!(action, Action::Connect(Transport { timeout_secs: 10, insecure: false })));
    session.step(Event::Ready)
}

fn keys(v: &Value) -> Vec<String> {
    match v {
        Value::Record(fields) => fields.iter().map(|f| f.key.clone()).collect(),
        _ => panic!("not a record"),
    }
}

fn certificate() -> ApiCertificate {
    ApiCertificate {
        id: 3,
        provider: "letsencrypt".into(),
        nice_name: "My Cert".into(),
        domain_names: vec!["example.com".into()],
        expires_on: "2024-12-31".into(),
    }
}

#[test]
fn nproxy_variables_are_named() {
    assert_eq!(URL_VARIABLE, "NPROXY_URL");
    assert_eq!(TOKEN_VARIABLE, "NPROXY_TOKEN");
}

#[test]
fn nproxy_settings_are_resolved_flag_first() {
    let both = Setting { flag: Some("http://flag".into()), env: Some("http://env".into()) };
    assert_eq!(get_url(both).unwrap(), "http://flag");
    match get_url(absent()) {
        Err(NproxyError::ConfigError(detail)) => {
            assert_eq!(detail, "Missing URL. Use --url or set NPROXY_URL")
        }
        _ => panic!("expected a configuration failure"),
    }
    match get_config(given("http://h"), absent()) {
        Err(NproxyError::ConfigError(detail)) => {
            assert_eq!(detail, "Missing token. Use --token or set NPROXY_TOKEN")
        }
        _ => panic!("expected a configuration failure"),
    }
    match get_config(absent(), absent()) {
        Err(NproxyError::ConfigError(detail)) => {
            assert_eq!(detail, "Missing URL. Use --url or set NPROXY_URL")
        }
        _ => panic!("expected a configuration failure"),
    }
    let env = Setting { flag: None, env: Some("e".into()) };
    match get_config(given("http://h"), env) {
        Ok((url, token)) => {
            assert_eq!(url, "http://h");
            assert_eq!(token, "e");
        }
        Err(_) => panic!("expected settings"),
    }
}

#[test]
fn a_url_without_scheme_never_reaches_the_network() {
    let (session, action) = Session::start(Invocation {
        url: given("npm.local"),
        token: given("tok"),
        insecure: false,
        command: Command::ListCertificates,
    });
    assert!(matches!(session.stage, Stage::Done));
    match action {
        Action::Fail(e) => {
            assert!(matches!(e, NproxyError::ConfigError(_)));
            assert_eq!(e.detail(), "URL must start with http:// or https://");
            assert_eq!(e.exit_code(), 1);
        }
        _ => panic!("expected a configuration failure"),
    }
}

#[test]
fn a_session_without_token_ends_at_once() {
    let (_, action) = Session::start(Invocation {
        url: given("http://npm.local"),
        token: absent(),
        insecure: true,
        command: Command::ListHosts,
    });
    assert!(matches!(action, Action::Fail(NproxyError::ConfigError(_))));
}

#[test]
fn certificate_list_answered_with_403_is_an_authentication_failure() {
    let (session, action) = connected(Command::ListCertificates);
    match action {
        Action::Send(request) => {
            assert_eq!(request.method, Method::Get);
            assert_eq!(request.url, "https://npm.local/api/nginx/certificates");
            let header = request.header.unwrap();
            assert_eq!(header.name, "Authorization");
            assert_eq!(header.value, "Bearer tok");
        }
        _ => panic!("expected a request"),
    }
    let (session, action) = session.step(status(403));
    assert!(matches!(session.stage, Stage::Done));
    match action {
        Action::Fail(e) => {
            assert!(matches!(e, NproxyError::AuthError(_)));
            assert_eq!(e.exit_code(), 2);
            let output = e.to_output();
            assert_eq!(output.error.code, "AUTH_FAILED");
            assert_eq!(output.error.message, "Authentication failed: Invalid or expired token");
            assert_eq!(keys(&output.document()), vec!["error"]);
        }
        _ => panic!("expected an authentication failure"),
    }
}

#[test]
fn certificates_are_listed_and_shown() {
    let (session, _) = connected(Command::ListCertificates);
    let (session, action) = session.step(status(200));
    assert!(matches!(action, Action::Decode(Shape::Certificates)));
    assert!(matches!(session.stage, Stage::Decoding { resource: Resource::Certificates }));
    let (session, action) = session.step(Event::Body(Payload::Certificates(vec![certificate()])));
    match action {
        Action::Print(doc) => assert_eq!(keys(&doc), vec!["certificates"]),
        _ => panic!("expected a record to print"),
    }
    let (_, action) = session.step(Event::Ready);
    assert!(matches!(action, Action::Finish));

    let (session, action) = connected(Command::ShowCertificate { id: 3 });
    match action {
        Action::Send(request) => {
            assert_eq!(request.url, "https://npm.local/api/nginx/certificates/3")
        }
        _ => panic!("expected a request"),
    }
    let (session, action) = session.step(status(200));
    assert!(matches!(action, Action::Decode(Shape::Certificate)));
    let (_, action) = session.step(Event::Body(Payload::Certificate(certificate())));
    match action {
        Action::Print(doc) => {
            assert_eq!(keys(&doc), vec!["id", "provider", "niceName", "domainNames", "expiresOn"])
        }
        _ => panic!("expected a record to print"),
    }
}

#[test]
fn hosts_are_listed_and_shown() {
    let host = ApiProxyHost {
        id: 1,
        domain_names: vec!["example.com".into()],
        forward_scheme: "http".into(),
        forward_host: "backend".into(),
        forward_port: 80,
        certificate_id: None,
        ssl_forced: false,
        block_exploits: false,
        caching_enabled: false,
        allow_websocket_upgrade: false,
        enabled: true,
        advanced_config: String::new(),
    };
    let (session, action) = connected(Command::ShowHost { id: 1 });
    match action {
        Action::Send(request) => {
            assert_eq!(request.url, "https://npm.local/api/nginx/proxy-hosts/1")
        }
        _ => panic!("expected a request"),
    }
    let (session, action) = session.step(status(200));
    assert!(matches!(action, Action::Decode(Shape::ProxyHost)));
    let (_, action) = session.step(Event::Body(Payload::ProxyHost(host)));
    match action {
        Action::Print(doc) => {
            assert!(!keys(&doc).contains(&"certificateId".to_string()));
            assert!(!keys(&doc).contains(&"advancedConfig".to_string()));
            assert_eq!(keys(&doc).len(), 10);
        }
        _ => panic!("expected a record to print"),
    }

    let (session, action) = connected(Command::ListHosts);
    match action {
        Action::Send(request) => assert_eq!(request.url, "https://npm.local/api/nginx/proxy-hosts"),
        _ => panic!("expected a request"),
    }
    let (session, action) = session.step(status(200));
    assert!(matches!(action, Action::Decode(Shape::ProxyHosts)));
    let (_, action) = session.step(Event::Body(Payload::ProxyHosts(vec![])));
    match action {
        Action::Print(doc) => assert_eq!(keys(&doc), vec!["hosts"]),
        _ => panic!("expected a record to print"),
    }
}

#[test]
fn an_id_that_is_not_positive_is_not_asked_for() {
    for command in [
        Command::ShowHost { id: 0 },
        Command::ShowHost { id: -3 },
        Command::ShowCertificate { id: 0 },
        Command::ShowCertificate { id: i64::MIN },
    ] {
        let (session, action) = connected(command);
        assert!(matches!(session.stage, Stage::Done));
        match action {
            Action::Fail(NproxyError::ConfigError(detail)) => {
                assert_eq!(detail, "ID must be positive")
            }
            _ => panic!("expected a configuration failure"),
        }
    }
}

#[test]
fn a_login_asks_sends_and_prints_the_token() {
    let (session, action) = Session::start(Invocation {
        url: given("https://npm.local/"),
        token: absent(),
        insecure: true,
        command: Command::Login,
    });
    assert!(matches!(action, Action::Ask(Question::Email)));
    assert_eq!(Question::Email.prompt(), "Email: ");
    assert!(!Question::Email.is_secret());
    let (session, action) = session.step(Event::Entered("  me@example.com \n".into()));
    assert!(matches!(action, Action::Ask(Question::Password)));
    assert_eq!(Question::Password.prompt(), "Password: ");
    assert!(Question::Password.is_secret());
    match &session.stage {
        Stage::AskingPassword { email, .. } => assert_eq!(email, "me@example.com"),
        _ => panic!("expected the password to be asked for"),
    }
    let (session, action) = session.step(Event::Entered(" hunter2 ".into()));
    assert!(matches!(action, Action::Connect(Transport { timeout_secs: 10, insecure: true })));
    let (session, action) = session.step(Event::Ready);
    match action {
        Action::Send(request) => {
            assert_eq!(request.method, Method::Post);
            assert_eq!(request.url, "https://npm.local/api/tokens");
            assert!(request.header.is_none());
            match request.body {
                Some(Value::Record(fields)) => {
                    assert!(matches!(&fields[0].value, Value::Text(s) if s == "me@example.com"));
                    assert!(matches!(&fields[1].value, Value::Text(s) if s == " hunter2 "));
                }
                _ => panic!("expected a body"),
            }
        }
        _ => panic!("expected a request"),
    }
    let (session, action) = session.step(status(200));
    assert!(matches!(action, Action::Decode(Shape::Login)));
    let (session, action) =
        session.step(Event::Body(Payload::Login(ApiLoginResponse { token: "jwt".into() })));
    match action {
        Action::PrintLine(line) => assert_eq!(line, "jwt"),
        _ => panic!("expected the token"),
    }
    let (_, action) = session.step(Event::Ready);
    assert!(matches!(action, Action::Finish));
}

#[test]
fn a_login_fails_at_each_step() {
    let login = || Invocation {
        url: given("https://npm.local"),
        token: absent(),
        insecure: false,
        command: Command::Login,
    };
    let (_, action) = Session::start(Invocation {
        url: absent(),
        token: given("t"),
        insecure: false,
        command: Command::Login,
    });
    match action {
        Action::Fail(NproxyError::ConfigError(detail)) => {
            assert_eq!(detail, "Missing URL. Use --url or set NPROXY_URL")
        }
        _ => panic!("expected a configuration failure"),
    }

    let (session, _) = Session::start(login());
    let (_, action) = session.step(Event::Failed("stdin closed".into()));
    match action {
        Action::Fail(NproxyError::ConfigError(detail)) => assert_eq!(detail, "Failed to read input"),
        _ => panic!("expected a configuration failure"),
    }

    let (session, _) = Session::start(login());
    let (session, _) = session.step(Event::Entered("me".into()));
    let (_, action) = session.step(Event::Failed("no tty".into()));
    match action {
        Action::Fail(NproxyError::ConfigError(detail)) => {
            assert_eq!(detail, "Failed to read password")
        }
        _ => panic!("expected a configuration failure"),
    }

    let (session, _) = Session::start(Invocation {
        url: given("npm.local"),
        token: absent(),
        insecure: false,
        command: Command::Login,
    });
    let (session, _) = session.step(Event::Entered("me".into()));
    let (_, action) = session.step(Event::Entered("pw".into()));
    match action {
        Action::Fail(NproxyError::ConfigError(detail)) => {
            assert_eq!(detail, "URL must start with http:// or https://")
        }
        _ => panic!("expected a configuration failure"),
    }

    let sent = || {
        let (session, _) = Session::start(login());
        let (session, _) = session.step(Event::Entered("me".into()));
        let (session, _) = session.step(Event::Entered("pw".into()));
        let (session, _) = session.step(Event::Ready);
        session
    };
    let (_, action) = sent().step(status(401));
    match action {
        Action::Fail(NproxyError::AuthError(detail)) => assert_eq!(detail, "Invalid credentials"),
        _ => panic!("expected an authentication failure"),
    }
    let (_, action) = sent().step(status(404));
    match action {
        Action::Fail(e) => {
            assert!(matches!(e, NproxyError::NotFound(_)));
            assert_eq!(e.detail(), "Resource not found: /api/tokens");
            assert_eq!(e.exit_code(), 3);
        }
        _ => panic!("expected a missing resource"),
    }
    let (_, action) = sent().step(status(500));
    match action {
        Action::Fail(NproxyError::ApiError(detail)) => {
            assert_eq!(
                detail,
                "Login failed with status 500 Internal Server Error from /api/tokens"
            )
        }
        _ => panic!("expected an API failure"),
    }
    let (_, action) = sent().step(Event::Failed("dns".into()));
    assert!(matches!(action, Action::Fail(NproxyError::NetworkError(_))));
    let (session, _) = sent().step(status(200));
    let (_, action) = session.step(Event::Failed("missing field `token`".into()));
    match action {
        Action::Fail(NproxyError::ApiError(detail)) => {
            assert_eq!(
                detail,
                "Failed to parse login response from /api/tokens: missing field `token`"
            )
        }
        _ => panic!("expected an API failure"),
    }
}

#[test]
fn nproxy_failures_on_the_way_end_the_session() {
    let (session, _) = Session::start(invocation(Command::ListHosts));
    let (_, action) = session.step(Event::Failed("no tls backend".into()));
    assert!(matches!(action, Action::Fail(NproxyError::NetworkError(_))));

    let (session, _) = connected(Command::ListHosts);
    let (_, action) = session.step(Event::Failed("timed out".into()));
    match action {
        Action::Fail(NproxyError::NetworkError(detail)) => assert_eq!(detail, "timed out"),
        _ => panic!("expected a network failure"),
    }

    let (session, _) = connected(Command::ShowHost { id: 8 });
    let (_, action) = session.step(status(404));
    match action {
        Action::Fail(e) => {
            assert_eq!(e.detail(), "Resource not found: /api/nginx/proxy-hosts/8");
            assert_eq!(e.exit_code(), 3);
        }
        _ => panic!("expected a missing resource"),
    }

    let (session, _) = connected(Command::ListHosts);
    let (session, _) = session.step(status(200));
    let (_, action) = session.step(Event::Failed("eof".into()));
    match action {
        Action::Fail(NproxyError::ApiError(detail)) => {
            assert_eq!(detail, "Failed to parse response from /api/nginx/proxy-hosts: eof")
        }
        _ => panic!("expected an API failure"),
    }

    let (session, _) = connected(Command::ListHosts);
    let (session, _) = session.step(status(200));
    let (session, _) = session.step(Event::Body(Payload::ProxyHosts(vec![])));
    let (_, action) = session.step(Event::Failed("cannot render".into()));
    match action {
        Action::Fail(NproxyError::ApiError(detail)) => {
            assert_eq!(detail, "Failed to serialize: cannot render")
        }
        _ => panic!("expected an API failure"),
    }

    let (session, _) = connected(Command::ListHosts);
    let (session, action) = session.step(Event::Entered("x".into()));
    assert!(matches!(session.stage, Stage::Done));
    match action {
        Action::Fail(NproxyError::ApiError(detail)) => assert_eq!(detail, "Unexpected event"),
        _ => panic!("expected an API failure"),
    }
    let (_, action) = session.step(Event::Ready);
    assert!(matches!(action, Action::Fail(_)));
}
