use mgmt_clients::config::Setting;
use mgmt_clients::document::{put, Field, Value};
use mgmt_clients::nproxy::error::NproxyError;
use mgmt_clients::output::ErrorOutput;
use mgmt_clients::portainer::error::PortainerError;

fn to_yaml(v: &Value) -> serde_yaml::Value {
    match v {
        Value::Int(n) => serde_yaml::Value::from(*n),
        Value::Bool(b) => serde_yaml::Value::from(*b),
        Value::Text(s) => serde_yaml::Value::from(s.as_str()),
        Value::List(items) => serde_yaml::Value::Sequence(items.iter().map(to_yaml).collect()),
        Value::Record(fields) => {
            let mut mapping = serde_yaml::Mapping::new();
            for f in fields {
                mapping.insert(serde_yaml::Value::from(f.key.as_str()), to_yaml(&f.value));
            }
            serde_yaml::Value::Mapping(mapping)
        }
    }
}

#[test]
fn test_yaml_serialization_format() {
    let mut fields: Vec<Field> = Vec::new();
    put(&mut fields, "name", Value::text("test"));
    put(&mut fields, "value", Value::Int(42));
    let data = Value::Record(fields);
    let yaml = serde_yaml::to_string(&to_yaml(&data)).unwrap();
    assert!(yaml.contains("name: test"));
    assert!(yaml.contains("value: 42"));
}

#[test]
fn test_error_output_format() {
    let err = NproxyError::ConfigError("test message".into());
    let output = err.to_output();
    let yaml = serde_yaml::to_string(&to_yaml(&output.document())).unwrap();
    assert!(yaml.contains("code: CONFIG_ERROR"));
    assert!(yaml.contains("message:"));
}

#[test]
fn error_report_has_two_fields_under_error() {
    let err = PortainerError::AuthError("Invalid or expired token".into());
    let output = err.to_output();
    assert_eq!(output.error.code, "AUTH_FAILED");
    assert_eq!(output.error.message, "Authentication failed: Invalid or expired token");
    match output.document() {
        Value::Record(fields) => {
            assert_eq!(fields.len(), 1);
            assert_eq!(fields[0].key, "error");
            match &fields[0].value {
                Value::Record(inner) => {
                    assert_eq!(inner.len(), 2);
                    assert_eq!(inner[0].key, "code");
                    assert!(matches!(&inner[0].value, Value::Text(s) if s == "AUTH_FAILED"));
                    assert_eq!(inner[1].key, "message");
                    assert!(matches!(
                        &inner[1].value,
                        Value::Text(s) if s == "Authentication failed: Invalid or expired token"
                    ));
                }
                _ => panic!("expected a record"),
            }
        }
        _ => panic!("expected a record"),
    }
    let yaml = serde_yaml::to_string(&to_yaml(&output.document())).unwrap();
    assert_eq!(
        yaml,
        "error:\n  code: AUTH_FAILED\n  message: 'Authentication failed: Invalid or expired token'\n"
    );
}

#[test]
fn fallback_line_names_the_message() {
    let output = ErrorOutput::new("API_ERROR", "API error: boom".into());
    assert_eq!(output.fallback_line(), "error: API error: boom");
    assert_eq!(output.error.code, "API_ERROR");
    let detail = output.error.document();
    assert!(matches!(detail, Value::Record(fields) if fields.len() == 2));
}

#[test]
fn text_lists_keep_their_order() {
    let names = vec!["b".to_string(), "a".to_string()];
    match Value::text_list(&names) {
        Value::List(items) => {
            assert_eq!(items.len(), 2);
            assert!(matches!(&items[0], Value::Text(s) if s == "b"));
            assert!(matches!(&items[1], Value::Text(s) if s == "a"));
        }
        _ => panic!("expected a list"),
    }
    assert!(matches!(Value::text_list(&vec![]), Value::List(items) if items.is_empty()));
}

#[test]
fn the_command_line_is_heard_before_the_environment() {
    let both = Setting { flag: Some("flag".into()), env: Some("env".into()) };
    assert_eq!(both.resolve().as_deref(), Some("flag"));
    let env_only = Setting { flag: None, env: Some("env".into()) };
    assert_eq!(env_only.resolve().as_deref(), Some("env"));
    let flag_only = Setting { flag: Some("flag".into()), env: None };
    assert_eq!(flag_only.resolve().as_deref(), Some("flag"));
    let neither = Setting { flag: None, env: None };
    assert_eq!(neither.resolve(), None);
}
