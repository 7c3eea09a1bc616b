use mgmt_clients::document::Value;
use mgmt_clients::nproxy::models::{
    ApiCertificate, ApiProxyHost, CertificateList, ProxyHostList,
};

fn keys(v: &Value) -> Vec<String> {
    match v {
        Value::Record(fields) => fields.iter().map(|f| f.key.clone()).collect(),
        _ => panic!("not a record"),
    }
}

fn field<'a>(v: &'a Value, key: &str) -> &'a Value {
    match v {
        Value::Record(fields) => match fields.iter().find(|f| f.key == key) {
            Some(f) => &f.value,
            None => panic!("no such key"),
        },
        _ => panic!("not a record"),
    }
}

fn host() -> ApiProxyHost {
    ApiProxyHost {
        id: 1,
        domain_names: vec!["example.com".into()],
        forward_scheme: "https".into(),
        forward_host: "backend".into(),
        forward_port: 8080,
        certificate_id: Some(5),
        ssl_forced: true,
        block_exploits: true,
        caching_enabled: false,
        allow_websocket_upgrade: true,
        enabled: true,
        advanced_config: String::new(),
    }
}

#[test]
fn test_proxy_host_to_list_item() {
    let host = ApiProxyHost {
        id: 1,
        domain_names: vec!["example.com".into()],
        forward_scheme: "https".into(),
        forward_host: "backend".into(),
        forward_port: 8080,
        certificate_id: Some(5),
        ssl_forced: true,
        block_exploits: true,
        caching_enabled: false,
        allow_websocket_upgrade: true,
        enabled: true,
        advanced_config: String::new(),
    };

    let item = host.to_list_item();
    assert_eq!(item.id, 1);
    assert_eq!(item.domain_names, vec!["example.com"]);
    assert_eq!(item.forward_host, "backend");
    assert_eq!(item.forward_port, 8080);
    assert!(item.ssl_forced);
    assert!(item.enabled);
}

#[test]
fn test_certificate_to_list_item() {
    let cert = ApiCertificate {
        id: 1,
        provider: "letsencrypt".into(),
        nice_name: "My Cert".into(),
        domain_names: vec!["example.com".into()],
        expires_on: "2024-12-31".into(),
    };

    let item = cert.to_list_item();
    assert_eq!(item.id, 1);
    assert_eq!(item.nice_name, "My Cert");
    assert_eq!(item.provider, "letsencrypt");
    assert_eq!(item.expires_on, "2024-12-31");
}

#[test]
fn proxy_host_detail_keeps_every_fact() {
    let shown = host().to_proxy_host();
    assert_eq!(shown.id, 1);
    assert_eq!(shown.domain_names, vec!["example.com"]);
    assert_eq!(shown.forward_scheme, "https");
    assert_eq!(shown.forward_host, "backend");
    assert_eq!(shown.forward_port, 8080);
    assert_eq!(shown.certificate_id, Some(5));
    assert!(shown.ssl_forced);
    assert!(shown.block_exploits);
    assert!(!shown.caching_enabled);
    assert!(shown.websocket);
    assert!(shown.enabled);
    assert_eq!(shown.advanced_config, "");
}

#[test]
fn proxy_host_detail_shows_optional_fields_only_when_set() {
    let doc = host().to_proxy_host().document();
    assert_eq!(
        keys(&doc),
        vec![
            "id", "domainNames", "forwardScheme", "forwardHost", "forwardPort",
            "certificateId", "sslForced", "blockExploits", "cachingEnabled", "websocket",
            "enabled",
        ]
    );
    assert!(matches!(field(&doc, "certificateId"), Value::Int(5)));
    assert!(matches!(field(&doc, "websocket"), Value::Bool(true)));
    assert!(matches!(field(&doc, "cachingEnabled"), Value::Bool(false)));
    assert!(matches!(field(&doc, "forwardPort"), Value::Int(8080)));

    let mut bare = host();
    bare.certificate_id = None;
    let doc = bare.to_proxy_host().document();
    assert_eq!(
        keys(&doc),
        vec![
            "id", "domainNames", "forwardScheme", "forwardHost", "forwardPort", "sslForced",
            "blockExploits", "cachingEnabled", "websocket", "enabled",
        ]
    );

    let mut advanced = host();
    advanced.certificate_id = None;
    advanced.advanced_config = "client_max_body_size 1g;".into();
    let doc = advanced.to_proxy_host().document();
    assert_eq!(
        keys(&doc),
        vec![
            "id", "domainNames", "forwardScheme", "forwardHost", "forwardPort", "sslForced",
            "blockExploits", "cachingEnabled", "websocket", "enabled", "advancedConfig",
        ]
    );
    match field(&doc, "advancedConfig") {
        Value::Text(s) => assert_eq!(s, "client_max_body_size 1g;"),
        _ => panic!("not a text"),
    }
}

#[test]
fn proxy_host_list_item_is_within_the_detail_view() {
    let item = host().to_list_item().document();
    let detail = host().to_proxy_host().document();
    assert_eq!(
        keys(&item),
        vec!["id", "domainNames", "forwardHost", "forwardPort", "sslForced", "enabled"]
    );
    let detail_keys = keys(&detail);
    for key in keys(&item) {
        assert!(detail_keys.contains(&key));
    }
    assert!(detail_keys.contains(&"forwardScheme".to_string()));
    assert!(!keys(&item).contains(&"forwardScheme".to_string()));
    match field(&item, "domainNames") {
        Value::List(names) => {
            assert_eq!(names.len(), 1);
            assert!(matches!(&names[0], Value::Text(s) if s == "example.com"));
        }
        _ => panic!("not a list"),
    }
}

#[test]
fn certificate_views_show_their_fields_in_order() {
    let cert = ApiCertificate {
        id: 4,
        provider: "letsencrypt".into(),
        nice_name: "My Cert".into(),
        domain_names: vec!["a.example.com".into(), "b.example.com".into()],
        expires_on: "2024-12-31".into(),
    };
    let detail = cert.to_certificate();
    assert_eq!(detail.id, 4);
    assert_eq!(detail.provider, "letsencrypt");
    assert_eq!(detail.nice_name, "My Cert");
    assert_eq!(detail.domain_names, vec!["a.example.com", "b.example.com"]);
    assert_eq!(detail.expires_on, "2024-12-31");
    let doc = detail.document();
    assert_eq!(keys(&doc), vec!["id", "provider", "niceName", "domainNames", "expiresOn"]);
    match field(&doc, "domainNames") {
        Value::List(names) => {
            assert_eq!(names.len(), 2);
            assert!(matches!(&names[1], Value::Text(s) if s == "b.example.com"));
        }
        _ => panic!("not a list"),
    }
    let item = cert.to_list_item().document();
    assert_eq!(keys(&item), vec!["id", "niceName", "provider", "expiresOn"]);
    for key in keys(&item) {
        assert!(keys(&doc).contains(&key));
    }
}

#[test]
fn nproxy_lists_keep_the_order_of_the_response() {
    let mut second = host();
    second.id = 2;
    second.forward_host = "other".into();
    let list = ProxyHostList::from_api(&vec![second, host()]);
    assert_eq!(list.hosts.len(), 2);
    assert_eq!(list.hosts[0].id, 2);
    assert_eq!(list.hosts[0].forward_host, "other");
    assert_eq!(list.hosts[1].id, 1);
    let doc = list.document();
    assert_eq!(keys(&doc), vec!["hosts"]);
    match field(&doc, "hosts") {
        Value::List(items) => {
            assert_eq!(items.len(), 2);
            assert!(matches!(field(&items[0], "id"), Value::Int(2)));
        }
        _ => panic!("not a list"),
    }

    let certs = vec![
        ApiCertificate {
            id: 9, provider: "other".into(), nice_name: "n".into(),
            domain_names: vec![], expires_on: "never".into(),
        },
    ];
    let list = CertificateList::from_api(&certs);
    assert_eq!(list.certificates.len(), 1);
    assert_eq!(list.certificates[0].id, 9);
    let doc = list.document();
    assert_eq!(keys(&doc), vec!["certificates"]);
    match field(&doc, "certificates") {
        Value::List(items) => {
            assert_eq!(items.len(), 1);
            assert_eq!(keys(&items[0]), vec!["id", "niceName", "provider", "expiresOn"]);
        }
        _ => panic!("not a list"),
    }
}
