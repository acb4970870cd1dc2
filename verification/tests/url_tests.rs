use buildforge::errors::ProtocolError;
use buildforge::url::prepare_request;

#[test]
fn absolute_url_yields_connection_plan() {
    let plan = prepare_request("https://dl.google.com/go/go1.21.0linux.tar.gz").unwrap();
    assert_eq!(plan.host, "dl.google.com");
    assert_eq!(plan.port, 443);
    assert_eq!(plan.authority, "dl.google.com");
    assert_eq!(plan.url, "https://dl.google.com/go/go1.21.0linux.tar.gz");
}

#[test]
fn explicit_port_is_kept() {
    let plan = prepare_request("https://mirror.example:8443/file.tar.gz").unwrap();
    assert_eq!(plan.host, "mirror.example");
    assert_eq!(plan.port, 8443);
    assert_eq!(plan.authority, "mirror.example:8443");
}

#[test]
fn relative_target_is_malformed() {
    let e = prepare_request("/hello/world").unwrap_err();
    assert_eq!(
        e,
        ProtocolError::MalformedUrl {
            url: "/hello/world".to_string()
        }
    );
}

#[test]
fn garbage_target_is_malformed() {
    let e = prepare_request("ht tp://bad target").unwrap_err();
    assert!(matches!(e, ProtocolError::MalformedUrl { .. }));
}

#[test]
fn scheme_only_target_is_malformed() {
    assert!(prepare_request("https://").is_err());
}
