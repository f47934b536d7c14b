//! Which origins may open a websocket.
use agent_daemon::browser_websocket::{
    request_origin, validate_origin, validate_origin_parts, AllowedOrigins, OriginParts,
};

fn allowed() -> AllowedOrigins {
    AllowedOrigins::parse(vec![
        "https://relay.example.com".to_string(),
        "http://127.0.0.1:8788".to_string(),
    ])
    .unwrap()
}

#[test]
fn accepts_only_canonical_browser_serialized_origins() {
    for origin in [
        "https://relay.example.com",
        "https://relay.example.com:8443",
        "http://127.0.0.1:8788",
        "http://[::1]:8788",
    ] {
        validate_origin(origin).expect(origin);
    }
    for origin in [
        "",
        "null",
        "ws://relay.example.com",
        "https://user@relay.example.com",
        "https://relay.example.com/",
        "https://relay.example.com/path",
        "https://relay.example.com?query",
        "https://relay.example.com#fragment",
        "HTTPS://relay.example.com",
        "https://RELAY.example.com",
        "https://relay.example.com:443",
        "http://127.0.0.1:80",
        "https://relay.example.com.",
        "https://relay%2eexample.com",
    ] {
        assert!(validate_origin(origin).is_err(), "{origin}");
    }
}

#[test]
fn configured_origins_are_required_and_unique() {
    assert!(AllowedOrigins::parse(Vec::new()).is_err());
    assert!(AllowedOrigins::parse(vec![
        "https://relay.example.com".to_string(),
        "https://relay.example.com".to_string(),
    ])
    .is_err());
}

#[test]
fn refused_origins_tell_the_reason() {
    let refused = |origin: &str| validate_origin(origin).unwrap_err().message;
    assert_eq!(refused("null"), "origin must not be empty or null");
    assert_eq!(refused("relay"), "invalid origin: relay");
    assert_eq!(
        refused("ws://relay.example.com"),
        "origin must use http or https: ws://relay.example.com"
    );
    assert_eq!(
        refused("blob:https://relay.example.com"),
        "origin must use http or https: blob:https://relay.example.com"
    );
    let nested = "blob:".repeat(100_000) + "https://relay.example.com";
    assert_eq!(refused(&nested), format!("origin must use http or https: {nested}"));
    assert_eq!(request_origin(&vec![Some(nested)]), None);
    assert_eq!(
        refused("https://relay.example.com."),
        "origin host must not end with a dot: https://relay.example.com."
    );
    assert_eq!(
        refused("https://RELAY.example.com:443/x"),
        "origin must be its canonical browser serialization (https://relay.example.com): https://RELAY.example.com:443/x"
    );
    assert_eq!(
        AllowedOrigins::parse(Vec::new()).unwrap_err().message,
        "at least one allowed origin is required"
    );
    let twice = vec!["http://a.example".to_string(), "http://a.example".to_string(), "x".to_string()];
    assert_eq!(
        AllowedOrigins::parse(twice).unwrap_err().message,
        "duplicate allowed origin: http://a.example"
    );
}

#[test]
fn origins_are_judged_by_their_parts() {
    let parts = |scheme: &str, host: Option<&str>, canonical: &str| {
        Some(OriginParts {
            scheme: scheme.to_string(),
            host: host.map(str::to_string),
            canonical: canonical.to_string(),
        })
    };
    assert!(validate_origin_parts("http://h", &parts("http", Some("h"), "http://h")).is_ok());
    assert!(validate_origin_parts("http://h", &parts("http", Some("h."), "http://h")).is_err());
    assert!(validate_origin_parts("http://h", &parts("file", None, "http://h")).is_err());
    assert!(validate_origin_parts("http://h", &parts("http", None, "http://i")).is_err());
    assert!(validate_origin_parts("http://h", &None).is_err());
}

#[test]
fn exactly_one_configured_origin_is_accepted() {
    let header = |value: &str| Some(value.to_string());
    let allowed = allowed();
    assert!(allowed.accepts(&vec![header("https://relay.example.com")]));
    assert!(allowed.accepts(&vec![header("http://127.0.0.1:8788")]));
    for refused in [
        Vec::new(),
        vec![None],
        vec![header("null")],
        vec![header("https://relay.example.com"), header("https://relay.example.com")],
        vec![header("https://relay.example.com.evil.test")],
        vec![header("https://relay.example.com/")],
        vec![header("https://other.example.com")],
    ] {
        assert!(!allowed.accepts(&refused));
    }
    assert!(allowed.contains("http://127.0.0.1:8788"));
    assert!(!allowed.contains("http://127.0.0.1"));
    assert_eq!(
        request_origin(&vec![header("https://other.example.com")]),
        Some("https://other.example.com")
    );
    assert_eq!(request_origin(&vec![header("other")]), None);
}
