use am::endpoint::{endpoint_parser, EndpointParseError};

fn parse_ok(input: &str) -> String {
    endpoint_parser(input).expect("expected no error").render()
}

#[test]
fn bare_host_gets_scheme_port_and_path() {
    assert_eq!(parse_ok("127.0.0.1"), "http://127.0.0.1:80/metrics");
}

#[test]
fn https_host_gets_default_https_port() {
    assert_eq!(parse_ok("https://127.0.0.1"), "https://127.0.0.1:443/metrics");
}

#[test]
fn host_and_port_get_default_path() {
    assert_eq!(parse_ok("localhost:3030"), "http://localhost:3030/metrics");
}

#[test]
fn explicit_path_is_preserved_verbatim() {
    assert_eq!(
        parse_ok("localhost:3030/api/metrics"),
        "http://localhost:3030/api/metrics"
    );
    assert_eq!(
        parse_ok("localhost:3030/api/observability"),
        "http://localhost:3030/api/observability"
    );
}

#[test]
fn bare_port_defaults_to_localhost() {
    assert_eq!(parse_ok(":3000"), "http://localhost:3000/metrics");
}

#[test]
fn bare_port_with_path_keeps_the_path() {
    assert_eq!(
        parse_ok(":3030/api/observability"),
        "http://localhost:3030/api/observability"
    );
}

#[test]
fn parsed_parts_are_exposed() {
    let u = endpoint_parser("https://example.com:8443/a/b").expect("expected no error");
    assert_eq!(u.scheme, "https");
    assert_eq!(u.host, "example.com");
    assert_eq!(u.port, "8443");
    assert_eq!(u.path, "/a/b");
    assert_eq!(u.authority(), "example.com:8443");
}

#[test]
fn other_schemes_are_rejected() {
    assert!(endpoint_parser("ftp://localhost").is_err());
}

#[test]
fn garbage_is_rejected() {
    assert!(endpoint_parser("not a valid url at all").is_err());
}

#[test]
fn empty_input_is_rejected() {
    assert!(matches!(endpoint_parser(""), Err(EndpointParseError::InvalidHost)));
}

#[test]
fn scheme_without_host_is_rejected() {
    assert!(matches!(endpoint_parser("http://"), Err(EndpointParseError::InvalidHost)));
    assert!(matches!(endpoint_parser("https://:3000"), Err(EndpointParseError::InvalidHost)));
}

#[test]
fn bad_ports_are_rejected() {
    assert!(matches!(endpoint_parser("localhost:"), Err(EndpointParseError::InvalidPort)));
    assert!(matches!(endpoint_parser("localhost:12ab"), Err(EndpointParseError::InvalidPort)));
    assert!(matches!(endpoint_parser("localhost:65536"), Err(EndpointParseError::InvalidPort)));
    assert_eq!(parse_ok("localhost:65535"), "http://localhost:65535/metrics");
}

#[test]
fn space_in_path_is_rejected() {
    assert!(matches!(
        endpoint_parser("localhost:3000/a b"),
        Err(EndpointParseError::InvalidPath)
    ));
}

#[test]
fn endpoint_parser_ok() {
    let cases = [
        ("127.0.0.1", "http://127.0.0.1:80/metrics"),
        ("https://127.0.0.1", "https://127.0.0.1:443/metrics"),
        ("localhost:3030", "http://localhost:3030/metrics"),
        ("localhost:3030/api/metrics", "http://localhost:3030/api/metrics"),
        (
            "localhost:3030/api/observability",
            "http://localhost:3030/api/observability",
        ),
        (":3000", "http://localhost:3000/metrics"),
        (":3030/api/observability", "http://localhost:3030/api/observability"),
    ];
    for (input, expected) in cases {
        assert_eq!(parse_ok(input), expected, "for input {input:?}");
    }
}

#[test]
fn endpoint_parser_error() {
    for input in ["ftp://localhost", "not a valid url at all"] {
        assert!(endpoint_parser(input).is_err(), "for input {input:?}");
    }
}

#[test]
fn lone_slash_path_becomes_metrics() {
    assert_eq!(parse_ok("localhost:3030/"), "http://localhost:3030/metrics");
}
