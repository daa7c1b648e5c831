use park::config::{
    address_from_argument, bind_from_argument, parse_address, BindArgument, IpAddress,
    ServerSettings,
};
use park::text::decimal_text;
use park::{
    default_bind, default_client_timeout, default_max_connections, default_max_size,
    default_server_timeout, ConfigError, Database, Scheme, Server,
};

fn is_loopback(ip: IpAddress) -> bool {
    matches!(ip, IpAddress::V4([127, 0, 0, 1]))
}

#[test]
fn defaults_are_documented_values() {
    assert_eq!(default_max_size(), 10 * 1024 * 1024);
    assert_eq!(default_max_connections(), 10);
    assert_eq!(default_client_timeout(), 10);
    assert_eq!(default_server_timeout(), 10);
    let bind = default_bind();
    assert!(is_loopback(bind.ip));
    assert_eq!(bind.port, 3000);
}

#[test]
fn http_address_with_port_is_accepted() {
    let a = parse_address("http://upstream.example:8443").ok().unwrap();
    assert_eq!(a.scheme, Scheme::Http);
    assert_eq!(a.host, "upstream.example");
    assert_eq!(a.port, Some(8443));
    assert_eq!(a.origin(), "http://upstream.example:8443");
}

#[test]
fn default_port_is_left_out() {
    let a = parse_address("https://Example.COM:443/some/path").ok().unwrap();
    assert_eq!(a.scheme, Scheme::Https);
    assert_eq!(a.host, "example.com");
    assert_eq!(a.port, None);
    assert_eq!(a.origin(), "https://example.com");
}

#[test]
fn ipv6_host_keeps_brackets() {
    let a = parse_address("http://[::1]:8080").ok().unwrap();
    assert_eq!(a.host, "[::1]");
    assert_eq!(a.origin(), "http://[::1]:8080");
}

#[test]
fn other_scheme_is_refused() {
    assert!(matches!(parse_address("ftp://example.com"), Err(ConfigError::UnsupportedScheme)));
}

#[test]
fn address_without_host_is_refused() {
    assert!(matches!(parse_address("unix:/run/foo.socket"), Err(ConfigError::MissingHost)));
}

#[test]
fn text_that_is_no_url_is_refused() {
    assert!(matches!(parse_address("not a url"), Err(ConfigError::InvalidUrl)));
    assert!(matches!(parse_address(""), Err(ConfigError::InvalidUrl)));
}

#[test]
fn socket_argument_is_promoted_to_http() {
    let a = address_from_argument("127.0.0.1:8080", Some("127.0.0.1:8080".to_string()))
        .ok()
        .unwrap();
    assert_eq!(a.scheme, Scheme::Http);
    assert_eq!(a.host, "127.0.0.1");
    assert_eq!(a.port, Some(8080));
}

#[test]
fn url_argument_is_taken_as_is() {
    let a = address_from_argument("https://up.test", None).ok().unwrap();
    assert_eq!(a.scheme, Scheme::Https);
    assert_eq!(a.host, "up.test");
    assert!(matches!(
        address_from_argument("mailto:someone@example.com", None),
        Err(ConfigError::MissingHost)
    ));
}

#[test]
fn bind_argument_forms() {
    let b = bind_from_argument(BindArgument::Port(8080)).ok().unwrap();
    assert!(is_loopback(b.ip));
    assert_eq!(b.port, 8080);
    let s = park::BindAddress { ip: IpAddress::V4([0, 0, 0, 0]), port: 9 };
    let b = bind_from_argument(BindArgument::Socket(s)).ok().unwrap();
    assert!(matches!(b.ip, IpAddress::V4([0, 0, 0, 0])));
    assert_eq!(b.port, 9);
    assert!(matches!(bind_from_argument(BindArgument::Missing), Err(ConfigError::MissingBind)));
    assert!(matches!(bind_from_argument(BindArgument::Invalid), Err(ConfigError::InvalidBind)));
}

#[test]
fn database_size_defaults_to_ten_mebibytes() {
    let d = Database::new("sqlite::memory:".to_string(), None);
    assert_eq!(d.uri, "sqlite::memory:");
    assert_eq!(d.max_size, 10485760);
    let d = Database::new("sqlite::memory:".to_string(), Some(5));
    assert_eq!(d.max_size, 5);
}

#[test]
fn server_settings_take_defaults() {
    let address = parse_address("http://up:80").ok().unwrap();
    let given = ServerSettings {
        bind: None,
        max_connections: None,
        client_timeout: Some(3),
        server_timeout: None,
        ssl_cert: Some("cert.pem".to_string()),
        ssl_key: None,
    };
    let s = Server::new(address, given);
    assert!(is_loopback(s.bind.ip));
    assert_eq!(s.bind.port, 3000);
    assert_eq!(s.max_connections, 10);
    assert_eq!(s.client_timeout, 3);
    assert_eq!(s.server_timeout, 10);
    assert!(!s.tls_enabled());
    assert_eq!(s.address.port, None);
}

#[test]
fn tls_needs_certificate_and_key() {
    let address = parse_address("http://up").ok().unwrap();
    let given = ServerSettings {
        bind: None,
        max_connections: None,
        client_timeout: None,
        server_timeout: None,
        ssl_cert: Some("cert.pem".to_string()),
        ssl_key: Some("key.pem".to_string()),
    };
    assert!(Server::new(address, given).tls_enabled());
}

#[test]
fn decimal_text_writes_digits() {
    assert_eq!(decimal_text(0), "0");
    assert_eq!(decimal_text(7), "7");
    assert_eq!(decimal_text(1234), "1234");
    assert_eq!(decimal_text(u64::MAX), "18446744073709551615");
}
