use vstd::prelude::*;

use crate::text::{decimal, decimal_text, opt_text, same_text};

verus! {

/// Default bound on the capture store's size in bytes (10 MiB).
pub const DEFAULT_MAX_SIZE: u64 = 10485760;

/// Default admission hint for concurrent connections.
pub const DEFAULT_MAX_CONNECTIONS: usize = 10;

/// Default timeout, in seconds, for the downstream client to send a request.
pub const DEFAULT_CLIENT_TIMEOUT: usize = 10;

/// Default timeout, in seconds, for the upstream round trip.
pub const DEFAULT_SERVER_TIMEOUT: u64 = 10;

/// Default listening port on the loopback address.
pub const DEFAULT_BIND_PORT: u16 = 3000;

pub fn default_max_size() -> (r: u64)
    ensures
        r == 10 * 1024 * 1024,
{
    DEFAULT_MAX_SIZE
}

pub fn default_max_connections() -> (r: usize)
    ensures
        r == 10,
{
    DEFAULT_MAX_CONNECTIONS
}

pub fn default_client_timeout() -> (r: usize)
    ensures
        r == 10,
{
    DEFAULT_CLIENT_TIMEOUT
}

pub fn default_server_timeout() -> (r: u64)
    ensures
        r == 10,
{
    DEFAULT_SERVER_TIMEOUT
}

/// Why a configuration was refused.
#[derive(Clone, Copy, Debug, PartialEq, Eq, Structural)]
pub enum ConfigError {
    /// The upstream address is not an absolute URL.
    InvalidUrl,
    /// The upstream URL has no host.
    MissingHost,
    /// The upstream URL's scheme is neither `http` nor `https`.
    UnsupportedScheme,
    /// No bind address was given where one is needed.
    MissingBind,
    /// The bind argument is neither a port nor a socket address.
    InvalidBind,
}

/// The scheme of the upstream origin.
#[derive(Clone, Copy, Debug, PartialEq, Eq, Structural)]
pub enum Scheme {
    Http,
    Https,
}

/// What a URL parse yields that the configuration reads: the lowercase
/// scheme, the host (IPv6 in brackets) and the port unless it is the
/// scheme's default.
pub struct UrlParts {
    pub scheme: String,
    pub host: Option<String>,
    pub port: Option<u16>,
}

impl View for UrlParts {
    type V = (Seq<char>, Option<Seq<char>>, Option<u16>);

    open spec fn view(&self) -> Self::V {
        (self.scheme@, opt_text(self.host), self.port)
    }
}

/// What `url::Url::parse` yields on a text, as scheme, host and port.
pub uninterp spec fn url_parts_of(text: Seq<char>) -> Option<(Seq<char>, Option<Seq<char>>, Option<u16>)>;

/// Relies on `url::Url::parse`, and on the `scheme`, `host_str` and `port`
/// accessors of the URL it returns.
#[verifier::external_body]
fn parse_url(text: &str) -> (r: Option<UrlParts>)
    ensures
        match r {
            Some(p) => url_parts_of(text@) == Some(p@),
            None => url_parts_of(text@).is_none(),
        },
{
    match url::Url::parse(text) {
        Ok(u) => Some(
            UrlParts {
                scheme: u.scheme().to_string(),
                host: u.host_str().map(str::to_string),
                port: u.port(),
            },
        ),
        Err(_) => None,
    }
}

/// The upstream origin that requests are forwarded to.
pub struct UpstreamAddress {
    pub scheme: Scheme,
    pub host: String,
    pub port: Option<u16>,
}

impl View for UpstreamAddress {
    type V = (Scheme, Seq<char>, Option<u16>);

    open spec fn view(&self) -> Self::V {
        (self.scheme, self.host@, self.port)
    }
}

pub open spec fn scheme_text(s: Scheme) -> Seq<char> {
    match s {
        Scheme::Http => seq!['h', 't', 't', 'p'],
        Scheme::Https => seq!['h', 't', 't', 'p', 's'],
    }
}

/// The upstream address that a parse result stands for, or why it is refused.
pub open spec fn address_of(
    parts: Option<(Seq<char>, Option<Seq<char>>, Option<u16>)>,
) -> Result<(Scheme, Seq<char>, Option<u16>), ConfigError> {
    match parts {
        None => Err(ConfigError::InvalidUrl),
        Some((scheme, host, port)) => match host {
            None => Err(ConfigError::MissingHost),
            Some(h) => if scheme == scheme_text(Scheme::Http) {
                Ok((Scheme::Http, h, port))
            } else if scheme == scheme_text(Scheme::Https) {
                Ok((Scheme::Https, h, port))
            } else {
                Err(ConfigError::UnsupportedScheme)
            },
        },
    }
}

pub open spec fn address_result_view(r: Result<UpstreamAddress, ConfigError>) -> Result<
    (Scheme, Seq<char>, Option<u16>),
    ConfigError,
> {
    match r {
        Ok(a) => Ok(a@),
        Err(e) => Err(e),
    }
}

/// Accepts a parsed URL as the upstream address when it has a host and its
/// scheme is `http` or `https`.
pub fn validate_address(parts: Option<UrlParts>) -> (r: Result<UpstreamAddress, ConfigError>)
    ensures
        address_result_view(r) == address_of(
            match parts {
                Some(p) => Some(p@),
                None => None,
            },
        ),
{
    proof {
        reveal_strlit("http");
        reveal_strlit("https");
        assert("http"@ =~= scheme_text(Scheme::Http));
        assert("https"@ =~= scheme_text(Scheme::Https));
    }
    match parts {
        None => Err(ConfigError::InvalidUrl),
        Some(p) => match p.host {
            None => Err(ConfigError::MissingHost),
            Some(host) => {
                if same_text(p.scheme.as_str(), "http") {
                    Ok(UpstreamAddress { scheme: Scheme::Http, host, port: p.port })
                } else if same_text(p.scheme.as_str(), "https") {
                    Ok(UpstreamAddress { scheme: Scheme::Https, host, port: p.port })
                } else {
                    Err(ConfigError::UnsupportedScheme)
                }
            },
        },
    }
}

/// Parses and validates the configured upstream address.
pub fn parse_address(text: &str) -> (r: Result<UpstreamAddress, ConfigError>)
    ensures
        address_result_view(r) == address_of(url_parts_of(text@)),
{
    validate_address(parse_url(text))
}

/// The text that a command-line address stands for: a socket address is
/// promoted to an `http` URL, anything else is taken as a URL.
pub open spec fn argument_url(arg: Seq<char>, socket: Option<Seq<char>>) -> Seq<char> {
    match socket {
        Some(s) => seq!['h', 't', 't', 'p', ':', '/', '/'] + s,
        None => arg,
    }
}

/// Resolves the upstream address given on the command line. `socket` is the
/// argument's text as a socket address, where it reads as one.
pub fn address_from_argument(arg: &str, socket: Option<String>) -> (r: Result<
    UpstreamAddress,
    ConfigError,
>)
    ensures
        address_result_view(r) == address_of(url_parts_of(argument_url(arg@, opt_text(socket)))),
{
    match socket {
        Some(s) => {
            let mut text = String::from_str("http://");
            proof {
                reveal_strlit("http://");
            }
            text.append(s.as_str());
            assert(text@ =~= argument_url(arg@, opt_text(Some(s))));
            parse_address(text.as_str())
        },
        None => parse_address(arg),
    }
}

impl UpstreamAddress {
    /// The origin: scheme, host and, where it is not the default, the port.
    pub open spec fn origin_spec(&self) -> Seq<char> {
        scheme_text(self.scheme) + seq![':', '/', '/'] + self.host@ + match self.port {
            Some(p) => seq![':'] + decimal(p as nat),
            None => Seq::empty(),
        }
    }

    pub fn origin(&self) -> (r: String)
        ensures
            r@ == self.origin_spec(),
    {
        proof {
            reveal_strlit("http://");
            reveal_strlit("https://");
            reveal_strlit(":");
        }
        let mut r = match self.scheme {
            Scheme::Http => String::from_str("http://"),
            Scheme::Https => String::from_str("https://"),
        };
        r.append(self.host.as_str());
        if let Some(p) = self.port {
            r.append(":");
            let digits = decimal_text(p as u64);
            r.append(digits.as_str());
        }
        assert(r@ =~= self.origin_spec());
        r
    }
}

/// An IP address to listen on.
#[derive(Clone, Copy, Debug)]
pub enum IpAddress {
    V4([u8; 4]),
    V6([u16; 8]),
}

/// The socket address the proxy listens on.
#[derive(Clone, Copy, Debug)]
pub struct BindAddress {
    pub ip: IpAddress,
    pub port: u16,
}

pub open spec fn is_loopback_v4(ip: IpAddress) -> bool {
    match ip {
        IpAddress::V4(o) => o@ == seq![127u8, 0u8, 0u8, 1u8],
        IpAddress::V6(_) => false,
    }
}

/// The loopback address 127.0.0.1 with the given port.
pub fn loopback(port: u16) -> (r: BindAddress)
    ensures
        is_loopback_v4(r.ip),
        r.port == port,
{
    let r = BindAddress { ip: IpAddress::V4([127u8, 0u8, 0u8, 1u8]), port };
    assert(match r.ip {
        IpAddress::V4(o) => o@ =~= seq![127u8, 0u8, 0u8, 1u8],
        IpAddress::V6(_) => false,
    });
    r
}

pub fn default_bind() -> (r: BindAddress)
    ensures
        is_loopback_v4(r.ip),
        r.port == 3000,
{
    loopback(DEFAULT_BIND_PORT)
}

/// The bind argument of the command line, as read: absent, a bare port, a
/// socket address, or neither.
#[derive(Clone, Copy, Debug)]
pub enum BindArgument {
    Missing,
    Port(u16),
    Socket(BindAddress),
    Invalid,
}

/// Resolves the bind argument: a bare port listens on the loopback address.
pub fn bind_from_argument(arg: BindArgument) -> (r: Result<BindAddress, ConfigError>)
    ensures
        match arg {
            BindArgument::Missing => r == Err::<BindAddress, ConfigError>(ConfigError::MissingBind),
            BindArgument::Invalid => r == Err::<BindAddress, ConfigError>(ConfigError::InvalidBind),
            BindArgument::Port(p) => r is Ok && is_loopback_v4(r->Ok_0.ip) && r->Ok_0.port == p,
            BindArgument::Socket(s) => r == Ok::<BindAddress, ConfigError>(s),
        },
{
    match arg {
        BindArgument::Missing => Err(ConfigError::MissingBind),
        BindArgument::Invalid => Err(ConfigError::InvalidBind),
        BindArgument::Port(p) => Ok(loopback(p)),
        BindArgument::Socket(s) => Ok(s),
    }
}

/// The capture store's settings.
pub struct Database {
    /// Database URI.
    pub uri: String,
    /// Size in bytes above which the store is compacted.
    pub max_size: u64,
}

impl Database {
    /// Settings with the default size bound where none is given.
    pub fn new(uri: String, max_size: Option<u64>) -> (r: Database)
        ensures
            r.uri@ == uri@,
            r.max_size == match max_size {
                Some(m) => m,
                None => 10485760u64,
            },
    {
        let max_size = match max_size {
            Some(m) => m,
            None => default_max_size(),
        };
        Database { uri, max_size }
    }
}

/// The proxy listener's settings.
pub struct Server {
    /// The upstream origin that requests are forwarded to.
    pub address: UpstreamAddress,
    /// The socket address to listen on.
    pub bind: BindAddress,
    /// Admission hint for concurrent connections.
    pub max_connections: usize,
    /// Seconds allowed to the downstream client to send a request.
    pub client_timeout: usize,
    /// Seconds allowed to the upstream round trip.
    pub server_timeout: u64,
    /// Path of the PEM certificate chain.
    pub ssl_cert: Option<String>,
    /// Path of the PEM PKCS#8 private key.
    pub ssl_key: Option<String>,
}

/// The listener settings as given, before defaults are applied.
pub struct ServerSettings {
    pub bind: Option<BindAddress>,
    pub max_connections: Option<usize>,
    pub client_timeout: Option<usize>,
    pub server_timeout: Option<u64>,
    pub ssl_cert: Option<String>,
    pub ssl_key: Option<String>,
}

impl Server {
    /// Settings with each absent value replaced by its default.
    pub fn new(address: UpstreamAddress, given: ServerSettings) -> (r: Server)
        ensures
            r.address@ == address@,
            match given.bind {
                Some(b) => r.bind == b,
                None => is_loopback_v4(r.bind.ip) && r.bind.port == 3000,
            },
            r.max_connections == match given.max_connections {
                Some(m) => m,
                None => 10,
            },
            r.client_timeout == match given.client_timeout {
                Some(t) => t,
                None => 10,
            },
            r.server_timeout == match given.server_timeout {
                Some(t) => t,
                None => 10,
            },
            opt_text(r.ssl_cert) == opt_text(given.ssl_cert),
            opt_text(r.ssl_key) == opt_text(given.ssl_key),
    {
        let bind = match given.bind {
            Some(b) => b,
            None => default_bind(),
        };
        let max_connections = match given.max_connections {
            Some(m) => m,
            None => default_max_connections(),
        };
        let client_timeout = match given.client_timeout {
            Some(t) => t,
            None => default_client_timeout(),
        };
        let server_timeout = match given.server_timeout {
            Some(t) => t,
            None => default_server_timeout(),
        };
        Server {
            address,
            bind,
            max_connections,
            client_timeout,
            server_timeout,
            ssl_cert: given.ssl_cert,
            ssl_key: given.ssl_key,
        }
    }

    /// TLS is terminated on the listener when both a certificate and a key
    /// are configured.
    pub fn tls_enabled(&self) -> (r: bool)
        ensures
            r == (self.ssl_cert.is_some() && self.ssl_key.is_some()),
    {
        self.ssl_cert.is_some() && self.ssl_key.is_some()
    }
}

/// The whole configuration.
pub struct Config {
    pub database: Database,
    pub server: Server,
}

} // verus!
