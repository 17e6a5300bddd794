//! The values that pass between a client, the cache and the transport.
use vstd::prelude::*;
use vstd::hash_map::StringHashMap;
use vstd::string::StringExecFns;
use crate::error::{ClientError, TransportFault};
use crate::utils::{decimal_text, push_decimal, same_text};

verus! {

/// The response cache: the text of every body fetched so far, by request URL.
///
/// Entries are never evicted and never expire; the cache grows with the
/// number of distinct URLs asked for.
pub struct Cache {
    entries: StringHashMap<String>,
}

impl View for Cache {
    type V = Map<Seq<char>, Seq<char>>;

    /// The cache as a map from URL to body text.
    closed spec fn view(&self) -> Map<Seq<char>, Seq<char>> {
        self.entries@.map_values(|text: String| text@)
    }
}

impl Cache {
    /// An empty cache.
    pub fn new() -> (cache: Cache)
        ensures
            cache@ == Map::<Seq<char>, Seq<char>>::empty(),
    {
        let cache = Cache { entries: StringHashMap::new() };
        assert(cache@ =~= Map::<Seq<char>, Seq<char>>::empty());
        cache
    }

    /// A copy of the body stored for `key`, if there is one.
    pub fn lookup(&self, key: &str) -> (found: Option<String>)
        ensures
            match found {
                Some(text) => self@.contains_key(key@) && text@ == self@[key@],
                None => !self@.contains_key(key@),
            },
    {
        match self.entries.get(key) {
            Some(text) => Some(text.clone()),
            None => None,
        }
    }

    /// Stores `text` for `key`, in place of what was stored for it before.
    pub fn insert(&mut self, key: String, text: String)
        ensures
            final(self)@ == old(self)@.insert(key@, text@),
    {
        self.entries.insert(key, text);
        assert(self@ =~= old(self)@.insert(key@, text@));
    }

    /// Whether a body is stored for `key`.
    pub fn contains(&self, key: &str) -> (found: bool)
        ensures
            found == self@.contains_key(key@),
    {
        self.entries.contains_key(key)
    }
}

/// One logical request: the URL to get, and the API key to present, if any.
///
/// The URL alone identifies the request in the cache.
#[derive(Debug, Clone)]
pub struct RequestDescriptor {
    pub url: String,
    pub auth: Option<String>,
}

/// A GET request as it is handed to the transport.
#[derive(Debug, Clone)]
pub struct OutboundRequest {
    pub url: String,
    /// The value of the `X-Riot-Token` header; without one the request
    /// carries no such header.
    pub riot_token: Option<String>,
}

impl OutboundRequest {
    /// The name of the header that presents the API key.
    pub open spec fn auth_header() -> Seq<char> {
        "X-Riot-Token"@
    }

    /// The value of the header `name` of this request, if it carries one.
    /// Names are compared as written.
    pub open spec fn header_value(self, name: Seq<char>) -> Option<Seq<char>> {
        if name == Self::auth_header() {
            match self.riot_token {
                Some(key) => Some(key@),
                None => None,
            }
        } else {
            None
        }
    }

    /// The value of the header `name` of this request, if it carries one.
    pub fn header(&self, name: &str) -> (value: Option<&str>)
        ensures
            match value {
                Some(v) => self.header_value(name@) == Some(v@),
                None => self.header_value(name@) is None,
            },
    {
        if same_text(name, "X-Riot-Token") {
            match &self.riot_token {
                Some(key) => Some(key.as_str()),
                None => None,
            }
        } else {
            None
        }
    }
}

/// What the transport made of a request.
#[derive(Debug, Clone)]
pub enum TransportOutcome {
    /// No response was obtained.
    Failed { fault: TransportFault },
    /// A response with its status code and its whole body.
    Response { status: u16, body: Vec<u8> },
}

/// Where a connection is to be opened, and whether it is to be secured.
#[derive(Debug, Clone)]
pub enum CompatStream {
    /// A plain TCP connection to `addr`.
    Plain { addr: String },
    /// A TCP connection to `addr`, secured by TLS for the host `domain`.
    Tls { addr: String, domain: String },
}

/// The default port of plain HTTP.
pub const HTTP_PORT: u16 = 80;

/// The default port of HTTP over TLS.
pub const HTTPS_PORT: u16 = 443;

/// The address of a host and a port, as a socket is opened for it.
pub open spec fn socket_addr(host: Seq<char>, port: u16) -> Seq<char> {
    host + ":"@ + decimal_text(port as nat)
}

/// The port to connect to: the one that the URL names, else the default.
pub open spec fn port_or(port: Option<u16>, default: u16) -> u16 {
    match port {
        Some(p) => p,
        None => default,
    }
}

/// Decides how to connect to the host of a URL.
#[derive(Debug, Clone, Copy)]
pub struct CompatConnector;

impl CompatConnector {
    pub fn new() -> CompatConnector {
        CompatConnector
    }

    fn addr(host: &str, port: Option<u16>, default: u16) -> (addr: String)
        ensures
            addr@ == socket_addr(host@, port_or(port, default)),
    {
        let port = match port {
            Some(p) => p,
            None => default,
        };
        let mut addr = String::from_str(host);
        addr.append(":");
        push_decimal(&mut addr, port as u64);
        addr
    }

    /// Decides the connection for the scheme, host and port of a URL.
    ///
    /// A URL without a host cannot be connected to. `http` is a plain
    /// connection, to port 80 unless the URL names one; `https` is a TLS
    /// connection for the host, to port 443 unless the URL names one; any
    /// other scheme, and none, is not supported.
    pub fn call(&self, scheme: Option<&str>, host: Option<&str>, port: Option<u16>) -> (r: Result<
        CompatStream,
        ClientError,
    >)
        ensures
            match host {
                None => r == Err::<CompatStream, ClientError>(
                    ClientError::TransportError { fault: TransportFault::UrlNotParsed },
                ),
                Some(host) => if scheme matches Some(s) && s@ == "http"@ {
                    r matches Ok(CompatStream::Plain { addr }) && addr@ == socket_addr(
                        host@,
                        port_or(port, HTTP_PORT),
                    )
                } else if scheme matches Some(s) && s@ == "https"@ {
                    r matches Ok(CompatStream::Tls { addr, domain }) && addr@ == socket_addr(
                        host@,
                        port_or(port, HTTPS_PORT),
                    ) && domain@ == host@
                } else {
                    r == Err::<CompatStream, ClientError>(
                        ClientError::TransportError { fault: TransportFault::UnsupportedScheme },
                    )
                },
            },
    {
        let host = match host {
            Some(host) => host,
            None => {
                return Err(ClientError::TransportError { fault: TransportFault::UrlNotParsed });
            },
        };
        proof {
            reveal_strlit("http");
            reveal_strlit("https");
        }
        match scheme {
            Some(s) => {
                if same_text(s, "http") {
                    Ok(CompatStream::Plain { addr: Self::addr(host, port, HTTP_PORT) })
                } else if same_text(s, "https") {
                    Ok(
                        CompatStream::Tls {
                            addr: Self::addr(host, port, HTTPS_PORT),
                            domain: String::from_str(host),
                        },
                    )
                } else {
                    Err(ClientError::TransportError { fault: TransportFault::UnsupportedScheme })
                }
            },
            None => Err(ClientError::TransportError { fault: TransportFault::UnsupportedScheme }),
        }
    }
}

} // verus!
