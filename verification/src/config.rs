//! Configuration data model: logging verbosity, transport binding, TLS paths
//! and the public-URL surface, together with the URL-formatting rules.

use vstd::prelude::*;
use vstd::string::*;

use crate::error::Error;

verus! {

/// How much the logger reports.
#[derive(Debug, Clone, PartialEq, Eq, Structural)]
pub enum Verbosity {
    Trace,
    Info,
    Debug,
    Warn,
    Error,
}

impl Default for Verbosity {
    fn default() -> (d: Self)
        ensures
            d is Info,
    {
        Verbosity::Info
    }
}

/// Logging configuration: only the verbosity is recognized.
#[derive(Debug, Clone)]
pub struct LoggerConfig {
    pub verbosity: Verbosity,
}

impl Default for LoggerConfig {
    fn default() -> (d: Self)
        ensures
            d.verbosity is Info,
    {
        LoggerConfig { verbosity: Verbosity::default() }
    }
}

/// Cookie same-site policy choices recognized by the configuration surface.
#[derive(Debug, Clone, PartialEq, Eq, Structural)]
pub enum SameSiteConfig {
    Strict,
    Lax,
    NoneSite,
}

impl Default for SameSiteConfig {
    fn default() -> (d: Self)
        ensures
            d is Lax,
    {
        SameSiteConfig::Lax
    }
}

/// Whether TLS is enabled, and where its certificate chain and private key live.
#[derive(Debug, Clone)]
pub struct SslConfig {
    pub enabled: bool,
    pub cert_path: String,
    pub key_path: String,
}

impl Default for SslConfig {
    fn default() -> (d: Self)
        ensures
            !d.enabled,
            d.cert_path@ == "config/cert.pem"@,
            d.key_path@ == "config/key.pem"@,
    {
        SslConfig {
            enabled: false,
            cert_path: "config/cert.pem".to_owned(),
            key_path: "config/key.pem".to_owned(),
        }
    }
}

/// One port for the plaintext transport and one for the TLS transport.
#[derive(Debug, Clone, PartialEq, Eq, Structural)]
pub struct Port {
    pub http: u16,
    pub https: u16,
}

impl Default for Port {
    fn default() -> (d: Self)
        ensures
            d.http == 80,
            d.https == 443,
    {
        Port { http: 80, https: 443 }
    }
}

/// The transport and public-URL configuration of one website.
#[derive(Debug, Clone)]
pub struct Website {
    pub bind_ssl_config: SslConfig,
    pub bind_address: String,
    pub bind_ports: Port,
    pub public_hostname: String,
    pub public_ports: Port,
    pub public_ssl_enabled: bool,
}

impl Default for Website {
    fn default() -> (d: Self)
        ensures
            !d.bind_ssl_config.enabled,
            d.bind_address@ == "127.0.0.1"@,
            d.bind_ports == (Port { http: 80u16, https: 443u16 }),
            d.public_hostname@ == "localhost"@,
            d.public_ports == (Port { http: 80u16, https: 443u16 }),
            !d.public_ssl_enabled,
    {
        Website {
            bind_ssl_config: SslConfig::default(),
            bind_address: "127.0.0.1".to_owned(),
            bind_ports: Port::default(),
            public_hostname: "localhost".to_owned(),
            public_ports: Port::default(),
            public_ssl_enabled: false,
        }
    }
}

/// The configuration view the server core consumes.
#[derive(Debug, Clone)]
pub struct Config {
    pub logger: LoggerConfig,
    pub website: Website,
}

impl Default for Config {
    fn default() -> (d: Self)
        ensures
            d.logger.verbosity is Info,
            d.website.public_hostname@ == "localhost"@,
            !d.website.public_ssl_enabled,
            d.website.public_ports == (Port { http: 80u16, https: 443u16 }),
    {
        Config { logger: LoggerConfig::default(), website: Website::default() }
    }
}

/// Compares two string slices character by character.
pub fn str_eq(a: &str, b: &str) -> (r: bool)
    ensures
        r == (a@ == b@),
{
    let alen = a.unicode_len();
    let blen = b.unicode_len();
    if alen != blen {
        return false;
    }
    let mut i: usize = 0;
    while i < alen
        invariant
            i <= alen,
            alen == a@.len(),
            alen == b@.len(),
            forall|j: int| 0 <= j < i ==> a@[j] == b@[j],
        decreases alen - i,
    {
        if a.get_char(i) != b.get_char(i) {
            return false;
        }
        i = i + 1;
    }
    proof {
        assert(a@ =~= b@);
    }
    true
}

/// The sequence with every trailing `/` removed.
pub open spec fn trimmed_trailing_slashes(s: Seq<char>) -> Seq<char>
    decreases s.len(),
{
    if s.len() > 0 && s[s.len() - 1] == '/' {
        trimmed_trailing_slashes(s.drop_last())
    } else {
        s
    }
}

/// The sequence with every leading `/` removed.
pub open spec fn trimmed_leading_slashes(s: Seq<char>) -> Seq<char>
    decreases s.len(),
{
    if s.len() > 0 && s[0] == '/' {
        trimmed_leading_slashes(s.subrange(1, s.len() as int))
    } else {
        s
    }
}

/// A trimmed sequence never ends in `/`, so trimming again changes nothing.
pub proof fn lemma_trim_trailing_idempotent(s: Seq<char>)
    ensures
        trimmed_trailing_slashes(trimmed_trailing_slashes(s)) == trimmed_trailing_slashes(s),
    decreases s.len(),
{
    if s.len() > 0 && s[s.len() - 1] == '/' {
        lemma_trim_trailing_idempotent(s.drop_last());
    }
}

/// Removes every trailing `/` from a string slice.
pub fn trim_trailing_slashes<'a>(s: &'a str) -> (r: &'a str)
    ensures
        r@ == trimmed_trailing_slashes(s@),
{
    let len = s.unicode_len();
    proof {
        assert(s@.subrange(0, s@.len() as int) =~= s@);
    }
    let mut end = len;
    loop
        invariant
            end <= len,
            len == s@.len(),
            trimmed_trailing_slashes(s@) == trimmed_trailing_slashes(s@.subrange(0, end as int)),
        ensures
            end <= len,
            trimmed_trailing_slashes(s@) == s@.subrange(0, end as int),
        decreases end,
    {
        if end == 0 {
            proof {
                assert(s@.subrange(0, 0) =~= Seq::<char>::empty());
            }
            break;
        }
        let c = s.get_char(end - 1);
        if c != '/' {
            break;
        }
        proof {
            assert(s@.subrange(0, end as int).drop_last() =~= s@.subrange(0, end as int - 1));
        }
        end = end - 1;
    }
    s.substring_char(0, end)
}

/// Removes every leading `/` from a string slice.
pub fn trim_leading_slashes<'a>(s: &'a str) -> (r: &'a str)
    ensures
        r@ == trimmed_leading_slashes(s@),
{
    let len = s.unicode_len();
    proof {
        assert(s@.subrange(0, s@.len() as int) =~= s@);
    }
    let mut start: usize = 0;
    loop
        invariant
            start <= len,
            len == s@.len(),
            trimmed_leading_slashes(s@) == trimmed_leading_slashes(
                s@.subrange(start as int, len as int),
            ),
        ensures
            start <= len,
            trimmed_leading_slashes(s@) == s@.subrange(start as int, len as int),
        decreases len - start,
    {
        if start == len {
            proof {
                assert(s@.subrange(len as int, len as int) =~= Seq::<char>::empty());
            }
            break;
        }
        let c = s.get_char(start);
        if c != '/' {
            break;
        }
        proof {
            assert(s@.subrange(start as int, len as int).subrange(
                1,
                s@.subrange(start as int, len as int).len() as int,
            ) =~= s@.subrange(start as int + 1, len as int));
        }
        start = start + 1;
    }
    s.substring_char(start, len)
}

/// True exactly for the protocols whose default port the given port is.
pub open spec fn spec_is_default_port(protocol: Seq<char>, port: u16) -> bool {
    ||| (protocol == "http"@ && port == 80)
    ||| (protocol == "https"@ && port == 443)
}

/// Which failure `render_url` ran into: the parts did not parse as a URL, or
/// the parsed URL cannot carry a port.
enum UrlProblem {
    Parse,
    Port,
}

/// What the `url` crate renders for `{protocol}://{host}`, with `port` set on
/// the parsed value when one is given.  `Err(true)` stands for parts that do
/// not parse as a URL, `Err(false)` for a URL that cannot carry a port.
pub uninterp spec fn rendered_url(protocol: Seq<char>, host: Seq<char>, port: Option<u16>) -> Result<
    Seq<char>,
    bool,
>;

/// Relies on `url::Url::parse`, `url::Url::set_port` and `url::Url::as_str`:
/// the rendered serialization, and which of the two steps fails, depend on the
/// protocol, host and port alone.
#[verifier::external_body]
fn render_url(protocol: &str, host: &str, port: Option<u16>) -> (r: Result<String, UrlProblem>)
    ensures
        match rendered_url(protocol@, host@, port) {
            Ok(s) => r is Ok && r->Ok_0@ == s,
            Err(parse_failed) => r is Err && (r->Err_0 is Parse) == parse_failed,
        },
{
    let base = format!("{}://{}", protocol, host);
    let mut parsed = match url::Url::parse(&base) {
        Ok(parsed) => parsed,
        Err(_) => return Err(UrlProblem::Parse),
    };
    if let Some(p) = port {
        if parsed.set_port(Some(p)).is_err() {
            return Err(UrlProblem::Port);
        }
    }
    Ok(parsed.as_str().to_owned())
}

/// The protocol and port `public_server_url` formats with.
pub open spec fn spec_protocol_and_port(w: Website) -> (Seq<char>, u16) {
    if w.public_ssl_enabled {
        ("https"@, w.public_ports.https)
    } else {
        ("http"@, w.public_ports.http)
    }
}

/// The URL `format_url` produces, when the parts form one: the rendering of
/// `{protocol}://{hostname}`, with the port set when it is not the protocol's
/// default, and every trailing `/` removed.
pub open spec fn spec_format_url(w: Website, protocol: Seq<char>, port: u16) -> Option<Seq<char>> {
    let wanted_port = if spec_is_default_port(protocol, port) {
        None
    } else {
        Some(port)
    };
    match rendered_url(protocol, w.public_hostname@, wanted_port) {
        Ok(s) => Some(trimmed_trailing_slashes(s)),
        Err(_) => None,
    }
}

/// The cause `format_url` reports when rendering fails: whether the parts did
/// not parse, or the URL could not carry the port.
pub open spec fn spec_format_url_cause(w: Website, protocol: Seq<char>, port: u16) -> Seq<char> {
    let wanted_port = if spec_is_default_port(protocol, port) {
        None
    } else {
        Some(port)
    };
    match rendered_url(protocol, w.public_hostname@, wanted_port) {
        Ok(_) => Seq::empty(),
        Err(parse_failed) => if parse_failed {
            "Invalid URL"@
        } else {
            "Invalid port"@
        },
    }
}

/// The externally visible URL of the website: formatted from the public
/// protocol, hostname and port, or empty when they do not form a URL.
pub open spec fn spec_public_server_url(w: Website) -> Seq<char> {
    let pp = spec_protocol_and_port(w);
    match spec_format_url(w, pp.0, pp.1) {
        Some(u) => u,
        None => Seq::empty(),
    }
}

impl Website {
    /// The externally visible base URL of this website.
    pub fn public_server_url(&self) -> (r: String)
        ensures
            r@ == spec_public_server_url(*self),
    {
        let (protocol, port) = self.get_protocol_and_port();
        match self.format_url(protocol, port) {
            Ok(url) => url,
            Err(_) => String::new(),
        }
    }

    /// The externally visible URL for `path` under this website: the base URL
    /// and the path, joined by exactly one `/`.
    pub fn format_public_server_url(&self, path: &str) -> (r: String)
        ensures
            r@ == spec_public_server_url(*self) + "/"@ + trimmed_leading_slashes(path@),
    {
        let url = self.public_server_url();
        let trimmed = trim_trailing_slashes(url.as_str());
        proof {
            let pp = spec_protocol_and_port(*self);
            match rendered_url(pp.0, self.public_hostname@, if spec_is_default_port(pp.0, pp.1) {
                None
            } else {
                Some(pp.1)
            }) {
                Ok(s) => {
                    lemma_trim_trailing_idempotent(s);
                },
                Err(_) => {
                    assert(trimmed_trailing_slashes(Seq::<char>::empty())
                        == Seq::<char>::empty());
                },
            }
        }
        let mut out = trimmed.to_owned();
        out.append("/");
        out.append(trim_leading_slashes(path));
        out
    }

    /// The protocol the public URL uses, with its configured port: `https`
    /// when public TLS is enabled, else `http`.
    fn get_protocol_and_port(&self) -> (r: (&'static str, u16))
        ensures
            (r.0@, r.1) == spec_protocol_and_port(*self),
    {
        if self.public_ssl_enabled {
            ("https", self.public_ports.https)
        } else {
            ("http", self.public_ports.http)
        }
    }

    /// True exactly when `port` is the default port of `protocol`: 80 for
    /// `http` and 443 for `https`; unrecognized protocols have none.
    pub fn is_default_port(protocol: &str, port: u16) -> (r: bool)
        ensures
            r == spec_is_default_port(protocol@, port),
    {
        proof {
            reveal_strlit("http");
            reveal_strlit("https");
            assert("http"@.len() == 4);
            assert("https"@.len() == 5);
        }
        let defaults = Port::default();
        if str_eq(protocol, "http") {
            port == defaults.http
        } else if str_eq(protocol, "https") {
            port == defaults.https
        } else {
            false
        }
    }

    /// Formats `{protocol}://{hostname}`, appending `port` exactly when it is
    /// not the protocol's default, and removing any trailing `/`.
    pub fn format_url(&self, protocol: &str, port: u16) -> (r: Result<String, Error>)
        ensures
            match spec_format_url(*self, protocol@, port) {
                Some(u) => r is Ok && r->Ok_0@ == u,
                None => {
                    &&& r is Err
                    &&& r->Err_0 matches Error::UrlFormatError {
                        protocol: p,
                        hostname: h,
                        port: pt,
                        cause: c,
                    } && p@ == protocol@ && h@ == self.public_hostname@ && pt == port && c@
                        == spec_format_url_cause(*self, protocol@, port)
                },
            },
    {
        let wanted_port = if Self::is_default_port(protocol, port) {
            None
        } else {
            Some(port)
        };
        match render_url(protocol, self.public_hostname.as_str(), wanted_port) {
            Ok(u) => Ok(trim_trailing_slashes(u.as_str()).to_owned()),
            Err(problem) => Err(
                Error::UrlFormatError {
                    protocol: protocol.to_owned(),
                    hostname: self.public_hostname.clone(),
                    port,
                    cause: (match problem {
                        UrlProblem::Parse => "Invalid URL",
                        UrlProblem::Port => "Invalid port",
                    }).to_owned(),
                },
            ),
        }
    }
}

} // verus!
