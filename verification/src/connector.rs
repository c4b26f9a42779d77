//! How a client connects to the server that a URI names: which server and port, in
//! the clear or over TLS.

use vstd::prelude::*;
use vstd::string::*;

verus! {

/// A URI that was read already. Opaque: its parts are taken out of it.
#[verifier::external_type_specification]
#[verifier::external_body]
pub struct ExUri(http::Uri);

/// `http::Uri::scheme_str` gives the scheme of a URI, if it has one. Nothing is claimed of
/// it by itself: the URI is opaque.
pub assume_specification<'a>[ http::Uri::scheme_str ](uri: &'a http::Uri) -> (scheme: Option<
    &'a str,
>);

/// `http::Uri::host` gives the host of a URI, if it names one. Nothing is claimed of it by
/// itself: the URI is opaque.
pub assume_specification<'a>[ http::Uri::host ](uri: &'a http::Uri) -> (host: Option<&'a str>);

/// `http::Uri::port_u16` gives the port of a URI, if it names one. Nothing is claimed of it
/// by itself: the URI is opaque.
pub assume_specification[ http::Uri::port_u16 ](uri: &http::Uri) -> (port: Option<u16>);

/// The port of an `http` URI that names none.
pub const HTTP_PORT: u16 = 80;

/// The port of an `https` URI that names none.
pub const HTTPS_PORT: u16 = 443;

/// The parts of a URI that say where to connect to.
#[derive(Debug)]
pub struct UriParts {
    pub scheme: Option<String>,
    pub host: Option<String>,
    pub port: Option<u16>,
}

/// The parts of a URI, with their texts as sequences of characters.
pub struct UriPartsView {
    pub scheme: Option<Seq<char>>,
    pub host: Option<Seq<char>>,
    pub port: Option<u16>,
}

/// The characters of a text that may be missing.
pub open spec fn chars(text: Option<String>) -> Option<Seq<char>> {
    match text {
        Some(text) => Some(text@),
        None => None,
    }
}

impl View for UriParts {
    type V = UriPartsView;

    open spec fn view(&self) -> UriPartsView {
        UriPartsView { scheme: chars(self.scheme), host: chars(self.host), port: self.port }
    }
}

/// Where to connect to, and how.
#[derive(Debug)]
pub struct ConnectPlan {
    pub host: String,
    pub port: u16,
    pub tls: bool,
}

/// Why there is nothing to connect to.
#[derive(Debug)]
pub enum ConnectError {
    /// The URI names no host.
    NoHost,
    /// The URI has this scheme, or none, in place of `http` or `https`.
    UnsupportedScheme(Option<String>),
    /// The host has no address.
    Unresolved,
}

/// Where to connect to, or why not, over sequences of characters.
pub enum Planned {
    Connect { host: Seq<char>, port: u16, tls: bool },
    NoHost,
    UnsupportedScheme(Option<Seq<char>>),
    Unresolved,
}

/// A planning result over sequences of characters.
pub open spec fn planned(result: Result<ConnectPlan, ConnectError>) -> Planned {
    match result {
        Ok(plan) => Planned::Connect { host: plan.host@, port: plan.port, tls: plan.tls },
        Err(ConnectError::NoHost) => Planned::NoHost,
        Err(ConnectError::UnsupportedScheme(scheme)) => Planned::UnsupportedScheme(chars(scheme)),
        Err(ConnectError::Unresolved) => Planned::Unresolved,
    }
}

/// The port that was named, or else the usual one.
pub open spec fn port_or(named: Option<u16>, usual: u16) -> u16 {
    match named {
        Some(port) => port,
        None => usual,
    }
}

/// The plan for a URI: without a host there is none, whatever the scheme; `http` goes in
/// the clear, `https` over TLS, and every other scheme nowhere.
pub open spec fn plan_of(parts: UriPartsView) -> Planned {
    match parts.host {
        None => Planned::NoHost,
        Some(host) => if parts.scheme == Some("http"@) {
            Planned::Connect { host, port: port_or(parts.port, HTTP_PORT), tls: false }
        } else if parts.scheme == Some("https"@) {
            Planned::Connect { host, port: port_or(parts.port, HTTPS_PORT), tls: true }
        } else {
            Planned::UnsupportedScheme(parts.scheme)
        },
    }
}

/// Plans the connection for a URI, from its parts.
pub fn plan_connection(parts: UriParts) -> (plan: Result<ConnectPlan, ConnectError>)
    ensures
        planned(plan) == plan_of(parts@),
{
    let host = match parts.host {
        Some(host) => host,
        None => {
            return Err(ConnectError::NoHost);
        },
    };
    match parts.scheme {
        Some(scheme) => {
            proof {
                reveal_strlit("http");
                reveal_strlit("https");
            }
            if scheme == String::from_str("http") {
                Ok(ConnectPlan { host, port: named_port(parts.port, HTTP_PORT), tls: false })
            } else if scheme == String::from_str("https") {
                Ok(ConnectPlan { host, port: named_port(parts.port, HTTPS_PORT), tls: true })
            } else {
                Err(ConnectError::UnsupportedScheme(Some(scheme)))
            }
        },
        None => Err(ConnectError::UnsupportedScheme(None)),
    }
}

/// The port that was named, or else the usual one.
fn named_port(named: Option<u16>, usual: u16) -> (port: u16)
    ensures
        port == port_or(named, usual),
{
    match named {
        Some(port) => port,
        None => usual,
    }
}

/// The characters of a borrowed text that may be missing.
pub open spec fn borrowed_chars(text: Option<&str>) -> Option<Seq<char>> {
    match text {
        Some(text) => Some(text@),
        None => None,
    }
}

/// A text of its own for a borrowed text that may be missing.
fn owned(text: Option<&str>) -> (copy: Option<String>)
    ensures
        chars(copy) == borrowed_chars(text),
{
    match text {
        Some(text) => Some(String::from_str(text)),
        None => None,
    }
}

/// Plans the connection for a URI that was read already: by the scheme, the host and the
/// port that it gives.
pub fn plan_request(uri: &http::Uri) -> (plan: Result<ConnectPlan, ConnectError>)
    ensures
        exists|scheme: Option<&str>, host: Option<&str>, port: Option<u16>|
            {
                &&& #[trigger] call_ensures(http::Uri::scheme_str, (uri,), scheme)
                &&& #[trigger] call_ensures(http::Uri::host, (uri,), host)
                &&& #[trigger] call_ensures(http::Uri::port_u16, (uri,), port)
                &&& planned(plan) == plan_of(
                    UriPartsView {
                        scheme: borrowed_chars(scheme),
                        host: borrowed_chars(host),
                        port,
                    },
                )
            },
{
    let scheme = uri.scheme_str();
    let host = uri.host();
    let port: Option<u16> = uri.port_u16();
    plan_connection(UriParts { scheme: owned(scheme), host: owned(host), port })
}

/// What a text that may be missing looks like when it is printed for debugging.
pub uninterp spec fn debug_text(text: Option<Seq<char>>) -> Seq<char>;

/// Whether a text holds nothing but what the scheme of a URI is made of: ASCII letters and
/// digits, plus and minus signs, dots and tildes.
pub open spec fn is_scheme_text(text: Seq<char>) -> bool {
    forall|i: int| 0 <= i < text.len() ==> is_scheme_char(#[trigger] text[i])
}

/// Whether the scheme of a URI can hold a character.
pub open spec fn is_scheme_char(c: char) -> bool {
    ||| 'a' as int <= c as int <= 'z' as int
    ||| 'A' as int <= c as int <= 'Z' as int
    ||| '0' as int <= c as int <= '9' as int
    ||| c == '+'
    ||| c == '-'
    ||| c == '.'
    ||| c == '~'
}

/// Formats a text that may be missing with `std::fmt::Debug`. The outcome depends on the
/// text alone: `None` where it is missing, and otherwise the text in quotes and in `Some`,
/// with some characters escaped, though none of those that a scheme is made of.
#[verifier::external_body]
fn format_debug(text: &Option<String>) -> (formatted: String)
    ensures
        formatted@ == debug_text(chars(*text)),
        text is None ==> formatted@ == "None"@,
        text matches Some(scheme) ==> is_scheme_text(scheme@) ==> formatted@ == "Some(\""@ + scheme@
            + "\")"@,
{
    format!("{:?}", text)
}

impl ConnectError {
    /// Says what went wrong.
    pub fn message(&self) -> (message: String)
        ensures
            match *self {
                ConnectError::NoHost => message@ == "cannot parse host"@,
                ConnectError::UnsupportedScheme(scheme) => {
                    &&& message@ == "unsupported scheme: "@ + debug_text(chars(scheme))
                    &&& scheme is None ==> message@ == "unsupported scheme: "@ + "None"@
                    &&& scheme matches Some(text) ==> is_scheme_text(text@) ==> message@
                        == "unsupported scheme: "@ + ("Some(\""@ + text@ + "\")"@)
                },
                ConnectError::Unresolved => message@ == "cannot resolve address"@,
            },
    {
        match self {
            ConnectError::NoHost => String::from_str("cannot parse host"),
            ConnectError::UnsupportedScheme(scheme) => {
                let mut message = String::from_str("unsupported scheme: ");
                message.append(format_debug(scheme).as_str());
                message
            },
            ConnectError::Unresolved => String::from_str("cannot resolve address"),
        }
    }
}

/// Picks the address to connect to out of those that the host resolved to: the first.
pub fn choose_address<A>(addresses: Vec<A>) -> (address: Result<A, ConnectError>)
    ensures
        address == if addresses@.len() > 0 {
            Ok::<A, ConnectError>(addresses@[0])
        } else {
            Err(ConnectError::Unresolved)
        },
{
    let mut addresses = addresses;
    if addresses.len() > 0 {
        Ok(addresses.remove(0))
    } else {
        Err(ConnectError::Unresolved)
    }
}

/// What a connection still needs once it stands.
#[derive(Debug)]
pub enum Upgrade {
    /// Nothing: it is used as it is.
    Plain,
    /// A TLS handshake with the server of this name.
    Handshake(String),
}

impl ConnectPlan {
    /// Says what the connection needs once it stands: over TLS, a handshake with the very
    /// host that the URI named.
    pub fn upgrade(&self) -> (upgrade: Upgrade)
        ensures
            upgrade == if self.tls {
                Upgrade::Handshake(self.host)
            } else {
                Upgrade::Plain
            },
    {
        if self.tls {
            Upgrade::Handshake(self.host.clone())
        } else {
            Upgrade::Plain
        }
    }
}

/// A host is contacted over TLS exactly where the scheme is `https`, and in the clear
/// exactly where it is `http`; a port that the URI names is the port that is used, and
/// the host is always the one that the URI names.
pub proof fn plan_keeps_to_the_uri(parts: UriPartsView, host: Seq<char>, port: u16, tls: bool)
    ensures
        plan_of(parts) == (Planned::Connect { host, port, tls }) <==> {
            &&& parts.host == Some(host)
            &&& parts.scheme == Some(if tls { "https"@ } else { "http"@ })
            &&& port == port_or(parts.port, if tls { HTTPS_PORT } else { HTTP_PORT })
        },
{
    reveal_strlit("http");
    reveal_strlit("https");
    assert("http"@.len() != "https"@.len());
}

/// A plan comes back exactly where the URI names a host and its scheme is `http` or `https`;
/// it goes to that host, over TLS exactly for `https`, and to the port that the URI names,
/// whichever that is, or else to port 80 in the clear and 443 over TLS. Where the URI names
/// no host, that is the error, and otherwise the scheme is.
pub proof fn plan_is_made_of_the_parts(
    parts: UriParts,
    plan: Result<ConnectPlan, ConnectError>,
)
    requires
        call_ensures(plan_connection, (parts,), plan),
    ensures
        plan is Ok <==> {
            &&& parts.host is Some
            &&& parts.scheme matches Some(scheme) && (scheme@ == "http"@ || scheme@ == "https"@)
        },
        plan matches Ok(plan) ==> {
            &&& parts.host matches Some(host) && plan.host@ == host@
            &&& parts.scheme matches Some(scheme) && scheme@ == (if plan.tls {
                "https"@
            } else {
                "http"@
            })
            &&& parts.port matches Some(port) ==> plan.port == port
            &&& parts.port is None ==> plan.port == if plan.tls {
                443u16
            } else {
                80u16
            }
        },
        parts.host is None <==> plan == Err::<ConnectPlan, ConnectError>(ConnectError::NoHost),
        plan matches Err(error) ==> parts.host is Some ==> (
        error matches ConnectError::UnsupportedScheme(named) && match (named, parts.scheme) {
            (Some(named), Some(scheme)) => named@ == scheme@,
            (None, None) => true,
            _ => false,
        }),
{
    reveal_strlit("http");
    reveal_strlit("https");
    assert("http"@.len() != "https"@.len());
}

/// The same of a URI that was read already, by the scheme, the host and the port that it
/// gives.
pub proof fn plan_is_made_of_the_uri(uri: &http::Uri, plan: Result<ConnectPlan, ConnectError>)
    requires
        call_ensures(plan_request, (uri,), plan),
    ensures
        exists|scheme: Option<&str>, host: Option<&str>, port: Option<u16>|
            {
                &&& #[trigger] call_ensures(http::Uri::scheme_str, (uri,), scheme)
                &&& #[trigger] call_ensures(http::Uri::host, (uri,), host)
                &&& #[trigger] call_ensures(http::Uri::port_u16, (uri,), port)
                &&& plan is Ok <==> host is Some && (scheme matches Some(scheme) && (scheme@
                    == "http"@ || scheme@ == "https"@))
                &&& plan matches Ok(plan) ==> {
                    &&& host matches Some(host) && plan.host@ == host@
                    &&& scheme matches Some(scheme) && scheme@ == (if plan.tls {
                        "https"@
                    } else {
                        "http"@
                    })
                    &&& port matches Some(port) ==> plan.port == port
                    &&& port is None ==> plan.port == if plan.tls {
                        443u16
                    } else {
                        80u16
                    }
                }
                &&& host is None <==> plan == Err::<ConnectPlan, ConnectError>(ConnectError::NoHost)
                &&& plan matches Err(error) ==> host is Some ==> (
                error matches ConnectError::UnsupportedScheme(named) && match (named, scheme) {
                    (Some(named), Some(scheme)) => named@ == scheme@,
                    (None, None) => true,
                    _ => false,
                })
            },
{
    reveal_strlit("http");
    reveal_strlit("https");
    assert("http"@.len() != "https"@.len());
    let (scheme, host, port) = choose|
        scheme: Option<&str>,
        host: Option<&str>,
        port: Option<u16>,
    |
        {
            &&& #[trigger] call_ensures(http::Uri::scheme_str, (uri,), scheme)
            &&& #[trigger] call_ensures(http::Uri::host, (uri,), host)
            &&& #[trigger] call_ensures(http::Uri::port_u16, (uri,), port)
            &&& planned(plan) == plan_of(
                UriPartsView {
                    scheme: borrowed_chars(scheme),
                    host: borrowed_chars(host),
                    port,
                },
            )
        };
    assert(call_ensures(http::Uri::scheme_str, (uri,), scheme));
    assert(call_ensures(http::Uri::host, (uri,), host));
    assert(call_ensures(http::Uri::port_u16, (uri,), port));
}

/// A connection over TLS needs a handshake with the very host of the plan, and one in the
/// clear needs nothing.
pub proof fn only_tls_needs_a_handshake(plan: ConnectPlan, upgrade: Upgrade)
    requires
        call_ensures(ConnectPlan::upgrade, (&plan,), upgrade),
    ensures
        plan.tls <==> upgrade is Handshake,
        upgrade matches Upgrade::Handshake(host) ==> host@ == plan.host@,
{
}

/// What is said of a scheme that is not supported: the scheme in quotes and in `Some`, where
/// it is made of ASCII letters and digits, plus and minus signs, dots and tildes, and `None`
/// where there is none.
pub proof fn unsupported_scheme_is_named(scheme: Option<String>, message: String)
    requires
        call_ensures(
            ConnectError::message,
            (&ConnectError::UnsupportedScheme(scheme),),
            message,
        ),
    ensures
        scheme is None ==> message@ == "unsupported scheme: "@ + "None"@,
        scheme matches Some(text) ==> (forall|i: int|
            0 <= i < text@.len() ==> {
                ||| 'a' as int <= (#[trigger] text@[i]) as int <= 'z' as int
                ||| 'A' as int <= text@[i] as int <= 'Z' as int
                ||| '0' as int <= text@[i] as int <= '9' as int
                ||| text@[i] == '+'
                ||| text@[i] == '-'
                ||| text@[i] == '.'
                ||| text@[i] == '~'
            }) ==> message@ == "unsupported scheme: "@ + ("Some(\""@ + text@ + "\")"@),
{
}

} // verus!
