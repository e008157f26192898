//! Where a request goes and what it says.
use vstd::prelude::*;

verus! {

/// The port of a URL that names none.
pub const DEFAULT_PORT: u16 = 4433;

/// What the user is told where the host has no address.
pub const UNRESOLVED: &'static str = "couldn't resolve to an address";

/// `host` without the brackets around an IPv6 address.
pub open spec fn without_brackets(host: Seq<char>) -> Seq<char> {
    if host.len() > 0 && host.first() == '[' && host.last() == ']' {
        host.subrange(1, host.len() - 1)
    } else {
        host
    }
}

/// Strips the brackets that a URL puts around an IPv6 address, as in
/// `https://[::1]:4433/`.
pub fn strip_ipv6_brackets(host: &str) -> (r: &str)
    ensures
        r@ == without_brackets(host@),
{
    let len: usize = host.unicode_len();
    if len > 0 && host.get_char(0) == '[' && host.get_char(len - 1) == ']' {
        host.substring_char(1, len - 1)
    } else {
        host
    }
}

/// A bracketed address loses its brackets and nothing else.
pub proof fn law_brackets_are_stripped(address: Seq<char>)
    ensures
        without_brackets(seq!['['] + address + seq![']']) == address,
{
    assert((seq!['['] + address + seq![']']).subrange(1, address.len() as int + 1) =~= address);
}

/// A host that is not bracketed on both sides stays as it is.
pub proof fn law_plain_hosts_stay(host: Seq<char>)
    requires
        host.len() == 0 || host.first() != '[' || host.last() != ']',
    ensures
        without_brackets(host) == host,
{
}

/// The parts of a URL that a request needs.
pub struct UrlParts {
    /// The host, with brackets around an IPv6 address.
    pub host: Option<String>,
    /// The port, where the URL names one that its scheme does not imply.
    pub port: Option<u16>,
    /// The path, percent-encoded.
    pub path: String,
}

/// The text in `o`, if there is one.
pub open spec fn opt_text(o: Option<String>) -> Option<Seq<char>> {
    match o {
        None => None,
        Some(s) => Some(s@),
    }
}

impl View for UrlParts {
    type V = (Option<Seq<char>>, Option<u16>, Seq<char>);

    open spec fn view(&self) -> (Option<Seq<char>>, Option<u16>, Seq<char>) {
        (opt_text(self.host), self.port, self.path@)
    }
}

/// What `url::Url::parse` makes of a text: the host, the port and the path of
/// the URL, or why the text is none.
pub uninterp spec fn parsed_url(text: Seq<char>) -> Result<
    (Option<Seq<char>>, Option<u16>, Seq<char>),
    Seq<char>,
>;

/// `url::Url::parse`, with the parsed URL read by `host_str`, `port` and
/// `path` and the error by its `Display` impl. Claims only that the text
/// determines all of them.
#[verifier::external_body]
fn parse_url(text: &str) -> (r: Result<UrlParts, String>)
    ensures
        match r {
            Ok(parts) => parsed_url(text@) == Ok::<
                (Option<Seq<char>>, Option<u16>, Seq<char>),
                Seq<char>,
            >(parts@),
            Err(reason) => parsed_url(text@) == Err::<
                (Option<Seq<char>>, Option<u16>, Seq<char>),
                Seq<char>,
            >(reason@),
        },
{
    match url::Url::parse(text) {
        Ok(url) => Ok(
            UrlParts {
                host: url.host_str().map(String::from),
                port: url.port(),
                path: String::from(url.path()),
            },
        ),
        Err(error) => Err(error.to_string()),
    }
}

/// A target as mathematical values.
pub struct TargetModel {
    pub address: Seq<char>,
    pub port: u16,
    pub server_name: Seq<char>,
    pub request: Seq<char>,
}

/// Where a request goes and what it says.
pub struct Target {
    /// The name or address to look up.
    pub address: String,
    /// The port to connect to.
    pub port: u16,
    /// The name that the server's certificate is checked against.
    pub server_name: String,
    /// The request line.
    pub request: String,
}

impl View for Target {
    type V = TargetModel;

    open spec fn view(&self) -> TargetModel {
        TargetModel {
            address: self.address@,
            port: self.port,
            server_name: self.server_name@,
            request: self.request@,
        }
    }
}

/// Why a URL gives no target.
pub enum TargetError {
    /// The text is not a URL, for the reason given.
    InvalidUrl(String),
    /// The URL names no host.
    MissingHost,
}

/// The target of a request to `host`, `port` and `path`, where `given_name`
/// replaces the host in the certificate check.
pub open spec fn target_of(
    host: Seq<char>,
    port: Option<u16>,
    path: Seq<char>,
    given_name: Option<Seq<char>>,
) -> TargetModel {
    TargetModel {
        address: without_brackets(host),
        port: match port {
            Some(p) => p,
            None => DEFAULT_PORT,
        },
        server_name: match given_name {
            Some(name) => name,
            None => without_brackets(host),
        },
        request: "GET "@ + path + "\r\n"@,
    }
}

impl Target {
    /// The target of a URL with a host. `given_name` replaces the host in the
    /// certificate check.
    pub fn new(parts: UrlParts, given_name: Option<String>) -> (r: Self)
        requires
            parts.host is Some,
        ensures
            r@ == target_of(
                parts.host->0@,
                parts.port,
                parts.path@,
                opt_text(given_name),
            ),
    {
        let host = parts.host.unwrap();
        let address = strip_ipv6_brackets(host.as_str());
        let port: u16 = match parts.port {
            Some(p) => p,
            None => DEFAULT_PORT,
        };
        let server_name = match given_name {
            Some(name) => name,
            None => String::from_str(address),
        };
        Target {
            address: String::from_str(address),
            port,
            server_name,
            request: String::from_str("GET ").concat(parts.path.as_str()).concat("\r\n"),
        }
    }

    /// The target of the URL in `text`, if it is one and names a host.
    pub fn from_url(text: &str, given_name: Option<String>) -> (r: Result<Self, TargetError>)
        ensures
            match parsed_url(text@) {
                Err(reason) => r matches Err(TargetError::InvalidUrl(s)) && s@ == reason,
                Ok((None, port, path)) => r == Err::<Self, TargetError>(TargetError::MissingHost),
                Ok((Some(host), port, path)) => r matches Ok(t) && t@ == target_of(
                    host,
                    port,
                    path,
                    opt_text(given_name),
                ),
            },
    {
        match parse_url(text) {
            Err(reason) => Err(TargetError::InvalidUrl(reason)),
            Ok(parts) => {
                if parts.host.is_none() {
                    return Err(TargetError::MissingHost);
                }
                Ok(Target::new(parts, given_name))
            },
        }
    }
}

/// The address, the port and the request do not depend on the given name; only
/// the name that is checked does.
pub proof fn law_given_name_replaces_the_checked_name_only(
    host: Seq<char>,
    port: Option<u16>,
    path: Seq<char>,
    name1: Option<Seq<char>>,
    name2: Option<Seq<char>>,
)
    ensures
        target_of(host, port, path, name1) == (TargetModel {
            server_name: target_of(host, port, path, name1).server_name,
            ..target_of(host, port, path, name2)
        }),
        name1 matches Some(name) ==> target_of(host, port, path, name1).server_name == name,
        name1 is None ==> target_of(host, port, path, name1).server_name == target_of(
            host,
            port,
            path,
            name1,
        ).address,
{
}

/// A bracketed address is looked up without its brackets, with or without a
/// given name.
pub proof fn law_bracketed_address_is_looked_up(
    address: Seq<char>,
    port: Option<u16>,
    path: Seq<char>,
    given_name: Option<Seq<char>>,
)
    ensures
        target_of(seq!['['] + address + seq![']'], port, path, given_name).address == address,
        target_of(seq!['['] + address + seq![']'], port, path, None).server_name == address,
{
    law_brackets_are_stripped(address);
}

/// A host without brackets is looked up as it stands.
pub proof fn law_plain_host_is_looked_up(
    host: Seq<char>,
    port: Option<u16>,
    path: Seq<char>,
    given_name: Option<Seq<char>>,
)
    requires
        host.len() == 0 || host[0] != '[' || host[host.len() - 1] != ']',
    ensures
        target_of(host, port, path, given_name).address == host,
        target_of(host, port, path, None).server_name == host,
{
}

/// The port of the URL is used, and 4433 where it names none.
pub proof fn law_port(
    host: Seq<char>,
    port: u16,
    path: Seq<char>,
    given_name: Option<Seq<char>>,
)
    ensures
        target_of(host, Some(port), path, given_name).port == port,
        target_of(host, None, path, given_name).port == 4433,
{
}

/// A request is `GET`, a space, the path, a carriage return and a line feed.
pub proof fn law_request_line(
    host: Seq<char>,
    port: Option<u16>,
    path: Seq<char>,
    given_name: Option<Seq<char>>,
)
    ensures
        target_of(host, port, path, given_name).request == seq!['G', 'E', 'T', ' '] + path + seq![
            '\r',
            '\n',
        ],
{
    reveal_strlit("GET ");
    reveal_strlit("\r\n");
    assert("GET "@ =~= seq!['G', 'E', 'T', ' ']);
    assert("\r\n"@ =~= seq!['\r', '\n']);
}

/// The parts of a URL and a target stand for what they hold.
pub proof fn law_parts_keep_their_values(parts: UrlParts, target: Target)
    ensures
        parts@.0 is Some <==> parts.host is Some,
        parts.host matches Some(host) ==> parts@.0 == Some(host@),
        parts@.1 == parts.port,
        parts@.2 == parts.path@,
        target@.address == target.address@,
        target@.port == target.port,
        target@.server_name == target.server_name@,
        target@.request == target.request@,
{
}

/// Two targets made from the same parts agree in all but the name that is
/// checked, whatever names are given, and a bracketed host is looked up
/// without its brackets.
pub proof fn law_targets_of_the_same_parts(
    parts: UrlParts,
    name1: Option<String>,
    name2: Option<String>,
    target1: Target,
    target2: Target,
    address: Seq<char>,
)
    requires
        call_ensures(Target::new, (parts, name1), target1),
        call_ensures(Target::new, (parts, name2), target2),
    ensures
        target1.address@ == target2.address@,
        target1.port == target2.port,
        target1.request@ == target2.request@,
        name1 matches Some(name) ==> target1.server_name@ == name@,
        name1 is None ==> target1.server_name@ == target1.address@,
        parts.host matches Some(host) && host@ == seq!['['] + address + seq![']']
            ==> target1.address@ == address,
{
    law_brackets_are_stripped(address);
}

/// Stripping gives the address inside the brackets, and otherwise the host
/// itself: nothing is lost but the two brackets.
pub proof fn law_stripped_hosts(host: &str, stripped: &str, address: Seq<char>)
    requires
        call_ensures(strip_ipv6_brackets, (host,), stripped),
    ensures
        host@ == seq!['['] + address + seq![']'] ==> stripped@ == address,
        stripped@.len() == host@.len() ==> stripped@ == host@,
        stripped@.len() == host@.len() || stripped@.len() + 2 == host@.len() && host@ == seq!['[']
            + stripped@ + seq![']'],
{
    law_brackets_are_stripped(address);
    if stripped@.len() != host@.len() {
        assert(host@ =~= seq!['['] + stripped@ + seq![']']);
    }
}

} // verus!
