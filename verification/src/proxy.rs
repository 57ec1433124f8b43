//! How a request reaches the device: through the system proxy or directly,
//! and the message for a request that failed on the way.

use vstd::prelude::*;
use vstd::string::StringExecFns;

use crate::text::{eq_ascii_nocase, eq_ignore_ascii_case};

verus! {

/// Which HTTP client carries the requests.
#[derive(Debug, Clone, Copy, PartialEq, Eq, Structural)]
pub enum ProxyMode {
    /// Always through the proxy configured in the environment.
    System,
    /// Never through a proxy.
    Direct,
    /// Directly for local and private hosts, through the system proxy otherwise.
    Auto,
}

/// The name of a proxy mode on the command line and in the logs.
pub open spec fn spec_proxy_mode_name(mode: ProxyMode) -> Seq<char> {
    match mode {
        ProxyMode::System => "system"@,
        ProxyMode::Direct => "direct"@,
        ProxyMode::Auto => "auto"@,
    }
}

impl ProxyMode {
    /// The name of the mode: `system`, `direct` or `auto`.
    pub fn as_str(self) -> (r: &'static str)
        ensures
            r@ == spec_proxy_mode_name(self),
    {
        match self {
            Self::System => "system",
            Self::Direct => "direct",
            Self::Auto => "auto",
        }
    }
}

/// The host that `url::Url::parse` (re-exported as `reqwest::Url`) finds in a
/// URL, as `Url::host_str` returns it; `None` when the URL does not parse or
/// has no host.
pub uninterp spec fn url_host(url: Seq<char>) -> Option<Seq<char>>;

/// Parses `url` with `reqwest::Url::parse` and returns `host_str()` of the
/// result. The result is named `url_host`; nothing else is claimed.
#[verifier::external_body]
fn host_of_url(url: &str) -> (r: Option<String>)
    ensures
        r.deep_view() == url_host(url@),
{
    reqwest::Url::parse(url).ok().and_then(|u| u.host_str().map(|h| h.to_string()))
}

/// An IP address: four octets or eight 16-bit groups.
pub enum IpAddress {
    V4(u8, u8, u8, u8),
    V6(u16, u16, u16, u16, u16, u16, u16, u16),
}

/// What parsing a string as `IpAddr` (the `FromStr` of std's IP address
/// type) gives, octets or groups in order; `None` for text that is no address.
pub uninterp spec fn ip_of_text(s: Seq<char>) -> Option<IpAddress>;

/// Parses `s` with `FromStr` of `core::net::IpAddr`. The result is named
/// `ip_of_text`; nothing else is claimed.
#[verifier::external_body]
fn parse_ip(s: &str) -> (r: Option<IpAddress>)
    ensures
        r == ip_of_text(s@),
{
    match s.parse::<core::net::IpAddr>() {
        Ok(core::net::IpAddr::V4(a)) => {
            let o = a.octets();
            Some(IpAddress::V4(o[0], o[1], o[2], o[3]))
        },
        Ok(core::net::IpAddr::V6(a)) => {
            let g = a.segments();
            Some(IpAddress::V6(g[0], g[1], g[2], g[3], g[4], g[5], g[6], g[7]))
        },
        Err(_) => None,
    }
}

/// Addresses that are not reached through a proxy: for IPv4 the private
/// ranges 10/8, 172.16/12 and 192.168/16, loopback 127/8 and link-local
/// 169.254/16; for IPv6 loopback `::1`, unique local `fc00::/7` and unicast
/// link-local `fe80::/10`.
pub open spec fn is_local_address(a: IpAddress) -> bool {
    match a {
        IpAddress::V4(o0, o1, _, _) => {
            ||| o0 == 10
            ||| o0 == 172 && 16 <= o1 <= 31
            ||| o0 == 192 && o1 == 168
            ||| o0 == 127
            ||| o0 == 169 && o1 == 254
        },
        IpAddress::V6(g0, g1, g2, g3, g4, g5, g6, g7) => {
            ||| g0 == 0 && g1 == 0 && g2 == 0 && g3 == 0 && g4 == 0 && g5 == 0 && g6 == 0 && g7
                == 1
            ||| 0xfc00 <= g0 <= 0xfdff
            ||| 0xfe80 <= g0 <= 0xfebf
        },
    }
}

/// Whether an address is local or private.
pub fn local_address(a: &IpAddress) -> (r: bool)
    ensures
        r == is_local_address(*a),
{
    match a {
        IpAddress::V4(o0, o1, _, _) => {
            let (o0, o1) = (*o0, *o1);
            o0 == 10 || (o0 == 172 && 16 <= o1 && o1 <= 31) || (o0 == 192 && o1 == 168) || o0
                == 127 || (o0 == 169 && o1 == 254)
        },
        IpAddress::V6(g0, g1, g2, g3, g4, g5, g6, g7) => {
            let g0 = *g0;
            (g0 == 0 && *g1 == 0 && *g2 == 0 && *g3 == 0 && *g4 == 0 && *g5 == 0 && *g6 == 0 && *g7
                == 1) || (0xfc00 <= g0 && g0 <= 0xfdff) || (0xfe80 <= g0 && g0 <= 0xfebf)
        },
    }
}

/// A host that is `localhost` (in any ASCII case), or whose text parses
/// (`ip`) as a local or private IP address.
pub open spec fn host_bypasses_proxy(host: Seq<char>, ip: Option<IpAddress>) -> bool {
    eq_ascii_nocase(host, "localhost"@) || match ip {
        Some(a) => is_local_address(a),
        None => false,
    }
}

/// Whether requests to `host`, whose text parses as `ip` (`None` when it is
/// no address), go around the proxy in `auto` mode.
pub fn host_bypass(host: &str, ip: &Option<IpAddress>) -> (r: bool)
    ensures
        r == host_bypasses_proxy(host@, *ip),
{
    if eq_ignore_ascii_case(host, "localhost") {
        return true;
    }
    match ip {
        Some(a) => local_address(a),
        None => false,
    }
}

/// A URL whose host is `localhost` (in any ASCII case) or a local or private
/// IP address.
pub open spec fn bypasses_proxy(url: Seq<char>) -> bool {
    match url_host(url) {
        None => false,
        Some(h) => host_bypasses_proxy(h, ip_of_text(h)),
    }
}

/// Whether a request to `request_url` goes around the proxy in `auto` mode.
pub fn should_bypass_proxy(request_url: &str) -> (r: bool)
    ensures
        r == bypasses_proxy(request_url@),
{
    let host = match host_of_url(request_url) {
        Some(h) => h,
        None => return false,
    };
    let ip = parse_ip(host.as_str());
    host_bypass(host.as_str(), &ip)
}

/// What the client reports of a request that got no HTTP response.
pub struct TransportFailure {
    pub is_timeout: bool,
    pub is_connect: bool,
    pub is_request: bool,
    pub is_body: bool,
    pub is_decode: bool,
    /// The error as it displays itself.
    pub message: String,
    /// The messages of the underlying errors, outermost first.
    pub causes: Vec<String>,
}

/// The class of a failure, the first that applies in this order.
pub open spec fn failure_kind(f: &TransportFailure) -> Seq<char> {
    if f.is_timeout {
        "timeout"@
    } else if f.is_connect {
        "connect"@
    } else if f.is_request {
        "request"@
    } else if f.is_body {
        "body"@
    } else if f.is_decode {
        "decode"@
    } else {
        "unknown"@
    }
}

fn failure_kind_name(f: &TransportFailure) -> (r: &'static str)
    ensures
        r@ == failure_kind(f),
{
    if f.is_timeout {
        "timeout"
    } else if f.is_connect {
        "connect"
    } else if f.is_request {
        "request"
    } else if f.is_body {
        "body"
    } else if f.is_decode {
        "decode"
    } else {
        "unknown"
    }
}

/// The parts joined with `sep` between each two of them.
pub open spec fn join(parts: Seq<Seq<char>>, sep: Seq<char>) -> Seq<char>
    decreases parts.len(),
{
    if parts.len() == 0 {
        Seq::empty()
    } else if parts.len() == 1 {
        parts[0]
    } else {
        join(parts.drop_last(), sep) + sep + parts.last()
    }
}

/// Joins `parts` with `sep`.
pub fn join_strings(parts: &Vec<String>, sep: &str) -> (r: String)
    ensures
        r@ == join(parts.deep_view(), sep@),
{
    let ghost pv = parts.deep_view();
    let n: usize = parts.len();
    if n == 0 {
        return String::new();
    }
    let mut r = parts[0].clone();
    proof {
        assert(pv.take(1).drop_last() =~= Seq::<Seq<char>>::empty());
        assert(pv.take(1)[0] == pv[0]);
    }
    let mut i: usize = 1;
    while i < n
        invariant
            n == parts@.len(),
            pv == parts.deep_view(),
            1 <= i <= n,
            r@ == join(pv.take(i as int), sep@),
        decreases n - i,
    {
        r.append(sep);
        r.append(parts[i].as_str());
        proof {
            assert(pv.take(i + 1).drop_last() =~= pv.take(i as int));
            assert(pv.take(i + 1).last() == pv[i as int]);
        }
        i = i + 1;
    }
    proof {
        assert(pv.take(n as int) =~= pv);
    }
    r
}

/// The advice added when a local target failed through the system proxy.
pub open spec fn proxy_hint() -> Seq<char> {
    " | hint: local/private target detected; try --proxy auto/direct or set NO_PROXY for this host"@
}

/// The message for a `method` request to `url` that failed with `f`.
pub open spec fn request_error_message(
    method: Seq<char>,
    url: Seq<char>,
    f: &TransportFailure,
    proxy_mode: ProxyMode,
    proxy_env: bool,
) -> Seq<char> {
    let base = method + " "@ + url + " failed ("@ + failure_kind(f) + "): "@ + f.message@;
    let with_causes = if f.causes@.len() == 0 {
        base
    } else {
        base + " | caused by: "@ + join(f.causes.deep_view(), " -> "@)
    };
    if proxy_mode == ProxyMode::System && bypasses_proxy(url) && proxy_env {
        with_causes + proxy_hint()
    } else {
        with_causes
    }
}

/// Describes a failed request: method, URL, class of failure, the error and
/// its causes, and a hint when a local target was sent through a proxy that
/// the environment configures (`proxy_env`).
pub fn format_request_error(
    f: &TransportFailure,
    method: &str,
    url: &str,
    proxy_mode: ProxyMode,
    proxy_env: bool,
) -> (r: String)
    ensures
        r@ == request_error_message(method@, url@, f, proxy_mode, proxy_env),
{
    let mut msg = String::from_str(method);
    msg.append(" ");
    msg.append(url);
    msg.append(" failed (");
    msg.append(failure_kind_name(f));
    msg.append("): ");
    msg.append(f.message.as_str());
    if f.causes.len() > 0 {
        msg.append(" | caused by: ");
        let chain = join_strings(&f.causes, " -> ");
        msg.append(chain.as_str());
    }
    if proxy_mode == ProxyMode::System && should_bypass_proxy(url) && proxy_env {
        msg.append(
            " | hint: local/private target detected; try --proxy auto/direct or set NO_PROXY for this host",
        );
    }
    msg
}

} // verus!
