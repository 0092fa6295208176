//! The listen-address grammar.
//!
//! A listen address arrives as a URL. `http`/`https` addresses must name a
//! literal IP host and resolve to that host with an explicit or scheme-default
//! port. `unix` addresses encode a filesystem path — `unix:[//root/]path` —
//! plus optional `user`, `group` and `mode` parameters in the query, separated
//! by commas; a relative path is resolved against the runtime directory.
//!
//! URL syntax itself is parsed by a trusted call; everything the grammar
//! decides on the parsed parts is verified here.

use vstd::prelude::*;
use vstd::string::StrSliceExecFns;
use vstd::string::StringExecFns;

use crate::config::ConfigErrorVariant;
use crate::config::ConfigErrorVariantView;
use crate::text::first_at;
use crate::text::lemma_first_at;
use crate::text::octal_u32_ok;
use crate::text::parse_u32_octal;
use crate::text::radix_value;
use crate::text::str_eq;
use crate::text::find_char;

verus! {

broadcast use vstd::string::group_string_axioms;

/// Mode bits given to a Unix-domain socket whose address names none,
/// following the common supervisor default.
pub const DEFAULT_SOCKET_MODE: u32 = 0o666;

/// A literal IP address, v4 or v6 (v6 as its eight groups).
#[derive(Debug, Copy, Clone, Eq, PartialEq, Structural)]
pub enum IpAddress {
    V4(u8, u8, u8, u8),
    V6(u16, u16, u16, u16, u16, u16, u16, u16),
}

/// An IP endpoint a TCP listener binds to.
#[derive(Debug, Copy, Clone, Eq, PartialEq, Structural)]
pub struct SocketAddress {
    pub ip: IpAddress,
    pub port: u16,
}

/// The host component of a parsed URL.
#[derive(Debug, Clone)]
pub enum UrlHost {
    /// The URL has no host component, as in `unix:nginx` or `unix:///path`.
    Absent,
    /// A registered name, as in `http://example.com` or `unix://run/sock`.
    Domain(String),
    /// A literal IP address.
    Ip(IpAddress),
}

pub enum UrlHostView {
    Absent,
    Domain(Seq<char>),
    Ip(IpAddress),
}

impl View for UrlHost {
    type V = UrlHostView;

    open spec fn view(&self) -> UrlHostView {
        match self {
            UrlHost::Absent => UrlHostView::Absent,
            UrlHost::Domain(d) => UrlHostView::Domain(d@),
            UrlHost::Ip(ip) => UrlHostView::Ip(*ip),
        }
    }
}

/// A URL decomposed into the plain components the grammar reads.
#[derive(Debug, Clone)]
pub struct UrlParts {
    pub scheme: String,
    pub host: UrlHost,
    pub port: Option<u16>,
    pub path: String,
    pub query: Option<String>,
}

pub struct UrlPartsView {
    pub scheme: Seq<char>,
    pub host: UrlHostView,
    pub port: Option<u16>,
    pub path: Seq<char>,
    pub query: Option<Seq<char>>,
}

impl View for UrlParts {
    type V = UrlPartsView;

    open spec fn view(&self) -> UrlPartsView {
        UrlPartsView {
            scheme: self.scheme@,
            host: self.host@,
            port: self.port,
            path: self.path@,
            query: match self.query {
                Some(q) => Some(q@),
                None => None,
            },
        }
    }
}

/// What URL parsing returns on a given input text: `None` for a malformed
/// URL, otherwise the decomposition into plain components. The result is a
/// function of the text alone; its value on a given text is not axiomatized
/// here, only applied by the trusted parsing call below.
pub uninterp spec fn url_parse_spec(s: Seq<char>) -> Option<UrlPartsView>;

/// Declares `url::Host` so the conversion below may take it; the value is
/// opaque here.
#[verifier::external_type_specification]
#[verifier::external_body]
#[verifier::reject_recursive_types(S)]
pub struct ExUrlHost<S>(url::Host<S>);

/// Relies on `url::Host`, `Ipv4Addr::octets` and `Ipv6Addr::segments`: one
/// arm per host kind, moving the address numbers into the crate's plain
/// representation.
#[verifier::external_body]
fn host_from_parsed(h: Option<url::Host<&str>>) -> (r: UrlHost) {
    match h {
        Some(url::Host::Ipv4(v4)) => {
            let o = v4.octets();
            UrlHost::Ip(IpAddress::V4(o[0], o[1], o[2], o[3]))
        },
        Some(url::Host::Ipv6(v6)) => {
            let g = v6.segments();
            UrlHost::Ip(IpAddress::V6(g[0], g[1], g[2], g[3], g[4], g[5], g[6], g[7]))
        },
        Some(url::Host::Domain(d)) => UrlHost::Domain(d.to_owned()),
        None => UrlHost::Absent,
    }
}

/// Relies on `url::Url::parse` and the component accessors `scheme`, `host`,
/// `port`, `path` and `query`: parsing either fails or yields the components
/// this call decomposes into plain values, and the outcome depends on the
/// input text alone, which is what `url_parse_spec` names.
#[verifier::external_body]
pub fn parse_url(s: &str) -> (r: Option<UrlParts>)
    ensures
        r matches Some(p) ==> url_parse_spec(s@) == Some(p@),
        r is None ==> url_parse_spec(s@) is None,
{
    match url::Url::parse(s) {
        Ok(u) => Some(UrlParts {
            scheme: u.scheme().to_owned(),
            host: host_from_parsed(u.host()),
            port: u.port(),
            path: u.path().to_owned(),
            query: u.query().map(|q| q.to_owned()),
        }),
        Err(_) => None,
    }
}

/// A Unix-domain socket address: filesystem path, optional owner and group,
/// and permission mode bits.
#[derive(Debug, Clone)]
pub struct UnixSocket {
    pub path: String,
    pub user: Option<String>,
    pub group: Option<String>,
    pub mode: u32,
}

pub struct UnixSocketView {
    pub path: Seq<char>,
    pub user: Option<Seq<char>>,
    pub group: Option<Seq<char>>,
    pub mode: u32,
}

impl UnixSocket {
    /// An owned copy with the same view.
    pub fn duplicate(&self) -> (r: UnixSocket)
        ensures
            r@ == self@,
    {
        UnixSocket {
            path: self.path.clone(),
            user: match &self.user {
                Some(u) => Some(u.clone()),
                None => None,
            },
            group: match &self.group {
                Some(g) => Some(g.clone()),
                None => None,
            },
            mode: self.mode,
        }
    }
}

impl View for UnixSocket {
    type V = UnixSocketView;

    open spec fn view(&self) -> UnixSocketView {
        UnixSocketView {
            path: self.path@,
            user: match self.user {
                Some(u) => Some(u@),
                None => None,
            },
            group: match self.group {
                Some(g) => Some(g@),
                None => None,
            },
            mode: self.mode,
        }
    }
}

/// The optional parameters a `unix` address may carry in its query.
#[derive(Debug, Clone)]
pub struct UnixParams {
    pub user: Option<String>,
    pub group: Option<String>,
    pub mode: Option<u32>,
}

pub struct UnixParamsView {
    pub user: Option<Seq<char>>,
    pub group: Option<Seq<char>>,
    pub mode: Option<u32>,
}

impl View for UnixParams {
    type V = UnixParamsView;

    open spec fn view(&self) -> UnixParamsView {
        UnixParamsView {
            user: match self.user {
                Some(u) => Some(u@),
                None => None,
            },
            group: match self.group {
                Some(g) => Some(g@),
                None => None,
            },
            mode: self.mode,
        }
    }
}

impl UnixParamsView {
    /// No parameter given yet.
    pub open spec fn empty() -> UnixParamsView {
        UnixParamsView { user: None, group: None, mode: None }
    }
}

/// One `key=value` component of a `unix` address query, folded into the
/// parameters collected so far. Unknown keys, components without `=`,
/// repeated keys and malformed modes are all rejected.
pub open spec fn spec_apply_param(comp: Seq<char>, p: UnixParamsView) -> Option<UnixParamsView> {
    let j = first_at(comp, '=');
    if j >= comp.len() {
        None
    } else {
        let key = comp.take(j as int);
        let value = comp.skip(j as int + 1);
        if key == "user"@ {
            if p.user is None {
                Some(UnixParamsView { user: Some(value), group: p.group, mode: p.mode })
            } else {
                None
            }
        } else if key == "group"@ {
            if p.group is None {
                Some(UnixParamsView { user: p.user, group: Some(value), mode: p.mode })
            } else {
                None
            }
        } else if key == "mode"@ {
            if p.mode is None && octal_u32_ok(value) {
                Some(
                    UnixParamsView {
                        user: p.user,
                        group: p.group,
                        mode: Some(radix_value(value, 8) as u32),
                    },
                )
            } else {
                None
            }
        } else {
            None
        }
    }
}

/// The comma-separated components of a `unix` address query, folded in order.
pub open spec fn spec_params_rec(q: Seq<char>, p: UnixParamsView) -> Option<UnixParamsView>
    decreases q.len(),
{
    let i = first_at(q, ',');
    if i >= q.len() {
        spec_apply_param(q, p)
    } else {
        match spec_apply_param(q.take(i as int), p) {
            Some(p2) => spec_params_rec(q.skip(i as int + 1), p2),
            None => None,
        }
    }
}

/// The parameters of a `unix` address: none when the URL has no query,
/// otherwise the query parsed as comma-separated `key=value` components.
pub open spec fn spec_unix_params(q: Option<Seq<char>>) -> Option<UnixParamsView> {
    match q {
        None => Some(UnixParamsView::empty()),
        Some(qs) => spec_params_rec(qs, UnixParamsView::empty()),
    }
}

/// Folds one component into the collected parameters, as
/// [`spec_apply_param`] describes.
fn apply_param(comp: &str, p: UnixParams) -> (r: Option<UnixParams>)
    ensures
        r matches Some(p2) ==> spec_apply_param(comp@, p@) == Some(p2@),
        r is None ==> spec_apply_param(comp@, p@) is None,
{
    let n = comp.unicode_len();
    let j = find_char(comp, 0, '=');
    proof {
        lemma_first_at(comp@, '=', j as int);
    }
    if j >= n {
        return None;
    }
    let key = comp.substring_char(0, j);
    let value = comp.substring_char(j + 1, n);
    if str_eq(key, "user") {
        if p.user.is_none() {
            Some(UnixParams { user: Some(String::from_str(value)), group: p.group, mode: p.mode })
        } else {
            None
        }
    } else if str_eq(key, "group") {
        if p.group.is_none() {
            Some(UnixParams { user: p.user, group: Some(String::from_str(value)), mode: p.mode })
        } else {
            None
        }
    } else if str_eq(key, "mode") {
        if p.mode.is_none() {
            match parse_u32_octal(value) {
                Some(m) => Some(UnixParams { user: p.user, group: p.group, mode: Some(m) }),
                None => None,
            }
        } else {
            None
        }
    } else {
        None
    }
}

/// Parses a `unix` address query, as [`spec_params_rec`] describes.
pub fn parse_unix_params(q: &str) -> (r: Option<UnixParams>)
    ensures
        r matches Some(p) ==> spec_params_rec(q@, UnixParamsView::empty()) == Some(p@),
        r is None ==> spec_params_rec(q@, UnixParamsView::empty()) is None,
{
    let n = q.unicode_len();
    let mut p = UnixParams { user: None, group: None, mode: None };
    let mut start: usize = 0;
    proof {
        assert(q@.skip(0) =~= q@);
    }
    loop
        invariant
            start <= n,
            n == q@.len(),
            spec_params_rec(q@.skip(start as int), p@) == spec_params_rec(
                q@,
                UnixParamsView::empty(),
            ),
        decreases n - start,
    {
        let end = find_char(q, start, ',');
        let comp = q.substring_char(start, end);
        proof {
            let rest = q@.skip(start as int);
            lemma_first_at(rest, ',', end - start);
            assert(rest.take(end - start) =~= q@.subrange(start as int, end as int));
            assert(rest =~= q@.subrange(start as int, n as int));
            if end < n {
                assert(rest.skip(end - start + 1) =~= q@.skip(end + 1));
            }
        }
        match apply_param(comp, p) {
            Some(p2) => {
                p = p2;
            },
            None => {
                return None;
            },
        }
        if end == n {
            return Some(p);
        }
        start = end + 1;
    }
}

/// What one listen address resolves to: an entry of one of the three buckets.
#[derive(Debug, Clone)]
pub enum ListenTarget {
    Http(SocketAddress),
    Https(SocketAddress),
    Unix(UnixSocket),
}

pub enum ListenTargetView {
    Http(SocketAddress),
    Https(SocketAddress),
    Unix(UnixSocketView),
}

impl View for ListenTarget {
    type V = ListenTargetView;

    open spec fn view(&self) -> ListenTargetView {
        match self {
            ListenTarget::Http(a) => ListenTargetView::Http(*a),
            ListenTarget::Https(a) => ListenTargetView::Https(*a),
            ListenTarget::Unix(u) => ListenTargetView::Unix(u@),
        }
    }
}

/// The port an `http` or `https` address resolves to when it names none.
pub open spec fn spec_default_port(scheme: Seq<char>) -> u16 {
    if scheme == "https"@ {
        443
    } else {
        80
    }
}

/// The filesystem path a `unix` address names, before resolution against the
/// runtime directory: a non-empty host component is the root path segment.
pub open spec fn spec_unix_full_path(host: UrlHostView, path: Seq<char>) -> Seq<char> {
    match host {
        UrlHostView::Domain(d) => if d.len() == 0 {
            path
        } else {
            "/"@ + d + path
        },
        _ => path,
    }
}

/// Which bucket a parsed listen address falls into, and the entry it adds.
///
/// `http`/`https` require a literal IP host and take the explicit or
/// scheme-default port. `unix` rejects an IP host, assembles the filesystem
/// path from host and path components, resolves a relative path against the
/// runtime directory, parses the optional query parameters, and fills mode
/// bits in with [`DEFAULT_SOCKET_MODE`] when the address names none. Any
/// other scheme is rejected.
pub open spec fn spec_classify_url(p: UrlPartsView, runtime: Seq<char>) -> Result<
    ListenTargetView,
    ConfigErrorVariantView,
> {
    if p.scheme == "http"@ || p.scheme == "https"@ {
        match p.host {
            UrlHostView::Ip(ip) => {
                let port = match p.port {
                    Some(pt) => pt,
                    None => spec_default_port(p.scheme),
                };
                if p.scheme == "http"@ {
                    Ok(ListenTargetView::Http(SocketAddress { ip, port }))
                } else {
                    Ok(ListenTargetView::Https(SocketAddress { ip, port }))
                }
            },
            _ => Err(ConfigErrorVariantView::InvalidUrlHost),
        }
    } else if p.scheme == "unix"@ {
        if p.host is Ip {
            Err(ConfigErrorVariantView::InvalidUrlHost)
        } else {
            let full = spec_unix_full_path(p.host, p.path);
            if full.len() == 0 {
                Err(ConfigErrorVariantView::InvalidUrlHost)
            } else {
                match spec_unix_params(p.query) {
                    None => Err(ConfigErrorVariantView::Url(p.query->0)),
                    Some(params) => {
                        let resolved = if full[0] == '/' {
                            full
                        } else {
                            runtime + "/"@ + full
                        };
                        Ok(
                            ListenTargetView::Unix(
                                UnixSocketView {
                                    path: resolved,
                                    user: params.user,
                                    group: params.group,
                                    mode: match params.mode {
                                        Some(m) => m,
                                        None => DEFAULT_SOCKET_MODE,
                                    },
                                },
                            ),
                        )
                    },
                }
            }
        }
    } else {
        Err(ConfigErrorVariantView::UnsupportedScheme(p.scheme))
    }
}

/// Assembles the filesystem path of a `unix` address, as
/// [`spec_unix_full_path`] describes.
fn unix_full_path(host: &UrlHost, path: &str) -> (r: String)
    requires
        !(host@ is Ip),
    ensures
        r@ == spec_unix_full_path(host@, path@),
{
    match host {
        UrlHost::Domain(d) => {
            if d.as_str().unicode_len() == 0 {
                String::from_str(path)
            } else {
                let mut full = String::from_str("/");
                full.append(d.as_str());
                full.append(path);
                full
            }
        },
        _ => String::from_str(path),
    }
}

/// Sorts one parsed listen address into its bucket, as
/// [`spec_classify_url`] describes.
pub fn classify_url(parts: UrlParts, runtime_dir: &str) -> (r: Result<
    ListenTarget,
    ConfigErrorVariant,
>)
    ensures
        r matches Ok(t) ==> spec_classify_url(parts@, runtime_dir@) == Ok::<
            ListenTargetView,
            ConfigErrorVariantView,
        >(t@),
        r matches Err(e) ==> spec_classify_url(parts@, runtime_dir@) == Err::<
            ListenTargetView,
            ConfigErrorVariantView,
        >(e@),
{
    let is_http = str_eq(parts.scheme.as_str(), "http");
    let is_https = str_eq(parts.scheme.as_str(), "https");
    if is_http || is_https {
        match &parts.host {
            UrlHost::Ip(ip) => {
                let port = match parts.port {
                    Some(pt) => pt,
                    None => if is_http {
                        80
                    } else {
                        443
                    },
                };
                proof {
                    reveal_strlit("http");
                    reveal_strlit("https");
                    assert("http"@.len() == 4);
                    assert("https"@.len() == 5);
                    if is_http {
                        assert(parts.scheme@ != "https"@);
                    }
                }
                let addr = SocketAddress { ip: *ip, port };
                if is_http {
                    Ok(ListenTarget::Http(addr))
                } else {
                    Ok(ListenTarget::Https(addr))
                }
            },
            _ => Err(ConfigErrorVariant::InvalidUrlHost),
        }
    } else if str_eq(parts.scheme.as_str(), "unix") {
        if let UrlHost::Ip(_) = &parts.host {
            return Err(ConfigErrorVariant::InvalidUrlHost);
        }
        let full = unix_full_path(&parts.host, parts.path.as_str());
        let full_len = full.as_str().unicode_len();
        if full_len == 0 {
            return Err(ConfigErrorVariant::InvalidUrlHost);
        }
        let params = match &parts.query {
            None => UnixParams { user: None, group: None, mode: None },
            Some(q) => match parse_unix_params(q.as_str()) {
                Some(ps) => ps,
                None => {
                    return Err(ConfigErrorVariant::Url(q.clone()));
                },
            },
        };
        let resolved = if full.as_str().get_char(0) == '/' {
            full
        } else {
            let mut r = String::from_str(runtime_dir);
            r.append("/");
            r.append(full.as_str());
            r
        };
        Ok(
            ListenTarget::Unix(
                UnixSocket {
                    path: resolved,
                    user: params.user,
                    group: params.group,
                    mode: match params.mode {
                        Some(m) => m,
                        None => DEFAULT_SOCKET_MODE,
                    },
                },
            ),
        )
    } else {
        Err(ConfigErrorVariant::UnsupportedScheme(parts.scheme))
    }
}

/// What one listen address in textual form resolves to: a parse failure
/// carries the address itself; a parsed address is classified by
/// [`spec_classify_url`].
pub open spec fn spec_resolve_address(s: Seq<char>, runtime: Seq<char>) -> Result<
    ListenTargetView,
    ConfigErrorVariantView,
> {
    match url_parse_spec(s) {
        None => Err(ConfigErrorVariantView::Url(s)),
        Some(p) => spec_classify_url(p, runtime),
    }
}

/// Parses and classifies one listen address, as [`spec_resolve_address`]
/// describes.
pub fn resolve_listen_address(s: &str, runtime_dir: &str) -> (r: Result<
    ListenTarget,
    ConfigErrorVariant,
>)
    ensures
        r matches Ok(t) ==> spec_resolve_address(s@, runtime_dir@) == Ok::<
            ListenTargetView,
            ConfigErrorVariantView,
        >(t@),
        r matches Err(e) ==> spec_resolve_address(s@, runtime_dir@) == Err::<
            ListenTargetView,
            ConfigErrorVariantView,
        >(e@),
{
    match parse_url(s) {
        None => Err(ConfigErrorVariant::Url(String::from_str(s))),
        Some(parts) => classify_url(parts, runtime_dir),
    }
}

} // verus!
