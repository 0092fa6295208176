//! The capability-gated request dispatcher shared by every connection.
//!
//! Every connection serves the same routes; what differs per listener is the
//! capability profile fixed when the listener was created. The decision —
//! which route a request hits, given method, path, query and the listener's
//! capabilities — is verified here; reading requests and writing responses
//! happens outside the crate.

use vstd::prelude::*;

verus! {

/// The capability profile of one listener, fixed at creation: whether its
/// transport is TLS-terminated (a reserved hook), and whether the privileged
/// control routes may be served on it.
#[derive(Debug, Copy, Clone, Eq, PartialEq, Structural)]
pub struct ServiceConfig {
    pub tls: bool,
    pub allow_ctl: bool,
}

impl ServiceConfig {
    /// The profile of a Unix-domain listener: plaintext, control allowed.
    pub fn unix() -> (r: Self)
        ensures
            !r.tls,
            r.allow_ctl,
    {
        ServiceConfig { tls: false, allow_ctl: true }
    }

    /// The profile of an HTTP listener: plaintext, no control.
    pub fn http() -> (r: Self)
        ensures
            !r.tls,
            !r.allow_ctl,
    {
        ServiceConfig { tls: false, allow_ctl: false }
    }

    /// The profile of an HTTPS listener: TLS reserved, no control.
    pub fn https() -> (r: Self)
        ensures
            r.tls,
            !r.allow_ctl,
    {
        ServiceConfig { tls: true, allow_ctl: false }
    }
}

/// The request methods the dispatcher distinguishes.
#[derive(Debug, Copy, Clone, Eq, PartialEq, Structural)]
pub enum HttpMethod {
    Get,
    Post,
    /// Any method other than GET or POST.
    Other,
}

/// What a dispatched request is answered with.
#[derive(Debug, Copy, Clone, Eq, PartialEq, Structural)]
pub enum RouteAction {
    /// Answer with the usage string.
    Usage,
    /// Stream the request body back unmodified.
    Echo,
    /// Serialize and return the live configuration.
    ShowConfig,
    /// Answer with a not-found response.
    NotFound,
}

/// Which route a request hits: `GET /` answers usage, `POST /echo` echoes,
/// and `GET /api?config` returns the live configuration but only where the
/// listener's profile allows control; everything else, including any `/api`
/// request on a listener without the control capability, is not found.
pub open spec fn spec_route(
    method: HttpMethod,
    path: Seq<char>,
    query: Option<Seq<char>>,
    allow_ctl: bool,
) -> RouteAction {
    if method == HttpMethod::Get && path == "/"@ {
        RouteAction::Usage
    } else if method == HttpMethod::Post && path == "/echo"@ {
        RouteAction::Echo
    } else if path == "/api"@ && allow_ctl {
        if method == HttpMethod::Get && query == Some("config"@) {
            RouteAction::ShowConfig
        } else {
            RouteAction::NotFound
        }
    } else {
        RouteAction::NotFound
    }
}

/// Dispatches one request, as [`spec_route`] describes.
pub fn route(method: HttpMethod, path: &str, query: Option<&str>, allow_ctl: bool) -> (r:
    RouteAction)
    ensures
        r == spec_route(
            method,
            path@,
            match query {
                Some(q) => Some(q@),
                None => None,
            },
            allow_ctl,
        ),
{
    if matches!(method, HttpMethod::Get) && crate::text::str_eq(path, "/") {
        RouteAction::Usage
    } else if matches!(method, HttpMethod::Post) && crate::text::str_eq(path, "/echo") {
        RouteAction::Echo
    } else if crate::text::str_eq(path, "/api") && allow_ctl {
        let config_query = match query {
            Some(q) => matches!(method, HttpMethod::Get) && crate::text::str_eq(q, "config"),
            None => false,
        };
        if config_query {
            RouteAction::ShowConfig
        } else {
            RouteAction::NotFound
        }
    } else {
        RouteAction::NotFound
    }
}

impl RouteAction {
    /// The status code of the response each action is answered with.
    pub fn status_code(&self) -> (r: u16)
        ensures
            *self == RouteAction::NotFound ==> r == 404,
            *self != RouteAction::NotFound ==> r == 200,
    {
        match self {
            RouteAction::NotFound => 404,
            _ => 200,
        }
    }
}

/// The control route is unreachable without the control capability: on a
/// listener whose profile forbids control, no request — whatever its method,
/// path and query — is dispatched to the configuration route.
pub proof fn lemma_control_requires_capability(
    method: HttpMethod,
    path: Seq<char>,
    query: Option<Seq<char>>,
)
    ensures
        spec_route(method, path, query, false) != RouteAction::ShowConfig,
{
}

/// Every POST to `/echo` is dispatched to the echo route, on every listener
/// and whatever the query: the echoed body never depends on capabilities.
pub proof fn lemma_echo_always_served(query: Option<Seq<char>>, allow_ctl: bool)
    ensures
        spec_route(HttpMethod::Post, "/echo"@, query, allow_ctl) == RouteAction::Echo,
{
    reveal_strlit("/");
    reveal_strlit("/echo");
    assert("/"@.len() == 1);
    assert("/echo"@.len() == 5);
}

/// The usage string `GET /` is answered with.
pub fn usage_text() -> (r: &'static str)
    ensures
        r@ == "Try POSTing data to /echo (ex. `curl localhost:8080/echo -XPOST -d \"Hello, World\"`)"@,
{
    "Try POSTing data to /echo (ex. `curl localhost:8080/echo -XPOST -d \"Hello, World\"`)"
}

/// The request target a control client queries the live configuration at.
pub fn control_query_target() -> (r: &'static str)
    ensures
        r@ == "/api?config"@,
{
    "/api?config"
}

} // verus!
