//! The proxy router's decisions: which backend, if any, a request path is
//! forwarded to and under what rewritten target, and what status a failed
//! upstream connection is answered with.
//!
//! Serving bytes and connecting to the upstream are I/O done by the
//! caller; everything the router decides is here.

use vstd::prelude::*;
use vstd::string::*;
use crate::endpoint::{starts_with, starts_with_lit};

verus! {

/// The locally running backends a request can be forwarded to.
#[derive(Clone, Copy, PartialEq, Eq, Structural, Debug)]
pub enum Backend {
    Prometheus,
    Pushgateway,
}

/// Where a request path is routed.
pub enum RouteDecision {
    /// Under `/explorer/`: served from the embedded static asset set,
    /// with the prefix stripped.
    Explorer { asset: String },
    /// Under a backend's path prefix: forwarded to the backend's fixed
    /// local port, with the prefix stripped from the request target.
    Forward { backend: Backend, target: String },
    /// No route matched.
    NotFound,
}

/// Routes a request path: `/explorer/` assets, `/prometheus` forwarded to
/// the local scrape engine, `/pushgateway` forwarded to the local push
/// gateway only when it is enabled, anything else not found.
pub fn route_request(path: &str, pushgateway_enabled: bool) -> (r: RouteDecision)
    ensures
        match r {
            RouteDecision::Explorer { asset } => {
                &&& starts_with(path@, "/explorer/"@)
                &&& asset@ == path@.subrange(10, path@.len() as int)
            },
            RouteDecision::Forward { backend: Backend::Prometheus, target } => {
                &&& !starts_with(path@, "/explorer/"@)
                &&& starts_with(path@, "/prometheus"@)
                &&& target@ == "http://127.0.0.1:9090"@ + path@.subrange(11, path@.len() as int)
            },
            RouteDecision::Forward { backend: Backend::Pushgateway, target } => {
                &&& !starts_with(path@, "/explorer/"@)
                &&& !starts_with(path@, "/prometheus"@)
                &&& pushgateway_enabled
                &&& starts_with(path@, "/pushgateway"@)
                &&& target@ == "http://127.0.0.1:9091"@ + path@.subrange(12, path@.len() as int)
            },
            RouteDecision::NotFound => {
                &&& !starts_with(path@, "/explorer/"@)
                &&& !starts_with(path@, "/prometheus"@)
                &&& !(pushgateway_enabled && starts_with(path@, "/pushgateway"@))
            },
        },
{
    proof {
        reveal_strlit("/explorer/");
        reveal_strlit("/prometheus");
        reveal_strlit("/pushgateway");
    }
    let len = path.unicode_len();
    if starts_with_lit(path, "/explorer/") {
        let asset = path.substring_char(10, len);
        return RouteDecision::Explorer { asset: asset.to_owned() };
    }
    if starts_with_lit(path, "/prometheus") {
        let rest = path.substring_char(11, len);
        let mut target = String::from_str("http://127.0.0.1:9090");
        target.append(rest);
        proof {
            assert(target@ =~= "http://127.0.0.1:9090"@ + path@.subrange(
                11,
                path@.len() as int,
            ));
        }
        return RouteDecision::Forward { backend: Backend::Prometheus, target };
    }
    if pushgateway_enabled && starts_with_lit(path, "/pushgateway") {
        let rest = path.substring_char(12, len);
        let mut target = String::from_str("http://127.0.0.1:9091");
        target.append(rest);
        proof {
            assert(target@ =~= "http://127.0.0.1:9091"@ + path@.subrange(
                12,
                path@.len() as int,
            ));
        }
        return RouteDecision::Forward { backend: Backend::Pushgateway, target };
    }
    RouteDecision::NotFound
}

/// The status the proxy answers with: the upstream's own status verbatim,
/// or 502 when no upstream response could be obtained. A failed upstream
/// connection is per-request and never terminates the proxy.
pub fn proxy_response_status(upstream_status: Option<u16>) -> (r: u16)
    ensures
        match upstream_status {
            Some(s) => r == s,
            None => r == 502,
        },
{
    match upstream_status {
        Some(s) => s,
        None => 502,
    }
}

/// Whether a pre-flight health probe of an endpoint counts as working: a
/// response was obtained and its status is a success status. A failing
/// probe is logged by the caller and never blocks startup.
pub fn endpoint_health_ok(response_status: Option<u16>) -> (r: bool)
    ensures
        r == (response_status matches Some(s) && 200 <= s < 300),
{
    match response_status {
        Some(s) => 200 <= s && s < 300,
        None => false,
    }
}

} // verus!
