//! Deciding, per request, whether to forward it upstream or serve a file,
//! and composing the upstream target.

use vstd::prelude::*;

use crate::config::ServerConfig;
use crate::failure::Failure;
use crate::path::{contains_parent_segment, has_parent_segment, is_prefix_of, starts_with};
use crate::uri::{parse_uri, uri_accepted};

verus! {

/// The text of an optional string.
pub open spec fn text_of(o: Option<&str>) -> Option<Seq<char>> {
    match o {
        Some(s) => Some(s@),
        None => None,
    }
}

/// The part of the request line that is forwarded: the path and query as
/// received, or the bare path when the request has no path-and-query part.
pub open spec fn request_target(path: Seq<char>, path_and_query: Option<Seq<char>>) -> Seq<char> {
    match path_and_query {
        Some(q) => q,
        None => path,
    }
}

/// The upstream target: the base followed, verbatim, by the request target.
pub open spec fn proxy_target(
    base: Seq<char>,
    path: Seq<char>,
    path_and_query: Option<Seq<char>>,
) -> Seq<char> {
    base + request_target(path, path_and_query)
}

/// Where a request goes, as values.
pub enum RouteView {
    Proxy(Seq<char>),
    Static,
    Rejected,
}

/// The route of a request with the given path under the given prefix and
/// upstream base. The prefix is tested first, so a path under it is forwarded
/// even when a file of that name exists.
pub open spec fn route_of(
    prefix: Seq<char>,
    base: Seq<char>,
    path: Seq<char>,
    path_and_query: Option<Seq<char>>,
) -> RouteView {
    if is_prefix_of(prefix, path) {
        RouteView::Proxy(proxy_target(base, path, path_and_query))
    } else if has_parent_segment(path) {
        RouteView::Rejected
    } else {
        RouteView::Static
    }
}

/// Where a request goes.
#[derive(Clone, Debug)]
pub enum Route {
    /// Forward it to the upstream, at this target.
    Proxy(String),
    /// Serve it from the static root.
    Static,
    /// Answer it as a missing file: the path names a parent directory.
    Rejected,
}

impl View for Route {
    type V = RouteView;

    open spec fn view(&self) -> RouteView {
        match self {
            Route::Proxy(t) => RouteView::Proxy(t@),
            Route::Static => RouteView::Static,
            Route::Rejected => RouteView::Rejected,
        }
    }
}

/// Appends the request target to the upstream base, with no normalisation.
pub fn compose_target(base: &str, path: &str, path_and_query: Option<&str>) -> (r: String)
    ensures
        r@ == proxy_target(base@, path@, text_of(path_and_query)),
{
    let mut t = String::from_str(base);
    match path_and_query {
        Some(q) => t.append(q),
        None => t.append(path),
    }
    t
}

/// Routes one request by its path. Nothing about the request is read but
/// its path and path-and-query, and nothing is changed.
pub fn dispatch(config: &ServerConfig, path: &str, path_and_query: Option<&str>) -> (r: Route)
    ensures
        r@ == route_of(config.prefix@, config.upstream_base@, path@, text_of(path_and_query)),
{
    if starts_with(path, config.prefix.as_str()) {
        Route::Proxy(compose_target(config.upstream_base.as_str(), path, path_and_query))
    } else if contains_parent_segment(path) {
        Route::Rejected
    } else {
        Route::Static
    }
}

/// Parses a composed target. A target that is not a URI fails the request
/// with a gateway-class failure before anything is sent.
pub fn target_uri(target: &str) -> (r: Result<hyper::Uri, Failure>)
    ensures
        r is Ok <==> uri_accepted(target@),
        r is Err ==> r == Err::<hyper::Uri, Failure>(Failure::BadUpstreamUri),
{
    match parse_uri(target) {
        Ok(u) => Ok(u),
        Err(_) => Err(Failure::BadUpstreamUri),
    }
}

/// The answer to the client once the upstream exchange is over: the
/// upstream's response itself, or a gateway-class failure.
pub open spec fn relayed<R, E>(outcome: Result<R, E>) -> Result<R, Failure> {
    match outcome {
        Ok(resp) => Ok(resp),
        Err(_) => Err(Failure::UpstreamUnreachable),
    }
}

/// Turns the outcome of the upstream exchange into the answer to the
/// client: the response is handed on untouched, an error becomes a failure
/// of this request alone.
pub fn relay<R, E>(outcome: Result<R, E>) -> (r: Result<R, Failure>)
    ensures
        r == relayed(outcome),
{
    match outcome {
        Ok(resp) => Ok(resp),
        Err(_) => Err(Failure::UpstreamUnreachable),
    }
}

} // verus!
