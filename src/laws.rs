//! Properties of routing and forwarding that hold for every request.

use vstd::prelude::*;

use crate::dispatch::{proxy_target, relayed, request_target, route_of, RouteView};
use crate::failure::{failure_status, is_gateway_failure, Failure};
use crate::path::{escapes_root, has_parent_segment, is_prefix_of, lemma_escape_needs_parent_segment};

verus! {

/// Every request whose path starts with the prefix is forwarded, and its
/// target is the upstream base followed by the request's path and query
/// exactly as received.
pub proof fn law_prefixed_paths_are_forwarded_verbatim(
    prefix: Seq<char>,
    base: Seq<char>,
    path: Seq<char>,
    path_and_query: Option<Seq<char>>,
)
    requires
        is_prefix_of(prefix, path),
    ensures
        route_of(prefix, base, path, path_and_query) == RouteView::Proxy(
            base + request_target(path, path_and_query),
        ),
        proxy_target(base, path, path_and_query).subrange(0, base.len() as int) == base,
        proxy_target(base, path, path_and_query).subrange(
            base.len() as int,
            proxy_target(base, path, path_and_query).len() as int,
        ) == request_target(path, path_and_query),
{
    let t = proxy_target(base, path, path_and_query);
    assert(t.subrange(0, base.len() as int) =~= base);
    assert(t.subrange(base.len() as int, t.len() as int) =~= request_target(path, path_and_query));
}

/// A request whose path does not start with the prefix is never forwarded:
/// it is served from the static root, or rejected.
pub proof fn law_other_paths_are_never_forwarded(
    prefix: Seq<char>,
    base: Seq<char>,
    path: Seq<char>,
    path_and_query: Option<Seq<char>>,
)
    requires
        !is_prefix_of(prefix, path),
    ensures
        !(route_of(prefix, base, path, path_and_query) is Proxy),
        route_of(prefix, base, path, path_and_query) is Static || route_of(
            prefix,
            base,
            path,
            path_and_query,
        ) is Rejected,
{
}

/// A static path with a `..` segment never reaches the file system: it is
/// rejected, and the rejection is answered exactly as a missing file is.
pub proof fn law_parent_segments_are_never_served(
    prefix: Seq<char>,
    base: Seq<char>,
    path: Seq<char>,
    path_and_query: Option<Seq<char>>,
)
    requires
        !is_prefix_of(prefix, path),
        has_parent_segment(path),
    ensures
        route_of(prefix, base, path, path_and_query) == RouteView::Rejected,
        failure_status(Failure::PathTraversalRejected) == failure_status(Failure::StaticNotFound),
        failure_status(Failure::PathTraversalRejected) == 404,
{
}

/// A static path that would resolve to a place above the static root never
/// returns file contents: it gets the answer of a missing file.
pub proof fn law_escaping_paths_are_never_served(
    prefix: Seq<char>,
    base: Seq<char>,
    path: Seq<char>,
    path_and_query: Option<Seq<char>>,
)
    requires
        !is_prefix_of(prefix, path),
        escapes_root(path),
    ensures
        route_of(prefix, base, path, path_and_query) == RouteView::Rejected,
        failure_status(Failure::PathTraversalRejected) == 404,
{
    lemma_escape_needs_parent_segment(path);
}

/// The upstream's response reaches the client as it came: status, headers
/// and body are the upstream's own.
pub proof fn law_upstream_response_is_relayed_unchanged<R, E>(resp: R)
    ensures
        relayed::<R, E>(Ok(resp)) == Ok::<R, Failure>(resp),
{
}

/// A failed upstream exchange becomes a gateway-class answer (502) to that
/// request alone.
pub proof fn law_upstream_failure_is_a_gateway_error<R, E>(err: E)
    ensures
        relayed::<R, E>(Err(err)) is Err,
        is_gateway_failure(relayed::<R, E>(Err(err))->Err_0),
        failure_status(relayed::<R, E>(Err(err))->Err_0) == 502,
{
}

} // verus!
