//! Per-request failures and the response each one becomes.

use vstd::prelude::*;

verus! {

/// What can go wrong while one request is handled. None of these stops the
/// server: each becomes a response to that request alone.
#[derive(Clone, Copy, Debug, PartialEq, Eq, Structural)]
pub enum Failure {
    /// The upstream base and the request's path and query do not form a URI.
    BadUpstreamUri,
    /// The upstream could not be reached, or answered outside the protocol.
    UpstreamUnreachable,
    /// No file stands at the requested static path.
    StaticNotFound,
    /// The file system failed for another reason than a missing file.
    StaticIo,
    /// The static path tried to leave the static root.
    PathTraversalRejected,
}

/// The HTTP status that a failure is answered with. A path that tries to
/// leave the static root is answered as a missing file, so that the answer
/// tells nothing of the file system.
pub open spec fn failure_status(f: Failure) -> u16 {
    match f {
        Failure::BadUpstreamUri => 502,
        Failure::UpstreamUnreachable => 502,
        Failure::StaticNotFound => 404,
        Failure::StaticIo => 500,
        Failure::PathTraversalRejected => 404,
    }
}

/// A gateway-class failure: the upstream exchange could not be completed.
pub open spec fn is_gateway_failure(f: Failure) -> bool {
    f is BadUpstreamUri || f is UpstreamUnreachable
}

impl Failure {
    /// The HTTP status code of the response for this failure.
    pub fn status_code(&self) -> (r: u16)
        ensures
            r == failure_status(*self),
    {
        match self {
            Failure::BadUpstreamUri => 502,
            Failure::UpstreamUnreachable => 502,
            Failure::StaticNotFound => 404,
            Failure::StaticIo => 500,
            Failure::PathTraversalRejected => 404,
        }
    }

    /// The body sent to the client: the status's reason phrase, with no
    /// detail of the cause.
    pub fn client_message(&self) -> (r: String)
        ensures
            failure_status(*self) == 502 ==> r@ == "Bad Gateway"@,
            failure_status(*self) == 404 ==> r@ == "Not Found"@,
            failure_status(*self) == 500 ==> r@ == "Internal Server Error"@,
    {
        match self {
            Failure::BadUpstreamUri => String::from_str("Bad Gateway"),
            Failure::UpstreamUnreachable => String::from_str("Bad Gateway"),
            Failure::StaticNotFound => String::from_str("Not Found"),
            Failure::StaticIo => String::from_str("Internal Server Error"),
            Failure::PathTraversalRejected => String::from_str("Not Found"),
        }
    }
}

} // verus!
