//! The URI type of the HTTP stack, and its parser.

use vstd::prelude::*;

verus! {

#[verifier::external_type_specification]
#[verifier::external_body]
pub struct ExUri(hyper::Uri);

#[verifier::external_type_specification]
#[verifier::external_body]
pub struct ExInvalidUri(hyper::http::uri::InvalidUri);

/// Whether the `http` crate's URI parser accepts the text `s`.
pub uninterp spec fn uri_accepted(s: Seq<char>) -> bool;

/// Relies on `TryFrom<&str> for hyper::Uri` (the `http` crate's parser):
/// whether it accepts depends on the text alone.
#[verifier::external_body]
pub(crate) fn parse_uri(s: &str) -> (r: Result<hyper::Uri, hyper::http::uri::InvalidUri>)
    ensures
        r is Ok <==> uri_accepted(s@),
{
    hyper::Uri::try_from(s)
}

} // verus!
