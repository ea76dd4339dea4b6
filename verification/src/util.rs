//! Request normalization and the singleton connect service.
//!
//! A request bound for a transport without network addressing still has to
//! satisfy protocol invariants that demand a scheme and an authority. The
//! normalizer rewrites both to fixed sentinel values and leaves the
//! path-and-query untouched.

use vstd::prelude::*;
use crate::connector::GrpcConnector;

verus! {

/// The addressing fields of an outbound request's URI, as the normalizer
/// sees them. Each field is absent or a string, as in a parsed URI.
pub struct RequestUri {
    pub scheme: Option<String>,
    pub authority: Option<String>,
    pub path_and_query: Option<String>,
}

/// The mathematical value of a [`RequestUri`]: each field as an optional
/// character sequence.
#[verifier::ext_equal]
pub ghost struct RequestUriView {
    pub scheme: Option<Seq<char>>,
    pub authority: Option<Seq<char>>,
    pub path_and_query: Option<Seq<char>>,
}

impl View for RequestUri {
    type V = RequestUriView;

    open spec fn view(&self) -> RequestUriView {
        RequestUriView {
            scheme: match self.scheme {
                Some(s) => Some(s@),
                None => None,
            },
            authority: match self.authority {
                Some(a) => Some(a@),
                None => None,
            },
            path_and_query: match self.path_and_query {
                Some(p) => Some(p@),
                None => None,
            },
        }
    }
}

/// What normalization does to a request URI: the scheme becomes the fixed
/// sentinel `http`, the authority the fixed sentinel `localhost`, and the
/// path-and-query is kept exactly as it was.
pub open spec fn normalized_uri(u: RequestUriView) -> RequestUriView {
    RequestUriView {
        scheme: Some("http"@),
        authority: Some("localhost"@),
        path_and_query: u.path_and_query,
    }
}

/// Rewrite an outbound request's scheme and authority to the sentinel values
/// the protocol layer requires, preserving the path-and-query. A request
/// without a non-empty path-and-query is a programming error in the layer
/// above and is excluded by precondition.
pub fn set_request_uri_scheme_and_authority(request: &mut RequestUri)
    requires
        old(request)@.path_and_query matches Some(p) && p.len() > 0,
    ensures
        final(request)@ == normalized_uri(old(request)@),
{
    request.scheme = Some("http".to_owned());
    request.authority = Some("localhost".to_owned());
}

/// Normalization is idempotent: applying it twice yields what one
/// application yields, and no application ever alters the path-and-query.
pub proof fn lemma_normalizer_idempotent(u: RequestUriView)
    ensures
        normalized_uri(normalized_uri(u)) == normalized_uri(u),
        normalized_uri(u).path_and_query == u.path_and_query,
{
}

/// The connect step of the singleton strategy: whenever the lifecycle needs
/// a fresh protocol connection, this service runs its connector once. It
/// never reuses a connection; reuse is the lifecycle's job.
pub struct SingletonConnectService {
    pub connector: GrpcConnector,
}

impl SingletonConnectService {
    pub fn new(connector: GrpcConnector) -> (r: Self)
        ensures
            r.connector == connector,
    {
        SingletonConnectService { connector }
    }

    /// Readiness is the stored connector's readiness: the service adds no
    /// gating of its own.
    pub fn requires_readiness_probe(&self) -> (r: bool)
        ensures
            r == (self.connector is Custom),
    {
        self.connector.requires_readiness_probe()
    }
}

} // verus!
