//! A tonic endpoint together with the settings it was given. Its fields are
//! private: an endpoint is only made by the functions here, each of which
//! applies a setting to the tonic endpoint and records it.

use vstd::prelude::*;
use tonic::transport::{Endpoint, Error as TransportError};

verus! {

/// A tonic endpoint: where and how a gRPC channel connects. Its contents are
/// not visible to the library.
#[verifier::external_type_specification]
#[verifier::external_body]
pub struct ExEndpoint(Endpoint);

/// A tonic transport error.
#[verifier::external_type_specification]
#[verifier::external_body]
pub struct ExTransportError(TransportError);

/// Whether tonic accepts `uri` as the URI of an endpoint.
pub uninterp spec fn endpoint_uri_parses(uri: Seq<char>) -> bool;

/// A tonic endpoint and the settings applied to it: the URI it was parsed from
/// and the connect and request timeouts, in seconds, that were set on it
/// (`None` where none was).
pub struct ControlPlaneEndpoint {
    endpoint: Endpoint,
    uri: String,
    connect_timeout_secs: Option<u64>,
    request_timeout_secs: Option<u64>,
}

impl ControlPlaneEndpoint {
    /// The URI the endpoint was parsed from.
    pub closed spec fn uri(self) -> Seq<char> {
        self.uri@
    }

    /// The seconds allowed for connecting, where set.
    pub closed spec fn connect_timeout(self) -> Option<u64> {
        self.connect_timeout_secs
    }

    /// The seconds allowed for each request, where set.
    pub closed spec fn request_timeout(self) -> Option<u64> {
        self.request_timeout_secs
    }

    /// The tonic endpoint, to connect over.
    pub fn endpoint(&self) -> &Endpoint {
        &self.endpoint
    }

    /// The URI the endpoint was parsed from.
    pub fn uri_text(&self) -> (res: &str)
        ensures
            res@ == self.uri(),
    {
        self.uri.as_str()
    }

    /// The seconds allowed for connecting, where set.
    pub fn connect_timeout_secs(&self) -> (res: Option<u64>)
        ensures
            res == self.connect_timeout(),
    {
        self.connect_timeout_secs
    }

    /// The seconds allowed for each request, where set.
    pub fn request_timeout_secs(&self) -> (res: Option<u64>)
        ensures
            res == self.request_timeout(),
    {
        self.request_timeout_secs
    }
}

/// `Endpoint::from_shared`: parses `uri` (after a UTF-8 check, which a `String`
/// always passes) as an endpoint URI, without any I/O. It succeeds exactly when
/// the text parses, and the endpoint it gives is parsed from `uri` and has no
/// timeouts set.
#[verifier::external_body]
pub(crate) fn parse_endpoint(uri: String) -> (res: Result<ControlPlaneEndpoint, TransportError>)
    ensures
        res is Ok <==> endpoint_uri_parses(uri@),
        res matches Ok(e) ==> e.uri() == uri@ && e.connect_timeout() is None && e.request_timeout() is None,
{
    match Endpoint::from_shared(uri.clone()) {
        Ok(endpoint) => Ok(ControlPlaneEndpoint { endpoint, uri, connect_timeout_secs: None, request_timeout_secs: None }),
        Err(err) => Err(err),
    }
}

/// `Endpoint::connect_timeout`: the same endpoint with `secs` seconds allowed
/// for connecting; its URI and request timeout are unchanged.
#[verifier::external_body]
pub(crate) fn with_connect_timeout(e: ControlPlaneEndpoint, secs: u64) -> (res: ControlPlaneEndpoint)
    ensures
        res.uri() == e.uri(),
        res.connect_timeout() == Some(secs),
        res.request_timeout() == e.request_timeout(),
{
    ControlPlaneEndpoint {
        endpoint: e.endpoint.connect_timeout(std::time::Duration::from_secs(secs)),
        uri: e.uri,
        connect_timeout_secs: Some(secs),
        request_timeout_secs: e.request_timeout_secs,
    }
}

/// `Endpoint::timeout`: the same endpoint with `secs` seconds allowed for each
/// request; its URI and connect timeout are unchanged.
#[verifier::external_body]
pub(crate) fn with_request_timeout(e: ControlPlaneEndpoint, secs: u64) -> (res: ControlPlaneEndpoint)
    ensures
        res.uri() == e.uri(),
        res.connect_timeout() == e.connect_timeout(),
        res.request_timeout() == Some(secs),
{
    ControlPlaneEndpoint {
        endpoint: e.endpoint.timeout(std::time::Duration::from_secs(secs)),
        uri: e.uri,
        connect_timeout_secs: e.connect_timeout_secs,
        request_timeout_secs: Some(secs),
    }
}

} // verus!
