//! Classification of requests as they arrive from the HTTP stack: the
//! content type is looked up in the request's header map.

use crate::protocol::{
    bytes_view, classify_content_type, protocol_of, rpc_marker, ProtocolKind,
};
use hyper::header::{HeaderValue, CONTENT_TYPE};
use hyper::{Body, HeaderMap, Request};
use vstd::prelude::*;

verus! {

/// `http::HeaderValue`, the value of one header.
#[verifier::external_type_specification]
#[verifier::external_body]
pub struct ExHeaderValue(HeaderValue);

/// `http::HeaderMap`, the headers of a request.
#[verifier::external_type_specification]
#[verifier::external_body]
#[verifier::reject_recursive_types(T)]
pub struct ExHeaderMap<T>(HeaderMap<T>);

/// `hyper::Body`, the body of a request, never read here.
#[verifier::external_type_specification]
#[verifier::external_body]
pub struct ExBody(Body);

/// `http::Request`, a request as the HTTP stack hands it over.
#[verifier::external_type_specification]
#[verifier::external_body]
#[verifier::reject_recursive_types(T)]
pub struct ExRequest<T>(Request<T>);

/// What a header map holds: under each header name, written in lower case,
/// the bytes of the values stored for it, in the order in which they were
/// added.
pub uninterp spec fn header_values(headers: HeaderMap<HeaderValue>) -> Map<Seq<u8>, Seq<Seq<u8>>>;

/// The headers that a request carries, as `header_values` gives them for
/// its header map.
pub uninterp spec fn request_header_values(request: Request<Body>) -> Map<Seq<u8>, Seq<Seq<u8>>>;

/// The header name `content-type`.
pub open spec fn content_type_name() -> Seq<u8> {
    seq![0x63u8, 0x6f, 0x6e, 0x74, 0x65, 0x6e, 0x74, 0x2d, 0x74, 0x79, 0x70, 0x65]
}

/// The first value stored under `name`, if there is one.
pub open spec fn first_value(values: Map<Seq<u8>, Seq<Seq<u8>>>, name: Seq<u8>) -> Option<
    Seq<u8>,
> {
    if values.contains_key(name) && values[name].len() > 0 {
        Some(values[name][0])
    } else {
        None
    }
}

/// The protocol that a set of headers announces: that of its first content
/// type, if it has one.
pub open spec fn announced_protocol(values: Map<Seq<u8>, Seq<Seq<u8>>>) -> ProtocolKind {
    protocol_of(first_value(values, content_type_name()))
}

/// The protocol that a header map announces.
pub open spec fn header_protocol(headers: HeaderMap<HeaderValue>) -> ProtocolKind {
    announced_protocol(header_values(headers))
}

/// The protocol that a request announces in its headers.
pub open spec fn request_protocol(request: Request<Body>) -> ProtocolKind {
    announced_protocol(request_header_values(request))
}

/// `HeaderMap::get` with the key `CONTENT_TYPE`, and `HeaderValue::as_bytes`
/// on the value it finds.
///
/// Trusted: `get` returns the first value stored under the name
/// `content-type`, and nothing where the map holds none.
#[verifier::external_body]
fn content_type(headers: &HeaderMap<HeaderValue>) -> (value: Option<&[u8]>)
    ensures
        bytes_view(value) == first_value(header_values(*headers), content_type_name()),
{
    headers.get(CONTENT_TYPE).map(HeaderValue::as_bytes)
}

/// `Request::headers`.
///
/// Trusted: the map handed out holds the headers of the request.
#[verifier::external_body]
fn request_headers(request: &Request<Body>) -> (headers: &HeaderMap<HeaderValue>)
    ensures
        header_values(*headers) == request_header_values(*request),
{
    request.headers()
}

/// Classifies a request by its headers: RPC if the first content-type value
/// begins with the RPC marker, plain otherwise, also where there is no
/// content type at all.
pub fn classify(headers: &HeaderMap<HeaderValue>) -> (kind: ProtocolKind)
    ensures
        kind == header_protocol(*headers),
        kind is Rpc <==> (header_values(*headers).contains_key(content_type_name())
            && header_values(*headers)[content_type_name()].len() > 0
            && rpc_marker().is_prefix_of(header_values(*headers)[content_type_name()][0])),
{
    classify_content_type(content_type(headers))
}

/// Whether a request is RPC traffic, going by its headers.
pub fn is_grpc_request(request: &Request<Body>) -> (rpc: bool)
    ensures
        rpc == (request_protocol(*request) is Rpc),
{
    match classify(request_headers(request)) {
        ProtocolKind::Rpc => true,
        ProtocolKind::Plain => false,
    }
}

/// Classification is a function of the headers: equal header maps give
/// equal protocols, however often they are classified.
pub proof fn classification_is_deterministic(
    first: HeaderMap<HeaderValue>,
    second: HeaderMap<HeaderValue>,
)
    requires
        first == second,
    ensures
        header_protocol(first) == header_protocol(second),
{
}

/// Headers announce RPC traffic exactly when they hold a content type and
/// the marker is a prefix of the first one; headers without a content type
/// are plain.
pub proof fn rpc_iff_content_type_has_marker(values: Map<Seq<u8>, Seq<Seq<u8>>>)
    ensures
        announced_protocol(values) is Rpc <==> (values.contains_key(content_type_name())
            && values[content_type_name()].len() > 0
            && rpc_marker().is_prefix_of(values[content_type_name()][0])),
        !values.contains_key(content_type_name()) ==> announced_protocol(values) is Plain,
{
}

} // verus!
