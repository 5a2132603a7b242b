//! The two protocols served on the shared endpoint, and the rule that tells
//! them apart from a request's content type.

use vstd::prelude::*;

verus! {

/// The protocol a request belongs to.
#[derive(Clone, Copy, Debug, PartialEq, Eq, Structural)]
pub enum ProtocolKind {
    /// Binary RPC traffic.
    Rpc,
    /// Everything else.
    Plain,
}

/// The bytes of `application/grpc`, the content-type prefix of RPC traffic.
pub const RPC_MARKER: [u8; 16] = [
    0x61, 0x70, 0x70, 0x6c, 0x69, 0x63, 0x61, 0x74, 0x69, 0x6f, 0x6e, 0x2f, 0x67, 0x72, 0x70, 0x63,
];

/// The marker as a sequence of bytes.
pub open spec fn rpc_marker() -> Seq<u8> {
    RPC_MARKER@
}

/// Whether a content-type value announces RPC traffic: the marker is a
/// prefix of it, byte for byte.
pub open spec fn is_rpc_content_type(value: Seq<u8>) -> bool {
    rpc_marker().is_prefix_of(value)
}

/// The protocol of a request, given the value of its content-type header if
/// it has one.
pub open spec fn protocol_of(content_type: Option<Seq<u8>>) -> ProtocolKind {
    match content_type {
        Some(value) => if is_rpc_content_type(value) {
            ProtocolKind::Rpc
        } else {
            ProtocolKind::Plain
        },
        None => ProtocolKind::Plain,
    }
}

/// The view of an optional byte slice.
pub open spec fn bytes_view(value: Option<&[u8]>) -> Option<Seq<u8>> {
    match value {
        Some(bytes) => Some(bytes@),
        None => None,
    }
}

/// Whether `value` begins with the RPC marker.
pub fn has_rpc_marker(value: &[u8]) -> (found: bool)
    ensures
        found == is_rpc_content_type(value@),
{
    if value.len() < RPC_MARKER.len() {
        return false;
    }
    let mut i: usize = 0;
    while i < RPC_MARKER.len()
        invariant
            i <= RPC_MARKER@.len() <= value@.len(),
            forall|j: int| 0 <= j < i ==> value@[j] == RPC_MARKER@[j],
        decreases RPC_MARKER@.len() - i,
    {
        if value[i] != RPC_MARKER[i] {
            return false;
        }
        i += 1;
    }
    assert(value@.subrange(0, RPC_MARKER@.len() as int) =~= RPC_MARKER@);
    true
}

/// Classifies a request by the value of its content-type header.
pub fn classify_content_type(content_type: Option<&[u8]>) -> (kind: ProtocolKind)
    ensures
        kind == protocol_of(bytes_view(content_type)),
        kind is Rpc <==> content_type is Some && rpc_marker().is_prefix_of(content_type.unwrap()@),
{
    match content_type {
        Some(value) => if has_rpc_marker(value) {
            ProtocolKind::Rpc
        } else {
            ProtocolKind::Plain
        },
        None => ProtocolKind::Plain,
    }
}

/// A request is RPC traffic exactly when it has a content type and the
/// marker is a prefix of it; without a content type, or with any other
/// value, it is plain.
pub proof fn rpc_iff_marker_prefix(content_type: Option<Seq<u8>>)
    ensures
        protocol_of(content_type) is Rpc <==> content_type is Some && rpc_marker().is_prefix_of(
            content_type.unwrap(),
        ),
        protocol_of(content_type) is Plain <==> !(content_type is Some && rpc_marker().is_prefix_of(
            content_type.unwrap(),
        )),
{
}

/// Whatever follows the marker, the request is RPC traffic.
pub proof fn suffixed_marker_is_rpc(suffix: Seq<u8>)
    ensures
        protocol_of(Some(rpc_marker() + suffix)) is Rpc,
{
    let value = rpc_marker() + suffix;
    assert(value.subrange(0, rpc_marker().len() as int) =~= rpc_marker());
}

/// A value shorter than the marker, the empty one among them, is plain.
pub proof fn short_value_is_plain(value: Seq<u8>)
    requires
        value.len() < rpc_marker().len(),
    ensures
        protocol_of(Some(value)) is Plain,
{
}

/// The protocol depends on the content type alone: equal content types give
/// equal protocols.
pub proof fn protocol_is_determined(first: Option<Seq<u8>>, second: Option<Seq<u8>>)
    requires
        first == second,
    ensures
        protocol_of(first) == protocol_of(second),
{
}

} // verus!
