use hyper::header::{HeaderName, HeaderValue, ACCEPT, CONTENT_LENGTH, CONTENT_TYPE};
use hyper::{Body, HeaderMap, Request};
use multiplex::headers::{classify, is_grpc_request};
use multiplex::protocol::{classify_content_type, has_rpc_marker, ProtocolKind, RPC_MARKER};

fn headers_with(content_type: &'static str) -> HeaderMap<HeaderValue> {
    let mut headers = HeaderMap::new();
    headers.insert(CONTENT_TYPE, HeaderValue::from_static(content_type));
    headers
}

fn request_with(content_type: &'static str) -> Request<Body> {
    Request::builder()
        .uri("/")
        .header(CONTENT_TYPE, content_type)
        .body(Body::empty())
        .unwrap()
}

#[test]
fn marker_spells_application_grpc() {
    assert_eq!(&RPC_MARKER[..], b"application/grpc");
    assert_eq!(RPC_MARKER.len(), 16);
}

#[test]
fn exact_marker_is_rpc() {
    assert_eq!(classify_content_type(Some(b"application/grpc")), ProtocolKind::Rpc);
}

#[test]
fn suffixed_marker_is_rpc() {
    assert_eq!(classify_content_type(Some(b"application/grpc+proto")), ProtocolKind::Rpc);
    assert_eq!(classify_content_type(Some(b"application/grpc-web")), ProtocolKind::Rpc);
    assert_eq!(classify_content_type(Some(b"application/grpcx")), ProtocolKind::Rpc);
}

#[test]
fn missing_content_type_is_plain() {
    assert_eq!(classify_content_type(None), ProtocolKind::Plain);
}

#[test]
fn other_content_types_are_plain() {
    assert_eq!(classify_content_type(Some(b"text/html")), ProtocolKind::Plain);
    assert_eq!(classify_content_type(Some(b"application/json")), ProtocolKind::Plain);
    assert_eq!(classify_content_type(Some(b"text/plain")), ProtocolKind::Plain);
}

#[test]
fn empty_content_type_is_plain() {
    assert_eq!(classify_content_type(Some(b"")), ProtocolKind::Plain);
}

#[test]
fn truncated_marker_is_plain() {
    assert_eq!(classify_content_type(Some(b"application/grp")), ProtocolKind::Plain);
    assert_eq!(classify_content_type(Some(b"application/")), ProtocolKind::Plain);
}

#[test]
fn marker_must_stand_at_the_start() {
    assert_eq!(classify_content_type(Some(b" application/grpc")), ProtocolKind::Plain);
    assert_eq!(classify_content_type(Some(b"xapplication/grpc")), ProtocolKind::Plain);
}

#[test]
fn marker_is_matched_byte_for_byte() {
    assert_eq!(classify_content_type(Some(b"Application/grpc")), ProtocolKind::Plain);
    assert_eq!(classify_content_type(Some(b"application/GRPC")), ProtocolKind::Plain);
    assert_eq!(classify_content_type(Some(b"application/grpC+proto")), ProtocolKind::Plain);
}

#[test]
fn a_difference_in_any_position_is_plain() {
    for position in 0..RPC_MARKER.len() {
        let mut value = RPC_MARKER.to_vec();
        value[position] ^= 0x01;
        assert!(!has_rpc_marker(&value));
        assert_eq!(classify_content_type(Some(&value)), ProtocolKind::Plain);
    }
}

#[test]
fn has_rpc_marker_agrees_with_starts_with() {
    let samples: [&[u8]; 8] = [
        b"",
        b"a",
        b"application/grpc",
        b"application/grpc+json",
        b"application/grp",
        b"application/json",
        b"text/plain; charset=utf-8",
        b"application/grpcapplication/grpc",
    ];
    for sample in samples {
        assert_eq!(has_rpc_marker(sample), sample.starts_with(b"application/grpc"));
    }
}

#[test]
fn classification_repeats() {
    let headers = headers_with("application/grpc+proto");
    let first = classify(&headers);
    let second = classify(&headers);
    assert_eq!(first, second);
    assert_eq!(first, ProtocolKind::Rpc);

    let same = headers.clone();
    assert_eq!(classify(&same), first);

    let plain = headers_with("text/html");
    assert_eq!(classify(&plain), classify(&plain));
    assert_eq!(classify(&plain), ProtocolKind::Plain);
}

#[test]
fn headers_with_grpc_content_type_are_rpc() {
    assert_eq!(classify(&headers_with("application/grpc")), ProtocolKind::Rpc);
    assert_eq!(classify(&headers_with("application/grpc+proto")), ProtocolKind::Rpc);
}

#[test]
fn headers_with_other_content_type_are_plain() {
    assert_eq!(classify(&headers_with("text/html")), ProtocolKind::Plain);
    assert_eq!(classify(&headers_with("application/json")), ProtocolKind::Plain);
    assert_eq!(classify(&headers_with("")), ProtocolKind::Plain);
}

#[test]
fn headers_without_content_type_are_plain() {
    let empty: HeaderMap<HeaderValue> = HeaderMap::new();
    assert_eq!(classify(&empty), ProtocolKind::Plain);

    let mut others = HeaderMap::new();
    others.insert(ACCEPT, HeaderValue::from_static("application/grpc"));
    others.insert(CONTENT_LENGTH, HeaderValue::from_static("0"));
    assert_eq!(classify(&others), ProtocolKind::Plain);
}

#[test]
fn only_the_content_type_header_counts() {
    let mut headers = HeaderMap::new();
    headers.insert(ACCEPT, HeaderValue::from_static("application/grpc"));
    headers.insert(CONTENT_TYPE, HeaderValue::from_static("text/plain"));
    assert_eq!(classify(&headers), ProtocolKind::Plain);

    let mut headers = HeaderMap::new();
    headers.insert(ACCEPT, HeaderValue::from_static("text/plain"));
    headers.insert(CONTENT_TYPE, HeaderValue::from_static("application/grpc"));
    assert_eq!(classify(&headers), ProtocolKind::Rpc);
}

#[test]
fn the_first_content_type_decides() {
    let mut headers = HeaderMap::new();
    headers.append(CONTENT_TYPE, HeaderValue::from_static("application/grpc"));
    headers.append(CONTENT_TYPE, HeaderValue::from_static("text/plain"));
    assert_eq!(classify(&headers), ProtocolKind::Rpc);

    let mut headers = HeaderMap::new();
    headers.append(CONTENT_TYPE, HeaderValue::from_static("text/plain"));
    headers.append(CONTENT_TYPE, HeaderValue::from_static("application/grpc"));
    assert_eq!(classify(&headers), ProtocolKind::Plain);
}

#[test]
fn header_name_is_found_in_any_case() {
    let mut headers = HeaderMap::new();
    let name = HeaderName::from_bytes(b"Content-Type").unwrap();
    headers.insert(name, HeaderValue::from_static("application/grpc"));
    assert_eq!(classify(&headers), ProtocolKind::Rpc);
}

#[test]
fn content_type_need_not_be_text() {
    let mut headers = HeaderMap::new();
    let mut bytes = b"application/grpc".to_vec();
    bytes.push(0xff);
    headers.insert(CONTENT_TYPE, HeaderValue::from_bytes(&bytes).unwrap());
    assert_eq!(classify(&headers), ProtocolKind::Rpc);

    let mut headers = HeaderMap::new();
    headers.insert(CONTENT_TYPE, HeaderValue::from_bytes(&[0xff, 0xfe]).unwrap());
    assert_eq!(classify(&headers), ProtocolKind::Plain);
}

#[test]
fn grpc_request_is_recognised() {
    assert!(is_grpc_request(&request_with("application/grpc")));
    assert!(is_grpc_request(&request_with("application/grpc+proto")));
}

#[test]
fn plain_request_is_recognised() {
    assert!(!is_grpc_request(&request_with("text/plain")));
    assert!(!is_grpc_request(&request_with("application/json")));
    let bare = Request::builder().uri("/").body(Body::empty()).unwrap();
    assert!(!is_grpc_request(&bare));
}

#[test]
fn request_and_its_headers_classify_alike() {
    for content_type in ["application/grpc", "text/html", "application/grpc-web+proto", ""] {
        let request = request_with(content_type);
        let by_headers = classify(request.headers()) == ProtocolKind::Rpc;
        assert_eq!(is_grpc_request(&request), by_headers);
    }
}
