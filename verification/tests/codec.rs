use firecracker_sdk::events::{decode, status_code, Method, Request};

fn req(method: Method, path: &str, payload: Option<&[u8]>) -> Request {
    Request {
        method,
        path: path.to_string(),
        payload: payload.map(|b| b.to_vec()),
    }
}

#[test]
fn encode_get_version_empty_payload() {
    let bytes = req(Method::Get, "/version", None).encode();
    assert_eq!(bytes, b"GET /version HTTP/1.0\r\n\r\n".to_vec());
}

#[test]
fn encode_put_with_payload() {
    let bytes = req(Method::Put, "/balloon", Some(br#"{"x":1}"#)).encode();
    assert_eq!(
        bytes,
        b"PUT /balloon HTTP/1.0\r\nContent-Length: 7\r\n\r\n{\"x\":1}".to_vec()
    );
}

#[test]
fn encode_patch_method() {
    let bytes = req(Method::Patch, "/vm", Some(b"{}")).encode();
    assert_eq!(
        bytes,
        b"PATCH /vm HTTP/1.0\r\nContent-Length: 2\r\n\r\n{}".to_vec()
    );
}

#[test]
fn decode_well_formed_response() {
    let r = decode(b"HTTP/1.1 200 OK\r\nContent-Length: 5\r\n\r\nhello").unwrap();
    assert_eq!(r.status_code, 200);
    assert_eq!(r.body, b"hello".to_vec());
}

#[test]
fn decode_body_sliced_to_content_length() {
    let r = decode(b"HTTP/1.1 204 No Content\r\nContent-Length: 2\r\n\r\nhi there").unwrap();
    assert_eq!(r.status_code, 204);
    assert_eq!(r.body, b"hi".to_vec());
}

#[test]
fn decode_header_name_is_case_insensitive() {
    let r = decode(b"HTTP/1.0 200 OK\r\ncontent-LENGTH: 3\r\n\r\nabc").unwrap();
    assert_eq!(r.body, b"abc".to_vec());
}

#[test]
fn decode_missing_content_length_is_protocol_error() {
    let e = decode(b"HTTP/1.1 200 OK\r\nServer: x\r\n\r\nbody").unwrap_err();
    assert_eq!(e.message(), "Bad HTTP response");
}

#[test]
fn decode_incomplete_headers_is_protocol_error() {
    let e = decode(b"HTTP/1.1 200 OK\r\nContent-Le").unwrap_err();
    assert_eq!(e.message(), "Incomplete response");
}

#[test]
fn decode_truncated_body_is_incomplete() {
    let e = decode(b"HTTP/1.1 200 OK\r\nContent-Length: 10\r\n\r\nabc").unwrap_err();
    assert_eq!(e.message(), "Incomplete response");
}

#[test]
fn decode_malformed_status_line_is_protocol_error() {
    let e = decode(b"FTP/1.1 200 OK\r\nContent-Length: 0\r\n\r\n").unwrap_err();
    assert_eq!(e.message(), "Bad HTTP response");
}

#[test]
fn decode_unreadable_content_length_is_protocol_error() {
    let e = decode(b"HTTP/1.1 200 OK\r\nContent-Length: ten\r\n\r\n").unwrap_err();
    assert_eq!(e.message(), "Bad HTTP response");
}

#[test]
fn decode_too_many_headers_is_protocol_error() {
    let mut msg = b"HTTP/1.1 200 OK\r\n".to_vec();
    for i in 0..65 {
        msg.extend_from_slice(format!("H{}: v\r\n", i).as_bytes());
    }
    msg.extend_from_slice(b"\r\n");
    let e = decode(&msg).unwrap_err();
    assert_eq!(e.message(), "Bad HTTP response");
}

#[test]
fn decode_exactly_64_headers_is_accepted() {
    let mut msg = b"HTTP/1.1 200 OK\r\nContent-Length: 2\r\n".to_vec();
    for i in 0..63 {
        msg.extend_from_slice(format!("H{}: v\r\n", i).as_bytes());
    }
    msg.extend_from_slice(b"\r\nok");
    let r = decode(&msg).unwrap();
    assert_eq!(r.body, b"ok".to_vec());
}

#[test]
fn status_code_without_content_length() {
    let c = status_code(b"HTTP/1.1 404 Not Found\r\nServer: x\r\n\r\n").unwrap();
    assert_eq!(c, 404);
}

#[test]
fn status_code_incomplete_response() {
    let e = status_code(b"HTTP/1.1 2").unwrap_err();
    assert_eq!(e.message(), "Incomplete response");
}

#[test]
fn encoded_request_survives_an_echo_peer() {
    // A cooperative echo peer hands the bytes back unchanged; decoding the
    // framing by hand recovers the method, path and payload bytes.
    let bytes = req(Method::Put, "/drives/root", Some(b"payload-bytes")).encode();
    let echoed = bytes.clone();
    let text: Vec<u8> = echoed;
    let line_end = text.windows(2).position(|w| w == b"\r\n").unwrap();
    let line = &text[0..line_end];
    let mut tokens = line.split(|b| *b == b' ');
    assert_eq!(tokens.next().unwrap(), b"PUT");
    assert_eq!(tokens.next().unwrap(), b"/drives/root");
    assert_eq!(tokens.next().unwrap(), b"HTTP/1.0");
    let body_start = text.windows(4).position(|w| w == b"\r\n\r\n").unwrap() + 4;
    assert_eq!(&text[body_start..], b"payload-bytes");
}
