use http_handshake::error::HandshakeError;
use http_handshake::handshake::{HandshakeSuccess, HttpHandshake};
use http_handshake::request::{Http, HttpRequest};
use http_handshake::scan::WaitForHttpHead;
use http_handshake::splice::PrependRead;

fn simple_request() -> HttpRequest {
    HttpRequest::new(None, b"/".to_vec(), vec![(b"Host".to_vec(), b"example.com".to_vec())])
}

/// Drive a fresh handshake up to the point where response bytes are fed.
fn started() -> HttpHandshake {
    let (mut hs, _bytes) = HttpHandshake::start(&simple_request());
    assert!(hs.on_write_complete().is_ok());
    hs
}

#[test]
fn serialize_exact_bytes() {
    let req = simple_request();
    let bytes = req.serialize();
    assert_eq!(bytes, b"GET / HTTP/1.1\r\nHost: example.com\r\n\r\n".to_vec());
}

#[test]
fn serialize_explicit_method_no_headers() {
    let req = HttpRequest::new(Some(b"POST".to_vec()), b"/upload".to_vec(), vec![]);
    assert_eq!(req.serialize(), b"POST /upload HTTP/1.1\r\n\r\n".to_vec());
}

#[test]
fn http_front_end_port_defaults_to_80() {
    let h = Http::new(simple_request(), b"example.com".to_vec(), None);
    assert_eq!(h.port, 80);
    assert_eq!(h.host, b"example.com".to_vec());
}

#[test]
fn http_front_end_explicit_port_kept() {
    let h = Http::new(simple_request(), b"example.com".to_vec(), Some(8080));
    assert_eq!(h.port, 8080);
}

#[test]
fn status_200_no_debt() {
    let mut hs = started();
    let resp = b"HTTP/1.1 200 OK\r\n\r\n";
    match hs.on_response_chunk(resp) {
        Ok(Some(HandshakeSuccess { status, debt })) => {
            assert_eq!(status, 200);
            assert!(debt.is_none());
        }
        other => panic!("expected success, got {:?}", other.is_ok()),
    }
}

#[test]
fn status_200_with_headers_accepted() {
    let mut hs = started();
    let resp = b"HTTP/1.1 200 OK\r\nContent-Type: text/plain\r\nServer: x\r\n\r\n";
    match hs.on_response_chunk(resp) {
        Ok(Some(success)) => {
            assert_eq!(success.status, 200);
            assert!(success.debt.is_none());
        }
        _ => panic!("expected success"),
    }
}

#[test]
fn status_101_informational_accepted() {
    let mut hs = started();
    match hs.on_response_chunk(b"HTTP/1.1 101 Switching Protocols\r\n\r\n") {
        Ok(Some(success)) => assert_eq!(success.status, 101),
        _ => panic!("expected success"),
    }
}

#[test]
fn debt_replayed_in_order() {
    let mut hs = started();
    let resp = b"HTTP/1.1 200 OK\r\n\r\nBODYBYTES";
    let mut debt = match hs.on_response_chunk(resp) {
        Ok(Some(HandshakeSuccess { status, debt: Some(d) })) => {
            assert_eq!(status, 200);
            d
        }
        _ => panic!("expected success with debt"),
    };
    assert_eq!(debt.pending_len(), 9);
    assert!(!debt.is_drained());
    let first = debt.read_leftover(4);
    assert_eq!(first, b"BODY".to_vec());
    let second = debt.read_leftover(100);
    assert_eq!(second, b"BYTES".to_vec());
    assert!(debt.is_drained());
    assert_eq!(debt.read_leftover(8), Vec::<u8>::new());
}

#[test]
fn status_404_unsuccessful() {
    let mut hs = started();
    let r = hs.on_response_chunk(b"HTTP/1.1 404 Not Found\r\n\r\n");
    assert_eq!(r.unwrap_err(), HandshakeError::UnsuccessfulStatus);
}

#[test]
fn status_301_unsuccessful() {
    let mut hs = started();
    let r = hs.on_response_chunk(b"HTTP/1.1 301 Moved Permanently\r\nLocation: /x\r\n\r\n");
    assert_eq!(r.unwrap_err(), HandshakeError::UnsuccessfulStatus);
}

#[test]
fn trimmed_head_is_premature_close() {
    let mut hs = started();
    assert!(matches!(hs.on_response_chunk(b"HTTP/1.1 200 OK\r\n"), Ok(None)));
    let r = hs.on_response_chunk(b"");
    assert_eq!(r.unwrap_err(), HandshakeError::ConnectionClosedPrematurely);
}

#[test]
fn oversized_head_is_too_large() {
    let mut hs = started();
    let junk = vec![b'a'; 61_000];
    let r = hs.on_response_chunk(&junk);
    assert_eq!(r.unwrap_err(), HandshakeError::HeaderTooLarge);
}

#[test]
fn oversized_head_in_small_chunks() {
    let mut hs = started();
    let chunk = vec![b'h'; 1000];
    let mut outcome = None;
    for _ in 0..61 {
        match hs.on_response_chunk(&chunk) {
            Ok(None) => continue,
            other => {
                outcome = Some(other);
                break;
            }
        }
    }
    let r = outcome.expect("cap must be hit within 61,000 bytes");
    assert_eq!(r.unwrap_err(), HandshakeError::HeaderTooLarge);
}

#[test]
fn malformed_head_rejected() {
    let mut hs = started();
    let r = hs.on_response_chunk(b"NOT AN HTTP RESPONSE\r\n\r\n");
    assert_eq!(r.unwrap_err(), HandshakeError::MalformedResponseHead);
}

#[test]
fn write_failure_is_terminal() {
    let (mut hs, _bytes) = HttpHandshake::start(&simple_request());
    assert_eq!(hs.on_write_failed(), HandshakeError::WriteFailed);
    let r = hs.on_response_chunk(b"HTTP/1.1 200 OK\r\n\r\n");
    assert_eq!(r.unwrap_err(), HandshakeError::PolledAfterCompletion);
}

#[test]
fn reading_before_write_is_misuse() {
    let (mut hs, _bytes) = HttpHandshake::start(&simple_request());
    let r = hs.on_response_chunk(b"HTTP/1.1 200 OK\r\n\r\n");
    assert_eq!(r.unwrap_err(), HandshakeError::PolledAfterCompletion);
}

#[test]
fn driving_resolved_handshake_is_misuse() {
    let mut hs = started();
    assert!(hs.on_response_chunk(b"HTTP/1.1 200 OK\r\n\r\n").is_ok());
    let r = hs.on_response_chunk(b"more");
    assert_eq!(r.unwrap_err(), HandshakeError::PolledAfterCompletion);
}

#[test]
fn scanner_reports_exact_boundary() {
    let mut s = WaitForHttpHead::new();
    let r = s.feed(b"HTTP/1.1 200 OK\r\nA: b\r\n\r\ntail");
    match r {
        Ok(Some(res)) => {
            // one past the LF that completes the first CR LF CR LF
            assert_eq!(res.offset, 25);
            assert_eq!(&res.buf[..res.offset], b"HTTP/1.1 200 OK\r\nA: b\r\n\r\n".as_slice());
            assert_eq!(&res.buf[res.offset..], b"tail".as_slice());
        }
        _ => panic!("expected a boundary"),
    }
}

#[test]
fn scanner_fragmentation_independent() {
    let stream = b"HTTP/1.1 200 OK\r\nA: b\r\n\r\nBODY";
    let mut one = WaitForHttpHead::new();
    let whole = match one.feed(stream) {
        Ok(Some(res)) => res,
        _ => panic!("expected a boundary"),
    };
    let mut per_byte = WaitForHttpHead::new();
    let mut fragmented = None;
    for i in 0..stream.len() {
        match per_byte.feed(&stream[i..i + 1]) {
            Ok(Some(res)) => {
                fragmented = Some(res);
                break;
            }
            Ok(None) => continue,
            Err(e) => panic!("unexpected failure {:?}", e),
        }
    }
    let fragmented = fragmented.expect("expected a boundary");
    assert_eq!(whole.offset, fragmented.offset);
    assert_eq!(&whole.buf[..whole.offset], &fragmented.buf[..fragmented.offset]);
    // byte-by-byte feeding stops at the boundary: no debt was ever read
    assert_eq!(fragmented.buf.len(), fragmented.offset);
    assert_eq!(&whole.buf[whole.offset..], b"BODY".as_slice());
}

#[test]
fn scanner_resets_on_interleaved_bytes() {
    let mut s = WaitForHttpHead::new();
    assert!(matches!(s.feed(b"a\r\nb\r\nc"), Ok(None)));
    match s.feed(b"\r\n\r\n") {
        Ok(Some(res)) => {
            assert_eq!(res.offset, 11);
            assert_eq!(res.buf, b"a\r\nb\r\nc\r\n\r\n".to_vec());
        }
        _ => panic!("expected a boundary"),
    }
}

#[test]
fn scanner_polled_after_completion() {
    let mut s = WaitForHttpHead::new();
    assert!(s.feed(b"x\r\n\r\n").unwrap().is_some());
    let r = s.feed(b"more");
    assert_eq!(r.unwrap_err(), HandshakeError::PolledAfterCompletion);
}

#[test]
fn scanner_polled_after_failure() {
    let mut s = WaitForHttpHead::new();
    assert_eq!(s.feed(b"").unwrap_err(), HandshakeError::ConnectionClosedPrematurely);
    assert_eq!(s.feed(b"x").unwrap_err(), HandshakeError::PolledAfterCompletion);
}

#[test]
fn splicer_drains_before_underlying() {
    let mut p = PrependRead::new(b"HEAD+DEBT".to_vec(), 4);
    assert_eq!(p.pending_len(), 4);
    let a = p.read_leftover(2);
    let b = p.read_leftover(2);
    assert_eq!(a, b"DE".to_vec());
    assert_eq!(b, b"BT".to_vec());
    assert!(p.is_drained());
}

#[test]
fn error_descriptions() {
    assert_eq!(HandshakeError::ConnectionClosedPrematurely.describe(), "Trimmed HTTP head");
    assert_eq!(HandshakeError::HeaderTooLarge.describe(), "HTTP head too long");
    assert_eq!(
        HandshakeError::MalformedResponseHead.describe(),
        "Something wrong with response HTTP head"
    );
    assert_eq!(
        HandshakeError::UnsuccessfulStatus.describe(),
        "HTTP response indicates failure"
    );
}

#[test]
fn status_100_accepted() {
    let mut hs = started();
    match hs.on_response_chunk(b"HTTP/1.1 100 Continue\r\n\r\n") {
        Ok(Some(success)) => assert_eq!(success.status, 100),
        _ => panic!("expected success"),
    }
}

#[test]
fn status_299_accepted() {
    let mut hs = started();
    match hs.on_response_chunk(b"HTTP/1.1 299 Edge\r\n\r\n") {
        Ok(Some(success)) => assert_eq!(success.status, 299),
        _ => panic!("expected success"),
    }
}

#[test]
fn status_300_unsuccessful() {
    let mut hs = started();
    let r = hs.on_response_chunk(b"HTTP/1.1 300 Multiple Choices\r\n\r\n");
    assert_eq!(r.unwrap_err(), HandshakeError::UnsuccessfulStatus);
}

#[test]
fn debt_preserved_across_fragmented_terminator() {
    let mut hs = started();
    assert!(matches!(hs.on_response_chunk(b"HTTP/1.1 200 OK\r\n\r"), Ok(None)));
    let mut debt = match hs.on_response_chunk(b"\nBODY") {
        Ok(Some(HandshakeSuccess { status, debt: Some(d) })) => {
            assert_eq!(status, 200);
            d
        }
        _ => panic!("expected success with debt"),
    };
    assert_eq!(debt.read_leftover(16), b"BODY".to_vec());
}

#[test]
fn serialize_keeps_header_order() {
    let req = HttpRequest::new(
        Some(b"GET".to_vec()),
        b"/".to_vec(),
        vec![
            (b"B".to_vec(), b"2".to_vec()),
            (b"A".to_vec(), b"1".to_vec()),
            (b"B".to_vec(), b"3".to_vec()),
        ],
    );
    assert_eq!(
        req.serialize(),
        b"GET / HTTP/1.1\r\nB: 2\r\nA: 1\r\nB: 3\r\n\r\n".to_vec()
    );
}
