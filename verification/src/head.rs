use vstd::prelude::*;

use crate::error::HandshakeError;

verus! {

/// What parsing a response head yields, as plain values: `Err(())` when
/// the bytes are not a valid status line plus header block, `Ok(None)`
/// when they are a valid but incomplete head, and `Ok(Some((status,
/// trailing)))` when a complete head was parsed, with its status code and
/// the number of bytes left over after the head.
pub uninterp spec fn parse_head_of(head: Seq<u8>) -> Result<Option<(u16, usize)>, ()>;

/// Relies on http_bytes::parse_response_header_easy: it parses an HTTP/1.x
/// status line and header block from the front of the given bytes, hands
/// back the parsed response and the bytes that follow the head, `Ok(None)`
/// when the head is incomplete, and an error when the bytes cannot be a
/// response head. The outcome depends on the bytes alone.
#[verifier::external_body]
fn parse_response_head(buf: &Vec<u8>, head_len: usize) -> (r: Result<Option<(u16, usize)>, ()>)
    requires
        head_len <= buf@.len(),
    ensures
        r == parse_head_of(buf@.take(head_len as int)),
{
    match http_bytes::parse_response_header_easy(&buf[..head_len]) {
        Ok(Some((response, rest))) => Ok(Some((response.status().as_u16(), rest.len()))),
        Ok(None) => Ok(None),
        Err(_) => Err(()),
    }
}

/// The statuses a handshake accepts: informational (1xx) or success (2xx).
pub open spec fn status_accepted(status: u16) -> bool {
    100 <= status <= 299
}

/// How a parse outcome decides the handshake: only a complete head that
/// consumed every byte handed to the parser and carries an informational
/// or success status lets the handshake proceed. Anything else is a
/// failure: unparsable or incomplete bytes (or trailing bytes after a
/// complete head, which would mean the boundary was misdetected) are a
/// malformed head; every other status class is an unsuccessful status.
pub open spec fn classify_head_spec(parsed: Result<Option<(u16, usize)>, ()>) -> Result<
    u16,
    HandshakeError,
> {
    match parsed {
        Err(()) => Err(HandshakeError::MalformedResponseHead),
        Ok(None) => Err(HandshakeError::MalformedResponseHead),
        Ok(Some((status, trailing))) => if trailing != 0 {
            Err(HandshakeError::MalformedResponseHead)
        } else if status_accepted(status) {
            Ok(status)
        } else {
            Err(HandshakeError::UnsuccessfulStatus)
        },
    }
}

/// Executable form of `classify_head_spec`.
pub fn classify_head(parsed: Result<Option<(u16, usize)>, ()>) -> (r: Result<u16, HandshakeError>)
    ensures
        r == classify_head_spec(parsed),
{
    match parsed {
        Err(()) => Err(HandshakeError::MalformedResponseHead),
        Ok(None) => Err(HandshakeError::MalformedResponseHead),
        Ok(Some((status, trailing))) => if trailing != 0 {
            Err(HandshakeError::MalformedResponseHead)
        } else if 100 <= status && status <= 299 {
            Ok(status)
        } else {
            Err(HandshakeError::UnsuccessfulStatus)
        },
    }
}

/// The verdict on a head segment: its parse outcome, classified.
pub open spec fn head_verdict(head: Seq<u8>) -> Result<u16, HandshakeError> {
    classify_head_spec(parse_head_of(head))
}

/// Validate the head segment `buf[..head_len]` of a scan result: parse it
/// and classify the outcome. `Ok` carries the accepted status code.
pub fn validate_head(buf: &Vec<u8>, head_len: usize) -> (r: Result<u16, HandshakeError>)
    requires
        head_len <= buf@.len(),
    ensures
        r == head_verdict(buf@.take(head_len as int)),
{
    classify_head(parse_response_head(buf, head_len))
}

} // verus!
