//! An HTTP/1.x client handshake overlay.
//!
//! Given an already-connected bidirectional byte stream, the overlay
//! serializes and writes an HTTP request, scans the inbound bytes for the
//! end of the response head (`\r\n\r\n`), validates the response status,
//! and positions the caller exactly at the start of the response body,
//! replaying any body bytes that were read past the head in the same chunk.
//!
//! All I/O stays with the caller: the types here are resumable state
//! holders that are driven with the bytes the caller has read and the
//! outcomes of the writes it has performed.

pub mod error;
pub mod handshake;
pub mod head;
pub mod request;
pub mod scan;
pub mod splice;
