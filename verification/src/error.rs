use vstd::prelude::*;

verus! {

/// Terminal outcomes of one handshake attempt. Every failure aborts the
/// whole handshake; nothing is retried and no composed peer is produced.
#[derive(Clone, Copy, Debug, PartialEq, Eq, Structural)]
pub enum HandshakeError {
    /// The outbound request could not be fully transmitted.
    WriteFailed,
    /// The peer signalled end-of-stream before the header terminator.
    ConnectionClosedPrematurely,
    /// No terminator was found within the header size cap.
    HeaderTooLarge,
    /// The head bytes could not be fully parsed as a status line plus
    /// header block.
    MalformedResponseHead,
    /// A structurally valid response whose status is not informational
    /// or success.
    UnsuccessfulStatus,
    /// The operation was driven again after it had already resolved.
    PolledAfterCompletion,
}

impl HandshakeError {
    /// A short description of the failure.
    pub fn describe(&self) -> (r: &'static str)
        ensures
            match self {
                HandshakeError::WriteFailed => r@ == "failed to write HTTP request"@,
                HandshakeError::ConnectionClosedPrematurely => r@ == "Trimmed HTTP head"@,
                HandshakeError::HeaderTooLarge => r@ == "HTTP head too long"@,
                HandshakeError::MalformedResponseHead => (
                    r@ == "Something wrong with response HTTP head"@
                ),
                HandshakeError::UnsuccessfulStatus => (
                    r@ == "HTTP response indicates failure"@
                ),
                HandshakeError::PolledAfterCompletion => (
                    r@ == "polled after completion"@
                ),
            },
    {
        match self {
            HandshakeError::WriteFailed => "failed to write HTTP request",
            HandshakeError::ConnectionClosedPrematurely => "Trimmed HTTP head",
            HandshakeError::HeaderTooLarge => "HTTP head too long",
            HandshakeError::MalformedResponseHead => "Something wrong with response HTTP head",
            HandshakeError::UnsuccessfulStatus => "HTTP response indicates failure",
            HandshakeError::PolledAfterCompletion => "polled after completion",
        }
    }
}

} // verus!
