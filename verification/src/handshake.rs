use vstd::prelude::*;

use crate::error::HandshakeError;
use crate::head::head_verdict;
use crate::head::validate_head;
use crate::request::request_bytes;
use crate::request::HttpRequest;
use crate::scan::boundary_of;
use crate::scan::head_found;
use crate::scan::is_boundary;
use crate::scan::lemma_boundary_exists;
use crate::scan::lemma_boundary_unique;
use crate::scan::WaitForHttpHead;
use crate::scan::MAX_HEAD_BYTES;
use crate::splice::PrependRead;

verus! {

/// Where the orchestrator stands in the strictly sequential handshake:
/// the request is fully written before any response byte is read.
#[derive(Clone, Copy, Debug, PartialEq, Eq, Structural)]
pub enum HandshakePhase {
    /// The serialized request is being written to the writable half.
    AwaitingWrite,
    /// The request is written; the response head is being scanned.
    AwaitingHead,
    /// The handshake has resolved, successfully or not.
    Complete,
}

/// The successful outcome: the accepted status code, and the debt
/// carry-over reader when body bytes were already read past the head.
/// `debt` is `None` exactly when there was no debt; the caller then reuses
/// the readable half directly, unwrapped.
#[derive(Debug)]
pub struct HandshakeSuccess {
    pub status: u16,
    pub debt: Option<PrependRead>,
}

/// The handshake orchestrator: a resumable state holder. The caller owns
/// the transport and performs every write and read; it reports the write's
/// outcome and hands over each chunk read, and the orchestrator sequences
/// serialize, scan, validate and splice. Any failure resolves the whole
/// handshake; no outcome is produced and later calls are a misuse.
pub struct HttpHandshake {
    phase: HandshakePhase,
    scanner: WaitForHttpHead,
}

impl HttpHandshake {
    pub closed spec fn phase_spec(self) -> HandshakePhase {
        self.phase
    }

    /// The response bytes consumed by the scan so far.
    pub closed spec fn consumed(self) -> Seq<u8> {
        self.scanner.consumed()
    }

    pub closed spec fn wf(self) -> bool {
        &&& (self.phase is AwaitingWrite ==> self.scanner.wf() && !self.scanner.done_spec()
            && self.scanner.consumed().len() == 0)
        &&& (self.phase is AwaitingHead ==> self.scanner.wf() && !self.scanner.done_spec())
    }

    /// Begin a handshake: hand back the orchestrator and the serialized
    /// request, which the caller must fully write before reading anything.
    pub fn start(request: &HttpRequest) -> (r: (HttpHandshake, Vec<u8>))
        ensures
            r.0.wf(),
            r.0.phase_spec() is AwaitingWrite,
            r.0.consumed().len() == 0,
            r.1@ == request_bytes(*request),
    {
        let bytes = request.serialize();
        let hs = HttpHandshake {
            phase: HandshakePhase::AwaitingWrite,
            scanner: WaitForHttpHead::new(),
        };
        (hs, bytes)
    }

    /// The caller reports that the request was fully written: scanning may
    /// begin. Reporting a write in any other phase is a misuse.
    pub fn on_write_complete(&mut self) -> (r: Result<(), HandshakeError>)
        requires
            old(self).wf(),
        ensures
            final(self).wf(),
            old(self).phase_spec() is AwaitingWrite ==> {
                &&& r == Ok::<(), HandshakeError>(())
                &&& final(self).phase_spec() is AwaitingHead
                &&& final(self).consumed().len() == 0
            },
            !(old(self).phase_spec() is AwaitingWrite) ==> {
                &&& r == Err::<(), HandshakeError>(HandshakeError::PolledAfterCompletion)
                &&& *final(self) == *old(self)
            },
    {
        match self.phase {
            HandshakePhase::AwaitingWrite => {
                self.phase = HandshakePhase::AwaitingHead;
                Ok(())
            },
            _ => Err(HandshakeError::PolledAfterCompletion),
        }
    }

    /// The caller reports that the request could not be fully written:
    /// the handshake resolves at once with `WriteFailed`.
    pub fn on_write_failed(&mut self) -> (r: HandshakeError)
        requires
            old(self).wf(),
        ensures
            final(self).wf(),
            final(self).phase_spec() is Complete,
            old(self).phase_spec() is AwaitingWrite ==> r == HandshakeError::WriteFailed,
            !(old(self).phase_spec() is AwaitingWrite) ==> r
                == HandshakeError::PolledAfterCompletion,
    {
        let r = match self.phase {
            HandshakePhase::AwaitingWrite => HandshakeError::WriteFailed,
            _ => HandshakeError::PolledAfterCompletion,
        };
        self.phase = HandshakePhase::Complete;
        r
    }

    /// The caller hands over the next chunk read from the readable half;
    /// an empty chunk means the stream ended. Either more bytes are needed
    /// (`Ok(None)`), or the handshake resolves: on success the bytes up to
    /// the boundary offset of the stream are a head whose verdict accepted
    /// the status, and the bytes past it are the debt carried by the
    /// returned reader; on failure, with exactly the error the stream or
    /// the head verdict forced. Driving a resolved handshake, or one whose
    /// request is not yet written, is a misuse.
    pub fn on_response_chunk(&mut self, chunk: &[u8]) -> (r: Result<
        Option<HandshakeSuccess>,
        HandshakeError,
    >)
        requires
            old(self).wf(),
        ensures
            final(self).wf(),
            !(old(self).phase_spec() is AwaitingHead) ==> {
                &&& r == Err::<Option<HandshakeSuccess>, HandshakeError>(
                    HandshakeError::PolledAfterCompletion,
                )
                &&& *final(self) == *old(self)
            },
            old(self).phase_spec() is AwaitingHead ==> ({
                let whole = old(self).consumed() + chunk@;
                match r {
                    Ok(None) => {
                        &&& chunk@.len() > 0
                        &&& !head_found(whole)
                        &&& whole.len() <= MAX_HEAD_BYTES
                        &&& final(self).phase_spec() is AwaitingHead
                        &&& final(self).consumed() == whole
                    },
                    Ok(Some(success)) => {
                        &&& chunk@.len() > 0
                        &&& head_found(whole)
                        &&& is_boundary(whole, boundary_of(whole))
                        &&& head_verdict(whole.take(boundary_of(whole))) == Ok::<
                            u16,
                            HandshakeError,
                        >(success.status)
                        &&& match success.debt {
                            Option::None => boundary_of(whole) == whole.len(),
                            Option::Some(p) => {
                                &&& boundary_of(whole) < whole.len()
                                &&& p.wf()
                                &&& p.pending() == whole.skip(boundary_of(whole))
                            },
                        }
                        &&& final(self).phase_spec() is Complete
                    },
                    Err(HandshakeError::ConnectionClosedPrematurely) => {
                        &&& chunk@.len() == 0
                        &&& final(self).phase_spec() is Complete
                    },
                    Err(HandshakeError::HeaderTooLarge) => {
                        &&& chunk@.len() > 0
                        &&& !head_found(whole)
                        &&& whole.len() > MAX_HEAD_BYTES
                        &&& final(self).phase_spec() is Complete
                    },
                    Err(HandshakeError::MalformedResponseHead) => {
                        &&& chunk@.len() > 0
                        &&& head_found(whole)
                        &&& is_boundary(whole, boundary_of(whole))
                        &&& head_verdict(whole.take(boundary_of(whole))) == Err::<
                            u16,
                            HandshakeError,
                        >(HandshakeError::MalformedResponseHead)
                        &&& final(self).phase_spec() is Complete
                    },
                    Err(HandshakeError::UnsuccessfulStatus) => {
                        &&& chunk@.len() > 0
                        &&& head_found(whole)
                        &&& is_boundary(whole, boundary_of(whole))
                        &&& head_verdict(whole.take(boundary_of(whole))) == Err::<
                            u16,
                            HandshakeError,
                        >(HandshakeError::UnsuccessfulStatus)
                        &&& final(self).phase_spec() is Complete
                    },
                    Err(_) => false,
                }
            }),
    {
        match self.phase {
            HandshakePhase::AwaitingHead => {},
            _ => {
                return Err(HandshakeError::PolledAfterCompletion);
            },
        }
        let ghost whole = self.scanner.consumed() + chunk@;
        let fed = self.scanner.feed(chunk);
        match fed {
            Err(e) => {
                self.phase = HandshakePhase::Complete;
                Err(e)
            },
            Ok(None) => Ok(None),
            Ok(Some(res)) => {
                self.phase = HandshakePhase::Complete;
                proof {
                    lemma_boundary_exists(whole);
                    lemma_boundary_unique(whole, boundary_of(whole), res.offset as int);
                }
                let verdict = validate_head(&res.buf, res.offset);
                match verdict {
                    Err(e) => Err(e),
                    Ok(status) => {
                        let total = res.buf.len();
                        if res.offset == total {
                            Ok(Some(HandshakeSuccess { status, debt: None }))
                        } else {
                            let remaining = total - res.offset;
                            let p = PrependRead::new(res.buf, remaining);
                            proof {
                                assert(p.pending() =~= whole.skip(boundary_of(whole)));
                            }
                            Ok(Some(HandshakeSuccess { status, debt: Some(p) }))
                        }
                    },
                }
            },
        }
    }
}

} // verus!
