use vstd::prelude::*;

use crate::error::HandshakeError;

verus! {

/// States of the header-end detector: a five-state machine that recognises
/// the first occurrence of the byte sequence CR LF CR LF in a byte stream.
/// Any byte that does not continue the pattern resets the machine to
/// `Neutral`; the reset keeps no memory of partial overlaps, and that reset
/// behaviour is deliberate and part of the detector's contract.
#[derive(Clone, Copy, Debug, PartialEq, Eq, Structural)]
pub enum HttpHeaderEndDetectionState {
    Neutral,
    FirstCr,
    FirstLf,
    SecondCr,
    FoundHeaderEnd,
}

pub const CR: u8 = 13;
pub const LF: u8 = 10;

/// Header bytes accepted before the scan gives up with `HeaderTooLarge`.
pub const MAX_HEAD_BYTES: usize = 60000;

/// One step of the detector. `FoundHeaderEnd` is absorbing, so that the
/// state after a whole stream records whether any prefix of it reached the
/// terminator; the scanner itself stops at the first such prefix.
pub open spec fn scan_step(s: HttpHeaderEndDetectionState, b: u8) -> HttpHeaderEndDetectionState {
    match s {
        HttpHeaderEndDetectionState::Neutral => if b == CR {
            HttpHeaderEndDetectionState::FirstCr
        } else {
            HttpHeaderEndDetectionState::Neutral
        },
        HttpHeaderEndDetectionState::FirstCr => if b == LF {
            HttpHeaderEndDetectionState::FirstLf
        } else {
            HttpHeaderEndDetectionState::Neutral
        },
        HttpHeaderEndDetectionState::FirstLf => if b == CR {
            HttpHeaderEndDetectionState::SecondCr
        } else {
            HttpHeaderEndDetectionState::Neutral
        },
        HttpHeaderEndDetectionState::SecondCr => if b == LF {
            HttpHeaderEndDetectionState::FoundHeaderEnd
        } else {
            HttpHeaderEndDetectionState::Neutral
        },
        HttpHeaderEndDetectionState::FoundHeaderEnd => HttpHeaderEndDetectionState::FoundHeaderEnd,
    }
}

/// Executable form of one detector step.
pub fn scan_step_exec(s: HttpHeaderEndDetectionState, b: u8) -> (r: HttpHeaderEndDetectionState)
    ensures
        r == scan_step(s, b),
{
    match s {
        HttpHeaderEndDetectionState::Neutral => if b == CR {
            HttpHeaderEndDetectionState::FirstCr
        } else {
            HttpHeaderEndDetectionState::Neutral
        },
        HttpHeaderEndDetectionState::FirstCr => if b == LF {
            HttpHeaderEndDetectionState::FirstLf
        } else {
            HttpHeaderEndDetectionState::Neutral
        },
        HttpHeaderEndDetectionState::FirstLf => if b == CR {
            HttpHeaderEndDetectionState::SecondCr
        } else {
            HttpHeaderEndDetectionState::Neutral
        },
        HttpHeaderEndDetectionState::SecondCr => if b == LF {
            HttpHeaderEndDetectionState::FoundHeaderEnd
        } else {
            HttpHeaderEndDetectionState::Neutral
        },
        HttpHeaderEndDetectionState::FoundHeaderEnd => HttpHeaderEndDetectionState::FoundHeaderEnd,
    }
}

/// The detector state after feeding `bytes`, starting from state `s`.
pub open spec fn scan_from(s: HttpHeaderEndDetectionState, bytes: Seq<u8>) -> (
    HttpHeaderEndDetectionState)
    decreases bytes.len(),
{
    if bytes.len() == 0 {
        s
    } else {
        scan_step(scan_from(s, bytes.drop_last()), bytes.last())
    }
}

/// The detector state after feeding `bytes` from the initial state.
pub open spec fn scan_state(bytes: Seq<u8>) -> HttpHeaderEndDetectionState {
    scan_from(HttpHeaderEndDetectionState::Neutral, bytes)
}

/// Whether `bytes` contains the header terminator: since `FoundHeaderEnd`
/// is absorbing, this holds exactly when some prefix of `bytes` drives the
/// detector to `FoundHeaderEnd`.
pub open spec fn head_found(bytes: Seq<u8>) -> bool {
    scan_state(bytes) is FoundHeaderEnd
}

/// `n` is the boundary offset of `bytes`: scanning the first `n` bytes
/// finds the terminator and no shorter prefix does, so `n` points one byte
/// past the LF that completes the first CR LF CR LF.
pub open spec fn is_boundary(bytes: Seq<u8>, n: int) -> bool {
    &&& 0 <= n <= bytes.len()
    &&& head_found(bytes.take(n))
    &&& forall|m: int| 0 <= m < n ==> !head_found(bytes.take(m))
}

/// The boundary offset of a byte sequence that contains the terminator.
pub open spec fn boundary_of(bytes: Seq<u8>) -> int {
    choose|n: int| is_boundary(bytes, n)
}

/// Scanning is one forward pass over the stream: feeding `a + b` is the
/// same as feeding `a` and then feeding `b` from the state reached. The
/// detector's outcome therefore does not depend on how the stream was cut
/// into read fragments.
pub proof fn lemma_scan_from_append(s: HttpHeaderEndDetectionState, a: Seq<u8>, b: Seq<u8>)
    ensures
        scan_from(s, a + b) == scan_from(scan_from(s, a), b),
    decreases b.len(),
{
    if b.len() == 0 {
        assert(a + b =~= a);
    } else {
        lemma_scan_from_append(s, a, b.drop_last());
        assert((a + b).drop_last() =~= a + b.drop_last());
        assert((a + b).last() == b.last());
    }
}

/// `FoundHeaderEnd` is absorbing: once reached, further bytes keep it.
pub proof fn lemma_found_absorbing(bytes: Seq<u8>)
    ensures
        scan_from(HttpHeaderEndDetectionState::FoundHeaderEnd, bytes)
            == HttpHeaderEndDetectionState::FoundHeaderEnd,
    decreases bytes.len(),
{
    if bytes.len() > 0 {
        lemma_found_absorbing(bytes.drop_last());
    }
}

/// Once a prefix of the stream contains the terminator, every longer
/// prefix does too.
pub proof fn lemma_found_monotone(bytes: Seq<u8>, m: int, n: int)
    requires
        0 <= m <= n <= bytes.len(),
        head_found(bytes.take(m)),
    ensures
        head_found(bytes.take(n)),
{
    assert(bytes.take(n) =~= bytes.take(m) + bytes.subrange(m, n));
    lemma_scan_from_append(HttpHeaderEndDetectionState::Neutral, bytes.take(m), bytes.subrange(m, n));
    lemma_found_absorbing(bytes.subrange(m, n));
}

/// A stream that contains the terminator has a boundary offset, and
/// `boundary_of` names it.
pub proof fn lemma_boundary_exists(bytes: Seq<u8>)
    requires
        head_found(bytes),
    ensures
        is_boundary(bytes, boundary_of(bytes)),
    decreases bytes.len(),
{
    if bytes.len() == 0 {
        assert(false);
    } else if head_found(bytes.drop_last()) {
        lemma_boundary_exists(bytes.drop_last());
        let n = boundary_of(bytes.drop_last());
        assert(bytes.drop_last().take(n) =~= bytes.take(n));
        assert forall|m: int| 0 <= m < n implies !head_found(bytes.take(m)) by {
            assert(bytes.take(m) =~= bytes.drop_last().take(m));
        }
        assert(is_boundary(bytes, n));
    } else {
        let len = bytes.len() as int;
        assert(bytes.take(len) =~= bytes);
        assert forall|m: int| 0 <= m < len implies !head_found(bytes.take(m)) by {
            if head_found(bytes.take(m)) {
                lemma_found_monotone(bytes, m, len - 1);
                assert(bytes.take(len - 1) =~= bytes.drop_last());
            }
        }
        assert(is_boundary(bytes, len));
    }
}

/// The boundary offset is unique.
pub proof fn lemma_boundary_unique(bytes: Seq<u8>, m: int, n: int)
    requires
        is_boundary(bytes, m),
        is_boundary(bytes, n),
    ensures
        m == n,
{
    if m < n {
        assert(!head_found(bytes.take(m)));
    }
    if n < m {
        assert(!head_found(bytes.take(n)));
    }
}

/// A stream whose last four bytes are CR LF CR LF, and whose earlier part
/// leaves the detector in `Neutral`, has its boundary offset exactly at the
/// end of the stream: the scanner reports the true terminator end position.
pub proof fn lemma_terminator_at_end(bytes: Seq<u8>)
    requires
        bytes.len() >= 4,
        bytes[bytes.len() - 4] == CR,
        bytes[bytes.len() - 3] == LF,
        bytes[bytes.len() - 2] == CR,
        bytes[bytes.len() - 1] == LF,
        scan_state(bytes.take(bytes.len() - 4)) is Neutral,
    ensures
        is_boundary(bytes, bytes.len() as int),
{
    let len = bytes.len() as int;
    let pre = bytes.take(len - 4);
    let tail = bytes.subrange(len - 4, len);
    assert(bytes =~= pre + tail);
    lemma_scan_from_append(HttpHeaderEndDetectionState::Neutral, pre, tail);
    let t3 = tail.drop_last();
    let t2 = t3.drop_last();
    let t1 = t2.drop_last();
    let t0 = t1.drop_last();
    assert(t0.len() == 0);
    assert(t1.last() == CR);
    assert(t2.last() == LF);
    assert(t3.last() == CR);
    assert(tail.last() == LF);
    let s0 = scan_state(pre);
    assert(s0 == HttpHeaderEndDetectionState::Neutral);
    assert(t1.len() == 1);
    assert(scan_from(s0, t0) == s0);
    assert(scan_from(s0, t1) == HttpHeaderEndDetectionState::FirstCr);
    assert(scan_from(s0, t2) == HttpHeaderEndDetectionState::FirstLf);
    assert(scan_from(s0, t3) == HttpHeaderEndDetectionState::SecondCr);
    assert(scan_from(s0, tail) == HttpHeaderEndDetectionState::FoundHeaderEnd);
    assert(bytes.take(len) =~= bytes);
    assert(head_found(bytes.take(len)));
    assert(pre + t1 =~= bytes.take(len - 3));
    assert(pre + t2 =~= bytes.take(len - 2));
    assert(pre + t3 =~= bytes.take(len - 1));
    lemma_scan_from_append(HttpHeaderEndDetectionState::Neutral, pre, t1);
    lemma_scan_from_append(HttpHeaderEndDetectionState::Neutral, pre, t2);
    lemma_scan_from_append(HttpHeaderEndDetectionState::Neutral, pre, t3);
    assert forall|m: int| 0 <= m < len implies !head_found(bytes.take(m)) by {
        if head_found(bytes.take(m)) {
            if m <= len - 4 {
                lemma_found_monotone(bytes, m, len - 4);
            } else if m == len - 3 {
            } else if m == len - 2 {
            } else {
                assert(m == len - 1);
            }
        }
    }
}

/// What a completed scan hands back: `buf` holds every byte consumed from
/// the stream; bytes before `offset` are the response head, terminator
/// included, and bytes from `offset` on are debt, body bytes already read.
#[derive(Debug)]
pub struct WaitForHttpHeadResult {
    pub buf: Vec<u8>,
    pub offset: usize,
}

/// The header boundary scanner: a resumable state holder that is fed the
/// chunks an external reader produces, in stream order, and stops at the
/// first occurrence of the header terminator.
pub struct WaitForHttpHead {
    buf: Vec<u8>,
    state: HttpHeaderEndDetectionState,
    done: bool,
}

impl WaitForHttpHead {
    /// Every byte fed to the scanner so far, in stream order.
    pub closed spec fn consumed(self) -> Seq<u8> {
        self.buf@
    }

    /// Whether the scan has resolved, successfully or not.
    pub closed spec fn done_spec(self) -> bool {
        self.done
    }

    /// A live scanner tracks the detector state of exactly the bytes fed so
    /// far, has not yet seen the terminator, and is within the size cap.
    pub closed spec fn wf(self) -> bool {
        !self.done ==> {
            &&& self.state == scan_state(self.buf@)
            &&& !head_found(self.buf@)
            &&& self.buf@.len() <= MAX_HEAD_BYTES
        }
    }

    /// A fresh scanner, no bytes consumed.
    pub fn new() -> (r: WaitForHttpHead)
        ensures
            r.wf(),
            !r.done_spec(),
            r.consumed() == Seq::<u8>::empty(),
    {
        let r = WaitForHttpHead {
            buf: Vec::new(),
            state: HttpHeaderEndDetectionState::Neutral,
            done: false,
        };
        proof {
            assert(r.buf@ =~= Seq::<u8>::empty());
        }
        r
    }

    /// Feed the next chunk read from the stream; an empty chunk means the
    /// stream ended. Either the scan still needs more bytes (`Ok(None)`),
    /// or it resolves: with the boundary found (`Ok(Some(..))`, the scan's
    /// result holding every consumed byte and the boundary offset), or with
    /// the failure the stream forced. Once resolved, feeding again yields
    /// `PolledAfterCompletion`.
    pub fn feed(&mut self, chunk: &[u8]) -> (r: Result<
        Option<WaitForHttpHeadResult>,
        HandshakeError,
    >)
        requires
            old(self).wf(),
        ensures
            final(self).wf(),
            old(self).done_spec() ==> {
                &&& r == Err::<Option<WaitForHttpHeadResult>, HandshakeError>(
                    HandshakeError::PolledAfterCompletion,
                )
                &&& *final(self) == *old(self)
            },
            !old(self).done_spec() ==> ({
                let whole = old(self).consumed() + chunk@;
                match r {
                    Ok(Some(res)) => {
                        &&& chunk@.len() > 0
                        &&& head_found(whole)
                        &&& res.buf@ == whole
                        &&& is_boundary(whole, res.offset as int)
                        &&& final(self).done_spec()
                    },
                    Ok(None) => {
                        &&& chunk@.len() > 0
                        &&& !head_found(whole)
                        &&& whole.len() <= MAX_HEAD_BYTES
                        &&& !final(self).done_spec()
                        &&& final(self).consumed() == whole
                    },
                    Err(HandshakeError::ConnectionClosedPrematurely) => {
                        &&& chunk@.len() == 0
                        &&& final(self).done_spec()
                    },
                    Err(HandshakeError::HeaderTooLarge) => {
                        &&& chunk@.len() > 0
                        &&& !head_found(whole)
                        &&& whole.len() > MAX_HEAD_BYTES
                        &&& final(self).done_spec()
                    },
                    Err(_) => false,
                }
            }),
    {
        if self.done {
            return Err(HandshakeError::PolledAfterCompletion);
        }
        if chunk.len() == 0 {
            self.done = true;
            return Err(HandshakeError::ConnectionClosedPrematurely);
        }
        let ghost pre = self.buf@;
        let ghost whole = pre + chunk@;
        let start: usize = self.buf.len();

        let mut i: usize = 0;
        while i < chunk.len()
            invariant
                i <= chunk.len(),
                !old(self).done_spec(),
                pre == old(self).consumed(),
                whole == pre + chunk@,
                self.buf@ == pre + chunk@.take(i as int),
                self.state == scan_state(pre),
                !head_found(pre),
                pre.len() <= MAX_HEAD_BYTES,
                !self.done,
            decreases chunk.len() - i,
        {
            let b: u8 = chunk[i];
            self.buf.push(b);
            proof {
                assert(pre + chunk@.take(i as int) + seq![chunk@[i as int]]
                    =~= pre + chunk@.take(i + 1));
            }
            i += 1;
        }
        proof {
            assert(self.buf@ =~= whole);
            assert(whole.take(start as int) =~= pre);
            assert forall|m: int| 0 <= m <= start implies !head_found(whole.take(m)) by {
                if head_found(whole.take(m)) {
                    lemma_found_monotone(whole, m, start as int);
                }
            }
        }

        let mut j: usize = start;
        while j < self.buf.len()
            invariant
                start <= j <= self.buf@.len(),
                !old(self).done_spec(),
                pre == old(self).consumed(),
                whole == pre + chunk@,
                chunk@.len() > 0,
                self.buf@ == whole,
                !self.done,
                self.state == scan_state(whole.take(j as int)),
                forall|m: int| 0 <= m <= j ==> !head_found(whole.take(m)),
            decreases self.buf@.len() - j,
        {
            let b: u8 = self.buf[j];
            let next = scan_step_exec(self.state, b);
            proof {
                assert(whole.take(j + 1).drop_last() =~= whole.take(j as int));
                assert(whole.take(j + 1).last() == whole[j as int]);
                assert(scan_state(whole.take(j + 1)) == scan_step(
                    scan_state(whole.take(j as int)),
                    whole[j as int],
                ));
            }
            self.state = next;
            j += 1;
            if matches!(self.state, HttpHeaderEndDetectionState::FoundHeaderEnd) {
                self.done = true;
                let buf = self.buf.split_off(0);
                proof {
                    assert(buf@ =~= whole);
                    assert(head_found(whole.take(j as int)));
                    lemma_found_monotone(whole, j as int, whole.len() as int);
                    assert(whole.take(whole.len() as int) =~= whole);
                    assert(is_boundary(whole, j as int));
                }
                return Ok(Some(WaitForHttpHeadResult { buf, offset: j }));
            }
        }
        proof {
            assert(whole.take(whole.len() as int) =~= whole);
        }
        if self.buf.len() > MAX_HEAD_BYTES {
            self.done = true;
            return Err(HandshakeError::HeaderTooLarge);
        }
        Ok(None)
    }
}

} // verus!
